//! The one machine-dependent lookup the report needs: this host's name.

use vstd::prelude::*;

verus! {

/// Relies on nix::unistd::gethostname for the machine's hostname; nothing is
/// promised of the text, and a name that is no valid UTF-8 comes back as
/// nothing.
#[verifier::external_body]
pub fn get_hostname() -> Option<String> {
    nix::unistd::gethostname().ok().and_then(|h| h.into_string().ok())
}

} // verus!
