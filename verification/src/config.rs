//! The persisted configuration's data model: the SMTP account and the shape
//! of the notification mail.  Reading and writing the configuration file,
//! and turning these plain values into transport-level ones, happen outside
//! this library.

use vstd::prelude::*;
use crate::strings::{clone_strings, dec_str, u64_to_string};
use crate::util::get_hostname;

verus! {

/// The SMTP relay and the credentials to authenticate against it.
pub struct SMTP {
    pub relay: String,
    pub auth_username: String,
    pub auth_password: String,
}

impl SMTP {
    pub fn new(relay: String, auth_username: String, auth_password: String) -> (s: Self)
        ensures
            s.relay == relay,
            s.auth_username == auth_username,
            s.auth_password == auth_password,
    {
        Self { relay, auth_username, auth_password }
    }

    pub fn relay(&self) -> (r: String)
        ensures
            r == self.relay,
    {
        self.relay.clone()
    }

    pub fn username(&self) -> (r: String)
        ensures
            r == self.auth_username,
    {
        self.auth_username.clone()
    }

    pub fn password(&self) -> (r: String)
        ensures
            r == self.auth_password,
    {
        self.auth_password.clone()
    }
}

impl Default for SMTP {
    fn default() -> (s: SMTP)
        ensures
            s.relay@ == Seq::<char>::empty(),
            s.auth_username@ == Seq::<char>::empty(),
            s.auth_password@ == Seq::<char>::empty(),
    {
        SMTP { relay: String::new(), auth_username: String::new(), auth_password: String::new() }
    }
}

/// The sender, recipients and subject of the notification mail, with the
/// optional text blocks around the report.  Addresses are held as plain
/// text; the transport outside this library parses them.
pub struct Mail {
    pub from: String,
    pub to: Vec<String>,
    pub subject: String,
    pub html: bool,
    pub prepend: Option<String>,
    pub append: Option<String>,
}

/// A subject template rendered: every `#` becomes the decimal update count
/// and every `@` the host's name, all other characters stay.
pub open spec fn spec_subject(subject: Seq<char>, count: nat, host: Seq<char>) -> Seq<char>
    decreases subject.len(),
{
    if subject.len() == 0 {
        Seq::empty()
    } else {
        spec_subject(subject.drop_last(), count, host) + (if subject.last() == '#' {
            dec_str(count)
        } else if subject.last() == '@' {
            host
        } else {
            seq![subject.last()]
        })
    }
}

impl Mail {
    /// A new mail shape with the given sender, recipients and subject; the
    /// rest keeps the defaults.
    pub fn new(from: String, to: Vec<String>, subject: String) -> (m: Self)
        ensures
            m.from == from,
            m.to == to,
            m.subject == subject,
            m.html == true,
            m.prepend is None,
            m.append is None,
    {
        Self { from, to, subject, html: true, prepend: None, append: None }
    }

    /// The recipients, as given.
    pub fn to(&self) -> (r: Vec<String>)
        ensures
            r@ == self.to@,
    {
        clone_strings(&self.to)
    }

    /// Renders the subject template against an explicitly given host name.
    pub fn subject_fmt_with(&self, count: usize, hostname: &str) -> (r: String)
        ensures
            r@ == spec_subject(self.subject@, count as nat, hostname@),
    {
        let s = self.subject.as_str();
        let len = s.unicode_len();
        let count_str = u64_to_string(count as u64);
        let mut r = String::new();
        for i in 0..len
            invariant
                s@ == self.subject@,
                len == s@.len(),
                count_str@ == dec_str(count as nat),
                r@ == spec_subject(s@.take(i as int), count as nat, hostname@),
        {
            let c = s.get_char(i);
            if c == '#' {
                r.append(count_str.as_str());
            } else if c == '@' {
                r.append(hostname);
            } else {
                r.append(s.substring_char(i, i + 1));
            }
            proof {
                assert(s@.take(i + 1).drop_last() =~= s@.take(i as int));
                assert(s@.take(i + 1).last() == s@[i as int]);
                assert(s@.subrange(i as int, i + 1) =~= seq![s@[i as int]]);
            }
        }
        proof {
            assert(s@.take(len as int) =~= s@);
        }
        r
    }

    /// Renders the subject template against this host's name, or against
    /// nothing where the machine has no usable one.
    pub fn subject_fmt(&self, count: usize) -> (r: String)
        ensures
            exists|host: Seq<char>|
                r@ == spec_subject(self.subject@, count as nat, host),
    {
        let host = match get_hostname() {
            Some(h) => h,
            None => String::new(),
        };
        self.subject_fmt_with(count, host.as_str())
    }

    /// The subject template, as given.
    pub fn subject(&self) -> (r: String)
        ensures
            r == self.subject,
    {
        self.subject.clone()
    }

    /// Whether the mail carries an HTML alternative beside the plain text.
    pub fn html(&self) -> (r: bool)
        ensures
            r == self.html,
    {
        self.html
    }

    /// The text block put before the report, if any.
    pub fn prepend(&self) -> (r: Option<String>)
        ensures
            r == self.prepend,
    {
        match &self.prepend {
            Some(p) => Some(p.clone()),
            None => None,
        }
    }

    /// The text block put after the report, if any.
    pub fn append(&self) -> (r: Option<String>)
        ensures
            r == self.append,
    {
        match &self.append {
            Some(a) => Some(a.clone()),
            None => None,
        }
    }
}

impl Default for Mail {
    fn default() -> (m: Mail)
        ensures
            m.from@ == Seq::<char>::empty(),
            m.to@ == Seq::<String>::empty(),
            m.subject@ == "There are # package updates available for @"@,
            m.html == true,
            m.prepend is None,
            m.append is None,
    {
        Mail {
            subject: String::from_str("There are # package updates available for @"),
            html: true,
            from: String::new(),
            to: Vec::new(),
            prepend: None,
            append: None,
        }
    }
}

/// The whole persisted configuration: the SMTP account and the mail shape.
pub struct Config {
    pub smtp: SMTP,
    pub mail: Mail,
}

impl Default for Config {
    fn default() -> (c: Config)
        ensures
            c.smtp.relay@ == Seq::<char>::empty(),
            c.mail.subject@ == "There are # package updates available for @"@,
            c.mail.html == true,
    {
        Config { smtp: Default::default(), mail: Default::default() }
    }
}

} // verus!
