//! The closed set of structured events that a package-index refresh produces,
//! with the canonical one-line rendering of each.
//!
//! Every event is created by exactly one sink callback or by the translation
//! of raw backend error text; events are never mutated after creation.

use vstd::prelude::*;
use crate::strings::{dec_str, u64_to_string};

verus! {

/// The download state a backend reports for one index item.
#[derive(Clone, Copy, Debug, PartialEq, Eq, Structural)]
pub enum ItemState {
    /// The item is waiting to be downloaded.
    StatIdle,
    /// The item is currently being downloaded.
    StatFetching,
    /// The item has been successfully downloaded.
    StatDone,
    /// An error was encountered while downloading this item.
    StatError,
    /// The item was downloaded but its authenticity could not be verified.
    StatAuthError,
    /// The item could not be downloaded because of a transient network error.
    StatTransientNetworkError,
}

/// Decodes the backend's raw state integer; anything above the closed range
/// is a protocol violation and decodes to nothing.
pub open spec fn item_state_of(raw: u32) -> Option<ItemState> {
    if raw == 0 {
        Some(ItemState::StatIdle)
    } else if raw == 1 {
        Some(ItemState::StatFetching)
    } else if raw == 2 {
        Some(ItemState::StatDone)
    } else if raw == 3 {
        Some(ItemState::StatError)
    } else if raw == 4 {
        Some(ItemState::StatAuthError)
    } else if raw == 5 {
        Some(ItemState::StatTransientNetworkError)
    } else {
        None
    }
}

impl ItemState {
    /// Decodes a raw backend state integer, rejecting out-of-range values.
    pub fn try_from(value: u32) -> (r: Result<ItemState, ()>)
        ensures
            r matches Ok(s) ==> item_state_of(value) == Some(s),
            r is Err <==> item_state_of(value) is None,
            r is Err ==> r == Err::<ItemState, ()>(()),
    {
        match value {
            0 => Ok(ItemState::StatIdle),
            1 => Ok(ItemState::StatFetching),
            2 => Ok(ItemState::StatDone),
            3 => Ok(ItemState::StatError),
            4 => Ok(ItemState::StatAuthError),
            5 => Ok(ItemState::StatTransientNetworkError),
            _ => Err(()),
        }
    }
}

/// One `;`-separated sub-message of the backend's terminal error text,
/// classified by its two-character severity prefix.  The stored string still
/// carries the prefix, as the backend handed it over.
#[derive(Clone, Debug)]
pub enum OutputError {
    Error(String),
    Warning(String),
    Notice(String),
    Debug(String),
}

/// The mathematical shape of an [`OutputError`].
pub enum DiagModel {
    Error(Seq<char>),
    Warning(Seq<char>),
    Notice(Seq<char>),
    Debug(Seq<char>),
}

impl View for OutputError {
    type V = DiagModel;

    open spec fn view(&self) -> DiagModel {
        match self {
            OutputError::Error(m) => DiagModel::Error(m@),
            OutputError::Warning(m) => DiagModel::Warning(m@),
            OutputError::Notice(m) => DiagModel::Notice(m@),
            OutputError::Debug(m) => DiagModel::Debug(m@),
        }
    }
}

/// The raw text of a classified sub-message, prefix included.
pub open spec fn diag_text(d: DiagModel) -> Seq<char> {
    match d {
        DiagModel::Error(m) => m,
        DiagModel::Warning(m) => m,
        DiagModel::Notice(m) => m,
        DiagModel::Debug(m) => m,
    }
}

/// Whether `s` begins with the two characters `first` then `:`.
pub open spec fn has_prefix(s: Seq<char>, first: char) -> bool {
    s.len() >= 2 && s[0] == first && s[1] == ':'
}

/// Classifies one raw sub-message by its severity prefix; a sub-message
/// without a recognized prefix is a contract violation by the backend and
/// classifies to nothing.
pub open spec fn diag_of(s: Seq<char>) -> Option<DiagModel> {
    if has_prefix(s, 'E') {
        Some(DiagModel::Error(s))
    } else if has_prefix(s, 'W') {
        Some(DiagModel::Warning(s))
    } else if has_prefix(s, 'N') {
        Some(DiagModel::Notice(s))
    } else if has_prefix(s, 'D') {
        Some(DiagModel::Debug(s))
    } else {
        None
    }
}

impl OutputError {
    /// Classifies one raw sub-message, rejecting one with no recognized
    /// severity prefix; the rejected text comes back in the error.
    pub fn try_from(value: &str) -> (r: Result<OutputError, String>)
        ensures
            r matches Ok(d) ==> diag_of(value@) == Some(d@),
            r matches Err(m) ==> diag_of(value@) is None && m@ == value@,
            r is Ok <==> diag_of(value@) is Some,
    {
        let len = value.unicode_len();
        if len >= 2 && value.get_char(1) == ':' {
            let first = value.get_char(0);
            if first == 'E' {
                return Ok(OutputError::Error(String::from_str(value)));
            }
            if first == 'W' {
                return Ok(OutputError::Warning(String::from_str(value)));
            }
            if first == 'N' {
                return Ok(OutputError::Notice(String::from_str(value)));
            }
            if first == 'D' {
                return Ok(OutputError::Debug(String::from_str(value)));
            }
        }
        Err(String::from_str(value))
    }
}

/// One recorded event of a refresh operation.
#[derive(Clone, Debug)]
pub enum ProgressOutput {
    /// An item was already up to date: item id and description.
    Hit(u32, String),
    /// An item's download started: item id, description, expected size.
    Fetch(u32, String, u64),
    /// The operation finished cleanly: fetched bytes, elapsed time, rate.
    Stop(u64, u64, u64),
    /// An item failed: item id, description, state, raw error text.
    Fail(u32, String, ItemState, String),
    /// A classified sub-message of the operation's own terminal error text.
    Error(OutputError),
}

/// The mathematical shape of a [`ProgressOutput`].
pub enum EventModel {
    Hit(u32, Seq<char>),
    Fetch(u32, Seq<char>, u64),
    Stop(u64, u64, u64),
    Fail(u32, Seq<char>, ItemState, Seq<char>),
    Error(DiagModel),
}

impl View for ProgressOutput {
    type V = EventModel;

    open spec fn view(&self) -> EventModel {
        match self {
            ProgressOutput::Hit(id, d) => EventModel::Hit(*id, d@),
            ProgressOutput::Fetch(id, d, size) => EventModel::Fetch(*id, d@, *size),
            ProgressOutput::Stop(f, e, c) => EventModel::Stop(*f, *e, *c),
            ProgressOutput::Fail(id, d, st, t) => EventModel::Fail(*id, d@, *st, t@),
            ProgressOutput::Error(diag) => EventModel::Error(diag@),
        }
    }
}

/// A diagnostic always carries its two-character prefix, so rendering may
/// strip it.
pub open spec fn event_wf(ev: EventModel) -> bool {
    match ev {
        EventModel::Error(diag) => diag_text(diag).len() >= 2,
        _ => true,
    }
}

/// Human-readable forms of an event's byte counts and times, as the backend's
/// own formatting utilities produce them.  Only the sized events read them:
/// `size` for a fetch's expected size or a stop's fetched bytes, `elapsed`
/// and `rate` for a stop summary.
#[derive(Clone, Debug)]
pub struct UnitText {
    pub size: String,
    pub elapsed: String,
    pub rate: String,
}

/// The canonical one-line rendering of an event, given the human-readable
/// forms of its numeric fields.
pub open spec fn spec_render(
    ev: EventModel,
    size: Seq<char>,
    elapsed: Seq<char>,
    rate: Seq<char>,
) -> Seq<char> {
    match ev {
        EventModel::Hit(id, d) => "Hit:"@ + dec_str(id as nat) + " "@ + d,
        EventModel::Fetch(id, d, _expected) => "Get:"@ + dec_str(id as nat) + " "@ + d + " ["@
            + size + "]"@,
        EventModel::Stop(fetched, _elapsed, _rate) => if fetched != 0 {
            "Fetched "@ + size + " in "@ + elapsed + " ("@ + rate + "/s)"@
        } else {
            "Nothing to fetch."@
        },
        EventModel::Fail(id, d, st, _text) => (if st == ItemState::StatIdle || st
            == ItemState::StatDone {
            "Ign:"@
        } else {
            "Err:"@
        }) + dec_str(id as nat) + " "@ + d,
        EventModel::Error(diag) => (match diag {
            DiagModel::Error(_) => "E:"@,
            DiagModel::Warning(_) => "W:"@,
            DiagModel::Notice(_) => "N:"@,
            DiagModel::Debug(_) => "D:"@,
        }) + diag_text(diag).skip(2),
    }
}

impl ProgressOutput {
    /// Renders this event as its canonical line.  `units` holds the
    /// backend-formatted text of the event's numeric fields; events without
    /// such fields ignore it.
    pub fn render(&self, units: &UnitText) -> (r: String)
        requires
            event_wf(self@),
        ensures
            r@ == spec_render(self@, units.size@, units.elapsed@, units.rate@),
    {
        match self {
            ProgressOutput::Hit(id, d) => {
                let mut r = String::from_str("Hit:");
                r.append(u64_to_string(*id as u64).as_str());
                r.append(" ");
                r.append(d.as_str());
                r
            },
            ProgressOutput::Fetch(id, d, _expected) => {
                let mut r = String::from_str("Get:");
                r.append(u64_to_string(*id as u64).as_str());
                r.append(" ");
                r.append(d.as_str());
                r.append(" [");
                r.append(units.size.as_str());
                r.append("]");
                r
            },
            ProgressOutput::Stop(fetched, _elapsed, _rate) => {
                if *fetched != 0 {
                    let mut r = String::from_str("Fetched ");
                    r.append(units.size.as_str());
                    r.append(" in ");
                    r.append(units.elapsed.as_str());
                    r.append(" (");
                    r.append(units.rate.as_str());
                    r.append("/s)");
                    r
                } else {
                    String::from_str("Nothing to fetch.")
                }
            },
            ProgressOutput::Fail(id, d, st, _text) => {
                let ignored = match st {
                    ItemState::StatIdle => true,
                    ItemState::StatDone => true,
                    _ => false,
                };
                let mut r = if ignored {
                    String::from_str("Ign:")
                } else {
                    String::from_str("Err:")
                };
                r.append(u64_to_string(*id as u64).as_str());
                r.append(" ");
                r.append(d.as_str());
                r
            },
            ProgressOutput::Error(diag) => {
                let (prefix, msg): (&str, &String) = match diag {
                    OutputError::Error(m) => ("E:", m),
                    OutputError::Warning(m) => ("W:", m),
                    OutputError::Notice(m) => ("N:", m),
                    OutputError::Debug(m) => ("D:", m),
                };
                let mut r = String::from_str(prefix);
                let len = msg.as_str().unicode_len();
                r.append(msg.as_str().substring_char(2, len));
                r
            },
        }
    }
}

} // verus!
