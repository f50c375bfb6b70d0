//! Translation of the backend's terminal error text — a single string of
//! `;`-separated sub-messages — into structured diagnostic events.

use vstd::prelude::*;
use crate::events::{diag_of, DiagModel, EventModel, OutputError, ProgressOutput};

verus! {

/// The `;`-separated parts of `s`, in order: splitting at every separator,
/// a string without one is the single part, and empty parts are kept.
pub open spec fn spec_split(s: Seq<char>) -> Seq<Seq<char>>
    decreases s.len(),
{
    match s.index_of_first(';') {
        Some(i) => if 0 <= i < s.len() {
            seq![s.take(i)] + spec_split(s.skip(i + 1))
        } else {
            seq![s]
        },
        None => seq![s],
    }
}

fn split_semis_from(s: &str, from: usize, len: usize) -> (r: Vec<String>)
    requires
        from <= len,
        len == s@.len(),
    ensures
        r@.map_values(|p: String| p@) == spec_split(s@.skip(from as int)),
    decreases len - from,
{
    let ghost suffix = s@.skip(from as int);
    let mut i = from;
    while i < len && s.get_char(i) != ';'
        invariant
            from <= i <= len,
            len == s@.len(),
            forall|k: int| from <= k < i ==> s@[k] != ';',
        decreases len - i,
    {
        i = i + 1;
    }
    if i == len {
        proof {
            suffix.index_of_first_ensures(';');
            match suffix.index_of_first(';') {
                Some(j) => {
                    assert(suffix[j] == s@[from + j]);
                    assert(false);
                },
                None => {},
            }
        }
        let part = s.substring_char(from, len);
        let mut r: Vec<String> = Vec::new();
        r.push(String::from_str(part));
        proof {
            assert(suffix =~= s@.subrange(from as int, len as int));
            assert(r@.map_values(|p: String| p@) =~= seq![suffix]);
        }
        r
    } else {
        proof {
            suffix.index_of_first_ensures(';');
            assert(suffix[i - from] == s@[i as int]);
            assert(suffix.contains(s@[i as int]));
            match suffix.index_of_first(';') {
                Some(j) => {
                    if j < i - from {
                        assert(suffix[j] == s@[from + j]);
                        assert(false);
                    }
                    if j > i - from {
                        assert(false);
                    }
                },
                None => {
                    assert(false);
                },
            }
        }
        let part = s.substring_char(from, i);
        let mut rest = split_semis_from(s, i + 1, len);
        let ghost rest_views = rest@.map_values(|p: String| p@);
        let mut r: Vec<String> = Vec::new();
        r.push(String::from_str(part));
        r.append(&mut rest);
        proof {
            assert(suffix.skip(i - from + 1) =~= s@.skip(i + 1));
            assert(suffix.take(i - from) =~= s@.subrange(from as int, i as int));
            assert(r@.map_values(|p: String| p@) =~= seq![suffix.take(i - from)] + rest_views);
        }
        r
    }
}

/// Splits a raw error string at every `;`, keeping empty parts.
pub fn split_semis(s: &str) -> (r: Vec<String>)
    ensures
        r@.map_values(|p: String| p@) == spec_split(s@),
{
    let len = s.unicode_len();
    let r = split_semis_from(s, 0, len);
    proof {
        assert(s@.skip(0) =~= s@);
    }
    r
}

/// The diagnostic events that a fully well-formed raw error string yields.
pub open spec fn spec_translated(parts: Seq<Seq<char>>) -> Seq<EventModel> {
    parts.map_values(|p: Seq<char>| EventModel::Error(diag_of(p)->Some_0))
}

/// Translates the backend's raw terminal error text into one diagnostic
/// event per `;`-separated sub-message.  A sub-message with no recognized
/// severity prefix is a contract violation by the backend: translation stops
/// at the first such part and hands its text back as the error.
pub fn translate_diagnostics(raw: &str) -> (r: Result<Vec<ProgressOutput>, String>)
    ensures
        r is Ok <==> (forall|k: int|
            0 <= k < spec_split(raw@).len() ==> (#[trigger] diag_of(spec_split(raw@)[k])) is Some),
        r matches Ok(v) ==> v@.map_values(|ev: ProgressOutput| ev@) == spec_translated(
            spec_split(raw@),
        ),
        r matches Err(m) ==> exists|i: int|
            {
                &&& 0 <= i < spec_split(raw@).len()
                &&& diag_of(#[trigger] spec_split(raw@)[i]) is None
                &&& forall|j: int| 0 <= j < i ==> diag_of(#[trigger] spec_split(raw@)[j]) is Some
                &&& m@ == spec_split(raw@)[i]
            },
{
    let parts = split_semis(raw);
    let ghost part_views = spec_split(raw@);
    let mut events: Vec<ProgressOutput> = Vec::new();
    for i in 0..parts.len()
        invariant
            part_views == parts@.map_values(|p: String| p@),
            part_views == spec_split(raw@),
            forall|j: int| 0 <= j < i ==> (#[trigger] diag_of(part_views[j])) is Some,
            events@.map_values(|ev: ProgressOutput| ev@) == spec_translated(
                part_views.take(i as int),
            ),
    {
        match OutputError::try_from(parts[i].as_str()) {
            Ok(d) => {
                let ghost dm = d@;
                let ghost pre = events@;
                proof {
                    assert(part_views[i as int] == parts@[i as int]@);
                    assert(diag_of(part_views[i as int]) == Some(dm));
                }
                events.push(ProgressOutput::Error(d));
                proof {
                    let lhs = events@.map_values(|ev: ProgressOutput| ev@);
                    let rhs = spec_translated(part_views.take(i + 1));
                    assert(pre.map_values(|ev: ProgressOutput| ev@).len() == i as int);
                    assert forall|j: int| 0 <= j < lhs.len() implies lhs[j] == rhs[j] by {
                        assert(part_views.take(i + 1)[j] == part_views[j]);
                        if j < i {
                            assert(lhs[j] == pre.map_values(|ev: ProgressOutput| ev@)[j]);
                            assert(lhs[j] == spec_translated(part_views.take(i as int))[j]);
                            assert(part_views.take(i as int)[j] == part_views[j]);
                        } else {
                            assert(events@[j] == ProgressOutput::Error(d));
                            assert(lhs[j] == EventModel::Error(dm));
                        }
                    };
                    assert(lhs =~= rhs);
                }
            },
            Err(m) => {
                proof {
                    assert(part_views[i as int] == parts@[i as int]@);
                    assert(diag_of(part_views[i as int]) is None);
                }
                return Err(m);
            },
        }
    }
    proof {
        assert(part_views.take(part_views.len() as int) =~= part_views);
    }
    Ok(events)
}

/// Completes one refresh: to the events the sink collected it appends, when
/// the operation itself reported failure text, that text's diagnostic
/// translation.  An unprefixed sub-message aborts with its text as the
/// error, and the collected events are dropped with it.
pub fn collect_output(events: Vec<ProgressOutput>, failure: Option<&str>) -> (r: Result<
    Vec<ProgressOutput>,
    String,
>)
    ensures
        failure is None ==> (r matches Ok(v) && v == events),
        failure matches Some(raw) ==> {
            &&& (r is Ok <==> (forall|k: int|
                0 <= k < spec_split(raw@).len() ==> (#[trigger] diag_of(
                    spec_split(raw@)[k],
                )) is Some))
            &&& (r matches Ok(v) ==> v@.map_values(|ev: ProgressOutput| ev@) == events@.map_values(
                |ev: ProgressOutput| ev@,
            ) + spec_translated(spec_split(raw@)))
            &&& (r matches Err(m) ==> exists|i: int|
                {
                    &&& 0 <= i < spec_split(raw@).len()
                    &&& diag_of(#[trigger] spec_split(raw@)[i]) is None
                    &&& m@ == spec_split(raw@)[i]
                })
        },
{
    match failure {
        None => Ok(events),
        Some(raw) => {
            match translate_diagnostics(raw) {
                Ok(mut translated) => {
                    let ghost event_views = events@.map_values(|ev: ProgressOutput| ev@);
                    let ghost translated_views = translated@.map_values(|ev: ProgressOutput| ev@);
                    let mut combined = events;
                    combined.append(&mut translated);
                    proof {
                        assert(combined@.map_values(|ev: ProgressOutput| ev@) =~= event_views
                            + translated_views);
                    }
                    Ok(combined)
                },
                Err(m) => Err(m),
            }
        },
    }
}

} // verus!
