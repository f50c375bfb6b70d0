//! The callback protocol of the refresh backend, as data: one value per
//! callback invocation, a specification of what each invocation records, and
//! the laws tying any sequence of invocations to the drained log.

use vstd::prelude::*;
use vstd::seq_lib::*;
use crate::events::{item_state_of, EventModel};
use crate::sink::AptAcquireProgress;

verus! {

/// One callback invocation of the refresh backend, with its arguments.
#[derive(Debug)]
pub enum Callback {
    /// An item already up to date: id and description.
    Hit(u32, String),
    /// An item's download started: id, description, expected size.
    Fetch(u32, String, u64),
    /// An item failed: id, description, raw state, error text.
    Fail(u32, String, u32, String),
    /// The operation finished: fetched bytes, elapsed time, rate, and whether
    /// errors are still pending.
    Stop(u64, u64, u64, bool),
    /// A periodic progress sample.
    Pulse,
    /// The operation started.
    Start,
    /// An item was completely fetched.
    Done,
}

/// The mathematical shape of a [`Callback`].
pub enum CallbackModel {
    Hit(u32, Seq<char>),
    Fetch(u32, Seq<char>, u64),
    Fail(u32, Seq<char>, u32, Seq<char>),
    Stop(u64, u64, u64, bool),
    Pulse,
    Start,
    Done,
}

impl View for Callback {
    type V = CallbackModel;

    open spec fn view(&self) -> CallbackModel {
        match self {
            Callback::Hit(id, d) => CallbackModel::Hit(*id, d@),
            Callback::Fetch(id, d, size) => CallbackModel::Fetch(*id, d@, *size),
            Callback::Fail(id, d, status, t) => CallbackModel::Fail(*id, d@, *status, t@),
            Callback::Stop(f, e, c, p) => CallbackModel::Stop(*f, *e, *c, *p),
            Callback::Pulse => CallbackModel::Pulse,
            Callback::Start => CallbackModel::Start,
            Callback::Done => CallbackModel::Done,
        }
    }
}

/// A failure invocation must carry a raw state inside the closed range;
/// everything else the protocol always accepts.
pub open spec fn callback_wf(c: CallbackModel) -> bool {
    match c {
        CallbackModel::Fail(_, _, status, _) => item_state_of(status) is Some,
        _ => true,
    }
}

/// Whether an invocation appends an event to the log: the three item
/// callbacks always do, a stop only when no errors are pending, and the
/// pulse, start and done callbacks never do.
pub open spec fn records_event(c: CallbackModel) -> bool {
    match c {
        CallbackModel::Hit(..) => true,
        CallbackModel::Fetch(..) => true,
        CallbackModel::Fail(..) => true,
        CallbackModel::Stop(_, _, _, pending_errors) => !pending_errors,
        CallbackModel::Pulse => false,
        CallbackModel::Start => false,
        CallbackModel::Done => false,
    }
}

/// The event a recording invocation appends.
pub open spec fn event_of(c: CallbackModel) -> EventModel {
    match c {
        CallbackModel::Hit(id, d) => EventModel::Hit(id, d),
        CallbackModel::Fetch(id, d, size) => EventModel::Fetch(id, d, size),
        CallbackModel::Fail(id, d, status, t) => EventModel::Fail(
            id,
            d,
            item_state_of(status)->Some_0,
            t,
        ),
        CallbackModel::Stop(f, e, c, _) => EventModel::Stop(f, e, c),
        _ => EventModel::Stop(0, 0, 0),
    }
}

/// What one invocation appends to the log: one whole event, or nothing.
pub open spec fn recorded(c: CallbackModel) -> Seq<EventModel> {
    if records_event(c) {
        seq![event_of(c)]
    } else {
        Seq::empty()
    }
}

/// What a whole sequence of invocations leaves in the log, in invocation
/// order.
pub open spec fn recorded_all(cs: Seq<CallbackModel>) -> Seq<EventModel>
    decreases cs.len(),
{
    if cs.len() == 0 {
        Seq::empty()
    } else {
        recorded_all(cs.drop_last()) + recorded(cs.last())
    }
}

/// Hands one invocation to the sink, exactly as the backend's call would.
pub fn dispatch(sink: &mut AptAcquireProgress, c: &Callback)
    requires
        callback_wf(c@),
    ensures
        final(sink)@ == old(sink)@ + recorded(c@),
{
    match c {
        Callback::Hit(id, d) => sink.hit(*id, d.clone()),
        Callback::Fetch(id, d, size) => sink.fetch(*id, d.clone(), *size),
        Callback::Fail(id, d, status, t) => sink.fail(*id, d.clone(), *status, t.clone()),
        Callback::Stop(f, e, cps, p) => sink.stop(*f, *e, *cps, *p),
        Callback::Pulse => sink.pulse(),
        Callback::Start => sink.start(),
        Callback::Done => sink.done(),
    }
    proof {
        assert(sink@ =~= old(sink)@ + recorded(c@));
    }
}

/// Hands a whole sequence of invocations to the sink, in order.
pub fn run_callbacks(sink: &mut AptAcquireProgress, callbacks: &Vec<Callback>)
    requires
        forall|i: int| 0 <= i < callbacks@.len() ==> callback_wf(#[trigger] callbacks@[i]@),
    ensures
        final(sink)@ == old(sink)@ + recorded_all(callbacks@.map_values(|c: Callback| c@)),
{
    let ghost models = callbacks@.map_values(|c: Callback| c@);
    for i in 0..callbacks.len()
        invariant
            models == callbacks@.map_values(|c: Callback| c@),
            forall|j: int| 0 <= j < callbacks@.len() ==> callback_wf(#[trigger] callbacks@[j]@),
            sink@ == old(sink)@ + recorded_all(models.take(i as int)),
    {
        dispatch(sink, &callbacks[i]);
        proof {
            assert(models.take(i + 1).drop_last() =~= models.take(i as int));
            assert(models.take(i + 1).last() == models[i as int]);
        }
    }
    proof {
        assert(models.take(models.len() as int) =~= models);
    }
}

/// For every sequence of callback invocations, the log holds exactly the
/// events of the recording invocations, one whole event each, in invocation
/// order, and nothing for a pulse, start or done.
pub proof fn lemma_log_matches_invocations(cs: Seq<CallbackModel>)
    ensures
        recorded_all(cs) == cs.filter(|c: CallbackModel| records_event(c)).map_values(
            |c: CallbackModel| event_of(c),
        ),
    decreases cs.len(),
{
    reveal(Seq::filter);
    let pred = |c: CallbackModel| records_event(c);
    let ev = |c: CallbackModel| event_of(c);
    if cs.len() == 0 {
        assert(cs.filter(pred).map_values(ev) =~= Seq::<EventModel>::empty());
    } else {
        lemma_log_matches_invocations(cs.drop_last());
        let prefix = cs.drop_last().filter(pred);
        if records_event(cs.last()) {
            assert(cs.filter(pred) == prefix.push(cs.last()));
            assert(prefix.push(cs.last()).map_values(ev) =~= prefix.map_values(ev).push(
                event_of(cs.last()),
            ));
            assert(recorded_all(cs) =~= prefix.map_values(ev).push(event_of(cs.last())));
        } else {
            assert(recorded_all(cs) =~= prefix.map_values(ev));
        }
    }
}

/// If every stop invocation of a run carries pending errors, no stop event
/// stands in the drained log, whatever else was invoked.  (A run whose stop
/// arrives without pending errors records its stop summary instead.)
pub proof fn lemma_no_stop_with_pending_errors(cs: Seq<CallbackModel>)
    requires
        forall|i: int| 0 <= i < cs.len() ==> (#[trigger] cs[i] matches CallbackModel::Stop(
            _,
            _,
            _,
            pending_errors,
        ) ==> pending_errors),
    ensures
        forall|j: int| 0 <= j < recorded_all(cs).len() ==> !(#[trigger] recorded_all(
            cs,
        )[j] is Stop),
    decreases cs.len(),
{
    if cs.len() > 0 {
        assert(forall|i: int| 0 <= i < cs.drop_last().len() ==> cs.drop_last()[i] == cs[i]);
        lemma_no_stop_with_pending_errors(cs.drop_last());
        let prefix = recorded_all(cs.drop_last());
        assert(forall|j: int| 0 <= j < prefix.len() ==> recorded_all(cs)[j] == prefix[j]);
        if records_event(cs.last()) {
            assert(!(event_of(cs.last()) is Stop)) by {
                assert(cs.last() == cs[cs.len() - 1]);
            }
        }
    }
}

} // verus!
