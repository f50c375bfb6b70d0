//! The progress sink: collects the backend's callback invocations into an
//! ordered, append-only event log.
//!
//! Each recording callback appends exactly one event, wholly or not at all;
//! the non-recording callbacks leave the log untouched.  The caller that
//! shares one sink between execution contexts guards it with a lock scoped
//! to each single call, so these contracts describe every interleaving of
//! whole calls.

use vstd::prelude::*;
use crate::events::{item_state_of, EventModel, ProgressOutput};

verus! {

/// Accumulates the events of one refresh operation in arrival order.
#[derive(Debug)]
pub struct AptAcquireProgress {
    output: Vec<ProgressOutput>,
}

impl View for AptAcquireProgress {
    type V = Seq<EventModel>;

    closed spec fn view(&self) -> Seq<EventModel> {
        self.output@.map_values(|ev: ProgressOutput| ev@)
    }
}

impl AptAcquireProgress {
    /// Returns a new progress instance with an empty log.
    pub fn new() -> (s: AptAcquireProgress)
        ensures
            s@ == Seq::<EventModel>::empty(),
    {
        let s = AptAcquireProgress { output: Vec::new() };
        proof {
            assert(s@ =~= Seq::<EventModel>::empty());
        }
        s
    }

    /// Pulse interval of zero leaves the backend's own default in force.
    pub fn pulse_interval(&self) -> (r: usize)
        ensures
            r == 0,
    {
        0
    }

    /// Called when an item is confirmed to be up to date: records a hit.
    pub fn hit(&mut self, id: u32, description: String)
        ensures
            final(self)@ == old(self)@.push(EventModel::Hit(id, description@)),
    {
        self.output.push(ProgressOutput::Hit(id, description));
        proof {
            assert(self@ =~= old(self)@.push(self.output@.last()@));
        }
    }

    /// Called when an item's download starts: records a fetch with the
    /// expected size.
    pub fn fetch(&mut self, id: u32, description: String, file_size: u64)
        ensures
            final(self)@ == old(self)@.push(EventModel::Fetch(id, description@, file_size)),
    {
        self.output.push(ProgressOutput::Fetch(id, description, file_size));
        proof {
            assert(self@ =~= old(self)@.push(self.output@.last()@));
        }
    }

    /// Called when an item is successfully and completely fetched: not
    /// recorded.
    pub fn done(&mut self)
        ensures
            final(self)@ == old(self)@,
    {
    }

    /// Called when progress has started: not recorded.
    pub fn start(&mut self)
        ensures
            final(self)@ == old(self)@,
    {
    }

    /// Called when progress has finished.  With errors still pending the
    /// summary would be misleading, so nothing is recorded; otherwise the
    /// stop summary is appended.
    pub fn stop(&mut self, fetched_bytes: u64, elapsed_time: u64, current_cps: u64,
        pending_errors: bool)
        ensures
            final(self)@ == if pending_errors {
                old(self)@
            } else {
                old(self)@.push(EventModel::Stop(fetched_bytes, elapsed_time, current_cps))
            },
    {
        if pending_errors {
            return;
        }
        self.output.push(ProgressOutput::Stop(fetched_bytes, elapsed_time, current_cps));
        proof {
            assert(self@ =~= old(self)@.push(self.output@.last()@));
        }
    }

    /// Called when an item fails to download: decodes the raw state and
    /// records the failure.  A raw state outside the closed range is a
    /// protocol violation the caller must reject before calling.
    pub fn fail(&mut self, id: u32, description: String, status: u32, error_text: String)
        requires
            item_state_of(status) is Some,
        ensures
            final(self)@ == old(self)@.push(
                EventModel::Fail(id, description@, item_state_of(status)->Some_0, error_text@),
            ),
    {
        let state = match crate::events::ItemState::try_from(status) {
            Ok(state) => state,
            Err(()) => {
                proof {
                    assert(false);
                }
                crate::events::ItemState::StatIdle
            },
        };
        self.output.push(ProgressOutput::Fail(id, description, state, error_text));
        proof {
            assert(self@ =~= old(self)@.push(self.output@.last()@));
        }
    }

    /// Called periodically with overall progress: intentionally not recorded,
    /// so the log is not flooded with high-frequency samples.
    pub fn pulse(&mut self)
        ensures
            final(self)@ == old(self)@,
    {
    }

    /// Takes the whole log, in arrival order, and leaves the sink empty and
    /// ready for reuse.
    pub fn drain(&mut self) -> (r: Vec<ProgressOutput>)
        ensures
            r@.map_values(|ev: ProgressOutput| ev@) == old(self)@,
            final(self)@ == Seq::<EventModel>::empty(),
    {
        let mut taken: Vec<ProgressOutput> = Vec::new();
        core::mem::swap(&mut taken, &mut self.output);
        proof {
            assert(self@ =~= Seq::<EventModel>::empty());
        }
        taken
    }
}

} // verus!
