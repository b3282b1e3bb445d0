//! The process-wide record of the players this crate paused.
//!
//! The controller is the only state shared between operations. It starts
//! idle, a successful pause run overwrites it with the freshly recorded
//! players, and a completed resume run clears it whatever the per-player
//! outcomes were, so a player that failed to resume is never retried.

use vstd::prelude::*;

use crate::pause::{paused_selection, PauseMachine};
use crate::protocol::BusRequest;
use crate::resume::{resume_plan, ResumeMachine};
use crate::toggle::ToggleMachine;

verus! {

/// The paused-player record. An identity stands in it only if a `Pause`
/// command was issued to it while it was observed playing, and it
/// acknowledged the command.
pub struct MediaController {
    /// The players paused by the most recent committed pause run.
    pub paused: Vec<String>,
}

impl MediaController {
    /// Whether nothing is recorded as paused.
    pub open spec fn idle(self) -> bool {
        self.paused@.len() == 0
    }

    /// A fresh controller records nothing; a resume right after start is a
    /// no-op by design.
    pub fn new() -> (c: MediaController)
        ensures
            c.idle(),
            c.paused@ == Seq::<String>::empty(),
    {
        MediaController { paused: Vec::new() }
    }

    /// Commits the outcome of a pause run. A non-empty recorded list
    /// overwrites — never merges with — whatever was recorded before; an
    /// empty one means nothing needed pausing and leaves the record as it
    /// was.
    pub fn commit_pause(&mut self, recorded: Vec<String>)
        ensures
            recorded@.len() > 0 ==> final(self).paused@ == recorded@,
            recorded@.len() == 0 ==> final(self).paused@ == old(self).paused@,
    {
        if recorded.len() > 0 {
            self.paused = recorded;
        }
    }

    /// Starts a resume run over a snapshot of the record. The record itself
    /// is left untouched until the run completes. On an idle controller the
    /// run is already done and waits on no bus request, so a resume that
    /// follows a completed resume, with no pause in between, dispatches
    /// nothing.
    pub fn begin_resume(&self) -> (m: ResumeMachine)
        ensures
            m.wf(),
            m.players@ == self.paused@,
            m.attempted == 0,
            m.succeeded == 0,
            self.idle() ==> m.pending_request() is None,
    {
        let snapshot = self.paused.clone();
        proof {
            assert forall|i: int| 0 <= i < self.paused@.len() implies snapshot@[i]
                == self.paused@[i] by {
                assert(cloned::<String>(self.paused@[i], snapshot@[i]));
            }
            assert(snapshot@ =~= self.paused@);
        }
        ResumeMachine::new(snapshot)
    }

    /// Clears the record once a resume run has attempted every player,
    /// whatever the individual outcomes were. Afterwards the controller is
    /// idle and a further resume has an empty plan: it dispatches nothing.
    pub fn finish_resume(&mut self)
        ensures
            final(self).idle(),
            final(self).paused@ == Seq::<String>::empty(),
            resume_plan(final(self).paused@) == Seq::<BusRequest>::empty(),
    {
        self.paused.clear();
        proof {
            assert(resume_plan(self.paused@) =~= Seq::<BusRequest>::empty());
        }
    }
}

/// With no player in the directory, pause, resume and toggle are all inert:
/// a machine over an empty directory waits on no bus request, a pause run
/// records nothing (so committing it leaves the paused record as it was),
/// and a resume run plans nothing.
pub proof fn lemma_empty_directory_inert(p: PauseMachine, r: ResumeMachine, t: ToggleMachine)
    requires
        p.wf(),
        p.players@.len() == 0,
        r.wf(),
        r.players@.len() == 0,
        t.wf(),
        t.players@.len() == 0,
    ensures
        p.pending_request() is None,
        paused_selection(p.players@, p.observed@, p.acked@) == Seq::<String>::empty(),
        r.pending_request() is None,
        resume_plan(r.players@) == Seq::<BusRequest>::empty(),
        t.pending_request() is None,
{
    assert(paused_selection(p.players@, p.observed@, p.acked@) =~= Seq::<String>::empty());
    assert(resume_plan(r.players@) =~= Seq::<BusRequest>::empty());
}

} // verus!
