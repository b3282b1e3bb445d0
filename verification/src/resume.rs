//! The resume operation, as a step-by-step machine.
//!
//! A resume run replays a `Play` command to exactly the recorded players, in
//! the order they were recorded. Per-player failures are counted but never
//! block the remaining players, and the run completes whatever the
//! individual outcomes were.

use vstd::prelude::*;

use crate::protocol::{BusRequest, Command};

verus! {

/// The bus requests a resume run issues: one `Play` dispatch per recorded
/// player, in recorded order, and nothing else.
pub open spec fn resume_plan(names: Seq<String>) -> Seq<BusRequest> {
    names.map_values(|n: String| BusRequest::Dispatch(Command::Play, n))
}

/// A resume run in progress over a snapshot of the recorded players.
pub struct ResumeMachine {
    /// The recorded players, in the order they were recorded.
    pub players: Vec<String>,
    /// How many players have been attempted.
    pub attempted: usize,
    /// How many attempts were acknowledged.
    pub succeeded: usize,
}

impl ResumeMachine {
    /// The machine's invariant.
    pub open spec fn wf(self) -> bool {
        &&& self.attempted <= self.players@.len()
        &&& self.succeeded <= self.attempted
    }

    /// Starts a resume run over the recorded players.
    pub fn new(players: Vec<String>) -> (m: ResumeMachine)
        ensures
            m.wf(),
            m.players@ == players@,
            m.attempted == 0,
            m.succeeded == 0,
    {
        ResumeMachine { players, attempted: 0, succeeded: 0 }
    }

    /// The bus request the run is waiting on: the next entry of the plan.
    pub open spec fn pending_request(self) -> Option<BusRequest> {
        if self.attempted == self.players@.len() {
            None
        } else {
            Some(resume_plan(self.players@)[self.attempted as int])
        }
    }

    /// Hands the driver the next `Play` dispatch of the plan.
    pub fn next_request(&self) -> (r: Option<BusRequest>)
        requires
            self.wf(),
        ensures
            r == self.pending_request(),
    {
        if self.attempted == self.players.len() {
            None
        } else {
            Some(BusRequest::Dispatch(Command::Play, self.players[self.attempted].clone()))
        }
    }

    /// Reports whether the current `Play` dispatch was acknowledged. A
    /// failed attempt is counted and never retried.
    pub fn on_dispatch(&mut self, ok: bool)
        requires
            old(self).wf(),
            old(self).attempted < old(self).players@.len(),
        ensures
            final(self).wf(),
            final(self).players@ == old(self).players@,
            final(self).attempted == old(self).attempted + 1,
            ok ==> final(self).succeeded == old(self).succeeded + 1,
            !ok ==> final(self).succeeded == old(self).succeeded,
    {
        // A Vec's length fits in usize, so the attempt count cannot overflow.
        let _bound = self.players.len();
        if ok {
            self.succeeded = self.succeeded + 1;
        }
        self.attempted = self.attempted + 1;
    }

    /// Whether every recorded player has been attempted.
    pub fn is_done(&self) -> (r: bool)
        requires
            self.wf(),
        ensures
            r == (self.pending_request() is None),
            r == (self.attempted == self.players@.len()),
    {
        self.attempted == self.players.len()
    }

    /// How many players were successfully resumed.
    pub fn successes(&self) -> (r: usize)
        ensures
            r == self.succeeded,
    {
        self.succeeded
    }
}

/// The resume plan replays exactly the recorded players: one `Play` dispatch
/// per recorded name, in recorded order, and no other request.
pub proof fn lemma_resume_plan_exact(names: Seq<String>)
    ensures
        resume_plan(names).len() == names.len(),
        forall|i: int|
            0 <= i < names.len() ==> #[trigger] resume_plan(names)[i] == BusRequest::Dispatch(
                Command::Play,
                names[i],
            ),
{
}

} // verus!
