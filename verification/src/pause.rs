//! The pause operation, as a step-by-step machine.
//!
//! A pause run walks the discovered players in directory order. Each player
//! is probed first; only a player observed playing is sent a `Pause`
//! command, and only a player that acknowledged the command is recorded for
//! a later resume. A per-player failure never blocks the remaining players.

use vstd::prelude::*;

use crate::protocol::{BusRequest, Command};
use crate::status::PlaybackStatus;

verus! {

/// The names a pause run records, given the players in directory order, the
/// status observed for each, and whether each dispatched `Pause` command was
/// acknowledged: exactly the players observed playing whose command
/// succeeded, in directory order.
pub open spec fn paused_selection(
    names: Seq<String>,
    observed: Seq<PlaybackStatus>,
    acked: Seq<bool>,
) -> Seq<String>
    recommends
        observed.len() == names.len(),
        acked.len() == names.len(),
    decreases names.len(),
{
    if names.len() == 0 {
        Seq::empty()
    } else {
        let rest = paused_selection(names.drop_last(), observed.drop_last(), acked.drop_last());
        if observed.last() is Playing && acked.last() {
            rest.push(names.last())
        } else {
            rest
        }
    }
}

/// A pause run in progress. The driver repeatedly asks for the next bus
/// request, performs it, and reports the outcome through `on_probe` or
/// `on_dispatch`; once the run is done, `into_paused` yields the recorded
/// players.
pub struct PauseMachine {
    /// The discovered players, in directory order.
    pub players: Vec<String>,
    /// How many players have been fully handled.
    pub handled: usize,
    /// Whether the current player was observed playing and its `Pause`
    /// dispatch is outstanding.
    pub dispatching: bool,
    /// The players paused so far, in directory order.
    pub recorded: Vec<String>,
    /// The status observed for each probed player, in order.
    pub observed: Ghost<Seq<PlaybackStatus>>,
    /// Per handled player, whether a `Pause` command was acknowledged
    /// (`false` both for a failed dispatch and for a skipped player).
    pub acked: Ghost<Seq<bool>>,
}

impl PauseMachine {
    /// The machine's invariant: the recorded players are exactly the
    /// selection over the players handled so far.
    pub open spec fn wf(self) -> bool {
        &&& self.handled <= self.players@.len()
        &&& self.dispatching ==> self.handled < self.players@.len()
        &&& self.observed@.len() == self.handled + (if self.dispatching { 1int } else { 0 })
        &&& self.acked@.len() == self.handled
        &&& self.dispatching ==> self.observed@.last() is Playing
        &&& self.recorded@ == paused_selection(
            self.players@.take(self.handled as int),
            self.observed@.take(self.handled as int),
            self.acked@,
        )
    }

    /// Starts a pause run over the discovered players.
    pub fn new(players: Vec<String>) -> (m: PauseMachine)
        ensures
            m.wf(),
            m.players@ == players@,
            m.handled == 0,
            !m.dispatching,
            m.recorded@ == Seq::<String>::empty(),
            m.observed@ == Seq::<PlaybackStatus>::empty(),
            m.acked@ == Seq::<bool>::empty(),
    {
        let m = PauseMachine {
            players,
            handled: 0,
            dispatching: false,
            recorded: Vec::new(),
            observed: Ghost(Seq::empty()),
            acked: Ghost(Seq::empty()),
        };
        proof {
            assert(m.players@.take(0) =~= Seq::<String>::empty());
            assert(m.recorded@ =~= paused_selection(
                m.players@.take(0),
                m.observed@.take(0),
                m.acked@,
            ));
        }
        m
    }

    /// The bus request the run is waiting on, if it is not done: a probe of
    /// the current player, or — once the player was observed playing — a
    /// `Pause` dispatch to it.
    pub open spec fn pending_request(self) -> Option<BusRequest> {
        if self.handled == self.players@.len() {
            None
        } else if self.dispatching {
            Some(BusRequest::Dispatch(Command::Pause, self.players@[self.handled as int]))
        } else {
            Some(BusRequest::Probe(self.players@[self.handled as int]))
        }
    }

    /// Hands the driver the next bus request to perform. A `Pause` dispatch
    /// is only ever requested for the current player, just observed playing.
    pub fn next_request(&self) -> (r: Option<BusRequest>)
        requires
            self.wf(),
        ensures
            r == self.pending_request(),
            r matches Some(BusRequest::Dispatch(c, n)) ==> c == Command::Pause && n
                == self.players@[self.handled as int] && self.observed@.last() is Playing,
    {
        if self.handled == self.players.len() {
            None
        } else if self.dispatching {
            Some(BusRequest::Dispatch(Command::Pause, self.players[self.handled].clone()))
        } else {
            Some(BusRequest::Probe(self.players[self.handled].clone()))
        }
    }

    /// Reports the status observed for the current player. A player not
    /// observed playing is skipped outright: it is neither sent a `Pause`
    /// command nor recorded.
    pub fn on_probe(&mut self, status: PlaybackStatus)
        requires
            old(self).wf(),
            !old(self).dispatching,
            old(self).handled < old(self).players@.len(),
        ensures
            final(self).wf(),
            final(self).players@ == old(self).players@,
            final(self).observed@ == old(self).observed@.push(status),
            final(self).recorded@ == old(self).recorded@,
            status is Playing ==> {
                &&& final(self).dispatching
                &&& final(self).handled == old(self).handled
                &&& final(self).acked@ == old(self).acked@
            },
            !(status is Playing) ==> {
                &&& !final(self).dispatching
                &&& final(self).handled == old(self).handled + 1
                &&& final(self).acked@ == old(self).acked@.push(false)
            },
    {
        self.observed = Ghost(self.observed@.push(status));
        if is_playing(status) {
            self.dispatching = true;
            proof {
                assert(self.observed@.take(self.handled as int) =~= old(self).observed@.take(
                    self.handled as int,
                ));
            }
        } else {
            // A Vec's length fits in usize, so the handled count cannot overflow.
            let _bound = self.players.len();
            self.acked = Ghost(self.acked@.push(false));
            self.handled = self.handled + 1;
            proof {
                let h = self.handled as int;
                assert(self.players@.take(h).drop_last() =~= self.players@.take(h - 1));
                assert(self.observed@.take(h).drop_last() =~= old(self).observed@.take(h - 1));
                assert(self.acked@.drop_last() =~= old(self).acked@);
                assert(self.observed@.take(h).last() == status);
            }
        }
    }

    /// Reports whether the `Pause` dispatch to the current player was
    /// acknowledged. Only an acknowledged player is recorded; a failed one
    /// is left out, since it was not paused and must not be resumed later.
    pub fn on_dispatch(&mut self, ok: bool)
        requires
            old(self).wf(),
            old(self).dispatching,
        ensures
            final(self).wf(),
            final(self).players@ == old(self).players@,
            final(self).observed@ == old(self).observed@,
            final(self).acked@ == old(self).acked@.push(ok),
            final(self).handled == old(self).handled + 1,
            !final(self).dispatching,
            ok ==> final(self).recorded@ == old(self).recorded@.push(
                old(self).players@[old(self).handled as int],
            ),
            !ok ==> final(self).recorded@ == old(self).recorded@,
    {
        if ok {
            let name = self.players[self.handled].clone();
            self.recorded.push(name);
        }
        // A Vec's length fits in usize, so the handled count cannot overflow.
        let _bound = self.players.len();
        self.acked = Ghost(self.acked@.push(ok));
        self.dispatching = false;
        self.handled = self.handled + 1;
        proof {
            let h = self.handled as int;
            assert(self.players@.take(h).drop_last() =~= self.players@.take(h - 1));
            assert(self.observed@.take(h).drop_last() =~= self.observed@.take(h - 1));
            assert(self.observed@.take(h) =~= self.observed@);
            assert(self.acked@.drop_last() =~= old(self).acked@);
            assert(self.observed@.take(h).last() == old(self).observed@.last());
        }
    }

    /// Whether every discovered player has been handled.
    pub fn is_done(&self) -> (r: bool)
        requires
            self.wf(),
        ensures
            r == (self.pending_request() is None),
            r == (self.handled == self.players@.len()),
    {
        self.handled == self.players.len()
    }

    /// Yields the recorded players: exactly the selection over the full
    /// directory.
    pub fn into_paused(self) -> (r: Vec<String>)
        requires
            self.wf(),
            self.handled == self.players@.len(),
        ensures
            r@ == paused_selection(self.players@, self.observed@, self.acked@),
    {
        proof {
            assert(self.players@.take(self.handled as int) =~= self.players@);
            assert(self.observed@.take(self.handled as int) =~= self.observed@);
        }
        self.recorded
    }
}

fn is_playing(st: PlaybackStatus) -> (r: bool)
    ensures
        r == (st is Playing),
{
    matches!(st, PlaybackStatus::Playing)
}

/// Whether some position of the directory holds the name, was observed
/// playing, and acknowledged its `Pause` command.
pub open spec fn paused_witness(
    names: Seq<String>,
    observed: Seq<PlaybackStatus>,
    acked: Seq<bool>,
    x: String,
) -> bool {
    exists|j: int|
        0 <= j < names.len() && #[trigger] names[j] == x && observed[j] is Playing && acked[j]
}

/// Soundness of the recorded set: every name a pause run records was
/// observed playing and acknowledged the `Pause` command at some position of
/// the directory.
pub proof fn lemma_paused_selection_sound(
    names: Seq<String>,
    observed: Seq<PlaybackStatus>,
    acked: Seq<bool>,
)
    requires
        observed.len() == names.len(),
        acked.len() == names.len(),
    ensures
        forall|k: int|
            0 <= k < paused_selection(names, observed, acked).len() ==> paused_witness(
                names,
                observed,
                acked,
                #[trigger] paused_selection(names, observed, acked)[k],
            ),
    decreases names.len(),
{
    if names.len() > 0 {
        lemma_paused_selection_sound(names.drop_last(), observed.drop_last(), acked.drop_last());
        let rest = paused_selection(names.drop_last(), observed.drop_last(), acked.drop_last());
        let whole = paused_selection(names, observed, acked);
        assert forall|k: int|
            0 <= k < whole.len() implies paused_witness(names, observed, acked, whole[k]) by {
            if k < rest.len() {
                assert(paused_witness(
                    names.drop_last(),
                    observed.drop_last(),
                    acked.drop_last(),
                    rest[k],
                ));
                let j = choose|j: int|
                    0 <= j < names.drop_last().len() && #[trigger] names.drop_last()[j] == rest[k]
                        && observed.drop_last()[j] is Playing && acked.drop_last()[j];
                assert(names[j] == whole[k] && observed[j] is Playing && acked[j]);
            } else {
                let j = names.len() - 1;
                assert(names[j] == whole[k] && observed[j] is Playing && acked[j]);
            }
        }
    }
}

/// Exclusion: when the directory holds no duplicate names, a player that was
/// not observed playing, or whose `Pause` dispatch was not acknowledged, is
/// not recorded — it was not paused, so it must not be resumed later.
pub proof fn lemma_paused_selection_excludes(
    names: Seq<String>,
    observed: Seq<PlaybackStatus>,
    acked: Seq<bool>,
    j: int,
)
    requires
        observed.len() == names.len(),
        acked.len() == names.len(),
        0 <= j < names.len(),
        !(observed[j] is Playing && acked[j]),
        forall|a: int, b: int| 0 <= a < b < names.len() ==> names[a] != names[b],
    ensures
        !paused_selection(names, observed, acked).contains(names[j]),
{
    lemma_paused_selection_sound(names, observed, acked);
    let sel = paused_selection(names, observed, acked);
    if sel.contains(names[j]) {
        let k = choose|k: int| 0 <= k < sel.len() && sel[k] == names[j];
        assert(paused_witness(names, observed, acked, sel[k]));
        let w = choose|w: int|
            0 <= w < names.len() && #[trigger] names[w] == sel[k] && observed[w] is Playing
                && acked[w];
        if w < j {
            assert(names[w] != names[j]);
        }
        if j < w {
            assert(names[j] != names[w]);
        }
        assert(false);
    }
}

/// Completeness of the recorded set: every player observed playing whose
/// `Pause` command was acknowledged is recorded.
pub proof fn lemma_paused_selection_complete(
    names: Seq<String>,
    observed: Seq<PlaybackStatus>,
    acked: Seq<bool>,
)
    requires
        observed.len() == names.len(),
        acked.len() == names.len(),
    ensures
        forall|j: int|
            0 <= j < names.len() && observed[j] is Playing && acked[j]
                ==> paused_selection(names, observed, acked).contains(#[trigger] names[j]),
    decreases names.len(),
{
    if names.len() > 0 {
        lemma_paused_selection_complete(
            names.drop_last(),
            observed.drop_last(),
            acked.drop_last(),
        );
        let rest = paused_selection(names.drop_last(), observed.drop_last(), acked.drop_last());
        let whole = paused_selection(names, observed, acked);
        assert forall|j: int|
            0 <= j < names.len() && observed[j] is Playing && acked[j] implies whole.contains(
            names[j],
        ) by {
            if j < names.len() - 1 {
                assert(rest.contains(names.drop_last()[j]));
                let k = choose|k: int| 0 <= k < rest.len() && rest[k] == names.drop_last()[j];
                assert(whole[k] == names[j]);
            } else {
                assert(whole.last() == names[j]);
            }
        }
    }
}

} // verus!
