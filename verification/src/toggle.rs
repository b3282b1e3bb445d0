//! The toggle operation, as a step-by-step machine.
//!
//! A toggle run first scans the directory in order for a playing player and
//! takes the first one found as preferred; when none is playing it falls
//! back to the first player in the directory. The command is dispatched to
//! the preferred player, and if that dispatch fails, retried against each
//! remaining player in directory order until one acknowledges it or all are
//! exhausted. Fallback candidates are probed before their dispatch so the
//! outcome can report whether the reached player was playing.

use vstd::prelude::*;

use crate::protocol::{BusRequest, Command};
use crate::status::PlaybackStatus;

verus! {

/// Where a toggle run stands.
#[derive(Clone, Copy, Debug, PartialEq, Eq, Structural)]
pub enum TogglePhase {
    /// Probing the players in order for the first playing one.
    Scan,
    /// Dispatching the command to the preferred player.
    TryPreferred,
    /// Probing the current fallback candidate.
    FallbackProbe,
    /// Dispatching the command to the current fallback candidate.
    FallbackDispatch,
    /// The run is over.
    Finished,
}

/// How a toggle run ended.
#[derive(Debug, PartialEq, Eq)]
pub enum ToggleOutcome {
    /// The directory held no player; nothing was dispatched.
    NoPlayers,
    /// The named player acknowledged the command; `was_playing` is the
    /// status observed for it before the dispatch.
    Sent { player: String, was_playing: bool },
    /// Every player refused the command.
    AllFailed,
}

/// The fallback index that follows `cur` when the preferred index is
/// `pref`: the next position of the directory, skipping the preferred
/// player, which was already tried. Entering the fallback scan is the same
/// step taken from position -1.
pub open spec fn next_fallback_index(cur: int, pref: int) -> int {
    if cur + 1 == pref {
        cur + 2
    } else {
        cur + 1
    }
}

/// A toggle run in progress.
pub struct ToggleMachine {
    /// The discovered players, in directory order.
    pub players: Vec<String>,
    /// The command the run dispatches.
    pub command: Command,
    /// Where the run stands.
    pub phase: TogglePhase,
    /// The player being probed (in `Scan`) or tried (in the fallback
    /// phases).
    pub cursor: usize,
    /// The preferred player, once the scan chose one.
    pub pref: usize,
    /// Whether the preferred player was observed playing.
    pub pref_playing: bool,
    /// The status observed for the current fallback candidate.
    pub fallback_playing: bool,
    /// How the run ended, once it is finished.
    pub outcome: Option<ToggleOutcome>,
}

impl ToggleMachine {
    /// The machine's invariant.
    pub open spec fn wf(self) -> bool {
        let n = self.players@.len();
        &&& match self.phase {
            TogglePhase::Scan => self.cursor < n,
            TogglePhase::TryPreferred => self.pref < n,
            TogglePhase::FallbackProbe => self.pref < n && self.cursor < n && self.cursor
                != self.pref,
            TogglePhase::FallbackDispatch => self.pref < n && self.cursor < n && self.cursor
                != self.pref,
            TogglePhase::Finished => self.outcome is Some,
        }
        &&& !(self.phase is Finished) ==> self.outcome is None
    }

    /// Starts a toggle run. An empty directory finishes at once, with
    /// nothing dispatched.
    pub fn new(players: Vec<String>, command: Command) -> (m: ToggleMachine)
        ensures
            m.wf(),
            m.players@ == players@,
            m.command == command,
            players@.len() == 0 ==> m.phase is Finished && m.outcome == Some(
                ToggleOutcome::NoPlayers,
            ),
            players@.len() > 0 ==> m.phase is Scan && m.cursor == 0,
    {
        let empty = players.is_empty();
        ToggleMachine {
            players,
            command,
            phase: if empty {
                TogglePhase::Finished
            } else {
                TogglePhase::Scan
            },
            cursor: 0,
            pref: 0,
            pref_playing: false,
            fallback_playing: false,
            outcome: if empty {
                Some(ToggleOutcome::NoPlayers)
            } else {
                None
            },
        }
    }

    /// The bus request the run is waiting on, if it is not finished.
    pub open spec fn pending_request(self) -> Option<BusRequest> {
        match self.phase {
            TogglePhase::Scan => Some(BusRequest::Probe(self.players@[self.cursor as int])),
            TogglePhase::TryPreferred => Some(
                BusRequest::Dispatch(self.command, self.players@[self.pref as int]),
            ),
            TogglePhase::FallbackProbe => Some(
                BusRequest::Probe(self.players@[self.cursor as int]),
            ),
            TogglePhase::FallbackDispatch => Some(
                BusRequest::Dispatch(self.command, self.players@[self.cursor as int]),
            ),
            TogglePhase::Finished => None,
        }
    }

    /// Hands the driver the next bus request to perform.
    pub fn next_request(&self) -> (r: Option<BusRequest>)
        requires
            self.wf(),
        ensures
            r == self.pending_request(),
    {
        match self.phase {
            TogglePhase::Scan => Some(BusRequest::Probe(self.players[self.cursor].clone())),
            TogglePhase::TryPreferred => Some(
                BusRequest::Dispatch(self.command, self.players[self.pref].clone()),
            ),
            TogglePhase::FallbackProbe => Some(
                BusRequest::Probe(self.players[self.cursor].clone()),
            ),
            TogglePhase::FallbackDispatch => Some(
                BusRequest::Dispatch(self.command, self.players[self.cursor].clone()),
            ),
            TogglePhase::Finished => None,
        }
    }

    /// Reports the status observed for the probed player. During the scan,
    /// the first player observed playing becomes preferred; when the scan
    /// runs out, the first player of the directory does. A fallback probe
    /// only records the status for the outcome report.
    pub fn on_probe(&mut self, status: PlaybackStatus)
        requires
            old(self).wf(),
            old(self).phase is Scan || old(self).phase is FallbackProbe,
        ensures
            final(self).wf(),
            final(self).players@ == old(self).players@,
            final(self).command == old(self).command,
            final(self).outcome is None,
            old(self).phase is Scan && status is Playing ==> {
                &&& final(self).phase is TryPreferred
                &&& final(self).pref == old(self).cursor
                &&& final(self).pref_playing
            },
            old(self).phase is Scan && !(status is Playing) && old(self).cursor + 1 < old(self).players@.len() ==> {
                &&& final(self).phase is Scan
                &&& final(self).cursor == old(self).cursor + 1
            },
            old(self).phase is Scan && !(status is Playing) && old(self).cursor + 1 == old(self).players@.len() ==> {
                &&& final(self).phase is TryPreferred
                &&& final(self).pref == 0
                &&& !final(self).pref_playing
            },
            old(self).phase is FallbackProbe ==> {
                &&& final(self).phase is FallbackDispatch
                &&& final(self).cursor == old(self).cursor
                &&& final(self).pref == old(self).pref
                &&& final(self).fallback_playing == (status is Playing)
            },
    {
        let playing = matches!(status, PlaybackStatus::Playing);
        match self.phase {
            TogglePhase::Scan => {
                if playing {
                    self.pref = self.cursor;
                    self.pref_playing = true;
                    self.phase = TogglePhase::TryPreferred;
                } else {
                    let total = self.players.len();
                    if self.cursor + 1 < total {
                        self.cursor = self.cursor + 1;
                    } else {
                        self.pref = 0;
                        self.pref_playing = false;
                        self.phase = TogglePhase::TryPreferred;
                    }
                }
            },
            _ => {
                self.fallback_playing = playing;
                self.phase = TogglePhase::FallbackDispatch;
            },
        }
    }

    /// Reports whether the dispatched command was acknowledged. A failure
    /// of the preferred player opens the fallback scan; a failure of a
    /// fallback candidate moves to the next one, always skipping the
    /// preferred player; running out of candidates ends the run with
    /// `AllFailed`.
    pub fn on_dispatch(&mut self, ok: bool)
        requires
            old(self).wf(),
            old(self).phase is TryPreferred || old(self).phase is FallbackDispatch,
        ensures
            final(self).wf(),
            final(self).players@ == old(self).players@,
            final(self).command == old(self).command,
            old(self).phase is TryPreferred && ok ==> final(self).phase is Finished && final(self).outcome == Some(
                ToggleOutcome::Sent {
                    player: old(self).players@[old(self).pref as int],
                    was_playing: old(self).pref_playing,
                },
            ),
            old(self).phase is FallbackDispatch && ok ==> final(self).phase is Finished && final(self).outcome == Some(
                ToggleOutcome::Sent {
                    player: old(self).players@[old(self).cursor as int],
                    was_playing: old(self).fallback_playing,
                },
            ),
            !ok ==> {
                let from = if old(self).phase is TryPreferred {
                    -1int
                } else {
                    old(self).cursor as int
                };
                let next = next_fallback_index(from, old(self).pref as int);
                if next < old(self).players@.len() {
                    &&& final(self).phase is FallbackProbe
                    &&& final(self).cursor == next
                    &&& final(self).pref == old(self).pref
                } else {
                    &&& final(self).phase is Finished
                    &&& final(self).outcome == Some(ToggleOutcome::AllFailed)
                }
            },
    {
        if ok {
            let (target, was_playing) = if matches!(self.phase, TogglePhase::TryPreferred) {
                (self.players[self.pref].clone(), self.pref_playing)
            } else {
                (self.players[self.cursor].clone(), self.fallback_playing)
            };
            self.outcome = Some(ToggleOutcome::Sent { player: target, was_playing });
            self.phase = TogglePhase::Finished;
        } else {
            let total = self.players.len();
            let mut next: usize = if matches!(self.phase, TogglePhase::TryPreferred) {
                0
            } else {
                self.cursor + 1
            };
            if next == self.pref {
                next = next + 1;
            }
            if next < total {
                self.cursor = next;
                self.phase = TogglePhase::FallbackProbe;
            } else {
                self.outcome = Some(ToggleOutcome::AllFailed);
                self.phase = TogglePhase::Finished;
            }
        }
    }

    /// Whether the run is over.
    pub fn is_done(&self) -> (r: bool)
        requires
            self.wf(),
        ensures
            r == (self.phase is Finished),
            r == (self.pending_request() is None),
    {
        matches!(self.phase, TogglePhase::Finished)
    }

    /// Yields how the run ended.
    pub fn into_outcome(self) -> (r: ToggleOutcome)
        requires
            self.wf(),
            self.phase is Finished,
        ensures
            self.outcome == Some(r),
    {
        match self.outcome {
            Some(o) => o,
            None => vstd::pervasive::unreached(),
        }
    }
}

} // verus!
