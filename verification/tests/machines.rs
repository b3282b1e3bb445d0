//! Scenario tests driving the pause, resume and toggle machines the way the
//! bus shell does, with scripted probe and dispatch outcomes.

use media_control::controller::MediaController;
use media_control::pause::PauseMachine;
use media_control::protocol::{BusRequest, Command};
use media_control::resume::ResumeMachine;
use media_control::status::PlaybackStatus;
use media_control::toggle::{ToggleMachine, ToggleOutcome};

fn players(names: &[&str]) -> Vec<String> {
    names.iter().map(|n| n.to_string()).collect()
}

/// Runs a pause machine against scripted statuses and dispatch outcomes,
/// returning the recorded players and the dispatch targets in order.
fn run_pause(
    directory: &[&str],
    status_of: impl Fn(&str) -> PlaybackStatus,
    dispatch_ok: impl Fn(&str) -> bool,
) -> (Vec<String>, Vec<String>) {
    let mut m = PauseMachine::new(players(directory));
    let mut dispatched = Vec::new();
    while let Some(req) = m.next_request() {
        match req {
            BusRequest::Probe(name) => m.on_probe(status_of(&name)),
            BusRequest::Dispatch(cmd, name) => {
                assert_eq!(cmd, Command::Pause);
                dispatched.push(name.clone());
                m.on_dispatch(dispatch_ok(&name));
            }
        }
    }
    assert!(m.is_done());
    (m.into_paused(), dispatched)
}

/// Runs a resume machine, returning the dispatch targets in order and the
/// success count.
fn run_resume(m: &mut ResumeMachine, dispatch_ok: impl Fn(&str) -> bool) -> Vec<String> {
    let mut dispatched = Vec::new();
    while let Some(req) = m.next_request() {
        match req {
            BusRequest::Dispatch(cmd, name) => {
                assert_eq!(cmd, Command::Play);
                dispatched.push(name.clone());
                m.on_dispatch(dispatch_ok(&name));
            }
            BusRequest::Probe(name) => panic!("resume must not probe, probed {name}"),
        }
    }
    assert!(m.is_done());
    dispatched
}

/// Runs a toggle machine, returning the outcome and the dispatch targets in
/// order.
fn run_toggle(
    directory: &[&str],
    status_of: impl Fn(&str) -> PlaybackStatus,
    dispatch_ok: impl Fn(&str) -> bool,
) -> (ToggleOutcome, Vec<String>) {
    let mut m = ToggleMachine::new(players(directory), Command::PlayPause);
    let mut dispatched = Vec::new();
    while let Some(req) = m.next_request() {
        match req {
            BusRequest::Probe(name) => m.on_probe(status_of(&name)),
            BusRequest::Dispatch(cmd, name) => {
                assert_eq!(cmd, Command::PlayPause);
                dispatched.push(name.clone());
                m.on_dispatch(dispatch_ok(&name));
            }
        }
    }
    assert!(m.is_done());
    (m.into_outcome(), dispatched)
}

#[test]
fn selective_pause_records_only_playing() {
    let (recorded, dispatched) = run_pause(
        &["A", "B", "C"],
        |n| {
            if n == "B" {
                PlaybackStatus::NotPlaying
            } else {
                PlaybackStatus::Playing
            }
        },
        |_| true,
    );
    assert_eq!(dispatched, players(&["A", "C"]));
    assert_eq!(recorded, players(&["A", "C"]));
}

#[test]
fn pause_overwrites_previous_record() {
    let mut c = MediaController::new();
    let (first, _) = run_pause(&["A", "B", "C"], |n| {
        if n == "B" {
            PlaybackStatus::NotPlaying
        } else {
            PlaybackStatus::Playing
        }
    }, |_| true);
    c.commit_pause(first);
    assert_eq!(c.paused, players(&["A", "C"]));

    let (second, _) = run_pause(&["D"], |_| PlaybackStatus::Playing, |_| true);
    c.commit_pause(second);
    assert_eq!(c.paused, players(&["D"]));
}

#[test]
fn pause_with_empty_record_keeps_previous_record() {
    let mut c = MediaController::new();
    let (first, _) = run_pause(&["A"], |_| PlaybackStatus::Playing, |_| true);
    c.commit_pause(first);
    let (second, dispatched) = run_pause(&["B"], |_| PlaybackStatus::NotPlaying, |_| true);
    assert!(second.is_empty());
    assert!(dispatched.is_empty());
    c.commit_pause(second);
    assert_eq!(c.paused, players(&["A"]));
}

#[test]
fn pause_excludes_failed_dispatch() {
    let (recorded, dispatched) = run_pause(
        &["A", "B", "C"],
        |n| {
            if n == "B" {
                PlaybackStatus::NotPlaying
            } else {
                PlaybackStatus::Playing
            }
        },
        |n| n != "C",
    );
    assert_eq!(dispatched, players(&["A", "C"]));
    assert_eq!(recorded, players(&["A"]));
}

#[test]
fn pause_skips_players_whose_probe_failed() {
    let (recorded, dispatched) = run_pause(
        &["A", "B"],
        |n| {
            if n == "A" {
                PlaybackStatus::Unknown
            } else {
                PlaybackStatus::Playing
            }
        },
        |_| true,
    );
    assert_eq!(dispatched, players(&["B"]));
    assert_eq!(recorded, players(&["B"]));
}

#[test]
fn resume_replays_recorded_players_in_order() {
    let mut c = MediaController::new();
    c.commit_pause(players(&["A", "C"]));
    let mut m = c.begin_resume();
    let dispatched = run_resume(&mut m, |n| n == "A");
    assert_eq!(dispatched, players(&["A", "C"]));
    assert_eq!(m.successes(), 1);
    c.finish_resume();
    assert!(c.paused.is_empty());
}

#[test]
fn no_double_resume() {
    let mut c = MediaController::new();
    c.commit_pause(players(&["A"]));
    let mut m = c.begin_resume();
    let dispatched = run_resume(&mut m, |_| true);
    assert_eq!(dispatched, players(&["A"]));
    c.finish_resume();

    let mut again = c.begin_resume();
    assert_eq!(again.next_request(), None);
    let dispatched_again = run_resume(&mut again, |_| true);
    assert!(dispatched_again.is_empty());
}

#[test]
fn empty_directory_is_inert() {
    let (recorded, dispatched) = run_pause(&[], |_| PlaybackStatus::Playing, |_| true);
    assert!(recorded.is_empty());
    assert!(dispatched.is_empty());

    let mut c = MediaController::new();
    c.commit_pause(players(&["A"]));
    c.commit_pause(recorded);
    assert_eq!(c.paused, players(&["A"]));

    let (outcome, toggled) = run_toggle(&[], |_| PlaybackStatus::Playing, |_| true);
    assert_eq!(outcome, ToggleOutcome::NoPlayers);
    assert!(toggled.is_empty());
}

#[test]
fn toggle_falls_back_after_preferred_failure() {
    let (outcome, dispatched) = run_toggle(
        &["E", "F"],
        |_| PlaybackStatus::NotPlaying,
        |n| n == "F",
    );
    assert_eq!(dispatched, players(&["E", "F"]));
    assert_eq!(
        outcome,
        ToggleOutcome::Sent { player: "F".to_string(), was_playing: false }
    );
}

#[test]
fn toggle_prefers_first_playing_player() {
    let (outcome, dispatched) = run_toggle(
        &["A", "B", "C"],
        |n| {
            if n == "A" {
                PlaybackStatus::NotPlaying
            } else {
                PlaybackStatus::Playing
            }
        },
        |_| true,
    );
    assert_eq!(dispatched, players(&["B"]));
    assert_eq!(
        outcome,
        ToggleOutcome::Sent { player: "B".to_string(), was_playing: true }
    );
}

#[test]
fn toggle_skips_preferred_in_fallback() {
    // B is preferred; once it fails, the fallback walks A then C, never
    // retrying B.
    let (outcome, dispatched) = run_toggle(
        &["A", "B", "C"],
        |n| {
            if n == "B" {
                PlaybackStatus::Playing
            } else {
                PlaybackStatus::NotPlaying
            }
        },
        |n| n == "C",
    );
    assert_eq!(dispatched, players(&["B", "A", "C"]));
    assert_eq!(
        outcome,
        ToggleOutcome::Sent { player: "C".to_string(), was_playing: false }
    );
}

#[test]
fn toggle_reports_all_failed() {
    let (outcome, dispatched) = run_toggle(&["E", "F"], |_| PlaybackStatus::NotPlaying, |_| false);
    assert_eq!(dispatched, players(&["E", "F"]));
    assert_eq!(outcome, ToggleOutcome::AllFailed);

    let (outcome_single, dispatched_single) =
        run_toggle(&["E"], |_| PlaybackStatus::NotPlaying, |_| false);
    assert_eq!(dispatched_single, players(&["E"]));
    assert_eq!(outcome_single, ToggleOutcome::AllFailed);
}

#[test]
fn pause_then_resume_round_trip() {
    let mut c = MediaController::new();
    assert!(c.paused.is_empty());

    let (recorded, pause_dispatched) = run_pause(&["X"], |_| PlaybackStatus::Playing, |_| true);
    assert_eq!(pause_dispatched, players(&["X"]));
    c.commit_pause(recorded);
    assert_eq!(c.paused, players(&["X"]));

    let mut m = c.begin_resume();
    let play_dispatched = run_resume(&mut m, |_| true);
    assert_eq!(play_dispatched, players(&["X"]));
    c.finish_resume();
    assert!(c.paused.is_empty());
}
