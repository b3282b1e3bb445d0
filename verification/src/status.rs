//! Classification of a player's reported playback state.
//!
//! A player's playback state is read from its `PlaybackStatus` property.
//! Different player implementations deliver that property either as a bare
//! string or wrapped in a generic variant container; both shapes are
//! represented here, and both are classified by comparing the carried text
//! against the literal `"Playing"`.

use vstd::prelude::*;

verus! {

/// Classification of a media player's playback state.
#[derive(Clone, Copy, Debug, PartialEq, Eq, Structural)]
pub enum PlaybackStatus {
    /// The property read succeeded and the player reported `"Playing"`.
    Playing,
    /// The property read succeeded but the player did not report `"Playing"`.
    NotPlaying,
    /// The property could not be read at all.
    Unknown,
}

/// The decoded shape of a `PlaybackStatus` property reply.
#[derive(Debug)]
pub enum ReplyPayload {
    /// The reply body decoded directly as a string.
    Text(String),
    /// The reply body decoded as a variant container holding a string.
    BoxedText(String),
    /// The reply body decoded as a variant container holding a non-string.
    BoxedOther,
    /// The reply body decoded under neither shape.
    Malformed,
}

/// The text a playing player reports for its `PlaybackStatus` property.
pub open spec fn playing_literal() -> Seq<char> {
    "Playing"@
}

/// The text carried by a reply, if either decoding path yields one.
pub open spec fn payload_text(p: ReplyPayload) -> Option<Seq<char>> {
    match p {
        ReplyPayload::Text(s) => Some(s@),
        ReplyPayload::BoxedText(s) => Some(s@),
        ReplyPayload::BoxedOther => None,
        ReplyPayload::Malformed => None,
    }
}

/// How a successfully read reply is classified: exactly the replies carrying
/// the literal `"Playing"` count as playing; every other shape folds to
/// `NotPlaying`, never to an error.
pub open spec fn status_of_payload(p: ReplyPayload) -> PlaybackStatus {
    match payload_text(p) {
        Some(t) => if t == playing_literal() {
            PlaybackStatus::Playing
        } else {
            PlaybackStatus::NotPlaying
        },
        None => PlaybackStatus::NotPlaying,
    }
}

/// How a whole probe is classified: a failed property read folds to
/// `Unknown`, a successful one is classified by its payload.
pub open spec fn status_of_probe(reply: Option<ReplyPayload>) -> PlaybackStatus {
    match reply {
        Some(p) => status_of_payload(p),
        None => PlaybackStatus::Unknown,
    }
}

fn playing_status_of_text(s: &String) -> (r: PlaybackStatus)
    ensures
        r == (if s@ == playing_literal() {
            PlaybackStatus::Playing
        } else {
            PlaybackStatus::NotPlaying
        }),
{
    let lit: String = "Playing".to_owned();
    if *s == lit {
        PlaybackStatus::Playing
    } else {
        PlaybackStatus::NotPlaying
    }
}

/// Classifies a decoded property reply.
pub fn classify_payload(p: &ReplyPayload) -> (r: PlaybackStatus)
    ensures
        r == status_of_payload(*p),
{
    match p {
        ReplyPayload::Text(s) => playing_status_of_text(s),
        ReplyPayload::BoxedText(s) => playing_status_of_text(s),
        ReplyPayload::BoxedOther => PlaybackStatus::NotPlaying,
        ReplyPayload::Malformed => PlaybackStatus::NotPlaying,
    }
}

/// Classifies a probe outcome; a failed read never escalates to an error.
pub fn interpret_probe(reply: &Option<ReplyPayload>) -> (r: PlaybackStatus)
    ensures
        r == status_of_probe(*reply),
{
    match reply {
        Some(p) => classify_payload(p),
        None => PlaybackStatus::Unknown,
    }
}

/// Only an explicit `"Playing"` report counts as playing.
pub fn is_playing_status(st: PlaybackStatus) -> (r: bool)
    ensures
        r == (st is Playing),
{
    matches!(st, PlaybackStatus::Playing)
}

} // verus!
