//! The remote-control vocabulary: commands, bus requests, and the fixed
//! names of the player control and property interfaces.
//!
//! The machines in this crate never touch the bus themselves. They hand an
//! unverified driver one [`BusRequest`] at a time; the driver performs it and
//! reports the outcome back.

use vstd::prelude::*;

verus! {

/// A remote-control command a player accepts. Each is sent as a method
/// invocation named exactly after the command, with no arguments.
#[derive(Clone, Copy, Debug, PartialEq, Eq, Structural)]
pub enum Command {
    Play,
    Pause,
    PlayPause,
}

/// One bus interaction a driver must perform on behalf of a machine.
#[derive(Debug, PartialEq, Eq)]
pub enum BusRequest {
    /// Read the playback status property of the named player.
    Probe(String),
    /// Invoke the command on the named player.
    Dispatch(Command, String),
}

/// The method name a command is sent under.
pub open spec fn command_name_of(c: Command) -> Seq<char> {
    match c {
        Command::Play => "Play"@,
        Command::Pause => "Pause"@,
        Command::PlayPause => "PlayPause"@,
    }
}

/// The method name to invoke for a command.
pub fn command_name(c: Command) -> (r: &'static str)
    ensures
        r@ == command_name_of(c),
{
    match c {
        Command::Play => "Play",
        Command::Pause => "Pause",
        Command::PlayPause => "PlayPause",
    }
}

/// The object path every player exposes its control interface under.
pub fn player_object_path() -> (r: &'static str)
    ensures
        r@ == "/org/mpris/MediaPlayer2"@,
{
    "/org/mpris/MediaPlayer2"
}

/// The interface the control methods and the playback status belong to.
pub fn player_interface() -> (r: &'static str)
    ensures
        r@ == "org.mpris.MediaPlayer2.Player"@,
{
    "org.mpris.MediaPlayer2.Player"
}

/// The generic property-access interface used to read properties.
pub fn properties_interface() -> (r: &'static str)
    ensures
        r@ == "org.freedesktop.DBus.Properties"@,
{
    "org.freedesktop.DBus.Properties"
}

/// The generic property-access method a property is read with. It takes the
/// owning interface name and the property name as its two arguments.
pub fn property_get_method() -> (r: &'static str)
    ensures
        r@ == "Get"@,
{
    "Get"
}

/// The name of the property that carries a player's playback status.
pub fn playback_status_property() -> (r: &'static str)
    ensures
        r@ == "PlaybackStatus"@,
{
    "PlaybackStatus"
}

} // verus!
