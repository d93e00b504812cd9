use vstd::prelude::*;

use crate::player::{AudioPlayer, PlaybackStatus, SinkDirective};

verus! {

/// A terminal key, reduced to what the dispatcher reads of it.
#[derive(Debug, Clone, Copy, PartialEq, Eq, Structural)]
pub enum KeyInput {
    Enter,
    Char(char),
    Other,
}

/// What a key press asks of the player.
#[derive(Debug, Clone, Copy, PartialEq, Eq, Structural)]
pub enum KeyCommand {
    /// Toggle between playing and paused.
    Turn,
    Stop,
    VolumeUp,
    VolumeDown,
    /// Stop playback and leave the event loop.
    Kill,
    Ignore,
}

/// The key bindings: enter, space and `p` toggle, `s` stops, `+` and `-`
/// change the gain, and control with `q` or `c` terminates. Everything else
/// is ignored.
pub open spec fn key_command(key: KeyInput, control: bool) -> KeyCommand {
    match key {
        KeyInput::Enter => KeyCommand::Turn,
        KeyInput::Char(c) => if c == ' ' || c == 'p' {
            KeyCommand::Turn
        } else if c == 's' {
            KeyCommand::Stop
        } else if c == '+' {
            KeyCommand::VolumeUp
        } else if c == '-' {
            KeyCommand::VolumeDown
        } else if (c == 'q' || c == 'c') && control {
            KeyCommand::Kill
        } else {
            KeyCommand::Ignore
        },
        KeyInput::Other => KeyCommand::Ignore,
    }
}

/// The playing/paused toggle: stopped playback stays stopped.
pub open spec fn toggled(s: PlaybackStatus) -> PlaybackStatus {
    match s {
        PlaybackStatus::Playing => PlaybackStatus::Paused,
        PlaybackStatus::Paused => PlaybackStatus::Playing,
        PlaybackStatus::Stopped => PlaybackStatus::Stopped,
    }
}

/// Toggles between playing and paused; stopped playback is left alone. The
/// event loop always continues.
pub fn push_key_turn(player: &mut AudioPlayer) -> (r: (bool, SinkDirective))
    ensures
        r.0 == true,
        final(player).spec_status() == toggled(old(player).spec_status()),
        final(player).spec_file_path() == old(player).spec_file_path(),
        final(player).spec_metadata() == old(player).spec_metadata(),
        r.1 == (match old(player).spec_status() {
            PlaybackStatus::Playing => SinkDirective::PauseOutput,
            PlaybackStatus::Paused => SinkDirective::ResumeOutput,
            PlaybackStatus::Stopped => SinkDirective::KeepOutput,
        }),
{
    let current_status = player.get_status();
    let directive = match current_status {
        PlaybackStatus::Playing => player.pause(),
        PlaybackStatus::Paused => player.resume(),
        PlaybackStatus::Stopped => SinkDirective::KeepOutput,
    };
    (true, directive)
}

/// Stops playback; the event loop continues.
pub fn push_key_stop(player: &mut AudioPlayer) -> (r: (bool, SinkDirective))
    ensures
        r == (true, SinkDirective::HaltOutput),
        final(player).spec_status() == PlaybackStatus::Stopped,
        final(player).spec_file_path() is None,
        final(player).spec_metadata() is None,
{
    let directive = player.stop();
    (true, directive)
}

/// Asks for more gain; playback state is untouched and the loop continues.
pub fn push_key_volume_up(player: &mut AudioPlayer) -> (r: (bool, SinkDirective))
    ensures
        r == (true, SinkDirective::RaiseVolume),
        *final(player) == *old(player),
{
    let directive = player.volume_up();
    (true, directive)
}

/// Asks for less gain; playback state is untouched and the loop continues.
pub fn push_key_volume_down(player: &mut AudioPlayer) -> (r: (bool, SinkDirective))
    ensures
        r == (true, SinkDirective::LowerVolume),
        *final(player) == *old(player),
{
    let directive = player.volume_down();
    (true, directive)
}

/// Stops playback and ends the event loop.
pub fn push_key_kill(player: &mut AudioPlayer) -> (r: (bool, SinkDirective))
    ensures
        r == (false, SinkDirective::HaltOutput),
        final(player).spec_status() == PlaybackStatus::Stopped,
        final(player).spec_file_path() is None,
        final(player).spec_metadata() is None,
{
    let directive = player.stop();
    (false, directive)
}

/// Decides when the session's event loop ends on its own: when playback has
/// stopped, or when the track's known duration has been exceeded by more than
/// the two-second grace period (a stuck sink must not hold the session open).
pub fn should_end_session(
    status: PlaybackStatus,
    elapsed_ms: u64,
    total_duration_ms: Option<u64>,
) -> (r: bool)
    ensures
        r == (status == PlaybackStatus::Stopped || (total_duration_ms matches Some(t)
            && elapsed_ms > t + 2000)),
{
    if status == PlaybackStatus::Stopped {
        return true;
    }
    match total_duration_ms {
        Some(t) => elapsed_ms > 2000 && elapsed_ms - 2000 > t,
        None => false,
    }
}

/// Dispatches one key event: anything but a press is ignored, a press is
/// routed by `key_command`. Returns whether the event loop continues, with
/// the directive for the output sink.
pub fn handle_key_event(
    player: &mut AudioPlayer,
    key: KeyInput,
    is_press: bool,
    control: bool,
) -> (r: (bool, SinkDirective))
    ensures
        !is_press ==> *final(player) == *old(player) && r == (true, SinkDirective::KeepOutput),
        is_press ==> (match key_command(key, control) {
            KeyCommand::Turn => {
                &&& r.0 == true
                &&& final(player).spec_status() == toggled(old(player).spec_status())
                &&& final(player).spec_file_path() == old(player).spec_file_path()
                &&& final(player).spec_metadata() == old(player).spec_metadata()
                &&& r.1 == (match old(player).spec_status() {
                    PlaybackStatus::Playing => SinkDirective::PauseOutput,
                    PlaybackStatus::Paused => SinkDirective::ResumeOutput,
                    PlaybackStatus::Stopped => SinkDirective::KeepOutput,
                })
            },
            KeyCommand::Stop => {
                &&& r == (true, SinkDirective::HaltOutput)
                &&& final(player).spec_status() == PlaybackStatus::Stopped
                &&& final(player).spec_file_path() is None
                &&& final(player).spec_metadata() is None
            },
            KeyCommand::VolumeUp => {
                &&& r == (true, SinkDirective::RaiseVolume)
                &&& *final(player) == *old(player)
            },
            KeyCommand::VolumeDown => {
                &&& r == (true, SinkDirective::LowerVolume)
                &&& *final(player) == *old(player)
            },
            KeyCommand::Kill => {
                &&& r == (false, SinkDirective::HaltOutput)
                &&& final(player).spec_status() == PlaybackStatus::Stopped
                &&& final(player).spec_file_path() is None
                &&& final(player).spec_metadata() is None
            },
            KeyCommand::Ignore => {
                &&& r == (true, SinkDirective::KeepOutput)
                &&& *final(player) == *old(player)
            },
        }),
{
    if !is_press {
        return (true, SinkDirective::KeepOutput);
    }
    match key {
        KeyInput::Enter => push_key_turn(player),
        KeyInput::Char(c) => {
            if c == ' ' || c == 'p' {
                push_key_turn(player)
            } else if c == 's' {
                push_key_stop(player)
            } else if c == '+' {
                push_key_volume_up(player)
            } else if c == '-' {
                push_key_volume_down(player)
            } else if (c == 'q' || c == 'c') && control {
                push_key_kill(player)
            } else {
                (true, SinkDirective::KeepOutput)
            }
        },
        KeyInput::Other => (true, SinkDirective::KeepOutput),
    }
}

} // verus!
