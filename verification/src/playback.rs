use vstd::prelude::*;

verus! {

/// What the player is doing.
#[derive(Clone, Copy, Debug, PartialEq, Eq, Structural)]
pub enum PlaybackState {
    Stopped,
    Playing,
    Paused,
}

/// A command to the player.
#[derive(Clone, Copy, Debug, PartialEq, Eq, Structural)]
pub enum PlaybackAction {
    Play,
    Pause,
}

pub open spec fn play_pause_spec(state: PlaybackState) -> PlaybackAction {
    match state {
        PlaybackState::Playing => PlaybackAction::Pause,
        _ => PlaybackAction::Play,
    }
}

/// The play/pause command: pause while playing, play otherwise.
pub fn play_pause(state: PlaybackState) -> (r: PlaybackAction)
    ensures
        r == play_pause_spec(state),
{
    match state {
        PlaybackState::Stopped => PlaybackAction::Play,
        PlaybackState::Playing => PlaybackAction::Pause,
        PlaybackState::Paused => PlaybackAction::Play,
    }
}

/// How the queue repeats.
#[derive(Clone, Copy, Debug, PartialEq, Eq, Structural)]
pub enum RepeatState {
    NotRepeating,
    Repeating,
    RepeatingOne,
}

pub open spec fn next_repeat_spec(state: RepeatState) -> RepeatState {
    match state {
        RepeatState::NotRepeating => RepeatState::Repeating,
        RepeatState::Repeating => RepeatState::RepeatingOne,
        RepeatState::RepeatingOne => RepeatState::NotRepeating,
    }
}

/// The repeat mode after a click on the repeat button: off, then the whole queue, then one
/// track, then off again.
pub fn next_repeat_state(state: RepeatState) -> (r: RepeatState)
    ensures
        r == next_repeat_spec(state),
{
    match state {
        RepeatState::NotRepeating => RepeatState::Repeating,
        RepeatState::Repeating => RepeatState::RepeatingOne,
        RepeatState::RepeatingOne => RepeatState::NotRepeating,
    }
}

/// Whether the repeat button shows the repeat-one icon.
pub fn repeat_shows_once_icon(state: RepeatState) -> (r: bool)
    ensures
        r == (state is RepeatingOne),
{
    match state {
        RepeatState::RepeatingOne => true,
        _ => false,
    }
}

/// Whether the repeat button is shown as switched on.
pub fn repeat_is_toggled(state: RepeatState) -> (r: bool)
    ensures
        r == !(state is NotRepeating),
{
    match state {
        RepeatState::NotRepeating => false,
        _ => true,
    }
}

/// Three clicks on the repeat button bring back the mode it started in, and no fewer do.
pub proof fn repeat_cycles_in_three(state: RepeatState)
    ensures
        next_repeat_spec(next_repeat_spec(next_repeat_spec(state))) == state,
        next_repeat_spec(state) != state,
        next_repeat_spec(next_repeat_spec(state)) != state,
{
}

/// Whether a seek from the scrubber is acted on: only with a known length and while not
/// stopped.
pub fn scrubber_can_seek(duration: u64, state: PlaybackState) -> (r: bool)
    ensures
        r == (duration > 0 && !(state is Stopped)),
{
    duration > 0 && match state {
        PlaybackState::Stopped => false,
        _ => true,
    }
}

/// The entries of the repeat button's menu, each with the mode it sets: Off only when the
/// player is not set to always repeat, then Repeat and Repeat One.
pub open spec fn repeat_menu_spec(always_repeat: bool) -> Seq<(&'static str, RepeatState)> {
    let rest = seq![("Repeat", RepeatState::Repeating), ("Repeat One", RepeatState::RepeatingOne)];
    if always_repeat {
        rest
    } else {
        seq![("Off", RepeatState::NotRepeating)] + rest
    }
}

/// The entries of the repeat button's menu.
pub fn repeat_menu_options(always_repeat: bool) -> (r: Vec<(&'static str, RepeatState)>)
    ensures
        r@ == repeat_menu_spec(always_repeat),
{
    let mut r: Vec<(&'static str, RepeatState)> = Vec::new();
    if !always_repeat {
        r.push(("Off", RepeatState::NotRepeating));
    }
    r.push(("Repeat", RepeatState::Repeating));
    r.push(("Repeat One", RepeatState::RepeatingOne));
    proof {
        assert(r@ =~= repeat_menu_spec(always_repeat));
    }
    r
}

} // verus!
