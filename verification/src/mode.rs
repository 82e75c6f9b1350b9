//! The play/pause state machine.

use vstd::prelude::*;

verus! {

/// The two-valued state that gates look input and cursor capture.
#[derive(Clone, Copy, Debug, PartialEq, Eq, Hash, Structural)]
pub enum Mode {
    /// Pointer motion turns the camera; the cursor is hidden and locked.
    Play,
    /// Pointer motion is discarded; the cursor is visible and free.
    Pause,
}

impl Mode {
    /// The other mode.
    pub open spec fn toggled(self) -> Mode {
        match self {
            Mode::Play => Mode::Pause,
            Mode::Pause => Mode::Play,
        }
    }

    /// Whether the cursor is captured while this mode lasts.
    pub open spec fn captures_cursor(self) -> bool {
        self is Play
    }

    /// The mode a session starts in.
    pub fn initial() -> (mode: Mode)
        ensures
            mode == Mode::Play,
    {
        Mode::Play
    }

    /// Whether this is `Play`.
    pub fn is_play(&self) -> (play: bool)
        ensures
            play == (*self is Play),
            play == self.captures_cursor(),
    {
        match self {
            Mode::Play => true,
            Mode::Pause => false,
        }
    }

    /// The other mode.
    pub fn toggle(&self) -> (next: Mode)
        ensures
            next == self.toggled(),
            next != *self,
    {
        match self {
            Mode::Play => Mode::Pause,
            Mode::Pause => Mode::Play,
        }
    }
}

/// What one frame of the state machine decided.
#[derive(Clone, Copy, Debug, PartialEq, Eq, Structural)]
pub struct Transition {
    /// The mode after the frame.
    pub mode: Mode,
    /// `Some(captured)` when the cursor has to be set in this frame, `None` when
    /// it is left as it is.
    pub cursor: Option<bool>,
}

/// The mode after a frame in which the toggle key was, or was not, just pressed.
pub open spec fn next_mode(pressed: bool, mode: Mode) -> Mode {
    if pressed {
        mode.toggled()
    } else {
        mode
    }
}

/// The cursor command of a frame: none without a press, else the capture that
/// belongs to the mode the press leads to.
pub open spec fn cursor_command(pressed: bool, mode: Mode) -> Option<bool> {
    if pressed {
        Some(mode.toggled().captures_cursor())
    } else {
        None
    }
}

/// One frame of the state machine.
///
/// Without a press nothing changes and no cursor command is issued. A press
/// in `Play` leads to `Pause` and frees the cursor; a press in `Pause` leads to
/// `Play` and captures it. The command comes with the transition, so mode and
/// cursor never disagree after one.
pub fn handle_frame(escape_just_pressed: bool, current_mode: Mode) -> (t: Transition)
    ensures
        t.mode == next_mode(escape_just_pressed, current_mode),
        t.cursor == cursor_command(escape_just_pressed, current_mode),
        !escape_just_pressed ==> t.mode == current_mode && t.cursor is None,
        escape_just_pressed ==> t.mode != current_mode && t.cursor == Some(t.mode is Play),
        escape_just_pressed && current_mode is Play ==> t.mode is Pause && t.cursor == Some(false),
        escape_just_pressed && current_mode is Pause ==> t.mode is Play && t.cursor == Some(true),
{
    if escape_just_pressed {
        let mode = current_mode.toggle();
        Transition { mode, cursor: Some(mode.is_play()) }
    } else {
        Transition { mode: current_mode, cursor: None }
    }
}

/// The mode after a run of frames that began in `start`; `presses[i]` says
/// whether the toggle key was just pressed in frame `i`.
pub open spec fn mode_after(start: Mode, presses: Seq<bool>) -> Mode
    decreases presses.len(),
{
    if presses.len() == 0 {
        start
    } else {
        next_mode(presses.last(), mode_after(start, presses.drop_last()))
    }
}

/// Whether the cursor is captured after a run of frames that began in `start`
/// with the cursor captured or not as `captured` says: the last command that a
/// frame issued decides, and without any the cursor is as it was.
pub open spec fn cursor_after(start: Mode, captured: bool, presses: Seq<bool>) -> bool
    decreases presses.len(),
{
    if presses.len() == 0 {
        captured
    } else {
        match cursor_command(presses.last(), mode_after(start, presses.drop_last())) {
            Some(command) => command,
            None => cursor_after(start, captured, presses.drop_last()),
        }
    }
}

/// The number of frames of a run in which the toggle key was just pressed.
pub open spec fn press_count(presses: Seq<bool>) -> nat
    decreases presses.len(),
{
    if presses.len() == 0 {
        0
    } else {
        press_count(presses.drop_last()) + if presses.last() {
            1nat
        } else {
            0nat
        }
    }
}

/// Over any run of frames the mode alternates strictly: it is the starting
/// mode after an even number of presses and the other mode after an odd
/// number. Once a press has occurred, the cursor is captured exactly when the
/// mode is `Play`; before the first press it is as the run found it.
pub proof fn lemma_mode_alternates(start: Mode, captured: bool, presses: Seq<bool>)
    ensures
        press_count(presses) % 2 == 0 ==> mode_after(start, presses) == start,
        press_count(presses) % 2 == 1 ==> mode_after(start, presses) == start.toggled(),
        press_count(presses) > 0 ==> cursor_after(start, captured, presses) == (mode_after(
            start,
            presses,
        ) is Play),
        press_count(presses) == 0 ==> cursor_after(start, captured, presses) == captured,
    decreases presses.len(),
{
    if presses.len() > 0 {
        lemma_mode_alternates(start, captured, presses.drop_last());
    }
}

/// Frame `i` of a run changes the mode exactly when the key was just pressed in
/// it, and a frame that changes the mode leaves the cursor captured exactly
/// when the new mode is `Play`.
pub proof fn lemma_press_toggles(start: Mode, captured: bool, presses: Seq<bool>, i: int)
    requires
        0 <= i < presses.len(),
    ensures
        presses[i] ==> mode_after(start, presses.take(i + 1)) == mode_after(
            start,
            presses.take(i),
        ).toggled(),
        !presses[i] ==> mode_after(start, presses.take(i + 1)) == mode_after(
            start,
            presses.take(i),
        ),
        presses[i] ==> cursor_after(start, captured, presses.take(i + 1)) == (mode_after(
            start,
            presses.take(i + 1),
        ) is Play),
        !presses[i] ==> cursor_after(start, captured, presses.take(i + 1)) == cursor_after(
            start,
            captured,
            presses.take(i),
        ),
{
    assert(presses.take(i + 1).drop_last() =~= presses.take(i));
    assert(presses.take(i + 1).last() == presses[i]);
}

} // verus!
