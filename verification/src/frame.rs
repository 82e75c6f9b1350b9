//! One frame of the whole controller.
//!
//! The state that lasts from frame to frame is owned by the caller and handed
//! to each frame. Within a frame the state machine and the selector take their
//! edge events first; movement and look then go by the mode and the selection
//! that result.

use vstd::prelude::*;
use crate::cursor::{toggle_cursor, CursorSettings};
use crate::look::{rotations_of, Motion, Rotation, Window};
use crate::mode::{cursor_command, handle_frame, next_mode, Mode};
use crate::movement::{displacement, offset_x, offset_y, offset_z, HeldKeys, Offset};
use crate::selector::{advance, next_index, target, target_of};

verus! {

/// The state that lasts from frame to frame.
#[derive(Clone, Copy, Debug, PartialEq, Eq, Structural)]
pub struct ControlState {
    /// The current mode.
    pub mode: Mode,
    /// The place of the selected entity among the movable ones.
    pub target_index: usize,
}

/// What the collaborators supply for one frame, sampled once.
#[derive(Clone, Copy, Debug, PartialEq, Eq, Structural)]
pub struct FrameInput {
    /// The mode-toggle key went down in this frame.
    pub escape_just_pressed: bool,
    /// The target-cycle key went down in this frame.
    pub tab_just_pressed: bool,
    /// The movement keys that are down.
    pub held_keys: HeldKeys,
    /// The time since the last frame, in microseconds.
    pub elapsed_micros: u32,
    /// The window's dimensions.
    pub window: Window,
    /// The number of movable entities in this frame.
    pub movable_count: usize,
}

/// What a frame asks the caller to carry out.
#[derive(Debug, PartialEq, Eq)]
pub struct FrameActions {
    /// The cursor settings to apply, where the mode changed.
    pub cursor: Option<CursorSettings>,
    /// The movable entity to translate, where the selection names one.
    pub target: Option<usize>,
    /// The translation of that entity.
    pub offset: Offset,
    /// The rotations that every look-enabled entity receives, in this order.
    pub rotations: Vec<Rotation>,
}

impl ControlState {
    /// The state a session starts in: `Play`, with the first entity selected.
    pub fn new() -> (state: ControlState)
        ensures
            state.mode is Play,
            state.target_index == 0,
    {
        ControlState { mode: Mode::Play, target_index: 0 }
    }

    /// One frame: updates the state and returns what is to be carried out.
    ///
    /// The cursor is set exactly when the mode changes, to what the new mode
    /// asks for. The selection is advanced before it is used, and it names an
    /// entity only if it is in range of the current count. The translation is
    /// that of the held keys over the elapsed time. The queue of motions is
    /// drained, and it yields rotations only if the frame ends in `Play`.
    pub fn step(&mut self, input: &FrameInput, motion_events: &mut Vec<Motion>) -> (actions:
        FrameActions)
        ensures
            final(self).mode == next_mode(input.escape_just_pressed, old(self).mode),
            final(self).target_index == next_index(
                input.tab_just_pressed,
                input.movable_count as nat,
                old(self).target_index as nat,
            ),
            final(motion_events)@.len() == 0,
            match cursor_command(input.escape_just_pressed, old(self).mode) {
                Some(captured) => actions.cursor == Some(
                    (CursorSettings { visible: !captured, locked: captured }),
                ),
                None => actions.cursor is None,
            },
            actions.cursor is Some <==> final(self).mode != old(self).mode,
            actions.cursor matches Some(settings) ==> settings.locked == (final(self).mode is Play)
                && settings.visible == !settings.locked,
            match target_of(input.movable_count as nat, final(self).target_index as nat) {
                Some(i) => actions.target == Some(i as usize),
                None => actions.target is None,
            },
            actions.target matches Some(i) ==> i < input.movable_count,
            actions.offset.x == offset_x(input.held_keys, input.elapsed_micros),
            actions.offset.y == offset_y(input.held_keys, input.elapsed_micros),
            actions.offset.z == offset_z(input.held_keys, input.elapsed_micros),
            actions.rotations@ == rotations_of(
                final(self).mode,
                old(motion_events)@,
                input.window,
            ),
    {
        let transition = handle_frame(input.escape_just_pressed, self.mode);
        let cursor = match transition.cursor {
            Some(captured) => Some(toggle_cursor(captured)),
            None => None,
        };
        self.mode = transition.mode;
        self.target_index = advance(input.tab_just_pressed, input.movable_count, self.target_index);
        let target = target(input.movable_count, self.target_index);
        let offset = displacement(&input.held_keys, input.elapsed_micros);
        let rotations = crate::look::drain(self.mode, motion_events, &input.window);
        FrameActions { cursor, target, offset, rotations }
    }
}

} // verus!
