//! Rotation of the look-enabled entities by pointer motion.
//!
//! Pointer motion is in whole motion units, window dimensions are in whole
//! pixels, and angles are in ticks of one ten-thousandth of a degree. One
//! motion unit on a window one pixel wide turns by one tick, so an angle is a
//! product of two integers and no rounding occurs.

use vstd::prelude::*;
use crate::mode::Mode;

verus! {

/// Ticks in one degree: the reciprocal of the look sensitivity.
pub const TICKS_PER_DEGREE: i64 = 10_000;

/// One queued pointer motion.
#[derive(Clone, Copy, Debug, PartialEq, Eq, Structural)]
pub struct Motion {
    /// Motion to the right.
    pub dx: i32,
    /// Motion downwards.
    pub dy: i32,
}

/// The dimensions of the window that pointer motion is scaled by.
#[derive(Clone, Copy, Debug, PartialEq, Eq, Structural)]
pub struct Window {
    pub width: u32,
    pub height: u32,
}

/// One incremental rotation: a yaw about the vertical axis followed by a pitch
/// about the entity's own horizontal axis, both in ticks. The two do not
/// commute; the yaw is applied first.
#[derive(Clone, Copy, Debug, PartialEq, Eq, Structural)]
pub struct Rotation {
    pub yaw: i64,
    pub pitch: i64,
}

/// The yaw that a motion produces, in ticks.
pub open spec fn yaw_of(motion: Motion, window: Window) -> int {
    -(motion.dx * window.width)
}

/// The pitch that a motion produces, in ticks.
pub open spec fn pitch_of(motion: Motion, window: Window) -> int {
    -(motion.dy * window.height)
}

/// The rotation that a motion produces.
pub open spec fn rotation_of(motion: Motion, window: Window) -> Rotation {
    Rotation { yaw: yaw_of(motion, window) as i64, pitch: pitch_of(motion, window) as i64 }
}

/// The rotations that a frame's queue produces: one for each motion, in
/// arrival order, in `Play`; none in any other mode.
pub open spec fn rotations_of(mode: Mode, motions: Seq<Motion>, window: Window) -> Seq<Rotation> {
    if mode is Play {
        Seq::new(motions.len(), |i: int| rotation_of(motions[i], window))
    } else {
        Seq::empty()
    }
}

/// The product of a motion and a dimension, negated: it always fits.
fn turned(delta: i32, dimension: u32) -> (ticks: i64)
    ensures
        ticks == -(delta * dimension),
{
    assert(-0x8000_0000_0000_0000 < delta * dimension < 0x8000_0000_0000_0000)
        by (nonlinear_arith)
        requires
            -0x8000_0000 <= delta < 0x8000_0000,
            0 <= dimension < 0x1_0000_0000,
    ;
    let product: i64 = (delta as i64) * (dimension as i64);
    -product
}

/// The rotation that one motion produces on a window of the given dimensions.
pub fn rotation(motion: &Motion, window: &Window) -> (r: Rotation)
    ensures
        r == rotation_of(*motion, *window),
        r.yaw == -(motion.dx * window.width),
        r.pitch == -(motion.dy * window.height),
{
    Rotation { yaw: turned(motion.dx, window.width), pitch: turned(motion.dy, window.height) }
}

/// The orientation of a look-enabled entity, as the incremental rotations that
/// were composed onto it, oldest first. Rotations do not commute, so the
/// sequence is kept as it came; composing it is left to the renderer.
#[derive(Debug, PartialEq, Eq)]
pub struct Orientation {
    pub turns: Vec<Rotation>,
}

impl View for Orientation {
    type V = Seq<Rotation>;

    open spec fn view(&self) -> Seq<Rotation> {
        self.turns@
    }
}

impl Orientation {
    /// The orientation that nothing was composed onto yet.
    pub fn new() -> (o: Orientation)
        ensures
            o@ == Seq::<Rotation>::empty(),
    {
        Orientation { turns: Vec::new() }
    }

    /// Composes `rotations` onto this orientation, in their order.
    pub fn turn(&mut self, rotations: &Vec<Rotation>)
        ensures
            final(self)@ == old(self)@ + rotations@,
    {
        let mut j: usize = 0;
        while j < rotations.len()
            invariant
                j <= rotations@.len(),
                self@ == old(self)@ + rotations@.take(j as int),
            decreases rotations@.len() - j,
        {
            self.turns.push(rotations[j]);
            assert(rotations@.take(j + 1) == rotations@.take(j as int).push(rotations@[j as int]));
            j = j + 1;
        }
        assert(rotations@.take(rotations@.len() as int) == rotations@);
    }
}

/// Drains the queue of a frame into the rotations that it produces.
///
/// The queue is emptied in every mode, so that no motion is left over for a
/// later frame. In `Play` the result holds one rotation for each queued motion,
/// in arrival order; in any other mode it is empty.
pub fn drain(mode: Mode, motion_events: &mut Vec<Motion>, window: &Window) -> (rotations: Vec<
    Rotation,
>)
    ensures
        final(motion_events)@.len() == 0,
        rotations@ == rotations_of(mode, old(motion_events)@, *window),
        !(mode is Play) ==> rotations@.len() == 0,
        mode is Play ==> rotations@.len() == old(motion_events)@.len(),
        mode is Play ==> forall|i: int|
            0 <= i < old(motion_events)@.len() ==> rotations@[i] == rotation_of(
                #[trigger] old(motion_events)@[i],
                *window,
            ),
{
    let mut rotations: Vec<Rotation> = Vec::new();
    if mode.is_play() {
        let mut i: usize = 0;
        while i < motion_events.len()
            invariant
                i <= motion_events@.len(),
                motion_events@ == old(motion_events)@,
                rotations@.len() == i,
                forall|j: int|
                    0 <= j < i ==> rotations@[j] == rotation_of(
                        #[trigger] motion_events@[j],
                        *window,
                    ),
            decreases motion_events@.len() - i,
        {
            rotations.push(rotation(&motion_events[i], window));
            i = i + 1;
        }
    }
    motion_events.clear();
    assert(rotations@ =~= rotations_of(mode, old(motion_events)@, *window));
    rotations
}

/// One frame of the look system.
///
/// The queue is drained in every mode. In `Play` every entity receives the
/// rotation of every queued motion, in arrival order and uncoalesced; in any
/// other mode no entity turns.
pub fn apply(
    entities: &mut Vec<Orientation>,
    motion_events: &mut Vec<Motion>,
    window: &Window,
    mode: Mode,
)
    ensures
        final(motion_events)@.len() == 0,
        final(entities)@.len() == old(entities)@.len(),
        forall|e: int|
            0 <= e < old(entities)@.len() ==> (#[trigger] final(entities)@[e])@ == old(
                entities,
            )@[e]@ + rotations_of(mode, old(motion_events)@, *window),
        !(mode is Play) ==> forall|e: int|
            0 <= e < old(entities)@.len() ==> (#[trigger] final(entities)@[e])@ == old(
                entities,
            )@[e]@,
{
    let rotations = drain(mode, motion_events, window);
    let mut e: usize = 0;
    while e < entities.len()
        invariant
            e <= entities@.len(),
            entities@.len() == old(entities)@.len(),
            forall|k: int|
                0 <= k < e ==> (#[trigger] entities@[k])@ == old(entities)@[k]@ + rotations@,
            forall|k: int| e <= k < entities@.len() ==> entities@[k] == old(entities)@[k],
        decreases entities@.len() - e,
    {
        entities[e].turn(&rotations);
        e = e + 1;
    }
    assert forall|k: int| 0 <= k < old(entities)@.len() && !(mode is Play) implies (
    #[trigger] entities@[k])@ == old(entities)@[k]@ by {
        assert(old(entities)@[k]@ + Seq::<Rotation>::empty() =~= old(entities)@[k]@);
    }
}

} // verus!
