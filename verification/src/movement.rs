//! Translation of the selected entity by held keys.
//!
//! Lengths are whole millionths of a distance unit and time is whole
//! microseconds, so a speed of ten units per second is ten length steps per
//! microsecond and no rounding occurs. Coordinates saturate at the ends of the
//! `i64` range.

use vstd::prelude::*;

verus! {

/// Speed of a moving entity, in distance units per second.
pub const SPEED: i64 = 10;

/// Length steps in one distance unit.
pub const STEPS_PER_UNIT: i64 = 1_000_000;

/// The movement keys that are down in a frame.
#[derive(Clone, Copy, Debug, PartialEq, Eq, Structural)]
pub struct HeldKeys {
    /// W: towards smaller `z`.
    pub forward: bool,
    /// S: towards larger `z`.
    pub backward: bool,
    /// A: towards smaller `x`.
    pub left: bool,
    /// D: towards larger `x`.
    pub right: bool,
    /// Space: towards larger `y`.
    pub up: bool,
    /// Shift: towards smaller `y`.
    pub down: bool,
}

/// A displacement along the entity's right (`x`), up (`y`) and forward (`z`)
/// axes, in length steps.
#[derive(Clone, Copy, Debug, PartialEq, Eq, Structural)]
pub struct Offset {
    pub x: i64,
    pub y: i64,
    pub z: i64,
}

/// The translation of a movable entity, in length steps.
#[derive(Clone, Copy, Debug, PartialEq, Eq, Structural)]
pub struct Position {
    pub x: i64,
    pub y: i64,
    pub z: i64,
}

/// What two opposed keys give an axis: the key of the positive direction adds
/// `length`, the other subtracts it, and both together cancel.
pub open spec fn axis(plus: bool, minus: bool, length: int) -> int {
    (if plus { length } else { 0int }) - (if minus { length } else { 0int })
}

/// The length covered in `elapsed_micros` microseconds.
pub open spec fn distance(elapsed_micros: u32) -> int {
    SPEED * elapsed_micros
}

/// The displacement along `x`: D adds the distance, A subtracts it.
pub open spec fn offset_x(keys: HeldKeys, elapsed_micros: u32) -> int {
    axis(keys.right, keys.left, distance(elapsed_micros))
}

/// The displacement along `y`: Space adds the distance, Shift subtracts it.
pub open spec fn offset_y(keys: HeldKeys, elapsed_micros: u32) -> int {
    axis(keys.up, keys.down, distance(elapsed_micros))
}

/// The displacement along `z`: S adds the distance, W subtracts it.
pub open spec fn offset_z(keys: HeldKeys, elapsed_micros: u32) -> int {
    axis(keys.backward, keys.forward, distance(elapsed_micros))
}

/// The nearest coordinate to `v` that an `i64` holds.
pub open spec fn clamp(v: int) -> int {
    if v < i64::MIN {
        i64::MIN as int
    } else if v > i64::MAX {
        i64::MAX as int
    } else {
        v
    }
}

impl Position {
    /// This position displaced by `(dx, dy, dz)`, each coordinate saturating.
    pub open spec fn shifted(self, dx: int, dy: int, dz: int) -> Position {
        Position {
            x: clamp(self.x + dx) as i64,
            y: clamp(self.y + dy) as i64,
            z: clamp(self.z + dz) as i64,
        }
    }

    /// Where held keys take this position in `elapsed_micros` microseconds.
    pub open spec fn after(self, keys: HeldKeys, elapsed_micros: u32) -> Position {
        self.shifted(
            offset_x(keys, elapsed_micros),
            offset_y(keys, elapsed_micros),
            offset_z(keys, elapsed_micros),
        )
    }

    /// This position displaced by `offset`, each coordinate saturating.
    pub fn moved(&self, offset: &Offset) -> (p: Position)
        ensures
            p == self.shifted(offset.x as int, offset.y as int, offset.z as int),
            p.x == clamp(self.x + offset.x),
            p.y == clamp(self.y + offset.y),
            p.z == clamp(self.z + offset.z),
            offset.x == 0 && offset.y == 0 && offset.z == 0 ==> p == *self,
    {
        Position {
            x: saturating_sum(self.x, offset.x),
            y: saturating_sum(self.y, offset.y),
            z: saturating_sum(self.z, offset.z),
        }
    }
}

/// `a + b`, held to the `i64` range.
fn saturating_sum(a: i64, b: i64) -> (s: i64)
    ensures
        s == clamp(a + b),
{
    let wide: i128 = a as i128 + b as i128;
    if wide < i64::MIN as i128 {
        i64::MIN
    } else if wide > i64::MAX as i128 {
        i64::MAX
    } else {
        wide as i64
    }
}

/// The signed length that two opposed keys give an axis.
fn along(plus: bool, minus: bool, length: i64) -> (d: i64)
    requires
        0 <= length <= SPEED * u32::MAX,
    ensures
        d == axis(plus, minus, length as int),
{
    let mut d: i64 = 0;
    if minus {
        d = d - length;
    }
    if plus {
        d = d + length;
    }
    d
}

/// The displacement that held keys produce in `elapsed_micros` microseconds.
///
/// Keys compose additively and the result is not normalised: two keys of
/// different axes move the entity by the full distance along each.
pub fn displacement(held_keys: &HeldKeys, elapsed_micros: u32) -> (offset: Offset)
    ensures
        offset.x == offset_x(*held_keys, elapsed_micros),
        offset.y == offset_y(*held_keys, elapsed_micros),
        offset.z == offset_z(*held_keys, elapsed_micros),
        elapsed_micros == 0 ==> offset.x == 0 && offset.y == 0 && offset.z == 0,
{
    let length: i64 = SPEED * (elapsed_micros as i64);
    Offset {
        x: along(held_keys.right, held_keys.left, length),
        y: along(held_keys.up, held_keys.down, length),
        z: along(held_keys.backward, held_keys.forward, length),
    }
}

/// One frame of the movement system.
///
/// The entity at `selected_index` is translated by what the held keys produce
/// in `elapsed_micros` microseconds; every other entity is left as it is. A
/// selection without an entity (an empty sequence, a stale index) changes
/// nothing, and so does a frame in which no time has passed.
pub fn apply(
    entities: &mut Vec<Position>,
    selected_index: usize,
    held_keys: &HeldKeys,
    elapsed_micros: u32,
)
    ensures
        final(entities)@.len() == old(entities)@.len(),
        selected_index < old(entities)@.len() ==> final(entities)@ == old(entities)@.update(
            selected_index as int,
            old(entities)@[selected_index as int].after(*held_keys, elapsed_micros),
        ),
        selected_index >= old(entities)@.len() ==> final(entities)@ == old(entities)@,
        elapsed_micros == 0 ==> final(entities)@ == old(entities)@,
        forall|i: int|
            0 <= i < old(entities)@.len() && i != selected_index ==> final(entities)@[i] == old(
                entities,
            )@[i],
{
    if selected_index < entities.len() {
        let offset = displacement(held_keys, elapsed_micros);
        let moved = entities[selected_index].moved(&offset);
        entities.set(selected_index, moved);
        proof {
            if elapsed_micros == 0 {
                assert(final(entities)@ =~= old(entities)@);
            }
        }
    }
}

} // verus!
