//! Selection of the one movable entity that receives movement keys.
//!
//! An entity has no stored identity: it is known by its place in the ordered
//! sequence of movable entities of the current frame. The selection is an index
//! into that sequence and means something only against the current count.

use vstd::prelude::*;
use vstd::arithmetic::div_mod::{
    lemma_fundamental_div_mod, lemma_fundamental_div_mod_converse_mod, lemma_small_mod,
};

verus! {

/// The selection after a frame, over unbounded numbers.
///
/// With no entity there is no valid target and the selection is 0. Without a
/// press the selection stays. A press moves it one place on and wraps at the
/// end of the sequence.
pub open spec fn next_index(pressed: bool, count: nat, index: nat) -> nat {
    if count == 0 {
        0
    } else if pressed {
        (index + 1) % count
    } else {
        index
    }
}

/// The entity that a selection names among `count` entities, if it names one.
pub open spec fn target_of(count: nat, index: nat) -> Option<nat> {
    if index < count {
        Some(index)
    } else {
        None
    }
}

/// Stepping a remainder by one is stepping the number by one.
proof fn lemma_successor_mod(index: int, count: int)
    requires
        0 <= index,
        0 < count,
    ensures
        (index + 1) % count == if index % count + 1 == count {
            0
        } else {
            index % count + 1
        },
        0 <= index % count < count,
{
    let q = index / count;
    let r = index % count;
    lemma_fundamental_div_mod(index, count);
    assert(index == count * q + r);
    assert(count * q == q * count) by (nonlinear_arith);
    if r + 1 == count {
        assert(index + 1 == (q + 1) * count + 0) by (nonlinear_arith)
            requires
                index == q * count + r,
                r + 1 == count,
        ;
        lemma_fundamental_div_mod_converse_mod(index + 1, count, q + 1, 0);
    } else {
        assert(index + 1 == q * count + (r + 1));
        lemma_fundamental_div_mod_converse_mod(index + 1, count, q, r + 1);
    }
}

/// One frame of the selector: the selection among `count` entities after a
/// frame in which the cycle key was, or was not, just pressed.
///
/// A press on a selection that is out of range (the sequence shrank) leads back
/// into range as well.
pub fn advance(tab_just_pressed: bool, count: usize, index: usize) -> (next: usize)
    ensures
        next == next_index(tab_just_pressed, count as nat, index as nat),
        count == 0 ==> next == 0,
        count >= 1 && !tab_just_pressed ==> next == index,
        count >= 1 && tab_just_pressed ==> next == (index + 1) % (count as int),
        count >= 1 && tab_just_pressed ==> next < count,
        tab_just_pressed && index + 1 < count ==> next == index + 1,
        tab_just_pressed && index + 1 == count ==> next == 0,
{
    if count == 0 {
        0
    } else if tab_just_pressed {
        let place: usize = index % count;
        proof {
            lemma_successor_mod(index as int, count as int);
            if index < count {
                lemma_small_mod(index as nat, count as nat);
            }
        }
        if place + 1 == count {
            0
        } else {
            place + 1
        }
    } else {
        index
    }
}

/// The entity that receives movement in a frame: the selected one where the
/// selection is in range, none where the sequence is empty or the selection is
/// stale.
pub fn target(count: usize, index: usize) -> (found: Option<usize>)
    ensures
        found == (if index < count {
            Some(index)
        } else {
            None
        }),
        found matches Some(i) ==> i < count,
        found is Some <==> index < count,
{
    if index < count {
        Some(index)
    } else {
        None
    }
}

} // verus!
