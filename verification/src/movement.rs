//! Movement by the arrow keys: which way the pressed keys point, and which
//! way the moved entities then face.
//!
//! The direction is the sum of one unit step per pressed arrow key. How far
//! an entity travels along it in a tick is the host's business.

use crate::geometry::Point;
use crate::sprite_animation::{AnimatedSprite, TurnDirection};
use vstd::prelude::*;

verus! {

/// A key of the keyboard, as far as movement tells keys apart.
#[derive(Clone, Copy, Debug, PartialEq, Eq, Structural)]
pub enum KeyCode {
    ArrowRight,
    ArrowUp,
    ArrowLeft,
    ArrowDown,
    /// Any key that does not move.
    Other,
}

/// The step along one axis: one forward if the forward key is pressed, one
/// back if the backward key is, and both cancel.
pub open spec fn spec_axis(pressed: Seq<KeyCode>, forward: KeyCode, backward: KeyCode) -> int {
    (if pressed.contains(forward) {
        1int
    } else {
        0int
    }) - (if pressed.contains(backward) {
        1int
    } else {
        0int
    })
}

/// The direction in which a set of pressed keys points. A key counts once,
/// however often the list names it.
pub open spec fn spec_key_direction(pressed: Seq<KeyCode>) -> Point {
    Point {
        x: spec_axis(pressed, KeyCode::ArrowRight, KeyCode::ArrowLeft) as i32,
        y: spec_axis(pressed, KeyCode::ArrowUp, KeyCode::ArrowDown) as i32,
    }
}

/// Whether `key` is among the pressed keys.
pub fn is_pressed(pressed: &Vec<KeyCode>, key: KeyCode) -> (found: bool)
    ensures
        found == pressed@.contains(key),
{
    let mut i: usize = 0;
    while i < pressed.len()
        invariant
            i <= pressed@.len(),
            forall|k: int| 0 <= k < i ==> pressed@[k] != key,
        decreases pressed@.len() - i,
    {
        if pressed[i] == key {
            return true;
        }
        i = i + 1;
    }
    false
}

/// The direction in which the pressed keys point.
pub fn key_direction(pressed: &Vec<KeyCode>) -> (direction: Point)
    ensures
        direction == spec_key_direction(pressed@),
        -1 <= direction.x <= 1,
        -1 <= direction.y <= 1,
{
    let right: i32 = if is_pressed(pressed, KeyCode::ArrowRight) {
        1
    } else {
        0
    };
    let left: i32 = if is_pressed(pressed, KeyCode::ArrowLeft) {
        1
    } else {
        0
    };
    let up: i32 = if is_pressed(pressed, KeyCode::ArrowUp) {
        1
    } else {
        0
    };
    let down: i32 = if is_pressed(pressed, KeyCode::ArrowDown) {
        1
    } else {
        0
    };
    Point { x: right - left, y: up - down }
}

/// One tick of keyboard movement for the entities in `movables`.
///
/// Returns the direction in which the pressed keys point. Unless that
/// direction is zero, every entity now faces it; if it is zero, every entity
/// keeps facing as it did.
pub fn move_by_keyboard(pressed: &Vec<KeyCode>, movables: &mut Vec<AnimatedSprite>) -> (direction:
    Point)
    ensures
        direction == spec_key_direction(pressed@),
        final(movables)@.len() == old(movables)@.len(),
        forall|i: int|
            0 <= i < old(movables)@.len() ==> (#[trigger] final(movables)@[i])@ == old(
                movables
            )@[i]@.face(Some(TurnDirection(direction))),
        forall|i: int| 0 <= i < old(movables)@.len() ==> (#[trigger] final(movables)@[i])@.wf(),
{
    let direction: Point = key_direction(pressed);
    let n: usize = movables.len();
    let mut i: usize = 0;
    while i < n
        invariant
            i <= n,
            n == movables@.len(),
            n == old(movables)@.len(),
            forall|k: int|
                0 <= k < i ==> (#[trigger] movables@[k])@ == old(movables)@[k]@.face(
                    Some(TurnDirection(direction)),
                ),
            forall|k: int| 0 <= k < i ==> (#[trigger] movables@[k])@.wf(),
            forall|k: int| i <= k < n ==> #[trigger] movables@[k] == old(movables)@[k],
        decreases n - i,
    {
        let mut sprite: AnimatedSprite = movables[i];
        sprite.face(TurnDirection(direction));
        movables[i] = sprite;
        i = i + 1;
    }
    direction
}

/// Keys that do not move, and a key pressed together with its opposite,
/// leave the direction at zero along that axis.
pub proof fn lemma_opposite_keys_cancel(pressed: Seq<KeyCode>)
    ensures
        pressed.contains(KeyCode::ArrowRight) == pressed.contains(KeyCode::ArrowLeft)
            ==> spec_key_direction(pressed).x == 0,
        pressed.contains(KeyCode::ArrowUp) == pressed.contains(KeyCode::ArrowDown)
            ==> spec_key_direction(pressed).y == 0,
{
}

} // verus!
