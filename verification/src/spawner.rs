//! The spawner: a countdown that, each time it completes, places one
//! pickable entity at a random spot of the window in a random colour.

use crate::geometry::{Point, Size};
use crate::timer::RepeatingTimer;
use vstd::prelude::*;

verus! {

/// Side of the square that every spawned entity occupies.
pub const SPAWN_SIDE: i32 = 20;

/// A colour by its red, green and blue parts.
#[derive(Clone, Copy, Debug, PartialEq, Eq, Structural)]
pub struct Color {
    pub red: u8,
    pub green: u8,
    pub blue: u8,
}

/// The countdown between two spawns.
#[derive(Clone, Copy, Debug, PartialEq, Eq, Structural)]
pub struct SpawnTimer(pub RepeatingTimer);

/// What the host is to create: one pickable entity.
#[derive(Clone, Copy, Debug, PartialEq, Eq, Structural)]
pub struct Spawn {
    pub position: Point,
    pub color: Color,
    pub size: Size,
}

/// `rand::random::<u32>()`: a word from the thread's random generator.
///
/// Trusted, and nothing is claimed of the word: every `u32` may come back,
/// and two calls need not agree. The generator panics if the operating
/// system cannot seed it.
#[verifier::external_body]
fn random_word() -> (word: u32) {
    rand::random::<u32>()
}

/// Where a random word falls along an axis of length `extent` that is
/// centred at zero: the words are spread evenly over the axis.
pub open spec fn spec_scatter(word: u32, extent: u32) -> int {
    (word * extent) / 0x1_0000_0000 - extent / 2
}

/// The colour part that a random word stands for: its top eight bits.
pub open spec fn spec_channel(word: u32) -> u8 {
    (word / 0x100_0000) as u8
}

/// Whether a point lies within a window of the given size that is centred
/// at the origin.
pub open spec fn in_window(p: Point, width: u32, height: u32) -> bool {
    &&& -(width / 2) <= p.x <= width - width / 2
    &&& -(height / 2) <= p.y <= height - height / 2
    &&& width > 0 ==> p.x < width - width / 2
    &&& height > 0 ==> p.y < height - height / 2
}

/// The entity that five random words stand for in a window of the given
/// size.
pub open spec fn spec_spawn_from(
    x_word: u32,
    y_word: u32,
    red_word: u32,
    green_word: u32,
    blue_word: u32,
    width: u32,
    height: u32,
) -> Spawn {
    Spawn {
        position: Point {
            x: spec_scatter(x_word, width) as i32,
            y: spec_scatter(y_word, height) as i32,
        },
        color: Color {
            red: spec_channel(red_word),
            green: spec_channel(green_word),
            blue: spec_channel(blue_word),
        },
        size: Size { width: SPAWN_SIDE, height: SPAWN_SIDE },
    }
}

/// Where a random word falls along an axis of length `extent` that is
/// centred at zero.
pub fn scatter(word: u32, extent: u32) -> (offset: i32)
    ensures
        offset == spec_scatter(word, extent),
        -(extent / 2) <= offset <= extent - extent / 2,
        extent > 0 ==> offset < extent - extent / 2,
{
    assert(0 <= word * extent <= 0xffff_ffff * 0xffff_ffff) by (nonlinear_arith)
        requires
            0 <= word <= 0xffff_ffff,
            0 <= extent <= 0xffff_ffff,
    ;
    let product: u64 = word as u64 * extent as u64;
    let along: u64 = product / 0x1_0000_0000;
    assert(along <= extent && (extent > 0 ==> along < extent)) by (nonlinear_arith)
        requires
            along == (word * extent) / 0x1_0000_0000,
            0 <= word < 0x1_0000_0000,
            0 <= extent,
    ;
    let offset: i64 = along as i64 - (extent / 2) as i64;
    offset as i32
}

/// The colour part that a random word stands for.
pub fn channel(word: u32) -> (part: u8)
    ensures
        part == spec_channel(word),
{
    (word / 0x100_0000) as u8
}

/// The entity that five random words stand for in a window of the given
/// size.
pub fn spawn_from(
    x_word: u32,
    y_word: u32,
    red_word: u32,
    green_word: u32,
    blue_word: u32,
    width: u32,
    height: u32,
) -> (spawn: Spawn)
    ensures
        spawn == spec_spawn_from(x_word, y_word, red_word, green_word, blue_word, width, height),
        in_window(spawn.position, width, height),
        spawn.size == (Size { width: SPAWN_SIDE, height: SPAWN_SIDE }),
{
    Spawn {
        position: Point { x: scatter(x_word, width), y: scatter(y_word, height) },
        color: Color {
            red: channel(red_word),
            green: channel(green_word),
            blue: channel(blue_word),
        },
        size: Size { width: SPAWN_SIDE, height: SPAWN_SIDE },
    }
}

impl SpawnTimer {
    /// A spawner that fires every `period` nanoseconds.
    pub fn new(period: u64) -> (timer: SpawnTimer)
        ensures
            timer.0 == (RepeatingTimer { period, elapsed: 0, times_finished_this_tick: 0 }),
    {
        SpawnTimer(RepeatingTimer::new(period))
    }
}

/// One tick of the spawner, `delta` nanoseconds long, in a window of the
/// given size.
///
/// The countdown advances. If it completed, exactly one entity is to be
/// spawned, of the fixed size, at a random spot of the window and in a
/// random colour; otherwise none.
pub fn spawn_objects(timer: &mut SpawnTimer, delta: u64, width: u32, height: u32) -> (spawned:
    Option<Spawn>)
    ensures
        final(timer).0 == old(timer).0.spec_tick(delta),
        spawned.is_some() == final(timer).0.spec_just_finished(),
        spawned matches Some(spawn) ==> {
            &&& in_window(spawn.position, width, height)
            &&& spawn.size == (Size { width: SPAWN_SIDE, height: SPAWN_SIDE })
            &&& exists|x: u32, y: u32, r: u32, g: u32, b: u32|
                spawn == #[trigger] spec_spawn_from(x, y, r, g, b, width, height)
        },
{
    timer.0.tick(delta);
    if timer.0.just_finished() {
        let x_word: u32 = random_word();
        let y_word: u32 = random_word();
        let red_word: u32 = random_word();
        let green_word: u32 = random_word();
        let blue_word: u32 = random_word();
        Some(spawn_from(x_word, y_word, red_word, green_word, blue_word, width, height))
    } else {
        None
    }
}

} // verus!
