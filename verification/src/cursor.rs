//! The cursor's position in the world.
//!
//! Each tick the host looks up the active camera and the primary window,
//! and maps the pointer through the camera. What it found comes in here: how
//! many cameras and windows the lookups matched, and the pointer's world
//! position where there is one. The coordinates keep the latest position
//! that was resolved.

use crate::geometry::Point;
use vstd::prelude::*;

verus! {

/// The world position of the cursor when it was last resolved.
#[derive(Clone, Copy, Debug, PartialEq, Eq, Structural)]
pub struct CursorCoords(pub Point);

/// Why a lookup that must match exactly one entity failed.
#[derive(Clone, Copy, Debug, PartialEq, Eq, Structural)]
pub enum QuerySingleError {
    /// Nothing matched.
    NoEntities,
    /// More than one entity matched.
    MultipleEntities,
}

/// Why the cursor could not be resolved in a tick.
#[derive(Clone, Copy, Debug, PartialEq, Eq, Structural)]
pub enum CursorError {
    /// There is not exactly one active camera.
    Camera(QuerySingleError),
    /// There is not exactly one primary window.
    Window(QuerySingleError),
}

/// The outcome of a lookup that matched `matches` entities.
pub open spec fn spec_single(matches: usize) -> Result<(), QuerySingleError> {
    if matches == 0 {
        Err(QuerySingleError::NoEntities)
    } else if matches == 1 {
        Ok(())
    } else {
        Err(QuerySingleError::MultipleEntities)
    }
}

/// The outcome of one tick's lookups: the camera is looked up first.
pub open spec fn spec_lookup(cameras: usize, windows: usize) -> Result<(), CursorError> {
    match spec_single(cameras) {
        Err(e) => Err(CursorError::Camera(e)),
        Ok(()) => match spec_single(windows) {
            Err(e) => Err(CursorError::Window(e)),
            Ok(()) => Ok(()),
        },
    }
}

/// What one tick brings to the cursor.
pub struct CursorTick {
    /// How many entities the lookup of the active camera matched.
    pub cameras: usize,
    /// How many entities the lookup of the primary window matched.
    pub windows: usize,
    /// The pointer's position in the world, if it has one.
    pub pointer: Option<Point>,
}

impl CursorCoords {
    /// The coordinates after a tick in which the pointer was at `pointer`,
    /// or was absent: an absent pointer leaves them as they were.
    pub open spec fn resolve(self, pointer: Option<Point>) -> CursorCoords {
        match pointer {
            Some(position) => CursorCoords(position),
            None => self,
        }
    }

    /// The coordinates after one tick: a tick whose lookups fail leaves
    /// them as they were.
    pub open spec fn spec_tick(self, tick: CursorTick) -> CursorCoords {
        if spec_lookup(tick.cameras, tick.windows) is Ok {
            self.resolve(tick.pointer)
        } else {
            self
        }
    }

    /// The coordinates after a run of ticks, first to last.
    pub open spec fn spec_run(self, ticks: Seq<CursorTick>) -> CursorCoords
        decreases ticks.len(),
    {
        if ticks.len() == 0 {
            self
        } else {
            self.spec_run(ticks.drop_last()).spec_tick(ticks.last())
        }
    }

    /// The coordinates before the cursor was ever resolved: the origin.
    pub fn new() -> (coords: CursorCoords)
        ensures
            coords == CursorCoords(Point { x: 0, y: 0 }),
    {
        CursorCoords(Point { x: 0, y: 0 })
    }

    /// The position held.
    pub fn position(&self) -> (p: Point)
        ensures
            p == self.0,
    {
        self.0
    }
}

impl Default for CursorCoords {
    fn default() -> (coords: CursorCoords)
        ensures
            coords == CursorCoords(Point { x: 0, y: 0 }),
    {
        CursorCoords(Point { x: 0, y: 0 })
    }
}

/// The outcome of a lookup that matched `matches` entities: it succeeds
/// when exactly one matched.
pub fn single(matches: usize) -> (found: Result<(), QuerySingleError>)
    ensures
        found == spec_single(matches),
        found is Ok <==> matches == 1,
{
    if matches == 0 {
        Err(QuerySingleError::NoEntities)
    } else if matches == 1 {
        Ok(())
    } else {
        Err(QuerySingleError::MultipleEntities)
    }
}

/// One tick of cursor resolution.
///
/// `cameras` and `windows` are the numbers of entities that the lookups of
/// the active camera and of the primary window matched; `pointer` is the
/// pointer's position in the world, absent when the pointer is outside the
/// window or the camera cannot map it.
///
/// Unless there is exactly one camera and exactly one window the tick fails,
/// and the coordinates stay. Otherwise a present pointer replaces them, and
/// an absent one leaves them as they were.
pub fn my_cursor_system(
    coords: &mut CursorCoords,
    cameras: usize,
    windows: usize,
    pointer: Option<Point>,
) -> (outcome: Result<(), CursorError>)
    ensures
        outcome == spec_lookup(cameras, windows),
        outcome is Ok <==> cameras == 1 && windows == 1,
        outcome is Ok ==> *final(coords) == old(coords).resolve(pointer),
        outcome is Err ==> *final(coords) == *old(coords),
        *final(coords) == old(coords).spec_tick(CursorTick { cameras, windows, pointer }),
{
    match single(cameras) {
        Err(e) => {
            return Err(CursorError::Camera(e));
        },
        Ok(()) => {},
    }
    match single(windows) {
        Err(e) => {
            return Err(CursorError::Window(e));
        },
        Ok(()) => {},
    }
    match pointer {
        Some(position) => {
            coords.0 = position;
        },
        None => {},
    }
    Ok(())
}

/// While the pointer is absent the coordinates stay: after any run of ticks
/// without a pointer they are what they were before the run.
pub proof fn lemma_sticky_cursor(coords: CursorCoords, ticks: Seq<CursorTick>)
    requires
        forall|i: int| 0 <= i < ticks.len() ==> (#[trigger] ticks[i]).pointer is None,
    ensures
        coords.spec_run(ticks) == coords,
    decreases ticks.len(),
{
    if ticks.len() > 0 {
        let earlier = ticks.drop_last();
        assert forall|i: int| 0 <= i < earlier.len() implies (#[trigger] earlier[i]).pointer
            is None by {
            assert(earlier[i] == ticks[i]);
        }
        lemma_sticky_cursor(coords, earlier);
        assert(ticks.last() == ticks[ticks.len() - 1]);
    }
}

/// After a run of ticks that ends in `absent` ticks without a pointer, the
/// coordinates are what they were when the last tick before those ended.
pub proof fn lemma_cursor_keeps_last_present(
    coords: CursorCoords,
    ticks: Seq<CursorTick>,
    absent: nat,
)
    requires
        absent <= ticks.len(),
        forall|i: int|
            ticks.len() - absent <= i < ticks.len() ==> (#[trigger] ticks[i]).pointer is None,
    ensures
        coords.spec_run(ticks) == coords.spec_run(ticks.take(ticks.len() - absent)),
    decreases absent,
{
    if absent == 0 {
        assert(ticks.take(ticks.len() as int) == ticks);
    } else {
        let earlier = ticks.drop_last();
        assert forall|i: int| earlier.len() - (absent - 1) <= i < earlier.len() implies (
        #[trigger] earlier[i]).pointer is None by {
            assert(earlier[i] == ticks[i]);
        }
        lemma_cursor_keeps_last_present(coords, earlier, (absent - 1) as nat);
        assert(ticks.last() == ticks[ticks.len() - 1]);
        assert(earlier.take(earlier.len() - (absent - 1)) == ticks.take(ticks.len() - absent));
    }
}

/// A tick with one camera, one window and a pointer sets the coordinates to
/// the pointer, whatever they were.
pub proof fn lemma_cursor_follows_pointer(
    coords: CursorCoords,
    ticks: Seq<CursorTick>,
    position: Point,
)
    ensures
        coords.spec_run(
            ticks.push(CursorTick { cameras: 1, windows: 1, pointer: Some(position) }),
        ) == CursorCoords(position),
{
    let tick = CursorTick { cameras: 1, windows: 1, pointer: Some(position) };
    assert(ticks.push(tick).last() == tick);
}

} // verus!
