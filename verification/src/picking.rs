//! Picking by the cursor: which tile the cursor is over.
//!
//! A tile is hit when the cursor lies in its box, edges included. Where
//! several tiles are hit, the one that stands first in the list is picked.

use crate::cursor::CursorCoords;
use crate::geometry::{Point, Tile};
use vstd::prelude::*;

verus! {

/// Whether the tile at `i` is the first in `tiles` that contains `p`.
pub open spec fn is_first_hit(tiles: Seq<Tile>, p: Point, i: int) -> bool {
    &&& 0 <= i < tiles.len()
    &&& tiles[i].spec_contains(p)
    &&& forall|k: int| 0 <= k < i ==> !(#[trigger] tiles[k]).spec_contains(p)
}

/// The index of the first tile that contains `p`, if any does.
pub open spec fn spec_pick(tiles: Seq<Tile>, p: Point) -> Option<int> {
    if exists|i: int| is_first_hit(tiles, p, i) {
        Some(choose|i: int| is_first_hit(tiles, p, i))
    } else {
        None
    }
}

/// The index of the first tile under the cursor, if there is one. Nothing
/// is changed, so asking again gives the same answer.
pub fn pick(cursor: &CursorCoords, tiles: &Vec<Tile>) -> (picked: Option<usize>)
    ensures
        picked matches Some(i) ==> is_first_hit(tiles@, cursor.0, i as int),
        picked is None ==> forall|k: int|
            0 <= k < tiles@.len() ==> !(#[trigger] tiles@[k]).spec_contains(cursor.0),
        picked is Some <==> exists|k: int|
            0 <= k < tiles@.len() && (#[trigger] tiles@[k]).spec_contains(cursor.0),
        match picked {
            Some(i) => spec_pick(tiles@, cursor.0) == Some(i as int),
            None => spec_pick(tiles@, cursor.0) is None,
        },
{
    let mut i: usize = 0;
    while i < tiles.len()
        invariant
            i <= tiles@.len(),
            forall|k: int| 0 <= k < i ==> !(#[trigger] tiles@[k]).spec_contains(cursor.0),
        decreases tiles@.len() - i,
    {
        if tiles[i].contains(&cursor.0) {
            proof {
                lemma_first_hit_is_unique(tiles@, cursor.0, i as int);
            }
            return Some(i);
        }
        i = i + 1;
    }
    None
}

/// At most one tile is the first hit.
pub proof fn lemma_first_hit_is_unique(tiles: Seq<Tile>, p: Point, i: int)
    requires
        is_first_hit(tiles, p, i),
    ensures
        spec_pick(tiles, p) == Some(i),
        forall|j: int| is_first_hit(tiles, p, j) ==> j == i,
{
    assert forall|j: int| is_first_hit(tiles, p, j) implies j == i by {
        if j < i {
            assert(!tiles[j].spec_contains(p));
        } else if i < j {
            assert(!tiles[i].spec_contains(p));
        }
    }
    let chosen = choose|j: int| is_first_hit(tiles, p, j);
    assert(is_first_hit(tiles, p, chosen));
}

/// A cursor on the right edge of a tile, strictly between its lower and
/// upper edge, hits that tile: it is picked unless an earlier tile is hit
/// too.
pub proof fn lemma_right_edge_is_hit(tiles: Seq<Tile>, p: Point, i: int)
    requires
        0 <= i < tiles.len(),
        tiles[i].size.width >= 0,
        p.x == tiles[i].origin.x + tiles[i].size.width,
        tiles[i].origin.y < p.y < tiles[i].origin.y + tiles[i].size.height,
    ensures
        tiles[i].spec_contains(p),
        spec_pick(tiles, p) matches Some(j) && j <= i,
        (forall|k: int| 0 <= k < i ==> !(#[trigger] tiles[k]).spec_contains(p)) ==> spec_pick(
            tiles,
            p,
        ) == Some(i),
{
    lemma_some_hit_is_picked(tiles, p, i);
    if forall|k: int| 0 <= k < i ==> !(#[trigger] tiles[k]).spec_contains(p) {
        lemma_first_hit_is_unique(tiles, p, i);
    }
}

/// Where some tile contains the point, a tile is picked, and none that
/// stands later than that tile.
pub proof fn lemma_some_hit_is_picked(tiles: Seq<Tile>, p: Point, i: int)
    requires
        0 <= i < tiles.len(),
        tiles[i].spec_contains(p),
    ensures
        spec_pick(tiles, p) matches Some(j) && j <= i,
    decreases i,
{
    if exists|k: int| 0 <= k < i && (#[trigger] tiles[k]).spec_contains(p) {
        let k = choose|k: int| 0 <= k < i && (#[trigger] tiles[k]).spec_contains(p);
        lemma_some_hit_is_picked(tiles, p, k);
    } else {
        lemma_first_hit_is_unique(tiles, p, i);
    }
}

} // verus!
