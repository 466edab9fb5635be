//! Collision between the player and the pickable entities.
//!
//! Two entities collide when the distance between their centres is less
//! than half the sum of their widths. Heights play no part in the test.

use crate::geometry::{Extent, Point, Scale, Size};
use crate::score::{tally_of, CollisionEvent, CollisionEvents, Score};
use vstd::prelude::*;

verus! {

/// What the collision test reads of an entity: where it is, how it is
/// scaled, and how large its sprite is.
#[derive(Clone, Copy, Debug, PartialEq, Eq)]
pub struct Body {
    /// Centre of the entity.
    pub position: Point,
    /// Scale factor along each axis.
    pub scale: Scale,
    /// Size that the sprite was given explicitly, if any.
    pub custom_size: Option<Size>,
    /// Natural size of the sprite's image, once the image is known.
    pub image_size: Option<Size>,
}

/// An entity that the player can pick up.
#[derive(Clone, Copy, Debug, PartialEq, Eq)]
pub struct Pickable {
    /// Identifier of the entity with the host.
    pub entity: u64,
    pub body: Body,
}

impl Body {
    /// A body of an explicit size at scale one.
    pub fn sized(position: Point, size: Size) -> (body: Body)
        ensures
            body == (Body {
                position,
                scale: Scale { x: 1, y: 1 },
                custom_size: Some(size),
                image_size: None,
            }),
            body.spec_extent() == (Extent {
                width: size.width as i64,
                height: size.height as i64,
            }),
    {
        Body { position, scale: Scale { x: 1, y: 1 }, custom_size: Some(size), image_size: None }
    }

    /// The size before scaling: the explicit size where there is one, else
    /// the size of the image, else nothing.
    pub open spec fn spec_base_size(self) -> Size {
        match self.custom_size {
            Some(size) => size,
            None => match self.image_size {
                Some(size) => size,
                None => Size { width: 0, height: 0 },
            },
        }
    }

    /// The size after scaling.
    pub open spec fn spec_extent(self) -> Extent {
        Extent {
            width: (self.spec_base_size().width * self.scale.x) as i64,
            height: (self.spec_base_size().height * self.scale.y) as i64,
        }
    }

    /// The size before scaling.
    pub fn base_size(&self) -> (size: Size)
        ensures
            size == self.spec_base_size(),
    {
        match self.custom_size {
            Some(size) => size,
            None => match self.image_size {
                Some(size) => size,
                None => Size { width: 0, height: 0 },
            },
        }
    }

    /// The size after scaling.
    pub fn extent(&self) -> (extent: Extent)
        ensures
            extent == self.spec_extent(),
            extent.width == self.spec_base_size().width * self.scale.x,
            extent.height == self.spec_base_size().height * self.scale.y,
    {
        let base: Size = self.base_size();
        let w: i64 = base.width as i64;
        let h: i64 = base.height as i64;
        let sx: i64 = self.scale.x as i64;
        let sy: i64 = self.scale.y as i64;
        assert(-0x4000_0000_0000_0000 <= w * sx <= 0x4000_0000_0000_0000) by (nonlinear_arith)
            requires
                -0x8000_0000 <= w <= 0x8000_0000,
                -0x8000_0000 <= sx <= 0x8000_0000,
        ;
        assert(-0x4000_0000_0000_0000 <= h * sy <= 0x4000_0000_0000_0000) by (nonlinear_arith)
            requires
                -0x8000_0000 <= h <= 0x8000_0000,
                -0x8000_0000 <= sy <= 0x8000_0000,
        ;
        Extent { width: w * sx, height: h * sy }
    }
}

/// Twice the collision radius of two bodies: the sum of their widths.
pub open spec fn spec_reach(a: Body, b: Body) -> int {
    a.spec_extent().width + b.spec_extent().width
}

/// Whether two bodies collide: the distance between their centres is
/// strictly less than half the sum of their widths. Both sides of that
/// comparison are doubled and squared here, which keeps it in the integers.
pub open spec fn spec_collides(a: Body, b: Body) -> bool {
    &&& spec_reach(a, b) > 0
    &&& 4 * a.position.spec_distance_squared(b.position) < spec_reach(a, b) * spec_reach(a, b)
}

/// Whether two bodies collide.
pub fn collides(a: &Body, b: &Body) -> (hit: bool)
    ensures
        hit == spec_collides(*a, *b),
{
    let reach: i128 = a.extent().width as i128 + b.extent().width as i128;
    if reach <= 0 {
        return false;
    }
    let apart: u128 = a.position.distance_squared(&b.position);
    if reach >= 0x4_0000_0000 {
        // No two points are this far apart.
        assert(reach * reach >= 0x10_0000_0000_0000_0000) by (nonlinear_arith)
            requires
                reach >= 0x4_0000_0000,
        ;
        return true;
    }
    assert(0 < reach * reach < 0x10_0000_0000_0000_0000) by (nonlinear_arith)
        requires
            0 < reach < 0x4_0000_0000,
    ;
    let reach_squared: u128 = (reach * reach) as u128;
    4 * apart < reach_squared
}

/// The test that picks out what collides with `player`.
pub open spec fn hit_by(player: Body) -> spec_fn(Pickable) -> bool {
    |p: Pickable| spec_collides(player, p.body)
}

/// The test that picks out what does not collide with `player`.
pub open spec fn missed_by(player: Body) -> spec_fn(Pickable) -> bool {
    |p: Pickable| !spec_collides(player, p.body)
}

/// One tick of collision detection.
///
/// With exactly one player, every pickable that collides with it leaves
/// `pickables` and is returned, in the order in which they stood, and one
/// notification is queued for each. The host destroys the entities returned.
/// With no player, or more than one, nothing happens.
pub fn detect_collision(
    players: &Vec<Body>,
    pickables: &mut Vec<Pickable>,
    events: &mut CollisionEvents,
) -> (destroyed: Vec<Pickable>)
    ensures
        players@.len() != 1 ==> {
            &&& final(pickables)@ == old(pickables)@
            &&& final(events)@ == old(events)@
            &&& destroyed@.len() == 0
        },
        players@.len() == 1 ==> {
            &&& final(pickables)@ == old(pickables)@.filter(missed_by(players@[0]))
            &&& destroyed@ == old(pickables)@.filter(hit_by(players@[0]))
            &&& final(events)@ == old(events)@ + Seq::new(
                destroyed@.len(),
                |i: int| CollisionEvent,
            )
        },
        final(events)@.len() == old(events)@.len() + destroyed@.len(),
        final(pickables)@.len() + destroyed@.len() == old(pickables)@.len(),
        forall|score: Score|
            tally_of(*final(events), score) == (#[trigger] tally_of(*old(events), score))
                .spec_collide(destroyed@.len()),
{
    let mut destroyed: Vec<Pickable> = Vec::new();
    if players.len() != 1 {
        return destroyed;
    }
    let player: Body = players[0];
    let mut kept: Vec<Pickable> = Vec::new();
    let n: usize = pickables.len();
    let mut i: usize = 0;
    while i < n
        invariant
            i <= n,
            n == pickables@.len(),
            pickables@ == old(pickables)@,
            kept@ == pickables@.take(i as int).filter(missed_by(player)),
            destroyed@ == pickables@.take(i as int).filter(hit_by(player)),
            kept@.len() + destroyed@.len() == i,
            events@ == old(events)@ + Seq::new(destroyed@.len(), |k: int| CollisionEvent),
        decreases n - i,
    {
        let candidate: Pickable = pickables[i];
        proof {
            let before = pickables@.take(i as int);
            assert(pickables@.take(i + 1) == before.push(candidate));
            before.lemma_filter_push(candidate, missed_by(player));
            before.lemma_filter_push(candidate, hit_by(player));
        }
        if collides(&player, &candidate.body) {
            events.write(CollisionEvent);
            destroyed.push(candidate);
        } else {
            kept.push(candidate);
        }
        i = i + 1;
    }
    assert(pickables@.take(n as int) == pickables@);
    *pickables = kept;
    destroyed
}

/// Bodies whose centres are exactly one collision radius apart do not
/// collide; bodies that are closer than that do.
pub proof fn lemma_collision_is_strict(a: Body, b: Body)
    ensures
        4 * a.position.spec_distance_squared(b.position) == spec_reach(a, b) * spec_reach(a, b)
            ==> !spec_collides(a, b),
        spec_reach(a, b) > 0 && 4 * a.position.spec_distance_squared(b.position) < spec_reach(a, b)
            * spec_reach(a, b) ==> spec_collides(a, b),
        spec_collides(a, b) == spec_collides(b, a),
{
    let dx = a.position.x - b.position.x;
    let dy = a.position.y - b.position.y;
    assert(dx * dx == (-dx) * (-dx) && dy * dy == (-dy) * (-dy)) by (nonlinear_arith);
}

/// Where the distance between the centres is a whole number, the test is
/// the plain comparison of that distance with the collision radius: the
/// bodies collide exactly when twice the distance is less than the sum of
/// their widths.
pub proof fn lemma_collision_at_distance(a: Body, b: Body, distance: int)
    requires
        distance >= 0,
        distance * distance == a.position.spec_distance_squared(b.position),
    ensures
        spec_collides(a, b) <==> 2 * distance < spec_reach(a, b),
        2 * distance == spec_reach(a, b) ==> !spec_collides(a, b),
{
    let reach = spec_reach(a, b);
    assert((reach > 0 && 4 * (distance * distance) < reach * reach) <==> 2 * distance < reach)
        by (nonlinear_arith)
        requires
            distance >= 0,
    ;
}

} // verus!
