//! Frame-by-frame animation of a sprite that is cut from an atlas.
//!
//! A sprite starts without knowing how many frames its atlas holds. Once the
//! atlas is known the sprite commits to the highest frame index, and from
//! then on a repeating countdown moves it from frame to frame, back to the
//! first after the last.

use crate::geometry::Point;
use crate::timer::RepeatingTimer;
use vstd::prelude::*;

verus! {

/// Time between two frames, in nanoseconds.
pub const ANIMATION_PERIOD: u64 = 200_000_000;

/// What a sprite knows of the number of frames in its atlas.
#[derive(Clone, Copy, Debug, PartialEq, Eq, Structural)]
pub enum AnimationIndicesCount {
    /// The atlas is known; the value is the highest frame index.
    Count(usize),
    /// The atlas is not known yet.
    NotInitialised,
}

/// The direction in which an entity last moved.
#[derive(Clone, Copy, Debug, PartialEq, Eq, Structural)]
pub struct TurnDirection(pub Point);

/// An animated sprite: its countdown, its current frame, what it knows of
/// its atlas, the direction it faces and whether it is drawn mirrored.
#[derive(Clone, Copy, Debug)]
pub struct AnimatedSprite {
    timer: RepeatingTimer,
    frame: usize,
    index: AnimationIndicesCount,
    direction: TurnDirection,
    flip_x: bool,
}

/// The mathematical model of an [`AnimatedSprite`].
pub struct SpriteModel {
    pub timer: RepeatingTimer,
    pub frame: usize,
    pub count: AnimationIndicesCount,
    pub direction: TurnDirection,
    pub flip_x: bool,
}

/// What one tick brings to a sprite.
pub struct Tick {
    /// The direction of this tick's movement, if the entity moved.
    pub moved: Option<TurnDirection>,
    /// The number of frames in the atlas, if the atlas can be resolved.
    pub frame_count: Option<usize>,
    /// The time that the tick took, in nanoseconds.
    pub delta: u64,
}

/// The frame that follows `current` in a cycle over `0..=max_index`.
pub open spec fn spec_next_frame(current: usize, max_index: usize) -> usize {
    if current == max_index {
        0
    } else {
        (current + 1) as usize
    }
}

/// The frame that follows `current` in a cycle over `0..=max_index`: the
/// first frame after the last one, and the next one otherwise.
pub fn next_frame(current: usize, max_index: usize) -> (next: usize)
    requires
        current == max_index || current < usize::MAX,
    ensures
        next == spec_next_frame(current, max_index),
        current == max_index ==> next == 0,
        current != max_index ==> next == current + 1,
        current <= max_index ==> next <= max_index,
{
    if current == max_index {
        0
    } else {
        current + 1
    }
}

impl SpriteModel {
    /// The frame index is within the range that the sprite has committed to,
    /// and a sprite that has not committed shows the first frame.
    pub open spec fn wf(self) -> bool {
        match self.count {
            AnimationIndicesCount::Count(max_index) => self.frame <= max_index,
            AnimationIndicesCount::NotInitialised => self.frame == 0,
        }
    }

    /// A sprite as it is created.
    pub open spec fn initial() -> SpriteModel {
        SpriteModel {
            timer: RepeatingTimer {
                period: ANIMATION_PERIOD,
                elapsed: 0,
                times_finished_this_tick: 0,
            },
            frame: 0,
            count: AnimationIndicesCount::NotInitialised,
            direction: TurnDirection(Point { x: 1, y: 0 }),
            flip_x: false,
        }
    }

    /// The sprite after it moved in direction `moved`: a movement of zero
    /// leaves the direction as it was.
    pub open spec fn face(self, moved: Option<TurnDirection>) -> SpriteModel {
        match moved {
            Some(direction) if direction.0 != (Point { x: 0, y: 0 }) => SpriteModel {
                direction,
                ..self
            },
            _ => self,
        }
    }

    /// The sprite after it was told the number of frames in its atlas. A
    /// sprite commits once, to an atlas of at least one frame.
    pub open spec fn update_count(self, frame_count: Option<usize>) -> SpriteModel {
        match (self.count, frame_count) {
            (AnimationIndicesCount::NotInitialised, Some(frames)) if frames > 0 => SpriteModel {
                count: AnimationIndicesCount::Count((frames - 1) as usize),
                ..self
            },
            _ => self,
        }
    }

    /// The sprite after `delta` nanoseconds. A sprite that has committed
    /// advances its countdown, and moves to the next frame if the countdown
    /// completed. One that has not is left alone.
    pub open spec fn animate(self, delta: u64) -> SpriteModel {
        match self.count {
            AnimationIndicesCount::Count(max_index) => {
                let timer = self.timer.spec_tick(delta);
                SpriteModel {
                    timer,
                    frame: if timer.spec_just_finished() {
                        spec_next_frame(self.frame, max_index)
                    } else {
                        self.frame
                    },
                    ..self
                }
            },
            AnimationIndicesCount::NotInitialised => self,
        }
    }

    /// The sprite after its mirroring was set from the direction it faces:
    /// mirrored exactly when the horizontal part is positive.
    pub open spec fn turn(self) -> SpriteModel {
        SpriteModel { flip_x: self.direction.0.x > 0, ..self }
    }

    /// The sprite after one tick: movement, then the atlas check, then the
    /// frame advance, then the mirroring.
    pub open spec fn tick(self, tick: Tick) -> SpriteModel {
        self.face(tick.moved).update_count(tick.frame_count).animate(tick.delta).turn()
    }

    /// The sprite after a run of ticks, first to last.
    pub open spec fn run(self, ticks: Seq<Tick>) -> SpriteModel
        decreases ticks.len(),
    {
        if ticks.len() == 0 {
            self
        } else {
            self.run(ticks.drop_last()).tick(ticks.last())
        }
    }
}

impl View for AnimatedSprite {
    type V = SpriteModel;

    closed spec fn view(&self) -> SpriteModel {
        SpriteModel {
            timer: self.timer,
            frame: self.frame,
            count: self.index,
            direction: self.direction,
            flip_x: self.flip_x,
        }
    }
}

impl AnimatedSprite {
    /// Holds of every sprite: the frame index is within the committed range.
    #[verifier::type_invariant]
    spec fn in_range(self) -> bool {
        self@.wf()
    }

    /// A sprite on the first frame of an atlas that is not known yet, facing
    /// right, with a countdown of [`ANIMATION_PERIOD`].
    pub fn new() -> (sprite: AnimatedSprite)
        ensures
            sprite@ == SpriteModel::initial(),
            sprite@.wf(),
    {
        AnimatedSprite {
            timer: RepeatingTimer::new(ANIMATION_PERIOD),
            frame: 0,
            index: AnimationIndicesCount::NotInitialised,
            direction: TurnDirection(Point { x: 1, y: 0 }),
            flip_x: false,
        }
    }

    /// The index of the frame that the sprite shows.
    pub fn frame_index(&self) -> (frame: usize)
        ensures
            frame == self@.frame,
            self@.wf(),
            self@.count matches AnimationIndicesCount::Count(max_index) ==> frame <= max_index,
    {
        proof {
            use_type_invariant(self);
        }
        self.frame
    }

    /// What the sprite knows of its atlas.
    pub fn count(&self) -> (count: AnimationIndicesCount)
        ensures
            count == self@.count,
    {
        self.index
    }

    /// The countdown between frames.
    pub fn timer(&self) -> (timer: RepeatingTimer)
        ensures
            timer == self@.timer,
    {
        self.timer
    }

    /// The direction that the sprite faces.
    pub fn direction(&self) -> (direction: TurnDirection)
        ensures
            direction == self@.direction,
    {
        self.direction
    }

    /// Whether the sprite is drawn mirrored.
    pub fn flip_x(&self) -> (flipped: bool)
        ensures
            flipped == self@.flip_x,
    {
        self.flip_x
    }

    /// Records the direction of a movement; a movement of zero is ignored.
    pub fn face(&mut self, moved: TurnDirection)
        ensures
            final(self)@ == old(self)@.face(Some(moved)),
            final(self)@.wf(),
    {
        proof {
            use_type_invariant(&*self);
        }
        if moved.0.x != 0 || moved.0.y != 0 {
            self.direction = moved;
        }
    }

    /// Tells the sprite the number of frames in its atlas, where the atlas
    /// can be resolved. The first such number commits the sprite to its
    /// highest frame index; later ones change nothing.
    pub fn update_count(&mut self, frame_count: Option<usize>)
        requires
            frame_count != Some(0usize),
        ensures
            final(self)@ == old(self)@.update_count(frame_count),
            final(self)@.wf(),
    {
        proof {
            use_type_invariant(&*self);
        }
        match (self.index, frame_count) {
            (AnimationIndicesCount::NotInitialised, Some(frames)) => {
                self.index = AnimationIndicesCount::Count(frames - 1);
            },
            _ => {},
        }
    }

    /// Lets `delta` nanoseconds pass.
    pub fn animate(&mut self, delta: u64)
        ensures
            final(self)@ == old(self)@.animate(delta),
            final(self)@.wf(),
            old(self)@.count is NotInitialised ==> final(self)@ == old(self)@,
    {
        proof {
            use_type_invariant(&*self);
        }
        match self.index {
            AnimationIndicesCount::Count(max_index) => {
                let mut timer: RepeatingTimer = self.timer;
                timer.tick(delta);
                self.timer = timer;
                if timer.just_finished() {
                    self.frame = next_frame(self.frame, max_index);
                }
            },
            AnimationIndicesCount::NotInitialised => {},
        }
    }

    /// Sets the mirroring from the direction that the sprite faces.
    pub fn turn(&mut self)
        ensures
            final(self)@ == old(self)@.turn(),
            final(self)@.flip_x == (old(self)@.direction.0.x > 0),
            final(self)@.wf(),
    {
        proof {
            use_type_invariant(&*self);
        }
        self.flip_x = self.direction.0.x > 0;
    }
}

/// The frame count that belongs to the sprite at `i`: an entry beyond the
/// end of the list counts as an atlas that cannot be resolved.
pub open spec fn frame_count_at(frame_counts: Seq<Option<usize>>, i: int) -> Option<usize> {
    if 0 <= i < frame_counts.len() {
        frame_counts[i]
    } else {
        None
    }
}

/// The atlas check of one tick, for every sprite: the sprite at `i` is told
/// the frame count at `i`.
pub fn update_counts(sprites: &mut Vec<AnimatedSprite>, frame_counts: &Vec<Option<usize>>)
    requires
        forall|i: int| 0 <= i < frame_counts@.len() ==> frame_counts@[i] != Some(0usize),
    ensures
        final(sprites)@.len() == old(sprites)@.len(),
        forall|i: int|
            0 <= i < old(sprites)@.len() ==> (#[trigger] final(sprites)@[i])@ == old(sprites)@[i]@
                .update_count(frame_count_at(frame_counts@, i)),
        forall|i: int| 0 <= i < old(sprites)@.len() ==> (#[trigger] final(sprites)@[i])@.wf(),
{
    let n: usize = sprites.len();
    let mut i: usize = 0;
    while i < n
        invariant
            i <= n,
            n == sprites@.len(),
            n == old(sprites)@.len(),
            forall|k: int| 0 <= k < frame_counts@.len() ==> frame_counts@[k] != Some(0usize),
            forall|k: int|
                0 <= k < i ==> (#[trigger] sprites@[k])@ == old(sprites)@[k]@.update_count(
                    frame_count_at(frame_counts@, k),
                ),
            forall|k: int| 0 <= k < i ==> (#[trigger] sprites@[k])@.wf(),
            forall|k: int| i <= k < n ==> #[trigger] sprites@[k] == old(sprites)@[k],
        decreases n - i,
    {
        let frame_count: Option<usize> = if i < frame_counts.len() {
            frame_counts[i]
        } else {
            None
        };
        let mut sprite: AnimatedSprite = sprites[i];
        sprite.update_count(frame_count);
        sprites[i] = sprite;
        i = i + 1;
    }
}

/// The frame advance of one tick, for every sprite.
pub fn animate_sprite(sprites: &mut Vec<AnimatedSprite>, delta: u64)
    ensures
        final(sprites)@.len() == old(sprites)@.len(),
        forall|i: int|
            0 <= i < old(sprites)@.len() ==> (#[trigger] final(sprites)@[i])@ == old(sprites)@[i]@
                .animate(delta),
        forall|i: int| 0 <= i < old(sprites)@.len() ==> (#[trigger] final(sprites)@[i])@.wf(),
{
    let n: usize = sprites.len();
    let mut i: usize = 0;
    while i < n
        invariant
            i <= n,
            n == sprites@.len(),
            n == old(sprites)@.len(),
            forall|k: int|
                0 <= k < i ==> (#[trigger] sprites@[k])@ == old(sprites)@[k]@.animate(delta),
            forall|k: int| 0 <= k < i ==> (#[trigger] sprites@[k])@.wf(),
            forall|k: int| i <= k < n ==> #[trigger] sprites@[k] == old(sprites)@[k],
        decreases n - i,
    {
        let mut sprite: AnimatedSprite = sprites[i];
        sprite.animate(delta);
        sprites[i] = sprite;
        i = i + 1;
    }
}

/// The mirroring of one tick, for every sprite.
pub fn turn_sprite(sprites: &mut Vec<AnimatedSprite>)
    ensures
        final(sprites)@.len() == old(sprites)@.len(),
        forall|i: int|
            0 <= i < old(sprites)@.len() ==> (#[trigger] final(sprites)@[i])@ == old(sprites)@[i]@
                .turn(),
        forall|i: int| 0 <= i < old(sprites)@.len() ==> (#[trigger] final(sprites)@[i])@.wf(),
{
    let n: usize = sprites.len();
    let mut i: usize = 0;
    while i < n
        invariant
            i <= n,
            n == sprites@.len(),
            n == old(sprites)@.len(),
            forall|k: int| 0 <= k < i ==> (#[trigger] sprites@[k])@ == old(sprites)@[k]@.turn(),
            forall|k: int| 0 <= k < i ==> (#[trigger] sprites@[k])@.wf(),
            forall|k: int| i <= k < n ==> #[trigger] sprites@[k] == old(sprites)@[k],
        decreases n - i,
    {
        let mut sprite: AnimatedSprite = sprites[i];
        sprite.turn();
        sprites[i] = sprite;
        i = i + 1;
    }
}

/// One tick of animation for every sprite, in the order that the steps need:
/// the atlas check comes before the frame advance, so that a sprite whose
/// atlas has just become known animates in the same tick, and the mirroring
/// comes last.
pub fn run_animation(
    sprites: &mut Vec<AnimatedSprite>,
    frame_counts: &Vec<Option<usize>>,
    delta: u64,
)
    requires
        forall|i: int| 0 <= i < frame_counts@.len() ==> frame_counts@[i] != Some(0usize),
    ensures
        final(sprites)@.len() == old(sprites)@.len(),
        forall|i: int|
            0 <= i < old(sprites)@.len() ==> (#[trigger] final(sprites)@[i])@ == old(sprites)@[i]@
                .tick(Tick { moved: None, frame_count: frame_count_at(frame_counts@, i), delta }),
        forall|i: int| 0 <= i < old(sprites)@.len() ==> (#[trigger] final(sprites)@[i])@.wf(),
{
    update_counts(sprites, frame_counts);
    let ghost counted = sprites@;
    animate_sprite(sprites, delta);
    let ghost animated = sprites@;
    turn_sprite(sprites);
    assert forall|i: int| 0 <= i < old(sprites)@.len() implies (#[trigger] sprites@[i])@ == old(
        sprites
    )@[i]@.tick(Tick { moved: None, frame_count: frame_count_at(frame_counts@, i), delta }) by {
        assert(counted[i]@ == old(sprites)@[i]@.update_count(frame_count_at(frame_counts@, i)));
        assert(animated[i]@ == counted[i]@.animate(delta));
    }
}

/// Every step of a tick keeps the frame index within the committed range.
pub proof fn lemma_tick_keeps_frame_in_range(sprite: SpriteModel, tick: Tick)
    requires
        sprite.wf(),
    ensures
        sprite.tick(tick).wf(),
        sprite.face(tick.moved).wf(),
        sprite.update_count(tick.frame_count).wf(),
        sprite.animate(tick.delta).wf(),
        sprite.turn().wf(),
{
}

/// Whatever the ticks bring, a sprite that has committed to a highest frame
/// index stays committed to it, and its frame index stays within
/// `0..=max_index`.
pub proof fn lemma_frame_index_bound(sprite: SpriteModel, ticks: Seq<Tick>)
    requires
        sprite.wf(),
    ensures
        sprite.run(ticks).wf(),
        sprite.count matches AnimationIndicesCount::Count(max_index) ==> {
            &&& sprite.run(ticks).count == sprite.count
            &&& sprite.run(ticks).frame <= max_index
        },
    decreases ticks.len(),
{
    if ticks.len() > 0 {
        lemma_frame_index_bound(sprite, ticks.drop_last());
        lemma_tick_keeps_frame_in_range(sprite.run(ticks.drop_last()), ticks.last());
    }
}

/// Advancing from the highest frame index gives the first frame; advancing
/// from any other gives the one after it.
pub proof fn lemma_wrap(current: usize, max_index: usize)
    ensures
        current == max_index ==> spec_next_frame(current, max_index) == 0,
        current != max_index && current < usize::MAX ==> spec_next_frame(current, max_index)
            == current + 1,
        current <= max_index ==> spec_next_frame(current, max_index) <= max_index,
{
}

/// While no tick can resolve the atlas, a sprite that has not committed
/// keeps its countdown and its frame index untouched, however many ticks
/// pass and however long they are.
pub proof fn lemma_uninitialised_is_skipped(sprite: SpriteModel, ticks: Seq<Tick>)
    requires
        sprite.count is NotInitialised,
        forall|i: int| 0 <= i < ticks.len() ==> (#[trigger] ticks[i]).frame_count is None,
    ensures
        sprite.run(ticks).count is NotInitialised,
        sprite.run(ticks).timer == sprite.timer,
        sprite.run(ticks).frame == sprite.frame,
    decreases ticks.len(),
{
    if ticks.len() > 0 {
        let earlier = ticks.drop_last();
        assert forall|i: int| 0 <= i < earlier.len() implies (#[trigger] earlier[i]).frame_count
            is None by {
            assert(earlier[i] == ticks[i]);
        }
        lemma_uninitialised_is_skipped(sprite, earlier);
        assert(ticks.last() == ticks[ticks.len() - 1]);
    }
}

} // verus!
