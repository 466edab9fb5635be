//! The queue of collision notifications and the score that counts them.

use vstd::prelude::*;

verus! {

/// The notice that one collision occurred. It carries nothing else.
#[derive(Clone, Copy, Debug, PartialEq, Eq, Structural)]
pub struct CollisionEvent;

/// The notifications that were written and not yet drained, oldest first.
pub struct CollisionEvents {
    queue: Vec<CollisionEvent>,
}

/// The number of collisions counted so far.
#[derive(Clone, Copy, Debug, PartialEq, Eq, Structural)]
pub struct Score(pub u32);

/// What the queue and the score hold together: the collisions that wait to
/// be counted, and those that were.
pub struct Tally {
    pub pending: nat,
    pub score: nat,
}

/// One thing that happens to a tally: a tick's detection queues some
/// collisions, or the reactor drains the queue.
pub enum Step {
    Collisions(nat),
    Drain,
}

impl Tally {
    /// The tally after `n` more collisions were queued.
    pub open spec fn spec_collide(self, n: nat) -> Tally {
        Tally { pending: self.pending + n, score: self.score }
    }

    /// The tally after the queue was drained into the score.
    pub open spec fn spec_drain(self) -> Tally {
        Tally { pending: 0, score: self.score + self.pending }
    }

    /// The tally after one step.
    pub open spec fn spec_step(self, step: Step) -> Tally {
        match step {
            Step::Collisions(n) => self.spec_collide(n),
            Step::Drain => self.spec_drain(),
        }
    }

    /// The tally after a run of steps, first to last.
    pub open spec fn spec_run(self, steps: Seq<Step>) -> Tally
        decreases steps.len(),
    {
        if steps.len() == 0 {
            self
        } else {
            self.spec_run(steps.drop_last()).spec_step(steps.last())
        }
    }
}

/// The number of collisions that a run of steps queues.
pub open spec fn collisions_in(steps: Seq<Step>) -> nat
    decreases steps.len(),
{
    if steps.len() == 0 {
        0
    } else {
        collisions_in(steps.drop_last()) + match steps.last() {
            Step::Collisions(n) => n,
            Step::Drain => 0,
        }
    }
}

/// The tally of a queue and a score.
pub open spec fn tally_of(events: CollisionEvents, score: Score) -> Tally {
    Tally { pending: events@.len(), score: score.0 as nat }
}

impl View for CollisionEvents {
    type V = Seq<CollisionEvent>;

    closed spec fn view(&self) -> Seq<CollisionEvent> {
        self.queue@
    }
}

impl CollisionEvents {
    /// An empty queue.
    pub fn new() -> (events: CollisionEvents)
        ensures
            events@.len() == 0,
    {
        CollisionEvents { queue: Vec::new() }
    }

    /// The number of notifications that wait to be drained.
    pub fn len(&self) -> (n: usize)
        ensures
            n == self@.len(),
    {
        self.queue.len()
    }

    pub fn is_empty(&self) -> (empty: bool)
        ensures
            empty == (self@.len() == 0),
    {
        self.queue.len() == 0
    }

    /// Queues one notification behind those that wait.
    pub fn write(&mut self, event: CollisionEvent)
        ensures
            final(self)@ == old(self)@.push(event),
    {
        self.queue.push(event);
    }

    /// Takes every waiting notification out of the queue, oldest first.
    pub fn drain(&mut self) -> (drained: Vec<CollisionEvent>)
        ensures
            drained@ == old(self)@,
            final(self)@.len() == 0,
    {
        let mut drained: Vec<CollisionEvent> = Vec::new();
        std::mem::swap(&mut self.queue, &mut drained);
        drained
    }
}

impl Score {
    /// A score of zero.
    pub fn new() -> (score: Score)
        ensures
            score.0 == 0,
    {
        Score(0)
    }

    pub fn value(&self) -> (v: u32)
        ensures
            v == self.0,
    {
        self.0
    }
}

impl Default for Score {
    fn default() -> (score: Score)
        ensures
            score.0 == 0,
    {
        Score(0)
    }
}

/// Drains the queue and adds one to the score for each notification drained.
/// Returns the score as it stood after each of them, for the host to report.
pub fn handle_collision_events(events: &mut CollisionEvents, score: &mut Score) -> (reported: Vec<
    u32,
>)
    requires
        old(score).0 + old(events)@.len() <= u32::MAX,
    ensures
        tally_of(*final(events), *final(score)) == tally_of(*old(events), *old(score)).spec_drain(),
        final(events)@.len() == 0,
        final(score).0 == old(score).0 + old(events)@.len(),
        reported@.len() == old(events)@.len(),
        forall|i: int| 0 <= i < reported@.len() ==> reported@[i] == old(score).0 + i + 1,
{
    let drained: Vec<CollisionEvent> = events.drain();
    let mut reported: Vec<u32> = Vec::new();
    let mut i: usize = 0;
    while i < drained.len()
        invariant
            i <= drained.len(),
            old(score).0 + drained@.len() <= u32::MAX,
            score.0 == old(score).0 + i,
            reported@.len() == i,
            forall|k: int| 0 <= k < i ==> reported@[k] == old(score).0 + k + 1,
        decreases drained.len() - i,
    {
        score.0 = score.0 + 1;
        reported.push(score.0);
        i = i + 1;
    }
    reported
}

/// Over any run of detections and drains, nothing is lost and nothing is
/// counted twice: the score and the queue together grow by exactly the
/// number of collisions that the run queued.
pub proof fn lemma_score_accounting(start: Tally, steps: Seq<Step>)
    ensures
        start.spec_run(steps).score + start.spec_run(steps).pending == start.score + start.pending
            + collisions_in(steps),
    decreases steps.len(),
{
    if steps.len() > 0 {
        lemma_score_accounting(start, steps.drop_last());
    }
}

/// A run that starts from nothing and ends with a drain leaves a score equal
/// to the number of collisions in the run, and an empty queue.
pub proof fn lemma_score_equals_collisions(steps: Seq<Step>)
    requires
        steps.len() > 0,
        steps.last() is Drain,
    ensures
        (Tally { pending: 0, score: 0 }).spec_run(steps).score == collisions_in(steps),
        (Tally { pending: 0, score: 0 }).spec_run(steps).pending == 0,
{
    lemma_score_accounting(Tally { pending: 0, score: 0 }, steps);
}

} // verus!
