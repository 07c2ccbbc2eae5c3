//! Transient entities: short-lived values owned by a registry and destroyed
//! by the simulation tick once their deadline has passed.

use vstd::prelude::*;

verus! {

/// A short-lived speech entity: immutable after creation, alive until the
/// game clock reaches `dead_at`.
pub struct Utterance {
    pub text: String,
    pub dead_at: i64,
}

impl Utterance {
    /// Create an utterance at time `now` that lives for `lifespan` time
    /// units: it is due for deletion from `now + lifespan` on.
    pub fn new(text: String, now: i64, lifespan: i64) -> (u: Utterance)
        requires
            0 <= lifespan,
            now + lifespan <= i64::MAX,
        ensures
            u.text == text,
            u.dead_at == now + lifespan,
    {
        Utterance { text, dead_at: now + lifespan }
    }
}

/// The registry of transient entities. The control loop inserts; the
/// simulation tick removes every entity whose deadline has passed; there is
/// no other mutation path, and no "dead but present" state.
pub struct EntityRegistry {
    pub utterances: Vec<Utterance>,
}

/// Whether an entity is still alive at time `now`: its deadline is strictly
/// in the future. At `now == dead_at` the entity is already expired.
pub open spec fn alive_at(now: int) -> spec_fn(Utterance) -> bool {
    |u: Utterance| u.dead_at > now
}

impl EntityRegistry {
    /// The entities that survive a sweep at time `now`: exactly those whose
    /// deadline is still strictly in the future, in their original order.
    pub open spec fn spec_alive(self, now: int) -> Seq<Utterance> {
        self.utterances@.filter(alive_at(now))
    }

    pub fn new() -> (r: EntityRegistry)
        ensures
            r.utterances@.len() == 0,
    {
        EntityRegistry { utterances: Vec::new() }
    }

    /// Append a newly created entity.
    pub fn insert(&mut self, u: Utterance)
        ensures
            final(self).utterances@ == old(self).utterances@.push(u),
    {
        self.utterances.push(u);
    }

    pub fn len(&self) -> (n: usize)
        ensures
            n == self.utterances@.len(),
    {
        self.utterances.len()
    }

    /// Read one entity, for a render pass over the registry.
    pub fn get(&self, i: usize) -> (u: &Utterance)
        requires
            i < self.utterances@.len(),
        ensures
            *u == self.utterances@[i as int],
    {
        &self.utterances[i]
    }
}

} // verus!
