//! The simulation tick over the transient-entity registry.
//!
//! The tick is a pure step function of (registry, now): the caller refreshes
//! the game clock once per tick and hands it in explicitly; the sweep then
//! removes every entity whose deadline has passed.

use vstd::prelude::*;
use crate::ecs_entities::{alive_at, EntityRegistry, Utterance};

verus! {

broadcast use vstd::seq_lib::group_filter_ensures, Seq::lemma_filter_push;

/// The single shared "current time" value, refreshed once per simulation
/// tick and read by everything needing the current time within that tick.
#[derive(Clone, Copy, Debug, PartialEq, Eq, Structural)]
pub struct GameTimeNow(pub i64);

/// The expiry sweep run once per simulation tick.
pub struct UtteranceSystem;

impl UtteranceSystem {
    /// Remove every utterance whose `dead_at` is at or before `now`,
    /// keeping the survivors in their original order. Entities are never
    /// mutated in place: they are either kept unchanged or deleted.
    pub fn run(&mut self, registry: &mut EntityRegistry, now: &GameTimeNow)
        ensures
            final(registry).utterances@ == old(registry).spec_alive(now.0 as int),
    {
        let ghost orig = registry.utterances@;
        let ghost pred = alive_at(now.0 as int);
        let total = registry.utterances.len();
        let mut j: usize = 0;
        let mut k: usize = 0;
        while j < total
            invariant
                total == orig.len(),
                j <= total,
                pred == alive_at(now.0 as int),
                k == orig.subrange(0, j as int).filter(pred).len(),
                registry.utterances@ == orig.subrange(0, j as int).filter(pred) + orig.subrange(
                    j as int,
                    total as int,
                ),
            decreases total - j,
        {
            proof {
                assert(registry.utterances@.len() == k + (total - j));
                assert(registry.utterances@[k as int] == orig.subrange(j as int, total as int)[0]);
                assert(orig.subrange(0, j as int + 1) == orig.subrange(0, j as int).push(
                    orig[j as int],
                )) by {
                    assert(orig.subrange(0, j as int + 1) =~= orig.subrange(0, j as int).push(
                        orig[j as int],
                    ));
                }
            }
            let alive = registry.utterances[k].dead_at > now.0;
            if alive {
                proof {
                    assert(registry.utterances@ =~= orig.subrange(0, j as int + 1).filter(pred)
                        + orig.subrange(j as int + 1, total as int));
                }
                k += 1;
            } else {
                registry.utterances.remove(k);
                proof {
                    assert(registry.utterances@ =~= orig.subrange(0, j as int + 1).filter(pred)
                        + orig.subrange(j as int + 1, total as int));
                }
            }
            j += 1;
        }
        proof {
            assert(orig.subrange(0, total as int) == orig);
            assert(registry.utterances@ =~= orig.filter(pred));
        }
    }
}

/// Expiry law: an utterance in the registry survives a sweep at `now`
/// exactly when `now` is strictly before its deadline. In particular an
/// entity created at time T with lifespan L (`dead_at == T + L`) is present
/// after every sweep with `now < T + L` and absent after every sweep with
/// `now >= T + L`, the boundary `now == T + L` counting as expired.
pub proof fn lemma_utterance_expiry(entities: Seq<Utterance>, u: Utterance, now: int)
    requires
        entities.contains(u),
    ensures
        u.dead_at > now ==> entities.filter(alive_at(now)).contains(u),
        u.dead_at <= now ==> !entities.filter(alive_at(now)).contains(u),
{
    let pred = alive_at(now);
    let swept = entities.filter(pred);
    if u.dead_at > now {
        let i = choose|i: int| 0 <= i < entities.len() && entities[i] == u;
        entities.lemma_filter_contains(pred, i);
    }
    if u.dead_at <= now && swept.contains(u) {
        let i = choose|i: int| 0 <= i < swept.len() && swept[i] == u;
        entities.lemma_filter_pred(pred, i);
    }
}

} // verus!
