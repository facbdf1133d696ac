use vstd::prelude::*;
use crate::identity::Identity;

verus! {

/// One pending scheduled emission: the generation that names this schedule
/// and the absolute time at which it is due to fire.
///
/// Rescheduling a key invalidates its old generation and issues a fresh one,
/// so a timer that fires carrying a stale generation can be recognised and
/// discarded instead of racing the rescheduler.
#[derive(Clone, Copy, Debug, PartialEq, Eq, Structural)]
pub struct QueueEntry {
    pub generation: u64,
    pub deadline: u64,
}

/// Keyed, re-entrant delay queue bookkeeping.
///
/// At most one entry per identity is live at any instant. Adding a key that
/// is already pending reschedules it (the old schedule is discarded); firing
/// with the live generation removes the key and emits it exactly once;
/// firing with a stale generation is a no-op. The waiting itself is the
/// caller's: `add` hands back the ticket whose timer to arm, and the timer's
/// expiry is reported through `fire`.
pub struct UniqueDelayQueue {
    pending: vstd::hash_map::StringHashMap<QueueEntry>,
    next_generation: u64,
}

impl UniqueDelayQueue {
    /// The pending entries, keyed by the identity's canonical string form.
    pub closed spec fn pending_map(&self) -> Map<Seq<char>, QueueEntry> {
        self.pending@
    }

    /// Strict upper bound on every generation handed out so far.
    pub closed spec fn generation_bound(&self) -> u64 {
        self.next_generation
    }

    /// Every live entry's generation lies below the bound, so a fresh
    /// generation never collides with a live or fired one.
    pub open spec fn wf(&self) -> bool {
        forall|k: Seq<char>| self.pending_map().contains_key(k)
            ==> (#[trigger] self.pending_map()[k]).generation < self.generation_bound()
    }

    pub fn new() -> (q: UniqueDelayQueue)
        ensures
            q.wf(),
            q.pending_map() == Map::<Seq<char>, QueueEntry>::empty(),
            q.generation_bound() == 0,
    {
        UniqueDelayQueue { pending: vstd::hash_map::StringHashMap::new(), next_generation: 0 }
    }

    /// Schedule `key` to fire at `now + delay`, under a fresh generation.
    ///
    /// If `key` already has a pending entry, that entry is discarded and
    /// replaced — rescheduled to `delay` from now, not added to the old
    /// delay — so no key is ever queued twice. The returned ticket is the
    /// one live schedule for `key`; a timer armed for it should report back
    /// through [`Self::fire`].
    pub fn add(&mut self, key: &Identity, now: u64, delay: u64) -> (ticket: QueueEntry)
        requires
            old(self).wf(),
            old(self).generation_bound() < u64::MAX,
            now + delay <= u64::MAX,
        ensures
            final(self).wf(),
            ticket == (QueueEntry { generation: old(self).generation_bound(), deadline: (now + delay) as u64 }),
            final(self).pending_map() == old(self).pending_map().insert(key@, ticket),
            final(self).generation_bound() == old(self).generation_bound() + 1,
    {
        let ticket = QueueEntry { generation: self.next_generation, deadline: now + delay };
        self.pending.insert(key.encoded.clone(), ticket);
        self.next_generation = self.next_generation + 1;
        proof {
            assert forall|k: Seq<char>| self.pending_map().contains_key(k) implies (
            #[trigger] self.pending_map()[k]).generation < self.generation_bound() by {
                if k != key@ {
                    assert(old(self).pending_map().contains_key(k));
                }
            }
        }
        ticket
    }

    /// Whether the generation counter is spent, so that no further schedule
    /// can be taken (practically unreachable).
    pub fn exhausted(&self) -> (r: bool)
        ensures
            r == (self.generation_bound() == u64::MAX),
    {
        self.next_generation == u64::MAX
    }

    /// A timer for `(key, generation)` expired.
    ///
    /// Emits exactly when `generation` is still the live schedule for `key`:
    /// the entry is then removed and the key is to be yielded once. A stale
    /// generation — the key was rescheduled after this timer was armed, or
    /// already fired and was removed — emits nothing and changes nothing, so
    /// no key is ever emitted twice for one schedule.
    pub fn fire(&mut self, key: &Identity, generation: u64) -> (emitted: bool)
        requires
            old(self).wf(),
        ensures
            final(self).wf(),
            emitted == (old(self).pending_map().contains_key(key@) && old(
                self,
            ).pending_map()[key@].generation == generation),
            emitted ==> final(self).pending_map() == old(self).pending_map().remove(key@),
            !emitted ==> final(self).pending_map() == old(self).pending_map(),
            final(self).generation_bound() == old(self).generation_bound(),
    {
        let live = match self.pending.get(key.encoded.as_str()) {
            Some(entry) => entry.generation == generation,
            None => false,
        };
        if live {
            self.pending.remove(key.encoded.as_str());
            proof {
                assert forall|k: Seq<char>| self.pending_map().contains_key(k) implies (
                #[trigger] self.pending_map()[k]).generation < self.generation_bound() by {
                    assert(old(self).pending_map().contains_key(k));
                }
            }
            true
        } else {
            false
        }
    }
}

/// Law: adding a key again before it fires coalesces the two schedules.
///
/// After `add(key, d1)` then `add(key, d2)` with no fire in between, the
/// queue holds exactly one entry for `key` — the second ticket, due at the
/// second deadline — and a timer still carrying the first ticket's
/// generation is stale: by [`UniqueDelayQueue::fire`]'s contract it emits
/// nothing. One registration, one emission, at the rescheduled time.
pub proof fn lemma_readd_coalesces(
    q0: UniqueDelayQueue,
    q1: UniqueDelayQueue,
    q2: UniqueDelayQueue,
    key: Seq<char>,
    t1: QueueEntry,
    t2: QueueEntry,
)
    requires
        q0.wf(),
        // what the first add ensured
        t1.generation == q0.generation_bound(),
        q1.pending_map() == q0.pending_map().insert(key, t1),
        q1.generation_bound() == q0.generation_bound() + 1,
        // what the second add ensured
        t2.generation == q1.generation_bound(),
        q2.pending_map() == q1.pending_map().insert(key, t2),
        q2.generation_bound() == q1.generation_bound() + 1,
    ensures
        q2.pending_map().contains_key(key),
        q2.pending_map()[key] == t2,
        t2.generation != t1.generation,
        !(q2.pending_map().contains_key(key) && q2.pending_map()[key].generation
            == t1.generation),
{
}

/// Law: a key re-added after it fired gets a fresh, independent schedule.
///
/// If `key`'s live entry fired (and was removed), a later `add` makes `key`
/// pending again under the new ticket, whose generation differs from the
/// fired one: no residual state from the earlier firing prevents or alters
/// the new schedule.
pub proof fn lemma_readd_after_fire(
    q0: UniqueDelayQueue,
    q1: UniqueDelayQueue,
    q2: UniqueDelayQueue,
    key: Seq<char>,
    fired_generation: u64,
    t: QueueEntry,
)
    requires
        q0.wf(),
        // what the emitting fire ensured
        q0.pending_map().contains_key(key),
        q0.pending_map()[key].generation == fired_generation,
        q1.pending_map() == q0.pending_map().remove(key),
        q1.generation_bound() == q0.generation_bound(),
        // what the later add ensured
        t.generation == q1.generation_bound(),
        q2.pending_map() == q1.pending_map().insert(key, t),
    ensures
        q2.pending_map().contains_key(key),
        q2.pending_map()[key] == t,
        t.generation != fired_generation,
{
}

} // verus!
