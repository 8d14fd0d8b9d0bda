//! Runtime workers and the roster that records them.

use vstd::prelude::*;
use crate::id::RuntimeId;

verus! {

/// A runtime worker: a process that polls the gateway for invocations.
#[derive(Debug, PartialEq, Eq)]
pub struct Runtime {
    id: RuntimeId,
    start: u64,
}

/// What a worker is: its identifier and the time of its birth, in
/// milliseconds since the Unix epoch.
pub struct RuntimeView {
    pub id: Seq<char>,
    pub start: u64,
}

impl View for Runtime {
    type V = RuntimeView;

    closed spec fn view(&self) -> RuntimeView {
        RuntimeView { id: self.id@, start: self.start }
    }
}

impl Runtime {
    pub fn new(id: RuntimeId, start: u64) -> (runtime: Self)
        ensures
            runtime@ == (RuntimeView { id: id@, start }),
    {
        Self { id, start }
    }

    /// The identifier of the worker.
    pub fn id(&self) -> (id: &RuntimeId)
        ensures
            id@ == self@.id,
    {
        &self.id
    }

    /// The time of the worker's birth.
    pub fn start(&self) -> (start: u64)
        ensures
            start == self@.start,
    {
        self.start
    }

    /// Whether the worker has outlived `lifetime_ms` at the time `now_ms`.
    pub fn is_expired(&self, lifetime_ms: u64, now_ms: u64) -> (expired: bool)
        ensures
            expired == is_expired(self@, lifetime_ms, now_ms),
    {
        match self.start.checked_add(lifetime_ms) {
            Some(end) => end < now_ms,
            None => false,
        }
    }
}

impl Clone for Runtime {
    fn clone(&self) -> (res: Self)
        ensures
            res == *self,
    {
        Runtime { id: self.id.clone(), start: self.start }
    }
}

/// A worker has expired once the time is past its birth by more than its
/// lifetime: a worker born at `t` lives through `t + lifetime_ms` and can be
/// reaped from `t + lifetime_ms + 1` on.
pub open spec fn is_expired(worker: RuntimeView, lifetime_ms: u64, now_ms: u64) -> bool {
    worker.start + lifetime_ms < now_ms
}

/// The test for workers that have expired.
pub open spec fn expired_at(lifetime_ms: u64, now_ms: u64) -> spec_fn(RuntimeView) -> bool {
    |worker: RuntimeView| is_expired(worker, lifetime_ms, now_ms)
}

/// The test for workers whose identifier is not `id`.
pub open spec fn other_than(id: Seq<char>) -> spec_fn(RuntimeView) -> bool {
    |worker: RuntimeView| worker.id != id
}

/// The test for workers whose identifier is none of `ids`.
pub open spec fn none_of(ids: Seq<Seq<char>>) -> spec_fn(RuntimeView) -> bool {
    |worker: RuntimeView| !ids.contains(worker.id)
}

/// The identifiers of the workers of a roster, in its order.
pub open spec fn ids_of(roster: Seq<RuntimeView>) -> Seq<Seq<char>> {
    Seq::new(roster.len(), |i: int| roster[i].id)
}

/// The identifiers of the workers of a roster that have expired, in its
/// order: those that a reaper kills.
pub open spec fn expired_ids(roster: Seq<RuntimeView>, lifetime_ms: u64, now_ms: u64) -> Seq<
    Seq<char>,
> {
    ids_of(roster.filter(expired_at(lifetime_ms, now_ms)))
}

/// The roster that a reaper leaves: every entry goes whose identifier is
/// that of an expired entry.
pub open spec fn reaped(roster: Seq<RuntimeView>, lifetime_ms: u64, now_ms: u64) -> Seq<
    RuntimeView,
> {
    roster.filter(none_of(expired_ids(roster, lifetime_ms, now_ms)))
}

/// What a sequence of workers is.
pub open spec fn views_of(workers: Seq<Runtime>) -> Seq<RuntimeView> {
    Seq::new(workers.len(), |i: int| workers[i]@)
}

/// What a sequence of worker identifiers is.
pub open spec fn id_views_of(ids: Seq<RuntimeId>) -> Seq<Seq<char>> {
    Seq::new(ids.len(), |i: int| ids[i]@)
}

/// Filtering a sequence that grew by one element.
pub(crate) proof fn lemma_filter_push<A>(s: Seq<A>, last: A, keep: spec_fn(A) -> bool)
    ensures
        s.push(last).filter(keep) == if keep(last) {
            s.filter(keep).push(last)
        } else {
            s.filter(keep)
        },
{
    reveal(Seq::filter);
    assert(s.push(last).drop_last() == s);
}

/// Filtering twice is filtering once by both tests.
pub(crate) proof fn lemma_filter_twice<A>(
    s: Seq<A>,
    first: spec_fn(A) -> bool,
    second: spec_fn(A) -> bool,
    both: spec_fn(A) -> bool,
)
    requires
        forall|a: A| #[trigger] both(a) == (first(a) && second(a)),
    ensures
        s.filter(first).filter(second) == s.filter(both),
    decreases s.len(),
{
    reveal(Seq::filter);
    if s.len() > 0 {
        lemma_filter_twice(s.drop_last(), first, second, both);
        lemma_filter_push(s.drop_last().filter(first), s.last(), second);
    }
}

/// A test that every element of a sequence passes filters nothing out.
pub(crate) proof fn lemma_filter_keeps_all<A>(s: Seq<A>, keep: spec_fn(A) -> bool)
    requires
        forall|i: int| 0 <= i < s.len() ==> keep(#[trigger] s[i]),
    ensures
        s.filter(keep) == s,
    decreases s.len(),
{
    reveal(Seq::filter);
    if s.len() > 0 {
        lemma_filter_keeps_all(s.drop_last(), keep);
    }
}

/// The roster of workers, in the order in which they were added. An
/// identifier may occur more than once.
#[derive(Debug)]
pub struct RuntimeList(Vec<Runtime>);

impl View for RuntimeList {
    type V = Seq<RuntimeView>;

    closed spec fn view(&self) -> Seq<RuntimeView> {
        views_of(self.0@)
    }
}

impl RuntimeList {
    pub fn new() -> (list: Self)
        ensures
            list@ == Seq::<RuntimeView>::empty(),
    {
        Self(Vec::new())
    }

    pub fn add(&mut self, runtime: Runtime)
        ensures
            final(self)@ == old(self)@.push(runtime@),
    {
        self.0.push(runtime);
    }

    /// Removes every entry whose identifier is `runtime_id`.
    pub fn remove(&mut self, runtime_id: &RuntimeId)
        ensures
            final(self)@ == old(self)@.filter(other_than(runtime_id@)),
    {
        let ghost before = self@;
        let ghost keep = other_than(runtime_id@);
        let mut kept: Vec<Runtime> = Vec::new();
        let mut i: usize = 0;
        proof {
            reveal(Seq::filter);
            assert(before.take(0).filter(keep) == views_of(kept@));
        }
        while i < self.0.len()
            invariant
                i <= self.0.len(),
                before == views_of(self.0@),
                keep == other_than(runtime_id@),
                views_of(kept@) == before.take(i as int).filter(keep),
            decreases self.0.len() - i,
        {
            proof {
                lemma_filter_push(before.take(i as int), before[i as int], keep);
                assert(before.take(i + 1) == before.take(i as int).push(before[i as int]));
            }
            if self.0[i].id != *runtime_id {
                let ghost found = kept@;
                kept.push(self.0[i].clone());
                assert(views_of(kept@) =~= views_of(found).push(before[i as int]));
            }
            i += 1;
        }
        assert(before.take(i as int) == before);
        self.0 = kept;
    }

    /// The number of entries.
    pub fn len(&self) -> (n: usize)
        ensures
            n == self@.len(),
    {
        self.0.len()
    }

    /// Whether the roster is without entries.
    pub fn is_empty(&self) -> (empty: bool)
        ensures
            empty == (self@.len() == 0),
    {
        self.0.len() == 0
    }

    /// The entry at `index`, if there is one.
    pub fn get(&self, index: usize) -> (entry: Option<&Runtime>)
        ensures
            match entry {
                Some(runtime) => index < self@.len() && runtime@ == self@[index as int],
                None => index >= self@.len(),
            },
    {
        if index < self.0.len() {
            Some(&self.0[index])
        } else {
            None
        }
    }

    /// The identifiers of the entries that have expired, in the order of the
    /// roster.
    pub fn expired(&self, lifetime_ms: u64, now_ms: u64) -> (ids: Vec<RuntimeId>)
        ensures
            id_views_of(ids@) == expired_ids(self@, lifetime_ms, now_ms),
    {
        let ghost roster = self@;
        let ghost test = expired_at(lifetime_ms, now_ms);
        let mut ids: Vec<RuntimeId> = Vec::new();
        let mut i: usize = 0;
        proof {
            reveal(Seq::filter);
            assert(id_views_of(ids@) == ids_of(roster.take(0).filter(test)));
        }
        while i < self.0.len()
            invariant
                i <= self.0.len(),
                roster == views_of(self.0@),
                test == expired_at(lifetime_ms, now_ms),
                id_views_of(ids@) == ids_of(roster.take(i as int).filter(test)),
            decreases self.0.len() - i,
        {
            proof {
                lemma_filter_push(roster.take(i as int), roster[i as int], test);
                assert(roster.take(i + 1) == roster.take(i as int).push(roster[i as int]));
            }
            if self.0[i].is_expired(lifetime_ms, now_ms) {
                let ghost found = ids@;
                ids.push(self.0[i].id.clone());
                proof {
                    let chosen = roster.take(i as int).filter(test);
                    assert(id_views_of(ids@) =~= id_views_of(found).push(roster[i as int].id));
                    assert(ids_of(chosen.push(roster[i as int])) =~= ids_of(chosen).push(
                        roster[i as int].id,
                    ));
                }
            }
            i += 1;
        }
        assert(roster.take(i as int) == roster);
        ids
    }
}

} // verus!
