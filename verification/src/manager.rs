//! The runtime manager: it starts workers through a spawner, records them in
//! its roster, and reaps those that have outlived their lifetime.

use vstd::prelude::*;
use crate::clock::now_ms;
use crate::id::RuntimeId;
use crate::runtime::{
    expired_at, expired_ids, id_views_of, is_expired, lemma_filter_keeps_all,
    lemma_filter_twice, none_of, other_than, reaped, Runtime, RuntimeList, RuntimeView,
};

verus! {

/// The spawner: what starts and stops worker processes. Nothing is known of
/// what an implementation answers, so nothing here relies on it.
pub trait RuntimeGenerator: Sized {
    /// Starts a worker and says which one it is and when it was born. The
    /// worker is to find the gateway's address in its environment.
    fn init(&self) -> (res: Result<Runtime, String>);

    /// Stops the worker that `runtime_id` names.
    fn kill(&self, runtime_id: &RuntimeId) -> (res: Result<(), String>);

    fn clone(&self) -> (copy: Self);
}

/// What one kill came to.
#[derive(Debug, PartialEq, Eq)]
pub struct Kill {
    pub id: RuntimeId,
    pub outcome: Result<(), String>,
}

/// What one tick of the reaper did.
#[derive(Debug, PartialEq, Eq)]
pub struct GcReport {
    /// The time by which the tick judged the workers.
    pub now_ms: u64,
    /// The kills that the tick asked the spawner for, in their order.
    pub kills: Vec<Kill>,
    /// What the spawner answered, where the tick asked it for a worker.
    pub spawned: Option<Result<Runtime, String>>,
}

/// The identifiers that a sequence of kills names.
pub open spec fn killed_ids(kills: Seq<Kill>) -> Seq<Seq<char>> {
    Seq::new(kills.len(), |i: int| kills[i].id@)
}

/// The worker that a tick got from the spawner, if it asked and got one.
pub open spec fn spawned_worker(spawned: Option<Result<Runtime, String>>) -> Option<RuntimeView> {
    match spawned {
        Some(Ok(worker)) => Some(worker@),
        _ => None,
    }
}

/// The roster after a tick at the time `now_ms`. The expired workers go;
/// where none is left, the roster holds the worker that the spawner gave,
/// or nothing where it gave none.
pub open spec fn gc_roster(
    roster: Seq<RuntimeView>,
    lifetime_ms: u64,
    now_ms: u64,
    spawned: Option<RuntimeView>,
) -> Seq<RuntimeView> {
    let kept = reaped(roster, lifetime_ms, now_ms);
    if kept.len() > 0 {
        kept
    } else {
        match spawned {
            Some(worker) => seq![worker],
            None => kept,
        }
    }
}

/// Whether a tick on `roster` asks the spawner for a worker: it does where
/// the reaper leaves nobody.
pub open spec fn gc_spawns(roster: Seq<RuntimeView>, lifetime_ms: u64, now_ms: u64) -> bool {
    reaped(roster, lifetime_ms, now_ms).len() == 0
}

/// Whether no worker of a roster has expired.
pub open spec fn all_live(roster: Seq<RuntimeView>, lifetime_ms: u64, now_ms: u64) -> bool {
    forall|i: int| 0 <= i < roster.len() ==> !is_expired(#[trigger] roster[i], lifetime_ms, now_ms)
}

/// Whoever the reaper leaves in the roster has not expired.
pub proof fn lemma_reaped_all_live(roster: Seq<RuntimeView>, lifetime_ms: u64, now_ms: u64)
    ensures
        all_live(reaped(roster, lifetime_ms, now_ms), lifetime_ms, now_ms),
{
    let test = expired_at(lifetime_ms, now_ms);
    let ids = expired_ids(roster, lifetime_ms, now_ms);
    let kept = reaped(roster, lifetime_ms, now_ms);
    assert forall|i: int| 0 <= i < kept.len() implies !is_expired(
        #[trigger] kept[i],
        lifetime_ms,
        now_ms,
    ) by {
        let worker = kept[i];
        roster.lemma_filter_pred(none_of(ids), i);
        assert(kept.contains(worker));
        roster.lemma_filter_contains_rev(none_of(ids), worker);
        if is_expired(worker, lifetime_ms, now_ms) {
            let at = choose|at: int| 0 <= at < roster.len() && roster[at] == worker;
            roster.lemma_filter_contains(test, at);
            let chosen = roster.filter(test);
            let among = choose|among: int| 0 <= among < chosen.len() && chosen[among] == worker;
            assert(ids[among] == worker.id);
        }
    }
}

/// A roster on which nobody has expired is left as it is by the reaper.
pub proof fn lemma_reaped_unchanged(roster: Seq<RuntimeView>, lifetime_ms: u64, now_ms: u64)
    requires
        all_live(roster, lifetime_ms, now_ms),
    ensures
        expired_ids(roster, lifetime_ms, now_ms).len() == 0,
        reaped(roster, lifetime_ms, now_ms) == roster,
{
    let test = expired_at(lifetime_ms, now_ms);
    let chosen = roster.filter(test);
    if chosen.len() > 0 {
        roster.lemma_filter_pred(test, 0);
        assert(chosen.contains(chosen[0]));
        roster.lemma_filter_contains_rev(test, chosen[0]);
    }
    lemma_filter_keeps_all(roster, none_of(expired_ids(roster, lifetime_ms, now_ms)));
}

/// After a tick, nobody in the roster has expired at the time of the tick,
/// provided that the spawner, where it was asked, gave a worker that has
/// not expired at that time.
pub proof fn lemma_gc_leaves_no_expired(
    roster: Seq<RuntimeView>,
    lifetime_ms: u64,
    now_ms: u64,
    spawned: Option<RuntimeView>,
)
    requires
        spawned matches Some(worker) ==> !is_expired(worker, lifetime_ms, now_ms),
    ensures
        all_live(gc_roster(roster, lifetime_ms, now_ms, spawned), lifetime_ms, now_ms),
{
    lemma_reaped_all_live(roster, lifetime_ms, now_ms);
}

/// After a tick, the roster holds at least one worker, provided that the
/// spawner, where it was asked, gave one.
pub proof fn lemma_gc_leaves_a_worker(
    roster: Seq<RuntimeView>,
    lifetime_ms: u64,
    now_ms: u64,
    spawned: Option<RuntimeView>,
)
    requires
        gc_spawns(roster, lifetime_ms, now_ms) ==> spawned is Some,
    ensures
        gc_roster(roster, lifetime_ms, now_ms, spawned).len() >= 1,
{
}

/// A tick on a roster on which nobody has expired changes nothing, unless the
/// roster is empty.
pub proof fn lemma_gc_keeps_live_roster(
    roster: Seq<RuntimeView>,
    lifetime_ms: u64,
    now_ms: u64,
    spawned: Option<RuntimeView>,
)
    requires
        all_live(roster, lifetime_ms, now_ms),
        roster.len() > 0,
    ensures
        gc_roster(roster, lifetime_ms, now_ms, spawned) == roster,
        !gc_spawns(roster, lifetime_ms, now_ms),
{
    lemma_reaped_unchanged(roster, lifetime_ms, now_ms);
}

/// When a second tick at the same time leaves what the first left. On a
/// roster on which nobody has expired that is so exactly in these cases: the roster
/// is not empty; or the first tick got a worker that has not expired, or
/// the second tick got the very same worker; or neither tick got one.
pub open spec fn gc_repeats(
    roster: Seq<RuntimeView>,
    lifetime_ms: u64,
    now_ms: u64,
    first: Option<RuntimeView>,
    second: Option<RuntimeView>,
) -> bool {
    roster.len() > 0 || match first {
        Some(worker) => !is_expired(worker, lifetime_ms, now_ms) || second == first,
        None => second is None,
    }
}

/// Reaping twice is reaping once. On a roster on which nobody has expired, two
/// ticks at the same time leave the roster that one tick leaves, in the cases
/// that `gc_repeats` names and in no others.
pub proof fn lemma_gc_idempotent(
    roster: Seq<RuntimeView>,
    lifetime_ms: u64,
    now_ms: u64,
    first: Option<RuntimeView>,
    second: Option<RuntimeView>,
)
    requires
        all_live(roster, lifetime_ms, now_ms),
    ensures
        gc_repeats(roster, lifetime_ms, now_ms, first, second) <==> gc_roster(
            gc_roster(roster, lifetime_ms, now_ms, first),
            lifetime_ms,
            now_ms,
            second,
        ) == gc_roster(roster, lifetime_ms, now_ms, first),
{
    let once = gc_roster(roster, lifetime_ms, now_ms, first);
    let twice = gc_roster(once, lifetime_ms, now_ms, second);
    lemma_reaped_unchanged(roster, lifetime_ms, now_ms);
    if roster.len() > 0 {
        lemma_gc_keeps_live_roster(once, lifetime_ms, now_ms, second);
    } else {
        match first {
            Some(worker) => {
                assert(once == seq![worker]);
                assert(once[0] == worker);
                if !is_expired(worker, lifetime_ms, now_ms) {
                    lemma_gc_keeps_live_roster(once, lifetime_ms, now_ms, second);
                } else {
                    lemma_reaped_all_live(once, lifetime_ms, now_ms);
                    let kept = reaped(once, lifetime_ms, now_ms);
                    if kept.len() > 0 {
                        assert(kept.contains(kept[0]));
                        once.lemma_filter_contains_rev(
                            none_of(expired_ids(once, lifetime_ms, now_ms)),
                            kept[0],
                        );
                    }
                    match second {
                        Some(other) => {
                            assert(twice == seq![other]);
                            assert(twice[0] == other);
                        },
                        None => {
                            assert(twice.len() == 0);
                        },
                    }
                }
            },
            None => {
                assert(once.len() == 0);
                match second {
                    Some(other) => {
                        assert(twice == seq![other]);
                        assert(twice.len() == 1);
                    },
                    None => {},
                }
            },
        }
    }
}

/// The runtime manager.
pub struct RuntimeManager<G: RuntimeGenerator> {
    generator: G,
    runtime_list: RuntimeList,
    lifetime_ms: u64,
}

impl<G: RuntimeGenerator> RuntimeManager<G> {
    /// The roster of the manager.
    pub closed spec fn roster(&self) -> Seq<RuntimeView> {
        self.runtime_list@
    }

    /// The lifetime that the manager grants a worker, in milliseconds.
    pub closed spec fn lifetime(&self) -> u64 {
        self.lifetime_ms
    }

    pub fn new(generator: G, lifetime_ms: u64) -> (manager: Self)
        ensures
            manager.roster() == Seq::<RuntimeView>::empty(),
            manager.lifetime() == lifetime_ms,
    {
        Self { generator, runtime_list: RuntimeList::new(), lifetime_ms }
    }

    /// The roster.
    pub fn runtimes(&self) -> (list: &RuntimeList)
        ensures
            list@ == self.roster(),
    {
        &self.runtime_list
    }

    /// The lifetime of a worker, in milliseconds.
    pub fn lifetime_ms(&self) -> (lifetime_ms: u64)
        ensures
            lifetime_ms == self.lifetime(),
    {
        self.lifetime_ms
    }

    /// Records what the spawner answered when asked for a worker: a worker
    /// is added to the end of the roster, a failure changes nothing. The
    /// answer is handed on.
    pub fn record_spawn(&mut self, spawned: Result<Runtime, String>) -> (res: Result<
        Runtime,
        String,
    >)
        ensures
            res == spawned,
            final(self).lifetime() == old(self).lifetime(),
            final(self).roster() == match spawned {
                Ok(worker) => old(self).roster().push(worker@),
                Err(_) => old(self).roster(),
            },
    {
        match spawned {
            Ok(runtime) => {
                self.runtime_list.add(runtime.clone());
                Ok(runtime)
            },
            Err(message) => Err(message),
        }
    }

    /// Asks the spawner for a worker and records it. Whether there is one is
    /// the spawner's to say: the roster grows by the worker that is handed
    /// back, and stays as it is where the spawner failed.
    pub fn init(&mut self) -> (res: Result<Runtime, String>)
        ensures
            final(self).lifetime() == old(self).lifetime(),
            final(self).roster() == match res {
                Ok(worker) => old(self).roster().push(worker@),
                Err(_) => old(self).roster(),
            },
    {
        let spawned = self.generator.init();
        self.record_spawn(spawned)
    }

    /// Primes the pool at startup: the same as `init`.
    pub fn bootstrap(&mut self) -> (res: Result<Runtime, String>)
        ensures
            final(self).lifetime() == old(self).lifetime(),
            final(self).roster() == match res {
                Ok(worker) => old(self).roster().push(worker@),
                Err(_) => old(self).roster(),
            },
    {
        self.init()
    }

    /// Asks the spawner to stop a worker and takes the worker's entries off
    /// the roster, whatever the spawner answered.
    fn kill(&mut self, runtime_id: &RuntimeId) -> (outcome: Result<(), String>)
        ensures
            final(self).lifetime() == old(self).lifetime(),
            final(self).roster() == old(self).roster().filter(other_than(runtime_id@)),
    {
        let outcome = self.generator.kill(runtime_id);
        self.runtime_list.remove(runtime_id);
        outcome
    }

    /// One tick of the reaper at the time `now_ms`. Every worker that has
    /// expired is killed, in the order of the roster, and leaves the roster
    /// whether or not the kill succeeded. Where that leaves nobody, the
    /// spawner is asked for one worker, once.
    pub fn gc_at(&mut self, now_ms: u64) -> (report: GcReport)
        ensures
            report.now_ms == now_ms,
            killed_ids(report.kills@) == expired_ids(
                old(self).roster(),
                old(self).lifetime(),
                now_ms,
            ),
            report.spawned is Some <==> gc_spawns(old(self).roster(), old(self).lifetime(), now_ms),
            final(self).lifetime() == old(self).lifetime(),
            final(self).roster() == gc_roster(
                old(self).roster(),
                old(self).lifetime(),
                now_ms,
                spawned_worker(report.spawned),
            ),
    {
        let ghost before = self.roster();
        let ghost lifetime = self.lifetime();
        let expired = self.runtime_list.expired(self.lifetime_ms, now_ms);
        let ghost ids = id_views_of(expired@);
        let mut kills: Vec<Kill> = Vec::new();
        let mut i: usize = 0;
        proof {
            lemma_filter_keeps_all(before, none_of(ids.take(0)));
        }
        while i < expired.len()
            invariant
                i <= expired.len(),
                ids == id_views_of(expired@),
                self.lifetime() == lifetime,
                self.roster() == before.filter(none_of(ids.take(i as int))),
                killed_ids(kills@) == ids.take(i as int),
            decreases expired.len() - i,
        {
            let ghost done = kills@;
            let outcome = self.kill(&expired[i]);
            kills.push(Kill { id: expired[i].clone(), outcome });
            proof {
                let next = ids.take(i + 1);
                assert(next == ids.take(i as int).push(ids[i as int]));
                assert forall|worker: RuntimeView| #[trigger]
                    none_of(next)(worker) == (none_of(ids.take(i as int))(worker) && other_than(
                        ids[i as int],
                    )(worker)) by {
                    if ids.take(i as int).contains(worker.id) {
                        let at = choose|at: int|
                            0 <= at < ids.take(i as int).len() && ids.take(i as int)[at]
                                == worker.id;
                        assert(next[at] == worker.id);
                    }
                    if worker.id == ids[i as int] {
                        assert(next[i as int] == worker.id);
                    }
                }
                lemma_filter_twice(
                    before,
                    none_of(ids.take(i as int)),
                    other_than(ids[i as int]),
                    none_of(next),
                );
                assert(killed_ids(kills@) =~= killed_ids(done).push(ids[i as int]));
            }
            i += 1;
        }
        assert(ids.take(i as int) == ids);
        let spawned = if self.runtime_list.is_empty() {
            Some(self.init())
        } else {
            None
        };
        proof {
            if let Some(worker) = spawned_worker(spawned) {
                assert(self.roster() =~= seq![worker]);
            }
        }
        GcReport { now_ms, kills, spawned }
    }

    /// One tick of the reaper at the time on the system's clock, which the
    /// report names.
    pub fn gc(&mut self) -> (report: GcReport)
        ensures
            killed_ids(report.kills@) == expired_ids(
                old(self).roster(),
                old(self).lifetime(),
                report.now_ms,
            ),
            report.spawned is Some <==> gc_spawns(
                old(self).roster(),
                old(self).lifetime(),
                report.now_ms,
            ),
            final(self).lifetime() == old(self).lifetime(),
            final(self).roster() == gc_roster(
                old(self).roster(),
                old(self).lifetime(),
                report.now_ms,
                spawned_worker(report.spawned),
            ),
    {
        let now = now_ms();
        self.gc_at(now)
    }
}

} // verus!
