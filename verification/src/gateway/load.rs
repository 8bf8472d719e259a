//! The builds that run at the same time.

use vstd::prelude::*;
use std::hash::{BuildHasher, Hash};
use std::time::Duration;
use ttl_cache::TtlCache;

verus! {

/// `ttl_cache::TtlCache`, a cache whose entries are forgotten after a while.
#[verifier::external_type_specification]
#[verifier::external_body]
#[verifier::reject_recursive_types(K)]
#[verifier::reject_recursive_types(V)]
#[verifier::reject_recursive_types(S)]
pub struct ExTtlCache<K: Eq + Hash, V, S: BuildHasher>(TtlCache<K, V, S>);

/// The entries that a cache holds, those that are past their time among them, in the order in which
/// they were last inserted: each key with the seconds that it was inserted for. The cache itself
/// keeps the end of that time, as the clock showed it.
pub uninterp spec fn cached_entries(cache: TtlCache<u128, ()>) -> Seq<(u128, u64)>;

/// The number of entries that a cache was made for.
pub uninterp spec fn cache_limit(cache: TtlCache<u128, ()>) -> usize;

/// Whether an entry has this key.
pub open spec fn holds(entries: Seq<(u128, u64)>, key: u128) -> bool {
    exists|i: int| 0 <= i < entries.len() && (#[trigger] entries[i]).0 == key
}

/// Whether no two entries have the same key.
pub open spec fn distinct(entries: Seq<(u128, u64)>) -> bool {
    forall|i: int, j: int|
        0 <= i < j < entries.len() ==> (#[trigger] entries[i]).0 != (#[trigger] entries[j]).0
}

/// The entries without that of a key.
pub open spec fn without(entries: Seq<(u128, u64)>, key: u128) -> Seq<(u128, u64)> {
    entries.filter(|e: (u128, u64)| e.0 != key)
}

/// The entries after a key was inserted for a number of seconds: it is the last, and the first
/// makes room for it where there is none.
pub open spec fn inserted(
    entries: Seq<(u128, u64)>,
    key: u128,
    seconds: u64,
    limit: usize,
) -> Seq<(u128, u64)> {
    let all = without(entries, key).push((key, seconds));
    if all.len() > limit {
        all.skip(1)
    } else {
        all
    }
}

/// An empty cache for `capacity` entries, by `TtlCache::new`.
#[verifier::external_body]
fn new_cache(capacity: usize) -> (r: TtlCache<u128, ()>)
    ensures
        cached_entries(r) == Seq::<(u128, u64)>::empty(),
        cache_limit(r) == capacity,
{
    TtlCache::new(capacity)
}

/// Inserts a key for a number of seconds, by `TtlCache::insert`. A key that was there moves to the
/// end and is kept for the new time, and the oldest entry leaves a cache that would hold too many.
/// The result tells whether the key was there and not past its time; of one that was not there that
/// is false. The clock has to reach the end of the time, which it does for any number of minutes in
/// 32 bits. When the entry is past its time is up to the clock, and not stated.
#[verifier::external_body]
fn insert(cache: &mut TtlCache<u128, ()>, key: u128, seconds: u64) -> (r: bool)
    requires
        seconds <= 60 * u32::MAX,
    ensures
        cached_entries(*final(cache)) == inserted(
            cached_entries(*old(cache)),
            key,
            seconds,
            cache_limit(*old(cache)),
        ),
        cache_limit(*final(cache)) == cache_limit(*old(cache)),
        r ==> holds(cached_entries(*old(cache)), key),
{
    cache.insert(key, (), Duration::from_secs(seconds)).is_some()
}

/// Removes the entry of a key, by `TtlCache::remove`.
#[verifier::external_body]
fn remove(cache: &mut TtlCache<u128, ()>, key: u128)
    ensures
        cached_entries(*final(cache)) == without(cached_entries(*old(cache)), key),
        cache_limit(*final(cache)) == cache_limit(*old(cache)),
{
    cache.remove(&key);
}

/// Removes every entry, by `TtlCache::clear`.
#[verifier::external_body]
fn clear(cache: &mut TtlCache<u128, ()>)
    ensures
        cached_entries(*final(cache)) == Seq::<(u128, u64)>::empty(),
        cache_limit(*final(cache)) == cache_limit(*old(cache)),
{
    cache.clear();
}

/// Counts the entries that are not past their time, by `TtlCache::iter`. On the way some of the
/// oldest entries may leave the cache, all of them past their time. Which entries are past their
/// time is up to the clock.
#[verifier::external_body]
fn count_active(cache: &mut TtlCache<u128, ()>) -> (r: usize)
    ensures
        cached_entries(*final(cache)).is_suffix_of(cached_entries(*old(cache))),
        cache_limit(*final(cache)) == cache_limit(*old(cache)),
        r <= cached_entries(*final(cache)).len(),
{
    cache.iter().count()
}

/// The number of entries that a cache was made for, by `TtlCache::capacity`.
#[verifier::external_body]
fn capacity(cache: &TtlCache<u128, ()>) -> (r: usize)
    ensures
        r == cache_limit(*cache),
{
    cache.capacity()
}

/// `num_cpus::get` tells how many logical cores there are, which is at least one. How many there
/// are is up to the machine.
pub assume_specification[ num_cpus::get ]() -> (r: usize)
    ensures
        r >= 1,
;

/// How busy the builders are.
#[derive(Debug, Clone, Copy, PartialEq, Eq, Structural)]
pub struct LoadResponse {
    /// The builds that run.
    pub builds_count: usize,
    /// Whether one more may start.
    pub has_capacity: bool,
}

/// How busy the builders are when `active` builds run out of `capacity`.
pub open spec fn load_of(active: usize, capacity: usize) -> LoadResponse {
    LoadResponse { builds_count: active, has_capacity: active < capacity }
}

/// How busy the builders are when `active` builds run out of `capacity`.
pub fn load(active: usize, capacity: usize) -> (r: LoadResponse)
    ensures
        r == load_of(active, capacity),
        r.builds_count == active,
        r.has_capacity <==> active < capacity,
{
    LoadResponse { builds_count: active, has_capacity: active < capacity }
}

/// How busy the builders are once a build was let in, which counts unless it ran before.
pub open spec fn with_build(load: LoadResponse, ran_before: bool) -> LoadResponse {
    if ran_before {
        load
    } else {
        LoadResponse { builds_count: (load.builds_count + 1) as usize, ..load }
    }
}

/// How busy the builders are once a build was let in.
pub fn let_in(load: LoadResponse, ran_before: bool) -> (r: LoadResponse)
    requires
        load.builds_count < usize::MAX,
    ensures
        r == with_build(load, ran_before),
        r.builds_count == load.builds_count + (if ran_before {
            0int
        } else {
            1int
        }),
        r.has_capacity == load.has_capacity,
{
    if ran_before {
        load
    } else {
        LoadResponse { builds_count: load.builds_count + 1, has_capacity: load.has_capacity }
    }
}

/// The builds that may run at the same time on a machine: about four cores for each, on at most
/// three quarters of all cores, and at least one.
pub open spec fn concurrent_builds(cores: usize) -> int {
    let builds = cores * 3 / 4 / 4;
    if builds >= 1 {
        builds
    } else {
        1
    }
}

/// The builds that may run at the same time on a machine with this many cores.
pub fn max_builds(cores: usize) -> (r: usize)
    ensures
        r == concurrent_builds(cores),
        r == (if cores * 3 >= 16 {
            cores * 3 / 16
        } else {
            1
        }),
{
    // Three sixteenths of the cores, taken apart so that the product fits.
    let builds: usize = 3 * (cores / 16) + 3 * (cores % 16) / 16;
    if builds >= 1 {
        builds
    } else {
        1
    }
}

/// More builds than one leave a quarter of the cores alone, with four cores for each.
pub proof fn law_builds_leave_cores(cores: usize)
    ensures
        concurrent_builds(cores) >= 1,
        concurrent_builds(cores) > 1 ==> 4 * concurrent_builds(cores) <= 3 * cores / 4,
{
}

/// The seconds that a build may take when it is let in for a number of minutes.
pub fn build_seconds(exp_minutes: u32) -> (r: u64)
    ensures
        r == 60 * exp_minutes,
{
    60 * exp_minutes as u64
}

/// Whether a request to let a build in for a number of seconds was decided as it should, while
/// `active` of the builds `before` run: `after` are the builds that are kept, and `r` is the
/// answer. Where there is no room, nothing changes. Where there is, the build is let in, and it
/// counts unless it ran before, which the clock has a say in if it is among the builds `before`.
pub open spec fn decision(
    before: Seq<(u128, u64)>,
    active: usize,
    limit: usize,
    id: u128,
    seconds: u64,
    after: Seq<(u128, u64)>,
    r: LoadResponse,
) -> bool {
    if active < limit {
        &&& after == inserted(before, id, seconds, limit)
        &&& r == with_build(load_of(active, limit), false) || (holds(before, id) && r == with_build(
            load_of(active, limit),
            true,
        ))
    } else {
        after == before && r == load_of(active, limit)
    }
}

/// The builds that run, each by its number.
pub struct RunningBuilds {
    cache: TtlCache<u128, ()>,
}

impl RunningBuilds {
    /// The builds, from the one that was let in first to the one that was let in last, each with
    /// the seconds that it may take. Some of them may be past their time.
    pub closed spec fn builds(&self) -> Seq<(u128, u64)> {
        cached_entries(self.cache)
    }

    /// The builds that may run at the same time.
    pub closed spec fn limit(&self) -> usize {
        cache_limit(self.cache)
    }

    /// No build is there twice, and there are not too many.
    pub open spec fn wf(&self) -> bool {
        distinct(self.builds()) && self.builds().len() <= self.limit()
    }

    /// No builds, with room for this many.
    pub fn new(limit: usize) -> (r: Self)
        ensures
            r.wf(),
            r.builds() == Seq::<(u128, u64)>::empty(),
            r.limit() == limit,
    {
        RunningBuilds { cache: new_cache(limit) }
    }

    /// No builds, with room for as many as this machine can take.
    pub fn for_this_machine() -> (r: Self)
        ensures
            r.wf(),
            r.builds() == Seq::<(u128, u64)>::empty(),
            r.limit() >= 1,
            exists|cores: usize| cores >= 1 && r.limit() == #[trigger] concurrent_builds(cores),
    {
        RunningBuilds::new(max_builds(num_cpus::get()))
    }

    /// Counts the builds that run. Those that are past their time do not count, and some of the
    /// oldest of them are forgotten on the way; which ones are past their time is up to the clock.
    fn count(&mut self) -> (r: usize)
        requires
            old(self).wf(),
        ensures
            final(self).wf(),
            final(self).limit() == old(self).limit(),
            final(self).builds().is_suffix_of(old(self).builds()),
            r <= final(self).builds().len(),
    {
        let active: usize = count_active(&mut self.cache);
        proof {
            lemma_suffix(self.builds(), old(self).builds());
        }
        active
    }

    /// How busy the builders are. Builds that are past their time do not count; which ones are is
    /// up to the clock.
    pub fn calculate_capacity(&mut self) -> (r: LoadResponse)
        requires
            old(self).wf(),
        ensures
            final(self).wf(),
            final(self).limit() == old(self).limit(),
            final(self).builds().is_suffix_of(old(self).builds()),
            r == load_of(r.builds_count, old(self).limit()),
            r.builds_count <= final(self).builds().len(),
    {
        let active: usize = self.count();
        load(active, capacity(&self.cache))
    }

    /// Decides on a request to let a build in for this many minutes, while `active` builds run: it
    /// is let in if there is room, and refused if not.
    pub fn decide(&mut self, active: usize, id: u128, exp_minutes: u32) -> (r: LoadResponse)
        requires
            old(self).wf(),
            active <= old(self).builds().len(),
        ensures
            final(self).wf(),
            final(self).limit() == old(self).limit(),
            decision(
                old(self).builds(),
                active,
                old(self).limit(),
                id,
                (60 * exp_minutes) as u64,
                final(self).builds(),
                r,
            ),
    {
        let load = load(active, capacity(&self.cache));
        if load.has_capacity {
            let seconds: u64 = build_seconds(exp_minutes);
            let ran_before = insert(&mut self.cache, id, seconds);
            proof {
                lemma_inserted(old(self).builds(), id, seconds, self.limit());
            }
            let_in(load, ran_before)
        } else {
            load
        }
    }

    /// Lets a build in for this many minutes if there is room, and tells how busy the builders are
    /// then. Only the clock can make room where the builds are as many as may run.
    pub fn post_load(&mut self, id: u128, exp_minutes: u32) -> (r: LoadResponse)
        requires
            old(self).wf(),
        ensures
            final(self).wf(),
            final(self).limit() == old(self).limit(),
            exists|left: Seq<(u128, u64)>, active: usize|
                left.is_suffix_of(old(self).builds()) && active <= left.len()
                    && #[trigger] decision(
                    left,
                    active,
                    old(self).limit(),
                    id,
                    (60 * exp_minutes) as u64,
                    final(self).builds(),
                    r,
                ),
            old(self).builds().len() < old(self).limit() ==> r.has_capacity,
            r.has_capacity ==> final(self).builds().len() > 0 && final(self).builds().last() == (
                id,
                (60 * exp_minutes) as u64,
            ),
            r.has_capacity ==> r.builds_count <= old(self).limit(),
            r.has_capacity && !holds(old(self).builds(), id) ==> 1 <= r.builds_count
                <= final(self).builds().len(),
            !r.has_capacity ==> final(self).builds().is_suffix_of(old(self).builds()),
            !r.has_capacity ==> r.builds_count == old(self).limit(),
    {
        let active: usize = self.count();
        let ghost left = self.builds();
        let load = self.decide(active, id, exp_minutes);
        proof {
            let seconds = (60 * exp_minutes) as u64;
            assert(decision(left, active, self.limit(), id, seconds, self.builds(), load));
            lemma_inserted(left, id, seconds, self.limit());
            lemma_without(left, id);
            lemma_suffix(left, old(self).builds());
        }
        load
    }

    /// Forgets a build, and keeps the others.
    pub fn forget(&mut self, id: u128)
        requires
            old(self).wf(),
        ensures
            final(self).wf(),
            final(self).limit() == old(self).limit(),
            final(self).builds() == without(old(self).builds(), id),
    {
        proof {
            lemma_without(self.builds(), id);
        }
        remove(&mut self.cache, id);
    }

    /// Forgets a build, and tells how busy the builders are then. One that was there makes room.
    pub fn delete_load(&mut self, id: u128) -> (r: LoadResponse)
        requires
            old(self).wf(),
        ensures
            final(self).wf(),
            final(self).limit() == old(self).limit(),
            final(self).builds().is_suffix_of(without(old(self).builds(), id)),
            !holds(final(self).builds(), id),
            r == load_of(r.builds_count, old(self).limit()),
            r.builds_count <= final(self).builds().len(),
            holds(old(self).builds(), id) ==> r.has_capacity,
    {
        self.forget(id);
        let ghost kept = self.builds();
        let load = self.calculate_capacity();
        proof {
            lemma_without(old(self).builds(), id);
            lemma_suffix(self.builds(), kept);
        }
        load
    }

    /// Tells an administrator how busy the builders are.
    pub fn get_load_admin(&mut self) -> (r: LoadResponse)
        requires
            old(self).wf(),
        ensures
            final(self).wf(),
            final(self).limit() == old(self).limit(),
            final(self).builds().is_suffix_of(old(self).builds()),
            r == load_of(r.builds_count, old(self).limit()),
            r.builds_count <= final(self).builds().len(),
    {
        self.calculate_capacity()
    }

    /// Forgets every build.
    pub fn delete_load_admin(&mut self) -> (r: LoadResponse)
        requires
            old(self).wf(),
        ensures
            final(self).wf(),
            final(self).limit() == old(self).limit(),
            final(self).builds() == Seq::<(u128, u64)>::empty(),
            r == load_of(0, old(self).limit()),
    {
        clear(&mut self.cache);
        let load = self.calculate_capacity();
        assert(self.builds() =~= Seq::<(u128, u64)>::empty());
        load
    }
}

proof fn lemma_suffix(part: Seq<(u128, u64)>, all: Seq<(u128, u64)>)
    requires
        part.is_suffix_of(all),
    ensures
        part.len() <= all.len(),
        distinct(all) ==> distinct(part),
        forall|k: u128| #[trigger] holds(part, k) ==> holds(all, k),
{
    let skipped = all.len() - part.len();
    assert forall|i: int| 0 <= i < part.len() implies (#[trigger] part[i]) == all[i + skipped] by {}
    assert forall|k: u128| #[trigger] holds(part, k) implies holds(all, k) by {
        let i = choose|i: int| 0 <= i < part.len() && (#[trigger] part[i]).0 == k;
        assert(all[i + skipped].0 == k);
    }
}

proof fn lemma_holds_push(entries: Seq<(u128, u64)>, last: (u128, u64))
    ensures
        forall|k: u128| #[trigger]
            holds(entries.push(last), k) <==> holds(entries, k) || k == last.0,
        distinct(entries.push(last)) <==> distinct(entries) && !holds(entries, last.0),
{
    let all = entries.push(last);
    assert(all[entries.len() as int] == last);
    assert forall|i: int| 0 <= i < entries.len() implies (#[trigger] all[i]) == entries[i] by {}
    assert forall|k: u128| #[trigger] holds(all, k) <==> holds(entries, k) || k == last.0 by {
        if holds(entries, k) {
            let i = choose|i: int| 0 <= i < entries.len() && (#[trigger] entries[i]).0 == k;
            assert(all[i].0 == k);
        }
        if holds(all, k) && k != last.0 {
            let i = choose|i: int| 0 <= i < all.len() && (#[trigger] all[i]).0 == k;
            assert(entries[i].0 == k);
        }
    }
    if distinct(all) {
        assert forall|i: int, j: int| 0 <= i < j < entries.len() implies (
        #[trigger] entries[i]).0 != (#[trigger] entries[j]).0 by {
            assert(all[i].0 != all[j].0);
        }
        if holds(entries, last.0) {
            let i = choose|i: int| 0 <= i < entries.len() && (#[trigger] entries[i]).0 == last.0;
            assert(all[i].0 == all[entries.len() as int].0);
        }
    }
}

proof fn lemma_without(entries: Seq<(u128, u64)>, key: u128)
    ensures
        forall|k: u128| #[trigger]
            holds(without(entries, key), k) <==> holds(entries, k) && k != key,
        distinct(entries) ==> distinct(without(entries, key)),
        without(entries, key).len() <= entries.len(),
        distinct(entries) && holds(entries, key) ==> without(entries, key).len() + 1
            == entries.len(),
        !holds(entries, key) ==> without(entries, key) == entries,
    decreases entries.len(),
{
    reveal(Seq::filter);
    if entries.len() > 0 {
        let init = entries.drop_last();
        let last = entries.last();
        lemma_without(init, key);
        assert(entries =~= init.push(last));
        lemma_holds_push(init, last);
        if last.0 != key {
            assert(without(entries, key) == without(init, key).push(last));
            lemma_holds_push(without(init, key), last);
        } else {
            assert(without(entries, key) == without(init, key));
            assert(holds(entries, key));
        }
    }
}

proof fn lemma_inserted(entries: Seq<(u128, u64)>, key: u128, seconds: u64, limit: usize)
    requires
        distinct(entries),
        entries.len() <= limit,
    ensures
        distinct(inserted(entries, key, seconds, limit)),
        inserted(entries, key, seconds, limit).len() <= limit,
        limit > 0 ==> inserted(entries, key, seconds, limit).len() > 0,
        limit > 0 ==> inserted(entries, key, seconds, limit).last() == (key, seconds),
{
    lemma_without(entries, key);
    let part = without(entries, key);
    lemma_holds_push(part, (key, seconds));
    let all = part.push((key, seconds));
    if all.len() > limit {
        lemma_suffix(all.skip(1), all);
    }
}

/// A build that is let in again takes no second place.
pub proof fn law_let_in_twice(
    builds: Seq<(u128, u64)>,
    id: u128,
    seconds: u64,
    limit: usize,
)
    requires
        distinct(builds),
        builds.len() <= limit,
        limit > 0,
    ensures
        inserted(inserted(builds, id, seconds, limit), id, seconds, limit) == inserted(
            builds,
            id,
            seconds,
            limit,
        ),
{
    lemma_inserted(builds, id, seconds, limit);
    let once = inserted(builds, id, seconds, limit);
    let init = once.drop_last();
    assert(once =~= init.push((id, seconds)));
    lemma_holds_push(init, (id, seconds));
    lemma_without(init, id);
    reveal(Seq::filter);
    assert(without(once, id) == init);
}

/// A build that is let in while there is room leaves no trace when it is forgotten.
pub proof fn law_forgotten_leaves_no_trace(
    builds: Seq<(u128, u64)>,
    id: u128,
    seconds: u64,
    limit: usize,
)
    requires
        builds.len() < limit,
        !holds(builds, id),
    ensures
        without(inserted(builds, id, seconds, limit), id) == builds,
{
    lemma_without(builds, id);
    reveal(Seq::filter);
    assert(builds.push((id, seconds)).drop_last() =~= builds);
}

/// To forget a build that is not there changes nothing, so to forget one twice is to forget it
/// once. The other builds are kept.
pub proof fn law_forgetting_keeps_the_others(builds: Seq<(u128, u64)>, id: u128)
    ensures
        !holds(builds, id) ==> without(builds, id) == builds,
        without(without(builds, id), id) == without(builds, id),
        forall|other: u128|
            other != id ==> (#[trigger] holds(without(builds, id), other) <==> holds(builds, other)),
{
    lemma_without(builds, id);
    lemma_without(without(builds, id), id);
}

/// A machine takes three builds for every sixteen cores, rounded down, and never less than one.
pub proof fn law_builds_for_cores(cores: usize)
    ensures
        3 * cores < 16 ==> concurrent_builds(cores) == 1,
        3 * cores >= 16 ==> 16 * concurrent_builds(cores) <= 3 * cores < 16 * (concurrent_builds(
            cores,
        ) + 1),
{
}

/// There is room exactly while fewer builds run than may, and a build that is let in counts once
/// unless it ran before.
pub proof fn law_load_of_builds(active: usize, capacity: usize, load: LoadResponse)
    requires
        load.builds_count < usize::MAX,
    ensures
        load_of(active, capacity).builds_count == active,
        load_of(active, capacity).has_capacity <==> active < capacity,
        with_build(load, false).builds_count == load.builds_count + 1,
        with_build(load, true).builds_count == load.builds_count,
        with_build(load, false).has_capacity == load.has_capacity,
        with_build(load, true).has_capacity == load.has_capacity,
{
}

proof fn lemma_without_is_filter(
    entries: Seq<(u128, u64)>,
    key: u128,
    p: spec_fn((u128, u64)) -> bool,
)
    requires
        forall|e: (u128, u64)| #[trigger] p(e) <==> e.0 != key,
    ensures
        without(entries, key) == entries.filter(p),
    decreases entries.len(),
{
    reveal(Seq::filter);
    if entries.len() > 0 {
        lemma_without_is_filter(entries.drop_last(), key, p);
        assert(p(entries.last()) <==> entries.last().0 != key);
    }
}

/// To forget a build is to drop the entries with its number, and no others.
pub proof fn law_forgetting_drops_one_number(builds: Seq<(u128, u64)>, id: u128)
    ensures
        without(builds, id) == builds.filter(|e: (u128, u64)| e.0 != id),
        holds(builds, id) <==> exists|i: int|
            0 <= i < builds.len() && (#[trigger] builds[i]).0 == id,
        distinct(builds) <==> forall|i: int, j: int|
            0 <= i < j < builds.len() ==> (#[trigger] builds[i]).0 != (#[trigger] builds[j]).0,
{
    lemma_without_is_filter(builds, id, |e: (u128, u64)| e.0 != id);
}

/// A build that is let in is the last, for its own time. The others stay as they were, and only
/// where that would be one too many the first of them leaves.
pub proof fn law_letting_in_keeps_the_others(
    builds: Seq<(u128, u64)>,
    id: u128,
    seconds: u64,
    limit: usize,
)
    ensures
        ({
            let others = builds.filter(|e: (u128, u64)| e.0 != id);
            let all = others.push((id, seconds));
            &&& all.len() <= limit ==> inserted(builds, id, seconds, limit) == all
            &&& all.len() > limit ==> inserted(builds, id, seconds, limit) == all.subrange(
                1,
                all.len() as int,
            )
        }),
{
    lemma_without_is_filter(builds, id, |e: (u128, u64)| e.0 != id);
    let all = without(builds, id).push((id, seconds));
    assert(all.skip(1) =~= all.subrange(1, all.len() as int));
}

/// A request is refused exactly if as many builds run as may, and then nothing changes. Otherwise
/// the build is let in for its time, and it counts as one more if it was not there.
pub proof fn law_count_decides(
    before: Seq<(u128, u64)>,
    active: usize,
    limit: usize,
    id: u128,
    seconds: u64,
    after: Seq<(u128, u64)>,
    r: LoadResponse,
)
    requires
        decision(before, active, limit, id, seconds, after, r),
        before.len() <= limit,
        distinct(before),
    ensures
        r.has_capacity <==> active < limit,
        active >= limit ==> after == before && r.builds_count == active,
        active < limit ==> after.len() > 0 && after[after.len() - 1] == (id, seconds),
        active < limit ==> r.builds_count == active || r.builds_count == active + 1,
        active < limit && (forall|i: int| 0 <= i < before.len() ==> (#[trigger] before[i]).0 != id)
            ==> r.builds_count == active + 1,
        active < limit && before.len() < limit && (forall|i: int|
            0 <= i < before.len() ==> (#[trigger] before[i]).0 != id) ==> after == before.push(
            (id, seconds),
        ),
{
    lemma_inserted(before, id, seconds, limit);
    lemma_without(before, id);
}

} // verus!
