//! Faults scheduled for a logical time.

use std::collections::BTreeMap;

use vstd::arithmetic::div_mod;
use vstd::prelude::*;

use crate::fault_type::FaultType;
use crate::text;

verus! {

broadcast use vstd::laws_cmp::group_laws_cmp;

/// A scheduled fault to be injected at a specific time.
#[derive(Debug)]
pub struct ScheduledFault {
    /// Logical time (nanoseconds) at which to inject the fault.
    pub time_ns: u64,
    /// Type of fault to inject.
    pub fault_type: FaultType,
    /// Optional target filter (task name, path, etc.).
    pub target: Option<String>,
    /// Whether this scheduled fault has been consumed.
    pub consumed: bool,
}

impl Clone for ScheduledFault {
    fn clone(&self) -> (fault: Self)
        ensures
            fault == *self,
    {
        let target: Option<String> = match &self.target {
            Some(filter) => Some(filter.clone()),
            None => None,
        };
        ScheduledFault {
            time_ns: self.time_ns,
            fault_type: self.fault_type,
            target,
            consumed: self.consumed,
        }
    }
}

/// The faults held under each time.
pub type Buckets = Map<u64, Seq<ScheduledFault>>;

/// Whether a scheduled fault answers a check of the given type and target: it
/// has not been consumed, it is of that type, and its filter, if it has one,
/// occurs in the target.
pub open spec fn eligible(
    fault: ScheduledFault,
    fault_type: FaultType,
    target: Seq<char>,
) -> bool {
    &&& !fault.consumed
    &&& fault.fault_type == fault_type
    &&& fault.target matches Some(filter) ==> text::contains_text(target, filter@)
}

/// Whether some fault of a bucket is eligible.
pub open spec fn has_eligible(
    bucket: Seq<ScheduledFault>,
    fault_type: FaultType,
    target: Seq<char>,
) -> bool {
    exists|i: int| 0 <= i < bucket.len() && eligible(#[trigger] bucket[i], fault_type, target)
}

/// Whether `i` is the position of the first eligible fault of a bucket.
pub open spec fn is_first_eligible(
    bucket: Seq<ScheduledFault>,
    fault_type: FaultType,
    target: Seq<char>,
    i: int,
) -> bool {
    &&& 0 <= i < bucket.len()
    &&& eligible(bucket[i], fault_type, target)
    &&& forall|j: int| 0 <= j < i ==> !eligible(#[trigger] bucket[j], fault_type, target)
}

/// The position of the first eligible fault of a bucket that has one.
pub open spec fn first_eligible(
    bucket: Seq<ScheduledFault>,
    fault_type: FaultType,
    target: Seq<char>,
) -> int {
    choose|i: int| is_first_eligible(bucket, fault_type, target, i)
}

/// A fault once it has been consumed.
pub open spec fn fired(fault: ScheduledFault) -> ScheduledFault {
    ScheduledFault { consumed: true, ..fault }
}

/// Whether every fault of a bucket has been consumed.
pub open spec fn all_consumed(bucket: Seq<ScheduledFault>) -> bool {
    forall|i: int| 0 <= i < bucket.len() ==> (#[trigger] bucket[i]).consumed
}

/// Whether `time` is the earliest time up to `now` that holds an eligible fault.
pub open spec fn is_due_time(
    buckets: Buckets,
    fault_type: FaultType,
    now: u64,
    target: Seq<char>,
    time: u64,
) -> bool {
    &&& buckets.contains_key(time)
    &&& time <= now
    &&& has_eligible(buckets[time], fault_type, target)
    &&& forall|t: u64|
        t < time && #[trigger] buckets.contains_key(t) ==> !has_eligible(
            buckets[t],
            fault_type,
            target,
        )
}

/// The earliest time up to `now` that holds an eligible fault, if there is one.
pub open spec fn due_time(
    buckets: Buckets,
    fault_type: FaultType,
    now: u64,
    target: Seq<char>,
) -> Option<u64> {
    if exists|t: u64| is_due_time(buckets, fault_type, now, target, t) {
        Some(choose|t: u64| is_due_time(buckets, fault_type, now, target, t))
    } else {
        None
    }
}

/// The fault that a check consumes, if any: the first eligible one of the
/// earliest time that has one.
pub open spec fn due_fault(
    buckets: Buckets,
    fault_type: FaultType,
    now: u64,
    target: Seq<char>,
) -> Option<ScheduledFault> {
    match due_time(buckets, fault_type, now, target) {
        Some(t) => Some(fired(buckets[t][first_eligible(buckets[t], fault_type, target)])),
        None => None,
    }
}

/// A bucket after its first eligible fault has been consumed.
pub open spec fn with_first_fired(
    bucket: Seq<ScheduledFault>,
    fault_type: FaultType,
    target: Seq<char>,
) -> Seq<ScheduledFault> {
    let i = first_eligible(bucket, fault_type, target);
    bucket.update(i, fired(bucket[i]))
}

/// What is left when the buckets up to `limit` without unconsumed faults go.
pub open spec fn swept(buckets: Buckets, limit: u64) -> Buckets {
    Map::new(
        |t: u64| buckets.contains_key(t) && !(t <= limit && all_consumed(buckets[t])),
        |t: u64| buckets[t],
    )
}

/// The schedule after a check.
///
/// A check visits the times in ascending order, up to and including the one
/// whose fault it consumes, or up to `now` if it consumes none, and drops each
/// bucket on its way that has nothing left to consume.
pub open spec fn after_check(
    buckets: Buckets,
    fault_type: FaultType,
    now: u64,
    target: Seq<char>,
) -> Buckets {
    match due_time(buckets, fault_type, now, target) {
        Some(t) => swept(
            buckets.insert(t, with_first_fired(buckets[t], fault_type, target)),
            t,
        ),
        None => swept(buckets, now),
    }
}

/// The schedule with one more fault, behind those of the same time.
pub open spec fn with_fault(buckets: Buckets, fault: ScheduledFault) -> Buckets {
    if buckets.contains_key(fault.time_ns) {
        buckets.insert(fault.time_ns, buckets[fault.time_ns].push(fault))
    } else {
        buckets.insert(fault.time_ns, seq![fault])
    }
}

/// The number of faults of a bucket that have not been consumed.
pub open spec fn unconsumed_in(bucket: Seq<ScheduledFault>) -> nat
    decreases bucket.len(),
{
    if bucket.len() == 0 {
        0
    } else {
        unconsumed_in(bucket.drop_last()) + if bucket.last().consumed {
            0nat
        } else {
            1nat
        }
    }
}

/// The number of faults for times before `end` that have not been consumed.
pub open spec fn unconsumed_before(buckets: Buckets, end: nat) -> nat
    decreases end,
{
    if end == 0 {
        0
    } else {
        let t = (end - 1) as nat;
        unconsumed_before(buckets, t) + if t <= u64::MAX && buckets.contains_key(t as u64) {
            unconsumed_in(buckets[t as u64])
        } else {
            0
        }
    }
}

/// The number of faults of a schedule that have not been consumed.
pub open spec fn unconsumed(buckets: Buckets) -> nat {
    unconsumed_before(buckets, u64::MAX as nat + 1)
}

/// The invariant of a schedule: no bucket is empty, and each fault is held
/// under its own time.
pub open spec fn well_formed(buckets: Buckets) -> bool {
    forall|t: u64| #[trigger]
        buckets.contains_key(t) ==> buckets[t].len() > 0 && forall|i: int|
            0 <= i < buckets[t].len() ==> (#[trigger] buckets[t][i]).time_ns == t
}

/// The faults scheduled so far, grouped by their time.
#[derive(Debug)]
pub struct FaultSchedule {
    buckets: BTreeMap<u64, Vec<ScheduledFault>>,
}

/// Whether `all` lists the entries of a map in ascending order of their times.
spec fn lists_entries(
    all: Seq<(&u64, &Vec<ScheduledFault>)>,
    buckets: Map<u64, Vec<ScheduledFault>>,
) -> bool {
    &&& forall|i: int|
        0 <= i < all.len() ==> buckets.contains_key(*(#[trigger] all[i]).0)
            && buckets[*all[i].0] == *all[i].1
    &&& forall|i: int, j: int|
        0 <= i < j < all.len() ==> *(#[trigger] all[i]).0 < *(#[trigger] all[j]).0
    &&& forall|t: u64| #[trigger]
        buckets.contains_key(t) ==> exists|i: int|
            0 <= i < all.len() && *(#[trigger] all[i]).0 == t
}

/// Whether `times` holds the times of a map up to `now`, in ascending order.
spec fn holds_times(
    times: Seq<u64>,
    buckets: Map<u64, Vec<ScheduledFault>>,
    now: u64,
) -> bool {
    &&& forall|t: u64| times.contains(t) <==> (buckets.contains_key(t) && t <= now)
    &&& forall|i: int, j: int| 0 <= i < j < times.len() ==> times[i] < times[j]
}

/// Entries in increasing order that are those of the map list the map.
proof fn lemma_lists_entries(
    all: Seq<(&u64, &Vec<ScheduledFault>)>,
    buckets: Map<u64, Vec<ScheduledFault>>,
)
    requires
        vstd::std_specs::btree::increasing_seq(
            all.map_values(|entry: (&u64, &Vec<ScheduledFault>)| *entry.0),
        ),
        forall|i: int|
            0 <= i < all.len() ==> #[trigger] buckets.contains_key(*all[i].0)
                && buckets[*all[i].0] == *all[i].1,
        forall|t: u64| #[trigger]
            buckets.contains_key(t) ==> all.contains((&t, &buckets[t])),
    ensures
        lists_entries(all, buckets),
{
    let times = all.map_values(|entry: (&u64, &Vec<ScheduledFault>)| *entry.0);
    assert(vstd::laws_cmp::obeys_cmp::<u64>());
    assert forall|i: int, j: int| 0 <= i < j < all.len() implies *(#[trigger] all[i]).0 < *(
    #[trigger] all[j]).0 by {
        assert(times[i] == *all[i].0);
        assert(times[j] == *all[j].0);
        assert(vstd::std_specs::cmp::OrdSpec::cmp_spec(&times[i], &times[j]) is Less);
    }
    assert forall|i: int| 0 <= i < all.len() implies buckets.contains_key(
        *(#[trigger] all[i]).0,
    ) && buckets[*all[i].0] == *all[i].1 by {
        assert(buckets.contains_key(*all[i].0));
    }
    assert forall|t: u64| #[trigger] buckets.contains_key(t) implies exists|i: int|
        0 <= i < all.len() && *(#[trigger] all[i]).0 == t by {
        let i = choose|i: int| 0 <= i < all.len() && all[i] == (&t, &buckets[t]);
        assert(*all[i].0 == t);
    }
}

/// The times of the entries before the first one later than `now` are all the
/// times up to `now`.
proof fn lemma_prefix(
    all: Seq<(&u64, &Vec<ScheduledFault>)>,
    buckets: Map<u64, Vec<ScheduledFault>>,
    times: Seq<u64>,
    now: u64,
)
    requires
        lists_entries(all, buckets),
        times.len() <= all.len(),
        forall|i: int|
            0 <= i < times.len() ==> times[i] == *(#[trigger] all[i]).0 && times[i] <= now,
    ensures
        times.len() == all.len() || *all[times.len() as int].0 > now ==> holds_times(
            times,
            buckets,
            now,
        ),
{
    assert forall|i: int, j: int| 0 <= i < j < times.len() implies times[i] < times[j] by {
        assert(*all[i].0 < *all[j].0);
    }
    assert forall|t: u64| times.contains(t) implies buckets.contains_key(t) && t <= now by {
        let i = choose|i: int| 0 <= i < times.len() && times[i] == t;
        assert(times[i] == *all[i].0);
    }
    if times.len() == all.len() || *all[times.len() as int].0 > now {
        assert forall|t: u64| buckets.contains_key(t) && t <= now implies times.contains(t) by {
            let i = choose|i: int| 0 <= i < all.len() && *(#[trigger] all[i]).0 == t;
            if i >= times.len() {
                assert(*all[times.len() as int].0 <= *all[i].0);
            }
            assert(times[i] == t);
        }
    }
}

/// The earliest time is unique.
proof fn lemma_due_time(
    buckets: Buckets,
    fault_type: FaultType,
    now: u64,
    target: Seq<char>,
    time: u64,
)
    requires
        is_due_time(buckets, fault_type, now, target, time),
    ensures
        due_time(buckets, fault_type, now, target) == Some(time),
{
    let chosen = choose|t: u64| is_due_time(buckets, fault_type, now, target, t);
    assert(is_due_time(buckets, fault_type, now, target, chosen));
}

/// The first position is unique.
proof fn lemma_first_eligible(
    bucket: Seq<ScheduledFault>,
    fault_type: FaultType,
    target: Seq<char>,
    i: int,
)
    requires
        is_first_eligible(bucket, fault_type, target, i),
    ensures
        first_eligible(bucket, fault_type, target) == i,
{
    let chosen = choose|k: int| is_first_eligible(bucket, fault_type, target, k);
    assert(is_first_eligible(bucket, fault_type, target, chosen));
}

/// A bucket with an eligible fault has a first one.
pub proof fn lemma_has_first_eligible(
    bucket: Seq<ScheduledFault>,
    fault_type: FaultType,
    target: Seq<char>,
    i: int,
)
    requires
        0 <= i < bucket.len(),
        eligible(bucket[i], fault_type, target),
    ensures
        is_first_eligible(
            bucket,
            fault_type,
            target,
            first_eligible(bucket, fault_type, target),
        ),
    decreases i,
{
    if exists|j: int| 0 <= j < i && eligible(#[trigger] bucket[j], fault_type, target) {
        let j = choose|j: int| 0 <= j < i && eligible(#[trigger] bucket[j], fault_type, target);
        lemma_has_first_eligible(bucket, fault_type, target, j);
    } else {
        assert(is_first_eligible(bucket, fault_type, target, i));
    }
}

/// Adding a fault keeps a schedule well-formed.
pub proof fn lemma_with_fault_well_formed(buckets: Buckets, fault: ScheduledFault)
    requires
        well_formed(buckets),
    ensures
        well_formed(with_fault(buckets, fault)),
{
    let after = with_fault(buckets, fault);
    assert forall|t: u64| #[trigger] after.contains_key(t) implies after[t].len() > 0 && forall|i|
        0 <= i < after[t].len() ==> (#[trigger] after[t][i]).time_ns == t by {
        if buckets.contains_key(t) && t == fault.time_ns {
            assert forall|i: int| 0 <= i < after[t].len() implies (
            #[trigger] after[t][i]).time_ns == t by {
                if i < buckets[t].len() {
                    assert(after[t][i] == buckets[t][i]);
                }
            }
        }
    }
}

/// A check keeps a schedule well-formed.
pub proof fn lemma_after_check_well_formed(
    buckets: Buckets,
    fault_type: FaultType,
    now: u64,
    target: Seq<char>,
)
    requires
        well_formed(buckets),
    ensures
        well_formed(after_check(buckets, fault_type, now, target)),
{
    let after = after_check(buckets, fault_type, now, target);
    assert forall|t: u64| #[trigger] after.contains_key(t) implies after[t].len() > 0 && forall|i|
        0 <= i < after[t].len() ==> (#[trigger] after[t][i]).time_ns == t by {
        match due_time(buckets, fault_type, now, target) {
            Some(due) => {
                assert(is_due_time(buckets, fault_type, now, target, due));
                assert(buckets.contains_key(t));
                if t == due {
                    let k = choose|k: int|
                        0 <= k < buckets[t].len() && eligible(
                            #[trigger] buckets[t][k],
                            fault_type,
                            target,
                        );
                    lemma_has_first_eligible(buckets[t], fault_type, target, k);
                    assert forall|i: int| 0 <= i < after[t].len() implies (
                    #[trigger] after[t][i]).time_ns == t by {
                        assert(buckets[t][i].time_ns == t);
                    }
                }
            },
            None => {},
        }
    }
}

/// Times without a bucket add nothing.
proof fn lemma_unconsumed_gap(buckets: Buckets, from: nat, to: nat)
    requires
        from <= to,
        forall|t: u64| from <= t < to ==> !#[trigger] buckets.contains_key(t),
    ensures
        unconsumed_before(buckets, from) == unconsumed_before(buckets, to),
    decreases to,
{
    if from < to {
        lemma_unconsumed_gap(buckets, from, (to - 1) as nat);
    }
}

/// Whether a walk over `times` that stands at position `i` has passed time `t`.
spec fn passed(times: Seq<u64>, now: u64, i: int, t: u64) -> bool {
    t <= now && (i < times.len() ==> t < times[i])
}

/// What a walk passes with its next step, and that it starts with nothing.
proof fn lemma_passed(
    times: Seq<u64>,
    buckets: Map<u64, Vec<ScheduledFault>>,
    now: u64,
    i: int,
)
    requires
        holds_times(times, buckets, now),
        0 <= i <= times.len(),
    ensures
        forall|t: u64| #[trigger] buckets.contains_key(t) ==> !passed(times, now, 0, t),
        i < times.len() ==> forall|t: u64| #[trigger]
            buckets.contains_key(t) ==> passed(times, now, i + 1, t) == (passed(times, now, i, t)
                || t == times[i]),
        i < times.len() ==> buckets.contains_key(times[i]) && times[i] <= now,
{
    assert forall|t: u64| #[trigger] buckets.contains_key(t) implies !passed(times, now, 0, t) by {
        if t <= now {
            assert(times.contains(t));
        }
    }
    if i < times.len() {
        assert(times.contains(times[i]));
        assert forall|t: u64| #[trigger] buckets.contains_key(t) implies passed(
            times,
            now,
            i + 1,
            t,
        ) == (passed(times, now, i, t) || t == times[i]) by {
            if t <= now {
                assert(times.contains(t));
                let k = choose|k: int| 0 <= k < times.len() && times[k] == t;
                if k < i {
                    assert(times[k] < times[i]);
                } else if k > i {
                    assert(times[i] < times[k]);
                }
                if i + 1 < times.len() {
                    assert(times[i] < times[i + 1]);
                }
            }
        }
    }
}

/// The time of entry `n`, or the end of all times behind the last entry.
spec fn reach(all: Seq<(&u64, &Vec<ScheduledFault>)>, n: int) -> nat {
    if n < all.len() {
        *all[n].0 as nat
    } else {
        u64::MAX as nat + 1
    }
}

/// Before the first entry there is nothing to count.
proof fn lemma_unconsumed_start(
    all: Seq<(&u64, &Vec<ScheduledFault>)>,
    buckets: Map<u64, Vec<ScheduledFault>>,
)
    requires
        lists_entries(all, buckets),
    ensures
        unconsumed_before(
            buckets.map_values(|bucket: Vec<ScheduledFault>| bucket@),
            reach(all, 0),
        ) == 0,
{
    let views = buckets.map_values(|bucket: Vec<ScheduledFault>| bucket@);
    let end = reach(all, 0);
    assert forall|t: u64| 0 <= t < end implies !#[trigger] views.contains_key(t) by {
        if buckets.contains_key(t) {
            let k = choose|k: int| 0 <= k < all.len() && *(#[trigger] all[k]).0 == t;
            assert(*all[0].0 <= *all[k].0);
        }
    }
    lemma_unconsumed_gap(views, 0, end);
}

/// One more entry adds the count of its bucket.
proof fn lemma_unconsumed_step(
    all: Seq<(&u64, &Vec<ScheduledFault>)>,
    buckets: Map<u64, Vec<ScheduledFault>>,
    n: int,
)
    requires
        lists_entries(all, buckets),
        0 <= n,
    ensures
        n < all.len() ==> unconsumed_before(
            buckets.map_values(|bucket: Vec<ScheduledFault>| bucket@),
            reach(all, n + 1),
        ) == unconsumed_before(
            buckets.map_values(|bucket: Vec<ScheduledFault>| bucket@),
            reach(all, n),
        ) + unconsumed_in(all[n].1@),
{
    if n < all.len() {
        let views = buckets.map_values(|bucket: Vec<ScheduledFault>| bucket@);
        let time = *all[n].0;
        let end = reach(all, n + 1);
        if n + 1 < all.len() {
            assert(*all[n].0 < *all[n + 1].0);
        }
        assert forall|t: u64| time + 1 <= t < end implies !#[trigger] views.contains_key(t) by {
            if buckets.contains_key(t) {
                let k = choose|k: int| 0 <= k < all.len() && *(#[trigger] all[k]).0 == t;
                if k < n {
                    assert(*all[k].0 < *all[n].0);
                } else if k > n + 1 {
                    assert(*all[n + 1].0 < *all[k].0);
                }
            }
        }
        lemma_unconsumed_gap(views, (time + 1) as nat, end);
        assert(buckets.contains_key(time));
        assert(views[time] == all[n].1@);
    }
}

/// Adding with wrap-around adds modulo the range of the counter.
proof fn lemma_wrapping_sum(total: nat, count: u64, more: u64)
    requires
        count == total % (u64::MAX as nat + 1),
    ensures
        count.wrapping_add(more) == (total + more as nat) % (u64::MAX as nat + 1),
{
    let range = u64::MAX as int + 1;
    div_mod::lemma_fundamental_div_mod(total as int, range);
    let q = total as int / range;
    if count + more < range {
        div_mod::lemma_fundamental_div_mod_converse(total + more, range, q, count + more);
    } else {
        div_mod::lemma_fundamental_div_mod_converse(
            total + more,
            range,
            q + 1,
            count + more - range,
        );
    }
}

/// Whether a fault answers a check.
fn is_eligible(fault: &ScheduledFault, fault_type: FaultType, target: &str) -> (answer: bool)
    ensures
        answer == eligible(*fault, fault_type, target@),
{
    if fault.consumed {
        return false;
    }
    if fault.fault_type != fault_type {
        return false;
    }
    match &fault.target {
        Some(filter) => text::text_contains(target, filter.as_str()),
        None => true,
    }
}

/// The position of the first fault of a bucket that answers a check.
fn find_eligible(
    bucket: &Vec<ScheduledFault>,
    fault_type: FaultType,
    target: &str,
) -> (position: Option<usize>)
    ensures
        match position {
            Some(i) => is_first_eligible(bucket@, fault_type, target@, i as int),
            None => !has_eligible(bucket@, fault_type, target@),
        },
{
    let mut i: usize = 0;
    while i < bucket.len()
        invariant
            i <= bucket@.len(),
            forall|j: int| 0 <= j < i ==> !eligible(#[trigger] bucket@[j], fault_type, target@),
        decreases bucket@.len() - i,
    {
        if is_eligible(&bucket[i], fault_type, target) {
            return Some(i);
        }
        i += 1;
    }
    None
}

/// The number of faults of a bucket that have not been consumed.
fn count_unconsumed(bucket: &Vec<ScheduledFault>) -> (count: usize)
    ensures
        count == unconsumed_in(bucket@),
{
    let mut count: usize = 0;
    let mut i: usize = 0;
    while i < bucket.len()
        invariant
            count <= i <= bucket@.len(),
            count == unconsumed_in(bucket@.take(i as int)),
        decreases bucket@.len() - i,
    {
        assert(bucket@.take(i + 1).drop_last() =~= bucket@.take(i as int));
        if !bucket[i].consumed {
            count += 1;
        }
        i += 1;
    }
    assert(bucket@.take(i as int) =~= bucket@);
    count
}

/// Whether a bucket has nothing left to consume.
fn is_used_up(bucket: &Vec<ScheduledFault>) -> (used_up: bool)
    ensures
        used_up == all_consumed(bucket@),
{
    let mut i: usize = 0;
    while i < bucket.len()
        invariant
            i <= bucket@.len(),
            forall|j: int| 0 <= j < i ==> (#[trigger] bucket@[j]).consumed,
        decreases bucket@.len() - i,
    {
        if !bucket[i].consumed {
            return false;
        }
        i += 1;
    }
    true
}

impl View for FaultSchedule {
    type V = Buckets;

    closed spec fn view(&self) -> Buckets {
        self.buckets@.map_values(|bucket: Vec<ScheduledFault>| bucket@)
    }
}

impl FaultSchedule {
    /// A schedule without faults.
    pub fn new() -> (schedule: FaultSchedule)
        ensures
            schedule@ == Map::<u64, Seq<ScheduledFault>>::empty(),
    {
        let schedule: FaultSchedule = FaultSchedule { buckets: BTreeMap::new() };
        assert(schedule@ =~= Map::<u64, Seq<ScheduledFault>>::empty());
        schedule
    }

    /// Adds a fault, behind those of the same time.
    pub fn add(&mut self, fault: ScheduledFault)
        ensures
            final(self)@ == with_fault(old(self)@, fault),
    {
        let time_ns: u64 = fault.time_ns;
        let mut bucket: Vec<ScheduledFault> = match self.buckets.remove(&time_ns) {
            Some(bucket) => bucket,
            None => Vec::new(),
        };
        bucket.push(fault);
        self.buckets.insert(time_ns, bucket);
        assert(self@ =~= with_fault(old(self)@, fault));
    }

    /// Consumes the first fault of the earliest time up to `now` that answers a
    /// check, if there is one, and drops the buckets that it finds used up.
    pub fn check_scheduled_fault(
        &mut self,
        fault_type: FaultType,
        now: u64,
        target: &str,
    ) -> (consumed: Option<ScheduledFault>)
        ensures
            consumed == due_fault(old(self)@, fault_type, now, target@),
            final(self)@ == after_check(old(self)@, fault_type, now, target@),
    {
        let times: Vec<u64> = self.times_up_to(now);
        let ghost before = self@;
        let ghost text = target@;
        let mut i: usize = 0;
        proof {
            lemma_passed(times@, old(self).buckets@, now, 0);
        }
        while i < times.len()
            invariant
                i <= times@.len(),
                before == old(self)@,
                text == target@,
                holds_times(times@, old(self).buckets@, now),
                forall|t: u64| #[trigger]
                    self@.contains_key(t) <==> before.contains_key(t) && !(passed(
                        times@,
                        now,
                        i as int,
                        t,
                    ) && all_consumed(before[t])),
                forall|t: u64| #[trigger] self@.contains_key(t) ==> self@[t] == before[t],
                forall|t: u64| #[trigger]
                    before.contains_key(t) && passed(times@, now, i as int, t) ==> !has_eligible(
                        before[t],
                        fault_type,
                        text,
                    ),
            decreases times@.len() - i,
        {
            let time: u64 = times[i];
            let ghost here = self@;
            proof {
                lemma_passed(times@, old(self).buckets@, now, i as int);
                assert(times@.contains(time));
                assert(before.contains_key(time));
                assert(here.contains_key(time));
            }
            let mut bucket: Vec<ScheduledFault> = match self.buckets.remove(&time) {
                Some(bucket) => bucket,
                None => Vec::new(),
            };
            assert(bucket@ == before[time]);
            assert(self@ =~= here.remove(time));
            let found: Option<usize> = find_eligible(&bucket, fault_type, target);
            let mut consumed: Option<ScheduledFault> = None;
            if let Some(k) = found {
                let mut fault: ScheduledFault = bucket[k].clone();
                fault.consumed = true;
                consumed = Some(fault.clone());
                bucket.set(k, fault);
                proof {
                    lemma_first_eligible(before[time], fault_type, text, k as int);
                    assert(bucket@ == with_first_fired(before[time], fault_type, text));
                    assert(eligible(before[time][k as int], fault_type, text));
                    lemma_due_time(before, fault_type, now, text, time);
                }
            }
            let ghost bucket_now = bucket@;
            if !is_used_up(&bucket) {
                self.buckets.insert(time, bucket);
                assert(self@ =~= here.insert(time, bucket_now));
            }
            if consumed.is_some() {
                assert(self@ =~= after_check(before, fault_type, now, text));
                return consumed;
            }
            i += 1;
        }
        proof {
            assert forall|t: u64| !is_due_time(before, fault_type, now, text, t) by {
                if before.contains_key(t) && t <= now {
                    assert(passed(times@, now, i as int, t));
                }
            }
            assert(self@ =~= after_check(before, fault_type, now, text));
        }
        None
    }

    /// The number of faults that have not been consumed, modulo the range of the
    /// counter.
    pub fn count(&self) -> (count: u64)
        ensures
            count == unconsumed(self@) % (u64::MAX as nat + 1),
    {
        let mut count: u64 = 0;
        let iter = self.buckets.iter();
        proof {
            lemma_lists_entries(
                vstd::std_specs::iter::IteratorSpec::remaining(&iter),
                self.buckets@,
            );
            lemma_unconsumed_start(
                vstd::std_specs::iter::IteratorSpec::remaining(&iter),
                self.buckets@,
            );
        }
        for entry in it: iter
            invariant
                lists_entries(it.seq(), self.buckets@),
                it.index() <= it.seq().len(),
                count == unconsumed_before(self@, reach(it.seq(), it.index() as int)) % (
                u64::MAX as nat + 1),
        {
            let more: u64 = count_unconsumed(entry.1) as u64;
            proof {
                lemma_unconsumed_step(it.seq(), self.buckets@, it.index() as int);
                lemma_wrapping_sum(
                    unconsumed_before(self@, reach(it.seq(), it.index() as int)),
                    count,
                    more,
                );
            }
            count = count.wrapping_add(more);
        }
        count
    }

    /// The times up to `now` for which something is scheduled, in ascending order.
    fn times_up_to(&self, now: u64) -> (times: Vec<u64>)
        ensures
            holds_times(times@, self.buckets@, now),
    {
        let mut times: Vec<u64> = Vec::new();
        let iter = self.buckets.iter();
        proof {
            lemma_lists_entries(vstd::std_specs::iter::IteratorSpec::remaining(&iter), self.buckets@);
        }
        for entry in it: iter
            invariant
                lists_entries(it.seq(), self.buckets@),
                times@.len() == it.index() <= it.seq().len(),
                forall|i: int|
                    0 <= i < times@.len() ==> times@[i] == *(#[trigger] it.seq()[i]).0 && times@[i]
                        <= now,
                it.index() == it.seq().len() ==> holds_times(times@, self.buckets@, now),
        {
            let time: u64 = *entry.0;
            if time > now {
                proof {
                    lemma_prefix(it.seq(), self.buckets@, times@, now);
                }
                return times;
            }
            times.push(time);
            proof {
                lemma_prefix(it.seq(), self.buckets@, times@, now);
            }
        }
        times
    }
}

} // verus!
