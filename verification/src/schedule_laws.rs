//! What holds of scheduled faults.

use vstd::prelude::*;

use crate::fault_injection;
use crate::fault_injection::InjectorState;
use crate::fault_laws;
use crate::fault_laws::History;
use crate::fault_laws::Operation;
use crate::fault_type::FaultType;
use crate::schedule;
use crate::schedule::Buckets;
use crate::schedule::ScheduledFault;
use crate::text;

verus! {

/// Where some time up to `now` holds an eligible fault, there is an earliest one.
proof fn lemma_earliest(
    buckets: Buckets,
    fault_type: FaultType,
    now: u64,
    target: Seq<char>,
    time: u64,
)
    requires
        buckets.contains_key(time),
        time <= now,
        schedule::has_eligible(buckets[time], fault_type, target),
    ensures
        exists|t: u64| schedule::is_due_time(buckets, fault_type, now, target, t),
    decreases time,
{
    if exists|t: u64|
        t < time && #[trigger] buckets.contains_key(t) && schedule::has_eligible(
            buckets[t],
            fault_type,
            target,
        ) {
        let t = choose|t: u64|
            t < time && #[trigger] buckets.contains_key(t) && schedule::has_eligible(
                buckets[t],
                fault_type,
                target,
            );
        lemma_earliest(buckets, fault_type, now, target, t);
    } else {
        assert(schedule::is_due_time(buckets, fault_type, now, target, time));
    }
}

/// A check consumes a scheduled fault exactly if the schedule holds one that is
/// eligible and whose time has come.
pub proof fn due_exactly_if_some_fault_is_eligible(
    buckets: Buckets,
    fault_type: FaultType,
    now: u64,
    target: Seq<char>,
)
    ensures
        schedule::due_fault(buckets, fault_type, now, target) is Some <==> exists|t: u64|
            t <= now && #[trigger] buckets.contains_key(t) && schedule::has_eligible(
                buckets[t],
                fault_type,
                target,
            ),
{
    if exists|t: u64|
        t <= now && #[trigger] buckets.contains_key(t) && schedule::has_eligible(
            buckets[t],
            fault_type,
            target,
        ) {
        let t = choose|t: u64|
            t <= now && #[trigger] buckets.contains_key(t) && schedule::has_eligible(
                buckets[t],
                fault_type,
                target,
            );
        lemma_earliest(buckets, fault_type, now, target, t);
    }
    if schedule::due_time(buckets, fault_type, now, target) is Some {
        let t = schedule::due_time(buckets, fault_type, now, target).unwrap();
        assert(schedule::is_due_time(buckets, fault_type, now, target, t));
    }
}

/// The bucket at the due time has a first eligible fault.
pub proof fn lemma_due_position(
    buckets: Buckets,
    fault_type: FaultType,
    now: u64,
    target: Seq<char>,
    time: u64,
)
    requires
        schedule::due_time(buckets, fault_type, now, target) == Some(time),
    ensures
        schedule::is_due_time(buckets, fault_type, now, target, time),
        schedule::is_first_eligible(
            buckets[time],
            fault_type,
            target,
            schedule::first_eligible(buckets[time], fault_type, target),
        ),
{
    assert(schedule::is_due_time(buckets, fault_type, now, target, time));
    let k = choose|k: int|
        0 <= k < buckets[time].len() && schedule::eligible(
            #[trigger] buckets[time][k],
            fault_type,
            target,
        );
    schedule::lemma_has_first_eligible(buckets[time], fault_type, target, k);
}

/// A consumed fault is of the type that was checked for, its time has come, its
/// filter, if it has one, occurs in the target, and it is marked as consumed.
pub proof fn consumed_fault_answers_the_check(
    buckets: Buckets,
    fault_type: FaultType,
    now: u64,
    target: Seq<char>,
    fault: ScheduledFault,
)
    requires
        schedule::well_formed(buckets),
        schedule::due_fault(buckets, fault_type, now, target) == Some(fault),
    ensures
        fault.consumed,
        fault.fault_type == fault_type,
        fault.time_ns <= now,
        fault.target matches Some(filter) ==> text::contains_text(target, filter@),
{
    let time = schedule::due_time(buckets, fault_type, now, target).unwrap();
    lemma_due_position(buckets, fault_type, now, target, time);
}

/// A check leaves alone what is scheduled for later.
pub proof fn later_faults_are_untouched(
    buckets: Buckets,
    fault_type: FaultType,
    now: u64,
    target: Seq<char>,
    time: u64,
)
    requires
        time > now,
    ensures
        schedule::after_check(buckets, fault_type, now, target).contains_key(time)
            == buckets.contains_key(time),
        buckets.contains_key(time) ==> schedule::after_check(
            buckets,
            fault_type,
            now,
            target,
        )[time] == buckets[time],
{
    if schedule::due_time(buckets, fault_type, now, target) is Some {
        let t = schedule::due_time(buckets, fault_type, now, target).unwrap();
        lemma_due_position(buckets, fault_type, now, target, t);
    }
}

/// A bucket without unconsumed faults counts nothing.
proof fn lemma_all_consumed_counts_nothing(bucket: Seq<ScheduledFault>)
    requires
        schedule::all_consumed(bucket),
    ensures
        schedule::unconsumed_in(bucket) == 0,
    decreases bucket.len(),
{
    if bucket.len() > 0 {
        let rest = bucket.drop_last();
        assert forall|i: int| 0 <= i < rest.len() implies (#[trigger] rest[i]).consumed by {
            assert(rest[i] == bucket[i]);
        }
        lemma_all_consumed_counts_nothing(rest);
    }
}

/// Consuming one fault of a bucket takes one off its count.
proof fn lemma_one_fired(bucket: Seq<ScheduledFault>, i: int)
    requires
        0 <= i < bucket.len(),
        !bucket[i].consumed,
    ensures
        schedule::unconsumed_in(bucket) == schedule::unconsumed_in(bucket.update(i, schedule::fired(bucket[i]))) + 1,
    decreases bucket.len(),
{
    let after = bucket.update(i, schedule::fired(bucket[i]));
    if i == bucket.len() - 1 {
        assert(after.drop_last() =~= bucket.drop_last());
    } else {
        assert(after.drop_last() =~= bucket.drop_last().update(i, schedule::fired(bucket[i])));
        assert(bucket.drop_last()[i] == bucket[i]);
        lemma_one_fired(bucket.drop_last(), i);
    }
}

/// Sweeping changes no count.
proof fn lemma_sweep_counts(buckets: Buckets, limit: u64, end: nat)
    ensures
        schedule::unconsumed_before(schedule::swept(buckets, limit), end) == schedule::unconsumed_before(buckets, end),
    decreases end,
{
    if end > 0 {
        let t = (end - 1) as nat;
        lemma_sweep_counts(buckets, limit, t);
        if t <= u64::MAX && buckets.contains_key(t as u64) && schedule::all_consumed(
            buckets[t as u64],
        ) {
            lemma_all_consumed_counts_nothing(buckets[t as u64]);
        }
    }
}

/// Replacing one bucket changes the count by the difference of the two.
proof fn lemma_replaced_counts(
    buckets: Buckets,
    time: u64,
    bucket: Seq<ScheduledFault>,
    end: nat,
)
    requires
        buckets.contains_key(time),
    ensures
        schedule::unconsumed_before(buckets.insert(time, bucket), end) + (if time < end {
            schedule::unconsumed_in(buckets[time])
        } else {
            0
        }) == schedule::unconsumed_before(buckets, end) + (if time < end {
            schedule::unconsumed_in(bucket)
        } else {
            0
        }),
    decreases end,
{
    if end > 0 {
        lemma_replaced_counts(buckets, time, bucket, (end - 1) as nat);
    }
}

/// A scheduled fault fires at most once: a check that consumes a fault leaves
/// one unconsumed fault less, and any other check leaves their number as it is.
pub proof fn each_scheduled_fault_fires_once(
    buckets: Buckets,
    fault_type: FaultType,
    now: u64,
    target: Seq<char>,
)
    ensures
        schedule::unconsumed(buckets) == schedule::unconsumed(
            schedule::after_check(buckets, fault_type, now, target),
        ) + (if schedule::due_fault(buckets, fault_type, now, target) is Some {
            1nat
        } else {
            0nat
        }),
{
    let end = u64::MAX as nat + 1;
    match schedule::due_time(buckets, fault_type, now, target) {
        Some(time) => {
            lemma_due_position(buckets, fault_type, now, target, time);
            let i = schedule::first_eligible(buckets[time], fault_type, target);
            let bucket = schedule::with_first_fired(buckets[time], fault_type, target);
            lemma_one_fired(buckets[time], i);
            lemma_replaced_counts(buckets, time, bucket, end);
            lemma_sweep_counts(buckets.insert(time, bucket), time, end);
        },
        None => {
            lemma_sweep_counts(buckets, now, end);
        },
    }
}

/// A check forgets no fault that is still to come: an unconsumed one is held
/// unchanged afterwards, unless it is the one that the check consumed.
pub proof fn unconsumed_faults_are_kept(
    buckets: Buckets,
    fault_type: FaultType,
    now: u64,
    target: Seq<char>,
    time: u64,
    i: int,
)
    requires
        buckets.contains_key(time),
        0 <= i < buckets[time].len(),
        !buckets[time][i].consumed,
        !(schedule::due_time(buckets, fault_type, now, target) == Some(time)
            && schedule::first_eligible(buckets[time], fault_type, target) == i),
    ensures
        schedule::after_check(buckets, fault_type, now, target).contains_key(time),
        schedule::after_check(buckets, fault_type, now, target)[time].len()
            == buckets[time].len(),
        schedule::after_check(buckets, fault_type, now, target)[time][i] == buckets[time][i],
{
    match schedule::due_time(buckets, fault_type, now, target) {
        Some(due) => {
            lemma_due_position(buckets, fault_type, now, target, due);
            if due == time {
                let bucket = schedule::with_first_fired(buckets[time], fault_type, target);
                assert(bucket[i] == buckets[time][i]);
                assert(!schedule::all_consumed(bucket));
            }
        },
        None => {},
    }
}

/// Once the only fault that answers a check has been consumed, the same check
/// finds none.
pub proof fn consumed_fault_does_not_fire_again(
    buckets: Buckets,
    fault_type: FaultType,
    now: u64,
    target: Seq<char>,
    later: u64,
)
    requires
        schedule::due_fault(buckets, fault_type, now, target) is Some,
        forall|t: u64, i: int|
            #![trigger buckets[t][i]]
            buckets.contains_key(t) && t <= later && 0 <= i < buckets[t].len()
                && schedule::eligible(buckets[t][i], fault_type, target)
                ==> schedule::due_time(buckets, fault_type, now, target) == Some(t) && i
                == schedule::first_eligible(buckets[t], fault_type, target),
    ensures
        schedule::due_fault(
            schedule::after_check(buckets, fault_type, now, target),
            fault_type,
            later,
            target,
        ) is None,
{
    let after = schedule::after_check(buckets, fault_type, now, target);
    let due = schedule::due_time(buckets, fault_type, now, target).unwrap();
    lemma_due_position(buckets, fault_type, now, target, due);
    due_exactly_if_some_fault_is_eligible(after, fault_type, later, target);
    assert forall|t: u64| t <= later && #[trigger] after.contains_key(t) implies
        !schedule::has_eligible(after[t], fault_type, target) by {
        assert forall|i: int| 0 <= i < after[t].len() implies !schedule::eligible(
            #[trigger] after[t][i],
            fault_type,
            target,
        ) by {
            assert(buckets.contains_key(t));
            let old_fault = buckets[t][i];
            if schedule::eligible(old_fault, fault_type, target) {
                assert(t == due);
            }
        }
    }
}

/// An enabled injector faults whenever a scheduled fault is due, whatever the
/// random word and the probabilities; a disabled one never faults and keeps
/// its schedule.
pub proof fn scheduled_faults_come_first(
    state: InjectorState,
    fault_type: FaultType,
    target: Seq<char>,
    now: u64,
    word: u64,
)
    ensures
        state.enabled && schedule::due_fault(state.schedule, fault_type, now, target) is Some
            ==> fault_injection::outcome_with_word(
            state,
            fault_type,
            target,
            now,
            word,
        ).should_fault,
        !state.enabled ==> fault_injection::outcome_with_word(
            state,
            fault_type,
            target,
            now,
            word,
        ) == fault_injection::no_fault_outcome() && fault_injection::state_with_word(
            state,
            fault_type,
            target,
            now,
            word,
        ).schedule == state.schedule,
{
}

/// Adding a fault changes the count by that fault, at its time only.
proof fn lemma_added_counts(buckets: Buckets, fault: ScheduledFault, end: nat)
    ensures
        schedule::unconsumed_before(schedule::with_fault(buckets, fault), end)
            == schedule::unconsumed_before(buckets, end) + (if fault.time_ns < end
            && !fault.consumed {
            1nat
        } else {
            0nat
        }),
    decreases end,
{
    if end > 0 {
        lemma_added_counts(buckets, fault, (end - 1) as nat);
        if buckets.contains_key(fault.time_ns) {
            let bucket = buckets[fault.time_ns];
            assert(bucket.push(fault).drop_last() =~= bucket);
        } else {
            assert(seq![fault].drop_last() =~= Seq::<ScheduledFault>::empty());
            assert(schedule::unconsumed_in(seq![fault].drop_last()) == 0);
        }
    }
}

/// Scheduling a fault adds one to the number of faults that have not been
/// consumed; a fault that is marked as consumed adds none.
pub proof fn scheduling_adds_one(buckets: Buckets, fault: ScheduledFault)
    ensures
        schedule::unconsumed(schedule::with_fault(buckets, fault)) == schedule::unconsumed(buckets)
            + (if fault.consumed {
            0nat
        } else {
            1nat
        }),
{
    lemma_added_counts(buckets, fault, u64::MAX as nat + 1);
}

/// A check never adds to the number of faults that have not been consumed.
pub proof fn checks_add_nothing(
    buckets: Buckets,
    fault_type: FaultType,
    now: u64,
    target: Seq<char>,
)
    ensures
        schedule::unconsumed(schedule::after_check(buckets, fault_type, now, target))
            <= schedule::unconsumed(buckets),
{
    each_scheduled_fault_fires_once(buckets, fault_type, now, target);
}

/// In an empty schedule there is nothing to count.
proof fn lemma_empty_counts(end: nat)
    ensures
        schedule::unconsumed_before(Map::empty(), end) == 0,
    decreases end,
{
    if end > 0 {
        lemma_empty_counts((end - 1) as nat);
    }
}

/// A new injector, and so one that has been reset, shows nothing in its
/// statistics: it is disabled, has performed no checks and injected no faults,
/// and no fault is pending and no probability set.
pub proof fn new_injector_shows_nothing(seed: u64)
    ensures
        fault_injection::stats_of(fault_injection::initial_state(seed)) == (
        fault_injection::StatsView {
            enabled: false,
            checks_performed: 0,
            faults_injected: 0,
            scheduled_faults_pending: 0,
            probabilities: Map::empty(),
        }),
        schedule::unconsumed(fault_injection::initial_state(seed).schedule) == 0,
{
    lemma_empty_counts(u64::MAX as nat + 1);
}

/// The number of unconsumed faults that a call schedules.
pub open spec fn faults_scheduled_by(call: Operation) -> nat {
    match call {
        Operation::Schedule(fault) => if fault.consumed {
            0
        } else {
            1
        },
        _ => 0,
    }
}

/// The number of scheduled faults that a call consumes in the given state.
pub open spec fn faults_consumed_by(state: InjectorState, call: Operation) -> nat {
    let (fault_type, target, now) = match call {
        Operation::Check(fault_type, target, now) => (fault_type, target, now),
        Operation::FdCheck(fault_type, _, target, now) => (fault_type, target, now),
        _ => (FaultType::DiskWrite, Seq::empty(), 0),
    };
    if fault_laws::makes_check(state, call) && state.enabled && schedule::due_fault(
        state.schedule,
        fault_type,
        now,
        target,
    ) is Some {
        1
    } else {
        0
    }
}

/// The number of faults scheduled since the last reset among the first `n` calls.
pub open spec fn scheduled_since_reset(calls: Seq<Operation>, n: nat) -> nat
    decreases n,
{
    if n == 0 || calls[n - 1] is Reset {
        0
    } else {
        scheduled_since_reset(calls, (n - 1) as nat) + faults_scheduled_by(calls[n - 1])
    }
}

/// The number of scheduled faults consumed since the last reset among the first
/// `n` calls.
pub open spec fn consumed_since_reset(history: History, calls: Seq<Operation>, n: nat) -> nat
    decreases n,
{
    if n == 0 || calls[n - 1] is Reset {
        0
    } else {
        consumed_since_reset(history, calls, (n - 1) as nat) + faults_consumed_by(
            history.states[n - 1],
            calls[n - 1],
        )
    }
}

/// The faults pending are those that have been scheduled since the last reset
/// and not been consumed.
pub proof fn pending_faults_are_accounted_for(
    history: History,
    seed: u64,
    calls: Seq<Operation>,
    n: nat,
)
    requires
        fault_laws::records(history, seed, calls),
        n <= calls.len(),
    ensures
        schedule::unconsumed(history.states[n as int].schedule) + consumed_since_reset(
            history,
            calls,
            n,
        ) == scheduled_since_reset(calls, n),
    decreases n,
{
    new_injector_shows_nothing(seed);
    if n > 0 {
        let state = history.states[n - 1];
        let call = calls[n - 1];
        assert(history.states[n - 1 + 1] == fault_laws::state_after(state, call));
        pending_faults_are_accounted_for(history, seed, calls, (n - 1) as nat);
        match call {
            Operation::Schedule(fault) => {
                scheduling_adds_one(state.schedule, fault);
            },
            Operation::Check(fault_type, target, now) => {
                each_scheduled_fault_fires_once(state.schedule, fault_type, now, target);
            },
            Operation::FdCheck(fault_type, _, target, now) => {
                each_scheduled_fault_fires_once(state.schedule, fault_type, now, target);
            },
            Operation::Reset => {
                new_injector_shows_nothing(state.seed);
            },
            _ => {},
        }
    }
}

} // verus!
