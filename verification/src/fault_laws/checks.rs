//! What a fault check decides, told by what the injector holds.

use vstd::arithmetic::power2;
use vstd::prelude::*;

use crate::fault_injection;
use crate::fault_injection::CheckOutcome;
use crate::fault_injection::InjectorState;
use crate::fault_laws::numbers;
use crate::fault_type;
use crate::fault_type::FaultType;
use crate::probability;
use crate::schedule;
use crate::schedule::Buckets;
use crate::schedule::ScheduledFault;
use crate::schedule_laws;
use crate::text;

verus! {

/// Whether position `i` under `time` holds a fault that has not been consumed, is
/// of the given type, and has no target or one whose characters stand in the
/// given target from position `at` on.
pub open spec fn answers(
    buckets: Buckets,
    fault_type: FaultType,
    target: Seq<char>,
    time: u64,
    i: int,
    at: int,
) -> bool {
    &&& buckets.contains_key(time)
    &&& 0 <= i < buckets[time].len()
    &&& !buckets[time][i].consumed
    &&& buckets[time][i].fault_type == fault_type
    &&& match buckets[time][i].target {
        Some(filter) => numbers::stands_at(target, filter@, at),
        None => true,
    }
}

/// What answers a check is eligible for it.
proof fn lemma_answers_is_eligible(
    buckets: Buckets,
    fault_type: FaultType,
    target: Seq<char>,
    time: u64,
    i: int,
    at: int,
)
    requires
        answers(buckets, fault_type, target, time, i, at),
    ensures
        schedule::eligible(buckets[time][i], fault_type, target),
        schedule::has_eligible(buckets[time], fault_type, target),
{
    if buckets[time][i].target is Some {
        let filter = buckets[time][i].target->0;
        numbers::occurrence_is_a_run_of_characters(target, filter@);
    }
}

/// What is eligible for a check answers it from some position on.
proof fn lemma_eligible_answers(
    buckets: Buckets,
    fault_type: FaultType,
    target: Seq<char>,
    time: u64,
    i: int,
) -> (at: int)
    requires
        buckets.contains_key(time),
        0 <= i < buckets[time].len(),
        schedule::eligible(buckets[time][i], fault_type, target),
    ensures
        answers(buckets, fault_type, target, time, i, at),
{
    if buckets[time][i].target is Some {
        let filter = buckets[time][i].target->0;
        numbers::occurrence_is_a_run_of_characters(target, filter@);
        choose|at: int| #[trigger] numbers::stands_at(target, filter@, at)
    } else {
        0
    }
}

/// A fault that is scheduled fires: if an enabled injector holds, for a time that
/// has come, a fault that has not been consumed, is of the type that is checked
/// for, and has no target or one that stands in the target of the check as a run
/// of characters, then the check faults, whatever the random word.
pub proof fn scheduled_fault_fires(
    state: InjectorState,
    fault_type: FaultType,
    target: Seq<char>,
    now: u64,
    word: u64,
    time: u64,
    i: int,
    at: int,
)
    requires
        state.enabled,
        time <= now,
        state.schedule.contains_key(time),
        0 <= i < state.schedule[time].len(),
        !state.schedule[time][i].consumed,
        state.schedule[time][i].fault_type == fault_type,
        state.schedule[time][i].target matches Some(filter) ==> 0 <= at <= target.len()
            - filter@.len() && forall|k: int|
            0 <= k < filter@.len() ==> target[at + k] == #[trigger] filter@[k],
    ensures
        schedule::due_fault(state.schedule, fault_type, now, target) is Some,
        fault_injection::outcome_with_word(
            state,
            fault_type,
            target,
            now,
            word,
        ).should_fault,
        fault_injection::check_outcome(state, fault_type, target, now).should_fault,
{
    assert(answers(state.schedule, fault_type, target, time, i, at));
    lemma_answers_is_eligible(state.schedule, fault_type, target, time, i, at);
    schedule_laws::due_exactly_if_some_fault_is_eligible(
        state.schedule,
        fault_type,
        now,
        target,
    );
}

/// A check that consumes a scheduled fault consumes one that answers it, whose
/// time has come, and among those the one of the earliest time, and at that time
/// the one scheduled first. It is marked as consumed; every other fault stays as
/// it is, and none is added. A time is dropped exactly if it is not later than
/// that of the consumed fault and none of its faults is left to consume.
pub proof fn check_consumes_the_earliest(
    buckets: Buckets,
    fault_type: FaultType,
    target: Seq<char>,
    now: u64,
) -> (found: (u64, int, int))
    requires
        schedule::due_fault(buckets, fault_type, now, target) is Some,
    ensures
        found.0 <= now,
        answers(buckets, fault_type, target, found.0, found.1, found.2),
        forall|time: u64, i: int, at: int| #[trigger]
            answers(buckets, fault_type, target, time, i, at) ==> found.0 < time || (found.0
                == time && found.1 <= i),
        schedule::due_fault(buckets, fault_type, now, target) == Some(
            ScheduledFault { consumed: true, ..buckets[found.0][found.1] },
        ),
        ({
            let after = schedule::after_check(buckets, fault_type, now, target);
            &&& forall|time: u64| #[trigger]
                after.contains_key(time) ==> buckets.contains_key(time) && after[time].len()
                    == buckets[time].len()
            &&& forall|time: u64, i: int|
                #![trigger after[time][i]]
                after.contains_key(time) && 0 <= i < after[time].len() ==> after[time][i] == (
                if time == found.0 && i == found.1 {
                    ScheduledFault { consumed: true, ..buckets[time][i] }
                } else {
                    buckets[time][i]
                })
            &&& forall|time: u64| #[trigger]
                buckets.contains_key(time) ==> (after.contains_key(time) <==> time > found.0
                    || exists|i: int|
                    0 <= i < buckets[time].len() && !(#[trigger] buckets[time][i]).consumed && !(
                    time == found.0 && i == found.1))
        }),
{
    let time = schedule::due_time(buckets, fault_type, now, target)->0;
    schedule_laws::lemma_due_position(buckets, fault_type, now, target, time);
    let i = schedule::first_eligible(buckets[time], fault_type, target);
    let at = lemma_eligible_answers(buckets, fault_type, target, time, i);
    assert forall|time2: u64, i2: int, at2: int| #[trigger]
        answers(buckets, fault_type, target, time2, i2, at2) implies time < time2 || (time
        == time2 && i <= i2) by {
        lemma_answers_is_eligible(buckets, fault_type, target, time2, i2, at2);
    }
    let after = schedule::after_check(buckets, fault_type, now, target);
    let fired = schedule::with_first_fired(buckets[time], fault_type, target);
    let inserted = buckets.insert(time, fired);
    assert forall|t: u64| #[trigger] buckets.contains_key(t) implies (after.contains_key(t)
        <==> t > time || exists|k: int|
        0 <= k < buckets[t].len() && !(#[trigger] buckets[t][k]).consumed && !(t == time && k
            == i)) by {
        if exists|k: int|
            0 <= k < buckets[t].len() && !(#[trigger] buckets[t][k]).consumed && !(t == time && k
                == i) {
            let k = choose|k: int|
                0 <= k < buckets[t].len() && !(#[trigger] buckets[t][k]).consumed && !(t == time
                    && k == i);
            assert(inserted[t][k] == buckets[t][k]);
            assert(!schedule::all_consumed(inserted[t]));
        } else {
            assert forall|k: int| 0 <= k < inserted[t].len() implies (
            #[trigger] inserted[t][k]).consumed by {
                if !(t == time && k == i) {
                    assert(inserted[t][k] == buckets[t][k]);
                }
            }
            assert(schedule::all_consumed(inserted[t]));
        }
    }
    (time, i, at)
}

/// A check that consumes no scheduled fault found none that answers it and whose
/// time has come. Every time that has come and has nothing left to consume is
/// dropped, and nothing else changes.
pub proof fn check_without_due_fault(
    buckets: Buckets,
    fault_type: FaultType,
    target: Seq<char>,
    now: u64,
)
    requires
        schedule::due_fault(buckets, fault_type, now, target) is None,
    ensures
        forall|time: u64, i: int, at: int| #[trigger]
            answers(buckets, fault_type, target, time, i, at) ==> time > now,
        ({
            let after = schedule::after_check(buckets, fault_type, now, target);
            &&& forall|time: u64| #[trigger]
                after.contains_key(time) ==> buckets.contains_key(time) && after[time]
                    == buckets[time]
            &&& forall|time: u64| #[trigger]
                buckets.contains_key(time) ==> (after.contains_key(time) <==> time > now
                    || exists|i: int|
                    0 <= i < buckets[time].len() && !(#[trigger] buckets[time][i]).consumed)
        }),
{
    assert forall|time: u64, i: int, at: int| #[trigger]
        answers(buckets, fault_type, target, time, i, at) implies time > now by {
        lemma_answers_is_eligible(buckets, fault_type, target, time, i, at);
        schedule_laws::due_exactly_if_some_fault_is_eligible(buckets, fault_type, now, target);
    }
}

/// The roll decides where no scheduled fault is due: a check of an enabled
/// injector faults exactly if the fault type has a probability and the 53 most
/// significant bits of the random word, over `2^53`, are below the number that
/// the probability denotes. (Both sides are written as multiples of `2^-1074`.)
pub proof fn roll_decides(
    state: InjectorState,
    fault_type: FaultType,
    target: Seq<char>,
    now: u64,
    word: u64,
)
    requires
        state.enabled,
        schedule::due_fault(state.schedule, fault_type, now, target) is None,
        state.probabilities.contains_key(fault_type) ==> state.probabilities[fault_type].bits
            < 0x7FF0_0000_0000_0000,
    ensures
        ({
            let bits = state.probabilities[fault_type].bits as int;
            let e = bits / 0x10_0000_0000_0000;
            let f = bits % 0x10_0000_0000_0000;
            fault_injection::outcome_with_word(state, fault_type, target, now, word).should_fault
                <==> state.probabilities.contains_key(fault_type) && (word as int / 2048)
                * power2::pow2(1021) < (if e == 0 {
                f
            } else {
                (0x10_0000_0000_0000 + f) * power2::pow2((e - 1) as nat)
            })
        }),
{
    probability::lemma_roll_never_below_zero(word);
    if state.probabilities.contains_key(fault_type) {
        numbers::patterns_denote_binary64_numbers(state.probabilities[fault_type].bits);
    }
}

/// Whether a check faults depends on the fault type only through what is
/// scheduled for it and through its probability: two checks of enabled injectors
/// with no scheduled fault due, with the same word and the same probability,
/// agree, whatever the types, targets and times.
pub proof fn equal_probabilities_fault_alike(
    a: InjectorState,
    b: InjectorState,
    type_a: FaultType,
    type_b: FaultType,
    target_a: Seq<char>,
    target_b: Seq<char>,
    now_a: u64,
    now_b: u64,
    word: u64,
)
    requires
        a.enabled,
        b.enabled,
        schedule::due_fault(a.schedule, type_a, now_a, target_a) is None,
        schedule::due_fault(b.schedule, type_b, now_b, target_b) is None,
        a.probabilities.contains_key(type_a),
        b.probabilities.contains_key(type_b),
        a.probabilities[type_a] == b.probabilities[type_b],
    ensures
        fault_injection::outcome_with_word(a, type_a, target_a, now_a, word).should_fault
            == fault_injection::outcome_with_word(
            b,
            type_b,
            target_b,
            now_b,
            word,
        ).should_fault,
{
}

/// The error number of each fault type.
pub proof fn error_numbers(t: FaultType)
    ensures
        t is DiskWrite || t is DiskRead || t is DiskFsync ==> fault_type::fault_errno(t) == 5,
        t is NetworkConnectRefused ==> fault_type::fault_errno(t) == 111,
        t is NetworkConnectTimeout ==> fault_type::fault_errno(t) == 110,
        t is NetworkBindFailed || t is NetworkListenFailed ==> fault_type::fault_errno(t) == 98,
        t is NetworkAcceptFailed ==> fault_type::fault_errno(t) == 103,
        t is NetworkSendFailed ==> fault_type::fault_errno(t) == 32,
        t is NetworkRecvFailed ==> fault_type::fault_errno(t) == 104,
        t is MemoryAlloc ==> fault_type::fault_errno(t) == 12,
        t is ForkFailed ==> fault_type::fault_errno(t) == 11,
{
}

/// A check that faults reports the type that was checked for and the error number
/// of that type; a check that does not fault reports nothing.
pub proof fn faults_report_type_and_errno(
    state: InjectorState,
    t: FaultType,
    target: Seq<char>,
    now: u64,
    word: u64,
)
    ensures
        ({
            let outcome = fault_injection::outcome_with_word(state, t, target, now, word);
            if outcome.should_fault {
                &&& outcome.fault_type == Some(t)
                &&& outcome.message is Some
                &&& outcome.errno is Some
                &&& t is DiskWrite || t is DiskRead || t is DiskFsync ==> outcome.errno
                    == Some(5i32)
                &&& t is NetworkConnectRefused ==> outcome.errno == Some(111i32)
                &&& t is NetworkConnectTimeout ==> outcome.errno == Some(110i32)
                &&& t is NetworkBindFailed || t is NetworkListenFailed ==> outcome.errno
                    == Some(98i32)
                &&& t is NetworkAcceptFailed ==> outcome.errno == Some(103i32)
                &&& t is NetworkSendFailed ==> outcome.errno == Some(32i32)
                &&& t is NetworkRecvFailed ==> outcome.errno == Some(104i32)
                &&& t is MemoryAlloc ==> outcome.errno == Some(12i32)
                &&& t is ForkFailed ==> outcome.errno == Some(11i32)
            } else {
                &&& outcome.fault_type is None
                &&& outcome.errno is None
                &&& outcome.message is None
            }
        }),
{
}

/// The result that is made for a fault carries the type, the error number of the
/// type and the message as they are, and the one that is made for no fault
/// carries nothing.
pub proof fn results_carry_what_they_are_made_of(t: FaultType, message: Seq<char>)
    ensures
        fault_injection::fault_outcome(t, message) == (CheckOutcome {
            should_fault: true,
            fault_type: Some(t),
            errno: Some(fault_type::fault_errno(t)),
            message: Some(message),
        }),
        fault_injection::no_fault_outcome() == (CheckOutcome {
            should_fault: false,
            fault_type: None,
            errno: None,
            message: None,
        }),
{
}

/// The message of a scheduled fault gives its type, its time and the target of the
/// check, which is that of the fault that was consumed.
pub proof fn scheduled_faults_say_when(
    state: InjectorState,
    t: FaultType,
    target: Seq<char>,
    now: u64,
    word: u64,
    fault: ScheduledFault,
)
    requires
        state.enabled,
        schedule::due_fault(state.schedule, t, now, target) == Some(fault),
    ensures
        fault_injection::outcome_with_word(state, t, target, now, word).message == Some(
            "Scheduled "@ + fault_type::fault_name(t) + " fault at time_ns="@ + text::decimal(
                fault.time_ns as nat,
            ) + " target="@ + target,
        ),
{
}

/// The message of a fault that the roll decided gives its type, the roll and the
/// probability, each rounded to the nearest ten-thousandth (to the even one of
/// two that are equally near), and the target of the check.
pub proof fn probabilistic_faults_say_why(
    state: InjectorState,
    t: FaultType,
    target: Seq<char>,
    now: u64,
    word: u64,
) -> (shown: (nat, nat))
    requires
        state.enabled,
        schedule::due_fault(state.schedule, t, now, target) is None,
        state.probabilities.contains_key(t) ==> state.probabilities[t].bits
            < 0x7FF0_0000_0000_0000,
        fault_injection::outcome_with_word(state, t, target, now, word).should_fault,
    ensures
        fault_injection::outcome_with_word(state, t, target, now, word).message == Some(
            "Probabilistic "@ + fault_type::fault_name(t) + " fault (roll="@
                + probability::four_digits(shown.0) + " < prob="@ + probability::four_digits(
                shown.1,
            ) + ") target="@ + target,
        ),
        ({
            let roll = word as int / 2048;
            let one = power2::pow2(53);
            let off = shown.0 * one - roll * 10000;
            &&& -one <= 2 * off <= one
            &&& 2 * off == one || 2 * off == -one ==> shown.0 % 2 == 0
        }),
        ({
            let bits = state.probabilities[t].bits as int;
            let e = bits / 0x10_0000_0000_0000;
            let f = bits % 0x10_0000_0000_0000;
            let p = if e == 0 {
                f
            } else {
                (0x10_0000_0000_0000 + f) * power2::pow2((e - 1) as nat)
            };
            let one = power2::pow2(1074);
            let off = shown.1 * one - p * 10000;
            &&& -one <= 2 * off <= one
            &&& 2 * off == one || 2 * off == -one ==> shown.1 % 2 == 0
        }),
{
    probability::lemma_roll_never_below_zero(word);
    let bits = state.probabilities[t].bits;
    numbers::patterns_denote_binary64_numbers(bits);
    power2::lemma_pow2_pos(53);
    power2::lemma_pow2_pos(1074);
    let roll = (word / 2048) as nat;
    let p = probability::magnitude(bits);
    numbers::rounding_is_to_the_nearest_even(roll, power2::pow2(53));
    numbers::rounding_is_to_the_nearest_even(p, power2::pow2(1074));
    (
        probability::ten_thousandths(roll, power2::pow2(53)),
        probability::ten_thousandths(p, power2::pow2(1074)),
    )
}

/// A disabled injector does not fault and consumes nothing.
pub proof fn disabled_injector_lets_pass(
    state: InjectorState,
    t: FaultType,
    target: Seq<char>,
    now: u64,
    word: u64,
)
    requires
        !state.enabled,
    ensures
        !fault_injection::outcome_with_word(state, t, target, now, word).should_fault,
        fault_injection::state_with_word(state, t, target, now, word).schedule == state.schedule,
{
}

/// A check counts itself, and the fault if it faults, modulo the range of the
/// counters; an enabled injector's schedule is what the check leaves of it.
/// Nothing else changes.
pub proof fn check_counts_itself(
    state: InjectorState,
    t: FaultType,
    target: Seq<char>,
    now: u64,
    word: u64,
)
    ensures
        ({
            let after = fault_injection::state_with_word(state, t, target, now, word);
            let faulted = fault_injection::outcome_with_word(
                state,
                t,
                target,
                now,
                word,
            ).should_fault;
            &&& after.fault_checks as int == (state.fault_checks + 1) % (u64::MAX + 1)
            &&& after.faults_injected as int == (state.faults_injected + (if faulted {
                1int
            } else {
                0int
            })) % (u64::MAX + 1)
            &&& state.enabled ==> after.schedule == schedule::after_check(
                state.schedule,
                t,
                now,
                target,
            )
            &&& after.seed == state.seed
            &&& after.words == state.words
            &&& after.enabled == state.enabled
            &&& after.probabilities == state.probabilities
            &&& after.protected_fds == state.protected_fds
        }),
{
}

/// A check uses the first of the random words to come and leaves those behind it;
/// in everything else it is the check with that word.
pub proof fn check_uses_the_next_word(
    state: InjectorState,
    t: FaultType,
    target: Seq<char>,
    now: u64,
    i: nat,
)
    ensures
        fault_injection::check_outcome(state, t, target, now)
            == fault_injection::outcome_with_word(state, t, target, now, state.words[0]),
        ({
            let after = fault_injection::state_after_check(state, t, target, now);
            &&& after.words.contains_key(i)
            &&& after.words[i] == state.words[i + 1]
            &&& (InjectorState { words: state.words, ..after }) == fault_injection::state_with_word(
                state,
                t,
                target,
                now,
                state.words[0],
            )
        }),
{
}

} // verus!
