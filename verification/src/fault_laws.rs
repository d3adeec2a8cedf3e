//! What holds of fault injection as a whole.

pub mod checks;
pub mod numbers;
pub mod settings;

use vstd::prelude::*;

use crate::fault_injection;
use crate::fault_injection::CheckOutcome;
use crate::fault_injection::FaultInjectionConfig;
use crate::fault_injection::InjectorState;
use crate::fault_type;
use crate::fault_type::FaultType;
use crate::probability;
use crate::probability::Probability;
use crate::random;
use crate::schedule;
use crate::schedule::ScheduledFault;

verus! {

/// A call of a method of the fault injector that changes its state.
pub enum Operation {
    /// `set_enabled`
    SetEnabled(bool),
    /// `set_probability`
    SetProbability(FaultType, Probability),
    /// `set_probabilities`
    SetProbabilities(FaultInjectionConfig),
    /// `schedule_fault`
    Schedule(ScheduledFault),
    /// `should_inject_fault`, with the fault type, the target and the time
    Check(FaultType, Seq<char>, u64),
    /// `should_inject_fd_fault`, with the file descriptor before the target
    FdCheck(FaultType, i32, Seq<char>, u64),
    /// `reset`
    Reset,
}

/// Whether a call makes a fault check in the given state.
pub open spec fn makes_check(state: InjectorState, operation: Operation) -> bool {
    match operation {
        Operation::Check(_, _, _) => true,
        Operation::FdCheck(_, fd, _, _) => !state.protected_fds.contains(fd),
        _ => false,
    }
}

/// The state after a call.
pub open spec fn state_after(state: InjectorState, operation: Operation) -> InjectorState {
    match operation {
        Operation::SetEnabled(enabled) => InjectorState { enabled, ..state },
        Operation::SetProbability(t, p) => fault_injection::with_probability(state, t, p),
        Operation::SetProbabilities(config) => fault_injection::with_config(state, config),
        Operation::Schedule(fault) => InjectorState {
            schedule: schedule::with_fault(state.schedule, fault),
            ..state
        },
        Operation::Check(t, target, now) => fault_injection::state_after_check(
            state,
            t,
            target,
            now,
        ),
        Operation::FdCheck(t, fd, target, now) => if state.protected_fds.contains(fd) {
            state
        } else {
            fault_injection::state_after_check(state, t, target, now)
        },
        Operation::Reset => fault_injection::initial_state(state.seed),
    }
}

/// The outcome of a call: that of its check, or no fault.
pub open spec fn outcome_of(state: InjectorState, operation: Operation) -> CheckOutcome {
    match operation {
        Operation::Check(t, target, now) => fault_injection::check_outcome(state, t, target, now),
        Operation::FdCheck(t, fd, target, now) => if state.protected_fds.contains(fd) {
            fault_injection::no_fault_outcome()
        } else {
            fault_injection::check_outcome(state, t, target, now)
        },
        _ => fault_injection::no_fault_outcome(),
    }
}

/// A record of an injector's life: the states it went through and the outcomes
/// of the calls that led from each to the next.
pub struct History {
    /// The states, from the first on.
    pub states: Seq<InjectorState>,
    /// The outcomes of the calls.
    pub outcomes: Seq<CheckOutcome>,
}

/// Whether a record is that of an injector made with `seed` on which the given
/// calls were made.
pub open spec fn records(history: History, seed: u64, calls: Seq<Operation>) -> bool {
    &&& history.states.len() == calls.len() + 1
    &&& history.outcomes.len() == calls.len()
    &&& history.states[0] == fault_injection::initial_state(seed)
    &&& forall|i: int|
        0 <= i < calls.len() ==> (#[trigger] history.states[i + 1]) == state_after(
            history.states[i],
            calls[i],
        )
    &&& forall|i: int|
        0 <= i < calls.len() ==> (#[trigger] history.outcomes[i]) == outcome_of(
            history.states[i],
            calls[i],
        )
}

/// Two injectors made with the same seed agree in their state after the same
/// first `n` calls.
proof fn lemma_same_states(a: History, b: History, seed: u64, calls: Seq<Operation>, n: nat)
    requires
        records(a, seed, calls),
        records(b, seed, calls),
        n <= calls.len(),
    ensures
        a.states[n as int] == b.states[n as int],
    decreases n,
{
    if n > 0 {
        lemma_same_states(a, b, seed, calls, (n - 1) as nat);
        assert(a.states[n - 1 + 1] == state_after(a.states[n - 1], calls[n - 1]));
        assert(b.states[n - 1 + 1] == state_after(b.states[n - 1], calls[n - 1]));
    }
}

/// The same seed always produces the same fault sequence: two injectors made
/// with it on which the same calls are made have the same outcomes.
pub proof fn same_seed_same_faults(a: History, b: History, seed: u64, calls: Seq<Operation>)
    requires
        records(a, seed, calls),
        records(b, seed, calls),
    ensures
        a.outcomes == b.outcomes,
        a.states == b.states,
{
    assert forall|i: int| 0 <= i < a.outcomes.len() implies a.outcomes[i] == b.outcomes[i] by {
        lemma_same_states(a, b, seed, calls, i as nat);
    }
    assert forall|i: int| 0 <= i < a.states.len() implies a.states[i] == b.states[i] by {
        lemma_same_states(a, b, seed, calls, i as nat);
    }
    assert(a.outcomes =~= b.outcomes);
    assert(a.states =~= b.states);
}

/// The number of fault checks since the last reset among the first `n` calls.
pub open spec fn checks_since_reset(history: History, calls: Seq<Operation>, n: nat) -> nat
    decreases n,
{
    if n == 0 || calls[n - 1] is Reset {
        0
    } else {
        checks_since_reset(history, calls, (n - 1) as nat) + if makes_check(
            history.states[n - 1],
            calls[n - 1],
        ) {
            1nat
        } else {
            0nat
        }
    }
}

/// No call changes the seed of an injector.
pub proof fn seed_is_kept(history: History, seed: u64, calls: Seq<Operation>, n: nat)
    requires
        records(history, seed, calls),
        n <= calls.len(),
    ensures
        history.states[n as int].seed == seed,
    decreases n,
{
    if n > 0 {
        seed_is_kept(history, seed, calls, (n - 1) as nat);
        assert(history.states[n - 1 + 1] == state_after(history.states[n - 1], calls[n - 1]));
    }
}

/// A reset takes an injector back to the state in which it was made.
pub proof fn reset_starts_over(history: History, seed: u64, calls: Seq<Operation>, n: nat)
    requires
        records(history, seed, calls),
        n < calls.len(),
        calls[n as int] is Reset,
    ensures
        history.states[n as int + 1] == fault_injection::initial_state(seed),
{
    seed_is_kept(history, seed, calls, n);
    assert(history.states[n as int + 1] == state_after(history.states[n as int], calls[n as int]));
}

/// Each fault check consumes exactly one random word and nothing else consumes
/// any: after any calls, the next words are those of the seed from the number
/// of checks since the last reset on.
pub proof fn each_check_consumes_one_word(
    history: History,
    seed: u64,
    calls: Seq<Operation>,
    n: nat,
    ahead: nat,
)
    requires
        records(history, seed, calls),
        n <= calls.len(),
    ensures
        history.states[n as int].words[ahead] == random::seeded_words(seed)[checks_since_reset(
            history,
            calls,
            n,
        ) + ahead],
    decreases n,
{
    if n > 0 {
        let state = history.states[n - 1];
        assert(history.states[n - 1 + 1] == state_after(state, calls[n - 1]));
        if calls[n - 1] is Reset {
            reset_starts_over(history, seed, calls, (n - 1) as nat);
        } else if makes_check(state, calls[n - 1]) {
            each_check_consumes_one_word(history, seed, calls, (n - 1) as nat, ahead + 1);
        } else {
            each_check_consumes_one_word(history, seed, calls, (n - 1) as nat, ahead);
        }
    }
}

/// The random word of a check is fixed by the seed and by how many checks have
/// been made since the last reset.
pub proof fn word_of_check(history: History, seed: u64, calls: Seq<Operation>, n: nat)
    requires
        records(history, seed, calls),
        n < calls.len(),
        makes_check(history.states[n as int], calls[n as int]),
    ensures
        history.states[n as int].words[0] == random::seeded_words(seed)[checks_since_reset(
            history,
            calls,
            n,
        )],
{
    each_check_consumes_one_word(history, seed, calls, n, 0);
}

/// Every state that an injector reaches is valid.
pub proof fn reachable_states_are_valid(
    history: History,
    seed: u64,
    calls: Seq<Operation>,
    n: nat,
)
    requires
        records(history, seed, calls),
        n <= calls.len(),
    ensures
        fault_injection::valid_state(history.states[n as int]),
    decreases n,
{
    if n > 0 {
        reachable_states_are_valid(history, seed, calls, (n - 1) as nat);
        let state = history.states[n - 1];
        assert(history.states[n - 1 + 1] == state_after(state, calls[n - 1]));
        calls_keep_states_valid(state, calls[n - 1]);
    }
}

/// Operations on the standard streams never fault and change nothing; those on
/// any other file descriptor are checked like every operation.
pub proof fn standard_streams_never_fault(
    state: InjectorState,
    t: FaultType,
    fd: i32,
    target: Seq<char>,
    now: u64,
)
    requires
        fault_injection::valid_state(state),
    ensures
        ({
            let call = Operation::FdCheck(t, fd, target, now);
            let check = Operation::Check(t, target, now);
            if 0 <= fd <= 2 {
                &&& outcome_of(state, call) == fault_injection::no_fault_outcome()
                &&& state_after(state, call) == state
            } else {
                &&& outcome_of(state, call) == outcome_of(state, check)
                &&& state_after(state, call) == state_after(state, check)
            }
        }),
{
    let fds = state.protected_fds;
    assert(fds[0] == 0 && fds[1] == 1 && fds[2] == 2);
    assert(fds.contains(fd) == (0 <= fd <= 2));
}

/// Every call keeps a state valid.
pub proof fn calls_keep_states_valid(state: InjectorState, operation: Operation)
    requires
        fault_injection::valid_state(state),
    ensures
        fault_injection::valid_state(state_after(state, operation)),
{
    match operation {
        Operation::SetProbability(_, p) => {
            probability::lemma_clamped(p);
        },
        Operation::SetProbabilities(config) => {
            let after = state_after(state, operation);
            assert forall|t: FaultType| #[trigger]
                after.probabilities.contains_key(t) implies probability::proper_chance(
                after.probabilities[t],
            ) by {
                if fault_injection::configured(config, t) is Some {
                    probability::lemma_clamped(fault_injection::configured(config, t)->0);
                }
            }
        },
        Operation::Schedule(fault) => {
            schedule::lemma_with_fault_well_formed(state.schedule, fault);
        },
        Operation::Check(t, target, now) => {
            schedule::lemma_after_check_well_formed(state.schedule, t, now, target);
        },
        Operation::FdCheck(t, _, target, now) => {
            schedule::lemma_after_check_well_formed(state.schedule, t, now, target);
        },
        _ => {},
    }
}

/// The number of faults since the last reset among the first `n` calls.
pub open spec fn faults_since_reset(history: History, calls: Seq<Operation>, n: nat) -> nat
    decreases n,
{
    if n == 0 || calls[n - 1] is Reset {
        0
    } else {
        faults_since_reset(history, calls, (n - 1) as nat) + if history.outcomes[n
            - 1].should_fault {
            1nat
        } else {
            0nat
        }
    }
}

/// The counters count: as long as the number of checks since the last reset
/// fits, they hold the numbers of checks and of faults since then, and there
/// are no more faults than checks.
pub proof fn counters_count(history: History, seed: u64, calls: Seq<Operation>, n: nat)
    requires
        records(history, seed, calls),
        n <= calls.len(),
        checks_since_reset(history, calls, n) <= u64::MAX,
    ensures
        history.states[n as int].fault_checks == checks_since_reset(history, calls, n),
        history.states[n as int].faults_injected == faults_since_reset(history, calls, n),
        faults_since_reset(history, calls, n) <= checks_since_reset(history, calls, n),
    decreases n,
{
    if n > 0 {
        let state = history.states[n - 1];
        assert(history.states[n - 1 + 1] == state_after(state, calls[n - 1]));
        assert(history.outcomes[n - 1] == outcome_of(state, calls[n - 1]));
        if !(calls[n - 1] is Reset) {
            counters_count(history, seed, calls, (n - 1) as nat);
        }
    }
}

/// A probability of one makes every check of an enabled injector fault.
pub proof fn certain_faults_always_happen(
    state: InjectorState,
    fault_type: FaultType,
    target: Seq<char>,
    now: u64,
    word: u64,
)
    requires
        state.enabled,
        !probability::less_than(
            fault_injection::probability_of(state, fault_type)@,
            probability::real_one(),
        ),
        fault_injection::probability_of(state, fault_type)@ !is NotANumber,
    ensures
        fault_injection::outcome_with_word(state, fault_type, target, now, word).should_fault,
{
    probability::lemma_roll_below_one(word);
}

/// A check of a fault type without a probability faults only where a scheduled
/// fault is due.
pub proof fn impossible_faults_never_happen(
    state: InjectorState,
    fault_type: FaultType,
    target: Seq<char>,
    now: u64,
    word: u64,
)
    requires
        !state.probabilities.contains_key(fault_type),
        schedule::due_fault(state.schedule, fault_type, now, target) is None,
    ensures
        fault_injection::outcome_with_word(state, fault_type, target, now, word)
            == fault_injection::no_fault_outcome(),
{
    probability::lemma_roll_never_below_zero(word);
}

/// What faults at some probability, faults at every greater one.
pub proof fn greater_probability_faults_too(word: u64, p: Probability, q: Probability)
    requires
        probability::less_than(probability::roll_value(word), p@),
        probability::less_than(p@, q@),
    ensures
        probability::less_than(probability::roll_value(word), q@),
{
}

/// The probability that was set is read back, clamped to the interval from zero
/// to one; where nothing above zero is left, zero is read back. The other fault
/// types keep theirs.
pub proof fn set_probability_is_read_back(
    state: InjectorState,
    fault_type: FaultType,
    p: Probability,
    other: FaultType,
)
    requires
        other != fault_type,
    ensures
        fault_injection::probability_of(
            fault_injection::with_probability(state, fault_type, p),
            fault_type,
        ) == (if probability::less_than(probability::real_zero(), p@) {
            probability::clamped(p)
        } else {
            Probability { bits: 0 }
        }),
        fault_injection::probability_of(
            fault_injection::with_probability(state, fault_type, p),
            other,
        ) == fault_injection::probability_of(state, other),
{
    probability::lemma_clamped(p);
}

/// A number above zero and at most one is read back as it was set.
pub proof fn proper_probability_is_kept(state: InjectorState, fault_type: FaultType, p: Probability)
    requires
        probability::proper_chance(p),
    ensures
        fault_injection::probability_of(
            fault_injection::with_probability(state, fault_type, p),
            fault_type,
        ) == p,
        fault_injection::with_probability(state, fault_type, p).enabled,
{
    probability::lemma_clamped(p);
    probability::lemma_proper_chance(p);
}

/// Setting the same probability again changes nothing.
pub proof fn setting_twice_is_setting_once(
    state: InjectorState,
    fault_type: FaultType,
    p: Probability,
)
    ensures
        fault_injection::with_probability(
            fault_injection::with_probability(state, fault_type, p),
            fault_type,
            p,
        ) == fault_injection::with_probability(state, fault_type, p),
{
    let once = fault_injection::with_probability(state, fault_type, p);
    let twice = fault_injection::with_probability(once, fault_type, p);
    assert(twice.probabilities =~= once.probabilities);
}

/// A name stands for the fault type that has it: no earlier name is the same.
proof fn lemma_names_differ(name: Seq<char>, fault_type: FaultType)
    requires
        name == fault_type::fault_name(fault_type),
    ensures
        fault_type::fault_named(name) == Some(fault_type),
{
    reveal_strlit("disk_write");
    reveal_strlit("disk_read");
    reveal_strlit("disk_fsync");
    reveal_strlit("network_connect_refused");
    reveal_strlit("network_connect");
    reveal_strlit("network_connect_timeout");
    reveal_strlit("network_bind_failed");
    reveal_strlit("network_bind");
    reveal_strlit("network_listen_failed");
    reveal_strlit("network_listen");
    reveal_strlit("network_accept_failed");
    reveal_strlit("network_accept");
    reveal_strlit("network_send_failed");
    reveal_strlit("network_send");
    reveal_strlit("network_recv_failed");
    reveal_strlit("network_recv");
    reveal_strlit("memory_alloc");
    reveal_strlit("fork_failed");
    // Most names differ in their length.
    assert("disk_write"@.len() == 10);
    assert("disk_read"@.len() == 9);
    assert("disk_fsync"@.len() == 10);
    assert("network_connect_refused"@.len() == 23);
    assert("network_connect"@.len() == 15);
    assert("network_connect_timeout"@.len() == 23);
    assert("network_bind_failed"@.len() == 19);
    assert("network_bind"@.len() == 12);
    assert("network_listen_failed"@.len() == 21);
    assert("network_listen"@.len() == 14);
    assert("network_accept_failed"@.len() == 21);
    assert("network_accept"@.len() == 14);
    assert("network_send_failed"@.len() == 19);
    assert("network_send"@.len() == 12);
    assert("network_recv_failed"@.len() == 19);
    assert("network_recv"@.len() == 12);
    assert("memory_alloc"@.len() == 12);
    assert("fork_failed"@.len() == 11);
    // Names of the same length differ in the character given here.
    assert("disk_write"@[5] == 'w');
    assert("disk_fsync"@[5] == 'f');
    assert("network_connect_refused"@[16] == 'r');
    assert("network_connect_timeout"@[16] == 't');
    assert("network_bind_failed"@[8] == 'b');
    assert("network_send_failed"@[8] == 's');
    assert("network_recv_failed"@[8] == 'r');
    assert("network_listen_failed"@[8] == 'l');
    assert("network_accept_failed"@[8] == 'a');
    assert("memory_alloc"@[0] == 'm');
    assert("network_bind"@[0] == 'n');
    assert("network_send"@[0] == 'n');
    assert("network_recv"@[0] == 'n');
}

/// A name stands for the fault type that has it.
pub proof fn names_are_read_back(fault_type: FaultType)
    ensures
        fault_type::fault_named(fault_type::fault_name(fault_type)) == Some(fault_type),
{
    lemma_names_differ(fault_type::fault_name(fault_type), fault_type);
}

/// Distinct fault types have distinct names.
pub proof fn names_are_distinct(a: FaultType, b: FaultType)
    requires
        a != b,
    ensures
        fault_type::fault_name(a) != fault_type::fault_name(b),
{
    names_are_read_back(a);
    names_are_read_back(b);
}

/// Every fault type is listed, at the position of its code.
pub proof fn all_fault_types_are_listed(fault_type: FaultType)
    ensures
        fault_type::fault_code(fault_type) < fault_type::all_fault_types().len(),
        fault_type::all_fault_types()[fault_type::fault_code(fault_type) as int] == fault_type,
        fault_type::all_fault_types().no_duplicates(),
{
}

/// A configuration with a probability above zero enables fault injection. One
/// without leaves it as it was.
pub proof fn configuration_enables(state: InjectorState, config: FaultInjectionConfig)
    ensures
        fault_injection::with_config(state, config).enabled == (state.enabled
            || fault_injection::any_faults(config)),
{
}

/// A configuration sets the probability of each fault type that it speaks of,
/// as if it were set alone, and of no other.
pub proof fn configuration_sets_probabilities(
    state: InjectorState,
    config: FaultInjectionConfig,
    t: FaultType,
)
    ensures
        fault_injection::probability_of(fault_injection::with_config(state, config), t) == (
        match fault_injection::configured(config, t) {
            Some(p) => fault_injection::probability_of(
                fault_injection::with_probability(state, t, p),
                t,
            ),
            None => fault_injection::probability_of(state, t),
        }),
{
    if fault_injection::configured(config, t) is Some {
        probability::lemma_clamped(fault_injection::configured(config, t)->0);
    }
}

/// Setting the same configuration again changes nothing.
pub proof fn configuring_twice_is_configuring_once(
    state: InjectorState,
    config: FaultInjectionConfig,
)
    ensures
        fault_injection::with_config(fault_injection::with_config(state, config), config)
            == fault_injection::with_config(state, config),
{
    let once = fault_injection::with_config(state, config);
    let twice = fault_injection::with_config(once, config);
    assert(twice.probabilities =~= once.probabilities);
}

} // verus!
