//! Deterministic fault injection for DST (Deterministic Simulation Testing).
//!
//! This module provides BUGGIFY-style fault injection that is:
//! - Deterministic: the same seed always produces the same fault sequence
//! - Configurable: per-fault-type probabilities
//! - Schedulable: faults can be injected at specific logical times
//!
//! The [`FaultInjector`] draws its random words from a PCG generator. Each
//! fault check consumes exactly one word, whatever it decides, so that how many
//! checks have been made since the last reset alone determines which word comes
//! next.

use rand_pcg::Pcg64Mcg;

use vstd::arithmetic::power2;
use vstd::prelude::*;

use crate::chances::FaultProbabilities;
use crate::fault_type;
use crate::probability;
use crate::probability::Probability;
use crate::random;
use crate::schedule;
use crate::schedule::FaultSchedule;
use crate::text;

pub use crate::fault_type::FaultType;
pub use crate::schedule::ScheduledFault;

verus! {

/// Result of a fault check.
#[derive(Debug)]
pub struct FaultCheckResult {
    /// Whether a fault should be injected.
    pub should_fault: bool,
    /// The type of fault if one should be injected.
    pub fault_type: Option<FaultType>,
    /// The errno to return.
    pub errno: Option<i32>,
    /// Debug message for logging.
    pub message: Option<String>,
}

/// What a fault check decides.
#[verifier::ext_equal]
pub struct CheckOutcome {
    /// Whether a fault should be injected.
    pub should_fault: bool,
    /// The type of fault if one should be injected.
    pub fault_type: Option<FaultType>,
    /// The errno to return.
    pub errno: Option<i32>,
    /// The characters of the message.
    pub message: Option<Seq<char>>,
}

/// The characters of an optional text.
pub open spec fn optional_text(message: Option<String>) -> Option<Seq<char>> {
    match message {
        Some(m) => Some(m@),
        None => None,
    }
}

impl View for FaultCheckResult {
    type V = CheckOutcome;

    open spec fn view(&self) -> CheckOutcome {
        CheckOutcome {
            should_fault: self.should_fault,
            fault_type: self.fault_type,
            errno: self.errno,
            message: optional_text(self.message),
        }
    }
}

/// No fault.
pub open spec fn no_fault_outcome() -> CheckOutcome {
    CheckOutcome { should_fault: false, fault_type: None, errno: None, message: None }
}

/// A fault of the given type, with its default errno.
pub open spec fn fault_outcome(fault_type: FaultType, message: Seq<char>) -> CheckOutcome {
    CheckOutcome {
        should_fault: true,
        fault_type: Some(fault_type),
        errno: Some(fault_type::fault_errno(fault_type)),
        message: Some(message),
    }
}

impl Clone for FaultCheckResult {
    fn clone(&self) -> (copy: Self)
        ensures
            copy == *self,
    {
        let message: Option<String> = match &self.message {
            Some(m) => Some(m.clone()),
            None => None,
        };
        FaultCheckResult {
            should_fault: self.should_fault,
            fault_type: self.fault_type,
            errno: self.errno,
            message,
        }
    }
}

impl FaultCheckResult {
    /// Create a result indicating no fault.
    pub fn no_fault() -> (result: FaultCheckResult)
        ensures
            result@ == no_fault_outcome(),
    {
        FaultCheckResult { should_fault: false, fault_type: None, errno: None, message: None }
    }

    /// Create a result indicating a fault should be injected.
    pub fn fault(fault_type: FaultType, message: String) -> (result: FaultCheckResult)
        ensures
            result@ == fault_outcome(fault_type, message@),
            result.message == Some(message),
    {
        FaultCheckResult {
            should_fault: true,
            fault_type: Some(fault_type),
            errno: Some(fault_type.default_errno()),
            message: Some(message),
        }
    }
}

/// The state of a fault injector.
#[verifier::ext_equal]
pub struct InjectorState {
    /// The seed that the injector was made with.
    pub seed: u64,
    /// The random words to come, by their position.
    pub words: Map<nat, u64>,
    /// Whether fault injection is enabled.
    pub enabled: bool,
    /// The probabilities of the fault types that have one above zero.
    pub probabilities: Map<FaultType, Probability>,
    /// The scheduled faults, by their time.
    pub schedule: Map<u64, Seq<ScheduledFault>>,
    /// Faults injected since the last reset, with wrap-around.
    pub faults_injected: u64,
    /// Fault checks performed since the last reset, with wrap-around.
    pub fault_checks: u64,
    /// File descriptors whose operations never fault.
    pub protected_fds: Seq<i32>,
}

/// The state of a new injector.
pub open spec fn initial_state(seed: u64) -> InjectorState {
    InjectorState {
        seed,
        words: random::seeded_words(seed),
        enabled: false,
        probabilities: Map::empty(),
        schedule: Map::empty(),
        faults_injected: 0,
        fault_checks: 0,
        protected_fds: seq![0i32, 1i32, 2i32],
    }
}

/// The state after the probability of a fault type has been set.
pub open spec fn with_probability(
    state: InjectorState,
    fault_type: FaultType,
    p: Probability,
) -> InjectorState {
    let chance = probability::clamped(p);
    if probability::less_than(probability::real_zero(), chance@) {
        InjectorState {
            probabilities: state.probabilities.insert(fault_type, chance),
            enabled: true,
            ..state
        }
    } else {
        InjectorState { probabilities: state.probabilities.remove(fault_type), ..state }
    }
}

/// The probability that a configuration holds for a fault type, if it holds one.
pub open spec fn configured(
    config: FaultInjectionConfig,
    fault_type: FaultType,
) -> Option<Probability> {
    match fault_type {
        FaultType::DiskWrite => Some(config.disk_write_probability),
        FaultType::DiskRead => Some(config.disk_read_probability),
        FaultType::DiskFsync => Some(config.disk_fsync_probability),
        FaultType::NetworkConnectRefused => Some(config.network_connect_probability),
        FaultType::NetworkBindFailed => Some(config.network_bind_probability),
        FaultType::NetworkListenFailed => Some(config.network_listen_probability),
        FaultType::NetworkAcceptFailed => Some(config.network_accept_probability),
        FaultType::NetworkSendFailed => Some(config.network_send_probability),
        FaultType::NetworkRecvFailed => Some(config.network_recv_probability),
        _ => None,
    }
}

/// The state after the probabilities of a configuration have been set: each
/// fault type that the configuration speaks of has its probability, clamped, or
/// none where that is not above zero, and a probability above zero enables
/// fault injection.
pub open spec fn with_config(state: InjectorState, config: FaultInjectionConfig) -> InjectorState {
    InjectorState {
        enabled: state.enabled || any_faults(config),
        probabilities: Map::new(
            |t: FaultType|
                match configured(config, t) {
                    Some(p) => probability::less_than(probability::real_zero(), p@),
                    None => state.probabilities.contains_key(t),
                },
            |t: FaultType|
                match configured(config, t) {
                    Some(p) => probability::clamped(p),
                    None => state.probabilities[t],
                },
        ),
        ..state
    }
}

/// The probability of a fault type: zero where none is set.
pub open spec fn probability_of(state: InjectorState, fault_type: FaultType) -> Probability {
    if state.probabilities.contains_key(fault_type) {
        state.probabilities[fault_type]
    } else {
        Probability { bits: 0 }
    }
}

/// The message of a scheduled fault.
pub open spec fn scheduled_message(
    fault_type: FaultType,
    time_ns: u64,
    target: Seq<char>,
) -> Seq<char> {
    "Scheduled "@ + fault_type::fault_name(fault_type) + " fault at time_ns="@ + text::decimal(
        time_ns as nat,
    ) + " target="@ + target
}

/// The message of a fault that the random word `word` decided.
pub open spec fn probabilistic_message(
    fault_type: FaultType,
    word: u64,
    p: Probability,
    target: Seq<char>,
) -> Seq<char> {
    "Probabilistic "@ + fault_type::fault_name(fault_type) + " fault (roll="@
        + probability::four_digits(
        probability::ten_thousandths((word / 2048) as nat, power2::pow2(53)),
    ) + " < prob="@ + probability::four_digits(
        probability::ten_thousandths(
            probability::magnitude(p.bits),
            power2::pow2(probability::SCALE as nat),
        ),
    ) + ") target="@ + target
}

/// What a check decides with the random word `word`.
///
/// A disabled injector never faults. An enabled one first consumes a scheduled
/// fault that is due; only if there is none does it compare the word with the
/// probability of the fault type.
pub open spec fn outcome_with_word(
    state: InjectorState,
    fault_type: FaultType,
    target: Seq<char>,
    now: u64,
    word: u64,
) -> CheckOutcome {
    if !state.enabled {
        no_fault_outcome()
    } else {
        match schedule::due_fault(state.schedule, fault_type, now, target) {
            Some(fault) => fault_outcome(
                fault_type,
                scheduled_message(fault_type, fault.time_ns, target),
            ),
            None => {
                let p = probability_of(state, fault_type);
                if probability::less_than(probability::roll_value(word), p@) {
                    fault_outcome(fault_type, probabilistic_message(fault_type, word, p, target))
                } else {
                    no_fault_outcome()
                }
            },
        }
    }
}

/// The state after a check that was given the random word `word`.
pub open spec fn state_with_word(
    state: InjectorState,
    fault_type: FaultType,
    target: Seq<char>,
    now: u64,
    word: u64,
) -> InjectorState {
    InjectorState {
        fault_checks: state.fault_checks.wrapping_add(1),
        schedule: if state.enabled {
            schedule::after_check(state.schedule, fault_type, now, target)
        } else {
            state.schedule
        },
        faults_injected: if outcome_with_word(state, fault_type, target, now, word).should_fault {
            state.faults_injected.wrapping_add(1)
        } else {
            state.faults_injected
        },
        ..state
    }
}

/// What a check decides: it uses the first of the random words to come.
pub open spec fn check_outcome(
    state: InjectorState,
    fault_type: FaultType,
    target: Seq<char>,
    now: u64,
) -> CheckOutcome {
    outcome_with_word(state, fault_type, target, now, state.words[0])
}

/// The state after a check: one random word is gone.
pub open spec fn state_after_check(
    state: InjectorState,
    fault_type: FaultType,
    target: Seq<char>,
    now: u64,
) -> InjectorState {
    InjectorState {
        words: random::words_after_first(state.words),
        ..state_with_word(state, fault_type, target, now, state.words[0])
    }
}

/// The invariant of an injector: every probability that is set is above zero
/// and at most one, the schedule is well-formed, and the standard streams are
/// protected, but no other file descriptor.
pub open spec fn valid_state(state: InjectorState) -> bool {
    &&& forall|t: FaultType| #[trigger]
        state.probabilities.contains_key(t) ==> probability::proper_chance(state.probabilities[t])
    &&& schedule::well_formed(state.schedule)
    &&& state.protected_fds == seq![0i32, 1i32, 2i32]
}

/// Deterministic fault injector using a PCG generator.
#[derive(Debug)]
pub struct FaultInjector {
    /// The main seed.
    seed: u64,
    /// Deterministic generator seeded from the main seed.
    rng: Pcg64Mcg,
    /// Whether fault injection is enabled.
    enabled: bool,
    /// Per-fault-type probabilities.
    probabilities: FaultProbabilities,
    /// Scheduled faults by logical time.
    scheduled_faults: FaultSchedule,
    /// Total faults injected (for stats).
    faults_injected_count: u64,
    /// Total fault checks performed.
    fault_checks_count: u64,
    /// File descriptors to skip (stdin/stdout/stderr).
    protected_fds: Vec<i32>,
}

impl View for FaultInjector {
    type V = InjectorState;

    closed spec fn view(&self) -> InjectorState {
        InjectorState {
            seed: self.seed,
            words: random::upcoming_words(self.rng),
            enabled: self.enabled,
            probabilities: self.probabilities@,
            schedule: self.scheduled_faults@,
            faults_injected: self.faults_injected_count,
            fault_checks: self.fault_checks_count,
            protected_fds: self.protected_fds@,
        }
    }
}

/// Statistics from the fault injector.
#[derive(Debug)]
pub struct FaultInjectorStats {
    /// Whether fault injection is enabled.
    pub enabled: bool,
    /// Number of fault checks performed.
    pub checks_performed: u64,
    /// Number of faults actually injected.
    pub faults_injected: u64,
    /// Number of scheduled faults pending: those that have not been consumed.
    pub scheduled_faults_pending: u64,
    /// Current probabilities per fault type.
    pub probabilities: FaultProbabilities,
}

impl Clone for FaultInjectorStats {
    fn clone(&self) -> (copy: Self)
        ensures
            copy@ == self@,
    {
        FaultInjectorStats {
            enabled: self.enabled,
            checks_performed: self.checks_performed,
            faults_injected: self.faults_injected,
            scheduled_faults_pending: self.scheduled_faults_pending,
            probabilities: self.probabilities.clone(),
        }
    }
}

/// What statistics say.
#[verifier::ext_equal]
pub struct StatsView {
    /// Whether fault injection is enabled.
    pub enabled: bool,
    /// Number of fault checks performed.
    pub checks_performed: u64,
    /// Number of faults actually injected.
    pub faults_injected: u64,
    /// Number of scheduled faults pending.
    pub scheduled_faults_pending: u64,
    /// Current probabilities per fault type.
    pub probabilities: Map<FaultType, Probability>,
}

impl View for FaultInjectorStats {
    type V = StatsView;

    open spec fn view(&self) -> StatsView {
        StatsView {
            enabled: self.enabled,
            checks_performed: self.checks_performed,
            faults_injected: self.faults_injected,
            scheduled_faults_pending: self.scheduled_faults_pending,
            probabilities: self.probabilities@,
        }
    }
}

/// The statistics of a state. The number of pending faults is taken modulo
/// the range of its counter.
pub open spec fn stats_of(state: InjectorState) -> StatsView {
    StatsView {
        enabled: state.enabled,
        checks_performed: state.fault_checks,
        faults_injected: state.faults_injected,
        scheduled_faults_pending: (schedule::unconsumed(state.schedule) % (u64::MAX as nat + 1)) as u64,
        probabilities: state.probabilities,
    }
}

/// Configuration for fault injection probabilities.
#[derive(Debug, Clone, Copy)]
pub struct FaultInjectionConfig {
    /// Probability of disk write failures.
    pub disk_write_probability: Probability,
    /// Probability of disk read failures.
    pub disk_read_probability: Probability,
    /// Probability of disk fsync failures.
    pub disk_fsync_probability: Probability,
    /// Probability of network connect failures.
    pub network_connect_probability: Probability,
    /// Probability of network bind failures.
    pub network_bind_probability: Probability,
    /// Probability of network listen failures.
    pub network_listen_probability: Probability,
    /// Probability of network accept failures.
    pub network_accept_probability: Probability,
    /// Probability of network send failures.
    pub network_send_probability: Probability,
    /// Probability of network recv failures.
    pub network_recv_probability: Probability,
}

/// Whether some probability of a configuration is above zero.
pub open spec fn any_faults(config: FaultInjectionConfig) -> bool {
    let zero = probability::real_zero();
    ||| probability::less_than(zero, config.disk_write_probability@)
    ||| probability::less_than(zero, config.disk_read_probability@)
    ||| probability::less_than(zero, config.disk_fsync_probability@)
    ||| probability::less_than(zero, config.network_connect_probability@)
    ||| probability::less_than(zero, config.network_bind_probability@)
    ||| probability::less_than(zero, config.network_listen_probability@)
    ||| probability::less_than(zero, config.network_accept_probability@)
    ||| probability::less_than(zero, config.network_send_probability@)
    ||| probability::less_than(zero, config.network_recv_probability@)
}

/// The configuration with every probability at zero.
pub open spec fn no_faults_config() -> FaultInjectionConfig {
    let zero = Probability { bits: 0 };
    FaultInjectionConfig {
        disk_write_probability: zero,
        disk_read_probability: zero,
        disk_fsync_probability: zero,
        network_connect_probability: zero,
        network_bind_probability: zero,
        network_listen_probability: zero,
        network_accept_probability: zero,
        network_send_probability: zero,
        network_recv_probability: zero,
    }
}

impl Default for FaultInjectionConfig {
    fn default() -> (config: Self)
        ensures
            config == no_faults_config(),
    {
        let zero: Probability = Probability::zero();
        FaultInjectionConfig {
            disk_write_probability: zero,
            disk_read_probability: zero,
            disk_fsync_probability: zero,
            network_connect_probability: zero,
            network_bind_probability: zero,
            network_listen_probability: zero,
            network_accept_probability: zero,
            network_send_probability: zero,
            network_recv_probability: zero,
        }
    }
}

impl FaultInjectionConfig {
    /// The probability for a fault type, if the configuration holds one.
    pub fn probability_for(&self, fault_type: FaultType) -> (probability: Option<Probability>)
        ensures
            probability == configured(*self, fault_type),
    {
        match fault_type {
            FaultType::DiskWrite => Some(self.disk_write_probability),
            FaultType::DiskRead => Some(self.disk_read_probability),
            FaultType::DiskFsync => Some(self.disk_fsync_probability),
            FaultType::NetworkConnectRefused => Some(self.network_connect_probability),
            FaultType::NetworkBindFailed => Some(self.network_bind_probability),
            FaultType::NetworkListenFailed => Some(self.network_listen_probability),
            FaultType::NetworkAcceptFailed => Some(self.network_accept_probability),
            FaultType::NetworkSendFailed => Some(self.network_send_probability),
            FaultType::NetworkRecvFailed => Some(self.network_recv_probability),
            _ => None,
        }
    }

    /// Check if any fault injection is enabled.
    pub fn has_any_faults(&self) -> (any: bool)
        ensures
            any == any_faults(*self),
    {
        self.disk_write_probability.is_positive() || self.disk_read_probability.is_positive()
            || self.disk_fsync_probability.is_positive()
            || self.network_connect_probability.is_positive()
            || self.network_bind_probability.is_positive()
            || self.network_listen_probability.is_positive()
            || self.network_accept_probability.is_positive()
            || self.network_send_probability.is_positive()
            || self.network_recv_probability.is_positive()
    }
}

/// Whether a configuration holds a probability above zero for a fault type.
spec fn turns_on(config: FaultInjectionConfig, fault_type: FaultType) -> bool {
    configured(config, fault_type) matches Some(p) && probability::less_than(
        probability::real_zero(),
        p@,
    )
}

/// The state after the probabilities of a configuration have been set for the
/// fault types whose code is below `n`.
spec fn configured_below(
    state: InjectorState,
    config: FaultInjectionConfig,
    n: nat,
) -> InjectorState {
    let full = with_config(state, config);
    InjectorState {
        enabled: state.enabled || exists|t: FaultType|
            fault_type::fault_code(t) < n && #[trigger] turns_on(config, t),
        probabilities: Map::new(
            |t: FaultType|
                if fault_type::fault_code(t) < n {
                    full.probabilities.contains_key(t)
                } else {
                    state.probabilities.contains_key(t)
                },
            |t: FaultType|
                if fault_type::fault_code(t) < n {
                    full.probabilities[t]
                } else {
                    state.probabilities[t]
                },
        ),
        ..state
    }
}

/// Fault types with the same code are the same.
proof fn lemma_code_is_unique(a: FaultType, b: FaultType)
    requires
        fault_type::fault_code(a) == fault_type::fault_code(b),
    ensures
        a == b,
{
}

/// Setting the probability of one fault type more.
proof fn lemma_configured_step(
    state: InjectorState,
    config: FaultInjectionConfig,
    fault_type: FaultType,
)
    ensures
        ({
            let code = fault_type::fault_code(fault_type) as nat;
            let here = configured_below(state, config, code);
            configured_below(state, config, code + 1) == (match configured(config, fault_type) {
                Some(p) => with_probability(here, fault_type, p),
                None => here,
            })
        }),
{
    let code = fault_type::fault_code(fault_type) as nat;
    let here = configured_below(state, config, code);
    let next = configured_below(state, config, code + 1);
    let expected = match configured(config, fault_type) {
        Some(p) => with_probability(here, fault_type, p),
        None => here,
    };
    if configured(config, fault_type) is Some {
        probability::lemma_clamped(configured(config, fault_type)->0);
    }
    assert forall|t: FaultType| fault_type::fault_code(t) == code implies t == fault_type by {
        lemma_code_is_unique(t, fault_type);
    }
    assert(turns_on(config, fault_type) ==> next.enabled);
    assert(next.enabled == expected.enabled);
    assert(next.probabilities =~= expected.probabilities);
}

/// Before the first fault type nothing has been set, and after the last one
/// everything.
proof fn lemma_configured_ends(state: InjectorState, config: FaultInjectionConfig)
    ensures
        configured_below(state, config, 0) == state,
        configured_below(state, config, fault_type::all_fault_types().len()) == with_config(
            state,
            config,
        ),
{
    assert(configured_below(state, config, 0).probabilities =~= state.probabilities);
    let last = configured_below(state, config, fault_type::all_fault_types().len());
    assert(last.probabilities =~= with_config(state, config).probabilities);
    assert(turns_on(config, FaultType::DiskWrite) ==> last.enabled);
    assert(turns_on(config, FaultType::DiskRead) ==> last.enabled);
    assert(turns_on(config, FaultType::DiskFsync) ==> last.enabled);
    assert(turns_on(config, FaultType::NetworkConnectRefused) ==> last.enabled);
    assert(turns_on(config, FaultType::NetworkBindFailed) ==> last.enabled);
    assert(turns_on(config, FaultType::NetworkListenFailed) ==> last.enabled);
    assert(turns_on(config, FaultType::NetworkAcceptFailed) ==> last.enabled);
    assert(turns_on(config, FaultType::NetworkSendFailed) ==> last.enabled);
    assert(turns_on(config, FaultType::NetworkRecvFailed) ==> last.enabled);
}

/// The text of [`scheduled_message`].
fn write_scheduled_message(fault_type: FaultType, time_ns: u64, target: &str) -> (message: String)
    ensures
        message@ == scheduled_message(fault_type, time_ns, target@),
{
    let mut message: String = "Scheduled ".to_owned();
    message.append(fault_type.name());
    message.append(" fault at time_ns=");
    text::push_decimal(&mut message, time_ns);
    message.append(" target=");
    message.append(target);
    message
}

/// The text of [`probabilistic_message`].
fn write_probabilistic_message(
    fault_type: FaultType,
    word: u64,
    p: Probability,
    target: &str,
) -> (message: String)
    requires
        probability::proper_chance(p),
    ensures
        message@ == probabilistic_message(fault_type, word, p, target@),
{
    proof {
        probability::lemma_proper_chance(p);
    }
    let mut message: String = "Probabilistic ".to_owned();
    message.append(fault_type.name());
    message.append(" fault (roll=");
    probability::push_roll(&mut message, word);
    message.append(" < prob=");
    p.push_four_digits(&mut message);
    message.append(") target=");
    message.append(target);
    message
}

impl FaultInjector {
    /// Create a new FaultInjector with the given seed.
    pub fn new(seed: u64) -> (injector: FaultInjector)
        ensures
            injector@ == initial_state(seed),
            valid_state(injector@),
    {
        let mut protected_fds: Vec<i32> = Vec::new();
        protected_fds.push(0);
        protected_fds.push(1);
        protected_fds.push(2);
        let injector: FaultInjector = FaultInjector {
            seed,
            rng: random::seeded_generator(seed),
            enabled: false,
            probabilities: FaultProbabilities::new(),
            scheduled_faults: FaultSchedule::new(),
            faults_injected_count: 0,
            fault_checks_count: 0,
            protected_fds,
        };
        assert(injector@ =~= initial_state(seed));
        injector
    }

    /// Enable or disable fault injection.
    pub fn set_enabled(&mut self, enabled: bool)
        ensures
            final(self)@ == (InjectorState { enabled, ..old(self)@ }),
    {
        self.enabled = enabled;
    }

    /// Check if fault injection is enabled.
    pub fn is_enabled(&self) -> (enabled: bool)
        ensures
            enabled == self@.enabled,
    {
        self.enabled
    }

    /// Set the probability for a specific fault type.
    ///
    /// The probability is clamped to the interval from zero to one. One above
    /// zero also enables fault injection; any other removes the fault type.
    pub fn set_probability(&mut self, fault_type: FaultType, probability: Probability)
        ensures
            final(self)@ == with_probability(old(self)@, fault_type, probability),
            valid_state(old(self)@) ==> valid_state(final(self)@),
    {
        let chance: Probability = probability.clamp_to_unit();
        if chance.is_positive() {
            self.probabilities.insert(fault_type, chance);
            self.enabled = true;
        } else {
            self.probabilities.remove(fault_type);
        }
        assert(self@ =~= with_probability(old(self)@, fault_type, probability));
    }

    /// Get the probability for a specific fault type.
    pub fn get_probability(&self, fault_type: FaultType) -> (probability: Probability)
        ensures
            probability == probability_of(self@, fault_type),
    {
        match self.probabilities.get(fault_type) {
            Some(probability) => probability,
            None => Probability::zero(),
        }
    }

    /// Set all probabilities from a config struct.
    pub fn set_probabilities(&mut self, config: &FaultInjectionConfig)
        ensures
            final(self)@ == with_config(old(self)@, *config),
            valid_state(old(self)@) ==> valid_state(final(self)@),
    {
        let types: &[FaultType] = FaultType::all();
        let mut i: usize = 0;
        proof {
            lemma_configured_ends(old(self)@, *config);
        }
        while i < types.len()
            invariant
                types@ == fault_type::all_fault_types(),
                i <= types@.len(),
                self@ == configured_below(old(self)@, *config, i as nat),
                valid_state(old(self)@) ==> valid_state(self@),
            decreases types@.len() - i,
        {
            let fault_type: FaultType = types[i];
            proof {
                lemma_configured_step(old(self)@, *config, fault_type);
            }
            if let Some(probability) = config.probability_for(fault_type) {
                self.set_probability(fault_type, probability);
            }
            i += 1;
        }
    }

    /// Schedule a fault to be injected at a specific logical time.
    pub fn schedule_fault(&mut self, fault: ScheduledFault)
        ensures
            final(self)@ == (InjectorState {
                schedule: schedule::with_fault(old(self)@.schedule, fault),
                ..old(self)@
            }),
            valid_state(old(self)@) ==> valid_state(final(self)@),
    {
        self.scheduled_faults.add(fault);
        assert(self@.schedule == schedule::with_fault(old(self)@.schedule, fault));
        proof {
            if schedule::well_formed(old(self)@.schedule) {
                schedule::lemma_with_fault_well_formed(old(self)@.schedule, fault);
            }
        }
    }

    /// Check if a fault should be injected, given the random word of the check.
    pub fn check_with_word(
        &mut self,
        fault_type: FaultType,
        target: &str,
        current_time_ns: u64,
        word: u64,
    ) -> (result: FaultCheckResult)
        requires
            valid_state(old(self)@),
        ensures
            result@ == outcome_with_word(old(self)@, fault_type, target@, current_time_ns, word),
            final(self)@ == state_with_word(
                old(self)@,
                fault_type,
                target@,
                current_time_ns,
                word,
            ),
            valid_state(final(self)@),
    {
        self.fault_checks_count = self.fault_checks_count.wrapping_add(1);

        if !self.enabled {
            return FaultCheckResult::no_fault();
        }
        proof {
            schedule::lemma_after_check_well_formed(
                old(self)@.schedule,
                fault_type,
                current_time_ns,
                target@,
            );
            probability::lemma_roll_never_below_zero(word);
        }
        // Scheduled faults come first: no probability is involved in them.
        if let Some(scheduled) = self.scheduled_faults.check_scheduled_fault(
            fault_type,
            current_time_ns,
            target,
        ) {
            self.faults_injected_count = self.faults_injected_count.wrapping_add(1);
            let message: String = write_scheduled_message(fault_type, scheduled.time_ns, target);
            return FaultCheckResult::fault(fault_type, message);
        }
        let probability: Probability = self.get_probability(fault_type);
        if !probability.is_positive() {
            return FaultCheckResult::no_fault();
        }
        if probability.exceeds_roll(word) {
            self.faults_injected_count = self.faults_injected_count.wrapping_add(1);
            let message: String = write_probabilistic_message(
                fault_type,
                word,
                probability,
                target,
            );
            return FaultCheckResult::fault(fault_type, message);
        }
        FaultCheckResult::no_fault()
    }

    /// Check if a fault should be injected.
    ///
    /// This is the main entry point for fault checking. It:
    /// 1. Checks if fault injection is enabled
    /// 2. Checks for scheduled faults at the current time
    /// 3. Probabilistically decides based on configured probability
    ///
    /// Every call consumes exactly one random word, also where the word plays
    /// no part in the decision.
    pub fn should_inject_fault(
        &mut self,
        fault_type: FaultType,
        target: &str,
        current_time_ns: u64,
    ) -> (result: FaultCheckResult)
        requires
            valid_state(old(self)@),
        ensures
            result@ == check_outcome(old(self)@, fault_type, target@, current_time_ns),
            final(self)@ == state_after_check(old(self)@, fault_type, target@, current_time_ns),
            valid_state(final(self)@),
    {
        let word: u64 = random::next_word(&mut self.rng);
        self.check_with_word(fault_type, target, current_time_ns, word)
    }

    /// Whether a file descriptor is protected.
    fn is_protected(&self, fd: i32) -> (protected: bool)
        ensures
            protected == self@.protected_fds.contains(fd),
    {
        let mut i: usize = 0;
        while i < self.protected_fds.len()
            invariant
                i <= self.protected_fds@.len(),
                forall|j: int| 0 <= j < i ==> self.protected_fds@[j] != fd,
            decreases self.protected_fds@.len() - i,
        {
            if self.protected_fds[i] == fd {
                return true;
            }
            i += 1;
        }
        false
    }

    /// Check if a fault should be injected for a file descriptor operation.
    /// Skips protected FDs (stdin/stdout/stderr): such a call is no fault check
    /// and changes nothing.
    pub fn should_inject_fd_fault(
        &mut self,
        fault_type: FaultType,
        fd: i32,
        target: &str,
        current_time_ns: u64,
    ) -> (result: FaultCheckResult)
        requires
            valid_state(old(self)@),
        ensures
            old(self)@.protected_fds.contains(fd) ==> result@ == no_fault_outcome() && final(self)@
                == old(self)@,
            !old(self)@.protected_fds.contains(fd) ==> result@ == check_outcome(
                old(self)@,
                fault_type,
                target@,
                current_time_ns,
            ) && final(self)@ == state_after_check(
                old(self)@,
                fault_type,
                target@,
                current_time_ns,
            ),
            valid_state(final(self)@),
    {
        if self.is_protected(fd) {
            return FaultCheckResult::no_fault();
        }
        self.should_inject_fault(fault_type, target, current_time_ns)
    }

    /// Get statistics about fault injection.
    pub fn get_stats(&self) -> (stats: FaultInjectorStats)
        ensures
            stats@ == stats_of(self@),
    {
        FaultInjectorStats {
            enabled: self.enabled,
            checks_performed: self.fault_checks_count,
            faults_injected: self.faults_injected_count,
            scheduled_faults_pending: self.scheduled_faults.count(),
            probabilities: self.probabilities.clone(),
        }
    }

    /// Reset all state (for testing): the injector is as it was when it was made.
    pub fn reset(&mut self)
        ensures
            final(self)@ == initial_state(old(self)@.seed),
            valid_state(final(self)@),
    {
        *self = FaultInjector::new(self.seed);
    }
}

} // verus!
