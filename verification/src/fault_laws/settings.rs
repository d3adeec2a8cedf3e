//! What the settings of an injector are, and what its statistics show of them.

use vstd::prelude::*;

use crate::fault_injection;
use crate::fault_injection::FaultCheckResult;
use crate::fault_injection::FaultInjectionConfig;
use crate::fault_injection::FaultInjectorStats;
use crate::fault_injection::InjectorState;
use crate::fault_type;
use crate::fault_type::FaultType;
use crate::probability;
use crate::probability::Probability;
use crate::random;
use crate::schedule;
use crate::schedule::Buckets;
use crate::schedule::ScheduledFault;

verus! {

/// A new injector is disabled, has the words of its seed before it, no
/// probability, nothing scheduled and nothing counted, and protects the standard
/// streams.
pub proof fn new_injectors(seed: u64, t: FaultType, time: u64, i: nat)
    ensures
        ({
            let state = fault_injection::initial_state(seed);
            &&& state.seed == seed
            &&& state.words[i] == random::seeded_words(seed)[i]
            &&& !state.enabled
            &&& !state.probabilities.contains_key(t)
            &&& !state.schedule.contains_key(time)
            &&& state.faults_injected == 0
            &&& state.fault_checks == 0
            &&& state.protected_fds =~= seq![0i32, 1i32, 2i32]
        }),
{
}

/// What is left of a probability that is set, told by its bit pattern: those up to
/// that of one are kept, those up to that of infinity become one, and the rest,
/// zero, negative numbers and what is no number, leave none.
pub open spec fn kept(p: Probability) -> Option<Probability> {
    if 0 < p.bits <= 0x3FF0_0000_0000_0000 {
        Some(p)
    } else if 0x3FF0_0000_0000_0000 < p.bits <= 0x7FF0_0000_0000_0000 {
        Some(Probability { bits: 0x3FF0_0000_0000_0000 })
    } else {
        None
    }
}

/// What is kept of a probability is what clamping leaves of it above zero.
proof fn lemma_kept(p: Probability)
    ensures
        kept(p) is Some == probability::less_than(probability::real_zero(), p@),
        kept(p) is Some == probability::less_than(
            probability::real_zero(),
            probability::clamped(p)@,
        ),
        kept(p) is Some ==> kept(p)->0 == probability::clamped(p),
{
    probability::lemma_pattern_order(p);
    probability::lemma_clamped(p);
}

/// Whether two states agree in all but probabilities and whether they are
/// enabled.
pub open spec fn same_but_probabilities(a: InjectorState, b: InjectorState) -> bool {
    &&& a.seed == b.seed
    &&& a.words == b.words
    &&& a.schedule == b.schedule
    &&& a.faults_injected == b.faults_injected
    &&& a.fault_checks == b.fault_checks
    &&& a.protected_fds == b.protected_fds
}

/// Setting a probability sets what is kept of it for its fault type, and for no
/// other; it enables the injector if something is kept, and changes nothing
/// else.
pub proof fn setting_a_probability(state: InjectorState, t: FaultType, p: Probability, u: FaultType)
    ensures
        ({
            let after = fault_injection::with_probability(state, t, p);
            &&& after.probabilities.contains_key(t) == (kept(p) is Some)
            &&& kept(p) is Some ==> after.probabilities[t] == kept(p)->0
            &&& after.enabled == (state.enabled || kept(p) is Some)
            &&& u != t ==> after.probabilities.contains_key(u) == state.probabilities.contains_key(
                u,
            ) && after.probabilities[u] == state.probabilities[u]
            &&& same_but_probabilities(after, state)
        }),
{
    lemma_kept(p);
}

/// The probability that is read is the one that is set, and zero where none is.
pub proof fn reading_a_probability(state: InjectorState, t: FaultType)
    ensures
        state.probabilities.contains_key(t) ==> fault_injection::probability_of(state, t)
            == state.probabilities[t],
        !state.probabilities.contains_key(t) ==> fault_injection::probability_of(state, t) == (
        Probability { bits: 0 }),
{
}

/// Whether what is set for a fault type is what is kept of a probability.
pub open spec fn holds_kept(state: InjectorState, t: FaultType, p: Probability) -> bool {
    &&& state.probabilities.contains_key(t) == (kept(p) is Some)
    &&& kept(p) is Some ==> state.probabilities[t] == kept(p)->0
}

/// Setting a configuration sets, for each of its nine fault types, what is kept of
/// its probability, and leaves the other types alone; it enables the injector if
/// something is kept, and changes nothing else.
pub proof fn setting_a_configuration(state: InjectorState, config: FaultInjectionConfig)
    ensures
        ({
            let after = fault_injection::with_config(state, config);
            &&& holds_kept(after, FaultType::DiskWrite, config.disk_write_probability)
            &&& holds_kept(after, FaultType::DiskRead, config.disk_read_probability)
            &&& holds_kept(after, FaultType::DiskFsync, config.disk_fsync_probability)
            &&& holds_kept(after, FaultType::NetworkConnectRefused, config.network_connect_probability)
            &&& holds_kept(after, FaultType::NetworkBindFailed, config.network_bind_probability)
            &&& holds_kept(after, FaultType::NetworkListenFailed, config.network_listen_probability)
            &&& holds_kept(after, FaultType::NetworkAcceptFailed, config.network_accept_probability)
            &&& holds_kept(after, FaultType::NetworkSendFailed, config.network_send_probability)
            &&& holds_kept(after, FaultType::NetworkRecvFailed, config.network_recv_probability)
            &&& forall|u: FaultType|
                u is NetworkConnectTimeout || u is MemoryAlloc || u is ForkFailed ==> (
                #[trigger] after.probabilities.contains_key(u))
                    == state.probabilities.contains_key(u) && (
                state.probabilities.contains_key(u) ==> after.probabilities[u]
                    == state.probabilities[u])
            &&& after.enabled == (state.enabled || fault_injection::any_faults(config))
            &&& same_but_probabilities(after, state)
        }),
        fault_injection::any_faults(config) == (kept(config.disk_write_probability) is Some
            || kept(config.disk_read_probability) is Some
            || kept(config.disk_fsync_probability) is Some
            || kept(config.network_connect_probability) is Some
            || kept(config.network_bind_probability) is Some
            || kept(config.network_listen_probability) is Some
            || kept(config.network_accept_probability) is Some
            || kept(config.network_send_probability) is Some
            || kept(config.network_recv_probability) is Some),
{
    lemma_kept(config.disk_write_probability);
    lemma_kept(config.disk_read_probability);
    lemma_kept(config.disk_fsync_probability);
    lemma_kept(config.network_connect_probability);
    lemma_kept(config.network_bind_probability);
    lemma_kept(config.network_listen_probability);
    lemma_kept(config.network_accept_probability);
    lemma_kept(config.network_send_probability);
    lemma_kept(config.network_recv_probability);
    let after = fault_injection::with_config(state, config);
    assert forall|u: FaultType|
        u is NetworkConnectTimeout || u is MemoryAlloc || u is ForkFailed implies (
    #[trigger] after.probabilities.contains_key(u)) == state.probabilities.contains_key(u) && (
    state.probabilities.contains_key(u) ==> after.probabilities[u] == state.probabilities[u]) by {
        assert(fault_injection::configured(config, u) is None);
    }
}

/// The configuration without faults holds zero throughout.
pub proof fn default_configuration()
    ensures
        ({
            let config = fault_injection::no_faults_config();
            &&& config.disk_write_probability.bits == 0
            &&& config.disk_read_probability.bits == 0
            &&& config.disk_fsync_probability.bits == 0
            &&& config.network_connect_probability.bits == 0
            &&& config.network_bind_probability.bits == 0
            &&& config.network_listen_probability.bits == 0
            &&& config.network_accept_probability.bits == 0
            &&& config.network_send_probability.bits == 0
            &&& config.network_recv_probability.bits == 0
        }),
{
}

/// A configuration speaks of nine fault types, each by its own field.
pub proof fn fields_of_a_configuration(config: FaultInjectionConfig)
    ensures
        fault_injection::configured(config, FaultType::DiskWrite) == Some(
            config.disk_write_probability,
        ),
        fault_injection::configured(config, FaultType::DiskRead) == Some(
            config.disk_read_probability,
        ),
        fault_injection::configured(config, FaultType::DiskFsync) == Some(
            config.disk_fsync_probability,
        ),
        fault_injection::configured(config, FaultType::NetworkConnectRefused) == Some(
            config.network_connect_probability,
        ),
        fault_injection::configured(config, FaultType::NetworkBindFailed) == Some(
            config.network_bind_probability,
        ),
        fault_injection::configured(config, FaultType::NetworkListenFailed) == Some(
            config.network_listen_probability,
        ),
        fault_injection::configured(config, FaultType::NetworkAcceptFailed) == Some(
            config.network_accept_probability,
        ),
        fault_injection::configured(config, FaultType::NetworkSendFailed) == Some(
            config.network_send_probability,
        ),
        fault_injection::configured(config, FaultType::NetworkRecvFailed) == Some(
            config.network_recv_probability,
        ),
        fault_injection::configured(config, FaultType::NetworkConnectTimeout) is None,
        fault_injection::configured(config, FaultType::MemoryAlloc) is None,
        fault_injection::configured(config, FaultType::ForkFailed) is None,
{
}

/// A fault that is scheduled is held behind those of its time, as it was given;
/// what was held before stays where it was, and no other time changes.
pub proof fn scheduling_a_fault(buckets: Buckets, fault: ScheduledFault, time: u64, i: int)
    ensures
        ({
            let after = schedule::with_fault(buckets, fault);
            let held = if buckets.contains_key(fault.time_ns) {
                buckets[fault.time_ns].len()
            } else {
                0
            };
            &&& after.contains_key(fault.time_ns)
            &&& after[fault.time_ns].len() == held + 1
            &&& after[fault.time_ns][held as int] == fault
            &&& 0 <= i < held ==> after[fault.time_ns][i] == buckets[fault.time_ns][i]
            &&& time != fault.time_ns ==> after.contains_key(time) == buckets.contains_key(time)
                && after[time] == buckets[time]
        }),
{
}

/// The positions of a schedule that hold a fault which has not been consumed, for
/// times before `end`, and at time `end` for positions before `n`.
spec fn open_positions(buckets: Buckets, end: int, n: int) -> Set<(u64, int)> {
    Set::new(
        |p: (u64, int)|
            buckets.contains_key(p.0) && 0 <= p.1 < buckets[p.0].len()
                && !buckets[p.0][p.1].consumed && (p.0 < end || (p.0 == end && p.1 < n)),
    )
}

/// Counting along one bucket.
proof fn lemma_count_bucket(buckets: Buckets, end: int, n: int)
    requires
        0 <= end <= u64::MAX,
        buckets.contains_key(end as u64),
        0 <= n <= buckets[end as u64].len(),
        open_positions(buckets, end, 0).finite(),
    ensures
        open_positions(buckets, end, n).finite(),
        open_positions(buckets, end, n).len() == open_positions(buckets, end, 0).len()
            + schedule::unconsumed_in(buckets[end as u64].take(n)),
    decreases n,
{
    let bucket = buckets[end as u64];
    if n == 0 {
        assert(bucket.take(0).len() == 0);
    } else {
        lemma_count_bucket(buckets, end, n - 1);
        let before = open_positions(buckets, end, n - 1);
        let after = open_positions(buckets, end, n);
        assert(bucket.take(n).drop_last() =~= bucket.take(n - 1));
        assert(bucket.take(n).last() == bucket[n - 1]);
        if bucket[n - 1].consumed {
            assert(after =~= before);
        } else {
            assert(after =~= before.insert((end as u64, n - 1)));
        }
    }
}

/// Counting along the times.
proof fn lemma_count_times(buckets: Buckets, end: nat)
    requires
        end <= u64::MAX as nat + 1,
    ensures
        open_positions(buckets, end as int, 0).finite(),
        open_positions(buckets, end as int, 0).len() == schedule::unconsumed_before(buckets, end),
    decreases end,
{
    if end == 0 {
        assert(open_positions(buckets, 0, 0) =~= Set::<(u64, int)>::empty());
    } else {
        let t = end - 1;
        lemma_count_times(buckets, t as nat);
        if buckets.contains_key(t as u64) {
            let n = buckets[t as u64].len() as int;
            lemma_count_bucket(buckets, t, n);
            assert(buckets[t as u64].take(n) =~= buckets[t as u64]);
            assert(open_positions(buckets, end as int, 0) =~= open_positions(buckets, t, n));
        } else {
            assert(open_positions(buckets, end as int, 0) =~= open_positions(buckets, t, 0));
        }
    }
}

/// The number of unconsumed faults is the number of positions that hold one.
pub proof fn unconsumed_faults_are_counted(buckets: Buckets)
    ensures
        ({
            let positions = Set::new(
                |p: (u64, int)|
                    buckets.contains_key(p.0) && 0 <= p.1 < buckets[p.0].len()
                        && !buckets[p.0][p.1].consumed,
            );
            &&& positions.finite()
            &&& schedule::unconsumed(buckets) == positions.len()
        }),
{
    let positions = Set::new(
        |p: (u64, int)|
            buckets.contains_key(p.0) && 0 <= p.1 < buckets[p.0].len()
                && !buckets[p.0][p.1].consumed,
    );
    let end = u64::MAX as nat + 1;
    lemma_count_times(buckets, end);
    assert(open_positions(buckets, end as int, 0) =~= positions);
}

/// The statistics show the counters, the probabilities and whether the injector is
/// enabled as they are, and as pending the number of unconsumed faults, modulo
/// the range of the counter.
pub proof fn statistics_show_the_state(state: InjectorState)
    ensures
        ({
            let stats = fault_injection::stats_of(state);
            &&& stats.enabled == state.enabled
            &&& stats.checks_performed == state.fault_checks
            &&& stats.faults_injected == state.faults_injected
            &&& stats.probabilities == state.probabilities
            &&& stats.scheduled_faults_pending as int == schedule::unconsumed(state.schedule) as int
                % (u64::MAX + 1)
        }),
{
}

/// Results and statistics mean what their fields hold.
pub proof fn fields_are_what_is_meant(result: FaultCheckResult, stats: FaultInjectorStats)
    ensures
        result@.should_fault == result.should_fault,
        result@.fault_type == result.fault_type,
        result@.errno == result.errno,
        result.message is None ==> result@.message is None,
        result.message matches Some(message) ==> result@.message == Some(message@),
        stats@.enabled == stats.enabled,
        stats@.checks_performed == stats.checks_performed,
        stats@.faults_injected == stats.faults_injected,
        stats@.scheduled_faults_pending == stats.scheduled_faults_pending,
        stats@.probabilities == stats.probabilities@,
{
}

/// The names of the fault types.
pub proof fn names_of_types()
    ensures
        fault_type::fault_name(FaultType::DiskWrite) == "disk_write"@,
        fault_type::fault_name(FaultType::DiskRead) == "disk_read"@,
        fault_type::fault_name(FaultType::DiskFsync) == "disk_fsync"@,
        fault_type::fault_name(FaultType::NetworkConnectRefused) == "network_connect_refused"@,
        fault_type::fault_name(FaultType::NetworkConnectTimeout) == "network_connect_timeout"@,
        fault_type::fault_name(FaultType::NetworkBindFailed) == "network_bind_failed"@,
        fault_type::fault_name(FaultType::NetworkListenFailed) == "network_listen_failed"@,
        fault_type::fault_name(FaultType::NetworkAcceptFailed) == "network_accept_failed"@,
        fault_type::fault_name(FaultType::NetworkSendFailed) == "network_send_failed"@,
        fault_type::fault_name(FaultType::NetworkRecvFailed) == "network_recv_failed"@,
        fault_type::fault_name(FaultType::MemoryAlloc) == "memory_alloc"@,
        fault_type::fault_name(FaultType::ForkFailed) == "fork_failed"@,
{
}

/// The texts that stand for a fault type: its name, and for six of the network
/// faults a short one as well.
pub open spec fn stands_for(name: Seq<char>, t: FaultType) -> bool {
    match t {
        FaultType::DiskWrite => name == "disk_write"@,
        FaultType::DiskRead => name == "disk_read"@,
        FaultType::DiskFsync => name == "disk_fsync"@,
        FaultType::NetworkConnectRefused => name == "network_connect_refused"@ || name == "network_connect"@,
        FaultType::NetworkConnectTimeout => name == "network_connect_timeout"@,
        FaultType::NetworkBindFailed => name == "network_bind_failed"@ || name == "network_bind"@,
        FaultType::NetworkListenFailed => name == "network_listen_failed"@ || name == "network_listen"@,
        FaultType::NetworkAcceptFailed => name == "network_accept_failed"@ || name == "network_accept"@,
        FaultType::NetworkSendFailed => name == "network_send_failed"@ || name == "network_send"@,
        FaultType::NetworkRecvFailed => name == "network_recv_failed"@ || name == "network_recv"@,
        FaultType::MemoryAlloc => name == "memory_alloc"@,
        FaultType::ForkFailed => name == "fork_failed"@,
    }
}

/// A text is read as a fault type exactly if it stands for it, and as none if it
/// stands for none.
pub proof fn names_are_read(name: Seq<char>, t: FaultType)
    ensures
        fault_type::fault_named(name) == Some(t) <==> stands_for(name, t),
        fault_type::fault_named(name) is None <==> forall|u: FaultType| !stands_for(name, u),
{
    if stands_for(name, t) {
        lemma_short_names_differ(name, t);
    }
    match fault_type::fault_named(name) {
        Some(u) => {
            assert(stands_for(name, u));
        },
        None => {},
    }
}

/// A text that stands for a fault type is read as that type: it stands for no
/// earlier one.
proof fn lemma_short_names_differ(name: Seq<char>, t: FaultType)
    requires
        stands_for(name, t),
    ensures
        fault_type::fault_named(name) == Some(t),
{
    reveal_strlit("disk_write");
    reveal_strlit("disk_read");
    reveal_strlit("disk_fsync");
    reveal_strlit("network_connect_refused");
    reveal_strlit("network_connect");
    reveal_strlit("network_connect_timeout");
    reveal_strlit("network_bind_failed");
    reveal_strlit("network_bind");
    reveal_strlit("network_listen_failed");
    reveal_strlit("network_listen");
    reveal_strlit("network_accept_failed");
    reveal_strlit("network_accept");
    reveal_strlit("network_send_failed");
    reveal_strlit("network_send");
    reveal_strlit("network_recv_failed");
    reveal_strlit("network_recv");
    reveal_strlit("memory_alloc");
    reveal_strlit("fork_failed");
    assert("disk_write"@.len() == 10);
    assert("disk_read"@.len() == 9);
    assert("disk_fsync"@.len() == 10);
    assert("network_connect_refused"@.len() == 23);
    assert("network_connect"@.len() == 15);
    assert("network_connect_timeout"@.len() == 23);
    assert("network_bind_failed"@.len() == 19);
    assert("network_bind"@.len() == 12);
    assert("network_listen_failed"@.len() == 21);
    assert("network_listen"@.len() == 14);
    assert("network_accept_failed"@.len() == 21);
    assert("network_accept"@.len() == 14);
    assert("network_send_failed"@.len() == 19);
    assert("network_send"@.len() == 12);
    assert("network_recv_failed"@.len() == 19);
    assert("network_recv"@.len() == 12);
    assert("memory_alloc"@.len() == 12);
    assert("fork_failed"@.len() == 11);
    assert("disk_write"@[5] == 'w');
    assert("disk_fsync"@[5] == 'f');
    assert("network_connect_refused"@[16] == 'r');
    assert("network_connect_timeout"@[16] == 't');
    assert("network_bind_failed"@[8] == 'b');
    assert("network_send_failed"@[8] == 's');
    assert("network_recv_failed"@[8] == 'r');
    assert("network_bind"@[8] == 'b');
    assert("network_send"@[8] == 's');
    assert("network_recv"@[8] == 'r');
    assert("memory_alloc"@[8] == 'l');
    assert("network_listen_failed"@[8] == 'l');
    assert("network_accept_failed"@[8] == 'a');
    assert("network_listen"@[8] == 'l');
    assert("network_accept"@[8] == 'a');
}

} // verus!
