//! What each command answers and changes, told by what the server has before it.

use vstd::prelude::*;

use crate::control;
use crate::control::ControlCommand;
use crate::control::ControlResponse;
use crate::control::DataView;
use crate::control::InjectorAccess;
use crate::control::InjectorBefore;
use crate::control::Readings;
use crate::control::ResponseData;
use crate::control::ResponseView;
use crate::control::SchedulerSnapshot;
use crate::control::ServerState;
use crate::fault_injection::InjectorState;
use crate::fault_laws::settings;
use crate::fault_type;
use crate::fault_type::FaultType;
use crate::probability::Probability;
use crate::schedule;
use crate::schedule::ScheduledFault;
use crate::schedule_laws;

verus! {

/// Whether a response is a success with the given data and no error.
pub open spec fn is_success(response: ResponseView, data: Option<DataView>) -> bool {
    response.success && response.data == data && response.error is None
}

/// Whether a response is a failure with the given error and no data.
pub open spec fn is_failure(response: ResponseView, error: Seq<char>) -> bool {
    !response.success && response.data is None && response.error == Some(error)
}

/// The three ways to make a response.
pub proof fn responses_are_as_made(data: DataView, message: Seq<char>)
    ensures
        is_success(control::ok_response(), None),
        is_success(control::data_response(data), Some(data)),
        is_failure(control::error_response(message), message),
{
}

/// The virtual time is answered as it is read, and zero where it cannot be read.
pub proof fn time_is_answered(
    server: ServerState,
    injector: InjectorBefore,
    readings: Readings,
    t: u64,
)
    requires
        readings.time_ns == Some(t) || (readings.time_ns is None && t == 0),
    ensures
        is_success(
            control::response_to(server, injector, ControlCommand::GetTime, readings),
            Some(DataView::Time(t)),
        ),
        control::current_time(readings) == t,
        ({
            let response = control::response_to(
                server,
                injector,
                ControlCommand::GetStats,
                readings,
            );
            &&& response.success
            &&& response.error is None
            &&& response.data matches Some(DataView::Stats(stats)) && stats.time_ns == t
        }),
{
}

/// The execution statistics hold the counters, the thread counts in 32 bits and
/// the virtual time, each in its own field, and zero for what cannot be read.
pub proof fn statistics_are_answered(
    server: ServerState,
    injector: InjectorBefore,
    readings: Readings,
)
    ensures
        ({
            let stats = control::execution_stats(server.stats, readings);
            &&& is_success(
                control::response_to(server, injector, ControlCommand::GetStats, readings),
                Some(DataView::Stats(stats)),
            )
            &&& server.stats matches Some(counted) ==> {
                &&& stats.syscalls_intercepted == counted.syscalls_intercepted
                &&& stats.thread_switches == counted.thread_switches
                &&& stats.quanta_executed == counted.quanta_executed
            }
            &&& server.stats is None ==> stats.syscalls_intercepted == 0 && stats.thread_switches
                == 0 && stats.quanta_executed == 0
            &&& readings.time_ns matches Some(t) ==> stats.time_ns == t
            &&& readings.time_ns is None ==> stats.time_ns == 0
            &&& readings.scheduler matches Some(scheduler) ==> {
                &&& stats.active_threads as int == scheduler.active_threads as int % 0x1_0000_0000
                &&& stats.blocked_threads as int == scheduler.blocked_threads as int
                    % 0x1_0000_0000
            }
            &&& readings.scheduler is None ==> stats.active_threads == 0 && stats.blocked_threads
                == 0
        }),
{
}

/// The scheduler state is answered as it is read, together with the pause flag,
/// and without threads where it cannot be read.
pub proof fn scheduler_state_is_answered(
    server: ServerState,
    injector: InjectorBefore,
    readings: Readings,
)
    ensures
        ({
            let snapshot = control::snapshot_of(server.paused, readings);
            &&& is_success(
                control::response_to(
                    server,
                    injector,
                    ControlCommand::GetSchedulerState,
                    readings,
                ),
                Some(DataView::SchedulerState(snapshot)),
            )
            &&& snapshot.is_paused == server.paused
            &&& readings.scheduler matches Some(scheduler) ==> {
                &&& snapshot.current_thread == scheduler.current_thread
                &&& snapshot.run_queue == scheduler.run_queue@
                &&& snapshot.blocked_threads == scheduler.blocked_ids@
            }
            &&& readings.scheduler is None ==> snapshot.current_thread is None
                && snapshot.run_queue.len() == 0 && snapshot.blocked_threads.len() == 0
        }),
{
}

/// The pause flag and the seed are answered as they are, a ping is answered, and
/// pause, resume and shutdown succeed without data.
pub proof fn server_commands_are_answered(
    server: ServerState,
    injector: InjectorBefore,
    readings: Readings,
)
    ensures
        is_success(
            control::response_to(server, injector, ControlCommand::Ping, readings),
            Some(DataView::Pong),
        ),
        is_success(
            control::response_to(server, injector, ControlCommand::IsPaused, readings),
            Some(DataView::Paused(server.paused)),
        ),
        is_success(
            control::response_to(server, injector, ControlCommand::GetSeed, readings),
            Some(DataView::Seed(server.seed)),
        ),
        is_success(
            control::response_to(server, injector, ControlCommand::Pause, readings),
            None,
        ),
        is_success(
            control::response_to(server, injector, ControlCommand::Resume, readings),
            None,
        ),
        is_success(
            control::response_to(server, injector, ControlCommand::Shutdown, readings),
            None,
        ),
{
}

/// A pause raises the pause flag, a resume lowers it, and a shutdown raises the
/// shutdown flag; no other command changes a flag, and none changes the seed or
/// the counters.
pub proof fn flags_after_commands(server: ServerState, command: ControlCommand)
    ensures
        ({
            let after = control::server_after(server, command);
            &&& after.paused == (command is Pause || (server.paused && !(command is Resume)))
            &&& after.shutdown == (command is Shutdown || server.shutdown)
            &&& after.seed == server.seed
            &&& after.stats == server.stats
        }),
{
}

/// Recording counts one syscall, one thread switch or the given quanta, in its own
/// counter, and changes nothing else; without counters it changes nothing.
pub proof fn recording_counts(server: ServerState, count: u64)
    ensures
        server.stats is None ==> control::after_syscall(server) == server
            && control::after_thread_switch(server) == server && control::after_quanta(
            server,
            count,
        ) == server,
        server.stats matches Some(before) ==> {
            let s = control::after_syscall(server);
            let t = control::after_thread_switch(server);
            let q = control::after_quanta(server, count);
            &&& before.syscalls_intercepted < u64::MAX ==> (s.stats matches Some(after)
                && after.syscalls_intercepted == before.syscalls_intercepted + 1
                && after.thread_switches == before.thread_switches && after.quanta_executed
                == before.quanta_executed)
            &&& before.thread_switches < u64::MAX ==> (t.stats matches Some(after)
                && after.thread_switches == before.thread_switches + 1
                && after.syscalls_intercepted == before.syscalls_intercepted
                && after.quanta_executed == before.quanta_executed)
            &&& before.quanta_executed + count <= u64::MAX ==> (q.stats matches Some(after)
                && after.quanta_executed == before.quanta_executed + count
                && after.syscalls_intercepted == before.syscalls_intercepted
                && after.thread_switches == before.thread_switches)
            &&& s.seed == server.seed && t.seed == server.seed && q.seed == server.seed
            &&& s.paused == server.paused && t.paused == server.paused && q.paused == server.paused
            &&& s.shutdown == server.shutdown && t.shutdown == server.shutdown && q.shutdown
                == server.shutdown
        },
{
}

/// Without a fault injector, commands on it are refused; with one that cannot be
/// locked, those that name a fault type which is not known are refused for that,
/// and the others for the lock.
pub proof fn fault_commands_without_injector(
    server: ServerState,
    command: ControlCommand,
    readings: Readings,
)
    requires
        command is SetFaultProbability || command is ScheduleFault || command is GetFaultStats
            || command is SetFaultInjectionEnabled,
    ensures
        is_failure(
            control::response_to(server, InjectorBefore::Absent, command, readings),
            "Fault injector not available"@,
        ),
        ({
            let response = control::response_to(
                server,
                InjectorBefore::LockFailed,
                command,
                readings,
            );
            let named = match command {
                ControlCommand::SetFaultProbability { fault_type, probability: _ } => Some(
                    fault_type@,
                ),
                ControlCommand::ScheduleFault { time_ns: _, fault_type, target: _ } => Some(
                    fault_type@,
                ),
                _ => None,
            };
            match named {
                Some(name) => if fault_type::fault_named(name) is Some {
                    is_failure(response, "Failed to lock fault injector"@)
                } else {
                    is_failure(response, "Unknown fault type: "@ + name)
                },
                None => is_failure(response, "Failed to lock fault injector"@),
            }
        }),
{
}

/// A name is known exactly if it stands for some fault type.
proof fn lemma_known_names(name: Seq<char>)
    ensures
        fault_type::fault_named(name) is Some <==> exists|t: FaultType|
            settings::stands_for(name, t),
{
    settings::names_are_read(name, FaultType::DiskWrite);
    match fault_type::fault_named(name) {
        Some(t) => {
            settings::names_are_read(name, t);
        },
        None => {},
    }
}

/// A command that schedules a fault under a name of a fault type succeeds and
/// schedules it, with or without a target: the last fault held under its time is
/// of that time, that type and that target and not consumed, one more fault is
/// still to come, and what was held before, the probabilities, the counters and
/// whether the injector is enabled stay as they were.
pub proof fn schedule_command_schedules(
    server: ServerState,
    state: InjectorState,
    time_ns: u64,
    name: String,
    target: Option<String>,
    readings: Readings,
    t: FaultType,
    time: u64,
    i: int,
)
    requires
        settings::stands_for(name@, t),
    ensures
        ({
            let command = ControlCommand::ScheduleFault { time_ns, fault_type: name, target };
            let after = control::injector_after(state, command);
            let held = if state.schedule.contains_key(time_ns) {
                state.schedule[time_ns].len()
            } else {
                0
            };
            &&& is_success(
                control::response_to(server, InjectorBefore::Locked(state), command, readings),
                None,
            )
            &&& after.schedule.contains_key(time_ns)
            &&& after.schedule[time_ns].len() == held + 1
            &&& after.schedule[time_ns].last() == (ScheduledFault {
                time_ns,
                fault_type: t,
                target,
                consumed: false,
            })
            &&& 0 <= i < held ==> after.schedule[time_ns][i] == state.schedule[time_ns][i]
            &&& time != time_ns ==> after.schedule.contains_key(time)
                == state.schedule.contains_key(time) && after.schedule[time]
                == state.schedule[time]
            &&& schedule::unconsumed(after.schedule) == schedule::unconsumed(state.schedule) + 1
            &&& after.probabilities == state.probabilities
            &&& after.enabled == state.enabled
            &&& after.faults_injected == state.faults_injected
            &&& after.fault_checks == state.fault_checks
            &&& after.words == state.words
            &&& after.seed == state.seed
            &&& after.protected_fds == state.protected_fds
        }),
{
    settings::names_are_read(name@, t);
    let fault = ScheduledFault { time_ns, fault_type: t, target, consumed: false };
    settings::scheduling_a_fault(state.schedule, fault, time, i);
    schedule_laws::scheduling_adds_one(state.schedule, fault);
}

/// A command that sets a probability under a name of a fault type succeeds and
/// sets what is kept of it for that type, and for no other; it enables the
/// injector if something is kept, and changes nothing else.
pub proof fn probability_command_sets(
    server: ServerState,
    state: InjectorState,
    name: String,
    p: Probability,
    readings: Readings,
    t: FaultType,
    u: FaultType,
)
    requires
        settings::stands_for(name@, t),
    ensures
        ({
            let command = ControlCommand::SetFaultProbability { fault_type: name, probability: p };
            let after = control::injector_after(state, command);
            &&& is_success(
                control::response_to(server, InjectorBefore::Locked(state), command, readings),
                None,
            )
            &&& settings::holds_kept(after, t, p)
            &&& after.enabled == (state.enabled || settings::kept(p) is Some)
            &&& u != t ==> after.probabilities.contains_key(u) == state.probabilities.contains_key(
                u,
            ) && after.probabilities[u] == state.probabilities[u]
            &&& settings::same_but_probabilities(after, state)
        }),
{
    settings::names_are_read(name@, t);
    settings::setting_a_probability(state, t, p, u);
}

/// A command that names no fault type is refused with that name, and changes
/// nothing.
pub proof fn unknown_names_are_refused(
    server: ServerState,
    state: InjectorState,
    time_ns: u64,
    name: String,
    target: Option<String>,
    p: Probability,
    readings: Readings,
)
    requires
        forall|t: FaultType| !settings::stands_for(name@, t),
    ensures
        ({
            let set = ControlCommand::SetFaultProbability { fault_type: name, probability: p };
            let scheduled = ControlCommand::ScheduleFault { time_ns, fault_type: name, target };
            let locked = InjectorBefore::Locked(state);
            let error = "Unknown fault type: "@ + name@;
            &&& is_failure(control::response_to(server, locked, set, readings), error)
            &&& is_failure(control::response_to(server, locked, scheduled, readings), error)
            &&& control::injector_after(state, set) == state
            &&& control::injector_after(state, scheduled) == state
        }),
{
    lemma_known_names(name@);
}

/// Enabling and disabling fault injection succeeds and does just that.
pub proof fn enable_command_enables(
    server: ServerState,
    state: InjectorState,
    enabled: bool,
    readings: Readings,
)
    ensures
        ({
            let command = ControlCommand::SetFaultInjectionEnabled { enabled };
            let after = control::injector_after(state, command);
            &&& is_success(
                control::response_to(server, InjectorBefore::Locked(state), command, readings),
                None,
            )
            &&& after.enabled == enabled
            &&& after.probabilities == state.probabilities
            &&& settings::same_but_probabilities(after, state)
        }),
{
}

/// The fault statistics are answered as the injector has them.
pub proof fn fault_statistics_are_answered(
    server: ServerState,
    state: InjectorState,
    readings: Readings,
)
    ensures
        ({
            let response = control::response_to(
                server,
                InjectorBefore::Locked(state),
                ControlCommand::GetFaultStats,
                readings,
            );
            &&& response.success
            &&& response.error is None
            &&& response.data matches Some(DataView::FaultStats(stats)) && {
                &&& stats.enabled == state.enabled
                &&& stats.checks_performed == state.fault_checks
                &&& stats.faults_injected == state.faults_injected
                &&& stats.probabilities == state.probabilities
                &&& stats.scheduled_faults_pending as int == schedule::unconsumed(
                    state.schedule,
                ) as int % (u64::MAX + 1)
            }
        }),
{
}

/// Commands that neither set a probability, nor schedule a fault, nor enable or
/// disable fault injection leave the injector as it is.
pub proof fn other_commands_leave_the_injector(state: InjectorState, command: ControlCommand)
    requires
        !(command is SetFaultProbability),
        !(command is ScheduleFault),
        !(command is SetFaultInjectionEnabled),
    ensures
        control::injector_after(state, command) == state,
{
}

/// What each command needs to be handled.
pub proof fn needs_of_commands(command: ControlCommand)
    ensures
        control::uses_time(command) <==> command is GetTime || command is GetStats,
        control::uses_scheduler(command) <==> command is GetStats || command is GetSchedulerState,
        control::uses_injector(command) <==> command is SetFaultProbability
            || command is ScheduleFault || command is GetFaultStats
            || command is SetFaultInjectionEnabled,
{
}

/// A command finds the fault injector as it is given.
pub proof fn injector_is_found_as_given(access: InjectorAccess<'_>)
    ensures
        access is Absent ==> control::before(access) == InjectorBefore::Absent,
        access is LockFailed ==> control::before(access) == InjectorBefore::LockFailed,
        access matches InjectorAccess::Locked(injector) ==> control::before(access)
            == InjectorBefore::Locked(injector@),
{
}

/// Data that cannot be serialized is reported as the scheduler state or as
/// statistics, with what the serializer says of it.
pub proof fn serialization_failures_are_reported(data: DataView, detail: Seq<char>)
    ensures
        data is SchedulerState ==> control::serialize_error(data, detail)
            == "Failed to serialize state: "@ + detail,
        data is Stats || data is FaultStats ==> control::serialize_error(data, detail)
            == "Failed to serialize stats: "@ + detail,
{
}

/// Responses, their data and snapshots mean what their fields hold.
pub proof fn fields_are_what_is_meant(
    response: ControlResponse,
    data: ResponseData,
    snapshot: SchedulerSnapshot,
)
    ensures
        response@.success == response.success,
        response.data is None ==> response@.data is None,
        response.data matches Some(d) ==> response@.data == Some(d@),
        response.error is None ==> response@.error is None,
        response.error matches Some(e) ==> response@.error == Some(e@),
        data is Pong ==> data@ == DataView::Pong,
        data matches ResponseData::Time { time_ns } ==> data@ == DataView::Time(time_ns),
        data matches ResponseData::Stats(stats) ==> data@ == DataView::Stats(stats),
        data matches ResponseData::SchedulerState(s) ==> data@ == DataView::SchedulerState(s@),
        data matches ResponseData::Paused { paused } ==> data@ == DataView::Paused(paused),
        data matches ResponseData::Seed { seed } ==> data@ == DataView::Seed(seed),
        data matches ResponseData::FaultStats(stats) ==> data@ == DataView::FaultStats(stats@),
        snapshot@.current_thread == snapshot.current_thread,
        snapshot@.run_queue == snapshot.run_queue@,
        snapshot@.blocked_threads == snapshot.blocked_threads@,
        snapshot@.is_paused == snapshot.is_paused,
{
}

} // verus!
