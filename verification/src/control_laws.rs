//! What holds of the control protocol as a whole.

pub mod commands;

use vstd::prelude::*;

use crate::control;
use crate::control::ControlCommand;
use crate::control::ControlStats;
use crate::control::DataView;
use crate::control::ExecutionStats;
use crate::control::InjectorBefore;
use crate::control::Readings;
use crate::control::ServerState;
use crate::fault_injection;
use crate::fault_injection::InjectorState;
use crate::fault_laws;
use crate::fault_type;
use crate::fault_type::FaultType;
use crate::probability;
use crate::probability::Probability;
use crate::serving;
use crate::serving::ClientEvent;
use crate::serving::ClientStep;
use crate::serving::ServerEvent;
use crate::serving::ServerStep;

verus! {

/// The fault injector after a command, however the command finds it.
pub open spec fn injector_left(injector: InjectorBefore, command: ControlCommand) -> InjectorBefore {
    match injector {
        InjectorBefore::Locked(state) => InjectorBefore::Locked(
            control::injector_after(state, command),
        ),
        _ => injector,
    }
}

/// A response either succeeds and has no error, or fails and has an error and
/// no data.
pub proof fn responses_are_consistent(
    server: ServerState,
    injector: InjectorBefore,
    command: ControlCommand,
    readings: Readings,
)
    ensures
        ({
            let response = control::response_to(server, injector, command, readings);
            &&& response.success == (response.error is None)
            &&& !response.success ==> response.data is None
        }),
{
}

/// A refused command changes nothing: neither the server nor the fault injector.
pub proof fn refused_commands_change_nothing(
    server: ServerState,
    injector: InjectorBefore,
    command: ControlCommand,
    readings: Readings,
)
    requires
        !control::response_to(server, injector, command, readings).success,
    ensures
        control::server_after(server, command) == server,
        injector_left(injector, command) == injector,
{
}

/// Only commands on the fault injector can be refused, and their responses
/// alone depend on it.
pub proof fn other_commands_do_without_the_injector(
    server: ServerState,
    injector: InjectorBefore,
    other: InjectorBefore,
    command: ControlCommand,
    readings: Readings,
)
    requires
        !control::uses_injector(command),
    ensures
        control::response_to(server, injector, command, readings).success,
        control::response_to(server, injector, command, readings) == control::response_to(
            server,
            other,
            command,
            readings,
        ),
        injector_left(injector, command) == injector,
{
}

/// A response depends on no reading that its command does not use.
pub proof fn unused_readings_do_not_matter(
    server: ServerState,
    injector: InjectorBefore,
    command: ControlCommand,
    a: Readings,
    b: Readings,
)
    requires
        control::uses_time(command) ==> a.time_ns == b.time_ns,
        control::uses_scheduler(command) ==> a.scheduler == b.scheduler,
    ensures
        control::response_to(server, injector, command, a) == control::response_to(
            server,
            injector,
            command,
            b,
        ),
{
}

/// What is recorded shows in the execution statistics, each counter in its own
/// field.
pub proof fn recorded_events_show_in_statistics(
    server: ServerState,
    stats: ControlStats,
    count: u64,
    readings: Readings,
)
    requires
        server.stats == Some(stats),
        stats.syscalls_intercepted < u64::MAX,
        stats.thread_switches < u64::MAX,
        stats.quanta_executed + count <= u64::MAX,
    ensures
        ({
            let before = control::execution_stats(server.stats, readings);
            &&& control::execution_stats(control::after_syscall(server).stats, readings) == (
            ExecutionStats {
                syscalls_intercepted: (before.syscalls_intercepted + 1) as u64,
                ..before
            })
            &&& control::execution_stats(control::after_thread_switch(server).stats, readings) == (
            ExecutionStats { thread_switches: (before.thread_switches + 1) as u64, ..before })
            &&& control::execution_stats(control::after_quanta(server, count).stats, readings) == (
            ExecutionStats { quanta_executed: (before.quanta_executed + count) as u64, ..before })
        }),
{
}

/// Without a fault injector every command on it is refused with the same words.
pub proof fn absent_injector_is_reported(
    server: ServerState,
    command: ControlCommand,
    readings: Readings,
)
    requires
        control::uses_injector(command),
    ensures
        control::response_to(server, InjectorBefore::Absent, command, readings)
            == control::error_response("Fault injector not available"@),
{
}

/// A pause is seen by the next question for it, and so is a resume.
pub proof fn pause_and_resume_are_seen(
    server: ServerState,
    injector: InjectorBefore,
    readings: Readings,
)
    ensures
        control::response_to(
            control::server_after(server, ControlCommand::Pause),
            injector,
            ControlCommand::IsPaused,
            readings,
        ) == control::data_response(DataView::Paused(true)),
        control::response_to(
            control::server_after(server, ControlCommand::Resume),
            injector,
            ControlCommand::IsPaused,
            readings,
        ) == control::data_response(DataView::Paused(false)),
        control::server_after(
            control::server_after(server, ControlCommand::Pause),
            ControlCommand::Resume,
        ) == (ServerState { paused: false, ..server }),
{
}

/// Whether a command only asks.
pub open spec fn only_asks(command: ControlCommand) -> bool {
    command is GetTime || command is GetStats || command is GetSchedulerState || command is IsPaused
        || command is GetSeed || command is Ping || command is GetFaultStats
}

/// A command that only asks changes nothing.
pub proof fn questions_change_nothing(
    server: ServerState,
    injector: InjectorBefore,
    command: ControlCommand,
)
    requires
        only_asks(command),
    ensures
        control::server_after(server, command) == server,
        injector_left(injector, command) == injector,
{
}

/// The state of the server after some commands.
pub open spec fn server_after_all(server: ServerState, commands: Seq<ControlCommand>) -> ServerState
    decreases commands.len(),
{
    if commands.len() == 0 {
        server
    } else {
        control::server_after(
            server_after_all(server, commands.drop_last()),
            commands.last(),
        )
    }
}

/// No command withdraws a shutdown, and none changes the seed or the counters.
pub proof fn shutdown_is_final(server: ServerState, commands: Seq<ControlCommand>)
    ensures
        server.shutdown ==> server_after_all(server, commands).shutdown,
        server_after_all(server, commands).seed == server.seed,
        server_after_all(server, commands).stats == server.stats,
    decreases commands.len(),
{
    if commands.len() > 0 {
        shutdown_is_final(server, commands.drop_last());
    }
}

/// Once a shutdown has been asked for, it stays in force whatever follows.
pub proof fn shutdown_takes_effect(
    server: ServerState,
    commands: Seq<ControlCommand>,
    i: int,
)
    requires
        0 <= i < commands.len(),
        commands[i] is Shutdown,
    ensures
        server_after_all(server, commands).shutdown,
    decreases commands.len(),
{
    if i < commands.len() - 1 {
        shutdown_takes_effect(server, commands.drop_last(), i);
    }
}

/// The pause flag is up exactly if some pause has been handled and no resume
/// after it, or if it was up before and no resume has been handled at all.
pub proof fn paused_exactly_if_not_resumed(server: ServerState, commands: Seq<ControlCommand>)
    ensures
        server_after_all(server, commands).paused <==> (exists|i: int|
            #![trigger commands[i]]
            0 <= i < commands.len() && commands[i] is Pause && forall|j: int|
                i < j < commands.len() ==> !(#[trigger] commands[j] is Resume)) || (server.paused
            && forall|j: int| 0 <= j < commands.len() ==> !(#[trigger] commands[j] is Resume)),
    decreases commands.len(),
{
    if commands.len() > 0 {
        let rest = commands.drop_last();
        let last = commands.len() - 1;
        paused_exactly_if_not_resumed(server, rest);
        assert forall|i: int| 0 <= i < last implies #[trigger] rest[i] == commands[i] by {}
        if !(commands[last] is Resume || commands[last] is Pause) {
            if exists|i: int|
                #![trigger rest[i]]
                0 <= i < rest.len() && rest[i] is Pause && forall|j: int|
                    i < j < rest.len() ==> !(#[trigger] rest[j] is Resume) {
                let i = choose|i: int|
                    #![trigger rest[i]]
                    0 <= i < rest.len() && rest[i] is Pause && forall|j: int|
                        i < j < rest.len() ==> !(#[trigger] rest[j] is Resume);
                assert forall|j: int| i < j < commands.len() implies !(
                #[trigger] commands[j] is Resume) by {
                    if j < last {
                        assert(rest[j] == commands[j]);
                    }
                }
                assert(commands[i] is Pause);
            }
            if exists|i: int|
                #![trigger commands[i]]
                0 <= i < commands.len() && commands[i] is Pause && forall|j: int|
                    i < j < commands.len() ==> !(#[trigger] commands[j] is Resume) {
                let i = choose|i: int|
                    #![trigger commands[i]]
                    0 <= i < commands.len() && commands[i] is Pause && forall|j: int|
                        i < j < commands.len() ==> !(#[trigger] commands[j] is Resume);
                assert(rest[i] is Pause);
                assert forall|j: int| i < j < rest.len() implies !(#[trigger] rest[j] is Resume) by {
                    assert(!(commands[j] is Resume));
                }
            }
            if forall|j: int| 0 <= j < rest.len() ==> !(#[trigger] rest[j] is Resume) {
                assert forall|j: int| 0 <= j < commands.len() implies !(
                #[trigger] commands[j] is Resume) by {
                    if j < last {
                        assert(rest[j] == commands[j]);
                    }
                }
            }
        }
    }
}

/// The shutdown flag is up only if it was up before or some shutdown has been
/// handled.
pub proof fn shutdown_was_asked_for(server: ServerState, commands: Seq<ControlCommand>)
    requires
        server_after_all(server, commands).shutdown,
    ensures
        server.shutdown || exists|i: int|
            0 <= i < commands.len() && #[trigger] commands[i] is Shutdown,
    decreases commands.len(),
{
    if commands.len() > 0 {
        let rest = commands.drop_last();
        if server_after_all(server, rest).shutdown {
            shutdown_was_asked_for(server, rest);
            if !server.shutdown {
                let i = choose|i: int| 0 <= i < rest.len() && #[trigger] rest[i] is Shutdown;
                assert(commands[i] is Shutdown);
            }
        } else {
            assert(commands[commands.len() - 1] is Shutdown);
        }
    }
}

/// A probability that was set under a name of a fault type shows in the fault
/// statistics, clamped; one that is not above zero shows as no probability.
pub proof fn set_probability_shows_in_statistics(
    server: ServerState,
    state: InjectorState,
    name: String,
    t: FaultType,
    p: Probability,
    readings: Readings,
)
    requires
        fault_type::fault_named(name@) == Some(t),
    ensures
        ({
            let command = ControlCommand::SetFaultProbability { fault_type: name, probability: p };
            let after = control::injector_after(state, command);
            let stats = fault_injection::stats_of(after);
            &&& control::response_to(server, InjectorBefore::Locked(state), command, readings)
                == control::ok_response()
            &&& control::response_to(
                server,
                InjectorBefore::Locked(after),
                ControlCommand::GetFaultStats,
                readings,
            ) == control::data_response(DataView::FaultStats(stats))
            &&& stats.probabilities.contains_key(t) == probability::less_than(
                probability::real_zero(),
                p@,
            )
            &&& stats.probabilities.contains_key(t) ==> stats.probabilities[t]
                == probability::clamped(p) && stats.enabled
        }),
{
    probability::lemma_clamped(p);
}

/// Every fault type can be set and scheduled under its own name.
pub proof fn own_names_are_accepted(
    server: ServerState,
    state: InjectorState,
    name: String,
    t: FaultType,
    p: Probability,
    time_ns: u64,
    target: Option<String>,
    readings: Readings,
)
    requires
        name@ == fault_type::fault_name(t),
    ensures
        control::response_to(
            server,
            InjectorBefore::Locked(state),
            ControlCommand::SetFaultProbability { fault_type: name, probability: p },
            readings,
        ) == control::ok_response(),
        control::response_to(
            server,
            InjectorBefore::Locked(state),
            ControlCommand::ScheduleFault { time_ns, fault_type: name, target },
            readings,
        ) == control::ok_response(),
{
    fault_laws::names_are_read_back(t);
}

/// Whether fault injection has been enabled or disabled shows in the statistics.
pub proof fn enabling_shows_in_statistics(state: InjectorState, enabled: bool)
    ensures
        fault_injection::stats_of(
            control::injector_after(
                state,
                ControlCommand::SetFaultInjectionEnabled { enabled },
            ),
        ).enabled == enabled,
{
}

/// Commands keep the fault injector valid.
pub proof fn commands_keep_the_injector_valid(state: InjectorState, command: ControlCommand)
    requires
        fault_injection::valid_state(state),
    ensures
        fault_injection::valid_state(control::injector_after(state, command)),
{
    match command {
        ControlCommand::SetFaultProbability { fault_type, probability } => {
            if fault_type::fault_named(fault_type@) is Some {
                let t = fault_type::fault_named(fault_type@).unwrap();
                fault_laws::calls_keep_states_valid(
                    state,
                    fault_laws::Operation::SetProbability(t, probability),
                );
            }
        },
        ControlCommand::ScheduleFault { time_ns, fault_type, target } => {
            if fault_type::fault_named(fault_type@) is Some {
                let t = fault_type::fault_named(fault_type@).unwrap();
                fault_laws::calls_keep_states_valid(
                    state,
                    fault_laws::Operation::Schedule(
                        crate::schedule::ScheduledFault {
                            time_ns,
                            fault_type: t,
                            target,
                            consumed: false,
                        },
                    ),
                );
            }
        },
        _ => {},
    }
}

/// Once the shutdown flag is up, the server accepts no client, and it cleans up
/// for no other reason; a client whose line has been answered is not read from
/// again.
pub proof fn shutdown_ends_service(event: ServerEvent, has_parent: bool, shutdown: bool)
    ensures
        shutdown ==> serving::server_step(event, has_parent, shutdown) != ServerStep::Accept,
        serving::server_step(event, has_parent, shutdown) == ServerStep::CleanUp ==> shutdown,
        shutdown ==> serving::client_step(ClientEvent::ResponseSent, shutdown)
            == ClientStep::Close,
{
}

/// Whether an event can be what a step leads to.
pub open spec fn can_follow(step: ClientStep, event: ClientEvent) -> bool {
    match step {
        ClientStep::ReadLine => event is EndOfInput || event is LineRead || event is ReadFailed,
        ClientStep::Handle => event is Handled,
        ClientStep::CheckStopped => event is ExecutionStopped || event is StillRunning,
        ClientStep::Wait { .. } => event is Waited,
        ClientStep::Respond => event is ResponseSent || event is SendFailed,
        ClientStep::Close | ClientStep::CloseWithError => false,
    }
}

/// Whether `events` are what happens on a connection, one after the other, where
/// `flags` are the values of the shutdown flag at each of them.
pub open spec fn is_conversation(events: Seq<ClientEvent>, flags: Seq<bool>) -> bool {
    &&& flags.len() == events.len()
    &&& forall|i: int|
        0 < i < events.len() ==> can_follow(
            serving::client_step(events[i - 1], flags[i - 1]),
            #[trigger] events[i],
        )
}

/// No answer to a pause goes out before execution has stopped: between the
/// handling of a pause and the next response that is sent, execution has been
/// found to have stopped.
pub proof fn pause_is_answered_once_it_has_taken_effect(
    events: Seq<ClientEvent>,
    flags: Seq<bool>,
    i: int,
    j: int,
)
    requires
        is_conversation(events, flags),
        0 <= i <= j < events.len(),
        events[i] == (ClientEvent::Handled { pauses: true }),
        serving::client_step(events[j], flags[j]) == ClientStep::Respond,
    ensures
        exists|k: int| i < k <= j && #[trigger] events[k] == ClientEvent::ExecutionStopped,
    decreases j,
{
    if events[j] != ClientEvent::ExecutionStopped {
        // A line that asks for no pause has been handled, so it has been read
        // after a response to what came before.
        assert(can_follow(serving::client_step(events[j - 1], flags[j - 1]), events[j]));
        assert(events[j - 1] == ClientEvent::LineRead);
        assert(can_follow(serving::client_step(events[j - 2], flags[j - 2]), events[j - 1]));
        assert(i < j - 2);
        assert(can_follow(serving::client_step(events[j - 3], flags[j - 3]), events[j - 2]));
        pause_is_answered_once_it_has_taken_effect(events, flags, i, j - 3);
    }
}

/// Once execution has stopped, the pause is answered; until then the server
/// goes on asking.
pub proof fn pause_is_answered_when_execution_stops(shutdown: bool)
    ensures
        serving::client_step(ClientEvent::Handled { pauses: true }, shutdown)
            == ClientStep::CheckStopped,
        serving::client_step(ClientEvent::ExecutionStopped, shutdown) == ClientStep::Respond,
        serving::client_step(ClientEvent::StillRunning, shutdown) == (ClientStep::Wait {
            millis: serving::POLL_INTERVAL_MS,
        }),
        serving::client_step(ClientEvent::Waited, shutdown) == ClientStep::CheckStopped,
{
}

/// Whether a response is sent on the event at position `i` of a conversation.
pub open spec fn responds_at(events: Seq<ClientEvent>, flags: Seq<bool>, i: int) -> bool {
    serving::client_step(events[i], flags[i]) == ClientStep::Respond
}

/// A connection is not closed before what has been handled on it is answered,
/// be it a pause or a shutdown.
pub proof fn handled_lines_are_answered_before_closing(
    events: Seq<ClientEvent>,
    flags: Seq<bool>,
    i: int,
    j: int,
)
    requires
        is_conversation(events, flags),
        0 <= i <= j < events.len(),
        events[i] is Handled,
        serving::client_step(events[j], flags[j]) == ClientStep::Close,
    ensures
        exists|k: int| i <= k < j && #[trigger] responds_at(events, flags, k),
{
    assert(can_follow(serving::client_step(events[j - 1], flags[j - 1]), events[j]));
    if events[j] == ClientEvent::ResponseSent {
        assert(responds_at(events, flags, j - 1));
    } else {
        assert(i < j - 1);
        assert(can_follow(serving::client_step(events[j - 2], flags[j - 2]), events[j - 1]));
        assert(responds_at(events, flags, j - 2));
    }
}

/// Between one line that is read and the next exactly one response is sent.
pub proof fn one_response_between_lines(
    events: Seq<ClientEvent>,
    flags: Seq<bool>,
    i: int,
    j: int,
)
    requires
        is_conversation(events, flags),
        0 <= i < j < events.len(),
        events[i] == ClientEvent::LineRead,
        events[j] == ClientEvent::LineRead,
        forall|m: int| i < m < j ==> #[trigger] events[m] != ClientEvent::LineRead,
    ensures
        exists|k: int|
            i < k < j && #[trigger] responds_at(events, flags, k) && forall|m: int|
                i < m < j && #[trigger] responds_at(events, flags, m) ==> m == k,
{
    assert(can_follow(serving::client_step(events[j - 1], flags[j - 1]), events[j]));
    assert(i < j - 1);
    assert(can_follow(serving::client_step(events[j - 2], flags[j - 2]), events[j - 1]));
    assert(i < j - 2);
    assert(responds_at(events, flags, j - 2));
    assert forall|m: int| i < m < j && #[trigger] responds_at(events, flags, m) implies m == j
        - 2 by {
        assert(can_follow(serving::client_step(events[m], flags[m]), events[m + 1]));
        assert(can_follow(serving::client_step(events[m + 1], flags[m + 1]), events[m + 2]));
        if m + 2 < j {
            assert(events[m + 2] != ClientEvent::LineRead);
            assert(can_follow(serving::client_step(events[m + 2], flags[m + 2]), events[m + 3]));
        }
    }
}

/// The number of lines read among the first `n` events.
pub open spec fn lines_among(events: Seq<ClientEvent>, n: nat) -> nat
    decreases n,
{
    if n == 0 {
        0
    } else {
        lines_among(events, (n - 1) as nat) + if events[n - 1] == ClientEvent::LineRead {
            1nat
        } else {
            0nat
        }
    }
}

/// The number of responses sent on the first `n` events.
pub open spec fn responses_among(events: Seq<ClientEvent>, flags: Seq<bool>, n: nat) -> nat
    decreases n,
{
    if n == 0 {
        0
    } else {
        responses_among(events, flags, (n - 1) as nat) + if responds_at(events, flags, n - 1) {
            1nat
        } else {
            0nat
        }
    }
}

/// Whether a line has been read whose response is not yet being sent.
pub open spec fn owes_response(event: ClientEvent) -> bool {
    event == ClientEvent::LineRead || event == (ClientEvent::Handled { pauses: true }) || event
        == ClientEvent::StillRunning || event == ClientEvent::Waited
}

/// From the opening of a connection on, every line gets one response: as many
/// responses are sent as lines are read, but for the one that is being handled.
pub proof fn every_line_is_answered(events: Seq<ClientEvent>, flags: Seq<bool>, n: nat)
    requires
        is_conversation(events, flags),
        0 < n <= events.len(),
        events[0] == ClientEvent::Opened,
    ensures
        lines_among(events, n) == responses_among(events, flags, n) + (if owes_response(
            events[n - 1],
        ) {
            1nat
        } else {
            0nat
        }),
    decreases n,
{
    if n > 1 {
        every_line_is_answered(events, flags, (n - 1) as nat);
        assert(can_follow(serving::client_step(events[n - 2], flags[n - 2]), events[n - 1]));
    } else {
        assert(lines_among(events, 0) == 0);
        assert(responses_among(events, flags, 0) == 0);
    }
}

/// A session ends with every line answered: when the connection is closed, as
/// many responses have been sent as lines have been read.
pub proof fn sessions_end_with_every_line_answered(
    events: Seq<ClientEvent>,
    flags: Seq<bool>,
    n: nat,
)
    requires
        is_conversation(events, flags),
        0 < n <= events.len(),
        events[0] == ClientEvent::Opened,
        serving::client_step(events[n - 1], flags[n - 1]) == ClientStep::Close,
    ensures
        lines_among(events, n) == responses_among(events, flags, n),
{
    every_line_is_answered(events, flags, n);
}

/// Once the shutdown flag is up when a line has been handled, no other line is
/// read: the response to this one is the last.
pub proof fn no_line_is_read_after_shutdown(
    events: Seq<ClientEvent>,
    flags: Seq<bool>,
    i: int,
    j: int,
)
    requires
        is_conversation(events, flags),
        0 <= i < j < events.len(),
        events[i] is Handled,
        forall|m: int| i <= m < flags.len() ==> #[trigger] flags[m],
    ensures
        events[j] != ClientEvent::LineRead,
{
    if events[j] == ClientEvent::LineRead {
        assert(can_follow(serving::client_step(events[j - 1], flags[j - 1]), events[j]));
        assert(i < j - 1);
        assert(can_follow(serving::client_step(events[j - 2], flags[j - 2]), events[j - 1]));
    }
}

/// Whether an event can be what a step of the server leads to.
pub open spec fn can_follow_step(step: ServerStep, event: ServerEvent) -> bool {
    match step {
        ServerStep::RemoveSocket => event is SocketRemoved || event is SetupFailed,
        ServerStep::CreateParent => event is ParentCreated || event is SetupFailed,
        ServerStep::Listen => event is Listening || event is SetupFailed,
        ServerStep::Accept => event is Connected || event is NothingPending
            || event is AcceptFailed,
        ServerStep::ServeClient => event is ClientServed,
        ServerStep::Wait { .. } => event is Waited,
        ServerStep::CleanUp => event is CleanedUp,
        ServerStep::Fail | ServerStep::Stop => false,
    }
}

/// Whether `events` are what happens to a server from its start on, where `flags`
/// are the values of the shutdown flag at each of them.
pub open spec fn is_run(events: Seq<ServerEvent>, has_parent: bool, flags: Seq<bool>) -> bool {
    &&& flags.len() == events.len()
    &&& events.len() > 0 ==> events[0] is Started
    &&& forall|i: int|
        0 < i < events.len() ==> can_follow_step(
            serving::server_step(events[i - 1], has_parent, flags[i - 1]),
            #[trigger] events[i],
        )
}

/// A server that listens stops only because of a shutdown, and it has removed
/// its socket before it does.
pub proof fn server_stops_after_shutdown(
    events: Seq<ServerEvent>,
    has_parent: bool,
    flags: Seq<bool>,
    j: int,
)
    requires
        is_run(events, has_parent, flags),
        0 <= j < events.len(),
        serving::server_step(events[j], has_parent, flags[j]) == ServerStep::Stop,
    ensures
        0 < j,
        flags[j - 1],
        serving::server_step(events[j - 1], has_parent, flags[j - 1]) == ServerStep::CleanUp,
{
    if j > 0 {
        assert(can_follow_step(
            serving::server_step(events[j - 1], has_parent, flags[j - 1]),
            events[j],
        ));
    }
}

/// A server fails only before it listens: once it does, no step is given up.
pub proof fn listening_server_does_not_fail(
    events: Seq<ServerEvent>,
    has_parent: bool,
    flags: Seq<bool>,
    i: int,
    j: int,
)
    requires
        is_run(events, has_parent, flags),
        0 <= i <= j < events.len(),
        events[i] == ServerEvent::Listening,
    ensures
        serving::server_step(events[j], has_parent, flags[j]) != ServerStep::Fail,
        !(events[j] is Started || events[j] is SocketRemoved || events[j] is ParentCreated
            || events[j] is SetupFailed),
    decreases j,
{
    if i < j {
        listening_server_does_not_fail(events, has_parent, flags, i, j - 1);
        assert(can_follow_step(
            serving::server_step(events[j - 1], has_parent, flags[j - 1]),
            events[j],
        ));
    }
}

/// A request asks for a pause exactly if it is the command to pause.
pub proof fn pauses_are_told_from_other_requests(request: Result<ControlCommand, String>)
    ensures
        request matches Ok(command) ==> serving::asks_for_pause(request) == (command is Pause),
        request is Err ==> !serving::asks_for_pause(request),
{
}

/// A session goes on from line to line: it is closed only at the end of the input,
/// when a read fails, or when a response has been sent and the shutdown flag is
/// up, and with an error only when a response cannot be sent. Until then the next
/// line is read.
pub proof fn sessions_go_on(event: ClientEvent, shutdown: bool)
    ensures
        serving::client_step(event, shutdown) == ClientStep::Close <==> event
            == ClientEvent::EndOfInput || event == ClientEvent::ReadFailed || (event
            == ClientEvent::ResponseSent && shutdown),
        serving::client_step(event, shutdown) == ClientStep::CloseWithError <==> event
            == ClientEvent::SendFailed,
        serving::client_step(event, shutdown) == ClientStep::ReadLine <==> event
            == ClientEvent::Opened || (event == ClientEvent::ResponseSent && !shutdown),
        serving::client_step(event, shutdown) == ClientStep::Handle <==> event
            == ClientEvent::LineRead,
{
}

/// A server goes on until it is shut down: whenever it is done with what came
/// before, it tries to accept a client unless the shutdown flag is up; it serves
/// every client that connects, and waits a tenth of a second where none does.
pub proof fn servers_go_on(event: ServerEvent, has_parent: bool, shutdown: bool)
    ensures
        ({
            let step = serving::server_step(event, has_parent, shutdown);
            let done = event == ServerEvent::Listening || event == ServerEvent::ClientServed
                || event == ServerEvent::Waited || event == ServerEvent::AcceptFailed;
            &&& step == ServerStep::Accept <==> done && !shutdown
            &&& step == ServerStep::CleanUp <==> done && shutdown
            &&& step == ServerStep::ServeClient <==> event == ServerEvent::Connected
            &&& step == (ServerStep::Wait { millis: 100 }) <==> event
                == ServerEvent::NothingPending
            &&& step == ServerStep::Fail <==> event == ServerEvent::SetupFailed
            &&& step == ServerStep::Stop <==> event == ServerEvent::CleanedUp
        }),
{
}

/// Before a server listens, it has removed a file that was in the place of its
/// socket, and created the directory that the socket is to be in.
pub proof fn servers_prepare_before_they_listen(
    events: Seq<ServerEvent>,
    has_parent: bool,
    flags: Seq<bool>,
    j: int,
)
    requires
        is_run(events, has_parent, flags),
        0 <= j < events.len(),
        serving::server_step(events[j], has_parent, flags[j]) == ServerStep::Listen,
    ensures
        events[0] == (ServerEvent::Started { socket_exists: true }) ==> exists|k: int|
            0 <= k < j && serving::server_step(#[trigger] events[k], has_parent, flags[k])
                == ServerStep::RemoveSocket,
        has_parent ==> exists|k: int|
            0 <= k < j && serving::server_step(#[trigger] events[k], has_parent, flags[k])
                == ServerStep::CreateParent,
        events[0] == (ServerEvent::Started { socket_exists: false }) ==> forall|k: int|
            0 <= k < events.len() ==> serving::server_step(
                #[trigger] events[k],
                has_parent,
                flags[k],
            ) != ServerStep::RemoveSocket,
{
    if j > 0 {
        assert(can_follow_step(
            serving::server_step(events[j - 1], has_parent, flags[j - 1]),
            events[j],
        ));
        if j > 1 {
            assert(can_follow_step(
                serving::server_step(events[j - 2], has_parent, flags[j - 2]),
                events[j - 1],
            ));
            if j > 2 {
                assert(can_follow_step(
                    serving::server_step(events[j - 3], has_parent, flags[j - 3]),
                    events[j - 2],
                ));
            }
        }
    }
    assert forall|k: int|
        0 <= k < events.len() && serving::server_step(#[trigger] events[k], has_parent, flags[k])
            == ServerStep::RemoveSocket implies events[0] == (ServerEvent::Started {
        socket_exists: true,
    }) by {
        if k > 0 {
            assert(can_follow_step(
                serving::server_step(events[k - 1], has_parent, flags[k - 1]),
                events[k],
            ));
        }
    }
}

} // verus!
