//! Control protocol for external coordination.
//!
//! External tools inspect and control an execution by sending commands, one
//! per line, and get one response per command:
//! - Client sends: `{"method": "GetTime"}\n`
//! - Server responds: `{"success": true, "data": {"time_ns": 12345}}\n`
//!
//! Here a command is a [`ControlCommand`], a response a [`ControlResponse`], and
//! the state that the commands read and change is a [`ControlServer`].

use vstd::prelude::*;

use crate::fault_injection;
use crate::fault_injection::FaultInjector;
use crate::fault_injection::FaultInjectorStats;
use crate::fault_type;
use crate::fault_type::FaultType;
use crate::probability::Probability;
use crate::schedule;
use crate::schedule::ScheduledFault;

verus! {

/// Commands that can be sent to the control server
#[derive(Debug)]
pub enum ControlCommand {
    /// Get current virtual time
    GetTime,
    /// Get execution statistics
    GetStats,
    /// Get scheduler state (thread list, run queue)
    GetSchedulerState,
    /// Pause execution (blocks until pause takes effect)
    Pause,
    /// Resume execution
    Resume,
    /// Check if execution is paused
    IsPaused,
    /// Get current seed
    GetSeed,
    /// Graceful shutdown
    Shutdown,
    /// Ping (for connection testing)
    Ping,
    /// Set fault probability for a specific type
    SetFaultProbability {
        /// The fault type (e.g., "disk_write", "network_connect")
        fault_type: String,
        /// Probability between 0.0 and 1.0
        probability: Probability,
    },
    /// Schedule a fault at a specific logical time
    ScheduleFault {
        /// Logical time in nanoseconds
        time_ns: u64,
        /// The fault type
        fault_type: String,
        /// Optional target filter
        target: Option<String>,
    },
    /// Get fault injection statistics
    GetFaultStats,
    /// Enable or disable fault injection
    SetFaultInjectionEnabled {
        /// Whether to enable
        enabled: bool,
    },
}

impl Clone for ControlCommand {
    fn clone(&self) -> (copy: Self)
        ensures
            copy == *self,
    {
        match self {
            ControlCommand::GetTime => ControlCommand::GetTime,
            ControlCommand::GetStats => ControlCommand::GetStats,
            ControlCommand::GetSchedulerState => ControlCommand::GetSchedulerState,
            ControlCommand::Pause => ControlCommand::Pause,
            ControlCommand::Resume => ControlCommand::Resume,
            ControlCommand::IsPaused => ControlCommand::IsPaused,
            ControlCommand::GetSeed => ControlCommand::GetSeed,
            ControlCommand::Shutdown => ControlCommand::Shutdown,
            ControlCommand::Ping => ControlCommand::Ping,
            ControlCommand::SetFaultProbability { fault_type, probability } => {
                ControlCommand::SetFaultProbability {
                    fault_type: fault_type.clone(),
                    probability: *probability,
                }
            },
            ControlCommand::ScheduleFault { time_ns, fault_type, target } => {
                let target: Option<String> = match target {
                    Some(filter) => Some(filter.clone()),
                    None => None,
                };
                ControlCommand::ScheduleFault {
                    time_ns: *time_ns,
                    fault_type: fault_type.clone(),
                    target,
                }
            },
            ControlCommand::GetFaultStats => ControlCommand::GetFaultStats,
            ControlCommand::SetFaultInjectionEnabled { enabled } => {
                ControlCommand::SetFaultInjectionEnabled { enabled: *enabled }
            },
        }
    }
}

/// Execution statistics
#[derive(Debug, Clone, Copy, PartialEq, Eq, Structural)]
pub struct ExecutionStats {
    /// Total syscalls intercepted
    pub syscalls_intercepted: u64,
    /// Total thread switches
    pub thread_switches: u64,
    /// Current virtual time (nanoseconds)
    pub time_ns: u64,
    /// Number of active threads
    pub active_threads: u32,
    /// Number of blocked threads
    pub blocked_threads: u32,
    /// Total RCB quanta executed
    pub quanta_executed: u64,
}

/// Scheduler state snapshot
#[derive(Debug)]
pub struct SchedulerSnapshot {
    /// Currently running thread ID (if any)
    pub current_thread: Option<i32>,
    /// Thread IDs in run queue (ordered by priority)
    pub run_queue: Vec<i32>,
    /// Thread IDs blocked on I/O or futex
    pub blocked_threads: Vec<i32>,
    /// Whether scheduler is paused
    pub is_paused: bool,
}

/// What a snapshot says.
#[verifier::ext_equal]
pub struct SnapshotView {
    /// Currently running thread ID (if any)
    pub current_thread: Option<i32>,
    /// Thread IDs in run queue (ordered by priority)
    pub run_queue: Seq<i32>,
    /// Thread IDs blocked on I/O or futex
    pub blocked_threads: Seq<i32>,
    /// Whether scheduler is paused
    pub is_paused: bool,
}

impl View for SchedulerSnapshot {
    type V = SnapshotView;

    open spec fn view(&self) -> SnapshotView {
        SnapshotView {
            current_thread: self.current_thread,
            run_queue: self.run_queue@,
            blocked_threads: self.blocked_threads@,
            is_paused: self.is_paused,
        }
    }
}

impl Clone for SchedulerSnapshot {
    fn clone(&self) -> (copy: Self)
        ensures
            copy@ == self@,
    {
        SchedulerSnapshot {
            current_thread: self.current_thread,
            run_queue: copy_ids(&self.run_queue),
            blocked_threads: copy_ids(&self.blocked_threads),
            is_paused: self.is_paused,
        }
    }
}

/// A copy of a list of thread IDs.
fn copy_ids(ids: &Vec<i32>) -> (copy: Vec<i32>)
    ensures
        copy@ == ids@,
{
    let copy: Vec<i32> = ids.clone();
    assert(copy@ =~= ids@);
    copy
}

/// Response data (command-specific)
#[derive(Debug)]
pub enum ResponseData {
    /// Answer to a ping.
    Pong,
    /// Current virtual time.
    Time {
        /// Nanoseconds.
        time_ns: u64,
    },
    /// Execution statistics.
    Stats(ExecutionStats),
    /// Scheduler state.
    SchedulerState(SchedulerSnapshot),
    /// Whether execution is paused.
    Paused {
        /// The pause flag.
        paused: bool,
    },
    /// Seed used for this run.
    Seed {
        /// The seed.
        seed: u64,
    },
    /// Fault injection statistics.
    FaultStats(FaultInjectorStats),
}

/// What response data says.
#[verifier::ext_equal]
pub enum DataView {
    /// Answer to a ping.
    Pong,
    /// Current virtual time.
    Time(u64),
    /// Execution statistics.
    Stats(ExecutionStats),
    /// Scheduler state.
    SchedulerState(SnapshotView),
    /// Whether execution is paused.
    Paused(bool),
    /// Seed used for this run.
    Seed(u64),
    /// Fault injection statistics.
    FaultStats(fault_injection::StatsView),
}

impl View for ResponseData {
    type V = DataView;

    open spec fn view(&self) -> DataView {
        match *self {
            ResponseData::Pong => DataView::Pong,
            ResponseData::Time { time_ns } => DataView::Time(time_ns),
            ResponseData::Stats(stats) => DataView::Stats(stats),
            ResponseData::SchedulerState(snapshot) => DataView::SchedulerState(snapshot@),
            ResponseData::Paused { paused } => DataView::Paused(paused),
            ResponseData::Seed { seed } => DataView::Seed(seed),
            ResponseData::FaultStats(stats) => DataView::FaultStats(stats@),
        }
    }
}

impl Clone for ResponseData {
    fn clone(&self) -> (copy: Self)
        ensures
            copy@ == self@,
    {
        match self {
            ResponseData::Pong => ResponseData::Pong,
            ResponseData::Time { time_ns } => ResponseData::Time { time_ns: *time_ns },
            ResponseData::Stats(stats) => ResponseData::Stats(*stats),
            ResponseData::SchedulerState(snapshot) => ResponseData::SchedulerState(
                snapshot.clone(),
            ),
            ResponseData::Paused { paused } => ResponseData::Paused { paused: *paused },
            ResponseData::Seed { seed } => ResponseData::Seed { seed: *seed },
            ResponseData::FaultStats(stats) => ResponseData::FaultStats(stats.clone()),
        }
    }
}

/// Response from control server
#[derive(Debug)]
pub struct ControlResponse {
    /// Whether the command succeeded
    pub success: bool,
    /// Response data (command-specific)
    pub data: Option<ResponseData>,
    /// Error message if failed
    pub error: Option<String>,
}

/// What a response says.
#[verifier::ext_equal]
pub struct ResponseView {
    /// Whether the command succeeded
    pub success: bool,
    /// Response data (command-specific)
    pub data: Option<DataView>,
    /// Error message if failed
    pub error: Option<Seq<char>>,
}

impl View for ControlResponse {
    type V = ResponseView;

    open spec fn view(&self) -> ResponseView {
        ResponseView {
            success: self.success,
            data: match self.data {
                Some(data) => Some(data@),
                None => None,
            },
            error: fault_injection::optional_text(self.error),
        }
    }
}

/// Success without data.
pub open spec fn ok_response() -> ResponseView {
    ResponseView { success: true, data: None, error: None }
}

/// Success with data.
pub open spec fn data_response(data: DataView) -> ResponseView {
    ResponseView { success: true, data: Some(data), error: None }
}

/// Failure with a message.
pub open spec fn error_response(message: Seq<char>) -> ResponseView {
    ResponseView { success: false, data: None, error: Some(message) }
}

impl Clone for ControlResponse {
    fn clone(&self) -> (copy: Self)
        ensures
            copy@ == self@,
    {
        let data: Option<ResponseData> = match &self.data {
            Some(data) => Some(data.clone()),
            None => None,
        };
        let error: Option<String> = match &self.error {
            Some(message) => Some(message.clone()),
            None => None,
        };
        ControlResponse { success: self.success, data, error }
    }
}

impl ControlResponse {
    /// Create a success response with no data
    pub fn ok() -> (response: ControlResponse)
        ensures
            response@ == ok_response(),
    {
        ControlResponse { success: true, data: None, error: None }
    }

    /// Create a success response with data
    pub fn ok_with_data(data: ResponseData) -> (response: ControlResponse)
        ensures
            response@ == data_response(data@),
            response.data == Some(data),
    {
        ControlResponse { success: true, data: Some(data), error: None }
    }

    /// Create an error response
    pub fn err(message: &str) -> (response: ControlResponse)
        ensures
            response@ == error_response(message@),
    {
        ControlResponse { success: false, data: None, error: Some(message.to_owned()) }
    }
}

/// An error response whose message is a prefix and a detail.
fn err_with_detail(prefix: &str, detail: &str) -> (response: ControlResponse)
    ensures
        response@ == error_response(prefix@ + detail@),
{
    let mut message: String = prefix.to_owned();
    message.append(detail);
    ControlResponse::err(message.as_str())
}

/// The message for data that could not be serialized.
pub open spec fn serialize_error(data: DataView, detail: Seq<char>) -> Seq<char> {
    match data {
        DataView::SchedulerState(_) => "Failed to serialize state: "@ + detail,
        _ => "Failed to serialize stats: "@ + detail,
    }
}

/// The response in place of one whose data could not be serialized, with what
/// the serializer says of it.
pub fn serialize_failure(data: &ResponseData, detail: &str) -> (response: ControlResponse)
    ensures
        response@ == error_response(serialize_error(data@, detail@)),
{
    match data {
        ResponseData::SchedulerState(_) => err_with_detail("Failed to serialize state: ", detail),
        _ => err_with_detail("Failed to serialize stats: ", detail),
    }
}

/// The line that carries a serialized response: the text and a newline.
pub fn response_line(serialized: &str) -> (line: String)
    ensures
        line@ == serialized@ + "\n"@,
{
    let mut line: String = serialized.to_owned();
    line.append("\n");
    line
}

/// What the control server reads of the scheduler.
#[derive(Debug)]
pub struct SchedulerReading {
    /// Number of active threads.
    pub active_threads: usize,
    /// Number of blocked threads.
    pub blocked_threads: usize,
    /// Currently running thread ID (if any).
    pub current_thread: Option<i32>,
    /// Thread IDs in run queue (ordered by priority).
    pub run_queue: Vec<i32>,
    /// Thread IDs blocked on I/O or futex.
    pub blocked_ids: Vec<i32>,
}

/// What the control server reads of the execution that it controls. A part
/// that cannot be locked is `None`.
#[derive(Debug)]
pub struct Readings {
    /// Current virtual time in nanoseconds.
    pub time_ns: Option<u64>,
    /// The scheduler.
    pub scheduler: Option<SchedulerReading>,
}

/// Internal stats tracking
#[derive(Debug, Clone, Copy, PartialEq, Eq, Structural)]
pub struct ControlStats {
    /// Syscalls intercepted.
    pub syscalls_intercepted: u64,
    /// Thread switches.
    pub thread_switches: u64,
    /// RCB quanta executed.
    pub quanta_executed: u64,
}

impl Default for ControlStats {
    fn default() -> (stats: Self)
        ensures
            stats == (ControlStats {
                syscalls_intercepted: 0,
                thread_switches: 0,
                quanta_executed: 0,
            }),
    {
        ControlStats { syscalls_intercepted: 0, thread_switches: 0, quanta_executed: 0 }
    }
}

/// The current time: zero where it cannot be read.
pub open spec fn current_time(readings: Readings) -> u64 {
    match readings.time_ns {
        Some(time_ns) => time_ns,
        None => 0,
    }
}

/// A count cut to 32 bits.
pub open spec fn low_32_bits(n: usize) -> u32 {
    (n as nat % 0x1_0000_0000) as u32
}

/// The execution statistics: zero for whatever cannot be read.
pub open spec fn execution_stats(
    counters: Option<ControlStats>,
    readings: Readings,
) -> ExecutionStats {
    let c = match counters {
        Some(counters) => counters,
        None => ControlStats { syscalls_intercepted: 0, thread_switches: 0, quanta_executed: 0 },
    };
    ExecutionStats {
        syscalls_intercepted: c.syscalls_intercepted,
        thread_switches: c.thread_switches,
        time_ns: current_time(readings),
        active_threads: match readings.scheduler {
            Some(scheduler) => low_32_bits(scheduler.active_threads),
            None => 0,
        },
        blocked_threads: match readings.scheduler {
            Some(scheduler) => low_32_bits(scheduler.blocked_threads),
            None => 0,
        },
        quanta_executed: c.quanta_executed,
    }
}

/// The snapshot of the scheduler: without threads where it cannot be read.
pub open spec fn snapshot_of(paused: bool, readings: Readings) -> SnapshotView {
    match readings.scheduler {
        Some(scheduler) => SnapshotView {
            current_thread: scheduler.current_thread,
            run_queue: scheduler.run_queue@,
            blocked_threads: scheduler.blocked_ids@,
            is_paused: paused,
        },
        None => SnapshotView {
            current_thread: None,
            run_queue: Seq::empty(),
            blocked_threads: Seq::empty(),
            is_paused: paused,
        },
    }
}

/// Cuts a count to 32 bits.
fn cut_to_32_bits(n: usize) -> (low: u32)
    ensures
        low == low_32_bits(n),
{
    let wide: u64 = n as u64;
    (wide % 0x1_0000_0000) as u32
}

/// The state of a control server.
pub struct ServerState {
    /// Seed used for this run.
    pub seed: u64,
    /// Pause flag.
    pub paused: bool,
    /// Shutdown flag.
    pub shutdown: bool,
    /// Stats counters; `None` once they cannot be read or written any more.
    pub stats: Option<ControlStats>,
}

/// The fault injector as a command finds it.
#[derive(Debug)]
pub enum InjectorAccess<'a> {
    /// The server has no fault injector.
    Absent,
    /// The fault injector could not be locked.
    LockFailed,
    /// The fault injector is locked.
    Locked(&'a mut FaultInjector),
}

/// The fault injector before a command.
pub enum InjectorBefore {
    /// The server has no fault injector.
    Absent,
    /// The fault injector could not be locked.
    LockFailed,
    /// The state of the locked fault injector.
    Locked(fault_injection::InjectorState),
}

/// How a command finds the fault injector.
pub open spec fn before(access: InjectorAccess<'_>) -> InjectorBefore {
    match access {
        InjectorAccess::Absent => InjectorBefore::Absent,
        InjectorAccess::LockFailed => InjectorBefore::LockFailed,
        InjectorAccess::Locked(injector) => InjectorBefore::Locked(injector@),
    }
}

/// The response to a command that needs the fault injector and not its state.
pub open spec fn injector_response(injector: InjectorBefore) -> ResponseView {
    match injector {
        InjectorBefore::Absent => error_response("Fault injector not available"@),
        InjectorBefore::LockFailed => error_response("Failed to lock fault injector"@),
        InjectorBefore::Locked(_) => ok_response(),
    }
}

/// The response to a command that names a fault type. That there is no fault
/// injector goes before a name that is not known, and that before a lock that
/// fails.
pub open spec fn named_fault_response(injector: InjectorBefore, name: Seq<char>) -> ResponseView {
    if injector !is Absent && fault_type::fault_named(name) is None {
        error_response("Unknown fault type: "@ + name)
    } else {
        injector_response(injector)
    }
}

/// The response to a command.
pub open spec fn response_to(
    server: ServerState,
    injector: InjectorBefore,
    command: ControlCommand,
    readings: Readings,
) -> ResponseView {
    match command {
        ControlCommand::Ping => data_response(DataView::Pong),
        ControlCommand::GetTime => data_response(DataView::Time(current_time(readings))),
        ControlCommand::GetStats => data_response(
            DataView::Stats(execution_stats(server.stats, readings)),
        ),
        ControlCommand::GetSchedulerState => data_response(
            DataView::SchedulerState(snapshot_of(server.paused, readings)),
        ),
        ControlCommand::Pause => ok_response(),
        ControlCommand::Resume => ok_response(),
        ControlCommand::IsPaused => data_response(DataView::Paused(server.paused)),
        ControlCommand::GetSeed => data_response(DataView::Seed(server.seed)),
        ControlCommand::Shutdown => ok_response(),
        ControlCommand::SetFaultProbability { fault_type, probability: _ } => named_fault_response(
            injector,
            fault_type@,
        ),
        ControlCommand::ScheduleFault { time_ns: _, fault_type, target: _ } => named_fault_response(
            injector,
            fault_type@,
        ),
        ControlCommand::GetFaultStats => match injector {
            InjectorBefore::Locked(state) => data_response(
                DataView::FaultStats(fault_injection::stats_of(state)),
            ),
            _ => injector_response(injector),
        },
        ControlCommand::SetFaultInjectionEnabled { enabled: _ } => injector_response(injector),
    }
}

/// The state of the server after a command.
pub open spec fn server_after(server: ServerState, command: ControlCommand) -> ServerState {
    match command {
        ControlCommand::Pause => ServerState { paused: true, ..server },
        ControlCommand::Resume => ServerState { paused: false, ..server },
        ControlCommand::Shutdown => ServerState { shutdown: true, ..server },
        _ => server,
    }
}

/// The state of the fault injector after a command.
pub open spec fn injector_after(
    state: fault_injection::InjectorState,
    command: ControlCommand,
) -> fault_injection::InjectorState {
    match command {
        ControlCommand::SetFaultProbability { fault_type, probability } => {
            match fault_type::fault_named(fault_type@) {
                Some(t) => fault_injection::with_probability(state, t, probability),
                None => state,
            }
        },
        ControlCommand::ScheduleFault { time_ns, fault_type, target } => {
            match fault_type::fault_named(fault_type@) {
                Some(t) => fault_injection::InjectorState {
                    schedule: schedule::with_fault(
                        state.schedule,
                        ScheduledFault { time_ns, fault_type: t, target, consumed: false },
                    ),
                    ..state
                },
                None => state,
            }
        },
        ControlCommand::SetFaultInjectionEnabled { enabled } => fault_injection::InjectorState {
            enabled,
            ..state
        },
        _ => state,
    }
}

/// The state after a syscall has been recorded.
pub open spec fn after_syscall(server: ServerState) -> ServerState {
    match server.stats {
        Some(stats) => ServerState {
            stats: Some(
                ControlStats {
                    syscalls_intercepted: (stats.syscalls_intercepted + 1) as u64,
                    ..stats
                },
            ),
            ..server
        },
        None => server,
    }
}

/// The state after a thread switch has been recorded.
pub open spec fn after_thread_switch(server: ServerState) -> ServerState {
    match server.stats {
        Some(stats) => ServerState {
            stats: Some(
                ControlStats { thread_switches: (stats.thread_switches + 1) as u64, ..stats },
            ),
            ..server
        },
        None => server,
    }
}

/// The state after `count` quanta have been recorded.
pub open spec fn after_quanta(server: ServerState, count: u64) -> ServerState {
    match server.stats {
        Some(stats) => ServerState {
            stats: Some(
                ControlStats { quanta_executed: (stats.quanta_executed + count) as u64, ..stats },
            ),
            ..server
        },
        None => server,
    }
}

/// Whether a command reads the virtual time.
pub open spec fn uses_time(command: ControlCommand) -> bool {
    command is GetTime || command is GetStats
}

/// Whether a command reads the scheduler.
pub open spec fn uses_scheduler(command: ControlCommand) -> bool {
    command is GetStats || command is GetSchedulerState
}

/// Whether a command reads or changes the fault injector.
pub open spec fn uses_injector(command: ControlCommand) -> bool {
    command is SetFaultProbability || command is ScheduleFault || command is GetFaultStats
        || command is SetFaultInjectionEnabled
}

impl ControlCommand {
    /// Whether this command reads the virtual time.
    pub fn needs_time(&self) -> (needs: bool)
        ensures
            needs == uses_time(*self),
    {
        match self {
            ControlCommand::GetTime => true,
            ControlCommand::GetStats => true,
            _ => false,
        }
    }

    /// Whether this command reads the scheduler.
    pub fn needs_scheduler(&self) -> (needs: bool)
        ensures
            needs == uses_scheduler(*self),
    {
        match self {
            ControlCommand::GetStats => true,
            ControlCommand::GetSchedulerState => true,
            _ => false,
        }
    }

    /// Whether this command reads or changes the fault injector.
    pub fn needs_fault_injector(&self) -> (needs: bool)
        ensures
            needs == uses_injector(*self),
    {
        match self {
            ControlCommand::SetFaultProbability { .. } => true,
            ControlCommand::ScheduleFault { .. } => true,
            ControlCommand::GetFaultStats => true,
            ControlCommand::SetFaultInjectionEnabled { .. } => true,
            _ => false,
        }
    }
}

/// Control server state
#[derive(Debug)]
pub struct ControlServer {
    /// Seed used for this run
    seed: u64,
    /// Pause flag
    paused: bool,
    /// Shutdown flag
    shutdown: bool,
    /// Stats counters; `None` once they cannot be read or written any more
    stats: Option<ControlStats>,
}

impl View for ControlServer {
    type V = ServerState;

    closed spec fn view(&self) -> ServerState {
        ServerState {
            seed: self.seed,
            paused: self.paused,
            shutdown: self.shutdown,
            stats: self.stats,
        }
    }
}

impl ControlServer {
    /// Create a new control server
    pub fn new(seed: u64) -> (server: ControlServer)
        ensures
            server@ == (ServerState {
                seed,
                paused: false,
                shutdown: false,
                stats: Some(
                    ControlStats {
                        syscalls_intercepted: 0,
                        thread_switches: 0,
                        quanta_executed: 0,
                    },
                ),
            }),
    {
        ControlServer {
            seed,
            paused: false,
            shutdown: false,
            stats: Some(ControlStats::default()),
        }
    }

    /// Get pause flag (for scheduler to check)
    pub fn paused(&self) -> (paused: bool)
        ensures
            paused == self@.paused,
    {
        self.paused
    }

    /// Get shutdown flag
    pub fn shutdown_flag(&self) -> (shutdown: bool)
        ensures
            shutdown == self@.shutdown,
    {
        self.shutdown
    }

    /// Takes over flags that are shared with the rest of the program, which may
    /// have changed them.
    pub fn set_flags(&mut self, paused: bool, shutdown: bool)
        ensures
            final(self)@ == (ServerState { paused, shutdown, ..old(self)@ }),
    {
        self.paused = paused;
        self.shutdown = shutdown;
    }

    /// Gives up the stats counters, as when the lock on them is poisoned: from
    /// then on they are read as zero, and nothing is counted.
    pub fn lose_counters(&mut self)
        ensures
            final(self)@ == (ServerState { stats: None, ..old(self)@ }),
    {
        self.stats = None;
    }

    /// Get the stats counters
    pub fn counters(&self) -> (stats: Option<ControlStats>)
        ensures
            stats == self@.stats,
    {
        self.stats
    }

    /// Increment syscall counter
    pub fn record_syscall(&mut self)
        requires
            old(self)@.stats matches Some(stats) ==> stats.syscalls_intercepted < u64::MAX,
        ensures
            final(self)@ == after_syscall(old(self)@),
    {
        if let Some(stats) = self.stats {
            self.stats = Some(
                ControlStats { syscalls_intercepted: stats.syscalls_intercepted + 1, ..stats },
            );
        }
    }

    /// Increment thread switch counter
    pub fn record_thread_switch(&mut self)
        requires
            old(self)@.stats matches Some(stats) ==> stats.thread_switches < u64::MAX,
        ensures
            final(self)@ == after_thread_switch(old(self)@),
    {
        if let Some(stats) = self.stats {
            self.stats = Some(ControlStats { thread_switches: stats.thread_switches + 1, ..stats });
        }
    }

    /// Increment quanta counter
    pub fn record_quanta(&mut self, count: u64)
        requires
            old(self)@.stats matches Some(stats) ==> stats.quanta_executed + count <= u64::MAX,
        ensures
            final(self)@ == after_quanta(old(self)@, count),
    {
        if let Some(stats) = self.stats {
            self.stats = Some(
                ControlStats { quanta_executed: (stats.quanta_executed + count), ..stats },
            );
        }
    }

    /// Get current virtual time in nanoseconds
    pub fn get_current_time_ns(&self, readings: &Readings) -> (time_ns: u64)
        ensures
            time_ns == current_time(*readings),
    {
        match readings.time_ns {
            Some(time_ns) => time_ns,
            None => 0,
        }
    }

    /// Get execution statistics
    pub fn get_stats(&self, readings: &Readings) -> (stats: ExecutionStats)
        ensures
            stats == execution_stats(self@.stats, *readings),
    {
        let counted: ControlStats = match self.stats {
            Some(counted) => counted,
            None => ControlStats::default(),
        };
        let (active, blocked): (u32, u32) = match &readings.scheduler {
            Some(scheduler) => (
                cut_to_32_bits(scheduler.active_threads),
                cut_to_32_bits(scheduler.blocked_threads),
            ),
            None => (0, 0),
        };
        ExecutionStats {
            syscalls_intercepted: counted.syscalls_intercepted,
            thread_switches: counted.thread_switches,
            time_ns: self.get_current_time_ns(readings),
            active_threads: active,
            blocked_threads: blocked,
            quanta_executed: counted.quanta_executed,
        }
    }

    /// Get scheduler state snapshot
    pub fn get_scheduler_state(&self, readings: &Readings) -> (snapshot: SchedulerSnapshot)
        ensures
            snapshot@ == snapshot_of(self@.paused, *readings),
    {
        match &readings.scheduler {
            Some(scheduler) => SchedulerSnapshot {
                current_thread: scheduler.current_thread,
                run_queue: copy_ids(&scheduler.run_queue),
                blocked_threads: copy_ids(&scheduler.blocked_ids),
                is_paused: self.paused,
            },
            None => SchedulerSnapshot {
                current_thread: None,
                run_queue: Vec::new(),
                blocked_threads: Vec::new(),
                is_paused: self.paused,
            },
        }
    }

    /// Handle a single command
    ///
    /// The response to a pause says that the pause has taken effect, so it is
    /// not sent before execution has stopped: see
    /// [`next_client_step`](crate::serving::next_client_step).
    pub fn handle_command(
        &mut self,
        command: ControlCommand,
        readings: &Readings,
        injector: InjectorAccess<'_>,
    ) -> (response: ControlResponse)
        ensures
            response@ == response_to(old(self)@, before(injector), command, *readings),
            final(self)@ == server_after(old(self)@, command),
            injector matches InjectorAccess::Locked(fi) ==> final(fi)@ == injector_after(
                fi@,
                command,
            ) && (fault_injection::valid_state(fi@) ==> fault_injection::valid_state(final(fi)@)),
    {
        match command {
            ControlCommand::Ping => ControlResponse::ok_with_data(ResponseData::Pong),
            ControlCommand::GetTime => {
                let time_ns: u64 = self.get_current_time_ns(readings);
                ControlResponse::ok_with_data(ResponseData::Time { time_ns })
            },
            ControlCommand::GetStats => {
                ControlResponse::ok_with_data(ResponseData::Stats(self.get_stats(readings)))
            },
            ControlCommand::GetSchedulerState => {
                ControlResponse::ok_with_data(
                    ResponseData::SchedulerState(self.get_scheduler_state(readings)),
                )
            },
            ControlCommand::Pause => {
                self.paused = true;
                ControlResponse::ok()
            },
            ControlCommand::Resume => {
                self.paused = false;
                ControlResponse::ok()
            },
            ControlCommand::IsPaused => {
                ControlResponse::ok_with_data(ResponseData::Paused { paused: self.paused })
            },
            ControlCommand::GetSeed => {
                ControlResponse::ok_with_data(ResponseData::Seed { seed: self.seed })
            },
            ControlCommand::Shutdown => {
                self.shutdown = true;
                ControlResponse::ok()
            },
            ControlCommand::SetFaultProbability { fault_type, probability } => {
                set_fault_probability(injector, &fault_type, probability)
            },
            ControlCommand::ScheduleFault { time_ns, fault_type, target } => {
                schedule_fault(injector, time_ns, &fault_type, target)
            },
            ControlCommand::GetFaultStats => {
                match injector {
                    InjectorAccess::Absent => ControlResponse::err("Fault injector not available"),
                    InjectorAccess::LockFailed => ControlResponse::err(
                        "Failed to lock fault injector",
                    ),
                    InjectorAccess::Locked(fi) => ControlResponse::ok_with_data(
                        ResponseData::FaultStats(fi.get_stats()),
                    ),
                }
            },
            ControlCommand::SetFaultInjectionEnabled { enabled } => {
                match injector {
                    InjectorAccess::Absent => ControlResponse::err("Fault injector not available"),
                    InjectorAccess::LockFailed => ControlResponse::err(
                        "Failed to lock fault injector",
                    ),
                    InjectorAccess::Locked(fi) => {
                        fi.set_enabled(enabled);
                        ControlResponse::ok()
                    },
                }
            },
        }
    }

    /// Handle a line that a client has sent: the command in it, or what is
    /// wrong with it.
    pub fn handle_request(
        &mut self,
        request: Result<ControlCommand, String>,
        readings: &Readings,
        injector: InjectorAccess<'_>,
    ) -> (response: ControlResponse)
        ensures
            match request {
                Ok(command) => response@ == response_to(
                    old(self)@,
                    before(injector),
                    command,
                    *readings,
                ),
                Err(detail) => response@ == error_response("Invalid command: "@ + detail@),
            },
            final(self)@ == (match request {
                Ok(command) => server_after(old(self)@, command),
                Err(_) => old(self)@,
            }),
            injector matches InjectorAccess::Locked(fi) ==> final(fi)@ == (match request {
                Ok(command) => injector_after(fi@, command),
                Err(_) => fi@,
            }) && (fault_injection::valid_state(fi@) ==> fault_injection::valid_state(final(fi)@)),
    {
        match request {
            Ok(command) => self.handle_command(command, readings, injector),
            Err(detail) => err_with_detail("Invalid command: ", detail.as_str()),
        }
    }
}

/// Handles [`ControlCommand::SetFaultProbability`].
fn set_fault_probability(
    injector: InjectorAccess<'_>,
    name: &String,
    probability: Probability,
) -> (response: ControlResponse)
    ensures
        response@ == named_fault_response(before(injector), name@),
        injector matches InjectorAccess::Locked(fi) ==> final(fi)@ == (
        match fault_type::fault_named(name@) {
            Some(t) => fault_injection::with_probability(fi@, t, probability),
            None => fi@,
        }) && (fault_injection::valid_state(fi@) ==> fault_injection::valid_state(final(fi)@)),
{
    match injector {
        InjectorAccess::Absent => ControlResponse::err("Fault injector not available"),
        InjectorAccess::LockFailed => {
            match FaultType::from_name(name.as_str()) {
                Some(_) => ControlResponse::err("Failed to lock fault injector"),
                None => err_with_detail("Unknown fault type: ", name.as_str()),
            }
        },
        InjectorAccess::Locked(fi) => {
            match FaultType::from_name(name.as_str()) {
                Some(t) => {
                    fi.set_probability(t, probability);
                    ControlResponse::ok()
                },
                None => err_with_detail("Unknown fault type: ", name.as_str()),
            }
        },
    }
}

/// Handles [`ControlCommand::ScheduleFault`].
fn schedule_fault(
    injector: InjectorAccess<'_>,
    time_ns: u64,
    name: &String,
    target: Option<String>,
) -> (response: ControlResponse)
    ensures
        response@ == named_fault_response(before(injector), name@),
        injector matches InjectorAccess::Locked(fi) ==> final(fi)@ == (
        match fault_type::fault_named(name@) {
            Some(t) => (fault_injection::InjectorState {
                schedule: schedule::with_fault(
                    fi@.schedule,
                    (ScheduledFault { time_ns, fault_type: t, target, consumed: false }),
                ),
                ..fi@
            }),
            None => fi@,
        }) && (fault_injection::valid_state(fi@) ==> fault_injection::valid_state(final(fi)@)),
{
    match injector {
        InjectorAccess::Absent => ControlResponse::err("Fault injector not available"),
        InjectorAccess::LockFailed => {
            match FaultType::from_name(name.as_str()) {
                Some(_) => ControlResponse::err("Failed to lock fault injector"),
                None => err_with_detail("Unknown fault type: ", name.as_str()),
            }
        },
        InjectorAccess::Locked(fi) => {
            match FaultType::from_name(name.as_str()) {
                Some(t) => {
                    fi.schedule_fault(
                        ScheduledFault { time_ns, fault_type: t, target, consumed: false },
                    );
                    ControlResponse::ok()
                },
                None => err_with_detail("Unknown fault type: ", name.as_str()),
            }
        },
    }
}

} // verus!
