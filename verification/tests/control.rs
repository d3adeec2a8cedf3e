use detcore::control::{
    response_line, serialize_failure, ControlCommand, ControlResponse, ControlServer,
    ControlStats, ExecutionStats, InjectorAccess, Readings, ResponseData, SchedulerReading,
};
use detcore::fault_injection::{FaultInjector, FaultType};
use detcore::probability::Probability;
use detcore::serving::{
    handled_event, next_client_step, next_server_step, ClientEvent, ClientStep, ServerEvent,
    ServerStep, POLL_INTERVAL_MS,
};

fn chance(p: f64) -> Probability {
    Probability::from_bits(p.to_bits())
}

fn readings() -> Readings {
    Readings {
        time_ns: Some(12345),
        scheduler: Some(SchedulerReading {
            active_threads: 3,
            blocked_threads: 2,
            current_thread: Some(7),
            run_queue: vec![7, 9, 8],
            blocked_ids: vec![4, 5],
        }),
    }
}

fn unreadable() -> Readings {
    Readings { time_ns: None, scheduler: None }
}

fn set_probability(name: &str, p: f64) -> ControlCommand {
    ControlCommand::SetFaultProbability { fault_type: name.to_string(), probability: chance(p) }
}

fn schedule(time_ns: u64, name: &str, target: Option<&str>) -> ControlCommand {
    ControlCommand::ScheduleFault {
        time_ns,
        fault_type: name.to_string(),
        target: target.map(|t| t.to_string()),
    }
}

fn assert_ok(response: &ControlResponse) {
    assert!(response.success);
    assert!(response.data.is_none());
    assert!(response.error.is_none());
}

fn assert_err(response: &ControlResponse, message: &str) {
    assert!(!response.success);
    assert!(response.data.is_none());
    assert_eq!(response.error, Some(message.to_string()));
}

#[test]
fn test_response_ok() {
    let resp = ControlResponse::ok();
    assert!(resp.success);
    assert!(resp.data.is_none());
    assert!(resp.error.is_none());
}

#[test]
fn test_response_with_data() {
    let resp = ControlResponse::ok_with_data(ResponseData::Time { time_ns: 1000 });
    assert!(resp.success);
    assert!(resp.data.is_some());
}

#[test]
fn test_response_error() {
    let resp = ControlResponse::err("test error");
    assert!(!resp.success);
    assert_eq!(resp.error, Some("test error".to_string()));
}

#[test]
fn ping_time_and_seed() {
    let mut server = ControlServer::new(99);
    let r = server.handle_command(ControlCommand::Ping, &readings(), InjectorAccess::Absent);
    assert!(r.success && r.error.is_none());
    assert!(matches!(r.data, Some(ResponseData::Pong)));
    let r = server.handle_command(ControlCommand::GetTime, &readings(), InjectorAccess::Absent);
    assert!(matches!(r.data, Some(ResponseData::Time { time_ns: 12345 })));
    let r = server.handle_command(ControlCommand::GetTime, &unreadable(), InjectorAccess::Absent);
    assert!(matches!(r.data, Some(ResponseData::Time { time_ns: 0 })));
    let r = server.handle_command(ControlCommand::GetSeed, &readings(), InjectorAccess::LockFailed);
    assert!(matches!(r.data, Some(ResponseData::Seed { seed: 99 })));
    assert_eq!(server.get_current_time_ns(&readings()), 12345);
}

#[test]
fn pause_and_resume() {
    let mut server = ControlServer::new(1);
    assert!(!server.paused());
    assert_ok(&server.handle_command(ControlCommand::Pause, &readings(), InjectorAccess::Absent));
    assert!(server.paused());
    let r = server.handle_command(ControlCommand::IsPaused, &readings(), InjectorAccess::Absent);
    assert!(matches!(r.data, Some(ResponseData::Paused { paused: true })));
    assert!(server.get_scheduler_state(&readings()).is_paused);
    assert_ok(&server.handle_command(ControlCommand::Resume, &readings(), InjectorAccess::Absent));
    let r = server.handle_command(ControlCommand::IsPaused, &readings(), InjectorAccess::Absent);
    assert!(matches!(r.data, Some(ResponseData::Paused { paused: false })));
    server.set_flags(true, false);
    assert!(server.paused() && !server.shutdown_flag());
}

#[test]
fn shutdown_stays() {
    let mut server = ControlServer::new(1);
    assert!(!server.shutdown_flag());
    assert_ok(&server.handle_command(ControlCommand::Shutdown, &readings(), InjectorAccess::Absent));
    assert!(server.shutdown_flag());
    for command in [ControlCommand::Pause, ControlCommand::Resume, ControlCommand::Ping] {
        server.handle_command(command.clone(), &readings(), InjectorAccess::Absent);
        assert!(server.shutdown_flag());
    }
}

#[test]
fn execution_statistics() {
    let mut server = ControlServer::new(1);
    server.record_syscall();
    server.record_syscall();
    server.record_thread_switch();
    server.record_quanta(40);
    server.record_quanta(2);
    let expected = ExecutionStats {
        syscalls_intercepted: 2,
        thread_switches: 1,
        time_ns: 12345,
        active_threads: 3,
        blocked_threads: 2,
        quanta_executed: 42,
    };
    assert_eq!(server.get_stats(&readings()), expected);
    let r = server.handle_command(ControlCommand::GetStats, &readings(), InjectorAccess::Absent);
    match r.data {
        Some(ResponseData::Stats(stats)) => assert_eq!(stats, expected),
        other => panic!("unexpected data {:?}", other),
    }
    assert_eq!(
        server.counters(),
        Some(ControlStats { syscalls_intercepted: 2, thread_switches: 1, quanta_executed: 42 })
    );
    server.lose_counters();
    server.record_syscall();
    server.record_thread_switch();
    server.record_quanta(u64::MAX);
    assert_eq!(server.counters(), None);
    let zero = ExecutionStats {
        syscalls_intercepted: 0,
        thread_switches: 0,
        time_ns: 0,
        active_threads: 0,
        blocked_threads: 0,
        quanta_executed: 0,
    };
    assert_eq!(server.get_stats(&unreadable()), zero);
}

#[test]
fn thread_counts_are_cut_to_32_bits() {
    let mut wide = readings();
    wide.scheduler.as_mut().unwrap().active_threads = u32::MAX as usize + 6;
    let stats = ControlServer::new(1).get_stats(&wide);
    assert_eq!(stats.active_threads, 5);
    assert_eq!(stats.blocked_threads, 2);
}

#[test]
fn scheduler_snapshots() {
    let mut server = ControlServer::new(1);
    let r = server.handle_command(
        ControlCommand::GetSchedulerState,
        &readings(),
        InjectorAccess::Absent,
    );
    match r.clone().data {
        Some(ResponseData::SchedulerState(snapshot)) => {
            assert_eq!(snapshot.current_thread, Some(7));
            assert_eq!(snapshot.run_queue, vec![7, 9, 8]);
            assert_eq!(snapshot.blocked_threads, vec![4, 5]);
            assert!(!snapshot.is_paused);
        }
        other => panic!("unexpected data {:?}", other),
    }
    let empty = server.get_scheduler_state(&unreadable());
    assert_eq!(empty.current_thread, None);
    assert!(empty.run_queue.is_empty());
    assert!(empty.blocked_threads.is_empty());
}

#[test]
fn fault_commands_without_an_injector() {
    let mut server = ControlServer::new(1);
    for command in [
        set_probability("disk_write", 0.5),
        set_probability("nonsense", 0.5),
        schedule(5, "disk_write", None),
        ControlCommand::GetFaultStats,
        ControlCommand::SetFaultInjectionEnabled { enabled: true },
    ] {
        assert!(command.needs_fault_injector());
        let r = server.handle_command(command, &readings(), InjectorAccess::Absent);
        assert_err(&r, "Fault injector not available");
    }
    assert!(!ControlCommand::GetTime.needs_fault_injector());
}

#[test]
fn fault_commands_on_an_injector_that_cannot_be_locked() {
    let mut server = ControlServer::new(1);
    for command in [
        set_probability("disk_write", 0.5),
        schedule(5, "disk_write", None),
        ControlCommand::GetFaultStats,
        ControlCommand::SetFaultInjectionEnabled { enabled: true },
    ] {
        let r = server.handle_command(command, &readings(), InjectorAccess::LockFailed);
        assert_err(&r, "Failed to lock fault injector");
    }
    // An unknown name is found before the lock is tried.
    for command in [set_probability("disk", 0.5), schedule(5, "disk", None)] {
        let r = server.handle_command(command, &readings(), InjectorAccess::LockFailed);
        assert_err(&r, "Unknown fault type: disk");
    }
}

#[test]
fn fault_commands_on_an_injector() {
    let mut server = ControlServer::new(1);
    let mut fi = FaultInjector::new(1);

    let r = server.handle_command(
        set_probability("network_connect", 7.5),
        &readings(),
        InjectorAccess::Locked(&mut fi),
    );
    assert_ok(&r);
    assert_eq!(fi.get_probability(FaultType::NetworkConnectRefused), chance(1.0));
    assert!(fi.is_enabled());

    let r = server.handle_command(
        schedule(77, "memory_alloc", Some("worker")),
        &readings(),
        InjectorAccess::Locked(&mut fi),
    );
    assert_ok(&r);

    let r = server.handle_command(
        ControlCommand::GetFaultStats,
        &readings(),
        InjectorAccess::Locked(&mut fi),
    );
    match r.data {
        Some(ResponseData::FaultStats(stats)) => {
            assert!(stats.enabled);
            assert_eq!(stats.scheduled_faults_pending, 1);
            assert_eq!(
                stats.probabilities.get(FaultType::NetworkConnectRefused),
                Some(chance(1.0))
            );
        }
        other => panic!("unexpected data {:?}", other),
    }

    assert!(!fi.should_inject_fault(FaultType::MemoryAlloc, "main", 77).should_fault);
    let result = fi.should_inject_fault(FaultType::MemoryAlloc, "worker-1", 77);
    assert_eq!(
        result.message.unwrap(),
        "Scheduled memory_alloc fault at time_ns=77 target=worker-1"
    );

    let r = server.handle_command(
        ControlCommand::SetFaultInjectionEnabled { enabled: false },
        &readings(),
        InjectorAccess::Locked(&mut fi),
    );
    assert_ok(&r);
    assert!(!fi.is_enabled());
}

#[test]
fn refused_commands_leave_the_injector_alone() {
    let mut server = ControlServer::new(1);
    let mut fi = FaultInjector::new(1);
    for command in [set_probability("gamma_ray", 0.5), schedule(1, "gamma_ray", None)] {
        let r = server.handle_command(command, &readings(), InjectorAccess::Locked(&mut fi));
        assert_err(&r, "Unknown fault type: gamma_ray");
    }
    let stats = fi.get_stats();
    assert!(!stats.enabled);
    assert_eq!(stats.scheduled_faults_pending, 0);
    for t in FaultType::all() {
        assert_eq!(stats.probabilities.get(*t), None);
    }
}

#[test]
fn requests_that_are_no_commands() {
    let mut server = ControlServer::new(1);
    let r = server.handle_request(
        Err("expected value at line 1 column 1".to_string()),
        &readings(),
        InjectorAccess::Absent,
    );
    assert_err(&r, "Invalid command: expected value at line 1 column 1");
    assert_ok(&server.handle_request(
        Ok(ControlCommand::Pause),
        &readings(),
        InjectorAccess::Absent,
    ));
    assert!(server.paused());
}

#[test]
fn commands_say_what_they_read() {
    assert!(ControlCommand::GetTime.needs_time() && !ControlCommand::GetTime.needs_scheduler());
    assert!(ControlCommand::GetStats.needs_time() && ControlCommand::GetStats.needs_scheduler());
    assert!(ControlCommand::GetSchedulerState.needs_scheduler());
    assert!(!ControlCommand::GetSchedulerState.needs_time());
    assert!(!ControlCommand::Ping.needs_time() && !ControlCommand::Ping.needs_scheduler());
    assert!(!set_probability("disk_write", 0.5).needs_time());
}

#[test]
fn serialization() {
    let stats = ResponseData::Stats(ControlServer::new(1).get_stats(&unreadable()));
    assert_err(&serialize_failure(&stats, "why"), "Failed to serialize stats: why");
    let state = ResponseData::SchedulerState(ControlServer::new(1).get_scheduler_state(&readings()));
    assert_err(&serialize_failure(&state, "why"), "Failed to serialize state: why");
    assert_eq!(response_line("{}"), "{}\n");
}

#[test]
fn server_steps() {
    let started = |socket_exists| ServerEvent::Started { socket_exists };
    assert_eq!(next_server_step(started(true), true, false), ServerStep::RemoveSocket);
    assert_eq!(next_server_step(started(false), true, false), ServerStep::CreateParent);
    assert_eq!(next_server_step(started(false), false, false), ServerStep::Listen);
    assert_eq!(
        next_server_step(ServerEvent::SocketRemoved, true, false),
        ServerStep::CreateParent
    );
    assert_eq!(next_server_step(ServerEvent::SocketRemoved, false, false), ServerStep::Listen);
    assert_eq!(next_server_step(ServerEvent::ParentCreated, true, false), ServerStep::Listen);
    assert_eq!(next_server_step(ServerEvent::SetupFailed, true, false), ServerStep::Fail);
    for event in [
        ServerEvent::Listening,
        ServerEvent::ClientServed,
        ServerEvent::Waited,
        ServerEvent::AcceptFailed,
    ] {
        assert_eq!(next_server_step(event, true, false), ServerStep::Accept);
        assert_eq!(next_server_step(event, true, true), ServerStep::CleanUp);
    }
    assert_eq!(next_server_step(ServerEvent::Connected, true, true), ServerStep::ServeClient);
    assert_eq!(
        next_server_step(ServerEvent::NothingPending, true, true),
        ServerStep::Wait { millis: POLL_INTERVAL_MS }
    );
    assert_eq!(POLL_INTERVAL_MS, 100);
    assert_eq!(next_server_step(ServerEvent::CleanedUp, true, true), ServerStep::Stop);
}

#[test]
fn client_steps() {
    assert_eq!(next_client_step(ClientEvent::Opened, true), ClientStep::ReadLine);
    assert_eq!(next_client_step(ClientEvent::EndOfInput, false), ClientStep::Close);
    assert_eq!(next_client_step(ClientEvent::ReadFailed, false), ClientStep::Close);
    assert_eq!(next_client_step(ClientEvent::LineRead, true), ClientStep::Handle);
    let handled = ClientEvent::Handled { pauses: false };
    assert_eq!(next_client_step(handled, true), ClientStep::Respond);
    assert_eq!(next_client_step(ClientEvent::ResponseSent, false), ClientStep::ReadLine);
    assert_eq!(next_client_step(ClientEvent::ResponseSent, true), ClientStep::Close);
    assert_eq!(next_client_step(ClientEvent::SendFailed, false), ClientStep::CloseWithError);
}

#[test]
fn readings_that_a_command_does_not_use_do_not_matter() {
    let mut server = ControlServer::new(4);
    let mut partial = readings();
    partial.scheduler = None;
    let r = server.handle_command(ControlCommand::GetTime, &partial, InjectorAccess::Absent);
    assert!(matches!(r.data, Some(ResponseData::Time { time_ns: 12345 })));
    let r = server.handle_command(ControlCommand::GetSeed, &unreadable(), InjectorAccess::Absent);
    assert!(matches!(r.data, Some(ResponseData::Seed { seed: 4 })));
    let r = server.handle_command(ControlCommand::Ping, &unreadable(), InjectorAccess::Absent);
    assert!(matches!(r.data, Some(ResponseData::Pong)));
}

#[test]
fn a_pause_is_answered_once_execution_has_stopped() {
    let request = Ok(ControlCommand::Pause);
    let mut server = ControlServer::new(1);
    let handled = handled_event(&request);
    assert_eq!(handled, ClientEvent::Handled { pauses: true });
    assert_ok(&server.handle_request(request, &readings(), InjectorAccess::Absent));
    assert!(server.paused());

    let wait = ClientStep::Wait { millis: 100 };
    assert_eq!(next_client_step(handled, false), ClientStep::CheckStopped);
    assert_eq!(next_client_step(ClientEvent::StillRunning, false), wait);
    assert_eq!(next_client_step(ClientEvent::Waited, false), ClientStep::CheckStopped);
    assert_eq!(next_client_step(ClientEvent::ExecutionStopped, false), ClientStep::Respond);
    // A shutdown does not cancel the answer: the session ends behind it.
    assert_eq!(next_client_step(handled, true), ClientStep::CheckStopped);
    assert_eq!(next_client_step(ClientEvent::StillRunning, true), wait);
    assert_eq!(next_client_step(ClientEvent::ExecutionStopped, true), ClientStep::Respond);
    assert_eq!(next_client_step(ClientEvent::ResponseSent, true), ClientStep::Close);
}

#[test]
fn only_a_pause_holds_its_answer_back() {
    for request in [
        Ok(ControlCommand::Resume),
        Ok(ControlCommand::IsPaused),
        Ok(ControlCommand::Shutdown),
        Ok(schedule(1, "disk_write", None)),
        Err("Pause".to_string()),
    ] {
        let handled = handled_event(&request);
        assert_eq!(handled, ClientEvent::Handled { pauses: false });
        assert_eq!(next_client_step(handled, false), ClientStep::Respond);
    }
}

#[test]
fn flags_follow_the_commands() {
    let mut server = ControlServer::new(1);
    let expected = [true, true, false, false, true];
    let commands = [
        ControlCommand::Pause,
        ControlCommand::Ping,
        ControlCommand::Resume,
        ControlCommand::Resume,
        ControlCommand::Pause,
    ];
    for (command, paused) in commands.iter().zip(expected) {
        server.handle_command(command.clone(), &readings(), InjectorAccess::Absent);
        assert_eq!(server.paused(), paused);
        assert!(!server.shutdown_flag());
    }
}

#[test]
fn a_session_answers_each_line_once() {
    // Three lines, of which the last one asks for a pause while a shutdown is
    // under way and execution takes two looks to stop.
    let pause = ClientEvent::Handled { pauses: true };
    let other = ClientEvent::Handled { pauses: false };
    let session = [
        (ClientEvent::Opened, false, ClientStep::ReadLine),
        (ClientEvent::LineRead, false, ClientStep::Handle),
        (other, false, ClientStep::Respond),
        (ClientEvent::ResponseSent, false, ClientStep::ReadLine),
        (ClientEvent::LineRead, false, ClientStep::Handle),
        (other, false, ClientStep::Respond),
        (ClientEvent::ResponseSent, false, ClientStep::ReadLine),
        (ClientEvent::LineRead, true, ClientStep::Handle),
        (pause, true, ClientStep::CheckStopped),
        (ClientEvent::StillRunning, true, ClientStep::Wait { millis: POLL_INTERVAL_MS }),
        (ClientEvent::Waited, true, ClientStep::CheckStopped),
        (ClientEvent::ExecutionStopped, true, ClientStep::Respond),
        (ClientEvent::ResponseSent, true, ClientStep::Close),
    ];
    let mut responses = 0;
    for (event, shutdown, step) in session {
        assert_eq!(next_client_step(event, shutdown), step);
        if step == ClientStep::Respond {
            responses += 1;
        }
    }
    assert_eq!(responses, 3);
}
