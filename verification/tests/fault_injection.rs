use detcore::fault_injection::{
    FaultCheckResult, FaultInjectionConfig, FaultInjector, FaultType, ScheduledFault,
};
use detcore::probability::Probability;
use rand::{Rng, SeedableRng};
use rand_pcg::Pcg64Mcg;

fn chance(p: f64) -> Probability {
    Probability::from_bits(p.to_bits())
}

fn scheduled(time_ns: u64, fault_type: FaultType, target: Option<&str>) -> ScheduledFault {
    ScheduledFault {
        time_ns,
        fault_type,
        target: target.map(|t| t.to_string()),
        consumed: false,
    }
}

#[test]
fn test_fault_injector_deterministic() {
    // Same seed should produce same results
    let mut fi1 = FaultInjector::new(42);
    let mut fi2 = FaultInjector::new(42);

    fi1.set_probability(FaultType::DiskWrite, chance(0.5));
    fi2.set_probability(FaultType::DiskWrite, chance(0.5));

    for i in 0..100 {
        let r1 = fi1.should_inject_fault(FaultType::DiskWrite, "test", i);
        let r2 = fi2.should_inject_fault(FaultType::DiskWrite, "test", i);
        assert_eq!(r1.should_fault, r2.should_fault, "Mismatch at iteration {}", i);
    }
}

#[test]
fn test_fault_injector_probability() {
    let mut fi = FaultInjector::new(12345);
    fi.set_probability(FaultType::DiskWrite, chance(0.5));

    let mut faults = 0;
    let trials = 1000;
    for i in 0..trials {
        if fi.should_inject_fault(FaultType::DiskWrite, "test", i).should_fault {
            faults += 1;
        }
    }

    // With 50% probability, expect roughly 500 faults
    let rate = faults as f64 / trials as f64;
    assert!(rate > 0.4 && rate < 0.6, "Fault rate {} out of expected range", rate);
}

#[test]
fn test_scheduled_fault() {
    let mut fi = FaultInjector::new(42);
    fi.set_enabled(true);

    fi.schedule_fault(ScheduledFault {
        time_ns: 1000,
        fault_type: FaultType::DiskWrite,
        target: None,
        consumed: false,
    });

    // Before scheduled time
    assert!(!fi.should_inject_fault(FaultType::DiskWrite, "test", 500).should_fault);

    // At scheduled time
    assert!(fi.should_inject_fault(FaultType::DiskWrite, "test", 1000).should_fault);

    // After consumed, should not fault again
    assert!(!fi.should_inject_fault(FaultType::DiskWrite, "test", 1001).should_fault);
}

#[test]
fn test_protected_fds() {
    let mut fi = FaultInjector::new(42);
    fi.set_probability(FaultType::DiskWrite, chance(1.0)); // 100% fault rate

    // Protected FDs should not fault
    assert!(!fi.should_inject_fd_fault(FaultType::DiskWrite, 0, "stdin", 0).should_fault);
    assert!(!fi.should_inject_fd_fault(FaultType::DiskWrite, 1, "stdout", 0).should_fault);
    assert!(!fi.should_inject_fd_fault(FaultType::DiskWrite, 2, "stderr", 0).should_fault);

    // Regular FDs should fault
    assert!(fi.should_inject_fd_fault(FaultType::DiskWrite, 3, "file", 0).should_fault);
}

#[test]
fn test_fault_type_errno() {
    assert_eq!(FaultType::DiskWrite.default_errno(), libc::EIO);
    assert_eq!(FaultType::NetworkConnectRefused.default_errno(), libc::ECONNREFUSED);
    assert_eq!(FaultType::NetworkBindFailed.default_errno(), libc::EADDRINUSE);
}

#[test]
fn every_fault_type_has_its_errno() {
    let expected = [
        libc::EIO,
        libc::EIO,
        libc::EIO,
        libc::ECONNREFUSED,
        libc::ETIMEDOUT,
        libc::EADDRINUSE,
        libc::EADDRINUSE,
        libc::ECONNABORTED,
        libc::EPIPE,
        libc::ECONNRESET,
        libc::ENOMEM,
        libc::EAGAIN,
    ];
    let numbers = [5, 5, 5, 111, 110, 98, 98, 103, 32, 104, 12, 11];
    assert_eq!(FaultType::all().len(), 12);
    for (i, t) in FaultType::all().iter().enumerate() {
        assert_eq!(t.default_errno(), expected[i]);
        assert_eq!(t.default_errno(), numbers[i]);
        assert_eq!(t.code(), i as u64);
    }
}

#[test]
fn names_and_short_names() {
    let names = [
        "disk_write",
        "disk_read",
        "disk_fsync",
        "network_connect_refused",
        "network_connect_timeout",
        "network_bind_failed",
        "network_listen_failed",
        "network_accept_failed",
        "network_send_failed",
        "network_recv_failed",
        "memory_alloc",
        "fork_failed",
    ];
    for (i, t) in FaultType::all().iter().enumerate() {
        assert_eq!(t.name(), names[i]);
        assert_eq!(t.to_string(), names[i]);
        assert_eq!(FaultType::from_name(names[i]), Some(*t));
    }
    assert_eq!(FaultType::from_name("network_connect"), Some(FaultType::NetworkConnectRefused));
    assert_eq!(FaultType::from_name("network_bind"), Some(FaultType::NetworkBindFailed));
    assert_eq!(FaultType::from_name("network_listen"), Some(FaultType::NetworkListenFailed));
    assert_eq!(FaultType::from_name("network_accept"), Some(FaultType::NetworkAcceptFailed));
    assert_eq!(FaultType::from_name("network_send"), Some(FaultType::NetworkSendFailed));
    assert_eq!(FaultType::from_name("network_recv"), Some(FaultType::NetworkRecvFailed));
    assert_eq!(FaultType::from_name("disk"), None);
    assert_eq!(FaultType::from_name("Disk_Write"), None);
    assert_eq!(FaultType::from_name("disk_write "), None);
    assert_eq!(FaultType::from_name(""), None);
}

#[test]
fn check_results() {
    let none = FaultCheckResult::no_fault();
    assert!(!none.should_fault);
    assert_eq!(none.fault_type, None);
    assert_eq!(none.errno, None);
    assert_eq!(none.message, None);

    let some = FaultCheckResult::fault(FaultType::MemoryAlloc, "out".to_string()).clone();
    assert!(some.should_fault);
    assert_eq!(some.fault_type, Some(FaultType::MemoryAlloc));
    assert_eq!(some.errno, Some(12));
    assert_eq!(some.message, Some("out".to_string()));
}

#[test]
fn rolls_are_those_of_the_generator() {
    for seed in [0u64, 1, 42, 12345, u64::MAX] {
        for p in [0.001, 0.25, 0.5, 0.9, 1.0] {
            let mut rng = Pcg64Mcg::seed_from_u64(seed);
            let mut fi = FaultInjector::new(seed);
            fi.set_probability(FaultType::NetworkSendFailed, chance(p));
            for now in 0..200 {
                let roll: f64 = rng.gen();
                let result = fi.should_inject_fault(FaultType::NetworkSendFailed, "peer", now);
                assert_eq!(result.should_fault, roll < p);
                if roll < p {
                    assert_eq!(result.fault_type, Some(FaultType::NetworkSendFailed));
                    assert_eq!(result.errno, Some(libc::EPIPE));
                    assert_eq!(
                        result.message,
                        Some(format!(
                            "Probabilistic network_send_failed fault (roll={:.4} < prob={:.4}) target=peer",
                            roll, p
                        ))
                    );
                } else {
                    assert_eq!(result.message, None);
                }
            }
        }
    }
}

#[test]
fn every_check_consumes_one_word() {
    let mut rng = Pcg64Mcg::seed_from_u64(7);
    let mut fi = FaultInjector::new(7);
    // A disabled injector, a fault type without probability and a scheduled
    // fault each use up one roll; a protected descriptor uses up none.
    assert!(!fi.should_inject_fault(FaultType::DiskRead, "a", 1).should_fault);
    fi.set_probability(FaultType::DiskRead, chance(0.5));
    assert!(!fi.should_inject_fault(FaultType::DiskWrite, "a", 1).should_fault);
    fi.schedule_fault(scheduled(0, FaultType::DiskRead, None));
    assert!(fi.should_inject_fault(FaultType::DiskRead, "a", 1).should_fault);
    assert!(!fi.should_inject_fd_fault(FaultType::DiskRead, 2, "a", 1).should_fault);
    for _ in 0..3 {
        let _: f64 = rng.gen();
    }
    for _ in 0..100 {
        let roll: f64 = rng.gen();
        assert_eq!(fi.should_inject_fault(FaultType::DiskRead, "a", 1).should_fault, roll < 0.5);
    }
    assert_eq!(fi.get_stats().checks_performed, 103);
}

#[test]
fn a_given_word_decides() {
    let mut fi = FaultInjector::new(1);
    fi.set_probability(FaultType::DiskWrite, chance(0.5));
    let half: u64 = 1 << 63;
    assert!(!fi.check_with_word(FaultType::DiskWrite, "x", 0, half).should_fault);
    let below = fi.check_with_word(FaultType::DiskWrite, "x", 0, half - 1);
    assert_eq!(
        below.message.unwrap(),
        "Probabilistic disk_write fault (roll=0.5000 < prob=0.5000) target=x"
    );
    let zero = fi.check_with_word(FaultType::DiskWrite, "", 0, 0);
    assert_eq!(
        zero.message.unwrap(),
        "Probabilistic disk_write fault (roll=0.0000 < prob=0.5000) target="
    );
    let stats = fi.get_stats();
    assert_eq!(stats.checks_performed, 3);
    assert_eq!(stats.faults_injected, 2);
}

#[test]
fn disabled_injector_never_faults() {
    let mut fi = FaultInjector::new(3);
    assert!(!fi.is_enabled());
    fi.set_probability(FaultType::ForkFailed, chance(1.0));
    assert!(fi.is_enabled());
    fi.schedule_fault(scheduled(0, FaultType::ForkFailed, None));
    fi.set_enabled(false);
    for now in 0..50 {
        assert!(!fi.should_inject_fault(FaultType::ForkFailed, "t", now).should_fault);
    }
    assert_eq!(fi.get_stats().scheduled_faults_pending, 1);
    assert_eq!(fi.get_stats().checks_performed, 50);
    assert_eq!(fi.get_stats().faults_injected, 0);
    fi.set_enabled(true);
    assert!(fi.should_inject_fault(FaultType::ForkFailed, "t", 50).should_fault);
    assert_eq!(fi.get_stats().scheduled_faults_pending, 0);
}

#[test]
fn certain_and_impossible_faults() {
    let mut fi = FaultInjector::new(99);
    fi.set_probability(FaultType::DiskFsync, chance(1.0));
    for now in 0..200 {
        assert!(fi.should_inject_fault(FaultType::DiskFsync, "t", now).should_fault);
        assert!(!fi.should_inject_fault(FaultType::DiskRead, "t", now).should_fault);
    }
}

#[test]
fn probabilities_are_clamped_and_read_back() {
    let mut fi = FaultInjector::new(1);
    assert_eq!(fi.get_probability(FaultType::DiskRead), chance(0.0));
    for p in [0.1, 0.25, 1.0, 1e-300, 5e-324] {
        fi.set_probability(FaultType::DiskRead, chance(p));
        assert_eq!(fi.get_probability(FaultType::DiskRead), chance(p));
        fi.set_probability(FaultType::DiskRead, chance(p));
        assert_eq!(fi.get_probability(FaultType::DiskRead), chance(p));
    }
    for p in [1.5, 1e300, f64::INFINITY] {
        fi.set_probability(FaultType::DiskRead, chance(p));
        assert_eq!(fi.get_probability(FaultType::DiskRead), chance(1.0));
    }
    for p in [0.0, -0.0, -0.5, f64::NEG_INFINITY, f64::NAN] {
        fi.set_probability(FaultType::DiskRead, chance(0.5));
        fi.set_probability(FaultType::DiskRead, chance(p));
        assert_eq!(fi.get_probability(FaultType::DiskRead), chance(0.0));
        assert_eq!(fi.get_stats().probabilities.get(FaultType::DiskRead), None);
    }
    // Setting a probability to zero does not disable injection.
    assert!(fi.is_enabled());
    // Nor does it enable it.
    let mut fresh = FaultInjector::new(1);
    fresh.set_probability(FaultType::DiskRead, chance(-1.0));
    assert!(!fresh.is_enabled());
}

#[test]
fn configuration() {
    let empty = FaultInjectionConfig::default();
    assert!(!empty.has_any_faults());
    let mut fi = FaultInjector::new(5);
    fi.set_probabilities(&empty);
    assert!(!fi.is_enabled());

    let mut config = FaultInjectionConfig::default();
    config.network_recv_probability = chance(0.25);
    assert!(config.has_any_faults());
    config.disk_write_probability = chance(0.5);
    config.network_connect_probability = chance(2.0);
    config.disk_read_probability = chance(-3.0);

    fi.set_probability(FaultType::DiskFsync, chance(0.5));
    fi.set_probability(FaultType::MemoryAlloc, chance(0.75));
    fi.set_probabilities(&config);
    assert!(fi.is_enabled());
    assert_eq!(fi.get_probability(FaultType::DiskWrite), chance(0.5));
    assert_eq!(fi.get_probability(FaultType::DiskRead), chance(0.0));
    assert_eq!(fi.get_probability(FaultType::DiskFsync), chance(0.0));
    assert_eq!(fi.get_probability(FaultType::NetworkConnectRefused), chance(1.0));
    assert_eq!(fi.get_probability(FaultType::NetworkConnectTimeout), chance(0.0));
    assert_eq!(fi.get_probability(FaultType::NetworkRecvFailed), chance(0.25));
    assert_eq!(fi.get_probability(FaultType::MemoryAlloc), chance(0.75));

    let mut nan = FaultInjectionConfig::default();
    nan.network_bind_probability = chance(f64::NAN);
    assert!(!nan.has_any_faults());
}

#[test]
fn each_configured_field_reaches_its_type() {
    let types = [
        FaultType::DiskWrite,
        FaultType::DiskRead,
        FaultType::DiskFsync,
        FaultType::NetworkConnectRefused,
        FaultType::NetworkBindFailed,
        FaultType::NetworkListenFailed,
        FaultType::NetworkAcceptFailed,
        FaultType::NetworkSendFailed,
        FaultType::NetworkRecvFailed,
    ];
    for (i, t) in types.iter().enumerate() {
        let p = |k: usize| if k == i { chance(0.5) } else { chance(0.0) };
        let config = FaultInjectionConfig {
            disk_write_probability: p(0),
            disk_read_probability: p(1),
            disk_fsync_probability: p(2),
            network_connect_probability: p(3),
            network_bind_probability: p(4),
            network_listen_probability: p(5),
            network_accept_probability: p(6),
            network_send_probability: p(7),
            network_recv_probability: p(8),
        };
        assert!(config.has_any_faults());
        let mut fi = FaultInjector::new(0);
        fi.set_probabilities(&config);
        for other in FaultType::all() {
            let expected = if other == t { chance(0.5) } else { chance(0.0) };
            assert_eq!(fi.get_probability(*other), expected);
        }
    }
}

#[test]
fn scheduled_faults_fire_in_order_of_time() {
    let mut fi = FaultInjector::new(42);
    fi.set_enabled(true);
    fi.schedule_fault(scheduled(300, FaultType::DiskWrite, None));
    fi.schedule_fault(scheduled(100, FaultType::DiskWrite, None));
    fi.schedule_fault(scheduled(200, FaultType::DiskWrite, None));
    for time in [100, 200, 300] {
        let result = fi.should_inject_fault(FaultType::DiskWrite, "job", 1000);
        assert_eq!(
            result.message.unwrap(),
            format!("Scheduled disk_write fault at time_ns={} target=job", time)
        );
        assert_eq!(result.errno, Some(libc::EIO));
    }
    assert!(!fi.should_inject_fault(FaultType::DiskWrite, "job", 1000).should_fault);
    assert_eq!(fi.get_stats().faults_injected, 3);
    assert_eq!(fi.get_stats().checks_performed, 4);
}

#[test]
fn scheduled_faults_match_type_and_target() {
    let mut fi = FaultInjector::new(42);
    fi.set_enabled(true);
    fi.schedule_fault(scheduled(10, FaultType::DiskRead, Some("db")));
    assert!(!fi.should_inject_fault(FaultType::DiskWrite, "/var/db/log", 10).should_fault);
    assert!(!fi.should_inject_fault(FaultType::DiskRead, "/var/d/b", 10).should_fault);
    assert!(!fi.should_inject_fault(FaultType::DiskRead, "/var/db/log", 9).should_fault);
    assert!(fi.should_inject_fault(FaultType::DiskRead, "/var/db/log", 10).should_fault);
    assert!(!fi.should_inject_fault(FaultType::DiskRead, "/var/db/log", 10).should_fault);
    // An empty filter occurs in every target.
    fi.schedule_fault(scheduled(10, FaultType::DiskRead, Some("")));
    assert!(fi.should_inject_fault(FaultType::DiskRead, "", 10).should_fault);
}

#[test]
fn consumed_faults_are_not_pending() {
    let mut fi = FaultInjector::new(42);
    fi.set_enabled(true);
    fi.schedule_fault(scheduled(10, FaultType::DiskRead, None));
    fi.schedule_fault(scheduled(10, FaultType::DiskWrite, None));
    fi.schedule_fault(scheduled(20, FaultType::DiskWrite, None));
    assert_eq!(fi.get_stats().scheduled_faults_pending, 3);
    // Of the two faults of time 10 one is consumed, the other is still to come.
    assert!(fi.should_inject_fault(FaultType::DiskWrite, "t", 15).should_fault);
    assert_eq!(fi.get_stats().scheduled_faults_pending, 2);
    assert!(fi.should_inject_fault(FaultType::DiskRead, "t", 15).should_fault);
    assert_eq!(fi.get_stats().scheduled_faults_pending, 1);
    assert!(!fi.should_inject_fault(FaultType::DiskWrite, "t", 19).should_fault);
    assert!(fi.should_inject_fault(FaultType::DiskWrite, "t", 20).should_fault);
    assert_eq!(fi.get_stats().scheduled_faults_pending, 0);
}

#[test]
fn faults_scheduled_as_consumed_are_not_pending() {
    let mut fi = FaultInjector::new(42);
    fi.set_enabled(true);
    let mut used = scheduled(5, FaultType::DiskRead, None);
    used.consumed = true;
    fi.schedule_fault(used.clone());
    fi.schedule_fault(scheduled(10, FaultType::DiskRead, None));
    let mut later = used.clone();
    later.time_ns = 15;
    fi.schedule_fault(later);
    assert_eq!(fi.get_stats().scheduled_faults_pending, 1);
    assert!(fi.should_inject_fault(FaultType::DiskRead, "t", 100).should_fault);
    assert_eq!(fi.get_stats().scheduled_faults_pending, 0);
    assert!(!fi.should_inject_fault(FaultType::DiskRead, "t", 100).should_fault);
    assert_eq!(fi.get_stats().scheduled_faults_pending, 0);
}

#[test]
fn one_of_two_faults_at_one_time_stays_pending() {
    let mut fi = FaultInjector::new(42);
    fi.set_enabled(true);
    fi.schedule_fault(scheduled(1000, FaultType::DiskWrite, None));
    fi.schedule_fault(scheduled(1000, FaultType::DiskWrite, None));
    fi.should_inject_fault(FaultType::DiskWrite, "t", 1000);
    let stats = fi.get_stats();
    assert!(stats.enabled);
    assert_eq!(stats.checks_performed, 1);
    assert_eq!(stats.faults_injected, 1);
    assert_eq!(stats.scheduled_faults_pending, 1);
}

#[test]
fn faults_of_one_time_fire_in_the_order_of_scheduling() {
    let mut fi = FaultInjector::new(42);
    fi.set_enabled(true);
    fi.schedule_fault(scheduled(10, FaultType::DiskRead, Some("b")));
    fi.schedule_fault(scheduled(10, FaultType::DiskRead, Some("a")));
    fi.schedule_fault(scheduled(10, FaultType::DiskRead, None));
    assert!(fi.should_inject_fault(FaultType::DiskRead, "a", 10).should_fault);
    assert!(fi.should_inject_fault(FaultType::DiskRead, "a", 10).should_fault);
    assert!(!fi.should_inject_fault(FaultType::DiskRead, "a", 10).should_fault);
    assert!(fi.should_inject_fault(FaultType::DiskRead, "b", 10).should_fault);
    assert_eq!(fi.get_stats().scheduled_faults_pending, 0);
}

#[test]
fn scheduled_faults_come_before_probability() {
    let mut fi = FaultInjector::new(42);
    fi.set_probability(FaultType::DiskRead, chance(1.0));
    fi.schedule_fault(scheduled(u64::MAX, FaultType::DiskRead, None));
    let probabilistic = fi.should_inject_fault(FaultType::DiskRead, "t", u64::MAX - 1);
    assert!(probabilistic.message.unwrap().starts_with("Probabilistic disk_read fault (roll=0."));
    let result = fi.should_inject_fault(FaultType::DiskRead, "t", u64::MAX);
    assert_eq!(
        result.message.unwrap(),
        "Scheduled disk_read fault at time_ns=18446744073709551615 target=t"
    );
}

#[test]
fn statistics_and_reset() {
    let mut fi = FaultInjector::new(8);
    fi.set_probability(FaultType::DiskRead, chance(1.0));
    fi.schedule_fault(scheduled(50, FaultType::DiskRead, None));
    for now in 0..5 {
        fi.should_inject_fault(FaultType::DiskRead, "t", now);
    }
    fi.should_inject_fault(FaultType::DiskWrite, "t", 6);
    let stats = fi.get_stats().clone();
    assert!(stats.enabled);
    assert_eq!(stats.checks_performed, 6);
    assert_eq!(stats.faults_injected, 5);
    assert_eq!(stats.scheduled_faults_pending, 1);
    assert_eq!(stats.probabilities.get(FaultType::DiskRead), Some(chance(1.0)));
    assert_eq!(stats.probabilities.get(FaultType::DiskWrite), None);

    fi.reset();
    let stats = fi.get_stats();
    assert!(!stats.enabled);
    assert_eq!(stats.checks_performed, 0);
    assert_eq!(stats.faults_injected, 0);
    assert_eq!(stats.scheduled_faults_pending, 0);
    assert_eq!(stats.probabilities.get(FaultType::DiskRead), None);
    assert!(!fi.is_enabled());
    assert_eq!(fi.get_probability(FaultType::DiskRead), chance(0.0));
}

#[test]
fn reset_restarts_the_random_words() {
    let mut fi = FaultInjector::new(11);
    for round in 0..3 {
        let mut rng = Pcg64Mcg::seed_from_u64(11);
        fi.set_probability(FaultType::DiskRead, chance(0.5));
        for i in 0..20 + round {
            let roll: f64 = rng.gen();
            assert_eq!(
                fi.should_inject_fault(FaultType::DiskRead, "t", i).should_fault,
                roll < 0.5
            );
        }
        fi.reset();
    }
}

#[test]
fn configuring_twice() {
    let mut config = FaultInjectionConfig::default();
    config.disk_write_probability = chance(0.5);
    config.network_send_probability = chance(3.0);
    assert_eq!(config.probability_for(FaultType::DiskWrite), Some(chance(0.5)));
    assert_eq!(config.probability_for(FaultType::NetworkConnectTimeout), None);
    let mut fi = FaultInjector::new(5);
    for _ in 0..2 {
        fi.set_probabilities(&config);
        assert!(fi.is_enabled());
        assert_eq!(fi.get_probability(FaultType::DiskWrite), chance(0.5));
        assert_eq!(fi.get_probability(FaultType::NetworkSendFailed), chance(1.0));
        assert_eq!(fi.get_probability(FaultType::DiskRead), chance(0.0));
    }
}

#[test]
fn a_greater_probability_faults_wherever_a_smaller_one_does() {
    let mut small = FaultInjector::new(21);
    let mut great = FaultInjector::new(21);
    small.set_probability(FaultType::DiskRead, chance(0.3));
    great.set_probability(FaultType::DiskRead, chance(0.6));
    let mut differences = 0;
    for now in 0..200 {
        let a = small.should_inject_fault(FaultType::DiskRead, "t", now).should_fault;
        let b = great.should_inject_fault(FaultType::DiskRead, "t", now).should_fault;
        assert!(!a || b);
        if a != b {
            differences += 1;
        }
    }
    assert!(differences > 0);
}

#[test]
fn other_descriptors_are_not_protected() {
    for fd in [-1, 3, 4, i32::MAX, i32::MIN] {
        let mut fi = FaultInjector::new(1);
        fi.set_probability(FaultType::DiskWrite, chance(1.0));
        assert!(fi.should_inject_fd_fault(FaultType::DiskWrite, fd, "f", 0).should_fault);
        assert!(!fi.should_inject_fd_fault(FaultType::DiskWrite, 0, "f", 0).should_fault);
        assert_eq!(fi.get_stats().checks_performed, 1);
    }
}
