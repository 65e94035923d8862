use caw_desktop::poll::{PollStep, ProbeResult};
use caw_desktop::registry::Registry;
use caw_desktop::supervisor::{
    restart_result, server_status, spawn_failure_message, Supervisor, SupervisorError, PROBE_INTERVAL_MS,
    RESTART_ATTEMPTS, RESTART_SETTLE_MS, START_ATTEMPTS,
};

#[test]
fn registry_take_hands_out_once() {
    let mut r: Registry<u32> = Registry::new();
    assert!(!r.is_occupied());
    r.put(7);
    assert!(r.is_occupied());
    assert_eq!(r.take(), Some(7));
    assert_eq!(r.take(), None);
    assert!(!r.is_occupied());
}

#[test]
fn start_then_many_stops_leaves_nothing() {
    let mut s: Supervisor<u32> = Supervisor::new();
    assert_eq!(s.register(11), None);
    assert!(s.has_worker());
    assert_eq!(s.stop(), Some(11));
    for _ in 0..5 {
        assert_eq!(s.stop(), None);
    }
    assert!(!s.has_worker());
}

#[test]
fn stop_twice_terminates_once() {
    let mut s: Supervisor<u32> = Supervisor::new();
    s.register(3);
    assert_eq!(s.stop(), Some(3));
    assert_eq!(s.stop(), None);
    assert!(!s.has_worker());
}

#[test]
fn restart_on_empty_registry_spawns_fresh() {
    let mut s: Supervisor<u32> = Supervisor::new();
    assert_eq!(s.begin_restart(), None);
    assert_eq!(s.register(5), None);
    assert!(s.has_worker());
    let poll = s.restart_poll();
    assert_eq!(poll.next_step(), PollStep::Probe);
    assert_eq!(poll.generation(), s.generation());
    assert_eq!(RESTART_SETTLE_MS, 200);
}

#[test]
fn back_to_back_restarts_leave_one_worker() {
    let mut s: Supervisor<u32> = Supervisor::new();
    s.register(1);
    assert_eq!(s.begin_restart(), Some(1));
    assert_eq!(s.register(2), None);
    assert_eq!(s.begin_restart(), Some(2));
    assert_eq!(s.register(3), None);
    assert_eq!(s.stop(), Some(3));
    assert_eq!(s.stop(), None);
}

#[test]
fn register_displaces_and_returns_previous() {
    let mut s: Supervisor<u32> = Supervisor::new();
    assert_eq!(s.register(1), None);
    assert_eq!(s.register(2), Some(1));
    assert_eq!(s.stop(), Some(2));
}

#[test]
fn shutdown_refuses_late_registration() {
    let mut s: Supervisor<u32> = Supervisor::new();
    s.register(4);
    assert_eq!(s.begin_restart(), Some(4));
    assert_eq!(s.shutdown(), None);
    assert!(s.is_shut_down());
    assert_eq!(s.register(9), Some(9));
    assert!(!s.has_worker());
}

#[test]
fn shutdown_hands_out_worker() {
    let mut s: Supervisor<u32> = Supervisor::new();
    s.register(8);
    assert_eq!(s.shutdown(), Some(8));
    assert_eq!(s.shutdown(), None);
}

#[test]
fn stop_bumps_generation_and_cancels_poll() {
    let mut s: Supervisor<u32> = Supervisor::new();
    s.register(1);
    let mut poll = s.start_poll();
    assert_eq!(poll.on_probe(ProbeResult::NotReady, s.generation()), PollStep::Wait(PROBE_INTERVAL_MS));
    let g = s.generation();
    s.stop();
    assert_eq!(s.generation(), g + 1);
    assert_eq!(poll.on_wait(s.generation()), PollStep::Cancelled);
}

#[test]
fn poll_bounds_for_start_and_restart() {
    let s: Supervisor<u32> = Supervisor::new();
    assert_eq!(START_ATTEMPTS, 60);
    assert_eq!(RESTART_ATTEMPTS, 30);
    assert_eq!(PROBE_INTERVAL_MS, 500);
    let mut p = s.restart_poll();
    for _ in 0..29 {
        assert_eq!(p.on_probe(ProbeResult::NotReady, s.generation()), PollStep::Wait(500));
        assert_eq!(p.on_wait(s.generation()), PollStep::Probe);
    }
    assert_eq!(p.on_probe(ProbeResult::NotReady, s.generation()), PollStep::Wait(500));
    assert_eq!(p.on_wait(s.generation()), PollStep::TimedOut);
    assert_eq!(p.attempts(), 30);
    assert_eq!(p.elapsed_ms(), 15000);
}

#[test]
fn restart_results() {
    assert_eq!(restart_result(PollStep::Ready), Some(Ok(())));
    assert_eq!(restart_result(PollStep::TimedOut), Some(Err(SupervisorError::ReadinessTimeout)));
    assert_eq!(restart_result(PollStep::Cancelled), Some(Err(SupervisorError::ReadinessTimeout)));
    assert_eq!(restart_result(PollStep::Probe), None);
    assert_eq!(restart_result(PollStep::Wait(500)), None);
}

#[test]
fn status_follows_probe() {
    assert!(server_status(ProbeResult::Ready));
    assert!(!server_status(ProbeResult::NotReady));
}

#[test]
fn error_messages() {
    assert_eq!(SupervisorError::ReadinessTimeout.message(), "Server is still starting");
    assert_eq!(SupervisorError::SpawnFailure.message(), "Failed to spawn sidecar");
    assert_eq!(spawn_failure_message("no such file"), "Failed to spawn sidecar: no such file");
    assert_eq!(spawn_failure_message(""), "Failed to spawn sidecar: ");
}

#[test]
fn probe_answer_after_stop_is_not_ready() {
    let mut s: Supervisor<u32> = Supervisor::new();
    s.register(1);
    let mut poll = s.start_poll();
    s.stop();
    assert_eq!(poll.on_probe(ProbeResult::Ready, s.generation()), PollStep::Cancelled);
}

#[test]
fn restart_after_shutdown_registers_nothing() {
    let mut s: Supervisor<u32> = Supervisor::new();
    s.register(1);
    assert_eq!(s.shutdown(), Some(1));
    assert_eq!(s.begin_restart(), None);
    assert_eq!(s.register(2), Some(2));
    assert!(!s.has_worker());
}
