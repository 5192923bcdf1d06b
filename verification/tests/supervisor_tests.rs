use mpv_control::errors::MpvError;
use mpv_control::supervisor::{
    EnsureDecision, MpvClient, PollBudget, PollStep, Probe, POLL_ATTEMPTS,
};

#[test]
fn healthy_probe_reuses_existing_process() {
    let mut client = MpvClient::new(String::from("/tmp/mpv.sock"));
    let first = client.on_initial_probe(Probe::Connectable);
    assert_eq!(first, EnsureDecision::UseExisting);
    let second = client.on_initial_probe(Probe::Connectable);
    assert_eq!(second, EnsureDecision::UseExisting);
    assert!(!client.child_owned);
}

#[test]
fn missing_socket_spawns_without_stale_cleanup() {
    let mut client = MpvClient::new(String::from("/tmp/mpv.sock"));
    let decision = client.on_initial_probe(Probe::Missing);
    assert_eq!(
        decision,
        EnsureDecision::Respawn { remove_stale: false, reap_child: false }
    );
}

#[test]
fn stale_socket_triggers_one_respawn_cycle() {
    let mut client = MpvClient::new(String::from("/tmp/mpv.sock"));
    let decision = client.on_initial_probe(Probe::Refused);
    assert_eq!(
        decision,
        EnsureDecision::Respawn { remove_stale: true, reap_child: false }
    );
    let budget = client.on_spawn_result(true, String::new()).unwrap();
    assert_eq!(budget, PollBudget { left: POLL_ATTEMPTS });
    assert!(client.child_owned);
    let step = MpvClient::on_poll_probe(budget, false);
    let retry = match step {
        PollStep::SleepAndRetry(b) => b,
        _ => panic!("expected a retry"),
    };
    assert_eq!(retry, PollBudget { left: POLL_ATTEMPTS - 1 });
    let step = MpvClient::on_poll_probe(retry, true);
    assert_eq!(step, PollStep::Ready);
}

#[test]
fn respawn_reaps_previously_owned_child() {
    let mut client = MpvClient::new(String::from("/tmp/mpv.sock"));
    client.on_initial_probe(Probe::Missing);
    client.on_spawn_result(true, String::new()).unwrap();
    assert!(client.child_owned);
    let decision = client.on_initial_probe(Probe::Refused);
    assert_eq!(
        decision,
        EnsureDecision::Respawn { remove_stale: true, reap_child: true }
    );
    assert!(!client.child_owned);
}

#[test]
fn spawn_failure_reports_os_error() {
    let mut client = MpvClient::new(String::from("/tmp/mpv.sock"));
    client.on_initial_probe(Probe::Missing);
    let result = client.on_spawn_result(false, String::from("No such file or directory"));
    let error = match result {
        Err(e) => e,
        Ok(_) => panic!("expected a spawn failure"),
    };
    assert!(matches!(error, MpvError::SpawnFailure(_)));
    assert_eq!(
        error.message(),
        "Failed to spawn mpv: No such file or directory"
    );
    assert!(!client.child_owned);
}

#[test]
fn polling_gives_up_after_fixed_bound() {
    let mut client = MpvClient::new(String::from("/tmp/mpv.sock"));
    client.on_initial_probe(Probe::Missing);
    let mut budget = client.on_spawn_result(true, String::new()).unwrap();
    let mut probes: u32 = 0;
    loop {
        probes += 1;
        match MpvClient::on_poll_probe(budget, false) {
            PollStep::SleepAndRetry(next) => budget = next,
            PollStep::GiveUp => break,
            PollStep::Ready => panic!("socket never became connectable"),
        }
        assert!(probes <= POLL_ATTEMPTS);
    }
    assert_eq!(probes, POLL_ATTEMPTS);
    assert_eq!(
        MpvError::ReadinessTimeout.message(),
        "mpv IPC socket did not become connectable in time"
    );
}

#[test]
fn shutdown_is_safe_without_spawn_and_twice() {
    let mut client = MpvClient::new(String::from("/tmp/mpv.sock"));
    let first = client.shutdown();
    assert!(!first.reap_child);
    assert!(!client.child_owned);
    let second = client.shutdown();
    assert!(!second.reap_child);
    assert!(!client.child_owned);
}

#[test]
fn shutdown_reaps_owned_child_once() {
    let mut client = MpvClient::new(String::from("/tmp/mpv.sock"));
    client.on_initial_probe(Probe::Missing);
    client.on_spawn_result(true, String::new()).unwrap();
    let first = client.shutdown();
    assert!(first.reap_child);
    let second = client.shutdown();
    assert!(!second.reap_child);
}
