use talos_pilot::probe::{is_not_yet_ready, node_ready_condition, NodeConditionStatus};
use talos_pilot::readiness::{NodeReadyResult, ReadyWait, WaitEffect, WaitEvent};
use talos_pilot::records::ConditionRecord;

/// Runs a wait to its end against a scripted clock and node.
fn run_wait(
    timeout_secs: u64,
    wait_for_disconnect: bool,
    clock: &[u64],
    probes: &[Option<NodeConditionStatus>],
) -> (NodeReadyResult, Vec<String>, Vec<u64>) {
    let (mut wait, mut effects) = ReadyWait::start(timeout_secs, wait_for_disconnect);
    let mut clock = clock.iter();
    let mut probes = probes.iter();
    let mut reports = Vec::new();
    let mut pauses = Vec::new();
    loop {
        let mut event = None;
        for effect in &effects {
            match effect {
                WaitEffect::Report(line) => reports.push(line.clone()),
                WaitEffect::Pause(millis) => pauses.push(*millis),
                WaitEffect::ReadClock => {
                    event = Some(WaitEvent::Clock { elapsed_secs: *clock.next().expect("clock") })
                }
                WaitEffect::Probe => {
                    event = Some(WaitEvent::Probed { status: *probes.next().expect("probe") })
                }
            }
        }
        match event {
            Some(event) => effects = wait.step(event),
            None => break,
        }
    }
    (wait.result().expect("the wait has ended"), reports, pauses)
}

#[test]
fn ready_at_first_probe_succeeds_at_once() {
    let (result, reports, pauses) =
        run_wait(300, false, &[0], &[Some(NodeConditionStatus::Ready)]);
    assert!(result.success);
    assert_eq!(result.time_taken_secs, 0);
    assert_eq!(result.error, None);
    assert_eq!(
        reports,
        vec![
            "Waiting for node to come back online...".to_string(),
            "Node is Ready (took 0s)".to_string()
        ]
    );
    assert!(pauses.is_empty());
}

#[test]
fn wait_times_out_when_node_never_reports_ready() {
    let (result, reports, pauses) = run_wait(
        12,
        false,
        &[0, 5, 10, 15],
        &[Some(NodeConditionStatus::NotReady), None, Some(NodeConditionStatus::Unknown)],
    );
    assert!(!result.success);
    assert_eq!(result.time_taken_secs, 15);
    assert!(result.time_taken_secs >= 12);
    assert_eq!(result.error, Some("Timed out waiting for node after 12s".to_string()));
    assert_eq!(
        reports,
        vec![
            "Waiting for node to come back online...".to_string(),
            "Node status: NotReady (12s remaining)".to_string(),
            "Waiting for node to rejoin cluster (7s remaining)".to_string(),
            "Node status: Unknown (2s remaining)".to_string(),
        ]
    );
    assert_eq!(pauses, vec![5000, 5000, 5000]);
}

#[test]
fn ready_is_taken_the_moment_it_is_first_observed() {
    let (result, reports, _) = run_wait(
        300,
        false,
        &[0, 5, 11],
        &[None, Some(NodeConditionStatus::NotReady), Some(NodeConditionStatus::Ready)],
    );
    assert!(result.success);
    assert_eq!(result.time_taken_secs, 11);
    assert!(result.time_taken_secs < 300);
    assert_eq!(reports.last().unwrap(), "Node is Ready (took 11s)");
}

#[test]
fn timeout_is_checked_before_the_probe() {
    // At exactly the timeout the node is not probed again.
    let (result, _, _) = run_wait(10, false, &[10], &[]);
    assert!(!result.success);
    assert_eq!(result.time_taken_secs, 10);
    let (result, _, _) = run_wait(0, false, &[0], &[]);
    assert!(!result.success);
    assert_eq!(result.error, Some("Timed out waiting for node after 0s".to_string()));
}

#[test]
fn disconnect_phase_ends_when_node_goes_away() {
    let (result, reports, pauses) = run_wait(
        300,
        true,
        &[0, 2, 4, 9],
        &[
            Some(NodeConditionStatus::Ready),
            Some(NodeConditionStatus::Ready),
            Some(NodeConditionStatus::NotReady),
            Some(NodeConditionStatus::Ready),
        ],
    );
    assert!(result.success);
    // The wait for readiness was entered at the reading before the probe
    // that saw the node gone, and counts from there.
    assert_eq!(result.time_taken_secs, 5);
    assert_eq!(
        reports,
        vec![
            "Waiting for node to begin rebooting...".to_string(),
            "Node is rebooting...".to_string(),
            "Waiting for node to come back online...".to_string(),
            "Node is Ready (took 5s)".to_string(),
        ]
    );
    assert_eq!(pauses, vec![2000, 2000]);
}

#[test]
fn probe_error_counts_as_disconnect() {
    let (result, reports, _) =
        run_wait(300, true, &[0, 1], &[None, Some(NodeConditionStatus::Ready)]);
    assert!(result.success);
    assert_eq!(reports[1], "Node is rebooting...");
}

#[test]
fn node_that_never_disconnects_is_waited_for_anyway() {
    let (result, reports, _) = run_wait(
        300,
        true,
        &[0, 30, 60, 61],
        &[
            Some(NodeConditionStatus::Ready),
            Some(NodeConditionStatus::Ready),
            Some(NodeConditionStatus::Ready),
        ],
    );
    assert!(result.success);
    assert_eq!(result.time_taken_secs, 1);
    assert_eq!(
        reports[1],
        "Warning: Node didn't appear to disconnect, continuing to wait..."
    );
    assert_eq!(reports[2], "Waiting for node to come back online...");
}

#[test]
fn wait_has_no_result_before_it_ends_and_keeps_it_after() {
    let (mut wait, _) = ReadyWait::start(5, false);
    assert!(wait.result().is_none());
    assert!(wait.step(WaitEvent::Probed { status: None }).is_empty());
    assert_eq!(wait.step(WaitEvent::Clock { elapsed_secs: 9 }).len(), 0);
    let result = wait.result().unwrap();
    assert!(!result.success);
    assert!(wait.step(WaitEvent::Clock { elapsed_secs: 0 }).is_empty());
    assert!(wait.step(WaitEvent::Probed { status: Some(NodeConditionStatus::Ready) }).is_empty());
    assert_eq!(wait.result().unwrap().time_taken_secs, 9);
}

fn condition(type_: &str, status: &str) -> ConditionRecord {
    ConditionRecord { type_: type_.to_string(), status: status.to_string() }
}

#[test]
fn node_condition_is_read_from_the_ready_condition() {
    assert_eq!(node_ready_condition(&vec![]), NodeConditionStatus::Unknown);
    assert_eq!(
        node_ready_condition(&vec![condition("MemoryPressure", "False"), condition("Ready", "True")]),
        NodeConditionStatus::Ready
    );
    assert_eq!(
        node_ready_condition(&vec![condition("Ready", "False")]),
        NodeConditionStatus::NotReady
    );
    assert_eq!(
        node_ready_condition(&vec![condition("Ready", "Unknown")]),
        NodeConditionStatus::Unknown
    );
    assert_eq!(
        node_ready_condition(&vec![condition("DiskPressure", "True")]),
        NodeConditionStatus::Unknown
    );
    // The first condition of type Ready decides.
    assert_eq!(
        node_ready_condition(&vec![condition("Ready", "False"), condition("Ready", "True")]),
        NodeConditionStatus::NotReady
    );
    assert!(is_not_yet_ready(NodeConditionStatus::Unknown));
    assert!(is_not_yet_ready(NodeConditionStatus::NotReady));
    assert!(!is_not_yet_ready(NodeConditionStatus::Ready));
}

#[test]
fn readiness_wait_has_a_budget_of_its_own() {
    // A node that stays ready uses up the minute of the disconnect wait;
    // the 30 seconds of the readiness wait start only then.
    let ready = Some(NodeConditionStatus::Ready);
    let (result, reports, pauses) =
        run_wait(30, true, &[0, 20, 40, 60, 61], &[ready, ready, ready, ready]);
    assert!(result.success);
    assert_eq!(result.error, None);
    assert_eq!(result.time_taken_secs, 1);
    assert!(result.time_taken_secs < 30);
    assert_eq!(
        reports,
        vec![
            "Waiting for node to begin rebooting...".to_string(),
            "Warning: Node didn't appear to disconnect, continuing to wait...".to_string(),
            "Waiting for node to come back online...".to_string(),
            "Node is Ready (took 1s)".to_string(),
        ]
    );
    assert_eq!(pauses, vec![2000, 2000, 2000]);
}

#[test]
fn readiness_timeout_counts_from_the_end_of_the_disconnect_wait() {
    let (result, reports, _) = run_wait(
        30,
        true,
        &[0, 70, 80, 99, 100],
        &[Some(NodeConditionStatus::Ready), None, Some(NodeConditionStatus::NotReady)],
    );
    assert!(!result.success);
    assert_eq!(result.time_taken_secs, 30);
    assert_eq!(result.error, Some("Timed out waiting for node after 30s".to_string()));
    assert_eq!(reports[3], "Waiting for node to rejoin cluster (20s remaining)");
    assert_eq!(reports[4], "Node status: NotReady (1s remaining)");
    // A clock that runs backwards counts as no time passed.
    let (result, _, _) = run_wait(
        30,
        true,
        &[0, 70, 65],
        &[Some(NodeConditionStatus::Ready), Some(NodeConditionStatus::Ready)],
    );
    assert!(result.success);
    assert_eq!(result.time_taken_secs, 0);
}
