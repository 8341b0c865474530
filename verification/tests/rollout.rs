use talos_pilot::cordon::CordonResult;
use talos_pilot::drain::{DrainOptions, DrainResult};
use talos_pilot::lifecycle::{LifecycleEffect, LifecycleEvent, LifecyclePhase, NodeOperation};
use talos_pilot::readiness::NodeReadyResult;
use talos_pilot::rolling::{
    execution_order, node_of_member, FailurePolicy, NodeOutcomeStatus, RollingNodeInfo,
    RolloutRun, RolloutStatus,
};
use talos_pilot::talosctl::DiscoveryMember;

fn node(hostname: &str, order: Option<usize>) -> RollingNodeInfo {
    RollingNodeInfo {
        hostname: hostname.to_string(),
        address: format!("10.0.0.{}", hostname.len()),
        is_controlplane: hostname.starts_with("cp"),
        selection_order: order,
    }
}

fn cordoned(success: bool) -> CordonResult {
    CordonResult {
        node: "n".to_string(),
        success,
        error: if success { None } else { Some("forbidden".to_string()) },
    }
}

fn drained(failed: &[&str], forced: &[&str]) -> DrainResult {
    DrainResult {
        node: "n".to_string(),
        success: failed.is_empty(),
        pods_evicted: 3,
        failed_pods: failed.iter().map(|s| s.to_string()).collect(),
        force_deleted_pods: forced.iter().map(|s| s.to_string()).collect(),
        error: None,
    }
}

fn request_of(effects: &[LifecycleEffect]) -> Option<&LifecycleEffect> {
    effects.iter().find(|e| !matches!(e, LifecycleEffect::Report(_)))
}

fn reports_of(effects: &[LifecycleEffect]) -> Vec<String> {
    effects
        .iter()
        .filter_map(|e| match e {
            LifecycleEffect::Report(line) => Some(line.clone()),
            _ => None,
        })
        .collect()
}

/// Runs an operation; `drain_fails` makes its drain fail.
fn run_operation(hostname: &str, options: &DrainOptions, drain_fails: bool) -> NodeOperation {
    let mut operation = NodeOperation::new(hostname, options, false);
    let mut effects = operation.step(LifecycleEvent::Begin);
    while !operation.is_finished() {
        let event = match request_of(&effects).expect("a request") {
            LifecycleEffect::Cordon => LifecycleEvent::Cordoned(cordoned(true)),
            LifecycleEffect::Drain => LifecycleEvent::Drained(if drain_fails {
                drained(&["ns/pod-C"], &[])
            } else {
                drained(&[], &[])
            }),
            LifecycleEffect::Reboot => LifecycleEvent::Rebooted { error: None },
            LifecycleEffect::WaitReady { .. } => LifecycleEvent::ReadyWaited(NodeReadyResult {
                success: true,
                time_taken_secs: 42,
                error: None,
            }),
            LifecycleEffect::Uncordon => LifecycleEvent::Uncordoned(cordoned(true)),
            other => panic!("unexpected request {:?}", other),
        };
        effects = operation.step(event);
    }
    operation
}

#[test]
fn operation_runs_through_all_phases() {
    let options = DrainOptions::default();
    let mut operation = NodeOperation::new("w1", &options, true);
    assert_eq!(operation.phase(), LifecyclePhase::Idle);
    let effects = operation.step(LifecycleEvent::Begin);
    assert_eq!(operation.phase(), LifecyclePhase::Checking);
    assert!(matches!(effects[..], [LifecycleEffect::CheckPdbs]));
    let effects = operation.step(LifecycleEvent::PdbsChecked { blocking: Some(2) });
    assert_eq!(operation.phase(), LifecyclePhase::Cordoning);
    assert_eq!(
        reports_of(&effects),
        ["Warning: 2 PodDisruptionBudgets would block drain", "Cordoning node w1"]
    );
    assert!(matches!(request_of(&effects), Some(LifecycleEffect::Cordon)));
    assert!(!operation.leaves_node_cordoned());
    let effects = operation.step(LifecycleEvent::Cordoned(cordoned(true)));
    assert_eq!(operation.phase(), LifecyclePhase::Draining);
    assert!(operation.leaves_node_cordoned());
    assert_eq!(reports_of(&effects), ["Draining node w1"]);
    assert!(matches!(request_of(&effects), Some(LifecycleEffect::Drain)));
    let effects = operation.step(LifecycleEvent::Drained(drained(&[], &["ns/pod-C"])));
    assert_eq!(operation.phase(), LifecyclePhase::AwaitingExternalReboot);
    assert!(matches!(request_of(&effects), Some(LifecycleEffect::Reboot)));
    let effects = operation.step(LifecycleEvent::Rebooted { error: None });
    assert_eq!(operation.phase(), LifecyclePhase::WaitingReady);
    assert!(matches!(
        effects[..],
        [LifecycleEffect::WaitReady { timeout_secs: 300, wait_for_disconnect: true }]
    ));
    let effects = operation.step(LifecycleEvent::ReadyWaited(NodeReadyResult {
        success: true,
        time_taken_secs: 80,
        error: None,
    }));
    assert_eq!(operation.phase(), LifecyclePhase::Uncordoning);
    assert!(matches!(request_of(&effects), Some(LifecycleEffect::Uncordon)));
    assert!(!operation.is_finished());
    let effects = operation.step(LifecycleEvent::Uncordoned(cordoned(true)));
    assert_eq!(operation.phase(), LifecyclePhase::Done);
    assert!(operation.is_finished());
    assert!(operation.succeeded());
    assert!(!operation.leaves_node_cordoned());
    assert_eq!(operation.explanation(), "Node operation completed");
    assert_eq!(reports_of(&effects), ["Node operation completed"]);
    assert!(operation.step(LifecycleEvent::Begin).is_empty());
    assert_eq!(operation.phase(), LifecyclePhase::Done);
}

#[test]
fn pre_check_only_informs() {
    let options = DrainOptions::default();
    for blocking in [None, Some(0), Some(9)] {
        let mut operation = NodeOperation::new("w1", &options, true);
        operation.step(LifecycleEvent::Begin);
        let effects = operation.step(LifecycleEvent::PdbsChecked { blocking });
        assert_eq!(operation.phase(), LifecyclePhase::Cordoning);
        assert!(matches!(effects.last(), Some(LifecycleEffect::Cordon)));
    }
    let mut operation = NodeOperation::new("w1", &options, true);
    operation.step(LifecycleEvent::Begin);
    let effects = operation.step(LifecycleEvent::PdbsChecked { blocking: None });
    assert_eq!(reports_of(&effects)[0], "Warning: could not check PodDisruptionBudgets");
    let mut operation = NodeOperation::new("w1", &options, false);
    let effects = operation.step(LifecycleEvent::Begin);
    assert_eq!(operation.phase(), LifecyclePhase::Cordoning);
    assert_eq!(reports_of(&effects), ["Cordoning node w1"]);
}

#[test]
fn cordon_failure_fails_the_operation() {
    let mut operation = NodeOperation::new("w1", &DrainOptions::default(), false);
    operation.step(LifecycleEvent::Begin);
    let effects = operation.step(LifecycleEvent::Cordoned(cordoned(false)));
    assert_eq!(operation.phase(), LifecyclePhase::Failed);
    assert!(operation.is_finished());
    assert!(!operation.succeeded());
    assert!(!operation.leaves_node_cordoned());
    assert_eq!(operation.explanation(), "Failed to cordon node: forbidden");
    assert!(request_of(&effects).is_none());
    let mut operation = NodeOperation::new("w1", &DrainOptions::default(), false);
    operation.step(LifecycleEvent::Begin);
    operation.step(LifecycleEvent::Cordoned(CordonResult {
        node: "w1".to_string(),
        success: false,
        error: None,
    }));
    assert_eq!(operation.explanation(), "Failed to cordon node: unknown error");
}

#[test]
fn drain_failure_leaves_the_node_cordoned() {
    let operation = run_operation("w1", &DrainOptions::default(), true);
    assert_eq!(operation.phase(), LifecyclePhase::Failed);
    assert!(operation.leaves_node_cordoned());
    assert_eq!(
        operation.explanation(),
        "Drain failed: 1 pods could not be evicted; node remains cordoned"
    );
}

#[test]
fn reboot_failure_and_wait_failure_leave_the_node_cordoned() {
    let mut operation = NodeOperation::new("w1", &DrainOptions::default(), false);
    operation.step(LifecycleEvent::Begin);
    operation.step(LifecycleEvent::Cordoned(cordoned(true)));
    operation.step(LifecycleEvent::Drained(drained(&[], &[])));
    let effects = operation.step(LifecycleEvent::Rebooted { error: Some("rpc error".to_string()) });
    assert_eq!(operation.phase(), LifecyclePhase::Failed);
    assert!(operation.leaves_node_cordoned());
    assert_eq!(operation.explanation(), "Reboot failed: rpc error");
    assert!(request_of(&effects).is_none());

    let mut operation = NodeOperation::new("w1", &DrainOptions::default(), false);
    operation.step(LifecycleEvent::Begin);
    operation.step(LifecycleEvent::Cordoned(cordoned(true)));
    operation.step(LifecycleEvent::Drained(drained(&[], &[])));
    operation.step(LifecycleEvent::Rebooted { error: None });
    let effects = operation.step(LifecycleEvent::ReadyWaited(NodeReadyResult {
        success: false,
        time_taken_secs: 300,
        error: Some("Timed out waiting for node after 300s".to_string()),
    }));
    assert_eq!(operation.phase(), LifecyclePhase::Failed);
    assert!(operation.leaves_node_cordoned());
    assert_eq!(
        operation.explanation(),
        "Node did not become Ready: Timed out waiting for node after 300s"
    );
    assert!(effects.iter().all(|e| !matches!(e, LifecycleEffect::Uncordon)));
}

#[test]
fn wait_and_uncordon_follow_the_options() {
    let options = DrainOptions { wait_for_node_ready: false, ..DrainOptions::default() };
    let mut operation = NodeOperation::new("w1", &options, false);
    operation.step(LifecycleEvent::Begin);
    operation.step(LifecycleEvent::Cordoned(cordoned(true)));
    operation.step(LifecycleEvent::Drained(drained(&[], &[])));
    let effects = operation.step(LifecycleEvent::Rebooted { error: None });
    assert_eq!(operation.phase(), LifecyclePhase::Uncordoning);
    assert!(matches!(request_of(&effects), Some(LifecycleEffect::Uncordon)));

    let options = DrainOptions {
        uncordon_after_reboot: false,
        post_reboot_timeout_secs: 77,
        ..DrainOptions::default()
    };
    let mut operation = NodeOperation::new("w1", &options, false);
    operation.step(LifecycleEvent::Begin);
    operation.step(LifecycleEvent::Cordoned(cordoned(true)));
    operation.step(LifecycleEvent::Drained(drained(&[], &[])));
    let effects = operation.step(LifecycleEvent::Rebooted { error: None });
    assert!(matches!(
        effects[..],
        [LifecycleEffect::WaitReady { timeout_secs: 77, wait_for_disconnect: true }]
    ));
    let effects = operation.step(LifecycleEvent::ReadyWaited(NodeReadyResult {
        success: true,
        time_taken_secs: 5,
        error: None,
    }));
    assert_eq!(operation.phase(), LifecyclePhase::Done);
    assert!(operation.leaves_node_cordoned());
    assert_eq!(operation.explanation(), "Node operation completed; node remains cordoned");
    assert!(request_of(&effects).is_none());
}

#[test]
fn failed_uncordon_does_not_revert_success() {
    let mut operation = NodeOperation::new("w1", &DrainOptions::default(), false);
    operation.step(LifecycleEvent::Begin);
    operation.step(LifecycleEvent::Cordoned(cordoned(true)));
    operation.step(LifecycleEvent::Drained(drained(&[], &[])));
    operation.step(LifecycleEvent::Rebooted { error: None });
    operation.step(LifecycleEvent::ReadyWaited(NodeReadyResult {
        success: true,
        time_taken_secs: 5,
        error: None,
    }));
    operation.step(LifecycleEvent::Uncordoned(cordoned(false)));
    assert_eq!(operation.phase(), LifecyclePhase::Done);
    assert!(operation.succeeded());
    assert!(operation.leaves_node_cordoned());
    assert_eq!(operation.explanation(), "Node is healthy but remains cordoned: forbidden");
}

#[test]
fn stray_lifecycle_events_change_nothing() {
    let mut operation = NodeOperation::new("w1", &DrainOptions::default(), false);
    assert!(operation.step(LifecycleEvent::Cordoned(cordoned(true))).is_empty());
    assert!(operation.step(LifecycleEvent::Rebooted { error: None }).is_empty());
    assert_eq!(operation.phase(), LifecyclePhase::Idle);
    assert_eq!(operation.explanation(), "");
}

#[test]
fn execution_order_is_a_stable_sort_by_rank() {
    let nodes = vec![
        node("u1", None),
        node("r3", Some(3)),
        node("u2", None),
        node("r1", Some(1)),
        node("r3b", Some(3)),
        node("r0", Some(0)),
        node("u3", None),
    ];
    assert_eq!(execution_order(&nodes), vec![5, 3, 1, 4, 0, 2, 6]);
    let run = RolloutRun::new(&nodes, FailurePolicy::Continue);
    let names: Vec<String> = run.nodes().into_iter().map(|n| n.hostname).collect();
    assert_eq!(names, ["r0", "r1", "r3", "r3b", "u1", "u2", "u3"]);
}

#[test]
fn unranked_nodes_keep_the_order_given() {
    let nodes = vec![node("c", None), node("a", None), node("b", None)];
    assert_eq!(execution_order(&nodes), vec![0, 1, 2]);
    assert_eq!(execution_order(&Vec::new()), Vec::<usize>::new());
    let ranked = vec![node("x", Some(2)), node("y", Some(2)), node("z", Some(1))];
    assert_eq!(execution_order(&ranked), vec![2, 0, 1]);
}

#[test]
fn rollout_continues_past_a_failed_node() {
    let nodes = vec![node("n1", None), node("n2", None), node("n3", None)];
    let mut run = RolloutRun::new(&nodes, FailurePolicy::default());
    assert_eq!(run.status(), RolloutStatus::InProgress);
    let mut visited = Vec::new();
    while let Some(next) = run.next_node() {
        visited.push(next.hostname.clone());
        let operation = run_operation(&next.hostname, &DrainOptions::default(), next.hostname == "n2");
        run.record_operation(&operation);
    }
    assert_eq!(visited, ["n1", "n2", "n3"]);
    assert_eq!(run.status(), RolloutStatus::Completed);
    let outcomes = run.outcomes();
    assert_eq!(outcomes.len(), 3);
    assert_eq!(outcomes[0].hostname, "n1");
    assert_eq!(outcomes[0].status, NodeOutcomeStatus::Succeeded);
    assert_eq!(outcomes[0].explanation, "Node operation completed");
    assert_eq!(outcomes[1].hostname, "n2");
    assert_eq!(outcomes[1].status, NodeOutcomeStatus::Failed);
    assert_eq!(
        outcomes[1].explanation,
        "Drain failed: 1 pods could not be evicted; node remains cordoned"
    );
    assert_eq!(outcomes[2].hostname, "n3");
    assert_eq!(outcomes[2].status, NodeOutcomeStatus::Succeeded);
}

#[test]
fn rollout_aborts_and_skips_when_told_to() {
    let nodes = vec![node("n1", None), node("n2", None), node("n3", None), node("n4", None)];
    let mut run = RolloutRun::new(&nodes, FailurePolicy::Abort);
    run.record(true, "fine".to_string());
    assert_eq!(run.status(), RolloutStatus::InProgress);
    assert_eq!(run.next_node().unwrap().hostname, "n2");
    run.record(false, "drain failed".to_string());
    assert_eq!(run.status(), RolloutStatus::AbortedOnFailure);
    assert!(run.next_node().is_none());
    let outcomes = run.outcomes();
    assert_eq!(
        outcomes.iter().map(|o| o.status).collect::<Vec<_>>(),
        [
            NodeOutcomeStatus::Succeeded,
            NodeOutcomeStatus::Failed,
            NodeOutcomeStatus::Skipped,
            NodeOutcomeStatus::Skipped
        ]
    );
    assert_eq!(outcomes[2].hostname, "n3");
    assert_eq!(outcomes[3].hostname, "n4");
    assert_eq!(
        outcomes[3].explanation,
        "Skipped: the rollout was aborted after an earlier node failed"
    );
    // Nothing is recorded once the rollout has ended.
    run.record(true, "late".to_string());
    assert_eq!(run.outcomes().len(), 4);
    assert_eq!(run.status(), RolloutStatus::AbortedOnFailure);
}

#[test]
fn rollout_over_no_nodes_is_complete() {
    let mut run = RolloutRun::new(&Vec::new(), FailurePolicy::Abort);
    assert_eq!(run.status(), RolloutStatus::Completed);
    assert!(run.next_node().is_none());
    run.record(false, "nothing".to_string());
    assert!(run.outcomes().is_empty());
}

#[test]
fn abort_at_the_last_node_skips_nothing() {
    let mut run = RolloutRun::new(&vec![node("only", Some(1))], FailurePolicy::Abort);
    run.record(false, "down".to_string());
    assert_eq!(run.status(), RolloutStatus::AbortedOnFailure);
    assert_eq!(run.outcomes().len(), 1);
    assert_eq!(run.outcomes()[0].status, NodeOutcomeStatus::Failed);
}

#[test]
fn discovery_members_become_nodes() {
    let member = DiscoveryMember {
        id: "3xKYjp".to_string(),
        addresses: vec!["192.168.9.11".to_string(), "10.244.0.1".to_string()],
        hostname: "cp-1".to_string(),
        machine_type: "controlplane".to_string(),
        operating_system: "Talos".to_string(),
    };
    let node = node_of_member(&member);
    assert_eq!(node.hostname, "cp-1");
    assert_eq!(node.address, "192.168.9.11");
    assert!(node.is_controlplane);
    assert_eq!(node.selection_order, None);
    let worker = DiscoveryMember {
        addresses: Vec::new(),
        machine_type: "worker".to_string(),
        ..member
    };
    let node = node_of_member(&worker);
    assert_eq!(node.address, "");
    assert!(!node.is_controlplane);
}

#[test]
fn drain_that_could_not_be_begun_fails_with_its_error() {
    let mut operation = NodeOperation::new("w1", &DrainOptions::default(), false);
    operation.step(LifecycleEvent::Begin);
    operation.step(LifecycleEvent::Cordoned(cordoned(true)));
    let effects = operation.step(LifecycleEvent::DrainNotRun {
        error: "K8s API error: Failed to list pods: timeout".to_string(),
    });
    assert_eq!(operation.phase(), LifecyclePhase::Failed);
    assert!(operation.leaves_node_cordoned());
    assert_eq!(
        operation.explanation(),
        "Drain failed: K8s API error: Failed to list pods: timeout"
    );
    assert!(request_of(&effects).is_none());

    let mut operation = NodeOperation::new("w1", &DrainOptions::default(), false);
    operation.step(LifecycleEvent::Begin);
    operation.step(LifecycleEvent::Cordoned(cordoned(true)));
    let mut result = drained(&["ns/a", "ns/b"], &[]);
    result.error = Some("interrupted".to_string());
    operation.step(LifecycleEvent::Drained(result));
    assert_eq!(operation.explanation(), "Drain failed: interrupted");

    let mut operation = NodeOperation::new("w1", &DrainOptions::default(), false);
    operation.step(LifecycleEvent::Begin);
    operation.step(LifecycleEvent::Cordoned(cordoned(true)));
    operation.step(LifecycleEvent::Drained(drained(&["ns/a", "ns/b"], &[])));
    assert_eq!(
        operation.explanation(),
        "Drain failed: 2 pods could not be evicted; node remains cordoned"
    );
    // Outside the draining phase the event changes nothing.
    let mut operation = NodeOperation::new("w1", &DrainOptions::default(), false);
    assert!(operation.step(LifecycleEvent::DrainNotRun { error: "x".to_string() }).is_empty());
    assert_eq!(operation.phase(), LifecyclePhase::Idle);
}
