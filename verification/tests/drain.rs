use talos_pilot::drain::{
    classify_eviction_error, classify_pod, deletion_event, eviction_event, force_delete_grace,
    max_attempts, select_candidates, DrainEffect, DrainEvent, DrainOptions, DrainResult, DrainRun,
};
use talos_pilot::records::{PodRecord, VolumeRecord};

fn pod(namespace: &str, name: &str, owners: &[&str]) -> PodRecord {
    PodRecord {
        namespace: namespace.to_string(),
        name: name.to_string(),
        node_name: Some("w1".to_string()),
        phase: Some("Running".to_string()),
        owner_kinds: owners.iter().map(|k| k.to_string()).collect(),
        annotation_keys: Vec::new(),
        volumes: Vec::new(),
        conditions: Vec::new(),
        containers: Vec::new(),
    }
}

/// What a scripted scheduler API saw and what came of the drain.
struct Trace {
    result: DrainResult,
    reports: Vec<String>,
    requests: Vec<String>,
    pauses: Vec<u64>,
}

/// Runs a drain to its end; `answer` plays the scheduler API.
fn run_drain(
    pods: &Vec<PodRecord>,
    options: &DrainOptions,
    mut answer: impl FnMut(&DrainEffect) -> DrainEvent,
) -> Trace {
    let (mut run, mut effects) = DrainRun::start("w1", pods, options);
    let mut reports = Vec::new();
    let mut requests = Vec::new();
    let mut pauses = Vec::new();
    loop {
        let mut event = None;
        for effect in &effects {
            match effect {
                DrainEffect::Report(line) => reports.push(line.clone()),
                DrainEffect::Pause(millis) => pauses.push(*millis),
                DrainEffect::Evict { namespace, name } => {
                    requests.push(format!("evict {}/{}", namespace, name));
                    event = Some(answer(effect));
                }
                DrainEffect::ForceDelete { namespace, name, grace_period_secs } => {
                    requests.push(format!("delete {}/{} grace={}", namespace, name, grace_period_secs));
                    event = Some(answer(effect));
                }
            }
        }
        match event {
            Some(event) => effects = run.step(event),
            None => break,
        }
    }
    assert!(run.is_finished());
    Trace { result: run.result(), reports, requests, pauses }
}

fn scenario_pods() -> Vec<PodRecord> {
    vec![
        pod("ns", "pod-A", &["DaemonSet"]),
        pod("ns", "pod-B", &["ReplicaSet"]),
        pod("ns", "pod-C", &[]),
    ]
}

fn scenario_answer(effect: &DrainEffect) -> DrainEvent {
    match effect {
        DrainEffect::Evict { name, .. } if name == "pod-B" => DrainEvent::Evicted,
        DrainEffect::Evict { .. } => DrainEvent::Blocked,
        DrainEffect::ForceDelete { .. } => DrainEvent::Deleted,
        _ => unreachable!(),
    }
}

#[test]
fn blocked_unmanaged_pod_is_force_deleted_when_allowed() {
    let options = DrainOptions { force_delete_unmanaged: true, ..DrainOptions::default() };
    let trace = run_drain(&scenario_pods(), &options, scenario_answer);
    assert!(trace.result.success);
    assert_eq!(trace.result.node, "w1");
    assert_eq!(trace.result.pods_evicted, 2);
    assert!(trace.result.failed_pods.is_empty());
    assert_eq!(trace.result.force_deleted_pods, vec!["ns/pod-C".to_string()]);
    assert_eq!(trace.result.error, None);
    // pod-A is never asked for; pod-C is tried 15 times, then deleted.
    assert!(trace.requests.iter().all(|r| !r.contains("pod-A")));
    assert_eq!(trace.requests.iter().filter(|r| *r == "evict ns/pod-C").count(), 15);
    assert_eq!(trace.requests.first().unwrap(), "evict ns/pod-B");
    assert_eq!(trace.requests.last().unwrap(), "delete ns/pod-C grace=0");
    assert_eq!(trace.reports[0], "Found 2 pods to evict");
    assert_eq!(trace.reports[1], "Evicting ns/pod-B (1/2)");
    assert_eq!(trace.reports[2], "Evicted ns/pod-B (1/2)");
    assert_eq!(trace.reports[3], "Evicting ns/pod-C (2/2)");
    assert_eq!(trace.reports[4], "Waiting for PDB: ns/pod-C (retry 1/15)");
    assert_eq!(trace.reports[18], "Waiting for PDB: ns/pod-C (retry 15/15)");
    assert_eq!(trace.reports[19], "Force deleting unmanaged pod ns/pod-C after timeout");
    assert_eq!(trace.reports[20], "Force deleted ns/pod-C (2/2)");
    assert_eq!(trace.reports.len(), 21);
    assert_eq!(trace.pauses.iter().filter(|p| **p == 500).count(), 1);
    assert_eq!(trace.pauses.iter().filter(|p| **p == 2000).count(), 15);
}

#[test]
fn blocked_unmanaged_pod_fails_when_force_delete_is_off() {
    let options = DrainOptions::default();
    let trace = run_drain(&scenario_pods(), &options, scenario_answer);
    assert!(!trace.result.success);
    assert_eq!(trace.result.pods_evicted, 1);
    assert_eq!(trace.result.failed_pods, vec!["ns/pod-C".to_string()]);
    assert!(trace.result.force_deleted_pods.is_empty());
    assert!(trace.requests.iter().all(|r| !r.starts_with("delete")));
    assert_eq!(trace.reports.last().unwrap(), "Timeout: ns/pod-C");
}

#[test]
fn managed_pod_is_never_force_deleted() {
    let options = DrainOptions { force_delete_unmanaged: true, ..DrainOptions::default() };
    let pods = vec![pod("apps", "web-1", &["ReplicaSet"])];
    let trace = run_drain(&pods, &options, |_| DrainEvent::EvictFailed);
    assert!(!trace.result.success);
    assert_eq!(trace.result.failed_pods, vec!["apps/web-1".to_string()]);
    assert!(trace.result.force_deleted_pods.is_empty());
    assert_eq!(trace.requests, vec!["evict apps/web-1".to_string()]);
    assert_eq!(trace.reports.last().unwrap(), "Failed: apps/web-1");
}

#[test]
fn other_failure_force_deletes_at_once_with_grace_period() {
    let options = DrainOptions {
        force_delete_unmanaged: true,
        grace_period_secs: Some(7),
        ..DrainOptions::default()
    };
    let pods = vec![pod("default", "solo", &[])];
    let trace = run_drain(&pods, &options, |effect| match effect {
        DrainEffect::Evict { .. } => DrainEvent::EvictFailed,
        _ => DrainEvent::Deleted,
    });
    assert!(trace.result.success);
    assert_eq!(trace.result.pods_evicted, 1);
    assert_eq!(trace.result.force_deleted_pods, vec!["default/solo".to_string()]);
    assert_eq!(
        trace.requests,
        vec!["evict default/solo".to_string(), "delete default/solo grace=7".to_string()]
    );
    assert_eq!(trace.reports[2], "Force deleting unmanaged pod default/solo");
}

#[test]
fn failed_force_delete_lands_in_failed_pods() {
    let options = DrainOptions { force_delete_unmanaged: true, ..DrainOptions::default() };
    let pods = vec![pod("default", "solo", &[])];
    let trace = run_drain(&pods, &options, |effect| match effect {
        DrainEffect::Evict { .. } => DrainEvent::EvictFailed,
        _ => DrainEvent::DeleteFailed,
    });
    assert!(!trace.result.success);
    assert_eq!(trace.result.pods_evicted, 0);
    assert_eq!(trace.result.failed_pods, vec!["default/solo".to_string()]);
    assert!(trace.result.force_deleted_pods.is_empty());
}

#[test]
fn not_found_counts_as_evicted() {
    let pods = vec![pod("a", "gone", &["Job"]), pod("a", "next", &["Job"])];
    let trace = run_drain(&pods, &DrainOptions::default(), |effect| match effect {
        DrainEffect::Evict { name, .. } if name == "gone" => DrainEvent::NotFound,
        _ => DrainEvent::Evicted,
    });
    assert!(trace.result.success);
    assert_eq!(trace.result.pods_evicted, 2);
    assert!(trace.result.failed_pods.is_empty());
    assert_eq!(trace.reports[2], "Pod gone a/gone (1/2)");
    // No pause after a pod that was gone already.
    assert_eq!(trace.pauses, vec![500]);
}

#[test]
fn pods_are_evicted_in_listed_order() {
    let pods = vec![
        pod("z", "third", &["ReplicaSet"]),
        pod("a", "first", &["ReplicaSet"]),
        pod("m", "second", &["ReplicaSet"]),
    ];
    let trace = run_drain(&pods, &DrainOptions::default(), |_| DrainEvent::Evicted);
    assert_eq!(
        trace.requests,
        vec!["evict z/third".to_string(), "evict a/first".to_string(), "evict m/second".to_string()]
    );
    assert_eq!(trace.result.pods_evicted, 3);
}

#[test]
fn retry_succeeds_before_the_budget_runs_out() {
    let mut blocked = 0;
    let pods = vec![pod("db", "pg-0", &["StatefulSet"])];
    let options = DrainOptions { per_pod_timeout_secs: 10, ..DrainOptions::default() };
    let trace = run_drain(&pods, &options, |_| {
        if blocked < 4 {
            blocked += 1;
            DrainEvent::Blocked
        } else {
            DrainEvent::Evicted
        }
    });
    assert!(trace.result.success);
    assert_eq!(trace.requests.len(), 5);
    assert_eq!(trace.reports[5], "Waiting for PDB: db/pg-0 (retry 4/5)");
    assert_eq!(trace.reports[6], "Evicted db/pg-0 (1/1)");
}

#[test]
fn drain_of_an_empty_node_succeeds_at_once() {
    let (run, effects) = DrainRun::start("w1", &Vec::new(), &DrainOptions::default());
    assert!(run.is_finished());
    assert_eq!(effects.len(), 1);
    assert!(matches!(&effects[0], DrainEffect::Report(line) if line == "Found 0 pods to evict"));
    let result = run.result();
    assert!(result.success);
    assert_eq!(result.pods_evicted, 0);
}

#[test]
fn stray_events_change_nothing() {
    let pods = vec![pod("a", "p", &["ReplicaSet"])];
    let (mut run, _) = DrainRun::start("w1", &pods, &DrainOptions::default());
    assert!(run.step(DrainEvent::Deleted).is_empty());
    assert!(run.step(DrainEvent::DeleteFailed).is_empty());
    assert!(!run.is_finished());
    run.step(DrainEvent::Evicted);
    assert!(run.is_finished());
    assert!(run.step(DrainEvent::Evicted).is_empty());
    assert_eq!(run.result().pods_evicted, 1);
}

#[test]
fn daemonset_pods_are_skipped_only_while_ignored() {
    let pods = vec![pod("kube-system", "proxy", &["DaemonSet"]), pod("a", "web", &["ReplicaSet"])];
    let ignoring = select_candidates(&pods, &DrainOptions::default());
    assert_eq!(ignoring.len(), 1);
    assert_eq!(ignoring[0].name, "web");
    let options = DrainOptions { ignore_daemonsets: false, ..DrainOptions::default() };
    let all = select_candidates(&pods, &options);
    assert_eq!(all.len(), 2);
    assert!(all[0].is_daemonset_pod);
    assert!(all[0].is_managed);
}

#[test]
fn emptydir_pods_are_skipped_unless_data_may_be_deleted() {
    let mut scratch = pod("a", "scratch", &["ReplicaSet"]);
    scratch.volumes = vec![VolumeRecord { is_empty_dir: false }, VolumeRecord { is_empty_dir: true }];
    let pods = vec![scratch, pod("a", "web", &["ReplicaSet"])];
    let options = DrainOptions { delete_emptydir_data: false, ..DrainOptions::default() };
    let kept = select_candidates(&pods, &options);
    assert_eq!(kept.len(), 1);
    assert_eq!(kept[0].name, "web");
    let all = select_candidates(&pods, &DrainOptions::default());
    assert_eq!(all.len(), 2);
    assert!(all[0].has_empty_dir_volume);
    assert!(!all[1].has_empty_dir_volume);
}

#[test]
fn mirror_pods_are_always_skipped() {
    let mut mirror = pod("kube-system", "etcd-cp1", &[]);
    mirror.annotation_keys = vec!["kubernetes.io/config.mirror".to_string()];
    let options = DrainOptions {
        ignore_daemonsets: false,
        delete_emptydir_data: true,
        force_delete_unmanaged: true,
        ..DrainOptions::default()
    };
    assert!(select_candidates(&vec![mirror], &options).is_empty());
}

#[test]
fn pod_classification_reads_owner_kinds() {
    for kind in ["ReplicaSet", "Deployment", "StatefulSet", "Job", "DaemonSet"] {
        assert!(classify_pod(&pod("a", "p", &[kind])).is_managed, "{}", kind);
    }
    assert!(!classify_pod(&pod("a", "p", &["Node"])).is_managed);
    assert!(!classify_pod(&pod("a", "p", &[])).is_managed);
    let candidate = classify_pod(&pod("ns", "name", &["CronJob", "DaemonSet"]));
    assert!(candidate.is_daemonset_pod);
    assert_eq!(candidate.namespace, "ns");
    assert_eq!(candidate.name, "name");
}

#[test]
fn max_attempts_is_half_the_timeout_and_at_least_one() {
    assert_eq!(max_attempts(30), 15);
    assert_eq!(max_attempts(1), 1);
    assert_eq!(max_attempts(0), 1);
    assert_eq!(max_attempts(2), 1);
    assert_eq!(max_attempts(3), 1);
    assert_eq!(max_attempts(4), 2);
    assert_eq!(max_attempts(u64::MAX), u64::MAX / 2);
}

#[test]
fn drain_options_defaults() {
    let options = DrainOptions::default();
    assert_eq!(options.per_pod_timeout_secs, 30);
    assert_eq!(options.grace_period_secs, None);
    assert!(!options.force_delete_unmanaged);
    assert!(options.ignore_daemonsets);
    assert!(options.delete_emptydir_data);
    assert!(options.wait_for_node_ready);
    assert_eq!(options.post_reboot_timeout_secs, 300);
    assert!(options.uncordon_after_reboot);
}

#[test]
fn force_delete_grace_follows_the_override() {
    let mut options = DrainOptions::default();
    assert_eq!(force_delete_grace(&options), 0);
    options.grace_period_secs = Some(30);
    assert_eq!(force_delete_grace(&options), 30);
    options.grace_period_secs = Some(-1);
    assert_eq!(force_delete_grace(&options), u32::MAX);
    options.grace_period_secs = Some(1 << 32);
    assert_eq!(force_delete_grace(&options), 0);
}

#[test]
fn eviction_errors_are_told_apart() {
    assert_eq!(classify_eviction_error("pods \"x\" not found"), DrainEvent::NotFound);
    assert_eq!(classify_eviction_error("ApiError: 404"), DrainEvent::NotFound);
    assert_eq!(classify_eviction_error("HTTP 429 Too Many Requests"), DrainEvent::Blocked);
    assert_eq!(
        classify_eviction_error("Cannot evict pod as it would violate the pod's disruption budget."),
        DrainEvent::Blocked
    );
    assert_eq!(classify_eviction_error("violates PodDisruptionBudget"), DrainEvent::Blocked);
    assert_eq!(classify_eviction_error("connection refused"), DrainEvent::EvictFailed);
    assert_eq!(classify_eviction_error(""), DrainEvent::EvictFailed);
    // A missing pod wins over a budget in the way.
    assert_eq!(classify_eviction_error("429 not found"), DrainEvent::NotFound);
    assert_eq!(eviction_event(&Ok(())), DrainEvent::Evicted);
    assert_eq!(eviction_event(&Err("timeout".to_string())), DrainEvent::EvictFailed);
    assert_eq!(eviction_event(&Err("not found".to_string())), DrainEvent::NotFound);
    assert_eq!(deletion_event(&Ok(())), DrainEvent::Deleted);
    assert_eq!(deletion_event(&Err("not found".to_string())), DrainEvent::DeleteFailed);
}

#[test]
fn success_is_exactly_no_failed_pods() {
    let pods = vec![pod("a", "p1", &["Job"]), pod("a", "p2", &["Job"]), pod("a", "p3", &["Job"])];
    for failing in 0..8u32 {
        let trace = run_drain(&pods, &DrainOptions::default(), |effect| match effect {
            DrainEffect::Evict { name, .. } => {
                let index = name[1..].parse::<u32>().unwrap() - 1;
                if failing & (1 << index) != 0 {
                    DrainEvent::EvictFailed
                } else {
                    DrainEvent::Evicted
                }
            }
            _ => unreachable!(),
        });
        assert_eq!(trace.result.success, trace.result.failed_pods.is_empty());
        assert_eq!(trace.result.failed_pods.len() as u32, failing.count_ones());
        assert_eq!(trace.result.pods_evicted as u32, 3 - failing.count_ones());
    }
}
