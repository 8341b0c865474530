use talos_pilot::client::K8sError;
use talos_pilot::cni::{
    are_cni_pods_healthy, cni_kind_of_lowered_name, cni_pod_health_summary, detect_cni,
    detect_cni_from_k8s, CniInfo, CniPodInfo, CniType,
};
use talos_pilot::drain::{begin_drain, DrainEffect, DrainOptions};
use talos_pilot::cordon::{cordon_patch, cordon_result, uncordon_patch};
use talos_pilot::probe::{
    check_pdb_health, get_node_ready_status, node_exists, pdb_health, probe_outcome,
    NodeConditionStatus, PdbHealthInfo, PdbInfo,
};
use talos_pilot::records::{ConditionRecord, ContainerRecord, NodeRecord, PdbRecord, PodRecord};
use talos_pilot::workloads::{
    check_pod_health, container_ailment, pod_health, Ailment, PodHealthInfo, UnhealthyPodInfo,
};

fn pdb(name: &str, disruptions_allowed: i32, expected_pods: i32) -> PdbRecord {
    PdbRecord {
        namespace: "default".to_string(),
        name: name.to_string(),
        current_healthy: expected_pods,
        desired_healthy: 1,
        disruptions_allowed,
        expected_pods,
    }
}

#[test]
fn pdb_blocks_only_without_budget_and_with_pods() {
    for allowed in [-1, 0, 1, 5] {
        for expected in [-1, 0, 1, 3] {
            let info = PdbInfo::from_record(&pdb("x", allowed, expected));
            assert_eq!(info.would_block_drain, allowed == 0 && expected > 0);
            assert_eq!(info.disruptions_allowed, allowed);
            assert_eq!(info.expected_pods, expected);
        }
    }
    assert!(!PdbInfo::from_record(&pdb("idle", 0, 0)).would_block_drain);
    assert!(!PdbInfo::from_record(&pdb("idle", 7, 0)).would_block_drain);
}

#[test]
fn pdb_health_partitions_all_and_blocking() {
    let records = vec![pdb("a", 0, 3), pdb("b", 1, 3), pdb("c", 0, 0), pdb("d", 0, 1)];
    let info = pdb_health(&records);
    assert_eq!(info.pdbs.len(), 4);
    assert_eq!(info.pdbs.iter().map(|p| p.name.as_str()).collect::<Vec<_>>(), ["a", "b", "c", "d"]);
    assert_eq!(info.blocking_pdbs.iter().map(|p| p.name.as_str()).collect::<Vec<_>>(), ["a", "d"]);
    assert!(info.blocking_pdbs.iter().all(|p| p.would_block_drain));
    assert!(info.has_blocking_pdbs());
    assert_eq!(info.summary(), "4 PDBs, 2 would block drain");
    assert_eq!(info.pdbs[1].namespace, "default");
    assert_eq!(info.pdbs[1].current_healthy, 3);
    assert_eq!(info.pdbs[1].desired_healthy, 1);
}

#[test]
fn pdb_summary_lines() {
    assert_eq!(PdbHealthInfo::default().summary(), "No PDBs configured");
    assert!(!PdbHealthInfo::default().has_blocking_pdbs());
    let info = pdb_health(&vec![pdb("a", 1, 3), pdb("b", 2, 2)]);
    assert!(!info.has_blocking_pdbs());
    assert_eq!(info.summary(), "2 PDBs, all allow disruption");
    let many: Vec<PdbRecord> = (0..12).map(|i| pdb(&format!("p{}", i), 0, 1)).collect();
    assert_eq!(pdb_health(&many).summary(), "12 PDBs, 12 would block drain");
}

fn container(waiting: Option<&str>, restarts: i32, last: Option<&str>) -> ContainerRecord {
    ContainerRecord {
        waiting_reason: waiting.map(|s| s.to_string()),
        restart_count: restarts,
        last_terminated_reason: last.map(|s| s.to_string()),
    }
}

fn pod(name: &str, phase: Option<&str>, containers: Vec<ContainerRecord>) -> PodRecord {
    PodRecord {
        namespace: "kube-system".to_string(),
        name: name.to_string(),
        node_name: Some("n1".to_string()),
        phase: phase.map(|s| s.to_string()),
        owner_kinds: Vec::new(),
        annotation_keys: Vec::new(),
        volumes: Vec::new(),
        conditions: Vec::new(),
        containers,
    }
}

fn ready_condition(status: &str) -> ConditionRecord {
    ConditionRecord { type_: "Ready".to_string(), status: status.to_string() }
}

#[test]
fn pod_health_classifies_by_waiting_reason() {
    let mut stuck = pod("stuck", Some("Pending"), vec![]);
    stuck.conditions = vec![ConditionRecord {
        type_: "PodScheduled".to_string(),
        status: "False".to_string(),
    }];
    let pods = vec![
        pod("ok", Some("Running"), vec![container(None, 0, None)]),
        pod(
            "crash",
            Some("Running"),
            vec![
                container(Some("CrashLoopBackOff"), 7, Some("Error")),
                container(Some("ErrImagePull"), 0, None),
            ],
        ),
        pod("pull", Some("Pending"), vec![container(Some("ImagePullBackOff"), 0, None)]),
        pod("creating", Some("Pending"), vec![container(Some("ContainerCreating"), 0, None)]),
        stuck,
        pod("fresh", Some("Pending"), vec![]),
    ];
    let info = pod_health(&pods);
    assert_eq!(info.total_pods, 6);
    assert_eq!(info.crashing.len(), 1);
    assert_eq!(info.crashing[0].name, "crash");
    assert_eq!(info.crashing[0].namespace, "kube-system");
    assert_eq!(info.crashing[0].state, "CrashLoopBackOff");
    assert_eq!(info.crashing[0].restart_count, 7);
    assert_eq!(info.crashing[0].last_reason, Some("Error".to_string()));
    assert_eq!(
        info.image_pull_errors.iter().map(|p| (p.name.as_str(), p.state.as_str())).collect::<Vec<_>>(),
        [("crash", "ErrImagePull"), ("pull", "ImagePullBackOff")]
    );
    assert_eq!(info.pending.len(), 1);
    assert_eq!(info.pending[0].name, "stuck");
    assert_eq!(info.pending[0].state, "Pending");
    assert_eq!(info.pending[0].restart_count, 0);
    assert_eq!(info.pending[0].last_reason, None);
    assert!(info.has_issues());
    assert_eq!(info.summary(), "1 crashing, 2 image errors, 1 pending");
}

fn unhealthy(name: &str) -> UnhealthyPodInfo {
    UnhealthyPodInfo {
        name: name.to_string(),
        namespace: "d".to_string(),
        state: "s".to_string(),
        restart_count: 0,
        last_reason: None,
    }
}

#[test]
fn pod_health_summary_lines() {
    let mut info = PodHealthInfo::default();
    assert_eq!(info.summary(), "All pods healthy");
    assert!(!info.has_issues());
    info.pending.push(unhealthy("p"));
    assert_eq!(info.summary(), "1 pending");
    // Pending pods alone are no issue.
    assert!(!info.has_issues());
    info.crashing.push(unhealthy("c"));
    info.crashing.push(unhealthy("c2"));
    assert_eq!(info.summary(), "2 crashing, 1 pending");
    assert!(info.has_issues());
    info.crashing.clear();
    info.image_pull_errors.push(unhealthy("i"));
    assert_eq!(info.summary(), "1 image errors, 1 pending");
    assert!(info.has_issues());
    info.pending.clear();
    assert_eq!(info.summary(), "1 image errors");
}

#[test]
fn container_ailments() {
    assert_eq!(container_ailment(&container(None, 0, None)), None);
    assert_eq!(
        container_ailment(&container(Some("CrashLoopBackOff"), 0, None)),
        Some(Ailment::CrashLoop)
    );
    assert_eq!(container_ailment(&container(Some("ErrImagePull"), 0, None)), Some(Ailment::ImagePull));
    assert_eq!(
        container_ailment(&container(Some("ImagePullBackOff"), 0, None)),
        Some(Ailment::ImagePull)
    );
    assert_eq!(container_ailment(&container(Some("crashloopbackoff"), 0, None)), None);
    assert_eq!(container_ailment(&container(Some(""), 0, None)), None);
}

#[test]
fn cni_is_detected_from_pod_names() {
    let mut flannel = pod("Kube-Flannel-ds-abc", Some("Running"), vec![container(None, 2, None), container(None, 3, None)]);
    flannel.conditions = vec![ready_condition("True")];
    let mut pending = pod("kube-flannel-ds-xyz", None, vec![]);
    pending.node_name = None;
    pending.conditions = vec![ready_condition("False")];
    let pods = vec![pod("coredns-1", Some("Running"), vec![]), flannel, pending];
    let info = detect_cni(&pods);
    assert_eq!(info.cni_type, CniType::Flannel);
    assert_eq!(info.pods.len(), 2);
    assert_eq!(info.pods[0].name, "Kube-Flannel-ds-abc");
    assert_eq!(info.pods[0].node_name, Some("n1".to_string()));
    assert_eq!(info.pods[0].phase, "Running");
    assert!(info.pods[0].ready);
    assert_eq!(info.pods[0].restart_count, 5);
    assert_eq!(info.pods[1].phase, "Unknown");
    assert_eq!(info.pods[1].node_name, None);
    assert!(!info.pods[1].ready);
    assert!(!are_cni_pods_healthy(&info));
    assert_eq!(cni_pod_health_summary(&info), "1/2 pods healthy");
}

#[test]
fn cni_kinds_by_name_prefix() {
    assert_eq!(cni_kind_of_lowered_name("kube-flannel-ds"), Some(CniType::Flannel));
    assert_eq!(cni_kind_of_lowered_name("flannel"), Some(CniType::Flannel));
    assert_eq!(cni_kind_of_lowered_name("cilium-operator"), Some(CniType::Cilium));
    assert_eq!(cni_kind_of_lowered_name("calico-node-x"), Some(CniType::Calico));
    assert_eq!(cni_kind_of_lowered_name("calico"), Some(CniType::Calico));
    assert_eq!(cni_kind_of_lowered_name("my-cilium"), None);
    assert_eq!(cni_kind_of_lowered_name("CILIUM"), None);
    assert_eq!(cni_kind_of_lowered_name(""), None);
    assert_eq!(detect_cni(&vec![pod("CILIUM-abc", None, vec![])]).cni_type, CniType::Cilium);
    assert_eq!(detect_cni(&vec![]).cni_type, CniType::Unknown);
    assert_eq!(CniType::default(), CniType::Unknown);
    // The last CNI pod listed tells the plugin.
    let mixed = vec![pod("cilium-1", None, vec![]), pod("calico-node-1", None, vec![]), pod("x", None, vec![])];
    assert_eq!(detect_cni(&mixed).cni_type, CniType::Calico);
}

fn cni_pod(phase: &str, ready: bool, restarts: i32) -> CniPodInfo {
    CniPodInfo {
        name: "cilium-x".to_string(),
        node_name: None,
        phase: phase.to_string(),
        ready,
        restart_count: restarts,
    }
}

#[test]
fn cni_health_and_summary() {
    let none = CniInfo::default();
    assert!(!are_cni_pods_healthy(&none));
    assert_eq!(cni_pod_health_summary(&none), "No CNI pods found");
    let good = CniInfo {
        cni_type: CniType::Cilium,
        pods: vec![cni_pod("Running", true, 0), cni_pod("Running", true, 0)],
    };
    assert!(are_cni_pods_healthy(&good));
    assert_eq!(cni_pod_health_summary(&good), "2/2 pods healthy");
    let restarted = CniInfo {
        cni_type: CniType::Cilium,
        pods: vec![cni_pod("Running", true, 3), cni_pod("Running", true, 9)],
    };
    assert!(are_cni_pods_healthy(&restarted));
    assert_eq!(cni_pod_health_summary(&restarted), "2/2 pods healthy (12 restarts)");
    let bad = CniInfo {
        cni_type: CniType::Cilium,
        pods: vec![cni_pod("Running", false, 3), cni_pod("Pending", true, 0), cni_pod("Running", true, 1)],
    };
    assert!(!are_cni_pods_healthy(&bad));
    assert_eq!(cni_pod_health_summary(&bad), "1/3 pods healthy");
    let saturated = CniInfo {
        cni_type: CniType::Cilium,
        pods: vec![cni_pod("Running", true, i32::MAX), cni_pod("Running", true, 5)],
    };
    assert_eq!(cni_pod_health_summary(&saturated), "2/2 pods healthy (2147483647 restarts)");
    let negative = CniInfo { cni_type: CniType::Cilium, pods: vec![cni_pod("Running", true, -4)] };
    assert_eq!(cni_pod_health_summary(&negative), "1/1 pods healthy (-4 restarts)");
}

#[test]
fn cordon_patches_and_results() {
    let patch = cordon_patch("w1");
    assert_eq!(patch.node, "w1");
    assert!(patch.unschedulable);
    let patch = uncordon_patch("w1");
    assert_eq!(patch.node, "w1");
    assert!(!patch.unschedulable);
    let ok = cordon_result("w1", &Ok(()));
    assert_eq!(ok.node, "w1");
    assert!(ok.success);
    assert_eq!(ok.error, None);
    let failed = cordon_result("w2", &Err("forbidden".to_string()));
    assert_eq!(failed.node, "w2");
    assert!(!failed.success);
    assert_eq!(failed.error, Some("forbidden".to_string()));
}

#[test]
fn api_errors_are_surfaced() {
    let failed = || Err::<Vec<PodRecord>, String>("connection refused".to_string());
    assert!(matches!(check_pod_health(&failed()), Err(K8sError::ApiError(m)) if m == "connection refused"));
    assert!(matches!(detect_cni_from_k8s(&failed()), Err(K8sError::ApiError(m)) if m == "connection refused"));
    assert!(matches!(
        check_pdb_health(&Err("forbidden".to_string())),
        Err(K8sError::ApiError(m)) if m == "forbidden"
    ));
    assert!(matches!(
        begin_drain("w1", &failed(), &DrainOptions::default()),
        Err(K8sError::ApiError(m)) if m == "Failed to list pods: connection refused"
    ));
    assert!(matches!(
        get_node_ready_status(&Err("not found".to_string())),
        Err(K8sError::ApiError(m)) if m == "Failed to get node: not found"
    ));
    assert!(!node_exists(&Err("not found".to_string())));
    assert_eq!(probe_outcome(&Err("not found".to_string())), None);
}

#[test]
fn answers_are_read_when_the_api_succeeds() {
    let pods = vec![pod("cilium-1", Some("Running"), vec![container(Some("CrashLoopBackOff"), 1, None)])];
    let health = check_pod_health(&Ok(pods.clone())).unwrap();
    assert_eq!(health.total_pods, 1);
    assert_eq!(health.crashing.len(), 1);
    assert_eq!(detect_cni_from_k8s(&Ok(pods.clone())).unwrap().cni_type, CniType::Cilium);
    assert_eq!(check_pdb_health(&Ok(vec![pdb("a", 0, 2)])).unwrap().blocking_pdbs.len(), 1);
    let (run, effects) = begin_drain("w1", &Ok(pods), &DrainOptions::default()).unwrap();
    assert!(!run.is_finished());
    assert!(matches!(effects.last(), Some(DrainEffect::Evict { name, .. }) if name == "cilium-1"));
    let node = NodeRecord { name: "w1".to_string(), conditions: vec![ready_condition("True")] };
    assert!(node_exists(&Ok(node.clone())));
    assert_eq!(probe_outcome(&Ok(node.clone())), Some(NodeConditionStatus::Ready));
    assert!(matches!(get_node_ready_status(&Ok(node)), Ok(NodeConditionStatus::Ready)));
    let bare = NodeRecord { name: "w2".to_string(), conditions: vec![] };
    assert!(matches!(get_node_ready_status(&Ok(bare)), Ok(NodeConditionStatus::Unknown)));
}
