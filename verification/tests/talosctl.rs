use talos_pilot::discovery::{
    shuffle_fallback_ips, shuffled_indices, DiscoveryFetch, FetchEffect, FetchEvent,
};
use talos_pilot::talosctl::{
    address_status_from_document, apply_result, command_outcome, context_get_args, context_node,
    disk_from_document, gen_config_args, gen_config_result, get_address_status, get_args,
    get_kubespan_peers, kubespan_peer_from_document, parse_kubespan_peers_yaml, RoundTrip,
    get_discovery_members, get_disks, get_machine_config, get_volume_status, insecure_get_args,
    is_kubespan_enabled, parse_address_status_yaml, parse_discovery_members_yaml, parse_disks_yaml,
    parse_machine_config_yaml, parse_version_tag, parse_volume_status_yaml, version_from_outcome,
    volume_from_document, DiscoveryMember, TalosError,
};
use talos_pilot::yaml::{read_document, read_documents, YamlNode};

#[test]
fn test_parse_volume_status() {
    let yaml = r#"
node: 10.5.0.2
metadata:
    namespace: runtime
    type: VolumeStatuses.block.talos.dev
    id: STATE
    version: "1"
    phase: running
spec:
    phase: ready
    location: /dev/sda6
    encryptionProvider: luks2
    filesystem: xfs
    mountLocation: /system/state
    prettySize: 100 MiB
---
node: 10.5.0.2
metadata:
    namespace: runtime
    type: VolumeStatuses.block.talos.dev
    id: EPHEMERAL
    version: "1"
    phase: running
spec:
    phase: ready
    location: /dev/sda5
    filesystem: xfs
    mountLocation: /var
    prettySize: 10 GiB
"#;

    let volumes = parse_volume_status_yaml(yaml).unwrap();
    assert_eq!(volumes.len(), 2);
    assert_eq!(volumes[0].id, "STATE");
    assert_eq!(volumes[0].encryption_provider, Some("luks2".to_string()));
    assert_eq!(volumes[1].id, "EPHEMERAL");
    assert_eq!(volumes[1].encryption_provider, None);
}

#[test]
fn test_parse_machine_config() {
    let yaml = r#"
node: 10.5.0.2
metadata:
    namespace: config
    type: MachineConfigs.config.talos.dev
    id: v1alpha1
    version: "5"
spec:
    machine:
        type: controlplane
"#;

    let config = parse_machine_config_yaml(yaml).unwrap();
    assert_eq!(config.version, "5");
    assert_eq!(config.machine_type, Some("controlplane".to_string()));
}

#[test]
fn test_parse_disks() {
    let yaml = r#"
node: 172.20.0.5
metadata:
    namespace: runtime
    type: Disks.block.talos.dev
    id: sda
    version: 1
    owner: block.DisksController
    phase: running
spec:
    dev_path: /dev/sda
    size: 10485760000
    human_size: 10 GB
    io_size: 512
    sector_size: 512
    readonly: false
    cdrom: false
    model: QEMU HARDDISK
    modalias: scsi:t-0x00
    bus_path: /pci0000:00/0000:00:07.0/virtio4/host1/target1:0:0/1:0:0:0
    sub_system: /sys/class/block
    transport: virtio
    rotational: true
---
node: 172.20.0.5
metadata:
    namespace: runtime
    type: Disks.block.talos.dev
    id: nvme0n1
    version: 1
    owner: block.DisksController
    phase: running
spec:
    dev_path: /dev/nvme0n1
    size: 256060514304
    human_size: 256 GB
    io_size: 4096
    sector_size: 512
    readonly: false
    cdrom: false
    model: Samsung SSD 970 EVO Plus
    serial: S4EVNG0N123456
    wwid: nvme.144d-5334455...
    bus_path: /pci0000:00/0000:00:1d.0/0000:3d:00.0/nvme/nvme0/nvme0n1
    sub_system: /sys/class/block
    transport: nvme
    rotational: false
"#;

    let disks = parse_disks_yaml(yaml).unwrap();
    assert_eq!(disks.len(), 2);

    // First disk - virtio HDD
    assert_eq!(disks[0].id, "sda");
    assert_eq!(disks[0].dev_path, "/dev/sda");
    assert_eq!(disks[0].size, 10485760000);
    assert_eq!(disks[0].size_pretty, "10 GB");
    assert_eq!(disks[0].model, Some("QEMU HARDDISK".to_string()));
    assert_eq!(disks[0].transport, Some("virtio".to_string()));
    assert!(disks[0].rotational);
    assert!(!disks[0].readonly);

    // Second disk - NVMe SSD
    assert_eq!(disks[1].id, "nvme0n1");
    assert_eq!(disks[1].dev_path, "/dev/nvme0n1");
    assert_eq!(disks[1].size_pretty, "256 GB");
    assert_eq!(disks[1].model, Some("Samsung SSD 970 EVO Plus".to_string()));
    assert_eq!(disks[1].serial, Some("S4EVNG0N123456".to_string()));
    assert_eq!(disks[1].transport, Some("nvme".to_string()));
    assert!(!disks[1].rotational);
}

#[test]
fn test_parse_discovery_members() {
    let yaml = r#"
node: 192.168.9.11
metadata:
    namespace: cluster
    type: Members.cluster.talos.dev
    id: 3xKYjp
    version: 1
    owner: cluster.DiscoveryService
    phase: running
spec:
    nodeId: 3xKYjp
    addresses:
        - 192.168.9.11
    hostname: cp-1
    machineType: controlplane
    operatingSystem: Talos (v1.9.2)
---
node: 192.168.9.11
metadata:
    namespace: cluster
    type: Members.cluster.talos.dev
    id: 4yLZkq
    version: 1
    owner: cluster.DiscoveryService
    phase: running
spec:
    nodeId: 4yLZkq
    addresses:
        - 192.168.9.21
        - 10.244.0.1
    hostname: worker-1
    machineType: worker
    operatingSystem: Talos (v1.9.2)
"#;

    let members = parse_discovery_members_yaml(yaml).unwrap();
    assert_eq!(members.len(), 2);

    // Control plane node
    assert_eq!(members[0].id, "3xKYjp");
    assert_eq!(members[0].hostname, "cp-1");
    assert_eq!(members[0].machine_type, "controlplane");
    assert_eq!(members[0].addresses, vec!["192.168.9.11"]);
    assert!(members[0].operating_system.contains("Talos"));

    // Worker node with multiple addresses
    assert_eq!(members[1].id, "4yLZkq");
    assert_eq!(members[1].hostname, "worker-1");
    assert_eq!(members[1].machine_type, "worker");
    assert_eq!(members[1].addresses.len(), 2);
    assert!(members[1].addresses.contains(&"192.168.9.21".to_string()));
}

#[test]
fn test_parse_discovery_members_empty() {
    let yaml = "";
    let members = parse_discovery_members_yaml(yaml).unwrap();
    assert!(members.is_empty());
}

#[test]
fn test_parse_discovery_members_invalid_yaml() {
    // Should skip invalid documents and not panic
    let yaml = r#"
not valid yaml: [
---
node: 192.168.9.11
metadata:
    namespace: cluster
    type: Members.cluster.talos.dev
    id: valid
spec:
    hostname: valid-host
    machineType: controlplane
"#;
    let members = parse_discovery_members_yaml(yaml).unwrap();
    // Should have parsed the valid document
    assert_eq!(members.len(), 1);
    assert_eq!(members[0].id, "valid");
}

#[test]
fn test_shuffle_fallback_ips_does_not_panic() {
    // Test that shuffle works correctly on various inputs
    let empty: Vec<String> = vec![];
    let shuffled = shuffle_fallback_ips(&empty);
    assert!(shuffled.is_empty());

    let single = vec!["192.168.1.1".to_string()];
    let shuffled = shuffle_fallback_ips(&single);
    assert_eq!(shuffled.len(), 1);

    let multiple = vec![
        "192.168.1.1".to_string(),
        "192.168.1.2".to_string(),
        "192.168.1.3".to_string(),
    ];
    let shuffled = shuffle_fallback_ips(&multiple);
    assert_eq!(shuffled.len(), 3);
    // Every address given should still be present
    for ip in &multiple {
        assert!(shuffled.contains(ip));
    }
}

#[test]
fn shuffled_indices_are_a_permutation() {
    for count in [0usize, 1, 2, 17] {
        for _ in 0..20 {
            let mut order = shuffled_indices(count);
            assert_eq!(order.len(), count);
            order.sort();
            assert_eq!(order, (0..count).collect::<Vec<_>>());
        }
    }
    // Some order other than the ascending one comes up.
    let ascending: Vec<usize> = (0..17).collect();
    assert!((0..50).any(|_| shuffled_indices(17) != ascending));
}

fn text(s: &str) -> YamlNode {
    YamlNode::Text(s.to_string())
}

fn mapping(entries: Vec<(&str, YamlNode)>) -> YamlNode {
    YamlNode::Mapping(entries.into_iter().map(|(k, v)| (text(k), v)).collect())
}

#[test]
fn yaml_documents_become_trees() {
    let doc = read_document("a: 1\nb: [x, 2, true]\nc: {d: ~}\ne: -3\nf: 1.5\n").unwrap();
    assert_eq!(doc.get("a").unwrap().as_u64(), Some(1));
    let items = doc.get("b").unwrap().as_sequence().unwrap();
    assert_eq!(items.len(), 3);
    assert_eq!(items[0].as_str(), Some("x"));
    assert_eq!(items[1].as_u64(), Some(2));
    assert_eq!(items[2].as_bool(), Some(true));
    assert!(matches!(doc.get("c").unwrap().get("d"), Some(YamlNode::Null)));
    assert_eq!(doc.get("e").unwrap().as_u64(), None);
    assert_eq!(doc.get("f").unwrap().as_u64(), None);
    assert_eq!(doc.get("a").unwrap().as_numeral(), Some("1"));
    assert_eq!(doc.get("e").unwrap().as_numeral(), Some("-3"));
    assert_eq!(doc.get("f").unwrap().as_numeral(), Some("1.5"));
    assert_eq!(doc.get("b").unwrap().as_numeral(), None);
    assert!(doc.get("missing").is_none());
    assert!(doc.get("a").unwrap().get("x").is_none());
    assert_eq!(doc.get("a").unwrap().as_str(), None);
    assert!(read_document("a: [").is_err());
    assert!(!read_document("a: [").unwrap_err().is_empty());
    let tagged = read_document("v: !Thing {k: inner}\n").unwrap();
    assert!(matches!(tagged.get("v"), Some(YamlNode::Tagged(_))));
    assert_eq!(tagged.get("v").unwrap().get("k").unwrap().as_str(), Some("inner"));
    assert_eq!(read_documents("a: 1\n---\n: : :\n  - [\n---\n\n---\nb: 2\n").len(), 2);
    assert!(read_documents("   \n").is_empty());
}

#[test]
fn tree_lookups_follow_keys() {
    let doc = mapping(vec![
        ("a", text("first")),
        ("b", YamlNode::Tagged(Box::new(mapping(vec![("c", YamlNode::Bool(true))])))),
    ]);
    assert_eq!(doc.get("a").unwrap().as_str(), Some("first"));
    assert_eq!(doc.get("b").unwrap().get("c").unwrap().as_bool(), Some(true));
    assert!(doc.get("c").is_none());
    // Only a text key matches, not a tagged one or a number.
    let odd = YamlNode::Mapping(vec![
        (YamlNode::Tagged(Box::new(text("k"))), text("tagged")),
        (YamlNode::Number(Some(1), "1".to_string()), text("number")),
        (text("k"), text("plain")),
    ]);
    assert_eq!(odd.get("k").unwrap().as_str(), Some("plain"));
    assert!(odd.get("1").is_none());
    assert!(text("x").get("x").is_none());
    assert_eq!(YamlNode::Tagged(Box::new(YamlNode::Number(Some(7), "7".to_string()))).as_u64(), Some(7));
    assert_eq!(YamlNode::Number(None, "-1".to_string()).as_u64(), None);
    assert!(YamlNode::Null.as_sequence().is_none());
}

#[test]
fn volume_fallbacks() {
    let doc = mapping(vec![
        ("metadata", mapping(vec![("id", text("/var/lib"))])),
        ("spec", mapping(vec![("type", text("directory"))])),
    ]);
    let volume = volume_from_document(&doc).unwrap();
    assert_eq!(volume.id, "/var/lib");
    assert_eq!(volume.phase, "unknown");
    assert_eq!(volume.size, "directory");
    assert_eq!(volume.filesystem, Some("directory".to_string()));
    assert_eq!(volume.mount_location, Some("/var/lib".to_string()));
    assert_eq!(volume.encryption_provider, None);

    let doc = mapping(vec![
        ("metadata", mapping(vec![("id", text("META"))])),
        (
            "spec",
            mapping(vec![
                ("type", text("partition")),
                ("prettySize", text("1 MiB")),
                ("filesystem", text("vfat")),
                ("mountSpec", mapping(vec![("targetPath", text("/boot"))])),
            ]),
        ),
    ]);
    let volume = volume_from_document(&doc).unwrap();
    assert_eq!(volume.size, "1 MiB");
    assert_eq!(volume.filesystem, Some("vfat".to_string()));
    assert_eq!(volume.mount_location, Some("/boot".to_string()));

    let bare = mapping(vec![("metadata", mapping(vec![("id", text("X"))]))]);
    let volume = volume_from_document(&bare).unwrap();
    assert_eq!(volume.size, "");
    assert_eq!(volume.filesystem, None);
    assert_eq!(volume.mount_location, None);

    assert!(volume_from_document(&mapping(vec![("spec", mapping(vec![]))])).is_none());
    assert!(volume_from_document(&mapping(vec![("metadata", mapping(vec![("id", text(""))]))])).is_none());
    assert!(volume_from_document(&mapping(vec![("metadata", mapping(vec![("id", YamlNode::Number(Some(3), "3".to_string()))]))])).is_none());
}

#[test]
fn disk_fallbacks() {
    let doc = mapping(vec![
        ("metadata", mapping(vec![("id", text("sdb"))])),
        (
            "spec",
            mapping(vec![
                ("pretty_size", text("2 TB")),
                ("model", text("")),
                ("size", text("big")),
                ("readonly", YamlNode::Bool(true)),
                ("cdrom", text("true")),
            ]),
        ),
    ]);
    let disk = disk_from_document(&doc).unwrap();
    assert_eq!(disk.id, "sdb");
    assert_eq!(disk.dev_path, "");
    assert_eq!(disk.size, 0);
    assert_eq!(disk.size_pretty, "2 TB");
    assert_eq!(disk.model, None);
    assert_eq!(disk.serial, None);
    assert!(disk.readonly);
    assert!(!disk.cdrom);
    assert!(!disk.rotational);
    // A human_size that is no text hides pretty_size.
    let doc = mapping(vec![
        ("metadata", mapping(vec![("id", text("sdc"))])),
        ("spec", mapping(vec![("human_size", YamlNode::Number(Some(5), "5".to_string())), ("pretty_size", text("5 B"))])),
    ]);
    assert_eq!(disk_from_document(&doc).unwrap().size_pretty, "");
    assert!(disk_from_document(&mapping(vec![])).is_none());
}

#[test]
fn address_status_is_read_with_defaults() {
    let yaml = "metadata:\n    id: eth0/10.0.0.5/24\nspec:\n    linkName: eth0\n    address: 10.0.0.5/24\n    flags:\n        - permanent\n        - 7\n        - vip\n---\nmetadata:\n    id: lo\n";
    let addresses = parse_address_status_yaml(yaml).unwrap();
    assert_eq!(addresses.len(), 2);
    assert_eq!(addresses[0].id, "eth0/10.0.0.5/24");
    assert_eq!(addresses[0].link_name, "eth0");
    assert_eq!(addresses[0].address, "10.0.0.5/24");
    assert_eq!(addresses[0].family, "inet");
    assert_eq!(addresses[0].scope, "global");
    assert_eq!(addresses[0].flags, vec!["permanent", "vip"]);
    assert_eq!(addresses[1].link_name, "");
    assert!(addresses[1].flags.is_empty());
    let doc = mapping(vec![
        ("metadata", mapping(vec![("id", text("a"))])),
        ("spec", mapping(vec![("family", text("inet6")), ("scope", text("link"))])),
    ]);
    let address = address_status_from_document(&doc).unwrap();
    assert_eq!(address.family, "inet6");
    assert_eq!(address.scope, "link");
}

#[test]
fn discovery_member_defaults() {
    let members = parse_discovery_members_yaml("metadata:\n  id: m1\n").unwrap();
    assert_eq!(members.len(), 1);
    assert_eq!(members[0].hostname, "");
    assert_eq!(members[0].machine_type, "unknown");
    assert_eq!(members[0].operating_system, "");
    assert!(members[0].addresses.is_empty());
}

#[test]
fn machine_config_reading_fails_on_bad_yaml() {
    match parse_machine_config_yaml("a: [") {
        Err(TalosError::Connection(message)) => {
            assert!(message.starts_with("Failed to parse YAML: "), "{}", message);
            assert!(message.len() > "Failed to parse YAML: ".len());
        }
        other => panic!("unexpected {:?}", other),
    }
    let config = parse_machine_config_yaml("metadata: {}\n").unwrap();
    assert_eq!(config.version, "");
    assert_eq!(config.machine_type, None);
}

#[test]
fn command_outcomes_and_arguments() {
    assert_eq!(command_outcome(true, "out".to_string(), "warn").unwrap(), "out");
    match command_outcome(false, "out".to_string(), "  rpc error: boom \n") {
        Err(TalosError::Connection(message)) => {
            assert_eq!(message, "talosctl failed: rpc error: boom")
        }
        other => panic!("unexpected {:?}", other),
    }
    assert_eq!(get_args("disks", "10.0.0.1"), ["get", "disks", "--nodes", "10.0.0.1", "-o", "yaml"]);
    assert_eq!(
        context_get_args("prod", None, "10.0.0.1", "members"),
        ["--context", "prod", "-n", "10.0.0.1", "get", "members", "-o", "yaml"]
    );
    assert_eq!(
        context_get_args("prod", Some("/etc/talosconfig"), "10.0.0.1", "disks"),
        ["--context", "prod", "--talosconfig", "/etc/talosconfig", "-n", "10.0.0.1", "get", "disks", "-o", "yaml"]
    );
    assert_eq!(
        insecure_get_args("volumestatus", "10.0.0.9"),
        ["get", "volumestatus", "--insecure", "-n", "10.0.0.9", "-o", "yaml"]
    );
}

#[test]
fn failed_commands_are_handed_on() {
    let failure = || Err(TalosError::Connection("talosctl failed: x".to_string()));
    assert!(matches!(get_volume_status(failure()), Err(TalosError::Connection(m)) if m == "talosctl failed: x"));
    assert!(matches!(get_disks(failure()), Err(TalosError::Connection(_))));
    assert!(matches!(get_machine_config(failure()), Err(TalosError::Connection(_))));
    assert!(matches!(get_discovery_members(failure()), Err(TalosError::Connection(_))));
    assert!(matches!(get_address_status(Err(TalosError::Io("no talosctl".to_string()))), Err(TalosError::Io(_))));
    assert_eq!(get_disks(Ok("metadata:\n  id: sda\n".to_string())).unwrap().len(), 1);
    assert_eq!(get_volume_status(Ok("metadata:\n  id: STATE\n".to_string())).unwrap()[0].id, "STATE");
    assert_eq!(get_machine_config(Ok("metadata:\n  version: 9\n".to_string())).unwrap().version, "");
    assert_eq!(get_discovery_members(Ok(String::new())).unwrap().len(), 0);
    assert_eq!(get_address_status(Ok("metadata:\n  id: lo\n".to_string())).unwrap()[0].scope, "global");
}

#[test]
fn kubespan_is_enabled_only_when_the_output_says_so() {
    let enabled = "metadata:\n  type: KubeSpanConfigs.kubespan.talos.dev\nspec:\n  enabled: true\n";
    assert!(is_kubespan_enabled(&Ok(enabled.to_string())));
    assert!(!is_kubespan_enabled(&Ok(enabled.replace("true", "false"))));
    assert!(!is_kubespan_enabled(&Ok("enabled: true".to_string())));
    assert!(!is_kubespan_enabled(&Ok("  \n".to_string())));
    assert!(!is_kubespan_enabled(&Ok(String::new())));
    assert!(!is_kubespan_enabled(&Err(TalosError::Connection(enabled.to_string()))));
}

#[test]
fn version_tag_is_read_from_the_tag_line() {
    let output = "Client:\n\tTag:         v1.9.0\n\tSHA:         abc\nServer:\n\tTag:         v1.12.1\n";
    assert_eq!(parse_version_tag(output), "v1.9.0");
    assert_eq!(parse_version_tag("nothing here\n"), "unknown");
    assert_eq!(parse_version_tag(""), "unknown");
    assert_eq!(parse_version_tag("Tag:"), "");
    assert_eq!(parse_version_tag("  Tag: v1:2\r\n"), "v1");
    assert_eq!(parse_version_tag("a: b\nTag: x \r\n"), "x");
    let info = version_from_outcome(Ok("Tag: v1.12.1\n".to_string())).unwrap();
    assert_eq!(info.tag, "v1.12.1");
    assert!(!info.maintenance_mode);
    let info = version_from_outcome(Err(TalosError::Connection(
        "talosctl failed: API is not implemented in maintenance mode".to_string(),
    )))
    .unwrap();
    assert_eq!(info.tag, "unknown");
    assert!(info.maintenance_mode);
    assert!(version_from_outcome(Err(TalosError::Connection("not implemented".to_string()))).is_ok());
    assert!(matches!(
        version_from_outcome(Err(TalosError::Connection("connection refused".to_string()))),
        Err(TalosError::Connection(m)) if m == "connection refused"
    ));
}

#[test]
fn talos_error_messages() {
    assert_eq!(TalosError::Io("denied".to_string()).message(), "I/O error: denied");
    assert_eq!(TalosError::Connection("x".to_string()).message(), "Connection error: x");
    assert_eq!(TalosError::ContextNotFound("prod".to_string()).message(), "Context not found: prod");
    assert_eq!(
        TalosError::NoEndpoints("prod".to_string()).message(),
        "No endpoints configured for context: prod"
    );
}

#[test]
fn apply_results() {
    let applied = apply_result(Ok(" \n".to_string()));
    assert!(applied.success);
    assert_eq!(applied.message, "Configuration applied successfully. Node will install and reboot.");
    let applied = apply_result(Ok("Applied configuration without a reboot\n".to_string()));
    assert!(applied.success);
    assert_eq!(applied.message, "Applied configuration without a reboot\n");
    let failed = apply_result(Err(TalosError::Connection("talosctl failed: bad config".to_string())));
    assert!(!failed.success);
    assert_eq!(
        failed.message,
        "Failed to apply config: Connection error: talosctl failed: bad config"
    );
}

#[test]
fn gen_config_arguments_and_paths() {
    let sans = vec!["10.0.0.5".to_string(), "127.0.0.1".to_string()];
    assert_eq!(
        gen_config_args("demo", "https://10.0.0.5:6443", "/tmp/out", &sans, true),
        [
            "gen", "config", "demo", "https://10.0.0.5:6443", "--output-dir", "/tmp/out",
            "--additional-sans", "10.0.0.5,127.0.0.1", "--force"
        ]
    );
    assert_eq!(
        gen_config_args("demo", "https://10.0.0.5:6443", "/tmp/out", &Vec::new(), false),
        ["gen", "config", "demo", "https://10.0.0.5:6443", "--output-dir", "/tmp/out"]
    );
    assert_eq!(
        gen_config_args("c", "e", "d", &vec!["one".to_string()], false),
        ["gen", "config", "c", "e", "--output-dir", "d", "--additional-sans", "one"]
    );
    let result = gen_config_result("/tmp/out");
    assert_eq!(result.controlplane_path, "/tmp/out/controlplane.yaml");
    assert_eq!(result.worker_path, "/tmp/out/worker.yaml");
    assert_eq!(result.talosconfig_path, "/tmp/out/talosconfig");
    assert_eq!(result.output_dir, "/tmp/out");
}

#[test]
fn context_node_is_the_host_of_the_first_endpoint() {
    let endpoints = vec!["10.0.0.5:50000".to_string(), "10.0.0.6".to_string()];
    assert_eq!(context_node("prod", Some(&endpoints)).unwrap(), "10.0.0.5");
    assert_eq!(context_node("prod", Some(&vec!["cp.local".to_string()])).unwrap(), "cp.local");
    assert!(matches!(context_node("prod", None), Err(TalosError::ContextNotFound(c)) if c == "prod"));
    assert!(matches!(context_node("prod", Some(&Vec::new())), Err(TalosError::NoEndpoints(c)) if c == "prod"));
    assert!(matches!(
        context_node("prod", Some(&vec![":50000".to_string()])),
        Err(TalosError::NoEndpoints(_))
    ));
}

fn member(id: &str) -> DiscoveryMember {
    DiscoveryMember {
        id: id.to_string(),
        addresses: Vec::new(),
        hostname: String::new(),
        machine_type: "worker".to_string(),
        operating_system: String::new(),
    }
}

fn describe(effects: &[FetchEffect]) -> Vec<String> {
    effects
        .iter()
        .map(|e| match e {
            FetchEffect::Pause(millis) => format!("pause {}", millis),
            FetchEffect::QueryContext => "context".to_string(),
            FetchEffect::QueryNode(node) => format!("node {}", node),
        })
        .collect()
}

fn failure(text: &str) -> FetchEvent {
    FetchEvent::Failed(TalosError::Connection(text.to_string()))
}

#[test]
fn discovery_fetch_retries_then_falls_back() {
    let fallback = vec!["10.0.0.1".to_string(), "10.0.0.2".to_string()];
    let (mut fetch, effects) = DiscoveryFetch::with_order("prod", fallback);
    assert_eq!(describe(&effects), ["context"]);
    assert_eq!(describe(&fetch.step(failure("e1"))), ["pause 100", "context"]);
    assert_eq!(describe(&fetch.step(failure("e2"))), ["pause 200", "context"]);
    assert_eq!(describe(&fetch.step(failure("e3"))), ["node 10.0.0.1"]);
    assert!(!fetch.is_finished());
    assert_eq!(describe(&fetch.step(failure("e4"))), ["node 10.0.0.2"]);
    assert!(fetch.step(FetchEvent::Fetched(vec![member("m1")])).is_empty());
    assert!(fetch.is_finished());
    assert!(fetch.step(failure("late")).is_empty());
    let members = fetch.into_result().unwrap().unwrap();
    assert_eq!(members.len(), 1);
    assert_eq!(members[0].id, "m1");
}

#[test]
fn discovery_fetch_fails_with_the_last_error() {
    let (mut fetch, _) = DiscoveryFetch::with_order("prod", vec!["10.0.0.1".to_string()]);
    fetch.step(failure("e1"));
    fetch.step(failure("e2"));
    fetch.step(failure("e3"));
    assert!(fetch.step(failure("e4")).is_empty());
    assert!(fetch.is_finished());
    assert!(matches!(fetch.into_result(), Some(Err(TalosError::Connection(m))) if m == "e4"));

    let (mut fetch, _) = DiscoveryFetch::with_order("prod", Vec::new());
    fetch.step(failure("e1"));
    fetch.step(failure("e2"));
    assert!(!fetch.is_finished());
    fetch.step(failure("e3"));
    assert!(fetch.is_finished());
    assert!(matches!(fetch.into_result(), Some(Err(TalosError::Connection(m))) if m == "e3"));

    let (fetch, _) = DiscoveryFetch::with_order("prod", Vec::new());
    assert!(fetch.into_result().is_none());
}

#[test]
fn discovery_fetch_ends_at_the_first_success() {
    let (mut fetch, _) = DiscoveryFetch::start("prod", &vec!["a".to_string(), "b".to_string()]);
    assert!(fetch.step(FetchEvent::Fetched(Vec::new())).is_empty());
    assert!(fetch.is_finished());
    assert!(fetch.into_result().unwrap().unwrap().is_empty());

    let ips = vec!["a".to_string(), "b".to_string(), "c".to_string()];
    let (mut fetch, _) = DiscoveryFetch::start("prod", &ips);
    fetch.step(failure("e1"));
    fetch.step(failure("e2"));
    let mut tried = Vec::new();
    let mut effects = fetch.step(failure("e3"));
    while let Some(FetchEffect::QueryNode(node)) = effects.last() {
        tried.push(node.clone());
        effects = fetch.step(failure("down"));
    }
    tried.sort();
    assert_eq!(tried, ips);
}

#[test]
fn kubespan_peers_are_read_with_their_round_trip_as_written() {
    let yaml = "metadata:\n    id: peer1\nspec:\n    label: worker-1\n    endpoint: 10.0.0.2:51820\n    state: up\n    lastUsedEndpoint:\n        rtt: 2500000\n    lastHandshakeTime: 2024-01-01T00:00:00Z\n    receiveBytes: 1024\n    transmitBytes: 2048\n---\nmetadata:\n    id: peer2\nspec:\n    lastUsedEndpoint:\n        rtt: 2.5ms\n    receiveBytes: -1\n---\nmetadata:\n    id: peer3\nspec:\n    lastUsedEndpoint:\n        rtt: 1.5e6\n---\nspec:\n    label: nameless\n";
    let peers = parse_kubespan_peers_yaml(yaml).unwrap();
    assert_eq!(peers.len(), 3);
    assert_eq!(peers[0].id, "peer1");
    assert_eq!(peers[0].label, "worker-1");
    assert_eq!(peers[0].endpoint, Some("10.0.0.2:51820".to_string()));
    assert_eq!(peers[0].state, "up");
    assert!(matches!(&peers[0].rtt, Some(RoundTrip::Nanoseconds(n)) if n == "2500000"));
    assert_eq!(peers[0].last_handshake, Some("2024-01-01T00:00:00Z".to_string()));
    assert_eq!(peers[0].rx_bytes, 1024);
    assert_eq!(peers[0].tx_bytes, 2048);
    assert_eq!(peers[1].label, "peer2");
    assert_eq!(peers[1].state, "unknown");
    assert_eq!(peers[1].endpoint, None);
    assert!(matches!(&peers[1].rtt, Some(RoundTrip::Duration(t)) if t == "2.5ms"));
    assert_eq!(peers[1].rx_bytes, 0);
    assert!(matches!(&peers[2].rtt, Some(RoundTrip::Nanoseconds(n)) if n.parse::<f64>() == Ok(1.5e6)));
    let bare = mapping(vec![("metadata", mapping(vec![("id", text("p"))]))]);
    let peer = kubespan_peer_from_document(&bare).unwrap();
    assert_eq!(peer.label, "p");
    assert!(peer.rtt.is_none());
    assert!(kubespan_peer_from_document(&mapping(vec![])).is_none());
    assert!(matches!(
        get_kubespan_peers(Err(TalosError::Connection("x".to_string()))),
        Err(TalosError::Connection(_))
    ));
    assert_eq!(get_kubespan_peers(Ok("metadata:\n  id: a\n".to_string())).unwrap().len(), 1);
}
