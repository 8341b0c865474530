use talos_pilot::client::{plan_kubeconfig_attempts, source_of_attempt, K8sError, KubeconfigAttempt, KubeconfigSource};
use talos_pilot::insecure::{endpoint_for_talosctl, InsecureData, InsecureViewMode};
use talos_pilot::network;
use talos_pilot::network::{device_load, parse_device_line, parse_device_table, sort_devices, DeviceLoad};
use talos_pilot::processes;
use talos_pilot::processes::{apply_filter, count_states, sort_by_memory, ProcessState, ProcessText};
use talos_pilot::ranking::ranking;
use talos_pilot::selection::{selection_after_reload, step_next, step_prev, wrap_next, wrap_prev};
use talos_pilot::slicing::{first_piece, split_text, split_words, trim_text};
use talos_pilot::storage::{StorageData, StorageViewMode};
use talos_pilot::text::{
    append_decimal, append_signed_decimal, make_pod_key, parse_decimal, text_contains, text_eq,
    text_starts_with,
};

#[test]
fn view_modes_toggle_and_label() {
    assert_eq!(InsecureViewMode::default(), InsecureViewMode::Disks);
    assert_eq!(InsecureViewMode::Disks.next(), InsecureViewMode::Volumes);
    assert_eq!(InsecureViewMode::Volumes.next(), InsecureViewMode::Disks);
    assert_eq!(InsecureViewMode::Disks.label(), "Disks");
    assert_eq!(InsecureViewMode::Volumes.label(), "Volumes");
    assert_eq!(StorageViewMode::default(), StorageViewMode::Disks);
    assert_eq!(StorageViewMode::Disks.next(), StorageViewMode::Volumes);
    assert_eq!(StorageViewMode::Volumes.next(), StorageViewMode::Disks);
    assert_eq!(StorageViewMode::Disks.label(), "Disks");
    assert_eq!(StorageViewMode::Volumes.label(), "Volumes");
}

#[test]
fn sort_orders_label() {
    assert_eq!(network::SortBy::default(), network::SortBy::Traffic);
    assert_eq!(network::SortBy::Traffic.label(), "TRAFFIC");
    assert_eq!(network::SortBy::Errors.label(), "ERRORS");
    assert_eq!(processes::SortBy::default(), processes::SortBy::Cpu);
    assert_eq!(processes::SortBy::Cpu.label(), "CPU");
    assert_eq!(processes::SortBy::Mem.label(), "MEM");
    assert_eq!(processes::Mode::default(), processes::Mode::Normal);
}

#[test]
fn view_data_defaults_are_empty() {
    let data = InsecureData::default();
    assert_eq!(data.endpoint, "");
    assert!(data.version.is_none());
    assert!(data.disks.is_empty());
    assert!(data.volumes.is_empty());
    assert!(!data.connected);
    let data = StorageData::default();
    assert_eq!(data.hostname, "");
    assert_eq!(data.address, "");
    assert_eq!(data.row_count(StorageViewMode::Disks), 0);
    assert_eq!(data.row_count(StorageViewMode::Volumes), 0);
}

#[test]
fn selection_wraps_in_storage_views() {
    assert_eq!(wrap_prev(0, 3), 2);
    assert_eq!(wrap_prev(2, 3), 1);
    assert_eq!(wrap_next(2, 3), 0);
    assert_eq!(wrap_next(0, 3), 1);
    assert_eq!(wrap_next(0, 1), 0);
    assert_eq!(wrap_prev(0, 1), 0);
    assert_eq!(wrap_prev(5, 0), 5);
    assert_eq!(wrap_next(5, 0), 5);
    assert_eq!(wrap_next(7, 3), 2);
    assert_eq!(wrap_next(usize::MAX, 10), ((usize::MAX as u128 + 1) % 10) as usize);
    for len in 1..6 {
        for selected in 0..len {
            assert_eq!(wrap_prev(wrap_next(selected, len), len), selected);
            assert_eq!(wrap_next(wrap_prev(selected, len), len), selected);
        }
    }
}

#[test]
fn selection_stops_at_the_ends_in_list_views() {
    assert_eq!(step_prev(0, 3), 0);
    assert_eq!(step_prev(2, 3), 1);
    assert_eq!(step_next(2, 3), 2);
    assert_eq!(step_next(1, 3), 2);
    assert_eq!(step_next(9, 3), 2);
    assert_eq!(step_next(4, 0), 4);
    assert_eq!(step_prev(4, 0), 4);
    assert_eq!(selection_after_reload(5, 3), 0);
    assert_eq!(selection_after_reload(2, 3), 2);
    assert_eq!(selection_after_reload(5, 0), 5);
}

#[test]
fn endpoint_port_is_stripped_for_talosctl() {
    assert_eq!(endpoint_for_talosctl("192.168.1.100:50000"), "192.168.1.100");
    assert_eq!(endpoint_for_talosctl("192.168.1.100"), "192.168.1.100");
    assert_eq!(endpoint_for_talosctl("fd00::1"), "fd00::1");
    assert_eq!(endpoint_for_talosctl("[fd00::1]:50000"), "[fd00::1]:50000");
    assert_eq!(endpoint_for_talosctl("host:"), "host");
    assert_eq!(endpoint_for_talosctl(":50000"), "");
    assert_eq!(endpoint_for_talosctl(""), "");
}

#[test]
fn k8s_error_messages() {
    assert_eq!(
        K8sError::KubeconfigFetch("denied".to_string()).message(),
        "Failed to get kubeconfig from Talos: denied"
    );
    assert_eq!(
        K8sError::KubeconfigParse("bad yaml".to_string()).message(),
        "Failed to parse kubeconfig: bad yaml"
    );
    assert_eq!(
        K8sError::ClientCreate("no tls".to_string()).message(),
        "Failed to create K8s client: no tls"
    );
    assert_eq!(K8sError::ApiError("500".to_string()).message(), "K8s API error: 500");
    assert_eq!(
        K8sError::list_pods_failed("timeout").message(),
        "K8s API error: Failed to list pods: timeout"
    );
    assert_eq!(
        K8sError::get_node_failed("gone").message(),
        "K8s API error: Failed to get node: gone"
    );
}

#[test]
fn kubeconfig_sources_are_tried_in_order() {
    let env = KubeconfigAttempt::Environment;
    let node = KubeconfigAttempt::GivenNode;
    let client = KubeconfigAttempt::GivenClient;
    let main = KubeconfigAttempt::MainClient;
    assert_eq!(plan_kubeconfig_attempts(false, false), vec![env, main]);
    assert_eq!(plan_kubeconfig_attempts(true, false), vec![env, node, main]);
    assert_eq!(plan_kubeconfig_attempts(false, true), vec![env, client, main]);
    assert_eq!(plan_kubeconfig_attempts(true, true), vec![env, node, client, main]);
    assert!(matches!(source_of_attempt(env, "10.0.0.1"), KubeconfigSource::Environment));
    assert!(matches!(source_of_attempt(node, "10.0.0.1"), KubeconfigSource::TalosNode(n) if n == "10.0.0.1"));
    assert!(matches!(source_of_attempt(client, "10.0.0.1"), KubeconfigSource::TalosNode(n) if n == "control-plane"));
    assert!(matches!(source_of_attempt(main, "10.0.0.1"), KubeconfigSource::TalosNode(n) if n == "vip"));
}

#[test]
fn decimal_rendering() {
    let render = |n: u128| {
        let mut s = String::from(">");
        append_decimal(&mut s, n);
        s
    };
    assert_eq!(render(0), ">0");
    assert_eq!(render(9), ">9");
    assert_eq!(render(10), ">10");
    assert_eq!(render(1234567890), ">1234567890");
    assert_eq!(render(u64::MAX as u128), format!(">{}", u64::MAX));
    assert_eq!(render(u128::MAX), format!(">{}", u128::MAX));
    let signed = |n: i128| {
        let mut s = String::new();
        append_signed_decimal(&mut s, n);
        s
    };
    assert_eq!(signed(0), "0");
    assert_eq!(signed(-1), "-1");
    assert_eq!(signed(i32::MIN as i128), format!("{}", i32::MIN));
    assert_eq!(signed(i128::MAX), format!("{}", i128::MAX));
}

#[test]
fn text_search_and_comparison() {
    assert!(text_contains("error 404: gone", "404"));
    assert!(text_contains("abc", ""));
    assert!(text_contains("", ""));
    assert!(!text_contains("", "a"));
    assert!(!text_contains("ab", "abc"));
    assert!(text_contains("aab", "ab"));
    assert!(text_contains("größe: 5µs", "5µs"));
    assert!(!text_contains("Not Found", "not found"));
    assert!(text_starts_with("kube-flannel-x", "kube-flannel"));
    assert!(!text_starts_with("a-kube-flannel", "kube-flannel"));
    assert!(text_starts_with("x", ""));
    assert!(!text_starts_with("", "x"));
    assert!(text_eq("Ready", "Ready"));
    assert!(!text_eq("Ready", "ready"));
    assert!(!text_eq("Ready", "Read"));
    assert!(text_eq("", ""));
    assert_eq!(make_pod_key("ns", "pod-C"), "ns/pod-C");
    assert_eq!(make_pod_key("", ""), "/");
}

#[test]
fn trimming_and_splitting() {
    assert_eq!(trim_text("  a b \n"), "a b");
    assert_eq!(trim_text("\t\r\n"), "");
    assert_eq!(trim_text(""), "");
    assert_eq!(trim_text("x"), "x");
    assert_eq!(trim_text("\u{a0}\u{3000}x\u{2003}y\u{85}"), "x\u{2003}y");
    for sample in ["", " ", "a", "  a  ", "\n---\n", "é \u{2028}", "\u{200b}x\u{200b}"] {
        assert_eq!(trim_text(sample), sample.trim(), "{:?}", sample);
    }
    assert_eq!(split_text("a\n---b\n---c", "\n---"), ["a", "b", "c"]);
    assert_eq!(split_text("abc", "\n---"), ["abc"]);
    assert_eq!(split_text("", "x"), [""]);
    assert_eq!(split_text("x", "x"), ["", ""]);
    assert_eq!(split_text("aaa", "aa"), ["", "a"]);
    assert_eq!(split_text("a::b:", ":"), ["a", "", "b", ""]);
    for (text, sep) in [("a--b---c", "--"), ("----", "--"), ("é|ü|", "|"), ("no match", "zz")] {
        let expected: Vec<&str> = text.split(sep).collect();
        assert_eq!(split_text(text, sep), expected, "{:?} {:?}", text, sep);
    }
    assert_eq!(first_piece("10.0.0.1:50000", ":"), "10.0.0.1");
    assert_eq!(first_piece("10.0.0.1", ":"), "10.0.0.1");
}

#[test]
fn rows_are_ranked_highest_first_and_stably() {
    let keys = vec![(1, 0), (5, 2), (5, 9), (0, 0), (5, 2), (u128::MAX, 0)];
    assert_eq!(ranking(&keys), vec![5, 2, 1, 4, 0, 3]);
    assert_eq!(ranking(&Vec::new()), Vec::<usize>::new());
    assert_eq!(ranking(&vec![(3, 3), (3, 3), (3, 3)]), vec![0, 1, 2]);
}

fn load(name: &str, rate: u64, traffic: u64, errors: u64, dropped: u64) -> DeviceLoad {
    DeviceLoad { name: name.to_string(), traffic, rate, errors, dropped }
}

#[test]
fn devices_are_sorted_by_traffic_or_by_faults() {
    let devices = vec![
        load("lo", 0, 900, 0, 0),
        load("eth0", 50, 100, 1, 2),
        load("eth1", 50, 700, 0, 3),
        load("wg0", 0, 900, u64::MAX, 1),
    ];
    assert_eq!(sort_devices(&devices, network::SortBy::Traffic), vec![2, 1, 0, 3]);
    assert_eq!(sort_devices(&devices, network::SortBy::Errors), vec![3, 1, 2, 0]);
}

#[test]
fn device_table_is_read_line_by_line() {
    let table = "Inter-|   Receive                                                |  Transmit\n face |bytes    packets errs drop fifo frame compressed multicast|bytes    packets errs drop fifo colls carrier compressed\n    lo:  1000      10    0    0    0     0          0         0     1000      10    0    0    0     0       0          0\n  eth0: 123456     789    1    2    0     0          0         0   654321     987    3    4    0     0       0          0\n bad: 1 2 x\n";
    let devices = parse_device_table(table);
    assert_eq!(devices.len(), 2);
    assert_eq!(devices[0].name, "lo");
    assert_eq!(devices[1].name, "eth0");
    assert_eq!(devices[1].rx_bytes, 123456);
    assert_eq!(devices[1].rx_errors, 1);
    assert_eq!(devices[1].rx_dropped, 2);
    assert_eq!(devices[1].tx_bytes, 654321);
    assert_eq!(devices[1].tx_errors, 3);
    assert_eq!(devices[1].tx_dropped, 4);
    assert!(parse_device_line("no colon here 1 2 3").is_none());
    assert!(parse_device_line("eth0: 1 2 3").is_none());
    assert!(parse_device_line("eth0: 1 2 3 4 5 6 7 8 9 10 11 -12").is_none());
    let device = parse_device_line("eth0:1 2 3 4 5 6 7 8 9 10 11 12").unwrap();
    assert_eq!((device.rx_bytes, device.tx_dropped), (1, 12));
    let shown = device_load(&devices[1], 77);
    assert_eq!(shown.name, "eth0");
    assert_eq!(shown.rate, 77);
    assert_eq!(shown.traffic, 123456 + 654321);
    assert_eq!(shown.errors, 4);
    assert_eq!(shown.dropped, 6);
    let mut full = devices[1].clone();
    full.rx_bytes = u64::MAX;
    assert_eq!(device_load(&full, 0).traffic, u64::MAX);
}

#[test]
fn decimal_numbers_are_read() {
    assert_eq!(parse_decimal("0"), Some(0));
    assert_eq!(parse_decimal("007"), Some(7));
    assert_eq!(parse_decimal("18446744073709551615"), Some(u64::MAX));
    assert_eq!(parse_decimal("18446744073709551616"), None);
    assert_eq!(parse_decimal("99999999999999999999999"), None);
    assert_eq!(parse_decimal(""), None);
    assert_eq!(parse_decimal("+1"), None);
    assert_eq!(parse_decimal("-1"), None);
    assert_eq!(parse_decimal("1 "), None);
    assert_eq!(parse_decimal("12a"), None);
    assert_eq!(parse_decimal("\u{663}"), None);
}

#[test]
fn words_are_split_at_white_space() {
    assert_eq!(split_words("  a  bc\td\n"), ["a", "bc", "d"]);
    assert!(split_words("").is_empty());
    assert!(split_words(" \t ").is_empty());
    assert_eq!(split_words("one"), ["one"]);
    for sample in ["a b", " a", "a ", "\u{a0}x\u{3000}y", "x\u{200b}y z"] {
        let expected: Vec<&str> = sample.split_whitespace().collect();
        assert_eq!(split_words(sample), expected, "{:?}", sample);
    }
}

#[test]
fn process_states_are_counted() {
    let states = vec![
        ProcessState::Running,
        ProcessState::Sleeping,
        ProcessState::Sleeping,
        ProcessState::Zombie,
        ProcessState::Stopped,
        ProcessState::Other,
        ProcessState::DiskSleep,
        ProcessState::Sleeping,
    ];
    let counts = count_states(&states);
    assert_eq!((counts.running, counts.sleeping, counts.disk_wait, counts.zombie), (1, 3, 1, 1));
    let none = count_states(&Vec::new());
    assert_eq!((none.running, none.sleeping, none.disk_wait, none.zombie), (0, 0, 0, 0));
}

fn process(command: &str, args: &str, executable: &str) -> ProcessText {
    ProcessText {
        command: command.to_string(),
        args: args.to_string(),
        executable: executable.to_string(),
    }
}

#[test]
fn processes_are_filtered_without_regard_to_case() {
    let processes = vec![
        process("kubelet", "--config=/etc/kubelet.yaml", "/usr/local/bin/kubelet"),
        process("etcd", "--name=cp-1", "/usr/local/bin/ETCD"),
        process("containerd", "", "/bin/containerd"),
        process("apid", "--Kube", "/apid"),
    ];
    assert_eq!(apply_filter(&processes, None), vec![0, 1, 2, 3]);
    assert_eq!(apply_filter(&processes, Some("KUBE")), vec![0, 3]);
    assert_eq!(apply_filter(&processes, Some("etcd")), vec![1]);
    assert_eq!(apply_filter(&processes, Some("")), vec![0, 1, 2, 3]);
    assert_eq!(apply_filter(&processes, Some("nothing")), Vec::<usize>::new());
    assert_eq!(apply_filter(&Vec::new(), Some("x")), Vec::<usize>::new());
}

#[test]
fn processes_are_sorted_by_memory() {
    assert_eq!(sort_by_memory(&vec![10, 500, 10, 0, 500]), vec![1, 4, 0, 2, 3]);
}
