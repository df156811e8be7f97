use esp_agent::command::{parse_i64, CommandCollector};
use esp_agent::data::{BehaviorHints, ExecutableObject, HintParameter, ObjectField};
use esp_agent::filesystem::{FileRequest, FileSystemCollector, RecursiveScan, ScannedFile};
use esp_agent::k8s::K8sResourceCollector;
use esp_agent::values::ResolvedValue;

fn package(id: &str, name: &str) -> ExecutableObject {
    ExecutableObject {
        identifier: id.to_string(),
        fields: vec![ObjectField { name: "package_name".to_string(), value: ResolvedValue::String(name.to_string()) }],
    }
}

#[test]
fn rpm_package_data() {
    let c = CommandCollector::new("cmd");
    let d = c.rpm_data("o1", "openssl", 0, "openssl-3.0.7-27.el9.x86_64\n");
    assert!(matches!(d.get_field("installed"), Some(ResolvedValue::Boolean(true))));
    assert!(matches!(d.get_field("version"), Some(ResolvedValue::String(v)) if v == "3.0.7-27.el9.x86_64"));
    let missing = c.rpm_data("o2", "zsh", 1, "package zsh is not installed\n");
    assert!(matches!(missing.get_field("installed"), Some(ResolvedValue::Boolean(false))));
    assert!(missing.get_field("version").is_none());
}

#[test]
fn systemd_and_selinux_data() {
    let c = CommandCollector::new("cmd");
    let d = c.systemd_data("o", "sshd", 0, "active\n", 0, "enabled\n");
    assert!(matches!(d.get_field("active"), Some(ResolvedValue::Boolean(true))));
    assert!(matches!(d.get_field("enabled"), Some(ResolvedValue::Boolean(true))));
    assert!(matches!(d.get_field("loaded"), Some(ResolvedValue::Boolean(true))));
    let s = c.selinux_data("o", 0, "Permissive\n");
    assert!(matches!(s.get_field("mode"), Some(ResolvedValue::String(m)) if m == "Permissive"));
    assert!(matches!(s.get_field("enforcing"), Some(ResolvedValue::Boolean(false))));
    assert!(c.selinux_data("o", 1, "").fields.is_empty());
}

#[test]
fn sysctl_data_and_integer_parsing() {
    let c = CommandCollector::new("cmd");
    let d = c.sysctl_data("o", "net.ipv4.ip_forward", 0, "1\n");
    assert!(matches!(d.get_field("value"), Some(ResolvedValue::String(v)) if v == "1"));
    assert!(matches!(d.get_field("value_int"), Some(ResolvedValue::Integer(1))));
    let text = c.sysctl_data("o", "kernel.core_pattern", 0, "core\n");
    assert!(text.get_field("value_int").is_none());
    assert_eq!(parse_i64("-9223372036854775808"), Some(i64::MIN));
    assert_eq!(parse_i64("9223372036854775807"), Some(i64::MAX));
    assert_eq!(parse_i64("9223372036854775808"), None);
    assert_eq!(parse_i64("+42"), Some(42));
    assert_eq!(parse_i64("-"), None);
    assert_eq!(parse_i64("4x"), None);
}

#[test]
fn batch_rpm_lookup() {
    let c = CommandCollector::new("cmd");
    let listing = vec!["openssl-3.0.7-27.el9.x86_64".to_string(), "bash-5.1.8-6.el9.x86_64".to_string()];
    let out = c.batch_rpm_data(&vec![package("a", "bash"), package("b", "zsh")], &listing).ok().unwrap();
    assert!(matches!(out[0].get_field("installed"), Some(ResolvedValue::Boolean(true))));
    assert!(matches!(out[0].get_field("version"), Some(ResolvedValue::String(v)) if v == "5.1.8-6.el9.x86_64"));
    assert!(matches!(out[1].get_field("installed"), Some(ResolvedValue::Boolean(false))));
    let bad = ExecutableObject { identifier: "x".to_string(), fields: Vec::new() };
    assert!(c.batch_rpm_data(&vec![bad], &listing).is_err());
}

#[test]
fn recursive_scan_text() {
    let c = FileSystemCollector::new();
    let files = vec![
        ScannedFile { path: "/etc/a.conf".to_string(), content: Some("x=1".to_string()) },
        ScannedFile { path: "/etc/b.bin".to_string(), content: None },
        ScannedFile { path: "/etc/c.conf".to_string(), content: Some("y=2".to_string()) },
    ];
    let opts = RecursiveScan { max_depth: 3, include_hidden: false, follow_symlinks: false };
    let d = c.collect_recursive("/etc", "o", opts, &files);
    assert!(matches!(d.get_field("file_content"), Some(ResolvedValue::String(t))
        if t == "=== /etc/a.conf ===\nx=1\n\n=== /etc/c.conf ===\ny=2\n\n"));
    assert!(matches!(d.get_field("file_count"), Some(ResolvedValue::Integer(2))));
    assert!(c.skips_name(".git", false));
    assert!(!c.skips_name(".git", true));
    assert!(!c.descends(3, 3));
}

#[test]
fn file_request_from_hints() {
    let c = FileSystemCollector::new();
    let none = BehaviorHints { flags: Vec::new(), parameters: Vec::new() };
    assert_eq!(c.file_request("file_metadata", &none), Some(FileRequest::Metadata));
    assert_eq!(c.file_request("file_content", &none), Some(FileRequest::Content));
    assert_eq!(c.file_request("tcp_listener", &none), None);
    let hints = BehaviorHints {
        flags: vec!["recursive_scan".to_string(), "include_hidden".to_string()],
        parameters: vec![HintParameter { name: "max_depth".to_string(), value: ResolvedValue::Integer(5) }],
    };
    assert_eq!(
        c.file_request("file_content", &hints),
        Some(FileRequest::Recursive(RecursiveScan { max_depth: 5, include_hidden: true, follow_symlinks: false }))
    );
}

#[test]
fn k8s_query_and_data() {
    let c = K8sResourceCollector::new("k8s-resource-collector");
    let obj = ExecutableObject {
        identifier: "pods".to_string(),
        fields: vec![
            ObjectField { name: "kind".to_string(), value: ResolvedValue::String("Pod".to_string()) },
            ObjectField { name: "namespace".to_string(), value: ResolvedValue::String("kube-system".to_string()) },
        ],
    };
    let q = c.extract_query(&obj).ok().unwrap();
    assert_eq!(q.kind, "Pod");
    assert_eq!(q.namespace.as_deref(), Some("kube-system"));
    assert!(q.name.is_none());
    let d = c.resource_data("pods", &q, "kubectl get pod -n kube-system -o json".to_string(), 4, true);
    assert!(matches!(d.get_field("found"), Some(ResolvedValue::Boolean(true))));
    assert!(matches!(d.get_field("count"), Some(ResolvedValue::Integer(4))));
    let no_kind = ExecutableObject { identifier: "x".to_string(), fields: Vec::new() };
    assert!(c.extract_query(&no_kind).is_err());
    let bad_ns = ExecutableObject {
        identifier: "y".to_string(),
        fields: vec![
            ObjectField { name: "kind".to_string(), value: ResolvedValue::String("Pod".to_string()) },
            ObjectField { name: "namespace".to_string(), value: ResolvedValue::Integer(1) },
        ],
    };
    assert!(c.extract_query(&bad_ns).is_err());
}

#[test]
fn all_listeners_in_table() {
    let table = vec![
        "  sl  local_address rem_address   st".to_string(),
        "   0: 0100007F:0CEA 00000000:0000 0A 0 0".to_string(),
        "   1: 0100007F:0CEA 0100007F:D431 01 0 0".to_string(),
        "   2: 00000000:0016 00000000:0000 0A 0 0".to_string(),
        "   3: 00000000:ZZZZ 00000000:0000 0A 0 0".to_string(),
    ];
    let found = esp_agent::tcp::get_all_listening_ports(&table);
    assert_eq!(found, vec![("127.0.0.1".to_string(), 3306u16), ("0.0.0.0".to_string(), 22u16)]);
    assert!(esp_agent::tcp::get_all_listening_ports(&Vec::new()).is_empty());
}
