use esp_agent::cli::{parse_args, CliResult};
use esp_agent::command::{find_in_listing, parse_rpm_output, selinux_mode, service_state};
use esp_agent::contracts::{create_file_content_contract, create_file_metadata_contract, create_tcp_listener_contract};
use esp_agent::data::{
    BehaviorHints, CollectedData, CollectionError, CtnContract, DataField, ExecutableObject,
    FieldMapping, HintParameter, ObjectField,
};
use esp_agent::discovery::{discover_esp_files, DirEntryInfo, DiscoveryError, PathKind};
use esp_agent::executor::{
    execute_with_contract, validate_collected_data, CtnExecutionError, ExecutableCriterion,
    ExistenceCheck, ItemCheck, State, StateField, StateOperator, TestSpecification,
};
use esp_agent::filesystem::{FileMetadata, FileSystemCollector, FileSystemError};
use esp_agent::hashing::{combine_hashes_sorted, combine_scan_hashes, OutputError};
use esp_agent::k8s::filter_by_name_prefix;
use esp_agent::registry::{create_scanner_registry, Collector, CtnExecutor, CtnStrategyRegistry, StrategyError};
use esp_agent::scan::{
    summary_counts, summarize_results, CriteriaCounts, Criticality, Outcome, OutputFormat,
    ScanResult, ScanSummary,
};
use esp_agent::tcp::{parse_proc_tcp_line, port_to_hex, TcpListenerCollector};
use esp_agent::values::{compare_values, format_value, Operation, ResolvedValue};

fn result(id: &str, passed: bool, criticality: Criticality, content: &str, evidence: &str) -> ScanResult {
    ScanResult {
        policy_id: id.to_string(),
        platform: "linux".to_string(),
        criticality,
        outcome: if passed { Outcome::Pass } else { Outcome::Fail },
        tree_passed: passed,
        criteria_counts: CriteriaCounts { total: 1, passed: if passed { 1 } else { 0 }, failed: if passed { 0 } else { 1 }, error: 0 },
        findings: Vec::new(),
        content_hash: content.to_string(),
        evidence_hash: evidence.to_string(),
    }
}

fn data(id: &str, fields: Vec<(&str, ResolvedValue)>) -> CollectedData {
    let mut d = CollectedData::new(id.to_string(), "file_metadata".to_string(), "test".to_string());
    for (n, v) in fields {
        d.add_field(n.to_string(), v);
    }
    d
}

fn criterion(objects: usize, check: ExistenceCheck, fields: Vec<StateField>) -> ExecutableCriterion {
    ExecutableCriterion {
        criterion_type: "file_metadata".to_string(),
        test: TestSpecification { existence_check: check, item_check: ItemCheck::All, state_operator: StateOperator::And },
        objects: (0..objects).map(|i| format!("obj{}", i)).collect(),
        states: vec![State { fields }],
    }
}

fn field(name: &str, value: ResolvedValue, operation: Operation) -> StateField {
    StateField { name: name.to_string(), value, operation }
}

fn no_hints() -> BehaviorHints {
    BehaviorHints { flags: Vec::new(), parameters: Vec::new() }
}

fn object(id: &str, fields: Vec<(&str, ResolvedValue)>) -> ExecutableObject {
    ExecutableObject {
        identifier: id.to_string(),
        fields: fields.into_iter().map(|(n, v)| ObjectField { name: n.to_string(), value: v }).collect(),
    }
}

#[test]
fn combined_hashes_ignore_order() {
    let a = result("a", true, Criticality::High, "sha256:aaa", "sha256:ccc");
    let b = result("b", true, Criticality::Low, "sha256:bbb", "sha256:ddd");
    let one = combine_scan_hashes(&vec![a.clone(), b.clone()]).ok().unwrap();
    let two = combine_scan_hashes(&vec![b, a]).ok().unwrap();
    assert_eq!(one, two);
    assert_eq!(one.0, "sha256:d8562cd2e0e0728d03dee4644f232accfafcf8f53a5c390a8563414c1ed9bb4e");
    assert_eq!(one.1, "sha256:e76d6f6f7b8d1daf8c3aba6b613ce6b3c224a27ef5dd81908be055c0f785552f");
}

#[test]
fn combined_hash_of_sorted_list() {
    let r = combine_hashes_sorted(&vec!["sha256:bbb".to_string(), "sha256:aaa".to_string()]);
    assert_eq!(r, "sha256:d8562cd2e0e0728d03dee4644f232accfafcf8f53a5c390a8563414c1ed9bb4e");
}

#[test]
fn single_result_hashes_pass_through() {
    let a = result("a", true, Criticality::High, "sha256:aaa", "sha256:ccc");
    let (c, e) = combine_scan_hashes(&vec![a]).ok().unwrap();
    assert_eq!(c, "sha256:aaa");
    assert_eq!(e, "sha256:ccc");
}

#[test]
fn no_results_is_a_build_error() {
    match combine_scan_hashes(&Vec::new()) {
        Err(OutputError::Build(_)) => {}
        _ => panic!("expected a build error"),
    }
}

#[test]
fn signed_data_is_digest_of_both_hashes() {
    let d = esp_agent::hashing::compute_signed_data("sha256:aaa", "sha256:bbb");
    assert_eq!(hex::encode(d), "60f8de46452a43846d467224f8b9363f538e2ad27e21e9f4fc317244bdc6c70c");
}

#[test]
fn key_fingerprint_exact_value() {
    assert_eq!(esp_agent::hashing::compute_key_fingerprint(b"test public key bytes"), "275aeb79d3bcb468");
}

#[test]
fn existence_failure_skips_state_validation() {
    let contract = create_file_metadata_contract();
    let crit = criterion(2, ExistenceCheck::AllExist, vec![field("exists", ResolvedValue::Boolean(true), Operation::Equals)]);
    let collected = vec![data("obj0", vec![("exists", ResolvedValue::Boolean(true))])];
    let r = execute_with_contract(&contract, &crit, collected);
    assert_eq!(r.status, Outcome::Fail);
    assert!(r.state_results.is_empty());
    assert_eq!(r.message, "Existence check failed: expected 2 objects, found 1");
    assert_eq!(r.collected_data.len(), 1);
}

#[test]
fn mapped_and_unmapped_field_names() {
    let contract = create_file_metadata_contract();
    let crit = criterion(
        1,
        ExistenceCheck::AllExist,
        vec![
            field("size", ResolvedValue::Integer(100), Operation::GreaterThan),
            field("extra", ResolvedValue::String("x".to_string()), Operation::Equals),
        ],
    );
    let collected = vec![data(
        "obj0",
        vec![("file_size", ResolvedValue::Integer(150)), ("extra", ResolvedValue::String("x".to_string()))],
    )];
    let r = execute_with_contract(&contract, &crit, collected);
    let fields = &r.state_results[0].field_results;
    assert!(fields[0].passed);
    assert!(fields[1].passed);
    assert_eq!(fields[0].message, "Field 'size' passed: 150 GreaterThan 100");
    assert_eq!(r.status, Outcome::Pass);
    assert_eq!(r.message, "Validation passed: 1 of 1 objects compliant");
}

#[test]
fn missing_field_is_a_failed_result() {
    let contract = create_file_metadata_contract();
    let crit = criterion(1, ExistenceCheck::AnyExist, vec![field("owner_id", ResolvedValue::String("0".to_string()), Operation::Equals)]);
    let collected = vec![data("obj0", vec![])];
    let r = execute_with_contract(&contract, &crit, collected);
    let f = &r.state_results[0].field_results[0];
    assert!(!f.passed);
    assert_eq!(f.message, "Field 'owner_id' (mapped to 'file_owner') not collected");
    assert_eq!(r.status, Outcome::Fail);
    assert_eq!(r.failures.len(), 1);
}

#[test]
fn failed_field_message() {
    let contract = create_file_metadata_contract();
    let crit = criterion(1, ExistenceCheck::AnyExist, vec![field("permissions", ResolvedValue::String("0644".to_string()), Operation::Equals)]);
    let collected = vec![data("obj0", vec![("file_mode", ResolvedValue::String("0600".to_string()))])];
    let r = execute_with_contract(&contract, &crit, collected);
    assert_eq!(r.state_results[0].field_results[0].message, "Field 'permissions' failed: expected Equals '0644', got '0600'");
}

#[test]
fn state_operators_combine_fields() {
    let contract = create_file_metadata_contract();
    let mut crit = criterion(
        1,
        ExistenceCheck::AnyExist,
        vec![
            field("exists", ResolvedValue::Boolean(true), Operation::Equals),
            field("readable", ResolvedValue::Boolean(true), Operation::Equals),
        ],
    );
    let collected = || vec![data("obj0", vec![("exists", ResolvedValue::Boolean(true)), ("readable", ResolvedValue::Boolean(false))])];
    crit.test.state_operator = StateOperator::And;
    assert_eq!(execute_with_contract(&contract, &crit, collected()).status, Outcome::Fail);
    crit.test.state_operator = StateOperator::Or;
    assert_eq!(execute_with_contract(&contract, &crit, collected()).status, Outcome::Pass);
    crit.test.state_operator = StateOperator::One;
    assert_eq!(execute_with_contract(&contract, &crit, collected()).status, Outcome::Pass);
}

#[test]
fn item_check_counts_passing_objects() {
    let contract = create_file_metadata_contract();
    let mut crit = criterion(2, ExistenceCheck::AllExist, vec![field("exists", ResolvedValue::Boolean(true), Operation::Equals)]);
    let collected = || vec![
        data("obj0", vec![("exists", ResolvedValue::Boolean(true))]),
        data("obj1", vec![("exists", ResolvedValue::Boolean(false))]),
    ];
    let r = execute_with_contract(&contract, &crit, collected());
    assert_eq!(r.objects_passing, 1);
    assert_eq!(r.status, Outcome::Fail);
    assert_eq!(r.message, "Validation failed: 1 of 2 objects compliant");
    crit.test.item_check = ItemCheck::AtLeastOne;
    assert_eq!(execute_with_contract(&contract, &crit, collected()).status, Outcome::Pass);
    crit.test.item_check = ItemCheck::NoneSatisfy;
    assert_eq!(execute_with_contract(&contract, &crit, collected()).status, Outcome::Fail);
}

#[test]
fn string_against_integer_never_passes() {
    let ops = [
        Operation::Equals,
        Operation::NotEqual,
        Operation::GreaterThan,
        Operation::LessThan,
        Operation::GreaterThanOrEqual,
        Operation::LessThanOrEqual,
        Operation::Contains,
        Operation::NotContains,
        Operation::StartsWith,
        Operation::EndsWith,
    ];
    for op in ops {
        assert!(!compare_values(&ResolvedValue::String("5".to_string()), &ResolvedValue::Integer(5), op));
        assert!(!compare_values(&ResolvedValue::Integer(5), &ResolvedValue::String("5".to_string()), op));
    }
}

#[test]
fn string_and_integer_comparisons() {
    let s = |x: &str| ResolvedValue::String(x.to_string());
    assert!(compare_values(&s("ell"), &s("hello"), Operation::Contains));
    assert!(!compare_values(&s("xyz"), &s("hello"), Operation::Contains));
    assert!(compare_values(&s("xyz"), &s("hello"), Operation::NotContains));
    assert!(compare_values(&s("he"), &s("hello"), Operation::StartsWith));
    assert!(compare_values(&s("lo"), &s("hello"), Operation::EndsWith));
    assert!(!compare_values(&s("hello!"), &s("hello"), Operation::EndsWith));
    assert!(compare_values(&ResolvedValue::Integer(-3), &ResolvedValue::Integer(2), Operation::GreaterThan));
    assert!(compare_values(&ResolvedValue::Integer(2), &ResolvedValue::Integer(2), Operation::LessThanOrEqual));
    assert!(!compare_values(&ResolvedValue::Boolean(true), &ResolvedValue::Boolean(true), Operation::GreaterThan));
    assert_eq!(format_value(&ResolvedValue::Integer(-42)), "-42");
    assert_eq!(format_value(&ResolvedValue::String("a".to_string())), "'a'");
}

#[test]
fn metadata_of_missing_path_sets_every_field() {
    let collector = FileSystemCollector::new();
    let d = collector.collect_metadata("/nonexistent", "obj", Ok(FileMetadata::missing())).ok().unwrap();
    for name in [
        "exists", "readable", "writable", "file_size", "is_directory", "file_owner", "file_group",
        "file_mode", "is_readonly", "is_hidden", "is_system",
    ] {
        assert!(d.get_field(name).is_some(), "field {} missing", name);
    }
    assert!(matches!(d.get_field("exists"), Some(ResolvedValue::Boolean(false))));
    assert!(matches!(d.get_field("file_mode"), Some(ResolvedValue::String(s)) if s.is_empty()));
}

#[test]
fn metadata_of_existing_file() {
    let collector = FileSystemCollector::new();
    let mut m = FileMetadata::missing();
    m.exists = true;
    m.readable = true;
    m.file_size = 12;
    m.file_mode = "0644".to_string();
    m.file_owner = "1000".to_string();
    let d = collector.collect_metadata("/tmp/x", "obj", Ok(m)).ok().unwrap();
    assert!(matches!(d.get_field("file_size"), Some(ResolvedValue::Integer(12))));
    assert!(matches!(d.get_field("readable"), Some(ResolvedValue::Boolean(true))));
    assert!(matches!(d.get_field("file_mode"), Some(ResolvedValue::String(s)) if s == "0644"));
    assert!(matches!(d.get_field("is_hidden"), Some(ResolvedValue::Boolean(false))));
}

#[test]
fn not_found_and_access_denied_are_distinct() {
    let collector = FileSystemCollector::new();
    let meta = collector.collect_metadata("/nope", "obj", Ok(FileMetadata::missing())).ok().unwrap();
    assert!(matches!(meta.get_field("exists"), Some(ResolvedValue::Boolean(false))));
    let missing = collector.collect_content("/nope", "obj", Err(FileSystemError::NotFound("/nope".to_string())));
    assert!(matches!(missing, Err(CollectionError::ObjectNotFound { .. })));
    let denied = collector.collect_content("/root/x", "obj", Err(FileSystemError::AccessDenied("/root/x".to_string())));
    assert!(matches!(denied, Err(CollectionError::AccessDenied { .. })));
    let other = collector.collect_content("/x", "obj", Err(FileSystemError::WindowsError("boom".to_string(), 5)));
    assert!(matches!(other, Err(CollectionError::CollectionFailed { .. })));
    let ok = collector.collect_content("/x", "obj", Ok("text".to_string())).ok().unwrap();
    assert!(matches!(ok.get_field("file_content"), Some(ResolvedValue::String(s)) if s == "text"));
}

#[test]
fn rpm_split_at_second_to_last_hyphen() {
    let (name, version) = parse_rpm_output("openssl-1.1.1k-7.el9.x86_64\n").unwrap();
    assert_eq!(name, "openssl");
    assert_eq!(version, "1.1.1k-7.el9.x86_64");
    let (name, version) = parse_rpm_output("python3-libs-3.9.18-1.el9.x86_64").unwrap();
    assert_eq!(name, "python3-libs");
    assert_eq!(version, "3.9.18-1.el9.x86_64");
    assert!(parse_rpm_output("package foo is not installed").is_none());
    assert!(parse_rpm_output("   ").is_none());
    assert_eq!(parse_rpm_output("single-part").unwrap(), ("single-part".to_string(), String::new()));
}

#[test]
fn rpm_listing_lookup() {
    let lines = vec![
        "bash-5.1.8-6.el9.x86_64".to_string(),
        "openssl-3.0.7-27.el9.x86_64".to_string(),
    ];
    assert_eq!(find_in_listing(&lines, "openssl").unwrap(), "3.0.7-27.el9.x86_64");
    assert!(find_in_listing(&lines, "zsh").is_none());
}

#[test]
fn service_and_selinux_flags() {
    let s = service_state(0, "active\n", 1, "disabled\n");
    assert!(s.active && !s.enabled && s.loaded);
    let s = service_state(3, "inactive", 1, "disabled");
    assert!(!s.active && !s.enabled && !s.loaded);
    assert_eq!(selinux_mode(0, "Enforcing\n").unwrap(), ("Enforcing".to_string(), true));
    assert!(selinux_mode(1, "").is_none());
}

#[test]
fn end_to_end_summary_and_exit_code() {
    let results = vec![
        result("baseline-ssh", true, Criticality::High, "sha256:1", "sha256:4"),
        result("baseline-audit", true, Criticality::Medium, "sha256:2", "sha256:5"),
        result("baseline-crypto", false, Criticality::Critical, "sha256:3", "sha256:6"),
    ];
    let counts = summary_counts(&results);
    assert_eq!(counts.total_policies, 3);
    assert_eq!(counts.passed, 2);
    assert_eq!(counts.failed, 1);
    let summary = summarize_results(&results, 0);
    assert_eq!(summary.exit_code(), 1);
}

#[test]
fn exit_code_precedence() {
    let mut s = ScanSummary::new(3);
    assert_eq!(s.exit_code(), 0);
    s.failed = 1;
    assert_eq!(s.exit_code(), 1);
    s.errors = 1;
    assert_eq!(s.exit_code(), 2);
}

#[test]
fn output_format_names() {
    assert_eq!(OutputFormat::Summary.default_filename(), "summary.json");
    assert_eq!(OutputFormat::Full.default_filename(), "results.json");
    assert_eq!(OutputFormat::Attestation.default_filename(), "attestation.json");
    assert_eq!(OutputFormat::Assessor.default_filename(), "assessor_package.json");
    assert_eq!(OutputFormat::Assessor.to_string(), "assessor");
}

#[test]
fn wildcard_bind_matches_any_host() {
    let line = "   0: 00000000:0016 00000000:0000 0A 00000000:00000000 00:00000000 00000000     0        0 12345 1 0000000000000000 100 0 0 10 0";
    let r = parse_proc_tcp_line(line, "0016", Some("127.0.0.1")).unwrap();
    assert!(r.listening);
    assert_eq!(r.local_address.unwrap(), "0.0.0.0:22");
    let bound = "   1: 0100007F:0CEA 00000000:0000 0A 00000000:00000000 00:00000000 00000000     0        0 1 1 0 100 0 0 10 0";
    assert!(parse_proc_tcp_line(bound, "0CEA", Some("10.0.0.1")).is_none());
    assert_eq!(parse_proc_tcp_line(bound, "0CEA", Some("127.0.0.1")).unwrap().local_address.unwrap(), "127.0.0.1:3306");
    let established = "   2: 0100007F:0CEA 0100007F:9999 01 00000000:00000000 00:00000000 00000000 0 0 1";
    assert!(parse_proc_tcp_line(established, "0CEA", None).is_none());
    assert_eq!(port_to_hex(22), "0016");
}

#[test]
fn tcp_collector_reads_table() {
    let collector = TcpListenerCollector::new();
    let contract = create_tcp_listener_contract();
    let table = vec![
        "  sl  local_address rem_address   st tx_queue rx_queue".to_string(),
        "   0: 00000000:0016 00000000:0000 0A 00000000:00000000 00:00000000 00000000 0 0 1".to_string(),
    ];
    let obj = object("ssh", vec![("port", ResolvedValue::Integer(22)), ("host", ResolvedValue::String("ANY".to_string()))]);
    let d = collector.collect_for_ctn_with_hints(&obj, &contract, &no_hints(), &table).ok().unwrap();
    assert!(matches!(d.get_field("listening"), Some(ResolvedValue::Boolean(true))));
    assert!(matches!(d.get_field("local_address"), Some(ResolvedValue::String(s)) if s == "0.0.0.0:22"));
    let closed = object("web", vec![("port", ResolvedValue::String("8080".to_string()))]);
    let d = collector.collect_for_ctn_with_hints(&closed, &contract, &no_hints(), &table).ok().unwrap();
    assert!(matches!(d.get_field("listening"), Some(ResolvedValue::Boolean(false))));
    assert!(d.get_field("local_address").is_none());
    let bad = object("bad", vec![("port", ResolvedValue::Integer(70000))]);
    assert!(matches!(
        collector.collect_for_ctn_with_hints(&bad, &contract, &no_hints(), &table),
        Err(CollectionError::InvalidObjectConfiguration { .. })
    ));
    let wrong = create_file_content_contract();
    assert!(matches!(
        collector.collect_for_ctn_with_hints(&obj, &wrong, &no_hints(), &table),
        Err(CollectionError::CtnContractValidation { .. })
    ));
}

#[test]
fn undeclared_behavior_hint_is_refused() {
    let contract = create_file_content_contract();
    let ok = BehaviorHints {
        flags: vec!["recursive_scan".to_string()],
        parameters: vec![HintParameter { name: "max_depth".to_string(), value: ResolvedValue::Integer(3) }],
    };
    assert!(contract.validate_behavior_hints(&ok).is_ok());
    let bad = BehaviorHints { flags: vec!["shred".to_string()], parameters: Vec::new() };
    assert!(matches!(contract.validate_behavior_hints(&bad), Err(CollectionError::CtnContractValidation { .. })));
}

#[test]
fn required_data_fields_preflight() {
    let contract = create_file_metadata_contract();
    let collector = FileSystemCollector::new();
    let good = vec![collector.collect_metadata("/nope", "o", Ok(FileMetadata::missing())).ok().unwrap()];
    assert!(validate_collected_data(&contract, &good).is_ok());
    let bad = vec![data("o", vec![("exists", ResolvedValue::Boolean(true))])];
    match validate_collected_data(&contract, &bad) {
        Err(CtnExecutionError::MissingDataField { field }) => assert_eq!(field, "readable"),
        _ => panic!("expected a missing field"),
    }
    assert_eq!(contract.required_data_fields.len(), 11);
    assert_eq!(contract.collection_strategy.collector_type, "filesystem");
}

#[test]
fn field_mapping_lookup() {
    let mut contract: CtnContract = create_file_metadata_contract();
    assert_eq!(contract.map_state_field("size"), "file_size");
    assert_eq!(contract.map_state_field("unmapped_name"), "unmapped_name");
    contract.state_to_data.push(FieldMapping { state_field: "alias".to_string(), data_field: "exists".to_string() });
    assert_eq!(contract.map_state_field("alias"), "exists");
    let mut d = data("o", vec![("a", ResolvedValue::Integer(1))]);
    d.add_field("a".to_string(), ResolvedValue::Integer(2));
    assert_eq!(d.fields.len(), 1);
    assert!(matches!(d.get_field("a"), Some(ResolvedValue::Integer(2))));
    let _unused: Vec<DataField> = Vec::new();
}

#[test]
fn scanner_registry_contents() {
    let registry = create_scanner_registry().ok().unwrap();
    let stats = registry.get_statistics();
    assert_eq!(stats.total_ctn_types, 6);
    assert!(stats.registry_healthy);
    assert!(registry.get_strategy("tcp_listener").is_some());
    assert!(registry.get_strategy("rpm_package").is_none());
}

#[test]
fn registry_refuses_mismatch_and_duplicates() {
    let mut registry = CtnStrategyRegistry::new();
    let r = registry.register_ctn_strategy(
        Collector::TcpListener(TcpListenerCollector::new()),
        CtnExecutor::new(create_file_metadata_contract()),
    );
    assert!(matches!(r, Err(StrategyError::IncompatibleCollector { .. })));
    assert!(registry
        .register_ctn_strategy(Collector::FileSystem(FileSystemCollector::new()), CtnExecutor::new(create_file_metadata_contract()))
        .is_ok());
    let again = registry.register_ctn_strategy(
        Collector::FileSystem(FileSystemCollector::new()),
        CtnExecutor::new(create_file_metadata_contract()),
    );
    assert!(matches!(again, Err(StrategyError::DuplicateRegistration { .. })));
    assert_eq!(registry.get_statistics().total_ctn_types, 1);
}

#[test]
fn command_line_parsing() {
    let args = |v: &[&str]| v.iter().map(|s| s.to_string()).collect::<Vec<String>>();
    match parse_args(&args(&["agent", "-q", "--format", "attestation", "-o", "out.json", "policy.esp"])) {
        CliResult::Run(c) => {
            assert_eq!(c.input_path, "policy.esp");
            assert_eq!(c.output_file.as_deref(), Some("out.json"));
            assert_eq!(c.output_format, OutputFormat::Attestation);
            assert!(c.quiet);
        }
        _ => panic!("expected a run"),
    }
    assert!(matches!(parse_args(&args(&["agent", "--help", "x"])), CliResult::Help));
    match parse_args(&args(&["agent", "--format", "xml", "p.esp"])) {
        CliResult::Error(m) => assert_eq!(m, "Unknown format 'xml'. Use: full, summary, attestation, assessor"),
        _ => panic!("expected an error"),
    }
    match parse_args(&args(&["agent"])) {
        CliResult::Error(m) => assert_eq!(m, "Missing input path\nUsage: agent [OPTIONS] <file.esp|directory>"),
        _ => panic!("expected an error"),
    }
    match parse_args(&args(&["agent", "--bogus"])) {
        CliResult::Error(m) => assert_eq!(m, "Unknown option: --bogus"),
        _ => panic!("expected an error"),
    }
    assert!(matches!(parse_args(&args(&["agent", "p.esp", "--output"])), CliResult::Error(_)));
}

#[test]
fn discovery_selects_policy_files() {
    let entry = |p: &str, f: bool, e: Option<&str>| DirEntryInfo { path: p.to_string(), is_file: f, extension: e.map(|x| x.to_string()) };
    let listing = vec![
        entry("/p/b.esp", true, Some("esp")),
        entry("/p/a.esp", true, Some("esp")),
        entry("/p/notes.txt", true, Some("txt")),
        entry("/p/dir.esp", false, Some("esp")),
    ];
    let found = discover_esp_files("/p", PathKind::Directory, Ok(listing)).ok().unwrap();
    assert_eq!(found, vec!["/p/a.esp".to_string(), "/p/b.esp".to_string()]);
    let single = discover_esp_files("/p/one.esp", PathKind::File, Ok(Vec::new())).ok().unwrap();
    assert_eq!(single, vec!["/p/one.esp".to_string()]);
    assert!(matches!(discover_esp_files("/nowhere", PathKind::Other, Ok(Vec::new())), Err(DiscoveryError::InvalidPath(_))));
}

#[test]
fn name_prefix_filter_takes_first_match() {
    let names = vec![None, Some("coredns-abc".to_string()), Some("kube-proxy-1".to_string()), Some("kube-proxy-2".to_string())];
    assert_eq!(filter_by_name_prefix(&names, "kube-proxy"), Some(2));
    assert_eq!(filter_by_name_prefix(&names, "etcd"), None);
}

#[test]
fn dispatch_by_criterion_type() {
    use_dispatch();
}

fn use_dispatch() {
    let registry = create_scanner_registry().ok().unwrap();
    let computed = registry.get_strategy("computed_values").unwrap();
    let mut crit = criterion(1, ExistenceCheck::AllExist, vec![field("x", ResolvedValue::Integer(1), Operation::Equals)]);
    crit.criterion_type = "computed_values".to_string();
    let r = computed.executor.execute(&crit, vec![data("obj0", vec![])]).ok().unwrap();
    assert_eq!(r.status, Outcome::Pass);
    assert!(r.state_results[0].field_results[0].passed);
    let r = computed.executor.execute(&crit, Vec::new()).ok().unwrap();
    assert_eq!(r.status, Outcome::Fail);
    assert_eq!(r.message, "Existence check failed: expected 1 objects, found 0");
    let content = registry.get_strategy("file_content").unwrap();
    let content_crit = criterion(1, ExistenceCheck::AllExist, vec![field("content", ResolvedValue::String("x=1".to_string()), Operation::Contains)]);
    let missing = content.executor.execute(&content_crit, vec![data("obj0", vec![])]);
    assert!(matches!(missing, Err(CtnExecutionError::MissingDataField { .. })));
    let ok = content
        .executor
        .execute(&content_crit, vec![data("obj0", vec![("file_content", ResolvedValue::String("a\nx=1\n".to_string()))])])
        .ok()
        .unwrap();
    assert_eq!(ok.status, Outcome::Pass);
    let short = content.executor.execute(&content_crit, Vec::new()).ok().unwrap();
    assert_eq!(short.status, Outcome::Fail);
}

#[test]
fn duplicate_object_ids_detected() {
    let two = vec![data("a", vec![]), data("a", vec![])];
    assert!(!esp_agent::executor::has_distinct_object_ids(&two));
    assert!(esp_agent::executor::has_distinct_object_ids(&vec![data("a", vec![]), data("b", vec![])]));
}

#[test]
fn failure_lines_name_objects() {
    let contract = create_file_metadata_contract();
    let crit = criterion(1, ExistenceCheck::AnyExist, vec![field("permissions", ResolvedValue::String("0644".to_string()), Operation::Equals)]);
    let r = execute_with_contract(&contract, &crit, vec![data("obj0", vec![("file_mode", ResolvedValue::String("0600".to_string()))])]);
    assert_eq!(r.failures, vec!["Object 'obj0': Field 'permissions' failed: expected Equals '0644', got '0600'".to_string()]);
}

#[test]
fn content_preview() {
    assert_eq!(esp_agent::values::preview_content("short", 10), "short");
    assert_eq!(esp_agent::values::preview_content("abcdefgh", 3), "abc... (8 chars total)");
}
