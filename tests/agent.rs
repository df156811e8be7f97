use base64::Engine;
use esp_agent::filesystem::{file_exists, FileSystemCollector};
use esp_agent::hashing::{compute_key_fingerprint, compute_signed_data};
use esp_agent::k8s::{is_cluster_scoped, K8sResourceCollector, KubeAuth};
use esp_agent::signing::{create_backend, sign_envelope, try_sign_envelope, ResultEnvelope, SoftwareBackend};
use esp_agent::tcp::{hex_to_ipv4, TcpListenerCollector};
use p256::ecdsa::signature::Verifier;

fn test_envelope() -> ResultEnvelope {
    ResultEnvelope {
        content_hash: "sha256:8726504ca47412e0d8c0be36a1286a79".to_string(),
        evidence_hash: "sha256:9fbea98350c00a9642fe91431619dd3a".to_string(),
        signature: None,
    }
}

#[test]
fn test_compute_signed_data_deterministic() {
    let content_hash = "sha256:abc123";
    let evidence_hash = "sha256:def456";
    let result1 = compute_signed_data(content_hash, evidence_hash);
    let result2 = compute_signed_data(content_hash, evidence_hash);
    assert_eq!(result1, result2);
    assert_eq!(result1.len(), 32);
}

#[test]
fn test_compute_signed_data_different_inputs() {
    let result1 = compute_signed_data("sha256:aaa", "sha256:bbb");
    let result2 = compute_signed_data("sha256:aaa", "sha256:ccc");
    assert_ne!(result1, result2);
}

#[test]
fn test_compute_key_fingerprint() {
    let key_bytes = b"test public key bytes";
    let fingerprint = compute_key_fingerprint(key_bytes);
    assert_eq!(fingerprint.len(), 16);
    let fingerprint2 = compute_key_fingerprint(key_bytes);
    assert_eq!(fingerprint, fingerprint2);
}

#[test]
fn test_software_backend_creation() {
    let backend = SoftwareBackend::new().expect("Failed to create backend");
    assert!(backend.is_available());
    assert_eq!(backend.algorithm(), "ecdsa-p256");
    assert!(backend.key_id().starts_with("software:ephemeral:"));
    assert!(backend.signer_id().unwrap().starts_with("software:sha256:"));
}

#[test]
fn test_software_backend_signing() {
    let backend = SoftwareBackend::new().expect("Failed to create backend");
    let content_hash = "sha256:8726504ca47412e0d8c0be36a1286a79";
    let evidence_hash = "sha256:9fbea98350c00a9642fe91431619dd3a";
    let sig_block = backend
        .sign_envelope_hashes(content_hash, evidence_hash)
        .expect("Signing failed");
    assert_eq!(sig_block.algorithm, "ecdsa-p256");
    assert_eq!(sig_block.signer_type, "agent");
    assert_eq!(sig_block.covers, vec!["content_hash", "evidence_hash"]);
    assert!(!sig_block.signature.is_empty());
    assert!(!sig_block.public_key.is_empty());
}

#[test]
fn test_software_backend_signature_verification() {
    let backend = SoftwareBackend::new().expect("Failed to create backend");
    let content_hash = "sha256:8726504ca47412e0d8c0be36a1286a79";
    let evidence_hash = "sha256:9fbea98350c00a9642fe91431619dd3a";
    let sig_block = backend
        .sign_envelope_hashes(content_hash, evidence_hash)
        .expect("Signing failed");
    let engine = base64::engine::general_purpose::STANDARD;
    let public_key_bytes = engine
        .decode(&sig_block.public_key)
        .expect("Failed to decode public key");
    let verifying_key = p256::ecdsa::VerifyingKey::from_sec1_bytes(&public_key_bytes)
        .expect("Failed to parse public key");
    let signature_bytes = engine
        .decode(&sig_block.signature)
        .expect("Failed to decode signature");
    let signature =
        p256::ecdsa::Signature::from_der(&signature_bytes).expect("Failed to parse signature");
    let signed_data = compute_signed_data(content_hash, evidence_hash);
    assert!(verifying_key.verify(&signed_data, &signature).is_ok());
}

#[test]
fn test_different_backends_produce_different_keys() {
    let backend1 = SoftwareBackend::new().expect("Failed to create backend 1");
    let backend2 = SoftwareBackend::new().expect("Failed to create backend 2");
    assert_ne!(backend1.signer_id().unwrap(), backend2.signer_id().unwrap());
    assert_ne!(backend1.key_id(), backend2.key_id());
}

#[test]
fn test_create_backend() {
    let backend = create_backend().expect("Failed to create backend");
    assert!(backend.is_available());
}

#[test]
fn test_sign_envelope() {
    let backend = create_backend().expect("Failed to create backend");
    let mut envelope = test_envelope();
    assert!(envelope.signature.is_none());
    sign_envelope(&mut envelope, &backend).expect("Signing failed");
    assert!(envelope.signature.is_some());
    let sig = envelope.signature.as_ref().unwrap();
    assert_eq!(sig.covers, vec!["content_hash", "evidence_hash"]);
    assert_eq!(sig.signer_type, "agent");
    assert!(!sig.signature.is_empty());
    assert!(!sig.public_key.is_empty());
}

#[test]
fn test_try_sign_envelope_success() {
    let backend = create_backend().expect("Failed to create backend");
    let mut envelope = test_envelope();
    let result = try_sign_envelope(&mut envelope, &backend);
    assert!(result);
    assert!(envelope.signature.is_some());
}

#[test]
fn test_signature_covers_correct_fields() {
    let backend = create_backend().expect("Failed to create backend");
    let mut envelope = test_envelope();
    sign_envelope(&mut envelope, &backend).expect("Signing failed");
    let sig = envelope.signature.as_ref().unwrap();
    assert_eq!(sig.covers.len(), 2);
    assert!(sig.covers.contains(&"content_hash".to_string()));
    assert!(sig.covers.contains(&"evidence_hash".to_string()));
}

#[test]
fn test_is_cluster_scoped() {
    assert!(is_cluster_scoped("Namespace"));
    assert!(is_cluster_scoped("namespace"));
    assert!(is_cluster_scoped("Node"));
    assert!(!is_cluster_scoped("Pod"));
    assert!(!is_cluster_scoped("Service"));
}

#[test]
fn test_build_kubectl_args_pod() {
    let collector = K8sResourceCollector::new("test");
    let args = collector.build_kubectl_args(
        "Pod",
        Some("kube-system"),
        None,
        Some("component=kube-apiserver"),
        &KubeAuth::Ambient,
    );
    assert!(args.contains(&"get".to_string()));
    assert!(args.contains(&"pod".to_string()));
    assert!(args.contains(&"-n".to_string()));
    assert!(args.contains(&"kube-system".to_string()));
    assert!(args.contains(&"-l".to_string()));
    assert!(args.contains(&"component=kube-apiserver".to_string()));
    assert!(args.contains(&"-o".to_string()));
    assert!(args.contains(&"json".to_string()));
}

#[test]
fn test_build_kubectl_args_namespace() {
    let collector = K8sResourceCollector::new("test");
    let args = collector.build_kubectl_args("Namespace", None, Some("default"), None, &KubeAuth::Ambient);
    assert!(args.contains(&"get".to_string()));
    assert!(args.contains(&"namespace".to_string()));
    assert!(args.contains(&"default".to_string()));
    assert!(!args.contains(&"--all-namespaces".to_string()));
}

#[test]
fn test_hex_to_ipv4() {
    let collector = TcpListenerCollector::new();
    assert_eq!(collector.hex_to_ipv4("00000000"), "0.0.0.0");
    assert_eq!(collector.hex_to_ipv4("0100007F"), "127.0.0.1");
    assert_eq!(collector.hex_to_ipv4("0000"), "invalid");
}

#[test]
fn tcp_listener_test_hex_to_ipv4() {
    assert_eq!(hex_to_ipv4("00000000"), "0.0.0.0");
    assert_eq!(hex_to_ipv4("0100007F"), "127.0.0.1");
    assert_eq!(hex_to_ipv4("0000"), "invalid");
}

#[test]
fn test_port_extraction() {
    let collector = TcpListenerCollector::new();
    assert_eq!(collector.collector_id(), "tcp_listener_collector");
}

#[test]
fn test_file_exists_function() {
    assert!(!file_exists("/definitely/nonexistent/path/12345.xyz"));
}

#[test]
fn filesystem_collector_identity() {
    let collector = FileSystemCollector::new();
    assert_eq!(collector.collector_id(), "filesystem_collector");
}

#[test]
fn test_invalid_port() {
    let table = vec!["  sl  local_address rem_address   st".to_string()];
    let result = esp_agent::tcp::check_port_listening(&table, 0, None);
    assert!(!result.listening);
    assert!(result.error.is_some());
}
