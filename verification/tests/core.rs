use ferrishost::types::{
    ClusterStatus, GpuInfo, GpuStatus, ModuleDescriptor, NodeStatus, SetupState, TlsMode,
    NAMESPACE, WEB_SERVICE_NAME,
};

#[test]
fn gpu_status_empty_defaults() {
    let status = GpuStatus {
        detected: vec![],
        nvidia_available: false,
        amd_available: false,
    };
    assert!(status.detected.is_empty());
    assert!(!status.nvidia_available);
    assert!(!status.amd_available);
}

#[test]
fn node_status_ready_flag() {
    let node = NodeStatus {
        name: "node-1".to_string(),
        ready: true,
        cpu_millis: 4000,
        memory_mb: 8192,
    };
    assert!(node.ready);
    assert_eq!(node.cpu_millis, 4000);
}

#[test]
fn cluster_status_no_k3s() {
    let cluster = ClusterStatus {
        k3s_installed: false,
        k3s_version: None,
        nodes: vec![],
        all_nodes_ready: false,
    };
    assert!(!cluster.k3s_installed);
    assert!(cluster.k3s_version.is_none());
}

#[test]
fn module_descriptor_fields() {
    let module = ModuleDescriptor {
        id: "headscale".to_string(),
        name: "Headscale".to_string(),
        description: "Private mesh VPN".to_string(),
        category: "vpn".to_string(),
        version: "0.22.0".to_string(),
        installed: false,
    };
    assert_eq!(module.id, "headscale");
    assert_eq!(module.category, "vpn");
    assert!(!module.installed);
}

#[test]
fn setup_state_defaults_incomplete() {
    let state = SetupState {
        domain: None,
        tls_mode: TlsMode::SelfSigned,
        admin_username: None,
        admin_password_hash: None,
        timezone: None,
        completed: false,
    };
    assert!(!state.completed);
    assert!(state.domain.is_none());
}

#[test]
fn setup_state_completed() {
    let state = SetupState {
        domain: Some("home.example.com".to_string()),
        tls_mode: TlsMode::LetsEncrypt,
        admin_username: Some("admin".to_string()),
        admin_password_hash: Some("$argon2id$...".to_string()),
        timezone: Some("UTC".to_string()),
        completed: true,
    };
    assert!(state.completed);
    assert_eq!(state.domain.as_deref(), Some("home.example.com"));
}

#[test]
fn constants_have_expected_values() {
    assert_eq!(NAMESPACE, "ferrishost");
    assert_eq!(WEB_SERVICE_NAME, "ferrishost-web");
}

#[test]
fn tls_mode_serialises_lowercase() {
    // A TLS mode is exchanged as a JSON string holding its wire name.
    let json = format!("\"{}\"", TlsMode::LetsEncrypt.wire_name());
    assert_eq!(json, r#""letsencrypt""#);
    let json2 = format!("\"{}\"", TlsMode::SelfSigned.wire_name());
    assert_eq!(json2, r#""selfsigned""#);
}

#[test]
fn setup_state_initial_is_incomplete_and_self_signed() {
    let s = SetupState::initial();
    assert!(!s.completed);
    assert_eq!(s.tls_mode, TlsMode::SelfSigned);
    assert!(s.domain.is_none() && s.admin_username.is_none());
    assert!(s.admin_password_hash.is_none() && s.timezone.is_none());
}

#[test]
fn gpu_info_fields() {
    let info = GpuInfo {
        vendor: "nvidia".to_string(),
        name: "RTX 4090".to_string(),
        memory_mb: 24576,
        index: 0,
    };
    let copy = info.clone();
    assert_eq!(copy.name, "RTX 4090");
    assert_eq!(copy.memory_mb, 24576);
}
