use ferrishost::deploy_web::{WebDeployer, CHART_REF, VERSION};
use ferrishost::gpu::amd::AmdGpu;
use ferrishost::gpu::nvidia::{parse_smi_output, NvidiaGpu};
use ferrishost::gpu::{GpuDetector, GpuVendor};
use ferrishost::k3s::K3S_BINARY;
use ferrishost::manifests::{AMD_MANIFEST, CERT_MANAGER_MANIFEST, NVIDIA_MANIFEST, RBAC_MANIFEST};
use ferrishost::system::SystemInfo;
use ferrishost::types::GpuInfo;
use std::path::Path;

fn ok_output(text: &str) -> Result<Vec<u8>, String> {
    Ok(text.as_bytes().to_vec())
}

fn linux_host() -> SystemInfo {
    SystemInfo::detect(
        ok_output("Linux\n"),
        ok_output("6.1.0-18-amd64\n"),
        ok_output("x86_64\n"),
        ok_output("myhost\n"),
    )
    .expect("SystemInfo::detect should succeed")
}

/// Parse nvidia-smi CSV output into GpuInfo structs
/// Expected format: "GPU Name, Memory MiB"
fn parse_nvidia_csv(output: &str) -> Vec<GpuInfo> {
    parse_smi_output(output)
        .into_iter()
        .map(|(name, memory_mb)| GpuInfo {
            vendor: "nvidia".to_string(),
            name,
            memory_mb,
            index: 0, // index will be set by caller
        })
        .collect()
}

/// Check if a vendor ID string corresponds to AMD
fn is_amd_vendor(vendor_id: &str) -> bool {
    AmdGpu::is_amd_vendor(vendor_id)
}

#[test]
fn test_version_is_set() {
    // The version should be a non-empty semver string
    assert!(!VERSION.is_empty(), "CARGO_PKG_VERSION should not be empty");
    assert!(
        VERSION.contains('.'),
        "version should be semver (contain dots): {VERSION}"
    );
}

#[test]
fn test_deployer_defaults() {
    let d = WebDeployer::new("test.example.com");
    assert_eq!(d.image_tag(), VERSION);
    assert_eq!(d.namespace(), "ferrishost");
    assert_eq!(d.ingress_host(), "test.example.com");
    assert_eq!(d.chart_ref(), CHART_REF);
}

#[test]
fn test_deployer_overrides() {
    let d = WebDeployer::new("test.example.com")
        .with_image_tag("1.2.3")
        .with_chart_ref("/tmp/test-chart");
    assert_eq!(d.image_tag(), "1.2.3");
    assert_eq!(d.chart_ref(), "/tmp/test-chart");
}

#[test]
fn test_manifests_are_not_empty() {
    assert!(!CERT_MANAGER_MANIFEST.is_empty());
    assert!(!RBAC_MANIFEST.is_empty());
    assert!(!NVIDIA_MANIFEST.is_empty());
    assert!(!AMD_MANIFEST.is_empty());
}

#[test]
fn test_manifests_contain_k8s_kinds() {
    assert!(CERT_MANAGER_MANIFEST.contains("apiVersion"));
    assert!(CERT_MANAGER_MANIFEST.contains("CustomResourceDefinition"));
    assert!(NVIDIA_MANIFEST.contains("DaemonSet"));
    assert!(AMD_MANIFEST.contains("DaemonSet"));
    assert!(RBAC_MANIFEST.contains("Namespace"));
    assert!(RBAC_MANIFEST.contains("ClusterRole"));
}

#[test]
fn test_detect_host_info_returns_valid_fields() {
    // SystemInfo::detect returns non-empty os, kernel_version, arch, hostname
    let sys = linux_host();

    assert!(!sys.os.is_empty(), "os should not be empty");
    assert!(!sys.kernel_version.is_empty(), "kernel_version should not be empty");
    assert!(!sys.arch.is_empty(), "arch should not be empty");
    assert!(!sys.hostname.is_empty(), "hostname should not be empty");
}

#[test]
fn test_preflight_accepts_linux() {
    // On Linux, validate() should succeed
    let sys = linux_host();
    assert!(sys.validate().is_ok(), "validate() should succeed on Linux");
}

#[test]
fn test_preflight_rejects_non_linux() {
    let sys = SystemInfo {
        os: "Darwin".to_string(),
        kernel_version: "23.0.0".to_string(),
        arch: "x86_64".to_string(),
        hostname: "macmini".to_string(),
    };
    let result = sys.validate();
    assert!(result.is_err(), "validate() should fail on non-Linux");
    let err = result.unwrap_err().message();
    assert!(err.contains("Linux"), "error should mention Linux");
}

#[test]
fn test_gpu_detector_returns_empty_when_no_gpus() {
    // Neither nvidia-smi nor /dev/kfd: no GPU.
    let gpus = GpuDetector::detect_all(None, None).expect("detect_all should not fail");
    assert!(gpus.is_empty());
}

#[test]
fn test_nvidia_parse_csv_output() {
    // Simulate nvidia-smi CSV output parsing
    let sample_output =
        "NVIDIA GeForce RTX 3090, 24576 MiB\nNVIDIA GeForce RTX 4090, 24576 MiB";
    let gpus = parse_nvidia_csv(sample_output);

    assert_eq!(gpus.len(), 2, "should parse 2 GPUs");
    assert_eq!(gpus[0].vendor, "nvidia");
    assert_eq!(gpus[0].name, "NVIDIA GeForce RTX 3090");
    assert_eq!(gpus[0].memory_mb, 24576);
    assert_eq!(gpus[0].index, 0);
    assert_eq!(gpus[1].name, "NVIDIA GeForce RTX 4090");
    assert_eq!(gpus[1].memory_mb, 24576);
    // Note: index is always 0 from parse_nvidia_csv; the caller (detect)
    // sets the actual index.
    assert_eq!(gpus[1].index, 0);
}

#[test]
fn test_nvidia_parse_empty_output() {
    let gpus = parse_nvidia_csv("");
    assert!(gpus.is_empty(), "empty output should produce empty vec");
}

#[test]
fn test_nvidia_parse_malformed_output() {
    let gpus =
        parse_nvidia_csv("NOT A VALID CSV LINE\nname, memory, bogus_column\n, only a name");
    // Should not panic; should gracefully handle malformed lines
    assert!(!gpus.iter().any(|g| g.memory_mb == 0 && g.name.is_empty()));
}

#[test]
fn test_amd_vendor_id_check() {
    // Verify that vendor ID "0x1002" is correctly identified as AMD
    assert!(is_amd_vendor("0x1002"), "0x1002 should be AMD");
    assert!(!is_amd_vendor("0x10de"), "0x10de should NOT be AMD (NVIDIA)");
    assert!(!is_amd_vendor("0x8086"), "0x8086 should NOT be AMD (Intel)");
    assert!(!is_amd_vendor(""), "empty string should not be AMD");
}

#[test]
fn test_containerd_runtime_snippet_format() {
    let nvidia = match NvidiaGpu::new(true) {
        Ok(n) => n,
        Err(_) => return,
    };
    let snippet = nvidia.containerd_runtime_snippet();
    if let Some(toml) = snippet {
        // Validate it looks like valid TOML — contains expected keys
        assert!(
            toml.contains("io.containerd.grpc.v1.cri"),
            "snippet should contain containerd CRI path"
        );
        assert!(toml.contains("nvidia"), "snippet should mention nvidia");
    }
}

#[test]
fn test_cluster_manifests_are_valid_yaml() {
    let nvidia = match NvidiaGpu::new(true) {
        Ok(n) => n,
        Err(_) => return,
    };
    let manifest = nvidia.cluster_manifests();
    assert!(!manifest.is_empty(), "manifest should not be empty");
    assert!(manifest.contains("apiVersion"), "manifest should contain apiVersion");
    assert!(manifest.contains("kind"), "manifest should contain kind");
}

#[test]
fn test_k3s_is_installed_checks_binary_path() {
    // Check if /usr/local/bin/k3s exists
    let k3s_path = Path::new(K3S_BINARY);
    assert_eq!(K3S_BINARY, "/usr/local/bin/k3s");
    // Just verify the check doesn't panic; k3s may or may not be installed
    let _exists = k3s_path.exists();
}

#[test]
fn smi_listing_reads_back_what_was_printed() {
    let printed: Vec<(String, u64)> = vec![
        ("NVIDIA A100-SXM4-40GB".to_string(), 40960),
        ("Tesla T4".to_string(), 15360),
        ("NVIDIA GeForce RTX 4090".to_string(), 24564),
    ];
    let mut listing = String::new();
    for (name, memory) in &printed {
        listing.push_str(&format!("{}, {} MiB\n", name, memory));
    }
    assert_eq!(parse_smi_output(&listing), printed);
    assert_eq!(parse_smi_output("GPU, +12 MiB\r\n"), vec![("GPU".to_string(), 12)]);
}
