use ferrishost::gpu::amd::{AmdGpu, DrmEntry, DrmListing};
use ferrishost::gpu::nvidia::{parse_smi_line, NvidiaGpu, NVIDIA_RUNTIME_SNIPPET};
use ferrishost::gpu::{GpuDetector, GpuError, GpuHostProbe, GpuVendor};
use ferrishost::system::{require_root, normalize_arch, SystemError, SystemInfo};
use ferrishost::types::GpuInfo;

fn out(text: &str) -> Result<Vec<u8>, String> {
    Ok(text.as_bytes().to_vec())
}

fn gpu(vendor: &str) -> GpuInfo {
    GpuInfo { vendor: vendor.to_string(), name: "x".to_string(), memory_mb: 0, index: 0 }
}

fn good_host() -> GpuHostProbe {
    GpuHostProbe {
        nvidia_smi_found: true,
        nvidia_toolkit_lookup: Ok(true),
        kfd_found: true,
        dri_found: true,
    }
}

#[test]
fn detect_trims_and_normalizes_arm64() {
    let sys = SystemInfo::detect(out(" Linux \n"), out("6.8.0\n"), out("arm64\n"), out("pi\n"))
        .unwrap();
    assert_eq!(sys.os, "Linux");
    assert_eq!(sys.kernel_version, "6.8.0");
    assert_eq!(sys.arch, "aarch64");
    assert_eq!(sys.hostname, "pi");
    assert!(sys.validate().is_ok());
    let host = sys.to_host_info();
    assert_eq!(host.arch, "aarch64");
    assert_eq!(host.hostname, "pi");
}

#[test]
fn detect_reports_the_first_unusable_output() {
    let r = SystemInfo::detect(out("Linux"), Err("No such file".to_string()), Ok(vec![0xff]), out("h"));
    match r {
        Err(SystemError::CommandFailed { command, reason }) => {
            assert_eq!(command, "uname -r");
            assert_eq!(reason, "No such file");
        }
        other => panic!("unexpected {:?}", other.err()),
    }
    let r = SystemInfo::detect(out("Linux"), out("6"), Ok(vec![0xff]), Err("x".to_string()));
    match r {
        Err(e @ SystemError::InvalidOutput { .. }) => {
            // The message is what `String::from_utf8`'s error prints.
            assert_eq!(e.message(), "invalid utf-8 sequence of 1 bytes from index 0");
            match e {
                SystemError::InvalidOutput { command, .. } => assert_eq!(command, "uname -m"),
                _ => unreachable!(),
            }
        }
        other => panic!("unexpected {:?}", other.err()),
    }
}

#[test]
fn validate_rejects_unsupported_architecture() {
    let sys = SystemInfo {
        os: "Linux".to_string(),
        kernel_version: "6".to_string(),
        arch: "riscv64".to_string(),
        hostname: "h".to_string(),
    };
    let e = sys.validate().unwrap_err();
    assert_eq!(e.message(), "Unsupported architecture: riscv64 (only x86_64/aarch64 supported)");
    let mac = SystemInfo { os: "Darwin".to_string(), ..sys };
    assert_eq!(mac.validate().unwrap_err().message(), "FerrisHost only supports Linux (detected: Darwin)");
}

#[test]
fn normalizing_twice_changes_nothing() {
    for a in ["arm64", "aarch64", "x86_64", "riscv64"] {
        let once = normalize_arch(a);
        assert_eq!(normalize_arch(&once), once);
    }
}

#[test]
fn nvidia_detect_numbers_gpus_from_zero() {
    let nvidia = NvidiaGpu::new(true).unwrap();
    let gpus = nvidia
        .detect(out("A100, 40960 MiB\nbroken line\nH100 , 81559 MiB\n"))
        .unwrap();
    assert_eq!(gpus.len(), 2);
    assert_eq!((gpus[0].name.as_str(), gpus[0].memory_mb, gpus[0].index), ("A100", 40960, 0));
    assert_eq!((gpus[1].name.as_str(), gpus[1].memory_mb, gpus[1].index), ("H100", 81559, 1));
    assert!(gpus.iter().all(|g| g.vendor == "nvidia"));
    assert_eq!(parse_smi_line("T4, 15360"), Some(("T4".to_string(), 15360)));
    assert_eq!(parse_smi_line("T4, lots MiB"), None);
}

#[test]
fn nvidia_errors() {
    assert!(matches!(NvidiaGpu::new(false), Err(GpuError::NvidiaSmiNotFound)));
    let nvidia = NvidiaGpu::new(true).unwrap();
    let e = nvidia.detect(Ok(vec![0xc3])).unwrap_err();
    assert!(matches!(e, GpuError::InvalidOutput { .. }));
    assert_eq!(e.message(), "incomplete utf-8 byte sequence from index 0");
    let e = nvidia.detect(Err("not found".to_string())).unwrap_err();
    assert_eq!(
        e.message(),
        "not found"
    );
    assert!(nvidia.prepare_host(Ok(false)).is_ok());
    assert!(nvidia.prepare_host(Err("spawn".to_string())).is_err());
    assert_eq!(nvidia.resource_name(), "nvidia.com/gpu");
    assert_eq!(nvidia.containerd_runtime_snippet().as_deref(), Some(NVIDIA_RUNTIME_SNIPPET));
}

fn entry(name: &str, vendor: Option<&str>) -> DrmEntry {
    DrmEntry { file_name: Some(name.to_string()), vendor_id: vendor.map(|v| v.to_string()) }
}

#[test]
fn amd_detect_counts_amd_cards() {
    let amd = AmdGpu::new(true).unwrap();
    let entries = vec![
        entry("card0", Some("0x1002\n")),
        entry("renderD128", Some("0x1002\n")),
        entry("card1", Some("0x10de\n")),
        entry("card2", None),
        entry("card3", Some("0x1002")),
        DrmEntry { file_name: None, vendor_id: Some("0x1002".to_string()) },
    ];
    let gpus = amd.detect(DrmListing::Entries(entries)).unwrap();
    assert_eq!(gpus.len(), 2);
    assert_eq!(gpus[0].name, "AMD Radeon GPU 0");
    assert_eq!(gpus[1].name, "AMD Radeon GPU 1");
    assert_eq!((gpus[1].index, gpus[1].memory_mb), (1, 0));
    assert!(gpus.iter().all(|g| g.vendor == "amd"));
    assert!(amd.detect(DrmListing::Absent).unwrap().is_empty());
    let e = amd.detect(DrmListing::Unreadable("denied".to_string())).unwrap_err();
    assert_eq!(e.message(), "denied");
    assert!(amd.containerd_runtime_snippet().is_none());
    assert_eq!(amd.resource_name(), "amd.com/gpu");
}

#[test]
fn amd_host_checks() {
    assert_eq!(AmdGpu::new(false).unwrap_err().message(), "No AMD GPU detected (/dev/kfd not found)");
    let amd = AmdGpu::new(true).unwrap();
    assert!(amd.prepare_host(true, true).is_ok());
    assert_eq!(amd.prepare_host(false, true).unwrap_err().message(), "/dev/kfd not found");
    assert_eq!(amd.prepare_host(true, false).unwrap_err().message(), "/dev/dri not found");
}

#[test]
fn detect_all_puts_nvidia_before_amd() {
    let nv = vec![GpuInfo { vendor: "nvidia".into(), name: "A".into(), memory_mb: 1, index: 0 }];
    let amd = vec![GpuInfo { vendor: "amd".into(), name: "B".into(), memory_mb: 0, index: 0 }];
    let all = GpuDetector::detect_all(Some(Ok(nv)), Some(Ok(amd))).unwrap();
    assert_eq!(all.iter().map(|g| g.name.as_str()).collect::<Vec<_>>(), vec!["A", "B"]);
    let amd = vec![GpuInfo { vendor: "amd".into(), name: "B".into(), memory_mb: 0, index: 0 }];
    let only_amd =
        GpuDetector::detect_all(Some(Err(GpuError::NvidiaSmiNotFound)), Some(Ok(amd))).unwrap();
    assert_eq!(only_amd.len(), 1);
}

#[test]
fn distinct_vendors_in_first_occurrence_order() {
    let gpus = vec![gpu("amd"), gpu("nvidia"), gpu("amd"), gpu("intel"), gpu("nvidia")];
    assert_eq!(GpuDetector::distinct_vendors(&gpus), vec!["amd", "nvidia", "intel"]);
}

#[test]
fn unknown_vendors_are_listed_once() {
    let gpus = vec![gpu("intel"), gpu("nvidia"), gpu("intel"), gpu("amd"), gpu("matrox")];
    assert_eq!(GpuDetector::unknown_vendors(&gpus), vec!["intel", "matrox"]);
    assert!(GpuDetector::unknown_vendors(&[gpu("nvidia"), gpu("amd")]).is_empty());
}

#[test]
fn preparation_yields_snippet_only_for_nvidia() {
    let host = good_host();
    let r = GpuDetector::prepare_and_get_config(&[gpu("nvidia"), gpu("amd")], &host).unwrap();
    assert_eq!(r.as_deref(), Some(NVIDIA_RUNTIME_SNIPPET));
    let r = GpuDetector::prepare_and_get_config(&[gpu("amd"), gpu("intel")], &host).unwrap();
    assert!(r.is_none());
    let r = GpuDetector::prepare_and_get_config(&[], &host).unwrap();
    assert!(r.is_none());
}

#[test]
fn preparation_stops_at_first_failing_vendor() {
    let host = GpuHostProbe { nvidia_smi_found: false, kfd_found: false, ..good_host() };
    let e = GpuDetector::prepare_and_get_config(&[gpu("amd"), gpu("nvidia")], &host).unwrap_err();
    assert_eq!(e.message(), "AMD GPU reported but /dev/kfd not found");
    let e = GpuDetector::prepare_and_get_config(&[gpu("nvidia"), gpu("amd")], &host).unwrap_err();
    assert_eq!(e.message(), "NVIDIA GPU reported but nvidia-smi not found");
    let host = GpuHostProbe { nvidia_toolkit_lookup: Err("no which".to_string()), ..good_host() };
    let e = GpuDetector::prepare_and_get_config(&[gpu("nvidia")], &host).unwrap_err();
    assert_eq!(e.message(), "no which");
    assert!(matches!(e, GpuError::CommandFailed { ref command, .. } if command == "which nvidia-ctk"));
    let host = GpuHostProbe { dri_found: false, ..good_host() };
    let e = GpuDetector::prepare_and_get_config(&[gpu("amd")], &host).unwrap_err();
    assert!(matches!(e, GpuError::DriNotFound));
}

#[test]
fn setup_requires_root() {
    assert!(require_root(Ok(b"0\n".to_vec())).is_ok());
    let e = require_root(Ok(b"1000\n".to_vec())).unwrap_err();
    assert_eq!(e.message(), "FerrisHost setup must run as root (running as uid 1000)");
    let e = require_root(Err("No such file or directory (os error 2)".to_string())).unwrap_err();
    assert!(matches!(e, SystemError::CommandFailed { ref command, .. } if command == "id -u"));
    assert_eq!(e.message(), "No such file or directory (os error 2)");
}

#[test]
fn listed_vendors_need_only_their_own_checks() {
    // An NVIDIA-only host needs no /dev/kfd or /dev/dri.
    let host = GpuHostProbe { kfd_found: false, dri_found: false, ..good_host() };
    let r = GpuDetector::prepare_and_get_config(&[gpu("nvidia"), gpu("nvidia")], &host).unwrap();
    assert_eq!(r.as_deref(), Some(NVIDIA_RUNTIME_SNIPPET));
    // An AMD-only host needs no nvidia-smi.
    let host = GpuHostProbe {
        nvidia_smi_found: false,
        nvidia_toolkit_lookup: Err("not run".to_string()),
        ..good_host()
    };
    assert!(GpuDetector::prepare_and_get_config(&[gpu("amd")], &host).unwrap().is_none());
}

#[test]
fn gpu_errors_keep_their_cause() {
    assert_eq!(GpuError::NvidiaReportedWithoutSmi.cause(), Some("nvidia-smi not found"));
    assert_eq!(
        GpuError::AmdReportedWithoutKfd.cause(),
        Some("No AMD GPU detected (/dev/kfd not found)")
    );
    assert_eq!(GpuError::DriNotFound.cause(), None);
}
