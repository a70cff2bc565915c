use ferrishost::deploy_web::{DeployError, WebDeployer, CHART_REF, VERSION};
use ferrishost::k3s::{
    InstallAction, InstallEvent, K3s, K3sError, K3sInstallStep, KubeconfigAction, KubeconfigEvent,
    KubeconfigStep, WaitAction, WaitEvent, READY_TIMEOUT_SECS,
};
use ferrishost::manifests::{AMD_MANIFEST, CERT_MANAGER_MANIFEST, NVIDIA_MANIFEST, RBAC_MANIFEST};
use ferrishost::operators::{GpuOperator, MetricsServerState, Operators};
use ferrishost::setup::{
    gpu_command_prepares, ingress_host, log_filter, setup_next, vendor_detected, web_url,
    SetupAction, SetupOptions, SetupPhase, StepOutcome,
};
use ferrishost::types::GpuInfo;

fn gpu(vendor: &str) -> GpuInfo {
    GpuInfo { vendor: vendor.to_string(), name: "x".to_string(), memory_mb: 0, index: 0 }
}

#[test]
fn k3s_install_plan() {
    assert_eq!(K3s::install_plan(true, true), K3sInstallStep::AlreadyInstalled);
    assert_eq!(K3s::install_plan(true, false), K3sInstallStep::AlreadyInstalled);
    assert_eq!(K3s::install_plan(false, false), K3sInstallStep::Download);
    // Offline, the download of the installer is skipped rather than failing.
    assert_eq!(K3s::install_plan(false, true), K3sInstallStep::SkipOffline);
}

#[test]
fn k3s_process_outcomes() {
    assert!(K3s::download_outcome(Some(0), b"").is_ok());
    let e = K3s::download_outcome(Some(6), b"could not resolve host").unwrap_err();
    assert_eq!(
        e.message(),
        "failed to download k3s install script (curl exited 6)\ncould not resolve host"
    );
    let e = K3s::download_outcome(None, b"").unwrap_err();
    assert!(matches!(e, K3sError::DownloadFailed { exit_code: None, .. }));
    assert!(K3s::script_outcome(Some(0)).is_ok());
    assert_eq!(K3s::script_outcome(None).unwrap_err().message(), "k3s install script failed (exit unknown)");
    assert_eq!(K3s::script_outcome(Some(1)).unwrap_err().message(), "k3s install script failed (exit 1)");
}

#[test]
fn k3s_readiness() {
    assert_eq!(READY_TIMEOUT_SECS, 120);
    assert!(K3s::poll_deadline(120, 120).is_ok());
    let e = K3s::poll_deadline(121, 120).unwrap_err();
    assert_eq!(e.message(), "timed out after 120s waiting for node to become ready");
    assert!(K3s::nodes_ready(Some(0), b"True"));
    assert!(K3s::nodes_ready(Some(0), b"False True"));
    assert!(!K3s::nodes_ready(Some(0), b"False"));
    assert!(!K3s::nodes_ready(Some(1), b"True"));
    assert!(!K3s::nodes_ready(None, b"True"));
}

#[test]
fn kubeconfig_decisions() {
    assert_eq!(K3s::kubeconfig_home(None), "/root");
    assert_eq!(K3s::kubeconfig_home(Some("/home/me".to_string())), "/home/me");
    assert_eq!(K3s::kubeconfig_step(true, true), KubeconfigStep::KeepExisting);
    assert_eq!(K3s::kubeconfig_step(false, false), KubeconfigStep::SourceMissing);
    assert_eq!(K3s::kubeconfig_step(false, true), KubeconfigStep::Copy);
}

#[test]
fn gpu_operators_one_per_known_vendor() {
    assert!(Operators::gpu_operators(&[]).is_empty());
    let ops = Operators::gpu_operators(&[gpu("amd"), gpu("nvidia"), gpu("amd"), gpu("intel")]);
    assert_eq!(ops, vec![GpuOperator::AmdDevicePlugin, GpuOperator::NvidiaDevicePlugin]);
    assert_eq!(ops[0].manifest(), AMD_MANIFEST);
    assert_eq!(ops[1].manifest(), NVIDIA_MANIFEST);
    assert_eq!(ops[1].failure_context(), "failed to install NVIDIA device plugin");
    assert_eq!(Operators::cert_manager_manifest(), CERT_MANAGER_MANIFEST);
    assert_eq!(Operators::rbac_manifest(), RBAC_MANIFEST);
}

#[test]
fn metrics_server_states() {
    assert!(matches!(Operators::metrics_server_state(Some(1), b"1"), MetricsServerState::Unqueryable));
    assert!(matches!(Operators::metrics_server_state(Some(0), b" \n"), MetricsServerState::NotAvailable));
    assert!(matches!(Operators::metrics_server_state(Some(0), b"0"), MetricsServerState::NotAvailable));
    match Operators::metrics_server_state(Some(0), b" 1\n") {
        MetricsServerState::Running(r) => assert_eq!(r, "1"),
        other => panic!("unexpected {:?}", other),
    }
}

#[test]
fn kubectl_apply_outcome() {
    assert!(Operators::apply_outcome(Some(0), b"", b"").is_ok());
    let e = Operators::apply_outcome(Some(1), b"out", b"err").unwrap_err();
    assert_eq!(e.message(), "kubectl apply failed\nstdout: out\nstderr: err");
}

#[test]
fn helm_and_kubectl_arguments() {
    let d = WebDeployer::new("box.homelab.local");
    assert_eq!(
        d.helm_install_args(),
        vec![
            "upgrade", "--install", "ferrishost-web", CHART_REF, "--namespace", "ferrishost",
            "--create-namespace", "--set", &format!("image.tag={}", VERSION), "--set",
            "ingress.host=box.homelab.local", "--set", "service.port=443", "--wait", "--timeout",
            "5m",
        ]
    );
    assert_eq!(
        d.rollout_status_args(),
        vec!["rollout", "status", "deployment/ferrishost-web", "-n", "ferrishost", "--timeout=300s"]
    );
}

#[test]
fn deploy_outcomes() {
    assert!(WebDeployer::helm_outcome(Some(0), b"").is_ok());
    let e = WebDeployer::helm_outcome(Some(1), b"chart not found").unwrap_err();
    assert_eq!(e.message(), "helm upgrade --install failed: chart not found");
    let e = WebDeployer::rollout_outcome(None, b"timeout").unwrap_err();
    assert!(matches!(e, DeployError::RolloutFailed { .. }));
    assert_eq!(e.message(), "kubectl rollout status failed: timeout");
}

#[test]
fn deployer_builders_commute() {
    let a = WebDeployer::new("h").with_image_tag("t").with_chart_ref("c");
    let b = WebDeployer::new("h").with_chart_ref("c").with_image_tag("t");
    assert_eq!(a.image_tag(), b.image_tag());
    assert_eq!(a.chart_ref(), b.chart_ref());
    assert_eq!(a.namespace(), b.namespace());
    assert_eq!(a.ingress_host(), b.ingress_host());
}

#[test]
fn setup_decisions() {
    assert_eq!(log_filter(0), "info");
    assert_eq!(log_filter(1), "debug");
    assert_eq!(log_filter(5), "trace");
    let host = ingress_host("box");
    assert_eq!(host, "box.homelab.local");
    assert_eq!(web_url(&host, 443), "https://box.homelab.local");
    assert_eq!(web_url(&host, 8443), "https://box.homelab.local:8443");
    let gpus = [gpu("amd")];
    assert!(vendor_detected(&gpus, "amd"));
    assert!(!vendor_detected(&gpus, "nvidia"));
}

#[test]
fn test_is_installed_does_not_panic() {
    // k3s may or may not be present on the machine running the tests; the
    // check has to run without panicking either way.
    let _ = K3s::is_installed();
}

fn options(skip_gpu: bool, offline: bool, no_browser: bool) -> SetupOptions {
    SetupOptions {
        skip_gpu,
        gpu_vendor: None,
        disable_traefik: true,
        web_port: 443,
        no_browser,
        offline,
    }
}

/// Runs setup's steps with the outcomes given, one per step, and collects
/// the actions asked for.
fn setup_actions(opts: &SetupOptions, outcomes: &[StepOutcome]) -> Vec<SetupAction> {
    let (mut phase, mut action) = setup_next(opts, SetupPhase::Start, StepOutcome::Succeeded);
    let mut actions = vec![action];
    for outcome in outcomes {
        (phase, action) = setup_next(opts, phase, *outcome);
        actions.push(action);
    }
    actions
}

#[test]
fn setup_runs_all_phases_in_order() {
    let opts = options(false, false, false);
    let actions = setup_actions(
        &opts,
        &[StepOutcome::Succeeded, StepOutcome::Found(true), StepOutcome::Found(true), StepOutcome::Found(true), StepOutcome::Succeeded, StepOutcome::Succeeded, StepOutcome::Found(true), StepOutcome::Succeeded, StepOutcome::Succeeded, StepOutcome::Succeeded, StepOutcome::Succeeded],
    );
    assert_eq!(
        actions,
        vec![
            SetupAction::RunPreflight,
            SetupAction::DetectGpus,
            SetupAction::PrepareGpus,
            SetupAction::InstallK3s { disable_traefik: true, offline: false },
            SetupAction::CopyKubeconfig,
            SetupAction::WaitForNode,
            SetupAction::FindContainerdDir,
            SetupAction::WriteRuntimeSnippet,
            SetupAction::InstallOperators,
            SetupAction::DeployWeb { web_port: 443 },
            SetupAction::Finish { open_browser: true, web_port: 443 },
            SetupAction::Stop,
        ]
    );
}

#[test]
fn setup_skips_what_is_not_needed() {
    // --skip-gpu: from the preflight straight to k3s; no snippet to write.
    let actions = setup_actions(&options(true, false, true), &[StepOutcome::Succeeded, StepOutcome::Found(true), StepOutcome::Succeeded, StepOutcome::Succeeded, StepOutcome::Succeeded, StepOutcome::Succeeded]);
    assert_eq!(
        actions,
        vec![
            SetupAction::RunPreflight,
            SetupAction::InstallK3s { disable_traefik: true, offline: false },
            SetupAction::CopyKubeconfig,
            SetupAction::WaitForNode,
            SetupAction::InstallOperators,
            SetupAction::DeployWeb { web_port: 443 },
            SetupAction::Finish { open_browser: false, web_port: 443 },
        ]
    );
    // No GPU found: no preparation.
    let actions = setup_actions(&options(false, false, false), &[StepOutcome::Succeeded, StepOutcome::Found(false)]);
    assert_eq!(actions[2], SetupAction::InstallK3s { disable_traefik: true, offline: false });
    // Preparation without a snippet, or no containerd directory: nothing is written.
    let actions = setup_actions(&options(false, false, false), &[StepOutcome::Succeeded, StepOutcome::Found(true), StepOutcome::Found(false), StepOutcome::Found(true), StepOutcome::Succeeded, StepOutcome::Succeeded]);
    assert_eq!(actions[6], SetupAction::InstallOperators);
    let actions = setup_actions(&options(false, false, false), &[StepOutcome::Succeeded, StepOutcome::Found(true), StepOutcome::Found(true), StepOutcome::Found(true), StepOutcome::Succeeded, StepOutcome::Succeeded, StepOutcome::Found(false)]);
    assert_eq!(actions[7], SetupAction::InstallOperators);
}

#[test]
fn offline_setup_skips_network_steps() {
    // k3s missing: the install is skipped, and so is all that needs the cluster.
    let actions = setup_actions(&options(true, true, false), &[StepOutcome::Succeeded, StepOutcome::Found(false)]);
    assert_eq!(
        actions,
        vec![
            SetupAction::RunPreflight,
            SetupAction::InstallK3s { disable_traefik: true, offline: true },
            SetupAction::Finish { open_browser: true, web_port: 443 },
        ]
    );
    // k3s present: the operators are installed, the web chart is not pulled.
    let actions = setup_actions(&options(true, true, false), &[StepOutcome::Succeeded, StepOutcome::Found(true), StepOutcome::Succeeded, StepOutcome::Succeeded, StepOutcome::Succeeded]);
    assert_eq!(actions[4], SetupAction::InstallOperators);
    assert_eq!(actions[5], SetupAction::Finish { open_browser: true, web_port: 443 });
}

#[test]
fn a_failed_step_ends_setup() {
    let actions = setup_actions(&options(false, false, false), &[StepOutcome::Succeeded, StepOutcome::Found(true), StepOutcome::Failed, StepOutcome::Succeeded]);
    assert_eq!(actions[3], SetupAction::Abort);
    assert_eq!(actions[4], SetupAction::Stop);
    let actions = setup_actions(&options(false, false, false), &[StepOutcome::Failed]);
    assert_eq!(actions, vec![SetupAction::RunPreflight, SetupAction::Abort]);
}

#[test]
fn gpu_command_prepares_only_found_gpus() {
    assert!(gpu_command_prepares(false, 2));
    assert!(!gpu_command_prepares(true, 2));
    assert!(!gpu_command_prepares(false, 0));
}

#[test]
fn k3s_install_steps() {
    assert_eq!(
        K3s::install_next(false, InstallEvent::Begin { installed: false }, &[]).unwrap(),
        InstallAction::Download
    );
    assert_eq!(
        K3s::install_next(true, InstallEvent::Begin { installed: false }, &[]).unwrap(),
        InstallAction::Finish { k3s_present: false }
    );
    assert_eq!(
        K3s::install_next(true, InstallEvent::Begin { installed: true }, &[]).unwrap(),
        InstallAction::Finish { k3s_present: true }
    );
    assert_eq!(
        K3s::install_next(false, InstallEvent::Downloaded { exit_code: Some(0) }, &[]).unwrap(),
        InstallAction::RunScript
    );
    let e = K3s::install_next(false, InstallEvent::Downloaded { exit_code: Some(6) }, b"no host")
        .unwrap_err();
    assert_eq!(e.message(), "failed to download k3s install script (curl exited 6)\nno host");
    let e = K3s::install_next(false, InstallEvent::ScriptExited { exit_code: Some(1) }, &[])
        .unwrap_err();
    assert_eq!(e.message(), "k3s install script failed (exit 1)");
    assert_eq!(
        K3s::install_next(false, InstallEvent::ScriptExited { exit_code: Some(0) }, &[]).unwrap(),
        InstallAction::Finish { k3s_present: true }
    );
}

#[test]
fn waiting_for_the_node() {
    // The first query is made at once, even with no time allowed.
    assert_eq!(K3s::wait_next(0, 0, WaitEvent::Begin).unwrap(), WaitAction::Poll);
    assert_eq!(K3s::wait_next(7, 0, WaitEvent::Polled { ready: true }).unwrap(), WaitAction::Ready);
    assert_eq!(K3s::wait_next(3, 120, WaitEvent::Polled { ready: false }).unwrap(), WaitAction::Sleep);
    assert_eq!(K3s::wait_next(8, 120, WaitEvent::Slept).unwrap(), WaitAction::Poll);
    let e = K3s::wait_next(121, 120, WaitEvent::Slept).unwrap_err();
    assert_eq!(e.message(), "timed out after 120s waiting for node to become ready");
}

#[test]
fn copying_the_kubeconfig() {
    let begin = |target_exists, source_exists| {
        K3s::kubeconfig_next(KubeconfigEvent::Begin { target_exists, source_exists }).unwrap()
    };
    assert_eq!(begin(true, true), KubeconfigAction::Finish { step: KubeconfigStep::KeepExisting, copied: false });
    assert_eq!(begin(false, false), KubeconfigAction::Finish { step: KubeconfigStep::SourceMissing, copied: false });
    assert_eq!(begin(false, true), KubeconfigAction::CreateDir);
    let e = K3s::kubeconfig_next(KubeconfigEvent::DirCreated { ok: false }).unwrap_err();
    assert_eq!(e.message(), "failed to create ~/.kube directory");
    assert_eq!(K3s::kubeconfig_next(KubeconfigEvent::DirCreated { ok: true }).unwrap(), KubeconfigAction::CopyFile);
    // A failed copy is only warned about.
    assert_eq!(
        K3s::kubeconfig_next(KubeconfigEvent::Copied { ok: false }).unwrap(),
        KubeconfigAction::Finish { step: KubeconfigStep::Copy, copied: false }
    );
}

#[test]
fn core_operators_are_applied_in_order_once_each() {
    let gpus = vec![gpu_of("amd"), gpu_of("nvidia"), gpu_of("amd"), gpu_of("intel")];
    let applies = Operators::core_applies(&gpus);
    let contexts: Vec<&str> = applies.iter().map(|a| a.failure_context).collect();
    assert_eq!(
        contexts,
        vec![
            "failed to install cert-manager",
            "failed to install AMD device plugin",
            "failed to install NVIDIA device plugin",
            "failed to apply RBAC manifests",
        ]
    );
    assert_eq!(applies[0].manifest, CERT_MANAGER_MANIFEST);
    assert_eq!(applies[1].manifest, AMD_MANIFEST);
    assert_eq!(applies[2].manifest, NVIDIA_MANIFEST);
    assert_eq!(applies[3].manifest, RBAC_MANIFEST);
    assert_eq!(Operators::core_applies(&[]).len(), 2);
}

fn gpu_of(vendor: &str) -> GpuInfo {
    GpuInfo { vendor: vendor.to_string(), name: "g".to_string(), memory_mb: 0, index: 0 }
}

#[test]
fn web_port_reaches_helm_and_the_dashboard_address() {
    let d = WebDeployer::new("box.homelab.local").with_web_port(8443);
    assert_eq!(d.web_port(), 8443);
    assert!(d.helm_install_args().contains(&"service.port=8443".to_string()));
    let mut opts = options(true, false, false);
    opts.web_port = 8443;
    let actions = setup_actions(
        &opts,
        &[StepOutcome::Succeeded, StepOutcome::Found(true), StepOutcome::Succeeded, StepOutcome::Succeeded, StepOutcome::Succeeded, StepOutcome::Succeeded],
    );
    assert_eq!(actions[5], SetupAction::DeployWeb { web_port: 8443 });
    assert_eq!(actions[6], SetupAction::Finish { open_browser: true, web_port: 8443 });
    assert_eq!(web_url("box.homelab.local", 8443), "https://box.homelab.local:8443");
}

#[test]
fn status_reports_the_web_service() {
    assert_eq!(ferrishost::report::web_status_line(None, b""), "Web:   not deployed");
    assert_eq!(ferrishost::report::web_status_line(Some(1), b"1"), "Web:   not deployed");
    assert_eq!(ferrishost::report::web_status_line(Some(0), b""), "Web:   deployed, not ready");
    assert_eq!(ferrishost::report::web_status_line(Some(0), b"0"), "Web:   deployed, not ready");
    assert_eq!(ferrishost::report::web_status_line(Some(0), b"2\n"), "Web:   running (2 replica(s))");
}
