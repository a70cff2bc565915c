//! Decisions of the `ferrishost` command line.
use vstd::prelude::*;

use crate::gpu::vendors_of;
use crate::text::{concat_str, decimal, decimal_string, str_eq};
use crate::types::GpuInfo;

verus! {

/// The log level that `-v` flags ask for.
pub open spec fn log_filter_for(verbose: u8) -> Seq<char> {
    if verbose == 0 {
        "info"@
    } else if verbose == 1 {
        "debug"@
    } else {
        "trace"@
    }
}

/// The log level that `verbose` repetitions of `-v` ask for: info, then
/// debug, then trace.
pub fn log_filter(verbose: u8) -> (s: &'static str)
    ensures
        s@ == log_filter_for(verbose),
{
    if verbose == 0 {
        "info"
    } else if verbose == 1 {
        "debug"
    } else {
        "trace"
    }
}

/// The DNS name under which the web service of host `hostname` is reached.
pub fn ingress_host(hostname: &str) -> (h: String)
    ensures
        h@ == hostname@ + ".homelab.local"@,
{
    concat_str(hostname, ".homelab.local")
}

/// The address of the web dashboard at `ingress_host` on `web_port`: the
/// port is written out unless it is HTTPS's own, 443.
pub open spec fn dashboard_url(ingress_host: Seq<char>, web_port: u16) -> Seq<char> {
    if web_port == 443 {
        "https://"@ + ingress_host
    } else {
        "https://"@ + ingress_host + ":"@ + decimal(web_port as nat)
    }
}

/// The address of the web dashboard at `ingress_host` on `web_port`.
pub fn web_url(ingress_host: &str, web_port: u16) -> (u: String)
    ensures
        u@ == dashboard_url(ingress_host@, web_port),
{
    let mut u = concat_str("https://", ingress_host);
    if web_port != 443 {
        u.append(":");
        let port = decimal_string(web_port as u64);
        u.append(port.as_str());
    }
    u
}

/// Whether one of `gpus` is of `vendor` (a vendor forced on the command
/// line is checked against detection this way).
pub fn vendor_detected(gpus: &[GpuInfo], vendor: &str) -> (b: bool)
    ensures
        b == vendors_of(gpus@).contains(vendor@),
{
    let mut i: usize = 0;
    while i < gpus.len()
        invariant
            i <= gpus@.len(),
            forall|k: int| 0 <= k < i ==> gpus@[k].vendor@ != vendor@,
        decreases gpus@.len() - i,
    {
        if str_eq(gpus[i].vendor.as_str(), vendor) {
            assert(vendors_of(gpus@)[i as int] == vendor@);
            return true;
        }
        i += 1;
    }
    assert forall|k: int| 0 <= k < vendors_of(gpus@).len() implies vendors_of(gpus@)[k]
        != vendor@ by {
        assert(vendors_of(gpus@)[k] == gpus@[k].vendor@);
    }
    false
}

/// The options of `ferrishost setup`.
#[derive(Debug, Clone)]
pub struct SetupOptions {
    /// Skip GPU detection and configuration.
    pub skip_gpu: bool,
    /// The GPU vendor asked for, if any (only checked against detection).
    pub gpu_vendor: Option<String>,
    /// Install k3s without its Traefik ingress controller.
    pub disable_traefik: bool,
    /// The port to expose the web service on.
    pub web_port: u16,
    /// Do not open a browser at the end.
    pub no_browser: bool,
    /// Skip the steps that need the network.
    pub offline: bool,
}

/// Where setup stands: the step whose outcome comes next. The k3s phases
/// remember whether GPU preparation returned a containerd runtime snippet.
#[derive(Debug, Clone, Copy, PartialEq, Eq, Structural)]
pub enum SetupPhase {
    /// Nothing has run yet.
    Start,
    /// 1. Preflight: root, Linux, a supported architecture.
    Preflight,
    /// 2. GPU detection.
    DetectGpus,
    /// 2. Host preparation for the detected GPUs.
    PrepareGpus,
    /// 3. Installing k3s.
    InstallK3s { snippet: bool },
    /// 3. Copying the kubeconfig.
    CopyKubeconfig { snippet: bool },
    /// 3. Waiting for the node.
    WaitForNode { snippet: bool },
    /// 3. Looking for k3s's containerd configuration directory.
    FindContainerdDir,
    /// 3. Writing the NVIDIA runtime snippet into it.
    WriteRuntimeSnippet,
    /// 4. Installing the core operators.
    InstallOperators,
    /// 5. Deploying the web service.
    DeployWeb,
    /// 6. Setup is complete.
    Done,
    /// A step failed; setup ended with its error.
    Failed,
}

/// How the step of the current phase ended.
#[derive(Debug, Clone, Copy, PartialEq, Eq, Structural)]
pub enum StepOutcome {
    /// The step succeeded.
    Succeeded,
    /// The step failed; setup ends with its error.
    Failed,
    /// The step succeeded with a finding: for GPU detection, whether a GPU
    /// was found; for GPU preparation, whether a runtime snippet was
    /// returned; for installing k3s, whether k3s is there (it is not where
    /// the installation was skipped offline); for the containerd directory,
    /// whether it exists.
    Found(bool),
}

/// What to do next.
#[derive(Debug, Clone, Copy, PartialEq, Eq, Structural)]
pub enum SetupAction {
    RunPreflight,
    DetectGpus,
    PrepareGpus,
    InstallK3s { disable_traefik: bool, offline: bool },
    CopyKubeconfig,
    WaitForNode,
    FindContainerdDir,
    WriteRuntimeSnippet,
    InstallOperators,
    /// Deploy the web service, exposed on `web_port`.
    DeployWeb { web_port: u16 },
    /// Hand off: print the dashboard's address (on `web_port`), and open a
    /// browser on it where asked to.
    Finish { open_browser: bool, web_port: u16 },
    /// End setup with the error of the step that failed.
    Abort,
    /// Setup is over; nothing is left to do.
    Stop,
}

/// The finding of a step; plain success counts as a positive finding.
pub open spec fn finding(o: StepOutcome) -> bool {
    match o {
        StepOutcome::Found(b) => b,
        _ => true,
    }
}

/// Step 3 begins: install k3s.
pub open spec fn k3s_step(opts: SetupOptions, snippet: bool) -> (SetupPhase, SetupAction) {
    (
        SetupPhase::InstallK3s { snippet },
        SetupAction::InstallK3s { disable_traefik: opts.disable_traefik, offline: opts.offline },
    )
}

/// Step 6: the handoff.
pub open spec fn finish_step(opts: SetupOptions) -> (SetupPhase, SetupAction) {
    (SetupPhase::Done, SetupAction::Finish { open_browser: !opts.no_browser, web_port: opts.web_port })
}

/// Setup's steps in the order of its six phases. A failed step ends setup
/// with its error. `--skip-gpu` goes from the preflight straight to k3s; no
/// GPU found skips host preparation. The NVIDIA runtime snippet is written
/// only where preparation returned one and k3s's containerd directory
/// exists. Where k3s was skipped offline, nothing that needs the cluster
/// runs; offline, the web service (whose chart is fetched from the network)
/// is not deployed.
pub open spec fn setup_transition(opts: SetupOptions, phase: SetupPhase, outcome: StepOutcome) -> (
    SetupPhase,
    SetupAction,
) {
    match phase {
        SetupPhase::Done => (SetupPhase::Done, SetupAction::Stop),
        SetupPhase::Failed => (SetupPhase::Failed, SetupAction::Stop),
        _ => if outcome is Failed {
            (SetupPhase::Failed, SetupAction::Abort)
        } else {
            match phase {
                SetupPhase::Start => (SetupPhase::Preflight, SetupAction::RunPreflight),
                SetupPhase::Preflight => if opts.skip_gpu {
                    k3s_step(opts, false)
                } else {
                    (SetupPhase::DetectGpus, SetupAction::DetectGpus)
                },
                SetupPhase::DetectGpus => if finding(outcome) {
                    (SetupPhase::PrepareGpus, SetupAction::PrepareGpus)
                } else {
                    k3s_step(opts, false)
                },
                SetupPhase::PrepareGpus => k3s_step(opts, finding(outcome)),
                SetupPhase::InstallK3s { snippet } => if finding(outcome) {
                    (SetupPhase::CopyKubeconfig { snippet }, SetupAction::CopyKubeconfig)
                } else {
                    finish_step(opts)
                },
                SetupPhase::CopyKubeconfig { snippet } => (
                    SetupPhase::WaitForNode { snippet },
                    SetupAction::WaitForNode,
                ),
                SetupPhase::WaitForNode { snippet } => if snippet {
                    (SetupPhase::FindContainerdDir, SetupAction::FindContainerdDir)
                } else {
                    (SetupPhase::InstallOperators, SetupAction::InstallOperators)
                },
                SetupPhase::FindContainerdDir => if finding(outcome) {
                    (SetupPhase::WriteRuntimeSnippet, SetupAction::WriteRuntimeSnippet)
                } else {
                    (SetupPhase::InstallOperators, SetupAction::InstallOperators)
                },
                SetupPhase::WriteRuntimeSnippet => (
                    SetupPhase::InstallOperators,
                    SetupAction::InstallOperators,
                ),
                SetupPhase::InstallOperators => if opts.offline {
                    finish_step(opts)
                } else {
                    (SetupPhase::DeployWeb, SetupAction::DeployWeb { web_port: opts.web_port })
                },
                _ => finish_step(opts),
            }
        },
    }
}

/// The next phase of setup and what to do in it, given how the step of
/// `phase` ended (for `Start`, the outcome does not matter).
pub fn setup_next(opts: &SetupOptions, phase: SetupPhase, outcome: StepOutcome) -> (r: (
    SetupPhase,
    SetupAction,
))
    ensures
        r == setup_transition(*opts, phase, outcome),
{
    let found = match outcome {
        StepOutcome::Found(b) => b,
        _ => true,
    };
    let k3s = (
        SetupPhase::InstallK3s { snippet: false },
        SetupAction::InstallK3s { disable_traefik: opts.disable_traefik, offline: opts.offline },
    );
    let finish = (
        SetupPhase::Done,
        SetupAction::Finish { open_browser: !opts.no_browser, web_port: opts.web_port },
    );
    match phase {
        SetupPhase::Done => return (SetupPhase::Done, SetupAction::Stop),
        SetupPhase::Failed => return (SetupPhase::Failed, SetupAction::Stop),
        _ => {},
    }
    if let StepOutcome::Failed = outcome {
        return (SetupPhase::Failed, SetupAction::Abort);
    }
    match phase {
        SetupPhase::Start => (SetupPhase::Preflight, SetupAction::RunPreflight),
        SetupPhase::Preflight => if opts.skip_gpu {
            k3s
        } else {
            (SetupPhase::DetectGpus, SetupAction::DetectGpus)
        },
        SetupPhase::DetectGpus => if found {
            (SetupPhase::PrepareGpus, SetupAction::PrepareGpus)
        } else {
            k3s
        },
        SetupPhase::PrepareGpus => (
            SetupPhase::InstallK3s { snippet: found },
            SetupAction::InstallK3s { disable_traefik: opts.disable_traefik, offline: opts.offline },
        ),
        SetupPhase::InstallK3s { snippet } => if found {
            (SetupPhase::CopyKubeconfig { snippet }, SetupAction::CopyKubeconfig)
        } else {
            finish
        },
        SetupPhase::CopyKubeconfig { snippet } => (
            SetupPhase::WaitForNode { snippet },
            SetupAction::WaitForNode,
        ),
        SetupPhase::WaitForNode { snippet } => if snippet {
            (SetupPhase::FindContainerdDir, SetupAction::FindContainerdDir)
        } else {
            (SetupPhase::InstallOperators, SetupAction::InstallOperators)
        },
        SetupPhase::FindContainerdDir => if found {
            (SetupPhase::WriteRuntimeSnippet, SetupAction::WriteRuntimeSnippet)
        } else {
            (SetupPhase::InstallOperators, SetupAction::InstallOperators)
        },
        SetupPhase::WriteRuntimeSnippet => (SetupPhase::InstallOperators, SetupAction::InstallOperators),
        SetupPhase::InstallOperators => if opts.offline {
            finish
        } else {
            (SetupPhase::DeployWeb, SetupAction::DeployWeb { web_port: opts.web_port })
        },
        _ => finish,
    }
}

/// Whether `ferrishost gpu` goes on to prepare the host: where GPUs were
/// found and not only detection was asked for.
pub fn gpu_command_prepares(detect_only: bool, gpus_found: usize) -> (b: bool)
    ensures
        b == (!detect_only && gpus_found > 0),
{
    !detect_only && gpus_found > 0
}

/// The place of a phase in the order of setup's steps.
pub open spec fn phase_rank(p: SetupPhase) -> int {
    match p {
        SetupPhase::Start => 0,
        SetupPhase::Preflight => 1,
        SetupPhase::DetectGpus => 2,
        SetupPhase::PrepareGpus => 3,
        SetupPhase::InstallK3s { .. } => 4,
        SetupPhase::CopyKubeconfig { .. } => 5,
        SetupPhase::WaitForNode { .. } => 6,
        SetupPhase::FindContainerdDir => 7,
        SetupPhase::WriteRuntimeSnippet => 8,
        SetupPhase::InstallOperators => 9,
        SetupPhase::DeployWeb => 10,
        SetupPhase::Done => 11,
        SetupPhase::Failed => 12,
    }
}

/// Whether a phase carries a runtime snippet to be written.
pub open spec fn holds_snippet(p: SetupPhase) -> bool {
    match p {
        SetupPhase::InstallK3s { snippet } => snippet,
        SetupPhase::CopyKubeconfig { snippet } => snippet,
        SetupPhase::WaitForNode { snippet } => snippet,
        _ => false,
    }
}

/// Setup runs its steps in order, each at most once, and ends: every step
/// leads to a later phase, or to failure; a finished or failed setup stays
/// so and does nothing more.
pub proof fn law_setup_moves_forward(opts: SetupOptions, phase: SetupPhase, outcome: StepOutcome)
    ensures
        ({
            let (next, action) = setup_transition(opts, phase, outcome);
            &&& (phase is Done || phase is Failed) ==> next == phase && action is Stop
            &&& !(phase is Done || phase is Failed) ==> (next is Failed || phase_rank(next)
                > phase_rank(phase))
        }),
{
}

/// A failed step ends setup with its error, whatever the step.
pub proof fn law_setup_aborts_on_failure(opts: SetupOptions, phase: SetupPhase)
    requires
        !(phase is Done || phase is Failed),
    ensures
        setup_transition(opts, phase, StepOutcome::Failed) == (SetupPhase::Failed, SetupAction::Abort),
{
}

/// With `--skip-gpu`, a passed preflight leads straight to installing k3s;
/// without, to GPU detection; and where no GPU is found, host preparation
/// is skipped.
pub proof fn law_setup_gpu_steps(opts: SetupOptions)
    ensures
        opts.skip_gpu ==> setup_transition(opts, SetupPhase::Preflight, StepOutcome::Succeeded)
            == k3s_step(opts, false),
        !opts.skip_gpu ==> setup_transition(opts, SetupPhase::Preflight, StepOutcome::Succeeded)
            == (SetupPhase::DetectGpus, SetupAction::DetectGpus),
        setup_transition(opts, SetupPhase::DetectGpus, StepOutcome::Found(false)) == k3s_step(
            opts,
            false,
        ),
{
}

/// The runtime snippet is written only where GPU preparation returned one
/// and the containerd directory exists: a snippet is carried only from a
/// preparation that returned one, and writing follows only a carried
/// snippet and a directory that was found.
pub proof fn law_snippet_written_only_when_returned(
    opts: SetupOptions,
    phase: SetupPhase,
    outcome: StepOutcome,
)
    ensures
        ({
            let (next, action) = setup_transition(opts, phase, outcome);
            &&& holds_snippet(next) ==> holds_snippet(phase) || (phase is PrepareGpus && finding(
                outcome,
            ) && !(outcome is Failed))
            &&& action is FindContainerdDir ==> holds_snippet(phase) && phase is WaitForNode
            &&& action is WriteRuntimeSnippet ==> phase is FindContainerdDir && outcome
                == StepOutcome::Found(true) || phase is FindContainerdDir && outcome
                == StepOutcome::Succeeded
        }),
{
}

/// Offline, nothing that needs the network runs: k3s is installed with
/// the offline flag (so its download is skipped), and the web service is
/// not deployed.
pub proof fn law_offline_setup(opts: SetupOptions, phase: SetupPhase, outcome: StepOutcome)
    requires
        opts.offline,
    ensures
        ({
            let (next, action) = setup_transition(opts, phase, outcome);
            &&& !(action is DeployWeb)
            &&& action matches SetupAction::InstallK3s { offline, .. } ==> offline
        }),
{
}

/// The web service is deployed on the port asked for with `--web-port`,
/// and the hand-off reports the dashboard on that port.
pub proof fn law_setup_web_port(opts: SetupOptions, phase: SetupPhase, outcome: StepOutcome)
    ensures
        ({
            let (next, action) = setup_transition(opts, phase, outcome);
            &&& action matches SetupAction::DeployWeb { web_port } ==> web_port == opts.web_port
            &&& action matches SetupAction::Finish { web_port, .. } ==> web_port == opts.web_port
        }),
{
}

/// Setup hands the options on as given: k3s is installed with Traefik
/// disabled exactly where `--disable-traefik` was given and offline exactly
/// where `--offline` was; a browser is opened exactly where `--no-browser`
/// was not given.
pub proof fn law_setup_honours_flags(opts: SetupOptions, phase: SetupPhase, outcome: StepOutcome)
    ensures
        ({
            let (next, action) = setup_transition(opts, phase, outcome);
            &&& action matches SetupAction::InstallK3s { disable_traefik, offline } ==> (
            disable_traefik == opts.disable_traefik && offline == opts.offline)
            &&& action matches SetupAction::Finish { open_browser, .. } ==> open_browser
                == !opts.no_browser
        }),
        setup_transition(opts, SetupPhase::Preflight, StepOutcome::Succeeded).1 is InstallK3s
            ==> setup_transition(opts, SetupPhase::Preflight, StepOutcome::Succeeded).1
            == (SetupAction::InstallK3s {
            disable_traefik: opts.disable_traefik,
            offline: opts.offline,
        }),
{
}

/// Each step is reached from the step before it in the order of the
/// README's six phases: from a passed preflight either GPU detection or
/// (with `--skip-gpu`) k3s; from GPUs found, their preparation; k3s after
/// GPUs; the node wait after the kubeconfig; operators before the web
/// service; the web service last before the hand-off.
pub proof fn law_setup_step_order(opts: SetupOptions, outcome: StepOutcome)
    requires
        !(outcome is Failed),
    ensures
        setup_transition(opts, SetupPhase::Start, outcome) == (
            SetupPhase::Preflight,
            SetupAction::RunPreflight,
        ),
        setup_transition(opts, SetupPhase::DetectGpus, StepOutcome::Found(true)) == (
            SetupPhase::PrepareGpus,
            SetupAction::PrepareGpus,
        ),
        setup_transition(opts, SetupPhase::PrepareGpus, outcome).1 == (SetupAction::InstallK3s {
            disable_traefik: opts.disable_traefik,
            offline: opts.offline,
        }),
        setup_transition(opts, SetupPhase::InstallK3s { snippet: false }, StepOutcome::Found(true))
            == (SetupPhase::CopyKubeconfig { snippet: false }, SetupAction::CopyKubeconfig),
        setup_transition(opts, SetupPhase::CopyKubeconfig { snippet: false }, outcome) == (
            SetupPhase::WaitForNode { snippet: false },
            SetupAction::WaitForNode,
        ),
        setup_transition(opts, SetupPhase::WaitForNode { snippet: false }, outcome) == (
            SetupPhase::InstallOperators,
            SetupAction::InstallOperators,
        ),
        !opts.offline ==> setup_transition(opts, SetupPhase::InstallOperators, outcome) == (
            SetupPhase::DeployWeb,
            SetupAction::DeployWeb { web_port: opts.web_port },
        ),
        setup_transition(opts, SetupPhase::DeployWeb, outcome) == (
            SetupPhase::Done,
            SetupAction::Finish { open_browser: !opts.no_browser, web_port: opts.web_port },
        ),
{
}

/// Each `-v` raises the log level one step, from info to debug to trace,
/// and more stay at trace.
pub proof fn law_log_filter(verbose: u8)
    ensures
        log_filter_for(0) == "info"@,
        log_filter_for(1) == "debug"@,
        verbose >= 2 ==> log_filter_for(verbose) == "trace"@,
{
}

/// The dashboard is reached over HTTPS at the ingress host; the port is
/// written after a colon exactly when it is not 443.
pub proof fn law_dashboard_url(host: Seq<char>, port: u16)
    ensures
        dashboard_url(host, 443) == "https://"@ + host,
        port != 443 ==> dashboard_url(host, port) == "https://"@ + host + ":"@ + decimal(
            port as nat,
        ),
        port != 443 ==> dashboard_url(host, port).len() > ("https://"@ + host).len() + 1,
{
    crate::text::lemma_decimal_digits(port as nat);
    reveal_strlit(":");
}

} // verus!
