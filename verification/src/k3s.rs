//! Installing k3s and waiting for its node.
use vstd::prelude::*;

use crate::text::{
    contains, contains_str, decimal, decimal_string, decode_utf8_lossy,
    exit_code_string, exit_code_text, owned, utf8_lossy,
};

verus! {

/// Where the k3s binary is after installation.
pub const K3S_BINARY: &'static str = "/usr/local/bin/k3s";

/// The official k3s install script.
pub const K3S_INSTALL_URL: &'static str = "https://get.k3s.io";

/// The kubeconfig that k3s writes.
pub const KUBECONFIG_SRC: &'static str = "/etc/rancher/k3s/k3s.yaml";

/// How long (seconds) to wait for the node to become ready by default.
pub const READY_TIMEOUT_SECS: u64 = 120;

/// How long (seconds) to wait between two readiness checks.
pub const READY_POLL_INTERVAL_SECS: u64 = 5;

/// The query that prints the `Ready` condition of every node.
pub const NODE_READY_QUERY: &'static str =
    "jsonpath={.items[*].status.conditions[?(@.type=='Ready')].status}";

/// Why installing or starting k3s failed.
#[derive(Debug)]
pub enum K3sError {
    /// `curl` could not download the install script.
    DownloadFailed { exit_code: Option<i32>, stderr: String },
    /// The install script failed.
    ScriptFailed { exit_code: Option<i32> },
    /// The node did not become ready in time.
    TimedOut { timeout_secs: u64 },
    /// `~/.kube` could not be created.
    KubeDirFailed,
}

/// A `K3sError` as plain values.
pub enum K3sErrorView {
    DownloadFailed { exit_code: Option<i32>, stderr: Seq<char> },
    ScriptFailed { exit_code: Option<i32> },
    TimedOut { timeout_secs: u64 },
    KubeDirFailed,
}

impl View for K3sError {
    type V = K3sErrorView;

    open spec fn view(&self) -> K3sErrorView {
        match self {
            K3sError::DownloadFailed { exit_code, stderr } => K3sErrorView::DownloadFailed {
                exit_code: *exit_code,
                stderr: stderr@,
            },
            K3sError::ScriptFailed { exit_code } => K3sErrorView::ScriptFailed {
                exit_code: *exit_code,
            },
            K3sError::TimedOut { timeout_secs } => K3sErrorView::TimedOut {
                timeout_secs: *timeout_secs,
            },
            K3sError::KubeDirFailed => K3sErrorView::KubeDirFailed,
        }
    }
}

/// The text of an error, as the command line prints it.
pub open spec fn k3s_error_message(e: K3sErrorView) -> Seq<char> {
    match e {
        K3sErrorView::DownloadFailed { exit_code, stderr } =>
            "failed to download k3s install script (curl exited "@ + exit_code_text(exit_code)
            + ")\n"@ + stderr,
        K3sErrorView::ScriptFailed { exit_code } => "k3s install script failed (exit "@
            + exit_code_text(exit_code) + ")"@,
        K3sErrorView::TimedOut { timeout_secs } => "timed out after "@ + decimal(
            timeout_secs as nat,
        ) + "s waiting for node to become ready"@,
        K3sErrorView::KubeDirFailed => "failed to create ~/.kube directory"@,
    }
}

impl K3sError {
    /// The text of the error, as the command line prints it.
    pub fn message(&self) -> (m: String)
        ensures
            m@ == k3s_error_message(self@),
    {
        match self {
            K3sError::DownloadFailed { exit_code, stderr } => {
                let mut m = owned("failed to download k3s install script (curl exited ");
                let code = exit_code_string(*exit_code);
                m.append(code.as_str());
                m.append(")\n");
                m.append(stderr.as_str());
                m
            },
            K3sError::ScriptFailed { exit_code } => {
                let mut m = owned("k3s install script failed (exit ");
                let code = exit_code_string(*exit_code);
                m.append(code.as_str());
                m.append(")");
                m
            },
            K3sError::TimedOut { timeout_secs } => {
                let mut m = owned("timed out after ");
                let secs = decimal_string(*timeout_secs);
                m.append(secs.as_str());
                m.append("s waiting for node to become ready");
                m
            },
            K3sError::KubeDirFailed => owned("failed to create ~/.kube directory"),
        }
    }
}

/// What installation has to do.
#[derive(Debug, Clone, Copy, PartialEq, Eq, Structural)]
pub enum K3sInstallStep {
    /// k3s is there already: nothing to do.
    AlreadyInstalled,
    /// Download the install script and run it.
    Download,
    /// k3s is missing, but the network may not be used: the download is
    /// skipped, and with it everything that needs the cluster.
    SkipOffline,
}

/// What copying the kubeconfig has to do.
#[derive(Debug, Clone, Copy, PartialEq, Eq, Structural)]
pub enum KubeconfigStep {
    /// `~/.kube/config` exists already: leave it.
    KeepExisting,
    /// k3s has not written its kubeconfig (yet): nothing to copy.
    SourceMissing,
    /// Copy the kubeconfig of k3s to `~/.kube/config`.
    Copy,
}

/// A process ended well: with exit code 0.
pub open spec fn exited_successfully(code: Option<i32>) -> bool {
    code == Some(0i32)
}

/// Whether something exists at `path`, as `std::path::Path::exists` finds
/// the file system at the moment of the call. Nothing is stated of the
/// answer: it is what is on disk.
#[verifier::external_body]
fn path_exists(path: &str) -> (b: bool) {
    std::path::Path::new(path).exists()
}

/// Installs k3s and watches its node.
pub struct K3s;

impl K3s {
    /// Whether the k3s binary is on the host: whether `K3S_BINARY` exists.
    pub fn is_installed() -> (b: bool) {
        path_exists(K3S_BINARY)
    }

    /// Installation is a no-op where k3s is installed; otherwise it needs the
    /// network, and offline it is skipped.
    pub fn install_plan(installed: bool, offline: bool) -> (r: K3sInstallStep)
        ensures
            r == (if installed {
                K3sInstallStep::AlreadyInstalled
            } else if offline {
                K3sInstallStep::SkipOffline
            } else {
                K3sInstallStep::Download
            }),
    {
        if installed {
            K3sInstallStep::AlreadyInstalled
        } else if offline {
            K3sInstallStep::SkipOffline
        } else {
            K3sInstallStep::Download
        }
    }

    /// The value of `INSTALL_K3S_EXEC` for the install script.
    pub fn install_exec(disable_traefik: bool) -> (s: &'static str)
        ensures
            s@ == (if disable_traefik {
                "--disable traefik"@
            } else {
                ""@
            }),
    {
        if disable_traefik {
            "--disable traefik"
        } else {
            ""
        }
    }

    /// The download of the install script succeeded, or what `curl` said.
    pub fn download_outcome(exit_code: Option<i32>, stderr: &[u8]) -> (r: Result<(), K3sError>)
        ensures
            r is Ok <==> exited_successfully(exit_code),
            r matches Err(e) ==> e@ == (K3sErrorView::DownloadFailed {
                exit_code,
                stderr: utf8_lossy(stderr@),
            }),
    {
        if exit_code == Some(0i32) {
            Ok(())
        } else {
            Err(K3sError::DownloadFailed { exit_code, stderr: decode_utf8_lossy(stderr) })
        }
    }

    /// The install script succeeded, or how it ended.
    pub fn script_outcome(exit_code: Option<i32>) -> (r: Result<(), K3sError>)
        ensures
            r is Ok <==> exited_successfully(exit_code),
            r matches Err(e) ==> e@ == (K3sErrorView::ScriptFailed { exit_code }),
    {
        if exit_code == Some(0i32) {
            Ok(())
        } else {
            Err(K3sError::ScriptFailed { exit_code })
        }
    }

    /// Waiting goes on while no more than `timeout_secs` have passed.
    pub fn poll_deadline(elapsed_secs: u64, timeout_secs: u64) -> (r: Result<(), K3sError>)
        ensures
            r is Ok <==> elapsed_secs <= timeout_secs,
            r matches Err(e) ==> e@ == (K3sErrorView::TimedOut { timeout_secs }),
    {
        if elapsed_secs > timeout_secs {
            Err(K3sError::TimedOut { timeout_secs })
        } else {
            Ok(())
        }
    }

    /// A node is ready where the query of node conditions succeeded and
    /// printed "True".
    pub fn nodes_ready(exit_code: Option<i32>, stdout: &[u8]) -> (b: bool)
        ensures
            b == (exited_successfully(exit_code) && contains(utf8_lossy(stdout@), "True"@)),
    {
        if exit_code != Some(0i32) {
            return false;
        }
        let text = decode_utf8_lossy(stdout);
        contains_str(text.as_str(), "True")
    }

    /// The home directory that `~/.kube` lives in: `$HOME`, or `/root`.
    pub fn kubeconfig_home(home: Option<String>) -> (h: String)
        ensures
            h@ == (match home {
                Some(v) => v@,
                None => "/root"@,
            }),
    {
        match home {
            Some(v) => v,
            None => owned("/root"),
        }
    }

    /// What copying the kubeconfig has to do.
    pub fn kubeconfig_step(target_exists: bool, source_exists: bool) -> (s: KubeconfigStep)
        ensures
            s == (if target_exists {
                KubeconfigStep::KeepExisting
            } else if !source_exists {
                KubeconfigStep::SourceMissing
            } else {
                KubeconfigStep::Copy
            }),
    {
        if target_exists {
            KubeconfigStep::KeepExisting
        } else if !source_exists {
            KubeconfigStep::SourceMissing
        } else {
            KubeconfigStep::Copy
        }
    }
}

/// What happened last while installing k3s.
#[derive(Debug, Clone, Copy, PartialEq, Eq, Structural)]
pub enum InstallEvent {
    /// Installation begins; whether the k3s binary is there.
    Begin { installed: bool },
    /// `curl` fetched the install script and exited with this code.
    Downloaded { exit_code: Option<i32> },
    /// The install script exited with this code.
    ScriptExited { exit_code: Option<i32> },
}

/// What installing k3s does next.
#[derive(Debug, Clone, Copy, PartialEq, Eq, Structural)]
pub enum InstallAction {
    /// Fetch the install script with `curl`.
    Download,
    /// Run the fetched script with `sh`, with `INSTALL_K3S_EXEC` set.
    RunScript,
    /// Installation is over; whether k3s is there (it is not where the
    /// download was skipped offline).
    Finish { k3s_present: bool },
}

/// The step of installing k3s after `event`, or the error that ends it;
/// `stderr` is what `curl` printed on stderr, for a download.
pub open spec fn install_transition(offline: bool, event: InstallEvent, stderr: Seq<u8>) -> Result<
    InstallAction,
    K3sErrorView,
> {
    match event {
        InstallEvent::Begin { installed } => if installed {
            Ok(InstallAction::Finish { k3s_present: true })
        } else if offline {
            Ok(InstallAction::Finish { k3s_present: false })
        } else {
            Ok(InstallAction::Download)
        },
        InstallEvent::Downloaded { exit_code } => if exited_successfully(exit_code) {
            Ok(InstallAction::RunScript)
        } else {
            Err(K3sErrorView::DownloadFailed { exit_code, stderr: utf8_lossy(stderr) })
        },
        InstallEvent::ScriptExited { exit_code } => if exited_successfully(exit_code) {
            Ok(InstallAction::Finish { k3s_present: true })
        } else {
            Err(K3sErrorView::ScriptFailed { exit_code })
        },
    }
}

/// The view of the outcome of an installation step.
pub open spec fn install_result_view(r: Result<InstallAction, K3sError>) -> Result<
    InstallAction,
    K3sErrorView,
> {
    match r {
        Ok(a) => Ok(a),
        Err(e) => Err(e@),
    }
}

/// What happened last while waiting for the node.
#[derive(Debug, Clone, Copy, PartialEq, Eq, Structural)]
pub enum WaitEvent {
    /// Waiting begins.
    Begin,
    /// The node was queried; whether it reported ready (`nodes_ready`).
    Polled { ready: bool },
    /// The pause between two queries is over.
    Slept,
}

/// What waiting for the node does next.
#[derive(Debug, Clone, Copy, PartialEq, Eq, Structural)]
pub enum WaitAction {
    /// Query the node's readiness.
    Poll,
    /// Pause `READY_POLL_INTERVAL_SECS` seconds.
    Sleep,
    /// The node is ready: waiting succeeded.
    Ready,
}

/// The step of waiting after `event`, `elapsed_secs` after waiting began:
/// before each query the deadline is checked, a ready node ends the wait,
/// and a node not ready yet is queried again after a pause.
pub open spec fn wait_transition(elapsed_secs: u64, timeout_secs: u64, event: WaitEvent) -> Result<
    WaitAction,
    K3sErrorView,
> {
    match event {
        WaitEvent::Polled { ready } => if ready {
            Ok(WaitAction::Ready)
        } else {
            Ok(WaitAction::Sleep)
        },
        _ => if elapsed_secs > timeout_secs {
            Err(K3sErrorView::TimedOut { timeout_secs })
        } else {
            Ok(WaitAction::Poll)
        },
    }
}

/// The view of the outcome of a waiting step.
pub open spec fn wait_result_view(r: Result<WaitAction, K3sError>) -> Result<
    WaitAction,
    K3sErrorView,
> {
    match r {
        Ok(a) => Ok(a),
        Err(e) => Err(e@),
    }
}

impl K3s {
    /// The next step of installing k3s, or the error that ends it.
    pub fn install_next(offline: bool, event: InstallEvent, stderr: &[u8]) -> (r: Result<
        InstallAction,
        K3sError,
    >)
        ensures
            install_result_view(r) == install_transition(offline, event, stderr@),
    {
        match event {
            InstallEvent::Begin { installed } => match Self::install_plan(installed, offline) {
                K3sInstallStep::AlreadyInstalled => Ok(InstallAction::Finish { k3s_present: true }),
                K3sInstallStep::SkipOffline => Ok(InstallAction::Finish { k3s_present: false }),
                K3sInstallStep::Download => Ok(InstallAction::Download),
            },
            InstallEvent::Downloaded { exit_code } => match Self::download_outcome(exit_code, stderr) {
                Ok(()) => Ok(InstallAction::RunScript),
                Err(e) => Err(e),
            },
            InstallEvent::ScriptExited { exit_code } => match Self::script_outcome(exit_code) {
                Ok(()) => Ok(InstallAction::Finish { k3s_present: true }),
                Err(e) => Err(e),
            },
        }
    }

    /// The next step of waiting for the node, `elapsed_secs` after waiting
    /// began, or the time-out that ends it.
    pub fn wait_next(elapsed_secs: u64, timeout_secs: u64, event: WaitEvent) -> (r: Result<
        WaitAction,
        K3sError,
    >)
        ensures
            wait_result_view(r) == wait_transition(elapsed_secs, timeout_secs, event),
    {
        match event {
            WaitEvent::Polled { ready } => if ready {
                Ok(WaitAction::Ready)
            } else {
                Ok(WaitAction::Sleep)
            },
            _ => match Self::poll_deadline(elapsed_secs, timeout_secs) {
                Ok(()) => Ok(WaitAction::Poll),
                Err(e) => Err(e),
            },
        }
    }
}

/// Installing k3s succeeds exactly on these paths: k3s is there already;
/// it is missing offline, and the download is skipped; or it is missing,
/// the script is downloaded with exit code 0 and then runs with exit code
/// 0. A failed download ends installation before the script runs.
pub proof fn law_k3s_install_paths(
    offline: bool,
    installed: bool,
    download_code: Option<i32>,
    script_code: Option<i32>,
    stderr: Seq<u8>,
)
    ensures
        install_transition(offline, InstallEvent::Begin { installed }, stderr) == (if installed {
            Ok(InstallAction::Finish { k3s_present: true })
        } else if offline {
            Ok(InstallAction::Finish { k3s_present: false })
        } else {
            Ok::<InstallAction, K3sErrorView>(InstallAction::Download)
        }),
        install_transition(offline, InstallEvent::Downloaded { exit_code: download_code }, stderr)
            is Ok <==> download_code == Some(0i32),
        install_transition(offline, InstallEvent::Downloaded { exit_code: download_code }, stderr)
            matches Ok(a) ==> a == InstallAction::RunScript,
        install_transition(offline, InstallEvent::ScriptExited { exit_code: script_code }, stderr)
            == (if script_code == Some(0i32) {
            Ok(InstallAction::Finish { k3s_present: true })
        } else {
            Err(K3sErrorView::ScriptFailed { exit_code: script_code })
        }),
{
}

/// Waiting makes its first query at once, even with no time allowed;
/// waiting fails only on a deadline checked before a query, never because
/// a query failed; it succeeds only on a query that found the node ready.
pub proof fn law_wait_for_ready(elapsed_secs: u64, timeout_secs: u64, event: WaitEvent)
    ensures
        wait_transition(0, timeout_secs, WaitEvent::Begin) == Ok::<WaitAction, K3sErrorView>(
            WaitAction::Poll,
        ),
        wait_transition(elapsed_secs, timeout_secs, event) is Err ==> !(event is Polled)
            && elapsed_secs > timeout_secs,
        wait_transition(elapsed_secs, timeout_secs, event) == Ok::<WaitAction, K3sErrorView>(
            WaitAction::Ready,
        ) ==> event == (WaitEvent::Polled { ready: true }),
{
}

/// What happened last while copying the kubeconfig.
#[derive(Debug, Clone, Copy, PartialEq, Eq, Structural)]
pub enum KubeconfigEvent {
    /// Copying begins: whether `~/.kube/config` and k3s's kubeconfig exist.
    Begin { target_exists: bool, source_exists: bool },
    /// Creating `~/.kube` succeeded or failed.
    DirCreated { ok: bool },
    /// Copying the file succeeded or failed.
    Copied { ok: bool },
}

/// What copying the kubeconfig does next.
#[derive(Debug, Clone, Copy, PartialEq, Eq, Structural)]
pub enum KubeconfigAction {
    /// Create `~/.kube`.
    CreateDir,
    /// Copy k3s's kubeconfig there (and make it private to its owner).
    CopyFile,
    /// Done: the step that ended it (a kept file, a missing source, a copy,
    /// or a failed copy, which is only warned about).
    Finish { step: KubeconfigStep, copied: bool },
}

/// The next step of copying the kubeconfig after `event`, or the error
/// that ends it: only a `~/.kube` that cannot be created is an error.
pub open spec fn kubeconfig_transition(event: KubeconfigEvent) -> Result<
    KubeconfigAction,
    K3sErrorView,
> {
    match event {
        KubeconfigEvent::Begin { target_exists, source_exists } => if target_exists {
            Ok(KubeconfigAction::Finish { step: KubeconfigStep::KeepExisting, copied: false })
        } else if !source_exists {
            Ok(KubeconfigAction::Finish { step: KubeconfigStep::SourceMissing, copied: false })
        } else {
            Ok(KubeconfigAction::CreateDir)
        },
        KubeconfigEvent::DirCreated { ok } => if ok {
            Ok(KubeconfigAction::CopyFile)
        } else {
            Err(K3sErrorView::KubeDirFailed)
        },
        KubeconfigEvent::Copied { ok } => Ok(
            KubeconfigAction::Finish { step: KubeconfigStep::Copy, copied: ok },
        ),
    }
}

/// The view of the outcome of a kubeconfig step.
pub open spec fn kubeconfig_result_view(r: Result<KubeconfigAction, K3sError>) -> Result<
    KubeconfigAction,
    K3sErrorView,
> {
    match r {
        Ok(a) => Ok(a),
        Err(e) => Err(e@),
    }
}

impl K3s {
    /// The next step of copying the kubeconfig, or the error that ends it.
    pub fn kubeconfig_next(event: KubeconfigEvent) -> (r: Result<KubeconfigAction, K3sError>)
        ensures
            kubeconfig_result_view(r) == kubeconfig_transition(event),
    {
        match event {
            KubeconfigEvent::Begin { target_exists, source_exists } => match Self::kubeconfig_step(
                target_exists,
                source_exists,
            ) {
                KubeconfigStep::Copy => Ok(KubeconfigAction::CreateDir),
                step => Ok(KubeconfigAction::Finish { step, copied: false }),
            },
            KubeconfigEvent::DirCreated { ok } => if ok {
                Ok(KubeconfigAction::CopyFile)
            } else {
                Err(K3sError::KubeDirFailed)
            },
            KubeconfigEvent::Copied { ok } => Ok(
                KubeconfigAction::Finish { step: KubeconfigStep::Copy, copied: ok },
            ),
        }
    }
}

/// Copying the kubeconfig fails only where `~/.kube` cannot be created,
/// which is tried only where the target is missing and k3s's kubeconfig
/// exists; a failed copy still ends well.
pub proof fn law_kubeconfig_copy(event: KubeconfigEvent)
    ensures
        kubeconfig_transition(event) is Err <==> event == (KubeconfigEvent::DirCreated { ok: false }),
        kubeconfig_transition(event) == Ok::<KubeconfigAction, K3sErrorView>(
            KubeconfigAction::CreateDir,
        ) <==> event == (KubeconfigEvent::Begin { target_exists: false, source_exists: true }),
        kubeconfig_transition(KubeconfigEvent::Copied { ok: false }) is Ok,
{
}

} // verus!
