//! Shared data types and constants of FerrisHost.
use vstd::prelude::*;

verus! {

/// Information about a detected GPU.
#[derive(Debug, Clone)]
pub struct GpuInfo {
    /// "nvidia" or "amd".
    pub vendor: String,
    pub name: String,
    pub memory_mb: u64,
    pub index: u32,
}

/// Aggregated GPU status from all vendors.
#[derive(Debug, Clone)]
pub struct GpuStatus {
    pub detected: Vec<GpuInfo>,
    pub nvidia_available: bool,
    pub amd_available: bool,
}

/// Host OS and architecture information.
#[derive(Debug, Clone)]
pub struct HostInfo {
    /// "Linux".
    pub os: String,
    pub kernel_version: String,
    /// "x86_64" or "aarch64".
    pub arch: String,
    pub hostname: String,
}

/// Kubernetes node status summary.
#[derive(Debug, Clone)]
pub struct NodeStatus {
    pub name: String,
    pub ready: bool,
    pub cpu_millis: u32,
    pub memory_mb: u32,
}

/// Overall cluster status.
#[derive(Debug, Clone)]
pub struct ClusterStatus {
    pub k3s_installed: bool,
    pub k3s_version: Option<String>,
    pub nodes: Vec<NodeStatus>,
    pub all_nodes_ready: bool,
}

/// Descriptor for an optional module.
#[derive(Debug, Clone)]
pub struct ModuleDescriptor {
    pub id: String,
    pub name: String,
    pub description: String,
    /// "storage", "auth", "vpn", "app", etc.
    pub category: String,
    pub version: String,
    pub installed: bool,
}

/// Setup wizard state.
#[derive(Debug, Clone)]
pub struct SetupState {
    pub domain: Option<String>,
    pub tls_mode: TlsMode,
    pub admin_username: Option<String>,
    pub admin_password_hash: Option<String>,
    pub timezone: Option<String>,
    pub completed: bool,
}

/// How the web service obtains its TLS certificate.
#[derive(Debug, Clone, Copy, PartialEq, Eq, Structural)]
pub enum TlsMode {
    SelfSigned,
    LetsEncrypt,
}

/// The name of the namespace everything of FerrisHost lives in.
pub const NAMESPACE: &'static str = "ferrishost";

/// The name of the web service inside the cluster.
pub const WEB_SERVICE_NAME: &'static str = "ferrishost-web";

/// The lower-case name under which a TLS mode is exchanged as JSON.
pub open spec fn tls_mode_wire_name(m: TlsMode) -> Seq<char> {
    match m {
        TlsMode::SelfSigned => "selfsigned"@,
        TlsMode::LetsEncrypt => "letsencrypt"@,
    }
}

impl TlsMode {
    /// The lower-case name under which the mode is exchanged as JSON.
    pub fn wire_name(&self) -> (s: &'static str)
        ensures
            s@ == tls_mode_wire_name(*self),
    {
        match self {
            TlsMode::SelfSigned => "selfsigned",
            TlsMode::LetsEncrypt => "letsencrypt",
        }
    }
}

impl SetupState {
    /// The state of a wizard that has not been run: nothing chosen,
    /// a self-signed certificate, not completed.
    pub fn initial() -> (s: SetupState)
        ensures
            s.domain is None,
            s.tls_mode == TlsMode::SelfSigned,
            s.admin_username is None,
            s.admin_password_hash is None,
            s.timezone is None,
            !s.completed,
    {
        SetupState {
            domain: None,
            tls_mode: TlsMode::SelfSigned,
            admin_username: None,
            admin_password_hash: None,
            timezone: None,
            completed: false,
        }
    }
}

/// The TLS modes are exchanged as "selfsigned" and "letsencrypt", in lower
/// case, and the two names differ.
pub proof fn law_tls_mode_wire_names()
    ensures
        tls_mode_wire_name(TlsMode::SelfSigned) == "selfsigned"@,
        tls_mode_wire_name(TlsMode::LetsEncrypt) == "letsencrypt"@,
        tls_mode_wire_name(TlsMode::SelfSigned) != tls_mode_wire_name(TlsMode::LetsEncrypt),
{
    reveal_strlit("selfsigned");
    reveal_strlit("letsencrypt");
    assert("selfsigned"@[0] != "letsencrypt"@[0]);
}

} // verus!
