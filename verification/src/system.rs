//! Preflight: what the host reports about itself, and whether FerrisHost
//! supports it.
use vstd::prelude::*;
use vstd::string::*;
use vstd::utf8::*;

use crate::text::{decode_utf8_bytes, owned, str_eq, trim, trim_str, utf8_error_text};
use crate::types::HostInfo;

verus! {

/// The host as `uname -s`, `uname -r`, `uname -m` and `hostname` report it.
#[derive(Debug)]
pub struct SystemInfo {
    pub os: String,
    pub kernel_version: String,
    pub arch: String,
    pub hostname: String,
}

/// Why detecting or validating the host failed.
#[derive(Debug)]
pub enum SystemError {
    /// The command could not be run; `reason` is what the system said.
    CommandFailed { command: String, reason: String },
    /// The command printed something that is not UTF-8; `detail` says where.
    InvalidOutput { command: String, detail: String },
    /// The operating system is not Linux.
    UnsupportedOs { detected: String },
    /// The architecture is neither x86_64 nor aarch64.
    UnsupportedArch { arch: String },
    /// Setup does not run as root; `uid` is the user id it runs as.
    NotRoot { uid: String },
}

/// A `SystemError` as plain text values.
pub enum SystemErrorView {
    CommandFailed { command: Seq<char>, reason: Seq<char> },
    InvalidOutput { command: Seq<char>, detail: Seq<char> },
    UnsupportedOs { detected: Seq<char> },
    UnsupportedArch { arch: Seq<char> },
    NotRoot { uid: Seq<char> },
}

impl View for SystemError {
    type V = SystemErrorView;

    open spec fn view(&self) -> SystemErrorView {
        match self {
            SystemError::CommandFailed { command, reason } => SystemErrorView::CommandFailed {
                command: command@,
                reason: reason@,
            },
            SystemError::InvalidOutput { command, detail } => SystemErrorView::InvalidOutput {
                command: command@,
                detail: detail@,
            },
            SystemError::UnsupportedOs { detected } => SystemErrorView::UnsupportedOs {
                detected: detected@,
            },
            SystemError::UnsupportedArch { arch } => SystemErrorView::UnsupportedArch {
                arch: arch@,
            },
            SystemError::NotRoot { uid } => SystemErrorView::NotRoot { uid: uid@ },
        }
    }
}

/// The text of an error, as the command line prints it.
pub open spec fn system_error_message(e: SystemErrorView) -> Seq<char> {
    match e {
        SystemErrorView::CommandFailed { command, reason } => reason,
        SystemErrorView::InvalidOutput { command, detail } => detail,
        SystemErrorView::UnsupportedOs { detected } => "FerrisHost only supports Linux (detected: "@
            + detected + ")"@,
        SystemErrorView::UnsupportedArch { arch } => "Unsupported architecture: "@ + arch
            + " (only x86_64/aarch64 supported)"@,
        SystemErrorView::NotRoot { uid } => "FerrisHost setup must run as root (running as uid "@
            + uid + ")"@,
    }
}

/// A command ran and printed UTF-8.
pub open spec fn command_output_ok(out: Result<Vec<u8>, String>) -> bool {
    out is Ok && valid_utf8(out->Ok_0@)
}

/// What a command printed, without surrounding white space.
pub open spec fn command_text(out: Result<Vec<u8>, String>) -> Seq<char> {
    trim(decode_utf8(out->Ok_0@))
}

/// The error for a command whose output cannot be used.
pub open spec fn command_failure(command: Seq<char>, out: Result<Vec<u8>, String>) -> SystemErrorView {
    match out {
        Err(reason) => SystemErrorView::CommandFailed { command, reason: reason@ },
        Ok(bytes) => SystemErrorView::InvalidOutput { command, detail: utf8_error_text(bytes@) },
    }
}

/// The standard name of an architecture: "arm64" is called "aarch64".
pub open spec fn normalized_arch(a: Seq<char>) -> Seq<char> {
    if a == "aarch64"@ || a == "arm64"@ {
        "aarch64"@
    } else {
        a
    }
}

pub open spec fn supported_arch(a: Seq<char>) -> bool {
    a == "x86_64"@ || a == "aarch64"@
}

/// FerrisHost runs on Linux on x86_64 or aarch64.
pub open spec fn supported_host(os: Seq<char>, arch: Seq<char>) -> bool {
    os == "Linux"@ && supported_arch(arch)
}

impl SystemError {
    /// The text of the error, as the command line prints it.
    pub fn message(&self) -> (m: String)
        ensures
            m@ == system_error_message(self@),
    {
        match self {
            SystemError::CommandFailed { reason, .. } => reason.clone(),
            SystemError::InvalidOutput { detail, .. } => detail.clone(),
            SystemError::UnsupportedOs { detected } => {
                let mut m = owned("FerrisHost only supports Linux (detected: ");
                m.append(detected.as_str());
                m.append(")");
                m
            },
            SystemError::UnsupportedArch { arch } => {
                let mut m = owned("Unsupported architecture: ");
                m.append(arch.as_str());
                m.append(" (only x86_64/aarch64 supported)");
                m
            },
            SystemError::NotRoot { uid } => {
                let mut m = owned("FerrisHost setup must run as root (running as uid ");
                m.append(uid.as_str());
                m.append(")");
                m
            },
        }
    }
}

/// The trimmed text a command printed, or why it cannot be used.
fn read_command(command: &str, out: Result<Vec<u8>, String>) -> (r: Result<String, SystemError>)
    ensures
        r is Ok <==> command_output_ok(out),
        r matches Ok(s) ==> s@ == command_text(out),
        r matches Err(e) ==> e@ == command_failure(command@, out),
{
    match out {
        Err(reason) => Err(SystemError::CommandFailed { command: owned(command), reason }),
        Ok(bytes) => match decode_utf8_bytes(bytes) {
            Err(detail) => Err(SystemError::InvalidOutput { command: owned(command), detail }),
            Ok(text) => Ok(owned(trim_str(text.as_str()))),
        },
    }
}

/// The standard name of the architecture that `uname -m` printed.
pub fn normalize_arch(raw: &str) -> (a: String)
    ensures
        a@ == normalized_arch(raw@),
{
    if str_eq(raw, "aarch64") || str_eq(raw, "arm64") {
        owned("aarch64")
    } else {
        owned(raw)
    }
}

impl SystemInfo {
    /// The host facts from the output of `uname -s`, `uname -r`, `uname -m`
    /// and `hostname`, taken in that order: each is what the command printed,
    /// or why it could not be run. The first output that cannot be used
    /// decides the error.
    pub fn detect(
        os_output: Result<Vec<u8>, String>,
        kernel_output: Result<Vec<u8>, String>,
        arch_output: Result<Vec<u8>, String>,
        hostname_output: Result<Vec<u8>, String>,
    ) -> (r: Result<SystemInfo, SystemError>)
        ensures
            r is Ok <==> command_output_ok(os_output) && command_output_ok(kernel_output)
                && command_output_ok(arch_output) && command_output_ok(hostname_output),
            r matches Ok(info) ==> {
                &&& info.os@ == command_text(os_output)
                &&& info.kernel_version@ == command_text(kernel_output)
                &&& info.arch@ == normalized_arch(command_text(arch_output))
                &&& info.hostname@ == command_text(hostname_output)
            },
            !command_output_ok(os_output) ==> (r matches Err(e) && e@ == command_failure(
                "uname -s"@,
                os_output,
            )),
            command_output_ok(os_output) && !command_output_ok(kernel_output) ==> (r matches Err(e)
                && e@ == command_failure("uname -r"@, kernel_output)),
            command_output_ok(os_output) && command_output_ok(kernel_output)
                && !command_output_ok(arch_output) ==> (r matches Err(e) && e@ == command_failure(
                "uname -m"@,
                arch_output,
            )),
            command_output_ok(os_output) && command_output_ok(kernel_output) && command_output_ok(
                arch_output,
            ) && !command_output_ok(hostname_output) ==> (r matches Err(e) && e@ == command_failure(
                "hostname"@,
                hostname_output,
            )),
    {
        let os = match read_command("uname -s", os_output) {
            Ok(s) => s,
            Err(e) => return Err(e),
        };
        let kernel_version = match read_command("uname -r", kernel_output) {
            Ok(s) => s,
            Err(e) => return Err(e),
        };
        let raw_arch = match read_command("uname -m", arch_output) {
            Ok(s) => s,
            Err(e) => return Err(e),
        };
        let arch = normalize_arch(raw_arch.as_str());
        let hostname = match read_command("hostname", hostname_output) {
            Ok(s) => s,
            Err(e) => return Err(e),
        };
        Ok(SystemInfo { os, kernel_version, arch, hostname })
    }

    /// Accepts Linux on x86_64 or aarch64; otherwise says which of the two is
    /// unsupported, the operating system first.
    pub fn validate(&self) -> (r: Result<(), SystemError>)
        ensures
            r is Ok <==> supported_host(self.os@, self.arch@),
            self.os@ != "Linux"@ ==> (r matches Err(e) && e@ == (SystemErrorView::UnsupportedOs {
                detected: self.os@,
            })),
            self.os@ == "Linux"@ && !supported_arch(self.arch@) ==> (r matches Err(e) && e@
                == (SystemErrorView::UnsupportedArch { arch: self.arch@ })),
    {
        if !str_eq(self.os.as_str(), "Linux") {
            return Err(SystemError::UnsupportedOs { detected: self.os.clone() });
        }
        if str_eq(self.arch.as_str(), "x86_64") || str_eq(self.arch.as_str(), "aarch64") {
            Ok(())
        } else {
            Err(SystemError::UnsupportedArch { arch: self.arch.clone() })
        }
    }

    /// The same facts as a `HostInfo`.
    pub fn to_host_info(&self) -> (h: HostInfo)
        ensures
            h.os@ == self.os@,
            h.kernel_version@ == self.kernel_version@,
            h.arch@ == self.arch@,
            h.hostname@ == self.hostname@,
    {
        HostInfo {
            os: self.os.clone(),
            kernel_version: self.kernel_version.clone(),
            arch: self.arch.clone(),
            hostname: self.hostname.clone(),
        }
    }
}

/// The preflight's root check, from what `id -u` printed: setup runs as
/// root exactly where the user id is 0.
pub fn require_root(uid_output: Result<Vec<u8>, String>) -> (r: Result<(), SystemError>)
    ensures
        r is Ok <==> command_output_ok(uid_output) && command_text(uid_output) == "0"@,
        !command_output_ok(uid_output) ==> (r matches Err(e) && e@ == command_failure(
            "id -u"@,
            uid_output,
        )),
        command_output_ok(uid_output) && command_text(uid_output) != "0"@ ==> (r matches Err(e)
            && e@ == (SystemErrorView::NotRoot { uid: command_text(uid_output) })),
{
    let uid = match read_command("id -u", uid_output) {
        Ok(s) => s,
        Err(e) => return Err(e),
    };
    if str_eq(uid.as_str(), "0") {
        Ok(())
    } else {
        Err(SystemError::NotRoot { uid })
    }
}

/// Normalizing an architecture name twice gives what normalizing once gives.
pub proof fn law_normalize_arch_idempotent(a: Seq<char>)
    ensures
        normalized_arch(normalized_arch(a)) == normalized_arch(a),
{
}

/// Preflight accepts the architecture that detection reports exactly when
/// `uname -m` printed "x86_64", "aarch64" or "arm64".
pub proof fn law_detected_arch_accepted(raw: Seq<char>)
    ensures
        supported_arch(normalized_arch(raw)) <==> (raw == "x86_64"@ || raw == "aarch64"@ || raw
            == "arm64"@),
{
    reveal_strlit("x86_64");
    reveal_strlit("aarch64");
    reveal_strlit("arm64");
    if raw == "arm64"@ {
        assert(normalized_arch(raw) == "aarch64"@);
    }
    assert("x86_64"@ != "aarch64"@) by {
        assert("x86_64"@[0] != "aarch64"@[0]);
    }
    assert("x86_64"@ != "arm64"@) by {
        assert("x86_64"@[0] != "arm64"@[0]);
    }
}

/// Normalization renames only "arm64", to "aarch64": every other
/// architecture name, "x86_64" among them, is kept as `uname -m` printed
/// it.
pub proof fn law_normalize_arch_renames_only_arm64(a: Seq<char>)
    ensures
        a != "arm64"@ ==> normalized_arch(a) == a,
        normalized_arch("arm64"@) == "aarch64"@,
        normalized_arch("x86_64"@) == "x86_64"@,
{
    reveal_strlit("x86_64");
    reveal_strlit("aarch64");
    reveal_strlit("arm64");
    assert("x86_64"@ != "aarch64"@) by {
        assert("x86_64"@[0] != "aarch64"@[0]);
    }
    assert("x86_64"@ != "arm64"@) by {
        assert("x86_64"@[0] != "arm64"@[0]);
    }
}

/// Preflight accepts exactly Linux on x86_64 or aarch64: any other
/// operating system is refused first, naming it; on Linux any other
/// architecture is refused, naming it.
pub proof fn law_preflight_accepts_linux_on_supported_arch(os: Seq<char>, arch: Seq<char>)
    ensures
        supported_host(os, arch) <==> os == "Linux"@ && (arch == "x86_64"@ || arch == "aarch64"@),
        supported_host("Linux"@, "x86_64"@),
        supported_host("Linux"@, "aarch64"@),
        !supported_host("Darwin"@, "x86_64"@),
        !supported_host("Linux"@, "arm64"@),
        !supported_host("Linux"@, "riscv64"@),
{
    reveal_strlit("Linux");
    reveal_strlit("Darwin");
    reveal_strlit("x86_64");
    reveal_strlit("aarch64");
    reveal_strlit("arm64");
    reveal_strlit("riscv64");
    assert("Darwin"@ != "Linux"@) by {
        assert("Darwin"@[0] != "Linux"@[0]);
    }
    assert("arm64"@ != "aarch64"@) by {
        assert("arm64"@.len() != "aarch64"@.len());
    }
    assert("arm64"@ != "x86_64"@) by {
        assert("arm64"@[0] != "x86_64"@[0]);
    }
    assert("riscv64"@ != "aarch64"@) by {
        assert("riscv64"@[0] != "aarch64"@[0]);
    }
    assert("riscv64"@ != "x86_64"@) by {
        assert("riscv64"@[0] != "x86_64"@[0]);
    }
}

} // verus!
