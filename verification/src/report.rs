//! What the `status` and `gpu` commands print.
use vstd::prelude::*;

use crate::gpu::{gpu_error_message, GpuError};
use crate::k3s::{exited_successfully, K3S_BINARY};
use crate::system::{system_error_message, SystemError, SystemInfo};
use crate::text::{
    decimal, decimal_string, decode_utf8_lossy, owned, str_eq, string_views, trim, trim_str,
    occurs_at, starts_with, utf8_lossy,
};
use crate::types::GpuInfo;

verus! {

/// The line that describes one GPU, after `indent`.
pub open spec fn gpu_line(indent: Seq<char>, g: GpuInfo) -> Seq<char> {
    indent + "["@ + decimal(g.index as nat) + "] "@ + g.vendor@ + " "@ + g.name@ + " ("@
        + decimal(g.memory_mb as nat) + " MB)"@
}

/// The lines that describe GPUs, one each, in order.
pub open spec fn gpu_lines(indent: Seq<char>, gpus: Seq<GpuInfo>) -> Seq<Seq<char>> {
    gpus.map_values(|g: GpuInfo| gpu_line(indent, g))
}

/// The line about the host.
pub open spec fn host_status_line(host: Result<SystemInfo, SystemError>) -> Seq<char> {
    match host {
        Ok(s) => "Host:   "@ + s.hostname@ + " / "@ + s.os@ + " "@ + s.kernel_version@ + " ("@
            + s.arch@ + ")"@,
        Err(e) => "Host:   detection failed — "@ + system_error_message(e@),
    }
}

/// The line about k3s.
pub open spec fn k3s_status_line(installed: bool) -> Seq<char> {
    if installed {
        "k3s:   installed at "@ + K3S_BINARY@
    } else {
        "k3s:   not installed"@
    }
}

/// The lines about the GPUs.
pub open spec fn gpu_status_lines(gpus: Result<Vec<GpuInfo>, GpuError>) -> Seq<Seq<char>> {
    match gpus {
        Ok(v) => if v@.len() == 0 {
            seq!["GPU:   none detected"@]
        } else {
            seq!["GPU:   "@ + decimal(v@.len()) + " detected"@] + gpu_lines("         "@, v@)
        },
        Err(e) => seq!["GPU:   detection error — "@ + gpu_error_message(e@)],
    }
}

/// What `ferrishost status` prints, line by line.
pub open spec fn status_report_lines(
    host: Result<SystemInfo, SystemError>,
    k3s_installed: bool,
    gpus: Result<Vec<GpuInfo>, GpuError>,
) -> Seq<Seq<char>> {
    seq!["FerrisHost Status"@, "================\n"@, host_status_line(host), k3s_status_line(
        k3s_installed,
    )] + gpu_status_lines(gpus)
}

/// What `ferrishost gpu` prints about the detected GPUs, line by line.
pub open spec fn gpu_listing_lines(gpus: Seq<GpuInfo>) -> Seq<Seq<char>> {
    if gpus.len() == 0 {
        seq!["GPU Detection"@, "=============\n"@, "No GPUs detected."@]
    } else {
        seq![
            "GPU Detection"@,
            "=============\n"@,
            "Detected "@ + decimal(gpus.len()) + " GPU(s):\n"@,
        ] + gpu_lines("  "@, gpus)
    }
}

/// The line that describes one GPU, after `indent`.
pub fn describe_gpu(indent: &str, g: &GpuInfo) -> (line: String)
    ensures
        line@ == gpu_line(indent@, *g),
{
    let mut line = owned(indent);
    line.append("[");
    let index = decimal_string(g.index as u64);
    line.append(index.as_str());
    line.append("] ");
    line.append(g.vendor.as_str());
    line.append(" ");
    line.append(g.name.as_str());
    line.append(" (");
    let memory = decimal_string(g.memory_mb);
    line.append(memory.as_str());
    line.append(" MB)");
    line
}

/// Appends the lines that describe `gpus` to `lines`.
fn push_gpu_lines(lines: &mut Vec<String>, indent: &str, gpus: &Vec<GpuInfo>)
    ensures
        string_views(final(lines)@) == string_views(old(lines)@) + gpu_lines(indent@, gpus@),
{
    let ghost start = string_views(lines@);
    let mut i: usize = 0;
    assert(gpu_lines(indent@, gpus@.take(0)) =~= Seq::<Seq<char>>::empty());
    assert(start + gpu_lines(indent@, gpus@.take(0)) =~= start);
    while i < gpus.len()
        invariant
            i <= gpus@.len(),
            string_views(lines@) == start + gpu_lines(indent@, gpus@.take(i as int)),
        decreases gpus@.len() - i,
    {
        let line = describe_gpu(indent, &gpus[i]);
        let ghost before = lines@;
        lines.push(line);
        proof {
            assert(string_views(lines@) =~= string_views(before).push(line@));
            assert(gpus@.take(i + 1) =~= gpus@.take(i as int).push(gpus@[i as int]));
            assert(gpu_lines(indent@, gpus@.take(i + 1)) =~= gpu_lines(
                indent@,
                gpus@.take(i as int),
            ).push(gpu_line(indent@, gpus@[i as int])));
        }
        i += 1;
    }
    assert(gpus@.take(gpus@.len() as int) =~= gpus@);
}

/// What `ferrishost status` prints, given what host detection, the look for
/// the k3s binary and GPU detection found.
pub fn status_report(
    host: &Result<SystemInfo, SystemError>,
    k3s_installed: bool,
    gpus: &Result<Vec<GpuInfo>, GpuError>,
) -> (lines: Vec<String>)
    ensures
        string_views(lines@) == status_report_lines(*host, k3s_installed, *gpus),
{
    let mut lines: Vec<String> = Vec::new();
    lines.push(owned("FerrisHost Status"));
    lines.push(owned("================\n"));
    let host_line = match host {
        Ok(s) => {
            let mut l = owned("Host:   ");
            l.append(s.hostname.as_str());
            l.append(" / ");
            l.append(s.os.as_str());
            l.append(" ");
            l.append(s.kernel_version.as_str());
            l.append(" (");
            l.append(s.arch.as_str());
            l.append(")");
            l
        },
        Err(e) => {
            let mut l = owned("Host:   detection failed — ");
            let m = e.message();
            l.append(m.as_str());
            l
        },
    };
    lines.push(host_line);
    if k3s_installed {
        let mut l = owned("k3s:   installed at ");
        l.append(K3S_BINARY);
        lines.push(l);
    } else {
        lines.push(owned("k3s:   not installed"));
    }
    let ghost head = string_views(lines@);
    match gpus {
        Ok(v) => {
            if v.len() == 0 {
                lines.push(owned("GPU:   none detected"));
            } else {
                let mut l = owned("GPU:   ");
                let n = decimal_string(v.len() as u64);
                l.append(n.as_str());
                l.append(" detected");
                lines.push(l);
                push_gpu_lines(&mut lines, "         ", v);
            }
        },
        Err(e) => {
            let mut l = owned("GPU:   detection error — ");
            let m = e.message();
            l.append(m.as_str());
            lines.push(l);
        },
    }
    assert(string_views(lines@) =~= status_report_lines(*host, k3s_installed, *gpus));
    lines
}

/// What `ferrishost gpu` prints about the detected GPUs.
pub fn gpu_listing(gpus: &Vec<GpuInfo>) -> (lines: Vec<String>)
    ensures
        string_views(lines@) == gpu_listing_lines(gpus@),
{
    let mut lines: Vec<String> = Vec::new();
    lines.push(owned("GPU Detection"));
    lines.push(owned("=============\n"));
    if gpus.len() == 0 {
        lines.push(owned("No GPUs detected."));
    } else {
        let mut l = owned("Detected ");
        let n = decimal_string(gpus.len() as u64);
        l.append(n.as_str());
        l.append(" GPU(s):\n");
        lines.push(l);
        push_gpu_lines(&mut lines, "  ", gpus);
    }
    assert(string_views(lines@) =~= gpu_listing_lines(gpus@));
    lines
}

/// The query of the web service's deployment that `status` makes.
pub const WEB_STATUS_QUERY: &'static str = "jsonpath={.status.availableReplicas}";

/// The line about ferrishost-web, from the query of its deployment's
/// available replicas: not deployed where the query failed (no cluster, or
/// no such deployment), not ready where no replica is available, running
/// otherwise.
pub open spec fn web_status_line_for(exit_code: Option<i32>, stdout: Seq<u8>) -> Seq<char> {
    let replicas = trim(utf8_lossy(stdout));
    if !exited_successfully(exit_code) {
        "Web:   not deployed"@
    } else if replicas.len() == 0 || replicas == "0"@ {
        "Web:   deployed, not ready"@
    } else {
        "Web:   running ("@ + replicas + " replica(s))"@
    }
}

/// The line about ferrishost-web that `status` prints last.
pub fn web_status_line(exit_code: Option<i32>, stdout: &[u8]) -> (line: String)
    ensures
        line@ == web_status_line_for(exit_code, stdout@),
{
    if exit_code != Some(0i32) {
        return owned("Web:   not deployed");
    }
    let text = decode_utf8_lossy(stdout);
    let replicas = trim_str(text.as_str());
    if replicas.is_empty() || str_eq(replicas, "0") {
        owned("Web:   deployed, not ready")
    } else {
        let mut line = owned("Web:   running (");
        line.append(replicas);
        line.append(" replica(s))");
        line
    }
}

/// The status report names the host, then k3s, then the GPUs: its fourth
/// line says "installed at /usr/local/bin/k3s" exactly where the k3s binary
/// was found and "not installed" otherwise, and every GPU found gets a line
/// of its own, in order.
pub proof fn law_status_report_lines(
    host: Result<SystemInfo, SystemError>,
    k3s_installed: bool,
    gpus: Result<Vec<GpuInfo>, GpuError>,
)
    ensures
        status_report_lines(host, k3s_installed, gpus)[0] == "FerrisHost Status"@,
        status_report_lines(host, k3s_installed, gpus)[2] == host_status_line(host),
        status_report_lines(host, k3s_installed, gpus)[3] == (if k3s_installed {
            "k3s:   installed at /usr/local/bin/k3s"@
        } else {
            "k3s:   not installed"@
        }),
        gpus matches Ok(v) ==> (v@.len() > 0 ==> {
            &&& status_report_lines(host, k3s_installed, gpus).len() == 5 + v@.len()
            &&& forall|i: int|
                0 <= i < v@.len() ==> status_report_lines(host, k3s_installed, gpus)[5 + i]
                    == #[trigger] gpu_line("         "@, v@[i])
        }),
        gpus matches Ok(v) ==> (v@.len() == 0 ==> status_report_lines(host, k3s_installed, gpus)
            == seq![
            "FerrisHost Status"@,
            "================\n"@,
            host_status_line(host),
            status_report_lines(host, k3s_installed, gpus)[3],
            "GPU:   none detected"@,
        ]),
        gpus is Err ==> status_report_lines(host, k3s_installed, gpus).len() == 5,
{
    reveal_strlit("/usr/local/bin/k3s");
    reveal_strlit("k3s:   installed at ");
    reveal_strlit("k3s:   installed at /usr/local/bin/k3s");
    assert("k3s:   installed at "@ + K3S_BINARY@ =~= "k3s:   installed at /usr/local/bin/k3s"@);
    let l = status_report_lines(host, k3s_installed, gpus);
    match gpus {
        Ok(v) => {
            if v@.len() > 0 {
                assert forall|i: int| 0 <= i < v@.len() implies l[5 + i] == #[trigger] gpu_line(
                    "         "@,
                    v@[i],
                ) by {
                    assert(gpu_lines("         "@, v@)[i] == gpu_line("         "@, v@[i]));
                }
            } else {
                assert(l =~= seq![
                    "FerrisHost Status"@,
                    "================\n"@,
                    host_status_line(host),
                    l[3],
                    "GPU:   none detected"@,
                ]);
            }
        },
        Err(_) => {},
    }
}

/// The line of a GPU shows, after the indent, its index in brackets, then
/// its vendor, then its name, then its memory in MB in parentheses.
pub proof fn law_gpu_line_shows_the_gpu(indent: Seq<char>, g: GpuInfo)
    ensures
        starts_with(gpu_line(indent, g), indent + "["@ + decimal(g.index as nat) + "] "@),
        occurs_at(
            gpu_line(indent, g),
            g.vendor@ + " "@ + g.name@ + " ("@,
            (indent.len() + 1 + decimal(g.index as nat).len() + 2) as int,
        ),
        ({
            let l = gpu_line(indent, g);
            let tail = decimal(g.memory_mb as nat) + " MB)"@;
            l.subrange(l.len() - tail.len(), l.len() as int) == tail
        }),
{
    reveal_strlit("[");
    reveal_strlit("] ");
    let head = indent + "["@ + decimal(g.index as nat) + "] "@;
    let mid = g.vendor@ + " "@ + g.name@ + " ("@;
    let tail = decimal(g.memory_mb as nat) + " MB)"@;
    let l = gpu_line(indent, g);
    assert(l =~= head + mid + tail);
    assert(l.subrange(0, head.len() as int) =~= head);
    assert(l.subrange(head.len() as int, (head.len() + mid.len()) as int) =~= mid);
    assert(l.subrange(l.len() - tail.len(), l.len() as int) =~= tail);
}

/// `ferrishost gpu` lists every detected GPU, one line each, in order,
/// after its three heading lines; where there is none, it says so.
pub proof fn law_gpu_listing_lists_every_gpu(gpus: Seq<GpuInfo>)
    ensures
        gpus.len() > 0 ==> {
            &&& gpu_listing_lines(gpus).len() == 3 + gpus.len()
            &&& gpu_listing_lines(gpus)[2] == "Detected "@ + decimal(gpus.len()) + " GPU(s):\n"@
            &&& forall|i: int|
                0 <= i < gpus.len() ==> gpu_listing_lines(gpus)[3 + i] == #[trigger] gpu_line(
                    "  "@,
                    gpus[i],
                )
        },
        gpus.len() == 0 ==> gpu_listing_lines(gpus) == seq![
            "GPU Detection"@,
            "=============\n"@,
            "No GPUs detected."@,
        ],
{
    if gpus.len() > 0 {
        assert forall|i: int| 0 <= i < gpus.len() implies gpu_listing_lines(gpus)[3 + i]
            == #[trigger] gpu_line("  "@, gpus[i]) by {
            assert(gpu_lines("  "@, gpus)[i] == gpu_line("  "@, gpus[i]));
        }
    }
}

} // verus!
