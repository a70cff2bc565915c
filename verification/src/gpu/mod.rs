//! GPU detection and host preparation.
pub mod amd;
pub mod nvidia;

use vstd::prelude::*;

use crate::text::{opt_view, owned, str_eq, string_views};
use crate::types::GpuInfo;
use nvidia::NVIDIA_RUNTIME_SNIPPET;

verus! {

/// What each GPU vendor offers the rest of setup.
pub trait GpuVendor {
    /// The containerd runtime configuration that the vendor needs, if any.
    fn containerd_runtime_snippet(&self) -> Option<String>;

    /// The manifests that run the vendor's device plugin in the cluster.
    fn cluster_manifests(&self) -> &'static str;

    /// The extended resource under which the cluster schedules the GPUs.
    fn resource_name(&self) -> &'static str;
}

/// Why GPU detection or host preparation failed.
#[derive(Debug)]
pub enum GpuError {
    /// `nvidia-smi` could not be run.
    NvidiaSmiNotFound,
    /// `/dev/kfd` does not exist, so there is no AMD GPU.
    NoAmdGpu,
    /// `/dev/kfd` does not exist.
    KfdNotFound,
    /// `/dev/dri` does not exist.
    DriNotFound,
    /// An NVIDIA GPU is listed but `nvidia-smi` cannot be run.
    NvidiaReportedWithoutSmi,
    /// An AMD GPU is listed but `/dev/kfd` does not exist.
    AmdReportedWithoutKfd,
    /// A command could not be run; `reason` is what the system said.
    CommandFailed { command: String, reason: String },
    /// A command printed something that is not UTF-8.
    InvalidOutput { command: String, detail: String },
    /// `/sys/class/drm` exists but could not be listed.
    DrmUnreadable { reason: String },
}

/// A `GpuError` as plain values.
pub enum GpuErrorView {
    NvidiaSmiNotFound,
    NoAmdGpu,
    KfdNotFound,
    DriNotFound,
    NvidiaReportedWithoutSmi,
    AmdReportedWithoutKfd,
    CommandFailed { command: Seq<char>, reason: Seq<char> },
    InvalidOutput { command: Seq<char>, detail: Seq<char> },
    DrmUnreadable { reason: Seq<char> },
}

impl View for GpuError {
    type V = GpuErrorView;

    open spec fn view(&self) -> GpuErrorView {
        match self {
            GpuError::NvidiaSmiNotFound => GpuErrorView::NvidiaSmiNotFound,
            GpuError::NoAmdGpu => GpuErrorView::NoAmdGpu,
            GpuError::KfdNotFound => GpuErrorView::KfdNotFound,
            GpuError::DriNotFound => GpuErrorView::DriNotFound,
            GpuError::NvidiaReportedWithoutSmi => GpuErrorView::NvidiaReportedWithoutSmi,
            GpuError::AmdReportedWithoutKfd => GpuErrorView::AmdReportedWithoutKfd,
            GpuError::CommandFailed { command, reason } => GpuErrorView::CommandFailed {
                command: command@,
                reason: reason@,
            },
            GpuError::InvalidOutput { command, detail } => GpuErrorView::InvalidOutput {
                command: command@,
                detail: detail@,
            },
            GpuError::DrmUnreadable { reason } => GpuErrorView::DrmUnreadable { reason: reason@ },
        }
    }
}

/// The text of an error, as the command line prints it.
pub open spec fn gpu_error_message(e: GpuErrorView) -> Seq<char> {
    match e {
        GpuErrorView::NvidiaSmiNotFound => "nvidia-smi not found"@,
        GpuErrorView::NoAmdGpu => "No AMD GPU detected (/dev/kfd not found)"@,
        GpuErrorView::KfdNotFound => "/dev/kfd not found"@,
        GpuErrorView::DriNotFound => "/dev/dri not found"@,
        GpuErrorView::NvidiaReportedWithoutSmi => "NVIDIA GPU reported but nvidia-smi not found"@,
        GpuErrorView::AmdReportedWithoutKfd => "AMD GPU reported but /dev/kfd not found"@,
        GpuErrorView::CommandFailed { command, reason } => reason,
        GpuErrorView::InvalidOutput { command, detail } => detail,
        GpuErrorView::DrmUnreadable { reason } => reason,
    }
}

/// The error beneath an error, where there is one: a listed vendor whose
/// detector cannot be made fails because of the detector's own error.
pub open spec fn gpu_error_cause(e: GpuErrorView) -> Option<Seq<char>> {
    match e {
        GpuErrorView::NvidiaReportedWithoutSmi => Some(gpu_error_message(GpuErrorView::NvidiaSmiNotFound)),
        GpuErrorView::AmdReportedWithoutKfd => Some(gpu_error_message(GpuErrorView::NoAmdGpu)),
        _ => None,
    }
}

impl GpuError {
    /// The text of the error beneath this one, as the command line prints it
    /// after "Caused by:", where there is one.
    pub fn cause(&self) -> (c: Option<&'static str>)
        ensures
            match c {
                Some(t) => gpu_error_cause(self@) == Some(t@),
                None => gpu_error_cause(self@) is None,
            },
    {
        match self {
            GpuError::NvidiaReportedWithoutSmi => Some("nvidia-smi not found"),
            GpuError::AmdReportedWithoutKfd => Some("No AMD GPU detected (/dev/kfd not found)"),
            _ => None,
        }
    }

    /// The text of the error, as the command line prints it.
    pub fn message(&self) -> (m: String)
        ensures
            m@ == gpu_error_message(self@),
    {
        match self {
            GpuError::NvidiaSmiNotFound => owned("nvidia-smi not found"),
            GpuError::NoAmdGpu => owned("No AMD GPU detected (/dev/kfd not found)"),
            GpuError::KfdNotFound => owned("/dev/kfd not found"),
            GpuError::DriNotFound => owned("/dev/dri not found"),
            GpuError::NvidiaReportedWithoutSmi => owned(
                "NVIDIA GPU reported but nvidia-smi not found",
            ),
            GpuError::AmdReportedWithoutKfd => owned("AMD GPU reported but /dev/kfd not found"),
            GpuError::CommandFailed { reason, .. } => reason.clone(),
            GpuError::InvalidOutput { detail, .. } => detail.clone(),
            GpuError::DrmUnreadable { reason } => reason.clone(),
        }
    }
}

/// What host preparation needs to know about the host, gathered by running
/// `nvidia-smi --version` and `which nvidia-ctk` and by looking for
/// `/dev/kfd` and `/dev/dri`.
#[derive(Debug)]
pub struct GpuHostProbe {
    /// `nvidia-smi` could be run.
    pub nvidia_smi_found: bool,
    /// Whether `which nvidia-ctk` found the container toolkit, or why it
    /// could not be run.
    pub nvidia_toolkit_lookup: Result<bool, String>,
    /// `/dev/kfd` exists.
    pub kfd_found: bool,
    /// `/dev/dri` exists.
    pub dri_found: bool,
}

/// The GPUs that a vendor's detection contributes: none where the vendor is
/// absent or its detection failed.
pub open spec fn detected_gpus(found: Option<Result<Vec<GpuInfo>, GpuError>>) -> Seq<GpuInfo> {
    match found {
        Some(Ok(gpus)) => gpus@,
        _ => Seq::empty(),
    }
}

/// The vendors of a list of GPUs.
pub open spec fn vendors_of(gpus: Seq<GpuInfo>) -> Seq<Seq<char>> {
    gpus.map_values(|g: GpuInfo| g.vendor@)
}

/// The elements of `s` without repetitions, each where it first occurs.
pub open spec fn distinct(s: Seq<Seq<char>>) -> Seq<Seq<char>>
    decreases s.len(),
{
    if s.len() == 0 {
        Seq::empty()
    } else {
        let d = distinct(s.drop_last());
        if d.contains(s.last()) {
            d
        } else {
            d.push(s.last())
        }
    }
}

/// Host preparation for one vendor, given the runtime snippet chosen so far:
/// NVIDIA needs `nvidia-smi` and a working `which`, and offers its runtime
/// snippet unless one was chosen already; AMD needs `/dev/kfd` and
/// `/dev/dri`; other vendors are skipped.
pub open spec fn vendor_step(
    snippet: Option<Seq<char>>,
    vendor: Seq<char>,
    host: GpuHostProbe,
) -> Result<Option<Seq<char>>, GpuErrorView> {
    if vendor == "nvidia"@ {
        if !host.nvidia_smi_found {
            Err(GpuErrorView::NvidiaReportedWithoutSmi)
        } else if host.nvidia_toolkit_lookup is Err {
            Err(
                GpuErrorView::CommandFailed {
                    command: "which nvidia-ctk"@,
                    reason: host.nvidia_toolkit_lookup->Err_0@,
                },
            )
        } else if snippet is None {
            Ok(Some(NVIDIA_RUNTIME_SNIPPET@))
        } else {
            Ok(snippet)
        }
    } else if vendor == "amd"@ {
        if !host.kfd_found {
            Err(GpuErrorView::AmdReportedWithoutKfd)
        } else if !host.dri_found {
            Err(GpuErrorView::DriNotFound)
        } else {
            Ok(snippet)
        }
    } else {
        Ok(snippet)
    }
}

/// Host preparation for each vendor in turn, stopping at the first failure.
pub open spec fn prepare_fold(vendors: Seq<Seq<char>>, host: GpuHostProbe) -> Result<
    Option<Seq<char>>,
    GpuErrorView,
>
    decreases vendors.len(),
{
    if vendors.len() == 0 {
        Ok(None)
    } else {
        match prepare_fold(vendors.drop_last(), host) {
            Ok(snippet) => vendor_step(snippet, vendors.last(), host),
            Err(e) => Err(e),
        }
    }
}

/// Host preparation for the GPUs of a list: for each vendor once, in the
/// order in which the vendors first occur.
pub open spec fn preparation_result(gpus: Seq<GpuInfo>, host: GpuHostProbe) -> Result<
    Option<Seq<char>>,
    GpuErrorView,
> {
    prepare_fold(distinct(vendors_of(gpus)), host)
}

/// The vendors for which FerrisHost has no host preparation (neither
/// NVIDIA nor AMD), in order.
pub open spec fn unknown_vendors_of(vendors: Seq<Seq<char>>) -> Seq<Seq<char>>
    decreases vendors.len(),
{
    if vendors.len() == 0 {
        Seq::empty()
    } else {
        let init = unknown_vendors_of(vendors.drop_last());
        if vendors.last() == "nvidia"@ || vendors.last() == "amd"@ {
            init
        } else {
            init.push(vendors.last())
        }
    }
}

/// Aggregates detection of GPUs across vendors.
#[derive(Debug)]
pub struct GpuDetector;

impl GpuDetector {
    /// All GPUs found: those of NVIDIA, then those of AMD. `None` stands for
    /// a vendor whose detector could not be created; a vendor whose
    /// detection failed contributes nothing either.
    pub fn detect_all(
        nvidia: Option<Result<Vec<GpuInfo>, GpuError>>,
        amd: Option<Result<Vec<GpuInfo>, GpuError>>,
    ) -> (r: Result<Vec<GpuInfo>, GpuError>)
        ensures
            r matches Ok(gpus) && gpus@ == detected_gpus(nvidia) + detected_gpus(amd),
    {
        let mut detected: Vec<GpuInfo> = Vec::new();
        if let Some(Ok(mut gpus)) = nvidia {
            detected.append(&mut gpus);
        }
        if let Some(Ok(mut gpus)) = amd {
            detected.append(&mut gpus);
        }
        assert(detected@ =~= detected_gpus(nvidia) + detected_gpus(amd));
        Ok(detected)
    }

    /// The vendors of `gpus`, each once, in the order of first occurrence.
    pub fn distinct_vendors(gpus: &[GpuInfo]) -> (vendors: Vec<String>)
        ensures
            string_views(vendors@) == distinct(vendors_of(gpus@)),
    {
        let mut vendors: Vec<String> = Vec::new();
        let mut i: usize = 0;
        assert(vendors_of(gpus@).take(0) =~= Seq::<Seq<char>>::empty());
        assert(string_views(vendors@) =~= Seq::<Seq<char>>::empty());
        while i < gpus.len()
            invariant
                i <= gpus@.len(),
                string_views(vendors@) == distinct(vendors_of(gpus@).take(i as int)),
            decreases gpus@.len() - i,
        {
            let vendor = gpus[i].vendor.as_str();
            let ghost seen = string_views(vendors@);
            let mut j: usize = 0;
            let mut found = false;
            while j < vendors.len()
                invariant
                    j <= vendors@.len(),
                    seen == string_views(vendors@),
                    found <==> exists|k: int| 0 <= k < j && seen[k] == vendor@,
                decreases vendors@.len() - j,
            {
                let same = str_eq(vendors[j].as_str(), vendor);
                proof {
                    assert(seen[j as int] == vendors@[j as int]@);
                }
                if same {
                    found = true;
                }
                j += 1;
            }
            proof {
                let pre = vendors_of(gpus@).take(i + 1);
                assert(pre.drop_last() =~= vendors_of(gpus@).take(i as int));
                assert(pre.last() == vendor@);
                if found {
                    let k = choose|k: int| 0 <= k < j && seen[k] == vendor@;
                    assert(seen.contains(vendor@));
                } else {
                    assert forall|k: int| 0 <= k < seen.len() implies seen[k] != vendor@ by {}
                    assert(!seen.contains(vendor@));
                }
            }
            if !found {
                let v = owned(vendor);
                vendors.push(v);
                assert(string_views(vendors@) =~= seen.push(vendor@));
            }
            i += 1;
        }
        assert(vendors_of(gpus@).take(gpus@.len() as int) =~= vendors_of(gpus@));
        vendors
    }

    /// The vendors of `gpus` that host preparation skips, each once, in the
    /// order of first occurrence.
    pub fn unknown_vendors(gpus: &[GpuInfo]) -> (unknown: Vec<String>)
        ensures
            string_views(unknown@) == unknown_vendors_of(distinct(vendors_of(gpus@))),
    {
        let vendors = Self::distinct_vendors(gpus);
        let ghost all = distinct(vendors_of(gpus@));
        let mut unknown: Vec<String> = Vec::new();
        let mut i: usize = 0;
        assert(all.take(0) =~= Seq::<Seq<char>>::empty());
        assert(string_views(unknown@) =~= Seq::<Seq<char>>::empty());
        while i < vendors.len()
            invariant
                string_views(vendors@) == all,
                i <= vendors@.len(),
                string_views(unknown@) == unknown_vendors_of(all.take(i as int)),
            decreases vendors@.len() - i,
        {
            let vendor = vendors[i].as_str();
            proof {
                assert(all.take(i + 1).drop_last() =~= all.take(i as int));
                assert(all.take(i + 1).last() == vendor@);
            }
            if !str_eq(vendor, "nvidia") && !str_eq(vendor, "amd") {
                let ghost before = string_views(unknown@);
                unknown.push(owned(vendor));
                assert(string_views(unknown@) =~= before.push(vendor@));
            }
            i += 1;
        }
        assert(all.take(vendors@.len() as int) =~= all);
        unknown
    }

    /// Prepares the host for each GPU vendor in `gpus`, once per vendor in
    /// the order in which the vendors first occur, and returns the containerd
    /// runtime snippet to apply to k3s (only NVIDIA provides one). The first
    /// vendor whose preparation fails decides the error.
    pub fn prepare_and_get_config(gpus: &[GpuInfo], host: &GpuHostProbe) -> (r: Result<
        Option<String>,
        GpuError,
    >)
        ensures
            r is Ok <==> preparation_result(gpus@, *host) is Ok,
            r matches Ok(s) ==> preparation_result(gpus@, *host) == Ok::<
                Option<Seq<char>>,
                GpuErrorView,
            >(opt_view(s)),
            r matches Err(e) ==> preparation_result(gpus@, *host) == Err::<
                Option<Seq<char>>,
                GpuErrorView,
            >(e@),
    {
        let vendors = Self::distinct_vendors(gpus);
        let ghost all = distinct(vendors_of(gpus@));
        let mut snippet: Option<String> = None;
        let mut i: usize = 0;
        assert(all.take(0) =~= Seq::<Seq<char>>::empty());
        while i < vendors.len()
            invariant
                string_views(vendors@) == all,
                all == distinct(vendors_of(gpus@)),
                i <= vendors@.len(),
                prepare_fold(all.take(i as int), *host) == Ok::<Option<Seq<char>>, GpuErrorView>(
                    opt_view(snippet),
                ),
            decreases vendors@.len() - i,
        {
            let vendor = vendors[i].as_str();
            proof {
                assert(all.take(i + 1).drop_last() =~= all.take(i as int));
                assert(all.take(i + 1).last() == vendor@);
                assert(prepare_fold(all.take(i + 1), *host) == vendor_step(
                    opt_view(snippet),
                    vendor@,
                    *host,
                ));
            }
            let ghost prefix = all.take(i + 1);
            if str_eq(vendor, "nvidia") {
                if !host.nvidia_smi_found {
                    proof {
                        lemma_fold_error_persists(all, i + 1, *host);
                    }
                    return Err(GpuError::NvidiaReportedWithoutSmi);
                }
                match &host.nvidia_toolkit_lookup {
                    Err(reason) => {
                        proof {
                            lemma_fold_error_persists(all, i + 1, *host);
                        }
                        return Err(
                            GpuError::CommandFailed {
                                command: owned("which nvidia-ctk"),
                                reason: reason.clone(),
                            },
                        );
                    },
                    Ok(_) => {},
                }
                if snippet.is_none() {
                    snippet = Some(owned(NVIDIA_RUNTIME_SNIPPET));
                }
            } else if str_eq(vendor, "amd") {
                if !host.kfd_found {
                    proof {
                        lemma_fold_error_persists(all, i + 1, *host);
                    }
                    return Err(GpuError::AmdReportedWithoutKfd);
                }
                if !host.dri_found {
                    proof {
                        lemma_fold_error_persists(all, i + 1, *host);
                    }
                    return Err(GpuError::DriNotFound);
                }
            }
            i += 1;
        }
        assert(all.take(vendors@.len() as int) =~= all);
        Ok(snippet)
    }
}

/// Once preparation has failed for a prefix of the vendors, it fails with
/// the same error for all of them.
proof fn lemma_fold_error_persists(vendors: Seq<Seq<char>>, k: int, host: GpuHostProbe)
    requires
        0 <= k <= vendors.len(),
        prepare_fold(vendors.take(k), host) is Err,
    ensures
        prepare_fold(vendors, host) == prepare_fold(vendors.take(k), host),
    decreases vendors.len(),
{
    if k < vendors.len() {
        let init = vendors.drop_last();
        assert(init.take(k) =~= vendors.take(k));
        lemma_fold_error_persists(init, k, host);
    } else {
        assert(vendors.take(k) =~= vendors);
    }
}

/// `distinct` keeps exactly the elements of its argument, each once.
pub proof fn law_distinct_vendors(s: Seq<Seq<char>>)
    ensures
        distinct(s).no_duplicates(),
        forall|v: Seq<char>| distinct(s).contains(v) <==> s.contains(v),
    decreases s.len(),
{
    if s.len() > 0 {
        let init = s.drop_last();
        let d = distinct(init);
        let x = s.last();
        law_distinct_vendors(init);
        assert forall|v: Seq<char>| s.contains(v) <==> (init.contains(v) || v == x) by {
            if s.contains(v) {
                let k = choose|k: int| 0 <= k < s.len() && s[k] == v;
                if k < init.len() {
                    assert(init[k] == v);
                }
            }
            if init.contains(v) {
                let k = choose|k: int| 0 <= k < init.len() && init[k] == v;
                assert(s[k] == v);
            }
            if v == x {
                assert(s[s.len() - 1] == v);
            }
        }
        if !d.contains(x) {
            let e = d.push(x);
            assert forall|v: Seq<char>| e.contains(v) <==> (d.contains(v) || v == x) by {
                if e.contains(v) {
                    let k = choose|k: int| 0 <= k < e.len() && e[k] == v;
                    if k < d.len() {
                        assert(d[k] == v);
                    }
                }
                if d.contains(v) {
                    let k = choose|k: int| 0 <= k < d.len() && d[k] == v;
                    assert(e[k] == v);
                }
                if v == x {
                    assert(e[d.len() as int] == v);
                }
            }
            assert forall|i: int, j: int|
                0 <= i < e.len() && 0 <= j < e.len() && i != j implies e[i] != e[j] by {
                if i == d.len() {
                    assert(e[j] == d[j]);
                    if e[i] == e[j] {
                        assert(d.contains(x));
                    }
                } else if j == d.len() {
                    assert(e[i] == d[i]);
                    if e[i] == e[j] {
                        assert(d.contains(x));
                    }
                } else {
                    assert(e[i] == d[i] && e[j] == d[j]);
                }
            }
        }
    }
}

/// Only an NVIDIA GPU yields a runtime snippet, and the snippet is NVIDIA's.
pub proof fn law_snippet_only_from_nvidia(vendors: Seq<Seq<char>>, host: GpuHostProbe)
    ensures
        prepare_fold(vendors, host) matches Ok(Some(s)) ==> s == NVIDIA_RUNTIME_SNIPPET@
            && vendors.contains("nvidia"@),
    decreases vendors.len(),
{
    if vendors.len() > 0 {
        let init = vendors.drop_last();
        law_snippet_only_from_nvidia(init, host);
        if prepare_fold(vendors, host) matches Ok(Some(s)) {
            if init.contains("nvidia"@) {
                let k = choose|k: int| 0 <= k < init.len() && init[k] == "nvidia"@;
                assert(vendors[k] == "nvidia"@);
            } else {
                assert(vendors[vendors.len() - 1] == "nvidia"@);
            }
        }
    }
}

/// Preparation succeeds where the checks of the listed vendors pass (those
/// of a vendor that is not listed do not matter), and yields the NVIDIA
/// runtime snippet exactly when an NVIDIA GPU is listed.
pub proof fn law_ready_host_prepares(vendors: Seq<Seq<char>>, host: GpuHostProbe)
    requires
        vendors.contains("nvidia"@) ==> host.nvidia_smi_found && host.nvidia_toolkit_lookup is Ok,
        vendors.contains("amd"@) ==> host.kfd_found && host.dri_found,
    ensures
        prepare_fold(vendors, host) == Ok::<Option<Seq<char>>, GpuErrorView>(
            if vendors.contains("nvidia"@) {
                Some(NVIDIA_RUNTIME_SNIPPET@)
            } else {
                None
            },
        ),
    decreases vendors.len(),
{
    if vendors.len() > 0 {
        let init = vendors.drop_last();
        if init.contains("nvidia"@) {
            let k = choose|k: int| 0 <= k < init.len() && init[k] == "nvidia"@;
            assert(vendors[k] == "nvidia"@);
        }
        if init.contains("amd"@) {
            let k = choose|k: int| 0 <= k < init.len() && init[k] == "amd"@;
            assert(vendors[k] == "amd"@);
        }
        law_ready_host_prepares(init, host);
        assert(vendors[vendors.len() - 1] == vendors.last());
        if vendors.contains("nvidia"@) && !init.contains("nvidia"@) {
            let k = choose|k: int| 0 <= k < vendors.len() && vendors[k] == "nvidia"@;
            if k < init.len() {
                assert(init[k] == "nvidia"@);
            }
            assert(vendors.last() == "nvidia"@);
        }
    }
}

/// For a list of GPUs: preparation succeeds where the checks of the vendors
/// that occur pass, once per vendor, and yields the NVIDIA runtime snippet
/// exactly when an NVIDIA GPU is listed.
pub proof fn law_listed_vendors_prepare(gpus: Seq<GpuInfo>, host: GpuHostProbe)
    requires
        vendors_of(gpus).contains("nvidia"@) ==> host.nvidia_smi_found
            && host.nvidia_toolkit_lookup is Ok,
        vendors_of(gpus).contains("amd"@) ==> host.kfd_found && host.dri_found,
    ensures
        preparation_result(gpus, host) == Ok::<Option<Seq<char>>, GpuErrorView>(
            if vendors_of(gpus).contains("nvidia"@) {
                Some(NVIDIA_RUNTIME_SNIPPET@)
            } else {
                None
            },
        ),
        distinct(vendors_of(gpus)).no_duplicates(),
{
    law_distinct_vendors(vendors_of(gpus));
    law_ready_host_prepares(distinct(vendors_of(gpus)), host);
}

/// A listed vendor whose check fails makes preparation fail: an NVIDIA GPU
/// without `nvidia-smi` or with a `which` that cannot run, an AMD GPU
/// without `/dev/kfd` or `/dev/dri`. Unknown vendors never fail it.
pub proof fn law_failed_check_fails_preparation(vendors: Seq<Seq<char>>, host: GpuHostProbe)
    ensures
        vendors.contains("nvidia"@) && (!host.nvidia_smi_found || host.nvidia_toolkit_lookup is Err)
            ==> prepare_fold(vendors, host) is Err,
        vendors.contains("amd"@) && (!host.kfd_found || !host.dri_found) ==> prepare_fold(
            vendors,
            host,
        ) is Err,
        (forall|i: int| 0 <= i < vendors.len() ==> #[trigger] vendors[i] != "nvidia"@ && vendors[i]
            != "amd"@) ==> prepare_fold(vendors, host) == Ok::<Option<Seq<char>>, GpuErrorView>(
            None,
        ),
    decreases vendors.len(),
{
    if vendors.len() > 0 {
        let init = vendors.drop_last();
        law_failed_check_fails_preparation(init, host);
        assert(vendors[vendors.len() - 1] == vendors.last());
        reveal_strlit("amd");
        reveal_strlit("nvidia");
        assert("amd"@ != "nvidia"@) by {
            assert("amd"@.len() != "nvidia"@.len());
        }
        if vendors.contains("nvidia"@) && !init.contains("nvidia"@) {
            let k = choose|k: int| 0 <= k < vendors.len() && vendors[k] == "nvidia"@;
            if k < init.len() {
                assert(init[k] == "nvidia"@);
            }
        }
        if vendors.contains("amd"@) && !init.contains("amd"@) {
            let k = choose|k: int| 0 <= k < vendors.len() && vendors[k] == "amd"@;
            if k < init.len() {
                assert(init[k] == "amd"@);
            }
        }
        if forall|i: int| 0 <= i < vendors.len() ==> #[trigger] vendors[i] != "nvidia"@
            && vendors[i] != "amd"@ {
            assert forall|i: int| 0 <= i < init.len() implies #[trigger] init[i] != "nvidia"@
                && init[i] != "amd"@ by {
                assert(init[i] == vendors[i]);
            }
        }
    }
}

} // verus!
