//! AMD GPUs, as the DRM devices under `/sys/class/drm` show them.
use vstd::prelude::*;

use crate::gpu::{GpuError, GpuErrorView, GpuVendor};
use crate::manifests::AMD_MANIFEST;
use crate::text::{decimal, decimal_string, owned, starts_with, starts_with_str, str_eq, trim, trim_str};
use crate::types::GpuInfo;

verus! {

/// The PCI vendor id of AMD.
pub const AMD_VENDOR_ID: &'static str = "0x1002";

/// One entry of `/sys/class/drm`.
#[derive(Debug)]
pub struct DrmEntry {
    /// The entry's file name, where it is valid UTF-8.
    pub file_name: Option<String>,
    /// The content of the entry's `device/vendor`, where it could be read.
    pub vendor_id: Option<String>,
}

/// What listing `/sys/class/drm` gave.
#[derive(Debug)]
pub enum DrmListing {
    /// The directory does not exist.
    Absent,
    /// The directory or one of its entries could not be read.
    Unreadable(String),
    /// The directory's entries, in the order in which they were listed.
    Entries(Vec<DrmEntry>),
}

/// A vendor id names AMD, surrounding white space aside.
pub open spec fn is_amd_vendor_id(v: Seq<char>) -> bool {
    trim(v) == AMD_VENDOR_ID@
}

/// A card (an entry named "card…") whose vendor is AMD.
pub open spec fn is_amd_card(e: DrmEntry) -> bool {
    match (e.file_name, e.vendor_id) {
        (Some(name), Some(vendor)) => starts_with(name@, "card"@) && is_amd_vendor_id(vendor@),
        _ => false,
    }
}

/// The number of AMD cards among the entries.
pub open spec fn amd_card_count(es: Seq<DrmEntry>) -> nat
    decreases es.len(),
{
    if es.len() == 0 {
        0
    } else {
        amd_card_count(es.drop_last()) + if is_amd_card(es.last()) {
            1nat
        } else {
            0nat
        }
    }
}

/// The name under which the `index`-th AMD GPU is reported.
pub open spec fn amd_gpu_name(index: u32) -> Seq<char> {
    "AMD Radeon GPU "@ + decimal(index as nat)
}

/// `gpus` are `n` AMD GPUs, numbered from 0, of unknown memory size.
pub open spec fn amd_gpus(gpus: Seq<GpuInfo>, n: nat) -> bool {
    &&& gpus.len() == n
    &&& forall|i: int|
        0 <= i < gpus.len() ==> {
            &&& (#[trigger] gpus[i]).vendor@ == "amd"@
            &&& gpus[i].name@ == amd_gpu_name(i as u32)
            &&& gpus[i].memory_mb == 0
            &&& gpus[i].index == i as u32
        }
}

/// Finds AMD GPUs through the kernel's DRM devices.
#[derive(Debug)]
pub struct AmdGpu;

impl AmdGpu {
    /// A detector, provided `/dev/kfd` exists.
    pub fn new(kfd_exists: bool) -> (r: Result<AmdGpu, GpuError>)
        ensures
            r is Ok <==> kfd_exists,
            r matches Err(e) ==> e@ == GpuErrorView::NoAmdGpu,
    {
        if kfd_exists {
            Ok(AmdGpu)
        } else {
            Err(GpuError::NoAmdGpu)
        }
    }

    /// Whether a PCI vendor id, as `device/vendor` holds it, is AMD's.
    pub fn is_amd_vendor(vendor_id: &str) -> (b: bool)
        ensures
            b == is_amd_vendor_id(vendor_id@),
    {
        str_eq(trim_str(vendor_id), AMD_VENDOR_ID)
    }

    /// Whether a DRM entry is an AMD card.
    pub fn is_amd_card(entry: &DrmEntry) -> (b: bool)
        ensures
            b == is_amd_card(*entry),
    {
        match (&entry.file_name, &entry.vendor_id) {
            (Some(name), Some(vendor)) => starts_with_str(name.as_str(), "card")
                && Self::is_amd_vendor(vendor.as_str()),
            _ => false,
        }
    }

    /// The AMD GPUs among the entries of `/sys/class/drm`: no GPU where the
    /// directory does not exist, an error where it could not be listed.
    pub fn detect(&self, drm: DrmListing) -> (r: Result<Vec<GpuInfo>, GpuError>)
        ensures
            drm is Absent ==> (r matches Ok(gpus) && gpus@.len() == 0),
            drm matches DrmListing::Unreadable(reason) ==> (r matches Err(e) && e@
                == (GpuErrorView::DrmUnreadable { reason: reason@ })),
            drm matches DrmListing::Entries(es) ==> (r matches Ok(gpus) && amd_gpus(
                gpus@,
                amd_card_count(es@),
            )),
    {
        match drm {
            DrmListing::Absent => Ok(Vec::new()),
            DrmListing::Unreadable(reason) => Err(GpuError::DrmUnreadable { reason }),
            DrmListing::Entries(entries) => {
                let mut gpus: Vec<GpuInfo> = Vec::new();
                let mut i: usize = 0;
                assert(entries@.take(0) =~= Seq::<DrmEntry>::empty());
                while i < entries.len()
                    invariant
                        i <= entries@.len(),
                        amd_gpus(gpus@, amd_card_count(entries@.take(i as int))),
                    decreases entries@.len() - i,
                {
                    proof {
                        assert(entries@.take(i + 1).drop_last() =~= entries@.take(i as int));
                        assert(entries@.take(i + 1).last() == entries@[i as int]);
                    }
                    if Self::is_amd_card(&entries[i]) {
                        let index = #[verifier::truncate] (gpus.len() as u32);
                        let mut name = owned("AMD Radeon GPU ");
                        let number = decimal_string(index as u64);
                        name.append(number.as_str());
                        gpus.push(
                            GpuInfo { vendor: owned("amd"), name, memory_mb: 0, index },
                        );
                    }
                    i += 1;
                }
                assert(entries@.take(entries@.len() as int) =~= entries@);
                Ok(gpus)
            },
        }
    }

    /// Host preparation: `/dev/kfd` and then `/dev/dri` must exist.
    pub fn prepare_host(&self, kfd_exists: bool, dri_exists: bool) -> (r: Result<(), GpuError>)
        ensures
            r is Ok <==> kfd_exists && dri_exists,
            !kfd_exists ==> (r matches Err(e) && e@ == GpuErrorView::KfdNotFound),
            kfd_exists && !dri_exists ==> (r matches Err(e) && e@ == GpuErrorView::DriNotFound),
    {
        if !kfd_exists {
            return Err(GpuError::KfdNotFound);
        }
        if !dri_exists {
            return Err(GpuError::DriNotFound);
        }
        Ok(())
    }
}

impl GpuVendor for AmdGpu {
    fn containerd_runtime_snippet(&self) -> (s: Option<String>)
        ensures
            s is None,
    {
        None
    }

    fn cluster_manifests(&self) -> (m: &'static str)
        ensures
            m@ == AMD_MANIFEST@,
    {
        AMD_MANIFEST
    }

    fn resource_name(&self) -> (n: &'static str)
        ensures
            n@ == "amd.com/gpu"@,
    {
        "amd.com/gpu"
    }
}

/// Only entries named "card…" whose vendor id reads 0x1002 (white space
/// aside) count as AMD GPUs: an entry without a readable name or vendor
/// never counts, and there are never more GPUs than entries.
pub proof fn law_amd_cards(es: Seq<DrmEntry>, e: DrmEntry)
    ensures
        amd_card_count(es) <= es.len(),
        amd_card_count(es.push(e)) == amd_card_count(es) + if is_amd_card(e) {
            1nat
        } else {
            0nat
        },
        is_amd_card(e) ==> (e.file_name matches Some(n) && starts_with(n@, "card"@))
            && (e.vendor_id matches Some(v) && trim(v@) == "0x1002"@),
        e.file_name is None || e.vendor_id is None ==> !is_amd_card(e),
    decreases es.len(),
{
    if es.len() > 0 {
        law_amd_cards(es.drop_last(), e);
    }
    assert(es.push(e).drop_last() =~= es);
    reveal_strlit("0x1002");
}

/// The AMD GPUs found are numbered from 0 in the order of their entries and
/// named after their number ("AMD Radeon GPU 0", "AMD Radeon GPU 1", …);
/// their memory is not known and reported as 0.
pub proof fn law_amd_gpu_names(gpus: Seq<GpuInfo>, n: nat, i: int)
    requires
        amd_gpus(gpus, n),
        0 <= i < n,
        n <= u32::MAX,
    ensures
        gpus[i].index == i,
        gpus[i].name@ == "AMD Radeon GPU "@ + decimal(i as nat),
        gpus[i].vendor@ == "amd"@,
        gpus[i].memory_mb == 0,
{
    assert(gpus[i].index == i as u32);
}

} // verus!
