//! The core operators that setup installs into the cluster.
use vstd::prelude::*;

use crate::gpu::{distinct, law_distinct_vendors, vendors_of, GpuDetector};
use crate::manifests::{AMD_MANIFEST, CERT_MANAGER_MANIFEST, NVIDIA_MANIFEST, RBAC_MANIFEST};
use crate::text::{decode_utf8_lossy, owned, str_eq, trim, trim_str, utf8_lossy};
use crate::types::GpuInfo;
use crate::k3s::exited_successfully;

verus! {

/// A GPU device plugin to run in the cluster.
#[derive(Debug, Clone, Copy, PartialEq, Eq, Structural)]
pub enum GpuOperator {
    NvidiaDevicePlugin,
    AmdDevicePlugin,
}

/// The device plugin that a GPU vendor needs, if FerrisHost knows one.
pub open spec fn operator_for_vendor(vendor: Seq<char>) -> Option<GpuOperator> {
    if vendor == "nvidia"@ {
        Some(GpuOperator::NvidiaDevicePlugin)
    } else if vendor == "amd"@ {
        Some(GpuOperator::AmdDevicePlugin)
    } else {
        None
    }
}

/// The device plugins for the vendors, in their order; unknown vendors are
/// skipped.
pub open spec fn operators_for(vendors: Seq<Seq<char>>) -> Seq<GpuOperator>
    decreases vendors.len(),
{
    if vendors.len() == 0 {
        Seq::empty()
    } else {
        let init = operators_for(vendors.drop_last());
        match operator_for_vendor(vendors.last()) {
            Some(op) => init.push(op),
            None => init,
        }
    }
}

/// The manifests of a device plugin.
pub open spec fn operator_manifest(op: GpuOperator) -> Seq<char> {
    match op {
        GpuOperator::NvidiaDevicePlugin => NVIDIA_MANIFEST@,
        GpuOperator::AmdDevicePlugin => AMD_MANIFEST@,
    }
}

/// What a failure to apply a device plugin's manifests is reported as.
pub open spec fn operator_failure_context(op: GpuOperator) -> Seq<char> {
    match op {
        GpuOperator::NvidiaDevicePlugin => "failed to install NVIDIA device plugin"@,
        GpuOperator::AmdDevicePlugin => "failed to install AMD device plugin"@,
    }
}

/// One `kubectl apply` of the core operators: the manifests, and what a
/// failure is reported as.
#[derive(Debug, Clone, Copy)]
pub struct ManifestApply {
    pub manifest: &'static str,
    pub failure_context: &'static str,
}

/// An apply as plain text.
pub open spec fn apply_view(a: ManifestApply) -> (Seq<char>, Seq<char>) {
    (a.manifest@, a.failure_context@)
}

/// The applies of a device plugin.
pub open spec fn operator_apply(op: GpuOperator) -> (Seq<char>, Seq<char>) {
    (operator_manifest(op), operator_failure_context(op))
}

/// The core operators' applies for `gpus`, in order: cert-manager, then the
/// device plugin of each vendor (each once, in order of first occurrence),
/// then the RBAC manifests.
pub open spec fn core_applies(gpus: Seq<GpuInfo>) -> Seq<(Seq<char>, Seq<char>)> {
    seq![(CERT_MANAGER_MANIFEST@, "failed to install cert-manager"@)] + operators_for(
        distinct(vendors_of(gpus)),
    ).map_values(|op: GpuOperator| operator_apply(op)) + seq![
        (RBAC_MANIFEST@, "failed to apply RBAC manifests"@),
    ]
}

impl GpuOperator {
    /// The manifests that run the device plugin.
    pub fn manifest(&self) -> (m: &'static str)
        ensures
            m@ == operator_manifest(*self),
    {
        match self {
            GpuOperator::NvidiaDevicePlugin => NVIDIA_MANIFEST,
            GpuOperator::AmdDevicePlugin => AMD_MANIFEST,
        }
    }

    /// What a failure to apply the manifests is reported as.
    pub fn failure_context(&self) -> (m: &'static str)
        ensures
            m@ == operator_failure_context(*self),
    {
        match self {
            GpuOperator::NvidiaDevicePlugin => "failed to install NVIDIA device plugin",
            GpuOperator::AmdDevicePlugin => "failed to install AMD device plugin",
        }
    }
}

/// What the query of the metrics-server deployment showed.
#[derive(Debug)]
pub enum MetricsServerState {
    /// The query failed (the cluster may still be starting).
    Unqueryable,
    /// No replica is available yet.
    NotAvailable,
    /// This many replicas are available.
    Running(String),
}

/// `kubectl apply` failed; what it printed.
#[derive(Debug)]
pub struct ApplyError {
    pub stdout: String,
    pub stderr: String,
}

/// The text of an apply failure, as the command line prints it.
pub open spec fn apply_error_message(stdout: Seq<char>, stderr: Seq<char>) -> Seq<char> {
    "kubectl apply failed\nstdout: "@ + stdout + "\nstderr: "@ + stderr
}

impl ApplyError {
    /// The text of the error, as the command line prints it.
    pub fn message(&self) -> (m: String)
        ensures
            m@ == apply_error_message(self.stdout@, self.stderr@),
    {
        let mut m = owned("kubectl apply failed\nstdout: ");
        m.append(self.stdout.as_str());
        m.append("\nstderr: ");
        m.append(self.stderr.as_str());
        m
    }
}

/// Installs the core operators.
pub struct Operators;

impl Operators {
    /// The manifests of cert-manager.
    pub fn cert_manager_manifest() -> (m: &'static str)
        ensures
            m@ == CERT_MANAGER_MANIFEST@,
    {
        CERT_MANAGER_MANIFEST
    }

    /// The RBAC manifests: namespace, service account, cluster role and
    /// binding.
    pub fn rbac_manifest() -> (m: &'static str)
        ensures
            m@ == RBAC_MANIFEST@,
    {
        RBAC_MANIFEST
    }

    /// The device plugins to install for `gpus`: one per vendor that has one,
    /// in the order in which the vendors first occur; none for no GPU.
    pub fn gpu_operators(gpus: &[GpuInfo]) -> (ops: Vec<GpuOperator>)
        ensures
            ops@ == operators_for(distinct(vendors_of(gpus@))),
            gpus@.len() == 0 ==> ops@.len() == 0,
    {
        let mut ops: Vec<GpuOperator> = Vec::new();
        if gpus.len() == 0 {
            assert(vendors_of(gpus@) =~= Seq::<Seq<char>>::empty());
            return ops;
        }
        let vendors = GpuDetector::distinct_vendors(gpus);
        let ghost all = distinct(vendors_of(gpus@));
        let mut i: usize = 0;
        assert(all.take(0) =~= Seq::<Seq<char>>::empty());
        while i < vendors.len()
            invariant
                vendors@.map_values(|s: String| s@) == all,
                i <= vendors@.len(),
                ops@ == operators_for(all.take(i as int)),
            decreases vendors@.len() - i,
        {
            let vendor = vendors[i].as_str();
            proof {
                assert(all.take(i + 1).drop_last() =~= all.take(i as int));
                assert(all.take(i + 1).last() == vendor@);
            }
            if str_eq(vendor, "nvidia") {
                ops.push(GpuOperator::NvidiaDevicePlugin);
            } else if str_eq(vendor, "amd") {
                ops.push(GpuOperator::AmdDevicePlugin);
            }
            i += 1;
        }
        assert(all.take(vendors@.len() as int) =~= all);
        ops
    }

    /// The `kubectl apply` runs that install the core operators for `gpus`,
    /// in order.
    pub fn core_applies(gpus: &[GpuInfo]) -> (applies: Vec<ManifestApply>)
        ensures
            applies@.map_values(|a: ManifestApply| apply_view(a)) == core_applies(gpus@),
    {
        let mut applies: Vec<ManifestApply> = Vec::new();
        applies.push(
            ManifestApply {
                manifest: Self::cert_manager_manifest(),
                failure_context: "failed to install cert-manager",
            },
        );
        let ops = Self::gpu_operators(gpus);
        let mut i: usize = 0;
        while i < ops.len()
            invariant
                i <= ops@.len(),
                applies@.map_values(|a: ManifestApply| apply_view(a)) == seq![
                    (CERT_MANAGER_MANIFEST@, "failed to install cert-manager"@),
                ] + ops@.take(i as int).map_values(|op: GpuOperator| operator_apply(op)),
            decreases ops@.len() - i,
        {
            let op = ops[i];
            let ghost before = applies@;
            let manifest = op.manifest();
            let failure_context = op.failure_context();
            let apply = ManifestApply { manifest, failure_context };
            assert(apply_view(apply) == operator_apply(op));
            applies.push(apply);
            proof {
                assert(applies@.map_values(|a: ManifestApply| apply_view(a)) =~= before.map_values(|a: ManifestApply| apply_view(a)).push(operator_apply(op)));
                assert(ops@.take(i + 1).map_values(|op: GpuOperator| operator_apply(op)) =~= ops@.take(i as int).map_values(|op: GpuOperator| operator_apply(op)).push(
                    operator_apply(op),
                ));
                assert(ops@[i as int] == op);
            }
            i += 1;
        }
        let ghost before = applies@;
        applies.push(
            ManifestApply {
                manifest: Self::rbac_manifest(),
                failure_context: "failed to apply RBAC manifests",
            },
        );
        proof {
            assert(ops@.take(ops@.len() as int) =~= ops@);
            assert(applies@.map_values(|a: ManifestApply| apply_view(a)) =~= before.map_values(|a: ManifestApply| apply_view(a)).push(
                (RBAC_MANIFEST@, "failed to apply RBAC manifests"@),
            ));
            assert(applies@.map_values(|a: ManifestApply| apply_view(a)) =~= core_applies(gpus@));
        }
        applies
    }

    /// `kubectl apply` succeeded, or what it printed.
    pub fn apply_outcome(exit_code: Option<i32>, stdout: &[u8], stderr: &[u8]) -> (r: Result<
        (),
        ApplyError,
    >)
        ensures
            r is Ok <==> exited_successfully(exit_code),
            r matches Err(e) ==> e.stdout@ == utf8_lossy(stdout@) && e.stderr@ == utf8_lossy(
                stderr@,
            ),
    {
        if exit_code == Some(0i32) {
            Ok(())
        } else {
            Err(ApplyError { stdout: decode_utf8_lossy(stdout), stderr: decode_utf8_lossy(stderr) })
        }
    }

    /// What the metrics-server deployment's available replicas show: the
    /// count printed without surrounding white space, where it is neither
    /// empty nor "0".
    pub fn metrics_server_state(exit_code: Option<i32>, stdout: &[u8]) -> (s: MetricsServerState)
        ensures
            !exited_successfully(exit_code) ==> s is Unqueryable,
            exited_successfully(exit_code) ==> {
                let replicas = trim(utf8_lossy(stdout@));
                if replicas.len() == 0 || replicas == "0"@ {
                    s is NotAvailable
                } else {
                    s matches MetricsServerState::Running(r) && r@ == replicas
                }
            },
    {
        if exit_code != Some(0i32) {
            return MetricsServerState::Unqueryable;
        }
        let text = decode_utf8_lossy(stdout);
        let replicas = trim_str(text.as_str());
        if replicas.is_empty() || str_eq(replicas, "0") {
            MetricsServerState::NotAvailable
        } else {
            MetricsServerState::Running(owned(replicas))
        }
    }
}

/// There is a device plugin for a vendor exactly when it is NVIDIA or AMD,
/// and it is the vendor's own.
pub proof fn law_operators_match_vendors(vendors: Seq<Seq<char>>)
    ensures
        operators_for(vendors).contains(GpuOperator::NvidiaDevicePlugin) <==> vendors.contains(
            "nvidia"@,
        ),
        operators_for(vendors).contains(GpuOperator::AmdDevicePlugin) <==> vendors.contains(
            "amd"@,
        ),
        operators_for(vendors).len() <= vendors.len(),
    decreases vendors.len(),
{
    reveal_strlit("nvidia");
    reveal_strlit("amd");
    if vendors.len() > 0 {
        let init = vendors.drop_last();
        let x = vendors.last();
        law_operators_match_vendors(init);
        let ops = operators_for(init);
        assert forall|v: Seq<char>| vendors.contains(v) <==> (init.contains(v) || v == x) by {
            if vendors.contains(v) {
                let k = choose|k: int| 0 <= k < vendors.len() && vendors[k] == v;
                if k < init.len() {
                    assert(init[k] == v);
                }
            }
            if init.contains(v) {
                let k = choose|k: int| 0 <= k < init.len() && init[k] == v;
                assert(vendors[k] == v);
            }
            if v == x {
                assert(vendors[vendors.len() - 1] == v);
            }
        }
        assert forall|o: GpuOperator, y: GpuOperator| ops.push(y).contains(o) <==> (ops.contains(o) || o == y) by {
            let e = ops.push(y);
            if e.contains(o) {
                let k = choose|k: int| 0 <= k < e.len() && e[k] == o;
                if k < ops.len() {
                    assert(ops[k] == o);
                }
            }
            if ops.contains(o) {
                let k = choose|k: int| 0 <= k < ops.len() && ops[k] == o;
                assert(e[k] == o);
            }
            if o == y {
                assert(e[ops.len() as int] == o);
            }
        }
        assert("nvidia"@ != "amd"@) by {
            assert("nvidia"@.len() != "amd"@.len());
        }
    }
}

/// Each device plugin is installed at most once: the vendors of a list of
/// GPUs, each taken once, yield no plugin twice.
pub proof fn law_each_operator_once(gpus: Seq<GpuInfo>)
    ensures
        operators_for(distinct(vendors_of(gpus))).no_duplicates(),
{
    law_distinct_vendors(vendors_of(gpus));
    lemma_operators_no_duplicates(distinct(vendors_of(gpus)));
}

proof fn lemma_operators_no_duplicates(vendors: Seq<Seq<char>>)
    requires
        vendors.no_duplicates(),
    ensures
        operators_for(vendors).no_duplicates(),
    decreases vendors.len(),
{
    if vendors.len() > 0 {
        let init = vendors.drop_last();
        let x = vendors.last();
        assert(init.no_duplicates()) by {
            assert forall|i: int, j: int|
                0 <= i < init.len() && 0 <= j < init.len() && i != j implies init[i] != init[j] by {
                assert(init[i] == vendors[i] && init[j] == vendors[j]);
            }
        }
        lemma_operators_no_duplicates(init);
        law_operators_match_vendors(init);
        assert(!init.contains(x)) by {
            if init.contains(x) {
                let k = choose|k: int| 0 <= k < init.len() && init[k] == x;
                assert(vendors[k] == x && vendors[vendors.len() - 1] == x);
            }
        }
        let ops = operators_for(init);
        match operator_for_vendor(x) {
            Some(op) => {
                assert(!ops.contains(op));
                let e = ops.push(op);
                assert forall|i: int, j: int|
                    0 <= i < e.len() && 0 <= j < e.len() && i != j implies e[i] != e[j] by {
                    if i == ops.len() && e[i] == e[j] {
                        assert(ops[j] == op);
                    }
                    if j == ops.len() && e[i] == e[j] {
                        assert(ops[i] == op);
                    }
                }
            },
            None => {},
        }
    }
}

/// The core operators are applied in order, each once: cert-manager first,
/// the RBAC manifests last, and in between one device plugin per vendor
/// that has one, none twice.
pub proof fn law_core_applies(gpus: Seq<GpuInfo>)
    ensures
        core_applies(gpus).len() == operators_for(distinct(vendors_of(gpus))).len() + 2,
        core_applies(gpus)[0] == (CERT_MANAGER_MANIFEST@, "failed to install cert-manager"@),
        core_applies(gpus).last() == (RBAC_MANIFEST@, "failed to apply RBAC manifests"@),
        operators_for(distinct(vendors_of(gpus))).no_duplicates(),
{
    law_each_operator_once(gpus);
}

} // verus!
