//! Kubernetes Jobs that install modules.
use vstd::prelude::*;

use k8s_openapi::api::batch::v1::Job;

use crate::text::owned;

verus! {

#[verifier::external_type_specification]
#[verifier::external_body]
pub struct ExJob(Job);

/// Whether `serde_yaml` reads `yaml` as a Kubernetes `Job`.
pub uninterp spec fn job_manifest_parses(yaml: Seq<char>) -> bool;

/// The Job that `serde_yaml` reads from `yaml`, where it reads one.
pub uninterp spec fn parsed_job(yaml: Seq<char>) -> Job;

/// `serde_yaml::from_str::<Job>`: the Job that a YAML manifest describes,
/// where it describes one. Whether reading succeeds
/// (`job_manifest_parses`) and the Job read (`parsed_job`) are functions of
/// the text alone and are named; what the Job holds field by field is not
/// restated.
#[verifier::external_body]
pub(crate) fn parse_job_manifest(yaml: &str) -> (r: Option<Job>)
    ensures
        r is Some <==> job_manifest_parses(yaml@),
        r matches Some(j) ==> j == parsed_job(yaml@),
{
    serde_yaml::from_str::<Job>(yaml).ok()
}

/// The status of an install Job, as the API reports it.
#[derive(Debug, Clone)]
pub struct JobStatusResponse {
    pub name: String,
    pub active: i32,
    pub succeeded: i32,
    pub failed: i32,
    pub phase: String,
}

/// A count that the cluster may leave out: missing means zero.
pub open spec fn count_or_zero(c: Option<i32>) -> i32 {
    match c {
        Some(n) => n,
        None => 0,
    }
}

/// The phase of a Job: completed once a pod succeeded; failed where pods
/// failed and none is active; running otherwise.
pub open spec fn job_phase(active: i32, succeeded: i32, failed: i32) -> Seq<char> {
    if succeeded > 0 {
        "Completed"@
    } else if failed > 0 && active == 0 {
        "Failed"@
    } else {
        "Running"@
    }
}

impl JobStatusResponse {
    /// The status of Job `name` from the pod counts in its status; a count
    /// that is missing counts as zero.
    pub fn from_counts(
        name: &str,
        active: Option<i32>,
        succeeded: Option<i32>,
        failed: Option<i32>,
    ) -> (r: JobStatusResponse)
        ensures
            r.name@ == name@,
            r.active == count_or_zero(active),
            r.succeeded == count_or_zero(succeeded),
            r.failed == count_or_zero(failed),
            r.phase@ == job_phase(r.active, r.succeeded, r.failed),
    {
        let active = match active {
            Some(n) => n,
            None => 0,
        };
        let succeeded = match succeeded {
            Some(n) => n,
            None => 0,
        };
        let failed = match failed {
            Some(n) => n,
            None => 0,
        };
        let phase = if succeeded > 0 {
            owned("Completed")
        } else if failed > 0 && active == 0 {
            owned("Failed")
        } else {
            owned("Running")
        };
        JobStatusResponse { name: owned(name), active, succeeded, failed, phase }
    }
}

/// The phase of a Job: "Completed" exactly once a pod succeeded; "Failed"
/// exactly where none succeeded, some failed and none is active; "Running"
/// otherwise, so a Job with an active pod and none succeeded is running,
/// however many pods failed before.
pub proof fn law_job_phase(active: i32, succeeded: i32, failed: i32)
    ensures
        job_phase(active, succeeded, failed) == "Completed"@ <==> succeeded > 0,
        job_phase(active, succeeded, failed) == "Failed"@ <==> succeeded <= 0 && failed > 0
            && active == 0,
        job_phase(active, succeeded, failed) == "Running"@ <==> succeeded <= 0 && !(failed > 0
            && active == 0),
        active > 0 && succeeded <= 0 ==> job_phase(active, succeeded, failed) == "Running"@,
{
    reveal_strlit("Completed");
    reveal_strlit("Failed");
    reveal_strlit("Running");
    assert("Completed"@ != "Failed"@) by {
        assert("Completed"@[0] != "Failed"@[0]);
    }
    assert("Completed"@ != "Running"@) by {
        assert("Completed"@[0] != "Running"@[0]);
    }
    assert("Failed"@ != "Running"@) by {
        assert("Failed"@[0] != "Running"@[0]);
    }
}

/// The status of a Job reports its name and counts as given (a missing
/// count as zero), and its phase from those counts.
pub proof fn law_job_status_counts(active: Option<i32>, succeeded: Option<i32>, failed: Option<i32>)
    ensures
        count_or_zero(None) == 0,
        active matches Some(n) ==> count_or_zero(active) == n,
        succeeded matches Some(n) ==> count_or_zero(succeeded) == n,
        failed matches Some(n) ==> count_or_zero(failed) == n,
{
}

} // verus!
