//! The answers of the web service's API.
use vstd::prelude::*;

use crate::text::{owned, strip_leading, strip_leading_str};
use crate::types::{ClusterStatus, GpuStatus};

verus! {

/// Where the compiled frontend is served from by default.
pub const DEFAULT_STATIC_DIR: &'static str = "/srv/static";

/// The page served where the frontend has not been built.
pub const FALLBACK_PAGE: &'static str = r#"<!DOCTYPE html><html lang="en"><body>
                <h1>FerrisHost</h1>
                <p>Frontend not built yet. Run <code>npm run build</code> in ferrishost-web/frontend/.</p>
                </body></html>"#;

/// The note of an install for which no Job could be created from a
/// manifest.
pub const MANIFEST_NOT_FOUND_NOTE: &'static str =
    "Artifactory not configured or manifest not found";

/// The answer to a request to install a module.
#[derive(Debug)]
pub enum InstallResponse {
    /// The install is under way: through Job `job_name` where one was
    /// created, with a `note` where no manifest could be used.
    Installing { module: String, job_name: Option<String>, note: Option<String> },
    /// Creating the install Job failed.
    Failed { module: String, error: String },
}

/// An optional text that is present and reads `t`.
pub open spec fn text_is(o: Option<String>, t: Seq<char>) -> bool {
    match o {
        Some(s) => s@ == t,
        None => false,
    }
}

/// The answer to a request to install `module_id`. Without a cluster client
/// the install is only acknowledged. Otherwise `created` tells whether a Job
/// was made from the module's manifest (none where there is no manifest or
/// it is not a Job) and whether creating it succeeded, with the Job's name
/// or the error.
pub fn install_response(
    module_id: &str,
    has_client: bool,
    created: Option<Result<String, String>>,
) -> (r: InstallResponse)
    ensures
        !has_client ==> (r matches InstallResponse::Installing { module, job_name, note }
            && module@ == module_id@ && job_name is None && note is None),
        has_client ==> match created {
            None => r matches InstallResponse::Installing { module, job_name, note }
                && module@ == module_id@ && job_name is None && text_is(note, MANIFEST_NOT_FOUND_NOTE@),
            Some(Ok(name)) => r matches InstallResponse::Installing { module, job_name, note }
                && module@ == module_id@ && text_is(job_name, name@) && note is None,
            Some(Err(e)) => r matches InstallResponse::Failed { module, error } && module@
                == module_id@ && error@ == e@,
        },
{
    if !has_client {
        return InstallResponse::Installing { module: owned(module_id), job_name: None, note: None };
    }
    match created {
        None => InstallResponse::Installing {
            module: owned(module_id),
            job_name: None,
            note: Some(owned(MANIFEST_NOT_FOUND_NOTE)),
        },
        Some(Ok(name)) => InstallResponse::Installing {
            module: owned(module_id),
            job_name: Some(name),
            note: None,
        },
        Some(Err(e)) => InstallResponse::Failed { module: owned(module_id), error: e },
    }
}

/// The cluster status that the API reports: k3s counts as installed where
/// the service has a cluster client; nodes and version are not reported.
pub fn get_status(has_client: bool) -> (s: ClusterStatus)
    ensures
        s.k3s_installed == has_client,
        s.k3s_version is None,
        s.nodes@.len() == 0,
        !s.all_nodes_ready,
{
    ClusterStatus {
        k3s_installed: has_client,
        k3s_version: None,
        nodes: Vec::new(),
        all_nodes_ready: false,
    }
}

/// The GPU status that the API reports: nothing detected.
pub fn get_gpu_status() -> (s: GpuStatus)
    ensures
        s.detected@.len() == 0,
        !s.nvidia_available,
        !s.amd_available,
{
    GpuStatus { detected: Vec::new(), nvidia_available: false, amd_available: false }
}

/// The directory of the frontend: `STATIC_DIR` where it is set.
pub fn static_dir(configured: Option<String>) -> (d: String)
    ensures
        d@ == (match configured {
            Some(c) => c@,
            None => DEFAULT_STATIC_DIR@,
        }),
{
    match configured {
        Some(c) => c,
        None => owned(DEFAULT_STATIC_DIR),
    }
}

/// The file that a request path names, relative to the frontend directory:
/// the path without its leading slashes.
pub fn static_relative_path(uri_path: &str) -> (p: &str)
    ensures
        p@ == strip_leading(uri_path@, '/'),
{
    strip_leading_str(uri_path, '/')
}

/// The media type that `mime_guess` gives a file by the extension of its
/// path.
pub uninterp spec fn guessed_content_type(path: Seq<char>) -> Seq<char>;

/// `mime_guess::from_path(path).first_or_octet_stream()`, as text: the
/// first media type that mime_guess's built-in table lists for the
/// extension of `path`, or "application/octet-stream" where the path has
/// no extension the table knows. No disk is read, so the answer depends on
/// the path alone; the table is not restated here, only named.
#[verifier::external_body]
fn guess_content_type(path: &str) -> (t: String)
    ensures
        t@ == guessed_content_type(path@),
{
    mime_guess::from_path(path).first_or_octet_stream().to_string()
}

/// The answer to a request for a file of the frontend.
#[derive(Debug)]
pub enum StaticReply {
    /// The file, with its media type.
    File { content_type: String, body: Vec<u8> },
    /// The file exists but could not be read.
    Unreadable,
}

/// The answer for the frontend file at `path`, which exists: its content
/// with the media type guessed from the path, or `Unreadable` where reading
/// it failed.
pub fn static_file_reply(path: &str, read: Result<Vec<u8>, String>) -> (r: StaticReply)
    ensures
        read is Err ==> r is Unreadable,
        read matches Ok(bytes) ==> (r matches StaticReply::File { content_type, body }
            && content_type@ == guessed_content_type(path@) && body@ == bytes@),
{
    match read {
        Ok(bytes) => StaticReply::File { content_type: guess_content_type(path), body: bytes },
        Err(_) => StaticReply::Unreadable,
    }
}

/// The page served for a path that names no file: the frontend's
/// `index.html` where it could be read, the fallback page otherwise.
pub fn spa_page(index: Option<String>) -> (page: String)
    ensures
        page@ == (match index {
            Some(html) => html@,
            None => FALLBACK_PAGE@,
        }),
{
    match index {
        Some(html) => html,
        None => owned(FALLBACK_PAGE),
    }
}

} // verus!
