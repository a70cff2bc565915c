use ferrishost::web::catalog::{
    builtin_modules, get_module_descriptor, list_modules, parse_bool_str, ArtifactoryClient, Catalog,
    CatalogModule,
};
use ferrishost::web::jobs::JobStatusResponse;
use ferrishost::web::responses::{
    get_status, get_gpu_status, install_response, spa_page, static_dir, static_file_reply,
    static_relative_path, InstallResponse, StaticReply, FALLBACK_PAGE, MANIFEST_NOT_FOUND_NOTE,
};
use ferrishost::web::templating::{prepare_install_job, prepare_install_job_at};

fn module(id: &str) -> CatalogModule {
    CatalogModule {
        id: id.to_string(),
        name: id.to_uppercase(),
        description: "d".to_string(),
        category: "app".to_string(),
        version: "1.0".to_string(),
        icon: None,
        install_job: None,
    }
}

#[test]
fn job_phases() {
    let r = JobStatusResponse::from_counts("install-headscale-1234", None, Some(1), Some(2));
    assert_eq!((r.name.as_str(), r.active, r.succeeded, r.failed), ("install-headscale-1234", 0, 1, 2));
    assert_eq!(r.phase, "Completed");
    assert_eq!(JobStatusResponse::from_counts("j", Some(0), None, Some(1)).phase, "Failed");
    assert_eq!(JobStatusResponse::from_counts("j", Some(1), None, Some(1)).phase, "Running");
    assert_eq!(JobStatusResponse::from_counts("j", None, None, None).phase, "Running");
}

#[test]
fn artifactory_settings() {
    let c = ArtifactoryClient::from_env(None, None, None);
    assert_eq!(c.base_url, "");
    assert_eq!(c.repository, "ferrishost-modules");
    assert!(c.anonymous);
    assert!(c.catalog_url().is_none());
    assert!(c.install_job_url("headscale").is_none());
    let c = ArtifactoryClient::from_env(
        Some("https://art.example".to_string()),
        Some("mods".to_string()),
        Some("false".to_string()),
    );
    assert!(!c.anonymous);
    assert_eq!(c.catalog_url().as_deref(), Some("https://art.example/mods/catalog.json"));
    assert_eq!(
        c.install_job_url("headscale").as_deref(),
        Some("https://art.example/mods/headscale/install-job.yaml")
    );
    let c = ArtifactoryClient::from_env(None, None, Some("yes".to_string()));
    assert!(c.anonymous);
    assert_eq!(parse_bool_str("true"), Some(true));
    assert_eq!(parse_bool_str("True"), None);
}

#[test]
fn module_listing() {
    let builtin = list_modules(None);
    assert_eq!(builtin.len(), 2);
    assert_eq!(builtin[0].id, "headscale");
    assert_eq!(builtin[1].id, "seafile");
    assert!(builtin.iter().all(|m| !m.installed && !m.category.is_empty()));
    assert_eq!(builtin_modules().len(), 2);
    let catalog = Catalog { version: "1".to_string(), modules: vec![module("a"), module("b")] };
    let listed = list_modules(Some(&catalog));
    assert_eq!(listed.iter().map(|m| m.id.as_str()).collect::<Vec<_>>(), vec!["a", "b"]);
    assert_eq!(listed[1].name, "B");
    assert!(listed.iter().all(|m| !m.installed));
}

#[test]
fn module_lookup() {
    let catalog = Catalog { version: "1".to_string(), modules: vec![module("a"), module("b")] };
    assert_eq!(get_module_descriptor(Some(&catalog), "b").unwrap().name, "B");
    assert!(get_module_descriptor(Some(&catalog), "c").is_none());
    assert!(get_module_descriptor(None, "headscale").is_none());
}

#[test]
fn install_job_manifests_are_read_as_jobs() {
    let yaml = "apiVersion: batch/v1\nkind: Job\nmetadata:\n  name: install-{{ module_id }}-{{ timestamp }}\n  namespace: {{ namespace }}\n";
    let job = prepare_install_job_at(yaml, "headscale", 42).expect("a Job");
    assert_eq!(job.metadata.name.as_deref(), Some("install-headscale-42"));
    assert_eq!(job.metadata.namespace.as_deref(), Some("ferrishost"));
    assert!(prepare_install_job("metadata: [unclosed", "x").is_none());
    assert!(prepare_install_job(yaml, "x").is_some());
}

#[test]
fn install_responses() {
    match install_response("seafile", false, Some(Ok("job".to_string()))) {
        InstallResponse::Installing { module, job_name, note } => {
            assert_eq!(module, "seafile");
            assert!(job_name.is_none() && note.is_none());
        }
        other => panic!("unexpected {:?}", other),
    }
    match install_response("seafile", true, None) {
        InstallResponse::Installing { note, .. } => {
            assert_eq!(note.as_deref(), Some(MANIFEST_NOT_FOUND_NOTE))
        }
        other => panic!("unexpected {:?}", other),
    }
    match install_response("seafile", true, Some(Ok("install-seafile-1".to_string()))) {
        InstallResponse::Installing { job_name, note, .. } => {
            assert_eq!(job_name.as_deref(), Some("install-seafile-1"));
            assert!(note.is_none());
        }
        other => panic!("unexpected {:?}", other),
    }
    match install_response("seafile", true, Some(Err("forbidden".to_string()))) {
        InstallResponse::Failed { module, error } => {
            assert_eq!((module.as_str(), error.as_str()), ("seafile", "forbidden"))
        }
        other => panic!("unexpected {:?}", other),
    }
}

#[test]
fn status_answers() {
    let s = get_status(true);
    assert!(s.k3s_installed && s.nodes.is_empty() && !s.all_nodes_ready && s.k3s_version.is_none());
    assert!(!get_status(false).k3s_installed);
    let g = get_gpu_status();
    assert!(g.detected.is_empty() && !g.nvidia_available && !g.amd_available);
}

#[test]
fn static_files() {
    assert_eq!(static_dir(None), "/srv/static");
    assert_eq!(static_dir(Some("/tmp/s".to_string())), "/tmp/s");
    assert_eq!(static_relative_path("/some/unknown/path"), "some/unknown/path");
    assert_eq!(static_relative_path("index.html"), "index.html");
}

#[test]
fn static_file_reply_guesses_type_from_extension() {
    match static_file_reply("/srv/static/index.html", Ok(b"<html></html>".to_vec())) {
        StaticReply::File { content_type, body } => {
            assert_eq!(content_type, "text/html");
            assert_eq!(body, b"<html></html>".to_vec());
        }
        StaticReply::Unreadable => panic!("a file that was read is served"),
    }
    match static_file_reply("/srv/static/assets/app.js", Ok(vec![1, 2])) {
        StaticReply::File { content_type, .. } => assert_eq!(content_type, "text/javascript"),
        StaticReply::Unreadable => panic!("a file that was read is served"),
    }
    match static_file_reply("/srv/static/blob", Ok(vec![])) {
        StaticReply::File { content_type, .. } => {
            assert_eq!(content_type, "application/octet-stream")
        }
        StaticReply::Unreadable => panic!("a file that was read is served"),
    }
}

#[test]
fn static_file_reply_reports_unreadable_file() {
    assert!(matches!(
        static_file_reply("/srv/static/index.html", Err("permission denied".to_string())),
        StaticReply::Unreadable
    ));
}

#[test]
fn spa_page_falls_back_without_index() {
    assert_eq!(spa_page(Some("<p>app</p>".to_string())), "<p>app</p>");
    assert_eq!(spa_page(None), FALLBACK_PAGE);
    assert!(spa_page(None).contains("Frontend not built yet"));
}
