use ferrishost::web::templating::{template_manifest, template_manifest_at};

#[test]
fn test_template_manifest_replaces_placeholders() {
    let yaml = r#"
metadata:
  name: install-{{ module_id }}-{{ timestamp }}
  namespace: {{ namespace }}
"#;
    let result = template_manifest(yaml, "headscale");
    assert!(result.contains("install-headscale-"));
    assert!(result.contains("ferrishost"));
    assert!(!result.contains("{{ module_id }}"));
    assert!(!result.contains("{{ timestamp }}"));
}

#[test]
fn test_template_manifest_preserves_normal_content() {
    let yaml = r#"
apiVersion: batch/v1
kind: Job
metadata:
  name: test-job
"#;
    let result = template_manifest(yaml, "test");
    assert!(result.contains("apiVersion: batch/v1"));
    assert!(result.contains("kind: Job"));
    assert!(result.contains("test-job"));
}

#[test]
fn template_at_fixed_time_is_exact() {
    let yaml = "name: install-{{ module_id }}-{{ timestamp }}\nns: {{ namespace }}\nhost: {{ domain }}\n";
    let result = template_manifest_at(yaml, "seafile", 1700000000);
    assert_eq!(
        result,
        "name: install-seafile-1700000000\nns: ferrishost\nhost: ferrishost.homelab.local\n"
    );
}

#[test]
fn templating_leaves_no_brace_where_braces_are_placeholders() {
    let yaml = "a: {{ domain }}{{ namespace }}\nb: {{ timestamp }} {{ module_id }}{{ module_id }}\n";
    let result = template_manifest_at(yaml, "headscale", 7);
    assert!(!result.contains('{'));
    assert_eq!(result, "a: ferrishost.homelab.localferrishost\nb: 7 headscaleheadscale\n");
}

#[test]
fn templating_a_nested_placeholder_can_leave_one_behind() {
    // Replacement goes once from left to right: the inner placeholder is
    // filled in, and the text around it then reads as a placeholder.
    let result = template_manifest_at("{{ {{ module_id }}module_id }}", "", 0);
    assert_eq!(result, "{{ module_id }}");
}
