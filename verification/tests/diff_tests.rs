use kubediff::diff::generate_diff;

#[test]
fn test_no_changes_returns_none() {
    let yaml = "apiVersion: v1\nkind: ConfigMap\n";
    let result = generate_diff("ConfigMap/test", yaml, yaml);
    assert!(result.is_none());
}

#[test]
fn test_new_resource() {
    let local = "apiVersion: v1\nkind: ConfigMap\nmetadata:\n  name: test\n";
    let result = generate_diff("ConfigMap/test", "", local);

    assert!(result.is_some());
    let diff = result.unwrap();
    assert!(diff.contains("--- a/ConfigMap/test"));
    assert!(diff.contains("+++ b/ConfigMap/test"));
    assert!(diff.contains("+apiVersion: v1"));
}

#[test]
fn test_modified_resource() {
    let live = "apiVersion: v1\nkind: ConfigMap\ndata:\n  key: old-value\n";
    let local = "apiVersion: v1\nkind: ConfigMap\ndata:\n  key: new-value\n";
    let result = generate_diff("ConfigMap/test", live, local);

    assert!(result.is_some());
    let diff = result.unwrap();
    assert!(diff.contains("-  key: old-value"));
    assert!(diff.contains("+  key: new-value"));
}

#[test]
fn test_deleted_lines() {
    let live = "apiVersion: v1\nkind: ConfigMap\ndata:\n  key1: value1\n  key2: value2\n";
    let local = "apiVersion: v1\nkind: ConfigMap\ndata:\n  key1: value1\n";
    let result = generate_diff("ConfigMap/test", live, local);

    assert!(result.is_some());
    let diff = result.unwrap();
    assert!(diff.contains("-  key2: value2"));
}

#[test]
fn test_diff_opens_with_headers() {
    let result = generate_diff("Service/web", "a: 1\n", "a: 2\n").unwrap();
    assert!(result.starts_with("--- a/Service/web\n+++ b/Service/web\n"));
}

#[test]
fn test_diff_detects_any_difference() {
    assert!(generate_diff("ConfigMap/test", "x: 1\n", "x: 2\n").is_some());
    assert!(generate_diff("ConfigMap/test", "", "x: 1\n").is_some());
    assert!(generate_diff("ConfigMap/test", "", "").is_none());
}

#[test]
fn test_resource_label() {
    assert_eq!(kubediff::resource_label("Deployment", "my-app"), "Deployment/my-app");
}
