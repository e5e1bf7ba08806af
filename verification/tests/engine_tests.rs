use kubediff::cluster::{
    effective_namespace, interpret_apply, interpret_get, ApiFailure, ApplyOutcome, LiveOutcome,
};
use kubediff::doc::Doc;
use kubediff::processor::{
    complete_document, extract_identity, prepare_document, DocPrep, Process,
};
use kubediff::resolver::{
    split_api_version, EndpointDescriptor, ResourceScope, SchemaSnapshot,
};

fn estr(v: &str) -> Doc {
    Doc::Str(v.to_string())
}

fn eobj(entries: Vec<(&str, Doc)>) -> Doc {
    Doc::Object(entries.into_iter().map(|(k, v)| (k.to_string(), v)).collect())
}

fn endpoint(group: &str, version: &str, kind: &str, scope: ResourceScope, plural: &str)
    -> EndpointDescriptor {
    EndpointDescriptor {
        group: group.to_string(),
        version: version.to_string(),
        kind: kind.to_string(),
        scope,
        plural_resource: plural.to_string(),
    }
}

fn snapshot() -> SchemaSnapshot {
    SchemaSnapshot {
        entries: vec![
            endpoint("", "v1", "ConfigMap", ResourceScope::Namespaced, "configmaps"),
            endpoint("apps", "v1", "Deployment", ResourceScope::Namespaced, "deployments"),
            endpoint(
                "rbac.authorization.k8s.io",
                "v1",
                "ClusterRole",
                ResourceScope::Cluster,
                "clusterroles",
            ),
        ],
    }
}

fn config_map(name: &str) -> Doc {
    eobj(vec![
        ("apiVersion", estr("v1")),
        ("kind", estr("ConfigMap")),
        ("metadata", eobj(vec![("name", estr(name))])),
    ])
}

#[test]
fn test_split_api_version_with_group() {
    let (group, version) = split_api_version("apps/v1");
    assert_eq!(group, "apps");
    assert_eq!(version, "v1");
}

#[test]
fn test_split_api_version_core_group() {
    let (group, version) = split_api_version("v1");
    assert_eq!(group, "");
    assert_eq!(version, "v1");
}

#[test]
fn test_resolve_known_resource() {
    let snap = snapshot();
    let ep = snap.resolve("apps/v1", "Deployment").unwrap();
    assert_eq!(ep.group, "apps");
    assert_eq!(ep.version, "v1");
    assert_eq!(ep.kind, "Deployment");
    assert_eq!(ep.plural_resource, "deployments");
    assert!(matches!(ep.scope, ResourceScope::Namespaced));
}

#[test]
fn test_resolve_unknown_resource() {
    let snap = snapshot();
    let err = snap.resolve("v1", "Mystery").unwrap_err();
    assert_eq!(err, "Unknown resource type: v1/Mystery");
}

#[test]
fn test_resolve_cluster_scoped() {
    let snap = snapshot();
    let ep = snap.resolve("rbac.authorization.k8s.io/v1", "ClusterRole").unwrap();
    assert!(matches!(ep.scope, ResourceScope::Cluster));
}

#[test]
fn test_effective_namespace_defaults() {
    assert_eq!(
        effective_namespace(ResourceScope::Namespaced, None),
        Some("default".to_string())
    );
    assert_eq!(
        effective_namespace(ResourceScope::Namespaced, Some("prod".to_string())),
        Some("prod".to_string())
    );
    assert_eq!(effective_namespace(ResourceScope::Cluster, None), None);
}

#[test]
fn test_prepare_defaults_namespace() {
    let snap = snapshot();
    let prep = prepare_document(&snap, "svc", Ok(config_map("test")));
    match prep {
        DocPrep::Ready(work) => {
            assert_eq!(work.fetch_namespace, Some("default".to_string()));
            assert_eq!(work.identity.name, "test");
            assert_eq!(work.identity.namespace, None);
        }
        DocPrep::Rejected(_) => panic!("expected a ready work item"),
    }
}

#[test]
fn test_extract_identity_fields() {
    let doc = eobj(vec![
        ("apiVersion", estr("apps/v1")),
        ("kind", estr("Deployment")),
        (
            "metadata",
            eobj(vec![("name", estr("web")), ("namespace", estr("prod"))]),
        ),
    ]);
    let id = extract_identity(&doc).unwrap();
    assert_eq!(id.api_version, "apps/v1");
    assert_eq!(id.kind, "Deployment");
    assert_eq!(id.name, "web");
    assert_eq!(id.namespace, Some("prod".to_string()));
}

#[test]
fn test_extract_identity_missing_api_version() {
    let doc = eobj(vec![("kind", estr("ConfigMap"))]);
    assert_eq!(extract_identity(&doc).unwrap_err(), "Missing apiVersion");
}

#[test]
fn test_extract_identity_missing_kind() {
    let doc = eobj(vec![("apiVersion", estr("v1"))]);
    assert_eq!(extract_identity(&doc).unwrap_err(), "Missing kind");
}

#[test]
fn test_extract_identity_missing_name() {
    let doc = eobj(vec![
        ("apiVersion", estr("v1")),
        ("kind", estr("ConfigMap")),
        ("metadata", eobj(vec![])),
    ]);
    assert_eq!(extract_identity(&doc).unwrap_err(), "Missing metadata.name");
}

#[test]
fn test_interpret_get_found() {
    let outcome = interpret_get(Ok(Some(config_map("a"))));
    assert!(matches!(outcome, LiveOutcome::Found(_)));
}

#[test]
fn test_interpret_get_not_found_is_absent() {
    let outcome = interpret_get(Ok(None));
    assert!(matches!(outcome, LiveOutcome::Absent));
    let outcome = interpret_get(Err(ApiFailure {
        status_code: Some(404),
        message: "not found".to_string(),
    }));
    assert!(matches!(outcome, LiveOutcome::Absent));
}

#[test]
fn test_interpret_get_error() {
    let outcome = interpret_get(Err(ApiFailure {
        status_code: Some(500),
        message: "boom".to_string(),
    }));
    match outcome {
        LiveOutcome::Failed(m) => assert_eq!(m, "boom"),
        _ => panic!("expected a failure"),
    }
}

#[test]
fn test_interpret_apply_error() {
    let outcome = interpret_apply(Err(ApiFailure {
        status_code: None,
        message: "webhook rejected".to_string(),
    }));
    match outcome {
        ApplyOutcome::Failed(m) => assert_eq!(m, "webhook rejected"),
        _ => panic!("expected a failure"),
    }
}

#[test]
fn test_complete_document_identical_is_no_change() {
    let id = extract_identity(&config_map("test")).unwrap();
    let record = complete_document(
        "svc",
        id,
        ApplyOutcome::Normalized(config_map("test")),
        LiveOutcome::Found(config_map("test")),
    );
    assert!(record.diff.is_none());
    assert!(record.error.is_none());
}

#[test]
fn test_complete_document_new_resource_diffs() {
    let id = extract_identity(&config_map("test")).unwrap();
    let record = complete_document(
        "svc",
        id,
        ApplyOutcome::Normalized(config_map("test")),
        LiveOutcome::Absent,
    );
    let diff = record.diff.unwrap();
    assert!(diff.contains("--- a/ConfigMap/test"));
    assert!(diff.contains("+apiVersion: v1"));
    assert!(record.error.is_none());
}

#[test]
fn test_complete_document_apply_failure() {
    let id = extract_identity(&config_map("test")).unwrap();
    let record = complete_document(
        "svc",
        id,
        ApplyOutcome::Failed("invalid schema".to_string()),
        LiveOutcome::Absent,
    );
    assert!(record.diff.is_none());
    assert_eq!(record.error, Some("invalid schema".to_string()));
}

#[test]
fn test_batch_isolation_three_resources() {
    let snap = snapshot();
    let mystery = eobj(vec![
        ("apiVersion", estr("v1")),
        ("kind", estr("Mystery")),
        ("metadata", eobj(vec![("name", estr("two"))])),
    ]);
    let parsed = vec![Ok(config_map("one")), Ok(mystery), Ok(config_map("three"))];
    let outcomes = vec![
        (ApplyOutcome::Normalized(config_map("one")), LiveOutcome::Absent),
        (ApplyOutcome::Normalized(config_map("two")), LiveOutcome::Absent),
        (
            ApplyOutcome::Normalized(config_map("three")),
            LiveOutcome::Found(config_map("three")),
        ),
    ];
    let records = Process::process_documents(&snap, "svc", parsed, outcomes);

    assert_eq!(records.len(), 3);
    assert!(records[0].error.is_none());
    assert!(records[0].diff.is_some());
    assert_eq!(
        records[1].error,
        Some("Unknown resource type: v1/Mystery".to_string())
    );
    assert!(records[1].diff.is_none());
    assert!(records[2].error.is_none());
    assert!(records[2].diff.is_none());
}

#[test]
fn test_parse_error_record_uses_sentinel() {
    let snap = snapshot();
    let prep = prepare_document(&snap, "svc", Err("bad document".to_string()));
    match prep {
        DocPrep::Rejected(rec) => {
            assert_eq!(rec.resource_name, "unknown");
            assert_eq!(rec.api_version, "unknown");
            assert_eq!(rec.kind, "unknown");
            assert_eq!(rec.error, Some("bad document".to_string()));
            assert!(rec.diff.is_none());
        }
        DocPrep::Ready(_) => panic!("expected a rejected document"),
    }
}

#[test]
fn test_build_failure_short_circuits_target() {
    let result = Process::build_failure("svc", "kustomize exploded".to_string());
    assert_eq!(result.target, "svc");
    assert!(result.results.is_empty());
    assert_eq!(result.build_error, Some("kustomize exploded".to_string()));
}

#[test]
fn test_target_result_keeps_records() {
    let snap = snapshot();
    let parsed = vec![Ok(config_map("one"))];
    let outcomes = vec![(ApplyOutcome::Normalized(config_map("one")), LiveOutcome::Absent)];
    let records = Process::process_documents(&snap, "svc", parsed, outcomes);
    let result = Process::target_result("svc", records);
    assert_eq!(result.results.len(), 1);
    assert!(result.build_error.is_none());
}
