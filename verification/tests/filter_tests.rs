use kubediff::doc::Doc;
use kubediff::filter::filter_resource;
use kubediff::yaml::to_yaml;

fn fstr(v: &str) -> Doc {
    Doc::Str(v.to_string())
}

fn fobj(entries: Vec<(&str, Doc)>) -> Doc {
    Doc::Object(entries.into_iter().map(|(k, v)| (k.to_string(), v)).collect())
}

#[test]
fn test_filter_removes_managed_fields() {
    let value = fobj(vec![
        ("apiVersion", fstr("v1")),
        ("kind", fstr("ConfigMap")),
        (
            "metadata",
            fobj(vec![
                ("name", fstr("test")),
                ("namespace", fstr("default")),
                (
                    "managedFields",
                    Doc::List(vec![fobj(vec![("manager", fstr("kubectl"))])]),
                ),
                ("generation", Doc::Num("1".to_string())),
                ("creationTimestamp", fstr("2024-01-01T00:00:00Z")),
                ("resourceVersion", fstr("12345")),
                ("uid", fstr("abc-123")),
            ]),
        ),
        ("data", fobj(vec![("key", fstr("value"))])),
    ]);

    let value = filter_resource(value);

    let metadata = value.get("metadata").unwrap();
    assert!(metadata.get("managedFields").is_none());
    assert!(metadata.get("generation").is_none());
    assert!(metadata.get("creationTimestamp").is_none());
    assert!(metadata.get("resourceVersion").is_none());
    assert!(metadata.get("uid").is_none());
    assert_eq!(metadata.get_str("name").unwrap().as_str(), "test");
    assert_eq!(metadata.get_str("namespace").unwrap().as_str(), "default");
}

#[test]
fn test_filter_removes_status() {
    let value = fobj(vec![
        ("apiVersion", fstr("apps/v1")),
        ("kind", fstr("Deployment")),
        ("metadata", fobj(vec![("name", fstr("test"))])),
        ("spec", fobj(vec![("replicas", Doc::Num("1".to_string()))])),
        ("status", fobj(vec![("readyReplicas", Doc::Num("1".to_string()))])),
    ]);

    let value = filter_resource(value);

    assert!(value.get("status").is_none());
    assert!(value.get("spec").is_some());
}

#[test]
fn test_filter_removes_annotations() {
    let value = fobj(vec![
        ("apiVersion", fstr("v1")),
        ("kind", fstr("ConfigMap")),
        (
            "metadata",
            fobj(vec![
                ("name", fstr("test")),
                (
                    "annotations",
                    fobj(vec![
                        ("kubectl.kubernetes.io/last-applied-configuration", fstr("{}")),
                        ("argocd.argoproj.io/tracking-id", fstr("abc")),
                        ("custom-annotation", fstr("keep-me")),
                    ]),
                ),
            ]),
        ),
    ]);

    let value = filter_resource(value);

    let annotations = value.get("metadata").unwrap().get("annotations").unwrap();
    assert!(annotations
        .get("kubectl.kubernetes.io/last-applied-configuration")
        .is_none());
    assert!(annotations.get("argocd.argoproj.io/tracking-id").is_none());
    assert_eq!(
        annotations.get_str("custom-annotation").unwrap().as_str(),
        "keep-me"
    );
}

#[test]
fn test_filter_removes_empty_annotations() {
    let value = fobj(vec![
        ("apiVersion", fstr("v1")),
        ("kind", fstr("ConfigMap")),
        (
            "metadata",
            fobj(vec![
                ("name", fstr("test")),
                (
                    "annotations",
                    fobj(vec![(
                        "kubectl.kubernetes.io/last-applied-configuration",
                        fstr("{}"),
                    )]),
                ),
            ]),
        ),
    ]);

    let value = filter_resource(value);

    let metadata = value.get("metadata").unwrap();
    assert!(metadata.get("annotations").is_none());
}

#[test]
fn test_filter_removes_webhooks_and_ca_bundle() {
    let value = fobj(vec![
        ("kind", fstr("ValidatingWebhookConfiguration")),
        ("webhooks", Doc::List(vec![])),
        ("spec", fobj(vec![("caBundle", fstr("aaa")), ("other", fstr("kept"))])),
    ]);

    let value = filter_resource(value);

    assert!(value.get("webhooks").is_none());
    let spec = value.get("spec").unwrap();
    assert!(spec.get("caBundle").is_none());
    assert_eq!(spec.get_str("other").unwrap().as_str(), "kept");
}

#[test]
fn test_filter_is_idempotent_on_sample() {
    let build = || {
        fobj(vec![
            ("apiVersion", fstr("v1")),
            ("kind", fstr("ConfigMap")),
            (
                "metadata",
                fobj(vec![
                    ("name", fstr("test")),
                    ("uid", fstr("abc")),
                    (
                        "annotations",
                        fobj(vec![("argocd.argoproj.io/tracking-id", fstr("x"))]),
                    ),
                ]),
            ),
            ("status", fobj(vec![])),
        ])
    };
    let once = to_yaml(&filter_resource(build()));
    let twice = to_yaml(&filter_resource(filter_resource(build())));
    assert_eq!(once, twice);
}
