use kubediff::commands::{BuildStrategy, Commands};
use kubediff::doc::Doc;
use kubediff::enums::LogLevel;
use kubediff::helm;
use kubediff::kustomize;
use kubediff::settings::{expanduser, Settings};
use kubediff::yaml::{parse_documents, to_yaml};
use kubediff::Process;

#[test]
fn test_expanduser_tilde() {
    assert_eq!(expanduser("~/repos/app", "/home/user"), "/home/user/repos/app");
}

#[test]
fn test_expanduser_plain_path() {
    assert_eq!(expanduser("/etc/app", "/home/user"), "/etc/app");
}

#[test]
fn test_settings_path() {
    assert_eq!(
        Settings::path("/home/user"),
        "/home/user/.kube/kubediff/config.yaml"
    );
}

#[test]
fn test_settings_load() {
    let text = "configs:\n  targets:\n    - ~/repos/*\n  exclude:\n    - ~/repos/old\n  env: prod\n";
    let settings = Settings::load(text).unwrap();
    assert_eq!(settings.configs.targets, vec!["~/repos/*".to_string()]);
    assert_eq!(settings.configs.exclude, vec!["~/repos/old".to_string()]);
    assert_eq!(settings.configs.env, "prod");
    assert!(matches!(settings.configs.log, LogLevel::Info));
}

#[test]
fn test_settings_load_missing_sections() {
    let settings = Settings::load("other: 1\n").unwrap();
    assert!(settings.configs.targets.is_empty());
    assert!(settings.configs.exclude.is_empty());
    assert_eq!(settings.configs.env, "");
}

#[test]
fn test_settings_load_empty_text_defaults() {
    let settings = Settings::load("").unwrap();
    assert!(settings.configs.targets.is_empty());
    assert_eq!(settings.configs.env, "");
}

#[test]
fn test_settings_load_malformed() {
    assert!(Settings::load("configs: [unclosed\n").is_err());
}

#[test]
fn test_get_service_paths_excludes_and_dedups() {
    let targets = vec![
        "/repos/a".to_string(),
        "/repos/b".to_string(),
        "/repos/a".to_string(),
    ];
    let excludes = vec!["/repos/b".to_string()];
    let paths = Settings::get_service_paths(&targets, &excludes, "prod");
    assert_eq!(paths, vec!["/repos/a/prod".to_string()]);
}

#[test]
fn test_get_entries_inplace() {
    let entries = Process::get_entries(true, "/cwd".to_string(), Some("/p".to_string()), vec![]);
    assert_eq!(entries, vec!["/cwd".to_string()]);
}

#[test]
fn test_get_entries_path() {
    let entries = Process::get_entries(false, "/cwd".to_string(), Some("/p".to_string()), vec![]);
    assert_eq!(entries, vec!["/p".to_string()]);
}

#[test]
fn test_get_entries_service_paths() {
    let entries = Process::get_entries(
        false,
        "/cwd".to_string(),
        None,
        vec!["/a/prod".to_string(), "/b/prod".to_string()],
    );
    assert_eq!(entries, vec!["/a/prod".to_string(), "/b/prod".to_string()]);
}

#[test]
fn test_plan_build_file() {
    let entries: Vec<String> = vec![];
    assert!(matches!(
        Commands::plan_build(true, &entries),
        BuildStrategy::ReadFile
    ));
}

#[test]
fn test_plan_build_kustomize() {
    let entries = vec!["deploy.yaml".to_string(), "kustomization.yaml".to_string()];
    assert!(matches!(
        Commands::plan_build(false, &entries),
        BuildStrategy::RunKustomize
    ));
}

#[test]
fn test_plan_build_concat() {
    let entries = vec!["a.yaml".to_string(), "b.yaml".to_string()];
    assert!(matches!(
        Commands::plan_build(false, &entries),
        BuildStrategy::ConcatFiles
    ));
}

#[test]
fn test_combine_manifests() {
    let parts = vec!["a: 1\n".to_string(), "b: 2\n".to_string()];
    assert_eq!(Commands::combine_manifests(&parts), "a: 1\n---\nb: 2\n");
    let one = vec!["a: 1\n".to_string()];
    assert_eq!(Commands::combine_manifests(&one), "a: 1\n");
    let none: Vec<String> = vec![];
    assert_eq!(Commands::combine_manifests(&none), "");
}

#[test]
fn test_command_output() {
    assert_eq!(
        Commands::command_output(true, "out".to_string(), "err".to_string()),
        Ok("out".to_string())
    );
    assert_eq!(
        Commands::command_output(false, "out".to_string(), "err".to_string()),
        Err("err".to_string())
    );
}

#[test]
fn test_helm_build_outcome() {
    assert_eq!(
        helm::build_outcome(true, "rendered".to_string(), "".to_string()),
        Ok("rendered".to_string())
    );
    assert_eq!(
        helm::build_outcome(false, "".to_string(), "no chart".to_string()),
        Err("Helm template failed: no chart".to_string())
    );
}

#[test]
fn test_kustomize_build_outcome() {
    assert_eq!(
        kustomize::build_outcome(false, "".to_string(), "no base".to_string()),
        Err("Kustomize build failed: no base".to_string())
    );
}

#[test]
fn test_is_helm_directory() {
    let chart = vec!["Chart.yaml".to_string(), "values.yaml".to_string()];
    assert!(helm::is_helm_directory(&chart));
    let plain = vec!["deploy.yaml".to_string()];
    assert!(!helm::is_helm_directory(&plain));
}

#[test]
fn test_log_level_allows() {
    assert!(LogLevel::Info.allows(LogLevel::Info));
    assert!(!LogLevel::Warning.allows(LogLevel::Info));
    assert!(LogLevel::Warning.allows(LogLevel::Warning));
    assert!(!LogLevel::Error.allows(LogLevel::Warning));
    assert!(LogLevel::Error.allows(LogLevel::Error));
    assert!(matches!(LogLevel::default(), LogLevel::Error));
}

#[test]
fn test_parse_documents_multi() {
    let docs = parse_documents("a: one\n---\nb: two\n");
    assert_eq!(docs.len(), 2);
    let first = docs[0].as_ref().unwrap();
    assert_eq!(first.get_str("a").unwrap().as_str(), "one");
    let second = docs[1].as_ref().unwrap();
    assert_eq!(second.get_str("b").unwrap().as_str(), "two");
}

#[test]
fn test_parse_documents_bad_document() {
    let docs = parse_documents("ok: here\n---\na: [unclosed\n");
    assert_eq!(docs.len(), 2);
    assert!(docs[0].is_ok());
    assert!(docs[1].is_err());
}

#[test]
fn test_to_yaml_renders_mapping_in_order() {
    let doc = Doc::Object(vec![
        ("b".to_string(), Doc::Str("two".to_string())),
        ("a".to_string(), Doc::Num("1".to_string())),
    ]);
    assert_eq!(to_yaml(&doc), "b: two\na: 1\n");
}
