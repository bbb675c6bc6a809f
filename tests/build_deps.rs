use cargo_build_deps::command::{
    after_build, build_arguments, build_invocations, final_exit_code, BuildStep,
};
use cargo_build_deps::metadata::{document_ids, member, package_ids, Json, MetadataError};
use cargo_build_deps::package::{
    is_local_source, local_directory, package_name, package_spec, split_package_id,
};
use cargo_build_deps::plan::{
    dependency_packages, plan_builds, target_directory, PlanError, Selection,
};
use cargo_build_deps::text::{trim_end_matches_all, trim_start_matches_all};

fn strings(items: &[&str]) -> Vec<String> {
    items.iter().map(|s| s.to_string()).collect()
}

fn no_selection() -> Selection {
    Selection {
        ignore_local_packages: true,
        ignore_pkgs: Vec::new(),
        ignore_pkg_vers: Vec::new(),
        with_pkgs: Vec::new(),
    }
}

fn workspace_ids() -> Vec<String> {
    strings(&[
        "serde 1.0.100 (registry+https://github.com/rust-lang/crates.io-index)",
        "app 0.1.0 (path+file:///home/me/ws/app)",
        "util 0.2.0 (path+file:///home/me/ws/util)",
        "log 0.4.8 (registry+https://github.com/rust-lang/crates.io-index)",
        "serde 1.0.99 (registry+https://github.com/rust-lang/crates.io-index)",
    ])
}

const METADATA: &str = r#"{
  "packages": [
    {"name": "app", "id": "app 0.1.0 (path+file:///home/me/ws/app)"},
    {"name": "log", "id": "log 0.4.8 (registry+https://github.com/rust-lang/crates.io-index)"}
  ],
  "version": 1
}"#;

#[test]
fn splits_id_at_first_two_spaces() {
    let p = split_package_id("a b c d").unwrap();
    assert_eq!(p.name, "a");
    assert_eq!(p.version, "b");
    assert_eq!(p.source, "c d");
}

#[test]
fn id_with_too_few_spaces_does_not_split() {
    assert!(split_package_id("a b").is_none());
    assert!(split_package_id("abc").is_none());
    assert!(split_package_id("").is_none());
}

#[test]
fn name_is_text_before_first_space() {
    assert_eq!(package_name("serde 1.0 (x)"), "serde");
    assert_eq!(package_name("lonely"), "lonely");
    assert_eq!(package_name(" x"), "");
}

#[test]
fn trims_repeated_prefixes_and_suffixes() {
    assert_eq!(trim_start_matches_all("ababc", "ab"), "c");
    assert_eq!(trim_start_matches_all("abc", ""), "abc");
    assert_eq!(trim_end_matches_all("x)))", ")"), "x");
    assert_eq!(trim_end_matches_all(")))", ")"), "");
}

#[test]
fn local_sources() {
    assert!(is_local_source("(path+file:///home/me/ws/app)"));
    assert!(!is_local_source("(registry+https://github.com/rust-lang/crates.io-index)"));
    assert_eq!(local_directory("(path+file:///home/me/ws/app)"), "/home/me/ws/app");
    assert_eq!(local_directory("(path+file:///a/é)"), "/a/é");
}

#[test]
fn joins_name_and_version() {
    assert_eq!(package_spec("serde", "1.0.100"), "serde:1.0.100");
}

#[test]
fn finds_target_directory() {
    assert_eq!(target_directory(&workspace_ids(), "app"), Ok("/home/me/ws/app".to_string()));
    assert_eq!(target_directory(&workspace_ids(), "nope"), Err(PlanError::MissingTarget));
    assert_eq!(target_directory(&strings(&["app 0.1.0"]), "app"), Err(PlanError::MissingPath));
}

#[test]
fn keeps_registry_dependencies_in_order() {
    let deps = dependency_packages(&workspace_ids(), "app", &no_selection()).unwrap();
    assert_eq!(deps, strings(&["serde:1.0.100", "log:0.4.8", "serde:1.0.99"]));
}

#[test]
fn keeps_local_packages_when_asked() {
    let mut sel = no_selection();
    sel.ignore_local_packages = false;
    let deps = dependency_packages(&workspace_ids(), "app", &sel).unwrap();
    assert_eq!(deps, strings(&["serde:1.0.100", "util:0.2.0", "log:0.4.8", "serde:1.0.99"]));
}

#[test]
fn ignores_names_and_specs() {
    let mut sel = no_selection();
    sel.ignore_pkgs = strings(&["log"]);
    sel.ignore_pkg_vers = strings(&["serde:1.0.99"]);
    let deps = dependency_packages(&workspace_ids(), "app", &sel).unwrap();
    assert_eq!(deps, strings(&["serde:1.0.100"]));
}

#[test]
fn malformed_id_fails_selection() {
    let mut ids = workspace_ids();
    ids.push("broken 1.0".to_string());
    assert_eq!(
        dependency_packages(&ids, "app", &no_selection()),
        Err(PlanError::MalformedId)
    );
}

#[test]
fn plan_appends_extra_packages() {
    let mut sel = no_selection();
    sel.with_pkgs = strings(&["extra:1.2.3", "serde:1.0.100"]);
    let plan = plan_builds(&workspace_ids(), "app", &sel).unwrap();
    assert_eq!(plan.directory, "/home/me/ws/app");
    assert_eq!(
        plan.packages,
        strings(&["serde:1.0.100", "log:0.4.8", "serde:1.0.99", "extra:1.2.3", "serde:1.0.100"])
    );
}

#[test]
fn plan_errors() {
    assert!(matches!(
        plan_builds(&workspace_ids(), "missing", &no_selection()),
        Err(PlanError::MissingTarget)
    ));
    let mut ids = workspace_ids();
    ids.push("broken".to_string());
    assert!(matches!(plan_builds(&ids, "app", &no_selection()), Err(PlanError::MalformedId)));
    assert!(matches!(
        plan_builds(&strings(&["app 0.1.0", "x 1 y"]), "app", &no_selection()),
        Err(PlanError::MissingPath)
    ));
}

#[test]
fn plan_with_only_target_is_empty() {
    let plan = plan_builds(&strings(&["app 0.1.0 (path+file:///w)"]), "app", &no_selection()).unwrap();
    assert_eq!(plan.directory, "/w");
    assert!(plan.packages.is_empty());
}

#[test]
fn reads_package_ids_from_metadata() {
    let ids = package_ids(METADATA).unwrap();
    assert_eq!(
        ids,
        strings(&[
            "app 0.1.0 (path+file:///home/me/ws/app)",
            "log 0.4.8 (registry+https://github.com/rust-lang/crates.io-index)",
        ])
    );
    let plan = plan_builds(&ids, "app", &no_selection()).unwrap();
    assert_eq!(plan.packages, strings(&["log:0.4.8"]));
}

#[test]
fn metadata_errors() {
    assert_eq!(package_ids("not json"), Err(MetadataError::InvalidJson));
    assert_eq!(package_ids("{\"packages\": []} x"), Err(MetadataError::InvalidJson));
    assert_eq!(package_ids("{}"), Err(MetadataError::MissingPackages));
    assert_eq!(package_ids("[1]"), Err(MetadataError::MissingPackages));
    assert_eq!(package_ids("{\"packages\": 3}"), Err(MetadataError::PackagesNotArray));
    assert_eq!(package_ids("{\"packages\": [{}]}"), Err(MetadataError::MissingId));
    assert_eq!(package_ids("{\"packages\": [{\"id\": 7}]}"), Err(MetadataError::IdNotString));
    assert_eq!(package_ids("{\"packages\": []}"), Ok(Vec::new()));
}

#[test]
fn build_arguments_in_order() {
    assert_eq!(build_arguments("log:0.4.8", false, &None), strings(&["build", "-p", "log:0.4.8"]));
    assert_eq!(
        build_arguments("log:0.4.8", true, &Some("a b".to_string())),
        strings(&["build", "-p", "log:0.4.8", "--release", "--features", "a b"])
    );
    let runs = build_invocations(&strings(&["a:1", "b:2"]), false, &Some("f".to_string()));
    assert_eq!(runs.len(), 2);
    assert_eq!(runs[1], strings(&["build", "-p", "b:2", "--features", "f"]));
}

#[test]
fn exit_code_is_that_of_first_failed_build() {
    assert_eq!(final_exit_code(&Vec::new()), 0);
    assert_eq!(final_exit_code(&vec![Some(0), Some(0)]), 0);
    assert_eq!(final_exit_code(&vec![Some(3), Some(0)]), 3);
    assert_eq!(final_exit_code(&vec![Some(0), Some(101), Some(2)]), 101);
    assert_eq!(final_exit_code(&vec![Some(0), None, Some(4)]), 1);
}

#[test]
fn stops_after_a_failed_build() {
    assert_eq!(after_build(Some(0)), BuildStep::Continue);
    assert_eq!(after_build(Some(101)), BuildStep::Stop(101));
    assert_eq!(after_build(Some(-1)), BuildStep::Stop(-1));
    assert_eq!(after_build(None), BuildStep::Stop(1));
}

#[test]
fn target_never_selected_whatever_its_version() {
    let ids = strings(&[
        "app 0.1.0 (path+file:///w)",
        "app 0.2.0 (registry+https://github.com/rust-lang/crates.io-index)",
        "log 0.4.8 (registry+https://github.com/rust-lang/crates.io-index)",
    ]);
    let mut sel = no_selection();
    sel.ignore_local_packages = false;
    let plan = plan_builds(&ids, "app", &sel).unwrap();
    assert_eq!(plan.directory, "/w");
    assert_eq!(plan.packages, strings(&["log:0.4.8"]));
}

fn entry(id: Json) -> Json {
    Json::Object(vec![("name".to_string(), Json::Str("x".to_string())), ("id".to_string(), id)])
}

fn document(packages: Json) -> Json {
    Json::Object(vec![("packages".to_string(), packages), ("version".to_string(), Json::Number("1".to_string()))])
}

#[test]
fn document_ids_in_order() {
    let doc = document(Json::Array(vec![
        entry(Json::Str("a 1 (x)".to_string())),
        entry(Json::Str("b 2 (y)".to_string())),
    ]));
    assert_eq!(document_ids(&doc), Ok(strings(&["a 1 (x)", "b 2 (y)"])));
}

#[test]
fn document_ids_first_fault_decides() {
    let doc = document(Json::Array(vec![
        entry(Json::Str("a 1 (x)".to_string())),
        Json::Object(Vec::new()),
        entry(Json::Bool(true)),
    ]));
    assert_eq!(document_ids(&doc), Err(MetadataError::MissingId));
    let doc = document(Json::Array(vec![entry(Json::Null), Json::Object(Vec::new())]));
    assert_eq!(document_ids(&doc), Err(MetadataError::IdNotString));
    assert_eq!(document_ids(&document(Json::Str("p".to_string()))), Err(MetadataError::PackagesNotArray));
    assert_eq!(document_ids(&Json::Array(Vec::new())), Err(MetadataError::MissingPackages));
}

#[test]
fn member_takes_first_matching_key() {
    let obj = Json::Object(vec![
        ("k".to_string(), Json::Bool(false)),
        ("k".to_string(), Json::Bool(true)),
    ]);
    assert_eq!(member(&obj, "k"), Some(&Json::Bool(false)));
    assert_eq!(member(&obj, "z"), None);
    assert_eq!(member(&Json::Null, "k"), None);
}

#[test]
fn metadata_first_bad_package_decides() {
    assert_eq!(
        package_ids("{\"packages\": [{\"id\": \"a 1 (x)\"}, {\"id\": 3}, {}]}"),
        Err(MetadataError::IdNotString)
    );
    assert_eq!(
        package_ids("{\"packages\": [{\"id\": \"a 1 (x)\", \"n\": [1.5, null, {\"q\": false}]}]}"),
        Ok(strings(&["a 1 (x)"]))
    );
}
