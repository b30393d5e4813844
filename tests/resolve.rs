use ra_driver::config::{capability_flags, finish_config, plan_config, CapabilityFlags, ClientCaps, InitializeInput};
use ra_driver::options::{option_key, OptionEntry, OptionKey, OptionValue, Options};
use ra_driver::workspace::{candidate_roots, is_manifest_name, collect_linked_projects, resolve_root, select_root, DiscoveryError};

fn no_caps() -> ClientCaps {
    ClientCaps { definition_link_support: None, hierarchical_document_symbols: None, code_action_literals: None, work_done_progress: None }
}

fn entry(key: &str, value: OptionValue) -> OptionEntry {
    OptionEntry { key: key.to_string(), value }
}

#[test]
fn root_falls_back_to_working_directory() {
    assert_eq!(resolve_root(&None, "/home/me".to_string()), "/home/me");
    assert_eq!(select_root(Some("relative".to_string()), "/cwd".to_string()), "/cwd");
    assert_eq!(select_root(Some("/abs".to_string()), "/cwd".to_string()), "/abs");
    assert_eq!(select_root(None, "/cwd".to_string()), "/cwd");
}

#[test]
fn root_uri_converts_to_path() {
    assert_eq!(resolve_root(&Some("file:///ws".to_string()), "/cwd".to_string()), "/ws");
    assert_eq!(resolve_root(&Some("not a uri".to_string()), "/cwd".to_string()), "/cwd");
}

#[test]
fn candidates_keep_converted_folders_in_order() {
    let conv = vec![Some("/b".to_string()), None, Some("rel".to_string()), Some("/a".to_string())];
    assert_eq!(candidate_roots(conv, &"/root".to_string()), vec!["/b".to_string(), "/a".to_string()]);
    assert_eq!(candidate_roots(vec![None], &"/root".to_string()), vec!["/root".to_string()]);
    assert_eq!(candidate_roots(vec![], &"/root".to_string()), vec!["/root".to_string()]);
}

#[test]
fn linked_projects_follow_roots_and_skip_failures() {
    let per_root = vec![
        Ok(vec!["/a/Cargo.toml".to_string(), "/a/x/Cargo.toml".to_string()]),
        Err(DiscoveryError::Unreadable),
        Ok(vec!["/a/Cargo.toml".to_string()]),
    ];
    let got: Vec<String> = collect_linked_projects(&per_root).into_iter().map(|p| p.manifest).collect();
    assert_eq!(got, vec!["/a/Cargo.toml", "/a/x/Cargo.toml", "/a/Cargo.toml"]);
    let again: Vec<String> = collect_linked_projects(&per_root).into_iter().map(|p| p.manifest).collect();
    assert_eq!(got, again);
}

#[test]
fn recognized_options_override_and_others_are_ignored() {
    let mut o = Options::new();
    assert!(o.with_sysroot);
    o.update(&vec![
        entry("/withSysroot", OptionValue::Bool(false)),
        entry("/unknown/key", OptionValue::Number(3)),
        entry("/cargo/features", OptionValue::List(vec!["f1".to_string()])),
        entry("/lruCapacity", OptionValue::Text("wrong shape".to_string())),
        entry("/cargo/target", OptionValue::Text("wasm32".to_string())),
        entry("/lruCapacity", OptionValue::Number(64)),
        entry("/procMacro/enable", OptionValue::Other),
    ]);
    assert!(!o.with_sysroot);
    assert_eq!(o.cargo_features, vec!["f1".to_string()]);
    assert_eq!(o.cargo_target, Some("wasm32".to_string()));
    assert_eq!(o.lru_capacity, Some(64));
    assert!(!o.proc_macro_enable);
    assert!(o.linked_projects.is_empty());
}

#[test]
fn later_entry_wins() {
    let mut o = Options::new();
    o.update(&vec![entry("/cargo/allFeatures", OptionValue::Bool(true)), entry("/cargo/allFeatures", OptionValue::Bool(false))]);
    assert!(!o.cargo_all_features);
}

#[test]
fn option_keys() {
    assert_eq!(option_key("/linkedProjects"), Some(OptionKey::LinkedProjects));
    assert_eq!(option_key("/cargo/loadOutDirsFromCheck"), Some(OptionKey::CargoLoadOutDirsFromCheck));
    assert_eq!(option_key("linkedProjects"), None);
}

#[test]
fn capabilities_default_to_not_offered() {
    let caps = ClientCaps { definition_link_support: Some(true), hierarchical_document_symbols: Some(false), code_action_literals: None, work_done_progress: Some(true) };
    assert_eq!(
        capability_flags(&caps),
        CapabilityFlags { location_link: true, hierarchical_symbols: false, code_action_literals: false, work_done_progress: true }
    );
}

#[test]
fn server_invocation_with_root_ws_discovers_in_ws_alone() {
    let input = InitializeInput { root_uri: Some("file:///ws".to_string()), workspace_folders: Some(vec![]), initialization_options: None, capabilities: no_caps() };
    let plan = plan_config(input, "/elsewhere".to_string());
    assert_eq!(plan.config.root_path, "/ws");
    assert_eq!(plan.discover_in, vec!["/ws".to_string()]);
    let config = finish_config(plan, &vec![Ok(vec!["/ws/Cargo.toml".to_string()])]);
    assert_eq!(config.linked_projects.len(), 1);
    assert_eq!(config.linked_projects[0].manifest, "/ws/Cargo.toml");
}

#[test]
fn no_root_and_no_folders_uses_working_directory() {
    let input = InitializeInput { root_uri: None, workspace_folders: None, initialization_options: None, capabilities: no_caps() };
    let plan = plan_config(input, "/cwd".to_string());
    assert_eq!(plan.config.root_path, "/cwd");
    assert_eq!(plan.discover_in, vec!["/cwd".to_string()]);
}

#[test]
fn workspace_folders_become_candidates() {
    let input = InitializeInput {
        root_uri: Some("file:///ws".to_string()),
        workspace_folders: Some(vec!["file:///a".to_string(), "http://host/x".to_string(), "file:///b".to_string()]),
        initialization_options: None,
        capabilities: no_caps(),
    };
    let plan = plan_config(input, "/cwd".to_string());
    assert_eq!(plan.discover_in, vec!["/a".to_string(), "/b".to_string()]);
}

#[test]
fn declared_projects_skip_discovery() {
    let input = InitializeInput {
        root_uri: None,
        workspace_folders: None,
        initialization_options: Some(vec![entry("/linkedProjects", OptionValue::List(vec!["/p/Cargo.toml".to_string()]))]),
        capabilities: no_caps(),
    };
    let plan = plan_config(input, "/cwd".to_string());
    assert!(plan.discover_in.is_empty());
    let config = finish_config(plan, &vec![Ok(vec!["/ignored/Cargo.toml".to_string()])]);
    assert_eq!(config.linked_projects.len(), 1);
    assert_eq!(config.linked_projects[0].manifest, "/p/Cargo.toml");
}

#[test]
fn manifest_names() {
    assert!(is_manifest_name("Cargo.toml"));
    assert!(is_manifest_name("rust-project.json"));
    assert!(!is_manifest_name("Cargo.lock"));
    assert!(!is_manifest_name("cargo.toml"));
}
