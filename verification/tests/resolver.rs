use runtime_supervisor::resolver::{
    first_existing, interpreter_candidates, join, module_candidates, render_search_list,
    resolve_cache_directory, resolve_enhanced_search_path, resolve_interpreter, resolve_location,
    resolve_module_search_path, resolve_paths, version_query, Candidate, DeploymentContext,
    PARENT_LEVELS,
};
use runtime_supervisor::spawn::Platform;

fn strings(items: &[&str]) -> Vec<String> {
    items.iter().map(|s| s.to_string()).collect()
}

fn linux_candidates() -> Vec<Candidate> {
    interpreter_candidates(
        Platform::Linux,
        &strings(&["/opt/app/bin", "/opt/app", "/opt", "/"]),
        &strings(&["runtime", "node"]),
        "node",
        "node",
    )
}

#[test]
fn candidates_start_beside_the_executable_and_end_on_the_search_path() {
    let candidates = linux_candidates();
    assert_eq!(candidates.len(), 5);
    assert_eq!(candidates[0].context, DeploymentContext::Bundled);
    assert_eq!(candidates[0].location, "/opt/app/bin/runtime/node/node");
    assert_eq!(candidates[0].directory.as_deref(), Some("/opt/app/bin/runtime/node"));
    assert_eq!(candidates[1].context, DeploymentContext::Development);
    assert_eq!(candidates[1].location, "/opt/app/runtime/node/node");
    assert_eq!(candidates[2].location, "/opt/runtime/node/node");
    assert_eq!(candidates[3].context, DeploymentContext::Development);
    assert_eq!(candidates[3].location, "//runtime/node/node");
    assert_eq!(candidates[4].context, DeploymentContext::System);
    assert_eq!(candidates[4].location, "node");
    assert_eq!(candidates[4].directory, None);
}

#[test]
fn at_most_six_parents_are_searched() {
    assert_eq!(PARENT_LEVELS, 6);
    let ancestors = strings(&["a0", "a1", "a2", "a3", "a4", "a5", "a6", "a7", "a8"]);
    let candidates =
        interpreter_candidates(Platform::Windows, &ancestors, &strings(&["rt"]), "node.exe", "node");
    assert_eq!(candidates.len(), 8);
    assert_eq!(candidates[0].location, "a0\\rt\\node.exe");
    assert_eq!(candidates[6].location, "a6\\rt\\node.exe");
    assert_eq!(candidates[6].context, DeploymentContext::Development);
    assert_eq!(candidates[7].context, DeploymentContext::System);
    assert_eq!(candidates[7].location, "node");
}

#[test]
fn unknown_executable_location_leaves_the_system_interpreter() {
    let candidates =
        interpreter_candidates(Platform::MacOs, &Vec::new(), &strings(&["rt"]), "node", "node");
    assert_eq!(candidates.len(), 1);
    assert_eq!(candidates[0].context, DeploymentContext::System);
}

#[test]
fn bundled_runtime_wins() {
    let resolved = resolve_interpreter(linux_candidates(), &vec![true, true, false, false, true])
        .expect("a bundled runtime is there");
    assert_eq!(resolved.context, DeploymentContext::Bundled);
    assert_eq!(resolved.location, "/opt/app/bin/runtime/node/node");
}

#[test]
fn development_tree_is_found_at_the_nearest_parent() {
    let resolved = resolve_interpreter(linux_candidates(), &vec![false, false, true, true, true])
        .expect("a parent directory holds the runtime");
    assert_eq!(resolved.context, DeploymentContext::Development);
    assert_eq!(resolved.location, "/opt/runtime/node/node");
    assert_eq!(resolved.directory.as_deref(), Some("/opt/runtime/node"));
}

#[test]
fn system_interpreter_is_the_last_resort() {
    let resolved = resolve_interpreter(linux_candidates(), &vec![false, false, false, false, true])
        .expect("the system has an interpreter");
    assert_eq!(resolved.context, DeploymentContext::System);
    assert_eq!(resolved.location, "node");
    assert_eq!(resolved.directory, None);
}

#[test]
fn nothing_present_is_not_found_with_all_candidates_tried() {
    let missing = resolve_interpreter(linux_candidates(), &vec![false; 5])
        .expect_err("nothing is there");
    assert_eq!(
        missing.tried,
        strings(&[
            "/opt/app/bin/runtime/node/node",
            "/opt/app/runtime/node/node",
            "/opt/runtime/node/node",
            "//runtime/node/node",
            "node",
        ])
    );
}

#[test]
fn missing_reports_count_as_not_found() {
    let missing = resolve_interpreter(linux_candidates(), &vec![false, false]).expect_err("short");
    assert_eq!(missing.tried.len(), 5);
    let resolved = resolve_interpreter(linux_candidates(), &vec![false, true]).expect("second");
    assert_eq!(resolved.location, "/opt/app/runtime/node/node");
    // Reports beyond the candidates are ignored.
    let extra = resolve_interpreter(linux_candidates(), &vec![false, false, false, false, false, true]);
    assert!(extra.is_err());
}

#[test]
fn first_existing_finds_the_least_index() {
    assert_eq!(first_existing(&vec![false, true, true], 3), Some(1));
    assert_eq!(first_existing(&vec![false, true, true], 1), None);
    assert_eq!(first_existing(&vec![true], 5), Some(0));
    assert_eq!(first_existing(&vec![false, false], 5), None);
    assert_eq!(first_existing(&Vec::new(), 0), None);
}

#[test]
fn plain_locations_are_resolved_like_candidates() {
    let found = resolve_location(strings(&["a", "b", "c"]), &vec![false, true, true]);
    assert_eq!(found.expect("b exists"), "b");
    let missing = resolve_location(strings(&["a", "b"]), &vec![false, false]).expect_err("none");
    assert_eq!(missing.tried, strings(&["a", "b"]));
}

#[test]
fn version_query_asks_the_program_itself() {
    let query = version_query("node");
    assert_eq!(query.program, "node");
    assert_eq!(query.args, strings(&["--version"]));
    assert!(query.env.is_empty());
    assert!(query.working_dir.is_none());
    assert!(!query.hide_window);
}

#[test]
fn paths_are_joined_with_the_platform_separator() {
    assert_eq!(join(Platform::Linux, "/a", &strings(&["b", "c"])), "/a/b/c");
    assert_eq!(join(Platform::MacOs, "/a", &strings(&[])), "/a");
    assert_eq!(join(Platform::Windows, "C:\\a", &strings(&["b", "c.exe"])), "C:\\a\\b\\c.exe");
    assert_eq!(join(Platform::Linux, "", &strings(&["x"])), "/x");
}

#[test]
fn module_candidates_follow_the_ancestors() {
    let candidates = module_candidates(
        Platform::Linux,
        &strings(&["/opt/app/bin", "/opt/app"]),
        &strings(&["node_modules"]),
    );
    assert_eq!(candidates, strings(&["/opt/app/bin/node_modules", "/opt/app/node_modules"]));
    let many = module_candidates(
        Platform::Linux,
        &strings(&["0", "1", "2", "3", "4", "5", "6", "7"]),
        &strings(&["m"]),
    );
    assert_eq!(many.len(), 7);
    assert_eq!(many[6], "6/m");
}

#[test]
fn module_search_path_is_existing_only_and_deduplicated() {
    let candidates = strings(&["/a", "/b", "/a", "/c", "/b", "/d"]);
    let found = vec![true, false, true, true, true, false];
    assert_eq!(resolve_module_search_path(&candidates, &found), strings(&["/a", "/c", "/b"]));
    assert!(resolve_module_search_path(&candidates, &Vec::new()).is_empty());
    assert!(resolve_module_search_path(&Vec::new(), &vec![true]).is_empty());
    assert_eq!(
        resolve_module_search_path(&strings(&["/x", "/x"]), &vec![false, true]),
        strings(&["/x"])
    );
}

#[test]
fn cache_directory_prefers_the_application_data_root() {
    assert_eq!(
        resolve_cache_directory(
            Platform::Windows,
            "azmi",
            "browsers",
            &Some("C:\\Users\\u\\AppData\\Local".to_string()),
            &Some("C:\\Users\\u".to_string()),
            "C:\\Program Files\\Azmi",
        ),
        "C:\\Users\\u\\AppData\\Local\\azmi\\browsers"
    );
}

#[test]
fn cache_directory_falls_back_to_home() {
    assert_eq!(
        resolve_cache_directory(
            Platform::Linux,
            "azmi",
            "browsers",
            &None,
            &Some("/home/u".to_string()),
            "/opt/azmi",
        ),
        "/home/u/.azmi/browsers"
    );
    assert_eq!(
        resolve_cache_directory(
            Platform::Linux,
            "azmi",
            "browsers",
            &Some(String::new()),
            &Some("/home/u".to_string()),
            "/opt/azmi",
        ),
        "/home/u/.azmi/browsers"
    );
}

#[test]
fn cache_directory_is_never_empty() {
    let beside = resolve_cache_directory(Platform::MacOs, "azmi", "browsers", &None, &None, "/Applications/Azmi");
    assert_eq!(beside, "/Applications/Azmi/browsers");
    let nothing = resolve_cache_directory(Platform::Linux, "", "", &None, &Some(String::new()), "");
    assert_eq!(nothing, "/");
    assert!(!nothing.is_empty());
}

#[test]
fn enhanced_search_path_puts_the_runtime_first() {
    assert_eq!(
        resolve_enhanced_search_path(Platform::Linux, &Some("/opt/rt".to_string()), "/usr/bin:/bin"),
        "/opt/rt:/usr/bin:/bin"
    );
    assert_eq!(
        resolve_enhanced_search_path(Platform::Windows, &Some("C:\\rt".to_string()), "C:\\Windows"),
        "C:\\rt;C:\\Windows"
    );
    assert_eq!(resolve_enhanced_search_path(Platform::Linux, &Some("/opt/rt".to_string()), ""), "/opt/rt");
    assert_eq!(resolve_enhanced_search_path(Platform::Linux, &None, "/usr/bin"), "/usr/bin");
    assert_eq!(resolve_enhanced_search_path(Platform::Linux, &None, ""), "");
}

#[test]
fn search_lists_use_the_list_separator() {
    assert_eq!(render_search_list(Platform::Linux, &strings(&["/a", "/b", "/c"])), "/a:/b:/c");
    assert_eq!(render_search_list(Platform::Windows, &strings(&["a", "b"])), "a;b");
    assert_eq!(render_search_list(Platform::MacOs, &strings(&["/only"])), "/only");
    assert_eq!(render_search_list(Platform::MacOs, &strings(&[])), "");
}

#[test]
fn resolved_paths_put_the_searches_together() {
    let interpreter = Candidate {
        context: DeploymentContext::Development,
        location: "/src/rt/node".to_string(),
        directory: Some("/src/rt".to_string()),
    };
    let paths = resolve_paths(
        Platform::Linux,
        interpreter,
        strings(&["/src/node_modules"]),
        "/home/u/.azmi/browsers".to_string(),
        "/usr/bin",
    );
    assert_eq!(paths.context, DeploymentContext::Development);
    assert_eq!(paths.interpreter_executable, "/src/rt/node");
    assert_eq!(paths.module_search_path, strings(&["/src/node_modules"]));
    assert_eq!(paths.cache_directory, "/home/u/.azmi/browsers");
    assert_eq!(paths.enhanced_search_path, "/src/rt:/usr/bin");
}
