use irmin_view::irmin::commands;
use irmin_view::irmin::http_client;
use irmin_view::irmin::http_client::HttpOutcome;
use irmin_view::irmin::http_client::IrminHttpConfig;
use irmin_view::irmin::integration;
use irmin_view::irmin::integration::IrminConfig;
use irmin_view::irmin::integration::ProcessOutcome;
use irmin_view::irmin::integration::TransportPlan;
use irmin_view::irmin::mock_data;
use irmin_view::irmin::types::ChangeType;
use irmin_view::irmin::types::DiffChange;
use irmin_view::irmin::types::IrminDiff;
use irmin_view::irmin::types::IrminNode;
use irmin_view::irmin::types::Resource;
use irmin_view::irmin::types::StoreError;
use irmin_view::irmin::types::Theme;
use irmin_view::ui::commands as ui_commands;
use irmin_view::ui::theme::ThemeManager;

fn same_shape(a: &IrminNode, b: &IrminNode) -> bool {
    a.key == b.key && a.node_type == b.node_type && a.children.len() == b.children.len()
        && a.children.iter().zip(b.children.iter()).all(|(x, y)| same_shape(x, y))
}

#[test]
fn mock_diff_has_one_change_of_each_kind() {
    let diff = mock_data::generate_mock_diff("commit1", "commit2");
    assert_eq!(diff.from_commit, "commit1");
    assert_eq!(diff.to_commit, "commit2");
    assert_eq!(diff.changes.len(), 3);
    let added = diff.changes.iter().filter(|c| c.change_type == ChangeType::Added).count();
    let modified = diff.changes.iter().filter(|c| c.change_type == ChangeType::Modified).count();
    let deleted = diff.changes.iter().filter(|c| c.change_type == ChangeType::Deleted).count();
    assert_eq!(added, 1);
    assert_eq!(modified, 1);
    assert_eq!(deleted, 1);
}

#[test]
fn mock_diff_changes_carry_values_per_kind() {
    let diff = mock_data::generate_mock_diff("x", "y");
    assert!(diff.respects_change_rules());
    for change in &diff.changes {
        match change.change_type {
            ChangeType::Added => {
                assert!(change.old_value.is_none());
                assert!(change.new_value.is_some());
            }
            ChangeType::Modified => {
                assert!(change.old_value.is_some());
                assert!(change.new_value.is_some());
            }
            ChangeType::Deleted => {
                assert!(change.old_value.is_some());
                assert!(change.new_value.is_none());
            }
        }
    }
}

#[test]
fn change_rule_validator_rejects_added_with_old_value() {
    let bad = IrminDiff {
        from_commit: "a".to_string(),
        to_commit: "b".to_string(),
        changes: vec![DiffChange {
            path: "/x".to_string(),
            change_type: ChangeType::Added,
            old_value: Some("stale".to_string()),
            new_value: Some("fresh".to_string()),
        }],
    };
    assert!(!bad.respects_change_rules());
}

#[test]
fn mock_tree_structure_is_deterministic() {
    let a = mock_data::generate_mock_tree();
    let b = mock_data::generate_mock_tree();
    assert!(same_shape(&a, &b));
}

#[test]
fn strict_mode_surfaces_tree_fetch_failure() {
    let config = IrminConfig::new();
    assert!(!config.fallback_enabled);
    let fetched = Err(StoreError::TransportUnreachable("connection refused".to_string()));
    let result = commands::get_tree(&config, fetched);
    let message = result.unwrap_err();
    assert_eq!(
        message,
        "Failed to get tree from Irmin store: connection refused. Please ensure Irmin server is running."
    );
}

#[test]
fn fallback_mode_answers_tree_fetch_failure_with_mock_tree() {
    let config = IrminConfig::new().with_fallback(true);
    let fetched = Err(StoreError::TransportUnreachable("connection refused".to_string()));
    let tree = commands::get_tree(&config, fetched).unwrap();
    assert!(same_shape(&tree, &mock_data::generate_mock_tree()));
}

#[test]
fn successful_fetch_is_returned_unmodified() {
    let config = IrminConfig::new();
    let tree = mock_data::generate_mock_tree();
    let key = tree.key.clone();
    let result = commands::get_tree(&config, Ok(tree)).unwrap();
    assert_eq!(result.key, key);
}

#[test]
fn fallback_mode_answers_commits_and_branches() {
    let config = IrminConfig::new().with_fallback(true);
    let commits =
        commands::get_commits(&config, Err(StoreError::Timeout)).unwrap();
    assert_eq!(commits.len(), 4);
    assert_eq!(commits[0].hash, "a1b2c3d4e5f6");
    let branches =
        commands::get_branches(&config, Err(StoreError::Timeout)).unwrap();
    assert_eq!(branches.len(), 2);
    assert_eq!(branches[0].name, "main");
}

#[test]
fn strict_mode_surfaces_commits_and_branches_failures() {
    let config = IrminConfig::new();
    let commits = commands::get_commits(&config, Err(StoreError::Timeout));
    assert_eq!(
        commits.unwrap_err(),
        "Failed to get commits from Irmin store: request timed out. Please ensure Irmin server is running."
    );
    let branches =
        commands::get_branches(&config, Err(StoreError::Malformed("bad body".to_string())));
    assert_eq!(
        branches.unwrap_err(),
        "Failed to get branches from Irmin store: bad body. Please ensure Irmin server is running."
    );
}

#[test]
fn fallback_mode_answers_diff_with_given_commits() {
    let config = IrminConfig::new().with_fallback(true);
    let diff = commands::get_commit_diff(
        &config,
        "commit1",
        "commit2",
        Err(StoreError::RemoteRejected("no".to_string())),
    )
    .unwrap();
    assert_eq!(diff.from_commit, "commit1");
    assert_eq!(diff.to_commit, "commit2");
    assert_eq!(diff.changes.len(), 3);
}

#[test]
fn search_command_uses_fetched_tree() {
    let config = IrminConfig::new();
    let tree = mock_data::generate_mock_tree();
    let results = commands::search_keys(&config, "alice", Ok(tree)).unwrap();
    assert_eq!(results.len(), 1);
    assert_eq!(results[0].path, "//users/alice.json");
}

#[test]
fn search_command_falls_back_to_mock_tree() {
    let config = IrminConfig::new().with_fallback(true);
    let results = commands::search_keys(
        &config,
        "alice",
        Err(StoreError::TransportUnreachable("down".to_string())),
    )
    .unwrap();
    assert_eq!(results.len(), 1);
    assert_eq!(results[0].path, "//users/alice.json");
}

#[test]
fn search_command_strict_mode_surfaces_failure() {
    let config = IrminConfig::new();
    let results = commands::search_keys(
        &config,
        "alice",
        Err(StoreError::TransportUnreachable("down".to_string())),
    );
    assert_eq!(
        results.unwrap_err(),
        "Failed to search in Irmin store: down. Please ensure Irmin server is running."
    );
}

#[test]
fn connect_reports_store_path_on_success() {
    let report = commands::connect_to_irmin_store("./irmin_store", Ok(())).unwrap();
    assert_eq!(report, "Successfully connected to Irmin store at: ./irmin_store");
}

#[test]
fn connect_reports_diagnostic_on_failure() {
    let probe = Err(StoreError::TransportUnreachable("no bridge".to_string()));
    let report = commands::connect_to_irmin_store("./irmin_store", probe);
    assert_eq!(report.unwrap_err(), "Failed to connect to Irmin store: no bridge");
}

#[test]
fn availability_collapses_failures_to_false() {
    assert!(commands::check_irmin_availability(Ok(())));
    assert!(!commands::check_irmin_availability(Err(StoreError::Timeout)));
    assert!(!commands::check_irmin_availability(Err(StoreError::TransportUnreachable(
        "x".to_string()
    ))));
}

#[test]
fn api_urls_follow_rest_layout() {
    let config = IrminHttpConfig::new();
    assert_eq!(
        http_client::api_url(&config, &Resource::Tree),
        "http://localhost:8080/api/tree"
    );
    assert_eq!(
        http_client::api_url(&config, &Resource::Commits),
        "http://localhost:8080/api/commits"
    );
    assert_eq!(
        http_client::api_url(&config, &Resource::Branches),
        "http://localhost:8080/api/branches"
    );
    assert_eq!(http_client::health_url(&config), "http://localhost:8080/health");
}

#[test]
fn query_parameters_are_percent_encoded() {
    let config = IrminHttpConfig::new();
    let search = http_client::api_url(
        &config,
        &Resource::Search { query: "hello world".to_string() },
    );
    assert_eq!(search, "http://localhost:8080/api/search?q=hello%20world");
    let diff = http_client::api_url(
        &config,
        &Resource::Diff { from: "x/y".to_string(), to: "z".to_string() },
    );
    assert_eq!(diff, "http://localhost:8080/api/diff?from=x%2Fy&to=z");
}

#[test]
fn bridge_arguments_follow_cli_layout() {
    let config = IrminConfig::new();
    let args = integration::bridge_args(
        &config,
        &Resource::Diff { from: "c1".to_string(), to: "c2".to_string() },
    );
    assert_eq!(args, vec!["diff", "c1", "c2", "--path", "./irmin_store"]);
    let args = integration::bridge_args(&config, &Resource::Search { query: "q".to_string() });
    assert_eq!(args, vec!["search", "q", "--path", "./irmin_store"]);
    let args = integration::bridge_args(&config, &Resource::Tree);
    assert_eq!(args, vec!["tree", "--path", "./irmin_store"]);
}

#[test]
fn plan_request_selects_configured_transport() {
    let config = IrminConfig::new();
    match integration::plan_request(&config, &Resource::Commits) {
        TransportPlan::Process { program, args } => {
            assert_eq!(program, "irmin-bridge-cli");
            assert_eq!(args, vec!["commits", "--path", "./irmin_store"]);
        }
        TransportPlan::Http { .. } => panic!("bridge transport expected"),
    }
    let config = IrminConfig::new().with_http_server("http://example.com".to_string());
    match integration::plan_request(&config, &Resource::Commits) {
        TransportPlan::Http { url, timeout_secs } => {
            assert_eq!(url, "http://example.com/api/commits");
            assert_eq!(timeout_secs, 30);
        }
        TransportPlan::Process { .. } => panic!("http transport expected"),
    }
}

#[test]
fn connect_plan_probes_health_or_tree() {
    let config = IrminConfig::new().with_http_server("http://example.com".to_string());
    match integration::connect_plan(&config) {
        TransportPlan::Http { url, .. } => assert_eq!(url, "http://example.com/health"),
        TransportPlan::Process { .. } => panic!("http transport expected"),
    }
    let config = IrminConfig::new();
    match integration::connect_plan(&config) {
        TransportPlan::Process { program, args } => {
            assert_eq!(program, "irmin-bridge-cli");
            assert_eq!(args, vec!["tree", "--path", "./irmin_store"]);
        }
        TransportPlan::Http { .. } => panic!("bridge transport expected"),
    }
}

#[test]
fn http_outcomes_map_to_error_kinds() {
    let ok = http_client::interpret_http_outcome(HttpOutcome::Response {
        success: true,
        body: "[]".to_string(),
    });
    assert_eq!(ok.unwrap(), "[]");

    let rejected = http_client::interpret_http_outcome(HttpOutcome::Response {
        success: false,
        body: "nope".to_string(),
    });
    match rejected.unwrap_err() {
        StoreError::RemoteRejected(d) => assert_eq!(d, "Server error: nope"),
        _ => panic!("remote rejection expected"),
    }

    let timeout = http_client::interpret_http_outcome(HttpOutcome::NoResponse {
        timed_out: true,
        detail: "slow".to_string(),
    });
    let err = timeout.unwrap_err();
    assert!(matches!(err, StoreError::Timeout));
    assert_eq!(err.message(), "request timed out");

    let unreachable = http_client::interpret_http_outcome(HttpOutcome::NoResponse {
        timed_out: false,
        detail: "refused".to_string(),
    });
    match unreachable.unwrap_err() {
        StoreError::TransportUnreachable(d) => assert_eq!(d, "refused"),
        _ => panic!("unreachable transport expected"),
    }
}

#[test]
fn health_verdict_requires_success_status() {
    let healthy = http_client::health_verdict(HttpOutcome::Response {
        success: true,
        body: "ok".to_string(),
    });
    assert!(healthy.is_ok());
    let unhealthy = http_client::health_verdict(HttpOutcome::Response {
        success: false,
        body: "err".to_string(),
    });
    match unhealthy.unwrap_err() {
        StoreError::RemoteRejected(d) => assert_eq!(d, "Irmin server is not healthy"),
        _ => panic!("remote rejection expected"),
    }
}

#[test]
fn process_outcomes_map_to_error_kinds() {
    let ok = integration::interpret_process_outcome(ProcessOutcome::Completed {
        exit_ok: true,
        stdout: "{}".to_string(),
        stderr: String::new(),
    });
    assert_eq!(ok.unwrap(), "{}");

    let failed = integration::interpret_process_outcome(ProcessOutcome::Completed {
        exit_ok: false,
        stdout: String::new(),
        stderr: "boom".to_string(),
    });
    match failed.unwrap_err() {
        StoreError::RemoteRejected(d) => assert_eq!(d, "Bridge command failed: boom"),
        _ => panic!("remote rejection expected"),
    }

    let spawn = integration::interpret_process_outcome(ProcessOutcome::SpawnFailed {
        detail: "not found".to_string(),
    });
    match spawn.unwrap_err() {
        StoreError::TransportUnreachable(d) => assert_eq!(d, "not found"),
        _ => panic!("unreachable transport expected"),
    }
}

#[test]
fn mock_timestamps_are_after_epoch() {
    let tree = mock_data::generate_mock_tree();
    assert!(tree.metadata.last_modified > 1_000_000_000);
    let config = tree.child("config.json").unwrap();
    assert!(config.metadata.last_modified > 1_000_000_000);
    assert!(config.metadata.last_modified < tree.metadata.last_modified);
}

#[test]
fn theme_manager_starts_light_and_toggles() {
    let mut manager = ThemeManager::new();
    assert_eq!(*manager.get_theme(), Theme::Light);
    assert_eq!(*manager.toggle(), Theme::Dark);
    assert_eq!(*manager.toggle(), Theme::Light);
    manager.set_theme(Theme::System);
    assert_eq!(*manager.get_theme(), Theme::System);
    assert_eq!(*manager.toggle(), Theme::Light);
}

#[test]
fn theme_commands_flip_session_state() {
    let mut manager = ThemeManager::default();
    assert_eq!(ui_commands::get_current_theme(&manager), Ok(Theme::Light));
    assert_eq!(ui_commands::toggle_theme(&mut manager), Ok(Theme::Dark));
    assert_eq!(ui_commands::get_current_theme(&manager), Ok(Theme::Dark));
    assert_eq!(ui_commands::toggle_theme(&mut manager), Ok(Theme::Light));
}
