use restic_manager::config::{Job, Repository};
use restic_manager::tui::{
    is_daemon_process, is_pid_name, list_outcome, move_selection, snapshots_outcome, Action, App, CommandExit, Key,
    KeyPress, LoadOutcome, MAX_LOG_LINES,
};

fn key(c: char) -> KeyPress {
    KeyPress { key: Key::Char(c), ctrl: false }
}

fn app_with_jobs() -> App {
    let mut app = App::new(false, 0);
    let a = app.jobs_loaded(LoadOutcome::Loaded(vec!["alpha".to_string(), "beta".to_string()]));
    match a {
        Action::LoadJobDetails(n) => assert_eq!(n, "alpha"),
        _ => panic!("expected details of the highlighted job"),
    }
    app
}

#[test]
fn sidebar_wraps_both_ways() {
    assert_eq!(move_selection(0, true), 1);
    assert_eq!(move_selection(2, true), 0);
    assert_eq!(move_selection(0, false), 2);
    let mut app = App::new(false, 0);
    app.handle_key(KeyPress { key: Key::Up, ctrl: false }, 0);
    assert_eq!(app.sidebar_selected, 2);
    app.handle_key(key('j'), 0);
    assert_eq!(app.sidebar_selected, 0);
    app.handle_key(key('L'), 0);
    assert_eq!(app.sidebar_selected, 2);
}

#[test]
fn quit_keys() {
    let mut app = App::new(false, 0);
    assert!(matches!(app.handle_key(key('q'), 0), Action::Quit));
    assert!(matches!(app.handle_key(KeyPress { key: Key::Esc, ctrl: false }, 0), Action::Quit));
    assert!(matches!(app.handle_key(KeyPress { key: Key::Char('c'), ctrl: true }, 0), Action::Quit));
}

#[test]
fn help_overlay_swallows_keys_until_closed() {
    let mut app = App::new(false, 0);
    app.handle_key(key('?'), 0);
    assert!(app.show_help);
    assert!(matches!(app.handle_key(key('q'), 0), Action::Nothing));
    assert!(app.show_help);
    app.handle_key(KeyPress { key: Key::Esc, ctrl: false }, 0);
    assert!(!app.show_help);
}

#[test]
fn list_navigation_and_selection() {
    let mut app = app_with_jobs();
    app.handle_key(key('n'), 0);
    assert_eq!(app.job_list_index, 1);
    app.handle_key(key('n'), 0);
    assert_eq!(app.job_list_index, 0);
    app.handle_key(key('p'), 0);
    assert_eq!(app.job_list_index, 1);
    match app.handle_key(KeyPress { key: Key::Enter, ctrl: false }, 0) {
        Action::LoadJobDetails(n) => assert_eq!(n, "beta"),
        _ => panic!("expected details to load"),
    }
    assert_eq!(app.selected_job.as_deref(), Some("beta"));
}

#[test]
fn commands_need_a_selected_job_and_run_one_at_a_time() {
    let mut app = app_with_jobs();
    assert!(matches!(app.handle_key(key('r'), 7), Action::Nothing));
    assert_eq!(app.build_status_text(7), "Select a job first");
    app.handle_key(KeyPress { key: Key::Enter, ctrl: false }, 0);
    match app.handle_key(key('r'), 10) {
        Action::RunCommand { label, args } => {
            assert_eq!(label, "run: alpha");
            assert_eq!(args, vec!["run", "alpha"]);
        }
        _ => panic!("expected a command"),
    }
    assert_eq!(app.logs.last().unwrap(), "--- starting: run: alpha ---");
    assert!(matches!(app.handle_key(key('P'), 20), Action::Nothing));
    assert_eq!(app.build_status_text(20), "A command is already running");
    app.command_finished("run: alpha", CommandExit::Code(1), 30);
    assert_eq!(app.logs.last().unwrap(), "--- command finished: exit code 1 ---");
    assert_eq!(app.build_status_text(30), "error: run: alpha failed (exit 1)");
    assert!(app.running_label.is_none());
    match app.handle_key(key('c'), 40) {
        Action::RunCommand { args, .. } => assert_eq!(args, vec!["check", "alpha"]),
        _ => panic!("expected a command"),
    }
    assert_eq!(app.build_status_text(6_000_000_000), "running: check: alpha  ?:help  q:quit");
}

#[test]
fn snapshots_key_reloads() {
    let mut app = app_with_jobs();
    app.handle_key(KeyPress { key: Key::Enter, ctrl: false }, 0);
    match app.handle_key(key('l'), 5) {
        Action::LoadSnapshots(j) => assert_eq!(j, "alpha"),
        _ => panic!("expected a snapshot load"),
    }
    assert_eq!(app.build_status_text(5), "Loading snapshots for alpha...");
    assert!(!app.data_loaded.snapshots);
    app.snapshots_loaded("alpha", LoadOutcome::CommandFailed("boom".to_string()));
    assert!(app.data_loaded.snapshots);
    assert_eq!(app.logs.last().unwrap(), "error loading snapshots for alpha: boom");
}

#[test]
fn status_defaults_to_key_summary() {
    let app = App::new(true, 0);
    assert_eq!(
        app.build_status_text(0),
        "?:help n/p list Enter select r:run R:restore l:list P:prune c:check L:logs q:quit"
    );
}

#[test]
fn log_is_capped() {
    let mut app = App::new(false, 0);
    for i in 0..(MAX_LOG_LINES + 10) {
        app.push_log(format!("line {i}"));
    }
    assert_eq!(app.logs.len(), MAX_LOG_LINES);
    assert_eq!(app.logs[0], "line 10");
    assert_eq!(app.render_logs(5), vec![format!("line {}", MAX_LOG_LINES + 7), format!("line {}", MAX_LOG_LINES + 8), format!("line {}", MAX_LOG_LINES + 9)]);
}

#[test]
fn jobs_pane_text() {
    let mut app = App::new(false, 0);
    assert_eq!(app.render_jobs(), vec!["Loading...", "", "Select a job from the list (n/p to move, Enter to select)"]);
    app.jobs_loaded(LoadOutcome::Loaded(vec!["alpha".to_string()]));
    app.handle_key(KeyPress { key: Key::Enter, ctrl: false }, 0);
    app.job_details_loaded(
        "alpha",
        LoadOutcome::Loaded(Job {
            repository: "r".to_string(),
            paths: vec!["/a".to_string(), "/b".to_string()],
            ..Default::default()
        }),
    );
    let lines = app.render_jobs();
    assert_eq!(lines[0], "Jobs:");
    assert_eq!(lines[1], "> * alpha");
    assert_eq!(lines[3], "Selected job: alpha");
    assert_eq!(lines[4], "  repository: r");
    assert_eq!(lines[5], "  paths: /a, /b");
    assert_eq!(lines[6], "  schedule: (none)");
    assert_eq!(lines[7], "  Next run: (no schedule)");
    assert_eq!(lines[8], "  retention: (none)");
    assert_eq!(lines[9], "  notifications: on_failure=true on_success=false");
    assert_eq!(lines[10], "  hooks: pre_backup=0 post_backup=0");
    assert_eq!(lines.last().unwrap(), "Loading snapshots...");
}

#[test]
fn repos_pane_masks_password_key() {
    let mut app = App::new(false, 0);
    app.repos_loaded(LoadOutcome::Loaded(vec!["local".to_string()]));
    app.sidebar_selected = 1;
    app.handle_key(KeyPress { key: Key::Enter, ctrl: false }, 0);
    app.repo_details_loaded(
        "local",
        LoadOutcome::Loaded(Repository {
            repo: "/srv/r".to_string(),
            password_key: "secret-key".to_string(),
            log_cli_output: None,
        }),
    );
    assert_eq!(
        app.render_repos(),
        vec!["Repositories:", "> * local", "", "Selected repository: local", "  repo: /srv/r", "  password_key: se***"]
    );
}

#[test]
fn load_failures_are_logged() {
    let mut app = App::new(false, 0);
    app.jobs_loaded(LoadOutcome::ParseError("bad".to_string()));
    assert!(app.data_loaded.jobs);
    assert_eq!(app.logs.last().unwrap(), "error parsing jobs json: bad");
    app.repos_loaded(LoadOutcome::SpawnError("no exe".to_string()));
    assert_eq!(app.logs.last().unwrap(), "error: no exe");
    app.command_spawn_failed("denied");
    assert_eq!(app.logs.last().unwrap(), "error spawning command: denied");
}

#[test]
fn daemon_detection_helpers() {
    assert!(is_pid_name("1234"));
    assert!(!is_pid_name("self"));
    assert!(is_daemon_process("restic-manager\n", "restic-manager\0daemon\0"));
    assert!(!is_daemon_process("restic-manager", "restic-manager\0tui\0"));
    let mut app = App::new(false, 0);
    assert!(!app.daemon_check_due(4_999_999_999));
    assert!(app.daemon_check_due(5_000_000_000));
    app.record_daemon_check(true, 5_000_000_000);
    assert!(app.daemon_running);
}

#[test]
fn list_outcome_reads_names() {
    match list_outcome("  [\n  \"daily\",\n  \"weekly\"\n]\n") {
        LoadOutcome::Loaded(names) => assert_eq!(names, vec!["daily".to_string(), "weekly".to_string()]),
        other => panic!("expected names, got {:?}", other),
    }
    match list_outcome("[]") {
        LoadOutcome::Loaded(names) => assert!(names.is_empty()),
        other => panic!("expected no names, got {:?}", other),
    }
}

#[test]
fn list_outcome_reports_unreadable_output() {
    match list_outcome("Configured jobs:\n  daily") {
        LoadOutcome::ParseError(e) => assert!(!e.is_empty()),
        other => panic!("expected a parse error, got {:?}", other),
    }
    match list_outcome("[1, 2]") {
        LoadOutcome::ParseError(_) => {}
        other => panic!("expected a parse error, got {:?}", other),
    }
}

#[test]
fn snapshots_outcome_reads_snapshots() {
    let text = r#"[{"id":"abc123","time":"2024-01-01T00:00:00Z","hostname":"host","tags":["t"],"paths":["/data"],"short_id":"abc"}]"#;
    match snapshots_outcome(text) {
        LoadOutcome::Loaded(snaps) => {
            assert_eq!(snaps.len(), 1);
            assert_eq!(snaps[0].id, "abc123");
            assert_eq!(snaps[0].short_id, "abc");
            assert_eq!(snaps[0].hostname, Some("host".to_string()));
            assert_eq!(snaps[0].paths, vec!["/data".to_string()]);
        }
        other => panic!("expected snapshots, got {:?}", other),
    }
    match snapshots_outcome("not json") {
        LoadOutcome::ParseError(_) => {}
        other => panic!("expected a parse error, got {:?}", other),
    }
}
