use hive_tui::app::{ActionPanelState, ActionType, App, Command, Focus, Key, Tab};
use hive_tui::config::Profile;
use hive_tui::ingest::StreamIngester;
use hive_tui::models::NodeStatus;

fn profile(name: &str) -> Profile {
    Profile {
        name: name.to_string(),
        host: "http://localhost".to_string(),
        port_infer: 6666,
        port_manage: 6668,
        client_token: "c".to_string(),
        admin_token: "a".to_string(),
    }
}

fn fresh() -> App {
    App::new(vec![profile("main"), profile("other")])
}

fn type_text(app: &mut App, s: &str) {
    for c in s.chars() {
        assert_eq!(app.handle_key(Key::Char(c)), Command::Nothing);
    }
}

/// Opens the pull input from the dashboard's action list.
fn open_pull(app: &mut App) {
    if app.focus() == Focus::WorkersList {
        app.handle_key(Key::Right);
    }
    assert_eq!(app.focus(), Focus::ActionsList);
    app.handle_key(Key::Up);
    app.handle_key(Key::Enter);
    assert_eq!(app.focus(), Focus::ActionPanelInput);
    assert_eq!(app.action_panel_state(), &ActionPanelState::PullModel);
}

/// Runs the workflow up to a committed pull of `model`; returns the task.
fn start_pull(app: &mut App, model: &str) -> u64 {
    open_pull(app);
    type_text(app, model);
    app.handle_key(Key::Enter);
    assert_eq!(app.focus(), Focus::ActionPanelConfirm);
    match app.handle_key(Key::Enter) {
        Command::Start { task, action, model: m, .. } => {
            assert_eq!(action, ActionType::Pull);
            assert_eq!(m, model);
            task
        }
        other => panic!("expected a start, got {:?}", other),
    }
}

fn output(app: &App) -> (Vec<String>, bool) {
    match app.action_panel_state() {
        ActionPanelState::Response(_, _, lines, ok) => (lines.clone(), *ok),
        other => panic!("not a response panel: {:?}", other),
    }
}

#[test]
fn pull_end_to_end() {
    let mut app = fresh();
    let task = start_pull(&mut app, "llama3");
    assert!(app.is_action_in_progress());
    assert_eq!(app.focus(), Focus::ActionPanelResponse);
    let mut reader = StreamIngester::new();
    app.deliver_chunk(task, &mut reader, b"{\"status\":\"pulling manifest\"}\n{\"status\":\"success\"}\n");
    app.finish_stream(task, &mut reader);
    let (lines, ok) = output(&app);
    assert_eq!(lines, vec!["pulling manifest", "success", "Model pull completed successfully."]);
    assert!(ok);
    assert!(!app.is_action_in_progress());
    assert_eq!(app.live_task(), None);
    match app.action_panel_state() {
        ActionPanelState::Response(m, a, _, _) => {
            assert_eq!(m, "llama3");
            assert_eq!(*a, ActionType::Pull);
        }
        _ => unreachable!(),
    }
}

#[test]
fn delete_with_failed_line_reports_errors() {
    let mut app = fresh();
    app.handle_key(Key::Right);
    app.handle_key(Key::Down);
    app.handle_key(Key::Right);
    assert_eq!(app.action_panel_state(), &ActionPanelState::DeleteModel);
    type_text(&mut app, "qwen");
    app.handle_key(Key::Enter);
    let task = match app.handle_key(Key::Enter) {
        Command::Start { task, action, .. } => {
            assert_eq!(action, ActionType::Delete);
            task
        }
        other => panic!("{:?}", other),
    };
    let mut reader = StreamIngester::new();
    app.deliver_chunk(task, &mut reader, b"{\"error\":\"not found\"}\n");
    app.finish_stream(task, &mut reader);
    let (lines, ok) = output(&app);
    assert_eq!(lines, vec!["{\"error\":\"not found\"}", "Model delete completed with errors."]);
    assert!(!ok);
    assert_eq!(app.banners(), &vec!["Delete Error: {\"error\":\"not found\"}".to_string()]);
}

#[test]
fn transport_failure_ends_the_task() {
    let mut app = fresh();
    let task = start_pull(&mut app, "m");
    app.fail_task(task, "connection refused");
    let (lines, ok) = output(&app);
    assert_eq!(lines, vec!["Pull failed: connection refused"]);
    assert!(!ok);
    assert!(!app.is_action_in_progress());
    assert_eq!(app.banners(), &vec!["Pull failed: connection refused".to_string()]);
}

#[test]
fn confirmation_toggles_between_two_values() {
    let mut app = fresh();
    open_pull(&mut app);
    type_text(&mut app, "m");
    app.handle_key(Key::Enter);
    assert_eq!(app.confirmation_selection(), 0);
    let mut expected = 0;
    for key in [Key::Left, Key::Left, Key::Right, Key::Right, Key::Right, Key::Left, Key::Left] {
        app.handle_key(key);
        expected = 1 - expected;
        assert_eq!(app.confirmation_selection(), expected);
        assert!(app.confirmation_selection() <= 1);
    }
}

#[test]
fn focus_moves_on_confirmation_set_the_choice() {
    let mut app = fresh();
    open_pull(&mut app);
    type_text(&mut app, "m");
    app.handle_key(Key::Enter);
    app.focus_right();
    assert_eq!(app.confirmation_selection(), 1);
    app.focus_right();
    assert_eq!(app.confirmation_selection(), 1);
    app.focus_left();
    assert_eq!(app.confirmation_selection(), 0);
    app.focus_left();
    assert_eq!(app.confirmation_selection(), 0);
}

#[test]
fn aborting_on_confirmation_records_one_line() {
    let mut app = fresh();
    open_pull(&mut app);
    type_text(&mut app, "m");
    app.handle_key(Key::Enter);
    app.handle_key(Key::Right);
    assert_eq!(app.handle_key(Key::Enter), Command::Nothing);
    let (lines, ok) = output(&app);
    assert_eq!(lines, vec!["Action cancelled by user."]);
    assert!(ok);
    assert!(!app.is_action_in_progress());
    assert_eq!(app.live_task(), None);
}

#[test]
fn second_action_needs_the_first_dismissed() {
    let mut app = fresh();
    let task = start_pull(&mut app, "one");
    // While the task runs, focus stays on its output: the next key dismisses
    // the panel and cancels the task instead of starting anything.
    let banners_before = app.banners().len();
    assert_eq!(app.handle_key(Key::Enter), Command::Cancel(task));
    assert_eq!(app.banners().len(), banners_before + 1);
    assert_eq!(app.action_panel_state(), &ActionPanelState::Idle);
    assert_eq!(app.focus(), Focus::ActionsList);
    let second = start_pull(&mut app, "two");
    assert_ne!(second, task);
}

#[test]
fn no_output_after_dismissal() {
    let mut app = fresh();
    let task = start_pull(&mut app, "llama3");
    let mut reader = StreamIngester::new();
    app.deliver_chunk(task, &mut reader, b"{\"status\":\"pulling manifest\"}\n");
    assert_eq!(output(&app).0.len(), 1);
    assert_eq!(app.handle_key(Key::Esc), Command::Cancel(task));
    assert_eq!(app.action_panel_state(), &ActionPanelState::Idle);
    assert_eq!(app.banners(), &vec!["Response dismissed, action aborted if running.".to_string()]);
    app.deliver_chunk(task, &mut reader, b"{\"status\":\"late\"}\n");
    app.finish_stream(task, &mut reader);
    assert_eq!(app.action_panel_state(), &ActionPanelState::Idle);
    // A new action is not written to by the cancelled task either.
    let second = start_pull(&mut app, "next");
    app.deliver_chunk(task, &mut reader, b"{\"status\":\"late again\"}\n");
    assert_eq!(output(&app).0.len(), 0);
    app.deliver_chunk(second, &mut StreamIngester::new(), b"{\"status\":\"mine\"}\n");
    assert_eq!(output(&app).0, vec!["mine"]);
}

#[test]
fn clearing_caches_cancels_running_task() {
    let mut app = fresh();
    app.set_queue_map(vec![("m".to_string(), 1)]);
    let task = start_pull(&mut app, "m");
    app.clear_caches();
    assert_eq!(app.action_panel_state(), &ActionPanelState::Idle);
    assert_eq!(app.live_task(), None);
    assert!(!app.is_action_in_progress());
    assert!(app.snapshots().queue_map.is_none());
    assert_eq!(app.focus(), Focus::ActionsList);
    assert_eq!(app.banners(), &vec!["Cancelled active action task.".to_string()]);
    let mut reader = StreamIngester::new();
    app.deliver_chunk(task, &mut reader, b"{\"status\":\"late\"}\n");
    assert_eq!(app.action_panel_state(), &ActionPanelState::Idle);
}

#[test]
fn refresh_key_clears_caches() {
    let mut app = fresh();
    app.set_worker_connections(vec![("w".to_string(), 3)]);
    assert_eq!(app.handle_key(Key::Char('r')), Command::Nothing);
    assert!(app.snapshots().worker_connections.is_none());
    assert!(app.banners().is_empty());
}

#[test]
fn profile_switch_clears_caches() {
    let mut app = fresh();
    app.set_queue_map(vec![("m".to_string(), 1)]);
    app.set_active_profile(5);
    assert_eq!(app.active_profile(), 0);
    assert!(app.snapshots().queue_map.is_some());
    app.set_active_profile(1);
    assert_eq!(app.active_profile(), 1);
    assert!(app.snapshots().queue_map.is_none());
    assert_eq!(app.current_profile().unwrap().name, "other");
}

#[test]
fn empty_model_name_is_refused() {
    let mut app = fresh();
    open_pull(&mut app);
    app.handle_key(Key::Enter);
    assert_eq!(app.focus(), Focus::ActionPanelInput);
    assert_eq!(app.action_panel_state(), &ActionPanelState::PullModel);
    assert_eq!(app.banners(), &vec!["Model name cannot be empty.".to_string()]);
}

#[test]
fn escape_leaves_input_and_confirmation() {
    let mut app = fresh();
    open_pull(&mut app);
    type_text(&mut app, "abc");
    app.handle_key(Key::Esc);
    assert_eq!(app.focus(), Focus::ActionsList);
    assert_eq!(app.action_panel_state(), &ActionPanelState::Idle);
    assert_eq!(app.action_input_model_name(), "");
    open_pull(&mut app);
    type_text(&mut app, "abc");
    app.handle_key(Key::Enter);
    assert_eq!(app.action_panel_state(), &ActionPanelState::Confirmation("abc".to_string(), ActionType::Pull));
    app.handle_key(Key::Esc);
    assert_eq!(app.action_panel_state(), &ActionPanelState::Idle);
    assert_eq!(app.focus(), Focus::ActionsList);
}

#[test]
fn input_edits_at_the_cursor() {
    let mut app = fresh();
    open_pull(&mut app);
    type_text(&mut app, "lama");
    app.handle_key(Key::Left);
    app.handle_key(Key::Left);
    app.handle_key(Key::Left);
    type_text(&mut app, "l");
    assert_eq!(app.action_input_model_name(), "llama");
    assert_eq!(app.action_input_cursor_position(), 2);
    app.handle_key(Key::Backspace);
    assert_eq!(app.action_input_model_name(), "lama");
    assert_eq!(app.action_input_cursor_position(), 1);
    app.handle_key(Key::Right);
    app.handle_key(Key::Right);
    app.handle_key(Key::Right);
    app.handle_key(Key::Right);
    assert_eq!(app.action_input_cursor_position(), 4);
    type_text(&mut app, "ü3");
    assert_eq!(app.action_input_model_name(), "lamaü3");
    for _ in 0..10 {
        app.handle_key(Key::Left);
    }
    assert_eq!(app.action_input_cursor_position(), 0);
    app.handle_key(Key::Backspace);
    assert_eq!(app.action_input_model_name(), "lamaü3");
}

#[test]
fn quit_key_in_lists() {
    let mut app = fresh();
    assert_eq!(app.handle_key(Key::Char('q')), Command::Quit);
}

#[test]
fn tabs_cycle_both_ways() {
    let mut app = fresh();
    assert_eq!(app.current_tab(), Tab::Dashboard);
    app.prev_tab();
    assert_eq!(app.current_tab(), Tab::Logs);
    app.next_tab();
    app.next_tab();
    assert_eq!(app.current_tab(), Tab::Nodes);
    app.handle_key(Key::Tab);
    assert_eq!(app.current_tab(), Tab::Queues);
    app.handle_key(Key::BackTab);
    assert_eq!(app.current_tab(), Tab::Nodes);
    assert_eq!(Tab::all(), &[Tab::Dashboard, Tab::Nodes, Tab::Queues, Tab::Keys, Tab::Console, Tab::Logs]);
}

#[test]
fn banners_are_dismissed_oldest_first() {
    let mut app = fresh();
    app.add_banner("first".to_string());
    app.add_banner("second".to_string());
    app.dismiss_banner();
    assert_eq!(app.banners(), &vec!["second".to_string()]);
    app.dismiss_banner();
    app.dismiss_banner();
    assert!(app.banners().is_empty());
}

fn statuses(names: &[&str]) -> Vec<(String, NodeStatus)> {
    names.iter().map(|n| (n.to_string(), NodeStatus::Verified)).collect()
}

#[test]
fn workers_listed_in_name_order_without_placeholder() {
    let mut app = fresh();
    app.set_worker_statuses(statuses(&["zeta", "Unauthenticated", "alpha", "mid"]));
    assert_eq!(app.workers_len(), 3);
    assert_eq!(app.get_selected_worker_name(), Some("alpha".to_string()));
    app.handle_key(Key::Down);
    assert_eq!(app.get_selected_worker_name(), Some("mid".to_string()));
    app.handle_key(Key::Down);
    app.handle_key(Key::Down);
    assert_eq!(app.selected_worker(), 2);
    assert_eq!(app.get_selected_worker_name(), Some("zeta".to_string()));
    app.set_worker_tags(vec![("zeta".to_string(), vec!["llama3".to_string(), "qwen".to_string()])]);
    assert_eq!(app.get_selected_info_panel_model(), Some("llama3".to_string()));
    app.handle_key(Key::Up);
    assert_eq!(app.get_selected_info_panel_model(), None);
}

#[test]
fn worker_cursor_clamped_when_list_shrinks() {
    let mut app = fresh();
    app.set_worker_statuses(statuses(&["a", "b", "c"]));
    app.handle_key(Key::Down);
    app.handle_key(Key::Down);
    assert_eq!(app.selected_worker(), 2);
    app.set_worker_statuses(statuses(&["a"]));
    assert_eq!(app.selected_worker(), 0);
    app.set_worker_statuses(statuses(&[]));
    assert_eq!(app.selected_worker(), 0);
    assert_eq!(app.get_selected_worker_name(), None);
}

#[test]
fn committed_action_targets_selected_worker() {
    let mut app = fresh();
    app.set_worker_statuses(statuses(&["w2", "w1"]));
    app.handle_key(Key::Down);
    open_pull(&mut app);
    type_text(&mut app, "m");
    app.handle_key(Key::Enter);
    match app.handle_key(Key::Enter) {
        Command::Start { node, .. } => assert_eq!(node, Some("w2".to_string())),
        other => panic!("{:?}", other),
    }
}

#[test]
fn console_typing_and_generate() {
    let mut app = fresh();
    for _ in 0..4 {
        app.next_tab();
    }
    assert_eq!(app.current_tab(), Tab::Console);
    app.set_queue_map(vec![("llama3".to_string(), 2)]);
    type_text(&mut app, "hi!");
    app.handle_key(Key::Backspace);
    assert_eq!(app.console_input(), "hi");
    assert_eq!(
        app.handle_key(Key::Enter),
        Command::Generate { model: "llama3".to_string(), prompt: "hi".to_string() }
    );
}

#[test]
fn scrolling_the_output() {
    let mut app = fresh();
    let task = start_pull(&mut app, "m");
    let mut reader = StreamIngester::new();
    app.deliver_chunk(task, &mut reader, b"{\"status\":\"1\"}\n{\"status\":\"2\"}\n{\"status\":\"3\"}\n");
    app.handle_key(Key::Down);
    app.handle_key(Key::Down);
    app.handle_key(Key::Down);
    assert_eq!(app.action_panel_scroll(), 2);
    app.handle_key(Key::Up);
    assert_eq!(app.action_panel_scroll(), 1);
    assert!(app.is_action_in_progress());
}

#[test]
fn add_output_line_only_in_response() {
    let mut app = fresh();
    app.add_action_output_line("ignored".to_string(), false);
    assert_eq!(app.action_panel_state(), &ActionPanelState::Idle);
    let _ = start_pull(&mut app, "m");
    app.add_action_output_line("line".to_string(), true);
    app.add_action_output_line("bad".to_string(), false);
    app.add_action_output_line("good again".to_string(), true);
    let (lines, ok) = output(&app);
    assert_eq!(lines, vec!["line", "bad", "good again"]);
    assert!(!ok);
}

#[test]
fn action_labels() {
    assert_eq!(ActionType::Pull.label(), "Pull model");
    assert_eq!(ActionType::Delete.label(), "Delete model");
    assert_eq!(hive_tui::app::worker_actions(), vec![ActionType::Pull, ActionType::Delete]);
}
