use kftui_core::input::{
    finish_auto_add, finish_context_selection, finish_delete,
    finish_network_monitor_call, finish_network_monitor_save, finish_timeout_save,
    handle_context_selection_input, handle_delete_confirmation_input, handle_input,
    handle_port_forwarding, handle_settings_input, scroll_page_down, settings_loaded,
    show_delete_confirmation, toggle_row_selection, toggle_select_all, App, Effect, TaskReport,
};
use kftui_core::model::{ActiveComponent, ActiveTable, AppState, Config, ConfigState, DeleteButton, Key};
use kftui_core::text::{parse_u32, task_failure_message};

fn cfg(id: i64) -> Config {
    Config { id: Some(id), local_port: Some(8000 + id as u16), remote_port: Some(80) }
}

fn rows(app: &App, running: bool) -> Vec<usize> {
    let mut v = if running {
        app.selected_rows_running.rows.clone()
    } else {
        app.selected_rows_stopped.rows.clone()
    };
    v.sort();
    v
}

#[test]
fn start_two_of_three_moves_them_in_order() {
    let (a, b, c) = (cfg(1), cfg(2), cfg(3));
    let mut app = App::new();
    app.stopped_configs = vec![a, b, c];
    app.selected_rows_stopped.insert(2);
    app.selected_rows_stopped.insert(0);
    app.active_component = ActiveComponent::StoppedTable;
    app.active_table = ActiveTable::Stopped;

    let effect = handle_input(&mut app, Key::Char('f'), 1_000);
    let tasks = match effect {
        Effect::Dispatch(tasks) => tasks,
        other => panic!("expected a dispatch, got {other:?}"),
    };
    assert_eq!(app.running_configs, vec![a, c]);
    assert_eq!(app.stopped_configs, vec![b]);
    assert_eq!(tasks.len(), 2);
    assert!(tasks.iter().all(|t| t.start));
    assert_eq!(tasks[0].config_id, 1);
    assert_eq!(tasks[1].config_id, 3);
    assert_eq!(app.configs_being_processed.len(), 2);
    assert!(app.configs_being_processed.is_processing(1));
    assert!(app.configs_being_processed.is_processing(3));
    assert!(!app.configs_being_processed.is_processing(2));
    assert!(app.selected_rows_stopped.rows.is_empty());
}

#[test]
fn started_configs_are_running_before_any_task_finishes() {
    let mut app = App::new();
    app.stopped_configs = vec![cfg(4), cfg(5)];
    app.selected_row_stopped = 1;
    let tasks = handle_port_forwarding(&mut app, 0);
    assert_eq!(tasks.len(), 1);
    assert_eq!(tasks[0].config, cfg(5));
    assert!(app.running_configs.contains(&cfg(5)));
    assert!(!app.stopped_configs.contains(&cfg(5)));
    assert_eq!(app.stopped_configs, vec![cfg(4)]);
}

#[test]
fn stop_dispatch_moves_back_to_stopped() {
    let mut app = App::new();
    app.running_configs = vec![cfg(7), cfg(8)];
    app.active_table = ActiveTable::Running;
    app.selected_row_running = 0;
    let tasks = handle_port_forwarding(&mut app, 10);
    assert_eq!(tasks.len(), 1);
    assert!(!tasks[0].start);
    assert_eq!(app.stopped_configs, vec![cfg(7)]);
    assert_eq!(app.running_configs, vec![cfg(8)]);
}

#[test]
fn dispatch_on_empty_list_does_nothing() {
    let mut app = App::new();
    let tasks = handle_port_forwarding(&mut app, 10);
    assert!(tasks.is_empty());
    assert_eq!(app.configs_being_processed.len(), 0);
}

#[test]
fn config_without_id_moves_but_gets_no_task() {
    let mut app = App::new();
    let anon = Config { id: None, local_port: None, remote_port: None };
    app.stopped_configs = vec![anon];
    let tasks = handle_port_forwarding(&mut app, 10);
    assert!(tasks.is_empty());
    assert_eq!(app.running_configs, vec![anon]);
    assert_eq!(app.configs_being_processed.len(), 0);
}

#[test]
fn failed_stop_task_reports_identity_and_reason() {
    let x = cfg(42);
    let mut app = App::new();
    app.running_configs = vec![x];
    app.active_table = ActiveTable::Running;
    let tasks = handle_port_forwarding(&mut app, 1_000);
    assert_eq!(tasks.len(), 1);
    assert!(app.configs_being_processed.is_processing(42));

    let report = TaskReport { config_id: 42, start: false, failure: Some("connection reset".to_string()) };
    app.accept_task_report(&report);
    let states = vec![ConfigState { config_id: 42, is_running: false }];
    app.update_configs(&vec![x], &states, 2_000);

    assert_eq!(app.state, AppState::ShowErrorPopup);
    let msg = app.error_message.clone().unwrap();
    assert!(msg.contains("42"));
    assert!(msg.contains("connection reset"));
    assert_eq!(msg, "Failed to stop port forward for config 42: connection reset");
    assert!(!app.configs_being_processed.is_processing(42));
    assert!(app.pending_errors.is_empty());
}

#[test]
fn successful_task_is_reaped_without_error() {
    let mut app = App::new();
    app.stopped_configs = vec![cfg(1)];
    handle_port_forwarding(&mut app, 0);
    app.accept_task_report(&TaskReport { config_id: 1, start: true, failure: None });
    app.update_configs(&vec![cfg(1)], &vec![ConfigState { config_id: 1, is_running: true }], 5);
    assert_eq!(app.configs_being_processed.len(), 0);
    assert_eq!(app.state, AppState::Normal);
    assert!(app.error_message.is_none());
}

#[test]
fn stale_entry_is_reaped_after_thirty_seconds() {
    let mut app = App::new();
    app.stopped_configs = vec![cfg(1), cfg(2)];
    app.selected_rows_stopped.insert(0);
    handle_port_forwarding(&mut app, 1_000);
    app.configs_being_processed.register(2, 20_000);
    // exactly thirty seconds: kept
    app.update_configs(&vec![], &vec![], 31_000);
    assert!(app.configs_being_processed.is_processing(1));
    // past thirty seconds: reclaimed, the younger entry stays
    app.update_configs(&vec![], &vec![], 31_001);
    assert!(!app.configs_being_processed.is_processing(1));
    assert!(app.configs_being_processed.is_processing(2));
    let e = app.configs_being_processed.get(2).unwrap();
    assert_eq!(e.started_at, 20_000);
    assert!(!e.done);
}

#[test]
fn register_replaces_earlier_marker() {
    let mut app = App::new();
    app.configs_being_processed.register(9, 5);
    app.configs_being_processed.complete(9);
    assert!(app.configs_being_processed.get(9).unwrap().done);
    app.configs_being_processed.register(9, 50);
    assert_eq!(app.configs_being_processed.len(), 1);
    let e = app.configs_being_processed.get(9).unwrap();
    assert_eq!(e.started_at, 50);
    assert!(!e.done);
}

#[test]
fn refresh_partitions_by_session_state() {
    let mut app = App::new();
    let configs = vec![cfg(1), cfg(2), cfg(3), Config { id: None, local_port: None, remote_port: None }];
    let states = vec![
        ConfigState { config_id: 2, is_running: true },
        ConfigState { config_id: 3, is_running: false },
        ConfigState { config_id: 2, is_running: false },
    ];
    app.update_configs(&configs, &states, 0);
    assert_eq!(app.running_configs, vec![cfg(2)]);
    assert_eq!(app.stopped_configs, vec![cfg(1), cfg(3), configs[3]]);
}

#[test]
fn refresh_drops_checked_rows_past_the_list() {
    let mut app = App::new();
    app.stopped_configs = vec![cfg(1), cfg(2), cfg(3)];
    toggle_select_all(&mut app);
    assert_eq!(rows(&app, false), vec![0, 1, 2]);
    app.update_configs(&vec![cfg(1)], &vec![], 0);
    assert_eq!(app.stopped_configs.len(), 1);
    assert_eq!(rows(&app, false), vec![0]);
    assert!(app.selected_rows_stopped.rows.len() <= app.stopped_configs.len());
}

#[test]
fn refresh_shows_oldest_error_first() {
    let mut app = App::new();
    app.accept_task_report(&TaskReport { config_id: 1, start: true, failure: Some("a".to_string()) });
    app.accept_task_report(&TaskReport { config_id: -2, start: true, failure: Some("b".to_string()) });
    app.update_configs(&vec![], &vec![], 0);
    assert_eq!(app.error_message.as_deref(), Some("Failed to start port forward for config 1: a"));
    assert_eq!(app.pending_errors.len(), 1);
    let _ = handle_input(&mut app, Key::Enter, 0);
    assert_eq!(app.state, AppState::Normal);
    assert!(app.error_message.is_none());
    app.update_configs(&vec![], &vec![], 0);
    assert_eq!(app.error_message.as_deref(), Some("Failed to start port forward for config -2: b"));
}

#[test]
fn select_all_then_none() {
    let mut app = App::new();
    app.stopped_configs = vec![cfg(1), cfg(2)];
    toggle_select_all(&mut app);
    assert_eq!(rows(&app, false), vec![0, 1]);
    toggle_select_all(&mut app);
    assert!(rows(&app, false).is_empty());
}

#[test]
fn space_toggles_highlighted_row() {
    let mut app = App::new();
    app.stopped_configs = vec![cfg(1), cfg(2)];
    app.table_state_stopped = Some(1);
    toggle_row_selection(&mut app);
    assert_eq!(rows(&app, false), vec![1]);
    assert_eq!(app.selected_row_stopped, 1);
    toggle_row_selection(&mut app);
    assert!(rows(&app, false).is_empty());
}

#[test]
fn context_selection_down_clamps_at_last() {
    let mut app = App::new();
    app.state = AppState::ShowContextSelection;
    app.contexts = vec!["a".to_string(), "b".to_string()];
    app.selected_context_index = 0;
    let _ = handle_input(&mut app, Key::Down, 0);
    assert_eq!(app.selected_context_index, 1);
    assert_eq!(app.context_list_state, Some(1));
    let _ = handle_input(&mut app, Key::Down, 0);
    assert_eq!(app.selected_context_index, 1);
    let _ = handle_context_selection_input(&mut app, Key::Up);
    assert_eq!(app.selected_context_index, 0);
}

#[test]
fn context_selection_enter_asks_for_context() {
    let mut app = App::new();
    app.state = AppState::ShowContextSelection;
    app.contexts = vec!["a".to_string(), "b".to_string()];
    app.selected_context_index = 1;
    match handle_input(&mut app, Key::Enter, 0) {
        Effect::SelectContext(c) => assert_eq!(c, "b"),
        other => panic!("unexpected {other:?}"),
    }
}

#[test]
fn context_selection_down_on_empty_list_is_harmless() {
    let mut app = App::new();
    app.state = AppState::ShowContextSelection;
    let _ = handle_input(&mut app, Key::Down, 0);
    assert_eq!(app.selected_context_index, 0);
    assert!(matches!(handle_input(&mut app, Key::Enter, 0), Effect::Nothing));
}

#[test]
fn test_handle_auto_add_configs_with_contexts() {
    let mut app = App::new();
    app.state = AppState::Normal;
    app.active_component = ActiveComponent::Menu;
    app.selected_menu_item = 1;
    assert!(matches!(handle_input(&mut app, Key::Enter, 0), Effect::AutoAddConfigs));
    finish_auto_add(&mut app, Ok(vec!["ctx-1".to_string(), "ctx-2".to_string()]));
    assert_eq!(app.state, AppState::ShowContextSelection);
    assert_eq!(app.selected_context_index, 0);
    assert!(app.context_list_state.is_some());
}

#[test]
fn test_handle_auto_add_configs_error() {
    let mut app = App::new();
    finish_auto_add(&mut app, Err("no kubeconfig".to_string()));
    assert_eq!(app.state, AppState::ShowErrorPopup);
    assert!(app.error_message.is_some());
}

#[test]
fn test_handle_context_selection_success() {
    let mut app = App::new();
    app.state = AppState::ShowContextSelection;
    app.contexts = vec!["test-context".to_string()];
    app.selected_context_index = 0;
    app.context_list_state = Some(0);
    finish_context_selection(&mut app, Ok(()));
    assert_eq!(app.state, AppState::Normal, "Expected app state to transition to Normal");
}

#[test]
fn test_handle_context_selection_error() {
    let mut app = App::new();
    app.state = AppState::ShowContextSelection;
    finish_context_selection(&mut app, Err("Failed to retrieve service configs: invalid-context".to_string()));
    assert_eq!(app.state, AppState::ShowErrorPopup);
    assert!(app.error_message.is_some());
    assert!(app.error_message.as_ref().unwrap().contains("Failed to retrieve service configs"));
}

#[test]
fn delete_confirmation_removes_configs() {
    let mut app = App::new();
    app.stopped_configs = vec![cfg(1), cfg(2), cfg(3)];
    app.selected_rows_stopped.insert(0);
    app.selected_rows_stopped.insert(1);
    show_delete_confirmation(&mut app);
    assert_eq!(app.state, AppState::ShowDeleteConfirmation);
    assert_eq!(
        app.delete_confirmation_message.as_deref(),
        Some("Are you sure you want to delete the selected configs?")
    );
    let ids = match handle_input(&mut app, Key::Enter, 0) {
        Effect::DeleteConfigs(ids) => ids,
        other => panic!("unexpected {other:?}"),
    };
    assert_eq!(ids, vec![1, 2]);
    finish_delete(&mut app, &ids, Ok(()));
    assert_eq!(app.stopped_configs, vec![cfg(3)]);
    assert_eq!(app.delete_confirmation_message.as_deref(), Some("Configs deleted successfully."));
    assert_eq!(app.state, AppState::Normal);
    assert!(app.selected_rows_stopped.rows.is_empty());
}

#[test]
fn delete_failure_keeps_configs() {
    let mut app = App::new();
    app.stopped_configs = vec![cfg(1)];
    app.state = AppState::ShowDeleteConfirmation;
    finish_delete(&mut app, &vec![1], Err("db locked".to_string()));
    assert_eq!(app.stopped_configs, vec![cfg(1)]);
    assert_eq!(app.delete_confirmation_message.as_deref(), Some("Failed to delete configs: db locked"));
    assert_eq!(app.state, AppState::Normal);
}

#[test]
fn delete_close_button_cancels() {
    let mut app = App::new();
    app.stopped_configs = vec![cfg(1)];
    app.selected_rows_stopped.insert(0);
    app.state = AppState::ShowDeleteConfirmation;
    let _ = handle_delete_confirmation_input(&mut app, Key::Right);
    assert_eq!(app.selected_delete_button, DeleteButton::Close);
    assert!(matches!(handle_delete_confirmation_input(&mut app, Key::Enter), Effect::Nothing));
    assert_eq!(app.state, AppState::Normal);
    assert_eq!(app.stopped_configs, vec![cfg(1)]);
}

#[test]
fn delete_needs_checked_rows() {
    let mut app = App::new();
    show_delete_confirmation(&mut app);
    assert_eq!(app.state, AppState::Normal);
}

#[test]
fn network_monitor_off_stops_monitor() {
    let mut app = App::new();
    app.state = AppState::ShowSettings;
    app.settings_selected_option = 1;
    app.settings_network_monitor = true;
    assert!(matches!(handle_input(&mut app, Key::Enter, 0), Effect::SaveNetworkMonitor(false)));
    assert!(matches!(finish_network_monitor_save(&mut app, Ok(())), Effect::StopNetworkMonitor));
    finish_network_monitor_call(&mut app, Err("watcher busy".to_string()));
    assert_eq!(app.state, AppState::ShowErrorPopup);
    assert_eq!(app.error_message.as_deref(), Some("Failed to stop network monitor: watcher busy"));
}

#[test]
fn network_monitor_on_restarts_monitor() {
    let mut app = App::new();
    app.state = AppState::ShowSettings;
    app.settings_selected_option = 1;
    app.settings_network_monitor = false;
    assert!(matches!(handle_settings_input(&mut app, Key::Enter), Effect::SaveNetworkMonitor(true)));
    assert!(matches!(finish_network_monitor_save(&mut app, Ok(())), Effect::RestartNetworkMonitor));
    finish_network_monitor_call(&mut app, Err("no route".to_string()));
    assert_eq!(app.error_message.as_deref(), Some("Failed to start network monitor: no route"));
}

#[test]
fn network_monitor_save_failure_is_specific() {
    let mut app = App::new();
    app.settings_network_monitor = false;
    assert!(matches!(
        finish_network_monitor_save(&mut app, Err("disk full".to_string())),
        Effect::StopNetworkMonitor
    ));
    assert_eq!(app.state, AppState::Normal);
    assert!(app.error_message.is_none());
    assert_eq!(app.settings_message.as_deref(), Some("Failed to save network monitor setting: disk full"));
}

#[test]
fn timeout_editing_and_saving() {
    let mut app = App::new();
    app.state = AppState::ShowSettings;
    settings_loaded(&mut app, Some(None), Some(false));
    assert_eq!(app.settings_timeout_input, vec!['0']);
    assert!(!app.settings_network_monitor);
    settings_loaded(&mut app, Some(Some(125)), None);
    assert_eq!(app.settings_timeout_input, vec!['1', '2', '5']);
    let _ = handle_settings_input(&mut app, Key::Enter);
    assert!(app.settings_editing);
    let _ = handle_settings_input(&mut app, Key::Backspace);
    let _ = handle_settings_input(&mut app, Key::Char('x'));
    let _ = handle_settings_input(&mut app, Key::Char('7'));
    assert_eq!(app.settings_timeout_input, vec!['1', '2', '7']);
    assert!(matches!(handle_settings_input(&mut app, Key::Enter), Effect::SaveTimeout(127)));
    finish_timeout_save(&mut app, true);
    assert!(!app.settings_editing);
    finish_timeout_save(&mut app, false);
    assert_eq!(app.state, AppState::ShowSettings);
    assert!(app.error_message.is_none());
    assert_eq!(app.settings_message.as_deref(), Some("Failed to save timeout setting"));
    finish_timeout_save(&mut app, true);
    assert!(app.settings_message.is_none());
}

#[test]
fn invalid_timeout_is_reported() {
    let mut app = App::new();
    app.state = AppState::ShowSettings;
    app.settings_editing = true;
    assert!(matches!(handle_settings_input(&mut app, Key::Enter), Effect::Nothing));
    assert_eq!(app.state, AppState::ShowErrorPopup);
    assert_eq!(app.error_message.as_deref(), Some("Invalid timeout value. Please enter a number."));
}

#[test]
fn parse_u32_bounds() {
    assert_eq!(parse_u32(&"4294967295".chars().collect()), Some(u32::MAX));
    assert_eq!(parse_u32(&"4294967296".chars().collect()), None);
    assert_eq!(parse_u32(&"".chars().collect()), None);
    assert_eq!(parse_u32(&"12a".chars().collect()), None);
    assert_eq!(parse_u32(&"007".chars().collect()), Some(7));
    assert_eq!(parse_u32(&"+12".chars().collect()), Some(12));
    assert_eq!(parse_u32(&"+".chars().collect()), None);
    assert_eq!(parse_u32(&"-1".chars().collect()), None);
    assert_eq!(parse_u32(&"++1".chars().collect()), None);
}

#[test]
fn failure_message_text() {
    assert_eq!(task_failure_message(7, true, "boom"), "Failed to start port forward for config 7: boom");
    assert_eq!(
        task_failure_message(i64::MIN, false, "x"),
        "Failed to stop port forward for config -9223372036854775808: x"
    );
    assert_eq!(task_failure_message(0, false, ""), "Failed to stop port forward for config 0: ");
}

#[test]
fn tab_cycles_focus() {
    let mut app = App::new();
    app.active_component = ActiveComponent::Menu;
    let _ = handle_input(&mut app, Key::Tab, 0);
    assert_eq!(app.active_component, ActiveComponent::StoppedTable);
    assert_eq!(app.active_table, ActiveTable::Stopped);
    let _ = handle_input(&mut app, Key::Tab, 0);
    assert_eq!(app.active_component, ActiveComponent::Details);
    let _ = handle_input(&mut app, Key::Tab, 0);
    assert_eq!(app.active_component, ActiveComponent::Menu);
}

#[test]
fn arrows_move_between_components() {
    let mut app = App::new();
    app.stopped_configs = vec![cfg(1), cfg(2)];
    app.running_configs = vec![cfg(3)];
    app.selected_rows_stopped.insert(1);
    let _ = handle_input(&mut app, Key::Right, 0);
    assert_eq!(app.active_component, ActiveComponent::RunningTable);
    assert_eq!(app.active_table, ActiveTable::Running);
    assert_eq!(app.table_state_running, Some(0));
    assert!(app.selected_rows_stopped.rows.is_empty());
    let _ = handle_input(&mut app, Key::Down, 0);
    assert_eq!(app.active_component, ActiveComponent::Logs);
    assert!(matches!(handle_input(&mut app, Key::PageUp, 0), Effect::LogsPageUp));
    let _ = handle_input(&mut app, Key::Left, 0);
    assert_eq!(app.active_component, ActiveComponent::Details);
    let _ = handle_input(&mut app, Key::Up, 0);
    assert_eq!(app.active_component, ActiveComponent::StoppedTable);
    assert_eq!(app.table_state_stopped, Some(0));
    let _ = handle_input(&mut app, Key::Up, 0);
    assert_eq!(app.active_component, ActiveComponent::Menu);
    let _ = handle_input(&mut app, Key::Right, 0);
    assert_eq!(app.selected_menu_item, 1);
}

#[test]
fn page_keys_scroll_by_visible_rows() {
    let mut app = App::new();
    app.update_visible_rows(21);
    assert_eq!(app.visible_rows, 2);
    app.update_visible_rows(5);
    assert_eq!(app.visible_rows, 0);
    app.update_visible_rows(24);
    app.stopped_configs = (0..12).map(cfg).collect();
    let _ = handle_input(&mut app, Key::PageDown, 0);
    assert_eq!(app.selected_row_stopped, 5);
    let _ = handle_input(&mut app, Key::PageDown, 0);
    assert_eq!(app.selected_row_stopped, 10);
    let _ = handle_input(&mut app, Key::PageDown, 0);
    assert_eq!(app.selected_row_stopped, 11);
    let _ = handle_input(&mut app, Key::PageUp, 0);
    assert_eq!(app.selected_row_stopped, 6);
    assert_eq!(app.table_state_stopped, Some(6));
}

#[test]
fn page_down_on_empty_table_is_harmless() {
    let mut app = App::new();
    app.visible_rows = 3;
    scroll_page_down(&mut app);
    assert_eq!(app.selected_row_stopped, 0);
    assert_eq!(app.table_state_stopped, None);
}

#[test]
fn hotkeys_and_ctrl_c() {
    let mut app = App::new();
    assert!(matches!(handle_input(&mut app, Key::Char('s'), 0), Effect::LoadSettings));
    assert_eq!(app.state, AppState::ShowSettings);
    let _ = handle_input(&mut app, Key::Esc, 0);
    assert_eq!(app.state, AppState::Normal);
    let _ = handle_input(&mut app, Key::Char('h'), 0);
    assert_eq!(app.state, AppState::ShowHelp);
    let _ = handle_input(&mut app, Key::Esc, 0);
    let _ = handle_input(&mut app, Key::Char('q'), 0);
    assert_eq!(app.state, AppState::ShowAbout);
    let _ = handle_input(&mut app, Key::Enter, 0);
    assert!(matches!(handle_input(&mut app, Key::Char('i'), 0), Effect::ExplorerOpened));
    assert_eq!(app.state, AppState::ImportFileExplorerOpen);
    assert!(matches!(handle_input(&mut app, Key::Char('x'), 0), Effect::Popup(Key::Char('x'))));
    assert!(matches!(handle_input(&mut app, Key::Ctrl('c'), 0), Effect::Shutdown));
    assert_eq!(app.state, AppState::ImportFileExplorerOpen);
    let _ = handle_input(&mut app, Key::Esc, 0);
    assert_eq!(app.state, AppState::Normal);
}

#[test]
fn leaving_a_table_clears_both_selections() {
    let mut app = App::new();
    app.running_configs = vec![cfg(1), cfg(2)];
    app.active_component = ActiveComponent::RunningTable;
    app.active_table = ActiveTable::Running;
    app.table_state_running = Some(1);
    app.selected_rows_running.insert(0);
    app.selected_rows_stopped.insert(0);
    let _ = handle_input(&mut app, Key::Down, 0);
    assert_eq!(app.active_component, ActiveComponent::Logs);
    assert!(app.selected_rows_running.rows.is_empty());
    assert!(app.selected_rows_stopped.rows.is_empty());
    assert_eq!(app.table_state_running, None);
}

#[test]
fn tab_clears_both_selections() {
    let mut app = App::new();
    app.stopped_configs = vec![cfg(1)];
    app.selected_rows_stopped.insert(0);
    app.selected_rows_running.insert(3);
    let _ = handle_input(&mut app, Key::Tab, 0);
    assert_eq!(app.active_component, ActiveComponent::Details);
    assert!(app.selected_rows_stopped.rows.is_empty());
    assert!(app.selected_rows_running.rows.is_empty());
}

#[test]
fn empty_failure_still_shows_a_message() {
    let mut app = App::new();
    finish_context_selection(&mut app, Err(String::new()));
    assert_eq!(app.state, AppState::ShowErrorPopup);
    assert_eq!(app.error_message.as_deref(), Some("Unknown error"));
    let mut app = App::new();
    finish_auto_add(&mut app, Err(String::new()));
    assert_eq!(app.error_message.as_deref(), Some("Unknown error"));
}

#[test]
fn about_hotkey_from_menu_does_not_shut_down() {
    let mut app = App::new();
    app.active_component = ActiveComponent::Menu;
    assert!(matches!(handle_input(&mut app, Key::Char('q'), 0), Effect::Nothing));
    assert_eq!(app.state, AppState::ShowAbout);
    let mut app = App::new();
    app.active_component = ActiveComponent::Menu;
    app.selected_menu_item = 5;
    assert!(matches!(handle_input(&mut app, Key::Enter, 0), Effect::Nothing));
    assert_eq!(app.state, AppState::ShowAbout);
    app.state = AppState::Normal;
    app.selected_menu_item = 6;
    assert!(matches!(handle_input(&mut app, Key::Enter, 0), Effect::Shutdown));
}

#[test]
fn settings_navigation_touches_nothing_else() {
    let mut app = App::new();
    app.state = AppState::ShowSettings;
    app.settings_selected_option = 1;
    app.error_message = Some("kept".to_string());
    let monitor = app.settings_network_monitor;
    let _ = handle_settings_input(&mut app, Key::Up);
    assert_eq!(app.settings_selected_option, 0);
    assert_eq!(app.settings_network_monitor, monitor);
    assert_eq!(app.error_message.as_deref(), Some("kept"));
    assert_eq!(app.state, AppState::ShowSettings);
}

#[test]
fn invalid_timeout_keeps_editing() {
    let mut app = App::new();
    app.state = AppState::ShowSettings;
    app.settings_editing = true;
    app.settings_timeout_input = vec!['9', '9', '9', '9', '9', '9', '9', '9', '9', '9', '9'];
    let _ = handle_settings_input(&mut app, Key::Enter);
    assert_eq!(app.state, AppState::ShowErrorPopup);
    assert!(app.settings_editing);
}

#[test]
fn dispatch_on_empty_list_keeps_focus() {
    let mut app = App::new();
    app.selected_row_stopped = 4;
    app.table_state_stopped = Some(4);
    let tasks = handle_port_forwarding(&mut app, 1);
    assert!(tasks.is_empty());
    assert_eq!(app.selected_row_stopped, 4);
    assert_eq!(app.table_state_stopped, Some(4));
}
