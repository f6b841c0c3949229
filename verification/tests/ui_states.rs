use ankitui_tui::app_status::{ApplicationState, ApplicationStateManager};
use ankitui_tui::error_management::{ErrorConfig, ErrorManagement, ErrorSeverity, RecoveryManager};
use ankitui_tui::ui_state::{
    ConfirmExitState, HelpState, HelpTopic, MessageLevel, SystemMessage, UIState, UIStateKind, UIStateManager,
};

#[test]
fn ui_state_manager_starts_on_the_menu() {
    let m = UIStateManager::new();
    let menu = m.as_main_menu_state().expect("main menu");
    let ids: Vec<&str> = menu.menu_items.iter().map(|i| i.id.as_str()).collect();
    assert_eq!(ids, vec!["review", "deck_management", "statistics", "settings", "help", "quit"]);
    assert_eq!(menu.selected_item, 0);
    assert_eq!(m.max_history_size, 50);
    assert!(m.as_settings_state().is_none());
}

#[test]
fn ui_state_manager_back_undoes_a_move() {
    let mut m = UIStateManager::new();
    assert!(!m.go_back());
    m.transition_to(UIState::Help(HelpState { selected_topic: HelpTopic::Shortcuts, scroll_position: 2 }), "F1".to_string());
    assert_eq!(m.get_current_state().kind(), UIStateKind::Help);
    assert_eq!(m.state_history.len(), 1);
    assert_eq!(m.state_history[0].from_state, UIStateKind::MainMenu);
    assert_eq!(m.state_history[0].to_state, UIStateKind::Help);
    assert_eq!(m.state_history[0].trigger, "F1");
    assert!(m.go_back());
    assert_eq!(m.get_current_state().kind(), UIStateKind::MainMenu);
    assert!(m.as_main_menu_state().is_some());
    assert_eq!(m.state_history.len(), 2);
    assert_eq!(m.state_history[1].trigger, "go_back");
    assert!(!m.go_back());
}

#[test]
fn ui_state_manager_remembers_ten_states() {
    let mut m = UIStateManager::new();
    for i in 0..12 {
        m.transition_to(UIState::ConfirmExit(ConfirmExitState { selected_option: i % 2 == 0 }), "t".to_string());
    }
    assert_eq!(m.previous_states.len(), 10);
    assert_eq!(m.state_history.len(), 12);
}

#[test]
fn system_messages_dismiss_by_level() {
    let m = SystemMessage::info("i".to_string());
    assert_eq!((m.level, m.auto_dismiss_secs), (MessageLevel::Info, Some(5)));
    let m = SystemMessage::success("s".to_string());
    assert_eq!((m.level, m.auto_dismiss_secs), (MessageLevel::Success, Some(3)));
    let m = SystemMessage::warning("w".to_string());
    assert_eq!((m.level, m.auto_dismiss_secs), (MessageLevel::Warning, Some(8)));
    let m = SystemMessage::error("e".to_string());
    assert_eq!((m.level, m.auto_dismiss_secs), (MessageLevel::Error, None));
    assert_eq!(m.content, "e");
}

#[test]
fn error_handling_defaults() {
    let c = ErrorConfig::default();
    assert_eq!((c.max_history_size, c.max_active_messages, c.auto_recovery, c.max_retries, c.retry_delay_ms), (100, 10, true, 3, 1000));
    let r = RecoveryManager::default();
    assert!(r.auto_recovery);
    assert_eq!(r.max_retries, 3);
    let m = ErrorManagement::default();
    assert!(m.error_manager.history.is_empty());
    assert_eq!(m.error_manager.max_active_messages, 10);
    assert_eq!(m.error_manager.statistics.total_count, 0);
    assert_eq!(ErrorSeverity::Critical.as_str(), "CRITICAL");
    assert!(ErrorSeverity::Critical.at_least(&ErrorSeverity::Warning));
    assert!(!ErrorSeverity::Info.at_least(&ErrorSeverity::Warning));
}

#[test]
fn application_state_starts_fresh() {
    let s = ApplicationState::starting_at(1000, "sess".to_string());
    assert_eq!(s.ui_state.focused_area, "main");
    assert_eq!(s.ui_state.language, "en");
    assert_eq!(s.runtime_state.start_time, 1000);
    assert_eq!(s.runtime_state.session.session_id, "sess");
    assert!(s.service_state.session_controller_state.is_none());
    let d = ApplicationState::default();
    let id = &d.runtime_state.session.session_id;
    assert_eq!(id.len(), 36);
    assert_eq!(&id[14..15], "4");
}

#[test]
fn application_state_manager_tracks_sessions_errors_and_renders() {
    let mut m = ApplicationStateManager { state: ApplicationState::starting_at(100, "s".to_string()) };
    assert_eq!(m.initialize_services_at(Err("no db".to_string()), 110), Err("no db".to_string()));
    assert!(m.state.service_state.deck_manager_state.initialized);
    assert!(!m.state.service_state.stats_engine_state.initialized);
    assert_eq!(m.initialize_services_at(Ok(4), 120), Ok(()));
    assert_eq!(m.state.service_state.deck_manager_state.deck_count, 4);
    assert_eq!(m.state.service_state.stats_engine_state.last_calculation, Some(120));

    assert_eq!(m.start_learning_session_at("d1".to_string(), Err("busy".to_string()), 130), Err("busy".to_string()));
    assert!(m.state.service_state.session_controller_state.is_none());
    assert_eq!(m.start_learning_session_at("d1".to_string(), Ok(()), 140), Ok(()));
    assert!(m.get_state_snapshot_at(150).session_active);
    m.end_learning_session();
    assert_eq!(m.state.runtime_state.current_action.as_deref(), Some("end_learning_session"));
    let snap = m.get_state_snapshot_at(150);
    assert!(!snap.session_active);
    assert_eq!(snap.uptime_seconds, 50);
    assert_eq!(snap.deck_count, 4);

    m.handle_error_at("bad".to_string(), ErrorSeverity::Error, 160);
    m.handle_error_at("meh".to_string(), ErrorSeverity::Warning, 161);
    m.handle_error_at("fyi".to_string(), ErrorSeverity::Info, 162);
    assert_eq!(m.state.error_state.error_count, 1);
    assert_eq!(m.state.error_state.warning_count, 1);
    assert_eq!(m.state.error_state.last_error_time, Some(162));

    m.update_performance_at(170);
    m.update_performance_at(171);
    assert_eq!(m.state.runtime_state.performance.render_count, 2);
    m.update_user_activity_at(90);
    assert_eq!(m.state.runtime_state.session.duration, (-10i64) as u64);
    m.update_user_activity_at(400);
    assert_eq!(m.state.runtime_state.session.duration, 300);
    m.reset();
    assert_eq!(m.state.runtime_state.performance.render_count, 0);
}
