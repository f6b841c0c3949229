use ankitui_tui::components::AdvancedSettingsPanel;
use ankitui_tui::input::Action;
use ankitui_tui::outcomes::{handle_error, ErrorRecovery};
use ankitui_tui::tui_error::TuiError;
use ankitui_tui::viewmodels::SettingsViewModel;
use ankitui_tui::config_manager::{TUIConfig, TUIConfigManager};
use ankitui_tui::events::{AppEvent, EventBus};
use ankitui_tui::screens::AppState;
use ankitui_tui::state_manager::StateManager;
use ankitui_tui::store::{
    reset_study_ui_state, show_card_operation_message, show_card_operation_warning, MessageLevel, UiAppState,
};
use ankitui_tui::ui_state::{StatisticsState, StatsDisplayMode, StatsTimePeriod, UIState, UIStateKind, UIStateManager};

#[test]
fn ui_state_manager_history_copy_and_state_for_changing() {
    let mut m = UIStateManager::new();
    if let Some(menu) = m.as_mut_main_menu_state() {
        menu.selected_item = 4;
    }
    assert_eq!(m.as_main_menu_state().map(|s| s.selected_item), Some(4));
    assert!(m.as_mut_statistics_state().is_none());
    m.transition_to(
        UIState::Statistics(StatisticsState {
            selected_deck_id: None,
            time_period: StatsTimePeriod::Week,
            display_mode: StatsDisplayMode::Charts,
        }),
        "stats".to_string(),
    );
    if let Some(st) = m.as_mut_statistics_state() {
        st.selected_deck_id = Some(9);
    }
    assert_eq!(m.as_statistics_state().and_then(|s| s.selected_deck_id), Some(9));
    assert!(m.as_mut_main_menu_state().is_none());
    let h = m.get_state_history();
    assert_eq!(h.len(), 1);
    assert_eq!(h[0].from_state, UIStateKind::MainMenu);
    assert_eq!(h[0].to_state, UIStateKind::Statistics);
    assert_eq!(h[0].trigger, "stats");
}

#[test]
fn card_operation_messages_and_answer_reset() {
    let mut s = UiAppState::new();
    assert!(show_card_operation_message(&mut s, "Bury", "Card buried").is_ok());
    let m = s.message.as_ref().unwrap();
    assert_eq!(m.level, MessageLevel::Info);
    assert_eq!(m.title, "Bury");
    assert_eq!(m.content, "Card buried");
    assert!(show_card_operation_warning(&mut s, "Suspend", "Nothing to suspend").is_ok());
    assert_eq!(s.message.as_ref().unwrap().level, MessageLevel::Warning);
    s.showing_answer = true;
    reset_study_ui_state(&mut s);
    assert!(!s.showing_answer);
}

#[test]
fn render_context_copy_and_event_history() {
    let mut sm = StateManager::new();
    sm.update_context_data("k".to_string(), "v".to_string());
    sm.set_focused(false);
    let ctx = sm.get_render_context();
    assert_eq!(ctx.state, AppState::MainMenu);
    assert!(!ctx.focused);
    assert_eq!(ctx.data.get("k").map(|s| s.as_str()), Some("v"));

    let mut bus = EventBus::new();
    bus.publish(AppEvent::ApplicationStarted);
    bus.publish(AppEvent::Success { message: "ok".to_string() });
    let h = bus.get_history();
    assert_eq!(h.len(), 2);
    assert!(matches!(h[0], AppEvent::ApplicationStarted));
    assert!(matches!(h[1], AppEvent::Success { message } if message == "ok"));
}

#[test]
fn config_manager_takes_an_edited_configuration() {
    let mut m = TUIConfigManager::from_loaded(TUIConfig::default(), "cfg.toml".to_string());
    let mut edited = TUIConfig::default();
    edited.display.min_width = 120;
    m.update_config(edited);
    assert!(m.is_modified());
    assert_eq!(m.config().display.min_width, 120);
}

#[test]
fn errors_are_shown_then_recovered() {
    let mut s = UiAppState::new();
    assert_eq!(handle_error(&mut s, TuiError::Core("offline".to_string())), ErrorRecovery::RefreshCoreData);
    assert_eq!(s.error.as_deref(), Some("Core error: offline"));
    let m = s.message.as_ref().unwrap();
    assert_eq!(m.level, MessageLevel::Error);
    assert_eq!(m.title, "Application Error");
    assert_eq!(m.content, "Core error: offline");
    s.showing_answer = true;
    assert_eq!(handle_error(&mut s, TuiError::State { message: "bad".to_string() }), ErrorRecovery::StateReset);
    assert!(s.error.is_none());
    assert!(s.message.is_none());
    assert!(!s.showing_answer);
}

#[test]
fn advanced_panel_keeps_its_performance_mode() {
    let mut p = AdvancedSettingsPanel::new();
    for _ in 0..3 {
        assert!(!p.handle_action(Action::Down));
    }
    assert!(!p.handle_action(Action::Up));
    assert_eq!(p.performance_mode(), "Balanced");
}

#[test]
fn marking_values_dirty_counts_keys() {
    let mut vm = SettingsViewModel::new();
    vm.mark_dirty("a", "1".to_string());
    vm.mark_dirty("b", "2".to_string());
    vm.mark_dirty("a", "3".to_string());
    assert_eq!(vm.changed_values.len(), 2);
    assert_eq!(vm.changed_values.get("a").map(|s| s.as_str()), Some("3"));
    assert!(vm.has_unsaved_changes());
}
