use ankitui_tui::dispatcher::{action_debug_text, state_debug_text, ActionDispatcher};
use ankitui_tui::events::AppEvent;
use ankitui_tui::input::Action;
use ankitui_tui::registry::ComponentRegistry;
use ankitui_tui::screens::AppState;
use ankitui_tui::settings::SettingsValues;

fn values() -> SettingsValues {
    SettingsValues {
        max_new_cards: "20".to_string(),
        max_review_cards: "200".to_string(),
        day_start_hour: "4".to_string(),
        day_end_hour: "23".to_string(),
        theme: "dark".to_string(),
        show_progress: "true".to_string(),
        starting_ease_factor: "2.5".to_string(),
        easy_bonus: "1.3".to_string(),
        data_dir: "Default".to_string(),
        auto_backup: "false".to_string(),
        animation_speed: "0.5".to_string(),
    }
}

#[test]
fn dispatcher_logs_actions_and_screen_changes() {
    let mut d = ActionDispatcher::new(ComponentRegistry::new(values()));
    assert_eq!(d.handle_action(Action::Down, AppState::MainMenu), None);
    assert_eq!(d.handle_action(Action::Select, AppState::MainMenu), Some(AppState::DeckManagement));
    let h = d.event_bus().get_history();
    assert_eq!(h.len(), 3);
    assert!(matches!(h[0], AppEvent::KeyPressed { key, modifiers } if key == "Down" && modifiers.is_empty()));
    assert!(matches!(h[1], AppEvent::UserAction { action, target } if action == "select" && target == "MainMenu"));
    assert!(matches!(h[2], AppEvent::StateChanged { old_state, new_state }
        if old_state == "MainMenu" && new_state == "DeckManagement"));
    assert_eq!(d.component_registry().get_current_component_name().map(|s| s.as_str()), Some("main_menu"));
}

#[test]
fn dispatcher_event_kinds() {
    let mut d = ActionDispatcher::new(ComponentRegistry::new(values()));
    assert_eq!(d.handle_action(Action::Quit, AppState::Help), None);
    assert_eq!(d.handle_action(Action::Help, AppState::Statistics), None);
    assert_eq!(d.handle_action(Action::Char('x'), AppState::Settings), None);
    let h = d.event_bus().get_history();
    assert!(matches!(h[0], AppEvent::ApplicationExiting));
    assert!(matches!(h[1], AppEvent::NavigateTo { destination } if destination == "help"));
    assert!(matches!(h[2], AppEvent::UserAction { action, target } if action == "Char('x')" && target == "Settings"));
}

#[test]
fn debug_texts_match_rust_debug() {
    assert_eq!(state_debug_text(AppState::ConfirmExit), format!("{:?}", AppState::ConfirmExit));
    assert_eq!(action_debug_text(Action::RateEasy), format!("{:?}", Action::RateEasy));
    assert_eq!(action_debug_text(Action::Char('\n')), format!("{:?}", Action::Char('\n')));
    assert_eq!(action_debug_text(Action::Char('é')), "Char('é')");
}
