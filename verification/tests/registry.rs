use ankitui_tui::input::Action;
use ankitui_tui::registry::{ComponentRegistry, RegisteredComponent};
use ankitui_tui::screens::AppState;
use ankitui_tui::screens_components::{Menu, Stats};
use ankitui_tui::settings::SettingsValues;

fn values() -> SettingsValues {
    SettingsValues {
        max_new_cards: "20".to_string(),
        max_review_cards: "200".to_string(),
        day_start_hour: "4".to_string(),
        day_end_hour: "23".to_string(),
        theme: "dark".to_string(),
        show_progress: "true".to_string(),
        starting_ease_factor: "2.5".to_string(),
        easy_bonus: "1.3".to_string(),
        data_dir: "Default".to_string(),
        auto_backup: "false".to_string(),
        animation_speed: "0.5".to_string(),
    }
}

#[test]
fn registry_routes_actions_to_the_current_screen() {
    let mut r = ComponentRegistry::new(values());
    assert!(r.get_current_component_name().is_none());
    assert_eq!(r.handle_action_in_current(Action::Select), None);
    r.set_current_component(AppState::ConfirmExit);
    assert_eq!(r.get_current_component_name().map(|s| s.as_str()), Some("main_menu"));
    assert_eq!(r.handle_action_in_current(Action::Down), Some(None));
    assert_eq!(r.handle_action_in_current(Action::Select), Some(Some(AppState::DeckManagement)));
    r.set_current_component(AppState::Help);
    assert_eq!(r.handle_action_in_current(Action::Cancel), Some(Some(AppState::MainMenu)));
    r.set_current_component(AppState::CardReview);
    assert_eq!(r.get_current_component_name().map(|s| s.as_str()), Some("learning"));
    assert_eq!(r.handle_action_in_current(Action::SwitchDeck), Some(Some(AppState::DeckSelection)));
    assert_eq!(r.get_component_name_for_state(AppState::DeckManagement), "deck_selector");
}

#[test]
fn registry_register_replaces_by_name() {
    let mut r = ComponentRegistry::new(values());
    assert_eq!(r.handle_action_in("main_menu", Action::Down), Some(None));
    r.register_component("main_menu", RegisteredComponent::Menu(Menu::new()));
    // the fresh menu starts on its first entry again
    assert_eq!(r.handle_action_in("main_menu", Action::Select), Some(Some(AppState::DeckSelection)));
    assert_eq!(r.handle_action_in("extra", Action::Cancel), None);
    r.register_component("extra", RegisteredComponent::Stats(Stats::new()));
    assert_eq!(r.handle_action_in("extra", Action::Cancel), Some(Some(AppState::MainMenu)));
    r.update_all();
    assert_eq!(r.handle_action_in("help", Action::Cancel), Some(Some(AppState::MainMenu)));
}
