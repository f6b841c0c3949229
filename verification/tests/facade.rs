use ankitui_tui::command::Rating;
use ankitui_tui::components::SettingsState;
use ankitui_tui::facade::Components;
use ankitui_tui::input::Action;
use ankitui_tui::model::{CardSummary, DeckSummary, SessionProgress};
use ankitui_tui::screens::AppState;
use ankitui_tui::settings::SettingsValues;

fn values() -> SettingsValues {
    SettingsValues {
        max_new_cards: "20".to_string(),
        max_review_cards: "200".to_string(),
        day_start_hour: "4".to_string(),
        day_end_hour: "23".to_string(),
        theme: "dark".to_string(),
        show_progress: "true".to_string(),
        starting_ease_factor: "2.5".to_string(),
        easy_bonus: "1.3".to_string(),
        data_dir: "Default".to_string(),
        auto_backup: "false".to_string(),
        animation_speed: "0.5".to_string(),
    }
}

fn deck(uuid: u128, name: &str) -> DeckSummary {
    DeckSummary { uuid, name: name.to_string(), description: None, created_at: 0, modified_at: 0 }
}

fn card(id: u128) -> CardSummary {
    CardSummary { id, front: "front".to_string(), back: "back".to_string(), tags: vec![] }
}

#[test]
fn facade_main_menu_opens_highlighted_screen() {
    let mut c = Components::new(values());
    assert_eq!(c.get_selected_main_menu_item(), 0);
    assert_eq!(c.navigate_main_menu(Action::Down), None);
    assert_eq!(c.navigate_main_menu(Action::Down), None);
    assert_eq!(c.get_selected_main_menu_item(), 2);
    assert_eq!(c.navigate_main_menu(Action::Select), Some(AppState::Statistics));
    assert_eq!(c.navigate_main_menu(Action::Cancel), Some(AppState::ConfirmExit));
}

#[test]
fn facade_confirm_exit_follows_arrows() {
    let mut c = Components::new(values());
    assert!(!c.get_selected_confirm_option());
    c.navigate_confirm_exit(Action::Right);
    assert!(c.get_selected_confirm_option());
    c.navigate_confirm_exit(Action::Select);
    assert!(c.get_selected_confirm_option());
    c.navigate_confirm_exit(Action::Up);
    assert!(!c.get_selected_confirm_option());
    c.navigate_confirm_exit(Action::Down);
    assert!(c.get_selected_confirm_option());
}

#[test]
fn facade_edit_fields_keep_text_and_read_only_fields_stay_blank() {
    let mut c = Components::new(values());
    c.get_mut_max_new_cards().add_char('2');
    c.get_mut_max_new_cards().add_char('5');
    assert_eq!(c.get_mut_max_new_cards().value, "25");
    assert_eq!(c.get_mut_new_deck_name().value, "");
    assert_eq!(c.get_max_new_cards().value, "");
    assert_eq!(c.get_interval_modifier().value, "");
    assert_eq!(c.get_learning_limits_selected(), 0);
}

#[test]
fn facade_shortcut_labels_and_placeholders() {
    let mut c = Components::new(values());
    assert_eq!(c.get_keyboard_shortcuts_confirm(), "Enter");
    assert_eq!(c.get_keyboard_shortcuts_again(), "1");
    assert_eq!(c.get_keyboard_shortcuts_easy(), "4");
    assert_eq!(c.get_keyboard_shortcuts_flip(), " ");
    assert_eq!(c.get_keyboard_shortcuts_skip(), "s");
    c.set_keyboard_shortcuts_skip("x".to_string());
    assert_eq!(c.get_keyboard_shortcuts_skip(), "s");
    c.set_editing_scheduling_field(Some(3));
    assert_eq!(c.get_editing_scheduling_field(), None);
    assert_eq!(c.get_advanced_edit_value(), None);
    assert!(matches!(c.get_settings_state(), SettingsState::Main));
}

#[test]
fn facade_learning_component_rates_highlighted_button() {
    let mut c = Components::new(values());
    c.set_learning_card(Some(card(9)));
    assert_eq!(c.get_selected_rating(), 2);
    assert_eq!(c.prepare_learning_rating(), Rating::Good);
    c.show_learning_answer();
    let progress = SessionProgress {
        new_remaining: 1,
        learning_remaining: 2,
        review_remaining: 3,
        relearning_remaining: 0,
        total_remaining: 6,
        cards_studied_today: 4,
    };
    c.set_session_progress(Some(progress));
    let study = c.learning_component_mut().unwrap();
    assert!(study.answer_shown());
    assert_eq!(study.session_progress(), Some(progress));
    c.request_next_learning_card();
    assert!(c.learning_component_mut().unwrap().current_card().is_none());
    assert!(c.initialize_learning().is_ok());
}

#[test]
fn facade_decks_and_card_loading() {
    let mut c = Components::new(values());
    c.update_decks(vec![deck(1, "A"), deck(2, "B")]);
    assert_eq!(c.decks().len(), 2);
    assert_eq!(c.selected_deck_index(), 0);
    assert_eq!(c.get_selected_deck().map(|d| d.uuid), Some(1));
    assert!(!c.needs_card_load());
    c.set_deck_selection_mode();
    assert_eq!(c.navigate_deck_list(Action::Down), None);
    assert_eq!(c.selected_deck_index(), 0);
    c.set_deck_management_mode();
    assert_eq!(c.navigate_deck_list(Action::Down), None);
    assert_eq!(c.selected_deck_index(), 1);
    assert!(!c.needs_card_load());
}

#[test]
fn facade_statistics_take_loaded_decks() {
    let mut c = Components::new(values());
    assert!(c.statistics_needs_refresh());
    c.update_deck_statistics(vec![]);
    assert!(c.statistics_needs_refresh());
    c.update_deck_statistics(vec![(deck(1, "A"), vec![card(1)]), (deck(2, "B"), vec![])]);
    assert!(!c.statistics_needs_refresh());
    assert_eq!(c.navigate_statistics(Action::Down), None);
    assert!(c.statistics_needs_refresh());
    assert_eq!(c.navigate_statistics(Action::Cancel), Some(AppState::MainMenu));
}

#[test]
fn facade_card_review_answer_and_help() {
    let mut c = Components::new(values());
    c.set_current_card(Some(card(5)));
    assert_eq!(c.current_card().map(|x| x.id), Some(5));
    c.show_answer();
    c.hide_answer();
    assert_eq!(c.navigate_help(Action::Right), None);
    assert_eq!(c.navigate_help(Action::Cancel), Some(AppState::MainMenu));
    assert_eq!(c.navigate_settings(Action::Cancel), Some(AppState::MainMenu));
}
