use ankitui_tui::input::Action;
use ankitui_tui::screens::AppState;
use ankitui_tui::settings::{Settings, SettingsItem, SettingsValues, SettingsViewMode};

fn values() -> SettingsValues {
    SettingsValues {
        max_new_cards: "20".to_string(),
        max_review_cards: "200".to_string(),
        day_start_hour: "4".to_string(),
        day_end_hour: "23".to_string(),
        theme: "dark".to_string(),
        show_progress: "true".to_string(),
        starting_ease_factor: "2.5".to_string(),
        easy_bonus: "1.3".to_string(),
        data_dir: "Default".to_string(),
        auto_backup: "false".to_string(),
        animation_speed: "0.5".to_string(),
    }
}

fn names(s: &Settings) -> Vec<String> {
    s.shown_items()
        .iter()
        .map(|i| match i {
            SettingsItem::Category { name, .. } => name.clone(),
            SettingsItem::Setting { name, .. } => name.clone(),
        })
        .collect()
}

#[test]
fn settings_list_categories_then_settings() {
    let mut s = Settings::with_config(values());
    assert_eq!(
        names(&s),
        vec!["Learning Limits", "Theme & Display", "Keyboard Shortcuts", "Scheduling Algorithm", "Data Management", "Advanced"]
    );
    assert_eq!(s.handle_action(Action::Down), None);
    assert_eq!(s.handle_action(Action::Select), None);
    assert!(matches!(s.view_mode(), SettingsViewMode::SettingList { category } if category == "Theme & Display"));
    assert_eq!(names(&s), vec!["Theme", "Show Progress"]);
    assert_eq!(s.selected_index(), 0);
    s.handle_action(Action::Down);
    s.handle_action(Action::Down);
    assert_eq!(s.selected_index(), 1);
    s.handle_action(Action::Select);
    assert!(matches!(s.view_mode(), SettingsViewMode::SettingList { .. }));
    s.handle_action(Action::Up);
    s.handle_action(Action::Select);
    assert!(matches!(s.view_mode(), SettingsViewMode::EditingValue { setting_path } if setting_path == "Theme"));
    assert_eq!(s.edit_field(), "dark");
    s.handle_action(Action::Backspace);
    s.handle_action(Action::Char('!'));
    assert_eq!(s.edit_field(), "dar!");
    assert_eq!(s.handle_action(Action::Cancel), None);
    assert_eq!(s.edit_field(), "");
    assert!(matches!(s.view_mode(), SettingsViewMode::CategoryList));
    assert_eq!(names(&s).len(), 6);
    assert_eq!(s.handle_action(Action::Cancel), Some(AppState::MainMenu));
    assert_eq!(s.name(), "settings");
}

#[test]
fn settings_values_are_shown() {
    let mut s = Settings::with_config(values());
    s.handle_action(Action::Select);
    let shown: Vec<String> = s
        .shown_items()
        .iter()
        .map(|i| match i {
            SettingsItem::Setting { current_value, .. } => current_value.clone(),
            SettingsItem::Category { .. } => String::new(),
        })
        .collect();
    assert_eq!(shown, vec!["20", "200", "4", "23"]);
    s.handle_action(Action::Select);
    assert_eq!(s.edit_field(), "20");
    s.handle_action(Action::Select);
    assert!(matches!(s.view_mode(), SettingsViewMode::CategoryList));
    s.update();
    assert_eq!(names(&s).len(), 6);
}
