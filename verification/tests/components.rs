use ankitui_tui::components::{
    dialog_area, ConfirmExitDialog, DataManagementPanel, EditField, KeyboardShortcutsPanel, MessageDialog,
    MessageType, ThemeDisplayPanel,
};
use ankitui_tui::help::{Help, HelpSection};
use ankitui_tui::input::Action;
use ankitui_tui::screens::AppState;

#[test]
fn exit_dialog_starts_on_no_and_toggles_back() {
    let mut d = ConfirmExitDialog::new();
    assert!(!d.is_yes_selected());
    d.toggle_selection();
    assert!(d.is_yes_selected());
    d.toggle_selection();
    assert!(!d.is_yes_selected());
    d.select_yes();
    assert!(d.is_yes_selected());
    d.select_no();
    assert!(!d.is_yes_selected());
    assert!(!ConfirmExitDialog::default().is_yes_selected());
}

#[test]
fn message_dialog_keeps_what_it_is_given() {
    let d = MessageDialog::new("Saved".to_string(), "All done".to_string(), MessageType::Success);
    assert_eq!(d.title, "Saved");
    assert_eq!(d.message, "All done");
    assert_eq!(d.message_type, MessageType::Success);
}

#[test]
fn dialog_area_is_centred_and_clamped() {
    assert_eq!(dialog_area(100, 40, 50, 10), (25, 15, 50, 10));
    assert_eq!(dialog_area(20, 10, 50, 10), (2, 2, 16, 6));
    assert_eq!(dialog_area(4, 4, 10, 10), (2, 2, 0, 0));
}

#[test]
fn edit_field_typing_then_erasing_restores_the_text() {
    let mut f = EditField::new();
    assert_eq!(f.value, "");
    f.start_editing();
    f.add_char('a');
    f.add_char('é');
    assert_eq!(f.value, "aé");
    f.remove_char();
    assert_eq!(f.value, "a");
    f.remove_char();
    f.remove_char();
    assert_eq!(f.value, "");
}

#[test]
fn settings_panels_never_ask_for_another_screen() {
    let mut t = ThemeDisplayPanel::new();
    assert_eq!(t.labels(), ("Default", "Dark", "Compact"));
    assert!(!t.handle_action(Action::Down));
    assert!(!t.handle_action(Action::Up));
    t.update();
    assert_eq!(t.labels(), ("Default", "Dark", "Compact"));

    let mut k = KeyboardShortcutsPanel::new();
    assert_eq!(k.shortcuts().len(), 18);
    assert_eq!(k.shortcuts()[0], ("Navigation", ""));
    assert_eq!(k.shortcuts()[8], ("Space", "Show answer"));
    assert!(!k.handle_action(Action::Down));

    let mut d = DataManagementPanel::with_config(true);
    assert!(!d.handle_action(Action::Select));
}

#[test]
fn help_titles_and_cycle() {
    assert_eq!(HelpSection::Overview.get_title(), "Overview");
    assert_eq!(HelpSection::KeyboardShortcuts.get_title(), "Keyboard Shortcuts");
    assert_eq!(HelpSection::About.get_title(), "About");
    assert_eq!(HelpSection::About.next_section(), HelpSection::Overview);
    assert_eq!(HelpSection::Overview.previous_section(), HelpSection::About);
    let mut s = HelpSection::Troubleshooting;
    for _ in 0..7 {
        s = s.next_section();
    }
    assert_eq!(s, HelpSection::Troubleshooting);
    assert_eq!(HelpSection::Settings.next_section().previous_section(), HelpSection::Settings);
    let content = HelpSection::Overview.get_content();
    assert_eq!(content[0], "AnkiTUI - Terminal-based Spaced Repetition");
    assert_eq!(content[1], "");
}

#[test]
fn help_actions_move_between_sections() {
    let mut h = Help::new();
    assert_eq!(h.current_section(), HelpSection::Overview);
    assert_eq!(h.handle_action(Action::Right), None);
    assert_eq!(h.current_section(), HelpSection::KeyboardShortcuts);
    assert_eq!(h.handle_action(Action::Left), None);
    assert_eq!(h.handle_action(Action::Left), None);
    assert_eq!(h.current_section(), HelpSection::About);
    assert_eq!(h.handle_action(Action::Down), None);
    assert_eq!(h.handle_action(Action::Up), None);
    assert_eq!(h.current_section(), HelpSection::About);
    assert_eq!(h.handle_action(Action::Cancel), Some(AppState::MainMenu));
    assert_eq!(h.handle_action(Action::Select), None);
    h.update();
    assert_eq!(h.current_section(), HelpSection::About);
    assert_eq!(h.name(), "help");
}
