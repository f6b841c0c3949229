use ankitui_tui::deck_selector::{DeckOperation, DeckSelectionMode, DeckSelector};
use ankitui_tui::input::Action;
use ankitui_tui::model::DeckSummary;
use ankitui_tui::screens::AppState;

fn deck(uuid: u128, name: &str, description: Option<&str>, created_at: i64) -> DeckSummary {
    DeckSummary {
        uuid,
        name: name.to_string(),
        description: description.map(|d| d.to_string()),
        created_at,
        modified_at: created_at,
    }
}

fn names(s: &DeckSelector) -> Vec<String> {
    s.decks().iter().map(|d| d.name.clone()).collect()
}

#[test]
fn new_selector_manages_an_empty_list() {
    let s = DeckSelector::new();
    assert_eq!(s.current_mode(), DeckSelectionMode::Manage);
    assert!(s.decks().is_empty());
    assert!(s.selected_deck().is_none());
    assert_eq!(s.selected_index(), 0);
    assert_eq!(s.name(), "deck_selection");
}

#[test]
fn moving_stays_inside_the_list() {
    let mut s = DeckSelector::new();
    s.update_decks(vec![deck(1, "a", None, 0), deck(2, "b", None, 0), deck(3, "c", None, 0)]);
    assert_eq!(s.selected_index(), 0);
    s.move_up();
    assert_eq!(s.selected_index(), 0);
    s.move_down();
    s.move_down();
    s.move_down();
    assert_eq!(s.selected_index(), 2);
    assert_eq!(s.selected_deck().unwrap().uuid, 3);
    assert_eq!(s.list_selected(), Some(2));
    s.move_up();
    assert_eq!(s.get_selected_deck().unwrap().name, "b");
}

#[test]
fn update_sorts_by_name_and_keeps_equal_names_in_order() {
    let mut s = DeckSelector::new();
    s.update_decks(vec![
        deck(1, "Spanish", None, 5),
        deck(2, "French", None, 4),
        deck(3, "Spanish", None, 3),
        deck(4, "Art", None, 2),
        deck(5, "Spanis", None, 1),
    ]);
    s.update();
    assert_eq!(names(&s), vec!["Art", "French", "Spanis", "Spanish", "Spanish"]);
    let ids: Vec<u128> = s.decks().iter().map(|d| d.uuid).collect();
    assert_eq!(ids, vec![4, 2, 5, 1, 3]);
    s.update();
    let again: Vec<u128> = s.decks().iter().map(|d| d.uuid).collect();
    assert_eq!(again, vec![4, 2, 5, 1, 3]);
}

#[test]
fn update_orders_by_code_point_like_string_cmp() {
    let mut s = DeckSelector::new();
    s.update_decks(vec![deck(1, "b", None, 0), deck(2, "B", None, 0), deck(3, "ä", None, 0), deck(4, "", None, 0)]);
    s.update();
    let mut expected = vec!["b".to_string(), "B".to_string(), "ä".to_string(), "".to_string()];
    expected.sort();
    assert_eq!(names(&s), expected);
}

#[test]
fn filter_with_empty_query_shows_every_deck() {
    let mut s = DeckSelector::new();
    s.update_decks(vec![deck(1, "x", None, 0), deck(2, "y", Some("z"), 0)]);
    let shown = s.filter_decks();
    assert_eq!(shown.len(), 2);
    assert_eq!(shown[1].uuid, 2);
}

#[test]
fn statistics_shortcut_shows_the_deck_id() {
    let mut s = DeckSelector::new();
    s.update_decks(vec![deck(0x0123_4567_89ab_cdef_0011_2233_4455_6677, "a", None, 0)]);
    assert_eq!(s.handle_action(Action::Char('s')), None);
    assert_eq!(s.current_mode(), DeckSelectionMode::Statistics);
    assert_eq!(s.edit_field(), "01234567-89ab-cdef-0011-223344556677");
    assert_eq!(s.handle_action(Action::Cancel), None);
    assert_eq!(s.current_mode(), DeckSelectionMode::Manage);
    assert_eq!(s.handle_action(Action::Cancel), Some(AppState::MainMenu));
}

#[test]
fn create_mode_takes_typed_text_and_backspace() {
    let mut s = DeckSelector::new();
    s.handle_action(Action::Char('c'));
    assert_eq!(s.current_mode(), DeckSelectionMode::Create);
    s.handle_action(Action::Char('H'));
    s.handle_action(Action::Char('i'));
    s.handle_action(Action::Char('!'));
    s.handle_action(Action::Backspace);
    assert_eq!(s.edit_field(), "Hi");
    match s.get_pending_operation() {
        Some(DeckOperation::Create { name, .. }) => assert_eq!(name, "Hi"),
        other => panic!("expected a create operation, got {:?}", other),
    }
}

#[test]
fn delete_shortcut_asks_for_confirmation() {
    let mut s = DeckSelector::new();
    s.update_decks(vec![deck(9, "Old", None, 0)]);
    s.handle_action(Action::Char('d'));
    assert!(s.show_confirm_dialog());
    assert_eq!(s.confirm_message(), "Delete deck 'Old'?");
    s.handle_action(Action::Cancel);
    assert!(!s.show_confirm_dialog());
    assert_eq!(s.confirm_message(), "");
}
