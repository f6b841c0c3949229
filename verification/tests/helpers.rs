use ankitui_tui::data_helpers::{backup_filename, create_backup_filename, validate_data_dir, validate_import_file};
use ankitui_tui::model::{card_exists_in_deck, CardSummary};
use ankitui_tui::store::numeric_state_update;
use ankitui_tui::tui_error::TuiError;

#[test]
fn test_numeric_state_update_logic() {
    let new_value = numeric_state_update(5, 1);
    assert_eq!(new_value, 6);

    let new_value = numeric_state_update(0, -1);
    assert_eq!(new_value, 0);
}

#[test]
fn test_helper_functions_exist() {
    assert!(true);
}

#[test]
fn test_create_backup_filename() {
    let filename = create_backup_filename();
    assert!(filename.starts_with("backup_"));
    assert!(filename.ends_with(".toml"));
}

#[test]
fn backup_filename_has_the_stamp_shape() {
    assert_eq!(backup_filename("20240131_235959"), "backup_20240131_235959.toml");
    let name = create_backup_filename();
    assert_eq!(name.len(), 27);
    let stamp = &name[7..22];
    assert_eq!(&stamp[8..9], "_");
    assert!(stamp[..8].chars().all(|c| c.is_ascii_digit()));
    assert!(stamp[9..].chars().all(|c| c.is_ascii_digit()));
}

#[test]
fn test_card_exists_in_deck() {
    let card_id: u128 = 0x1234_5678_9abc_def0_1234_5678_9abc_def0;
    let cards: Vec<CardSummary> = vec![];

    assert!(!card_exists_in_deck(&cards, card_id));
    assert!(!card_exists_in_deck(&cards, 42));
}

#[test]
fn card_exists_in_deck_finds_a_listed_card() {
    let cards = vec![
        CardSummary { id: 1, front: "a".to_string(), back: "b".to_string(), tags: vec![] },
        CardSummary { id: 7, front: "c".to_string(), back: "d".to_string(), tags: vec![] },
    ];
    assert!(card_exists_in_deck(&cards, 7));
    assert!(!card_exists_in_deck(&cards, 3));
}

#[test]
fn validate_data_dir_reports_each_problem() {
    assert!(validate_data_dir("\"/tmp/x\"", true, true).is_ok());
    match validate_data_dir("\"/tmp/x\"", false, false) {
        Err(TuiError::State { message }) => assert_eq!(message, "Data directory does not exist: \"/tmp/x\""),
        _ => panic!("expected a state error"),
    }
    match validate_data_dir("\"/tmp/x\"", true, false) {
        Err(TuiError::State { message }) => assert_eq!(message, "Data path is not a directory: \"/tmp/x\""),
        _ => panic!("expected a state error"),
    }
}

#[test]
fn validate_import_file_reports_each_problem() {
    assert!(validate_import_file("\"deck.toml\"", true, true).is_ok());
    match validate_import_file("\"deck.toml\"", false, true) {
        Err(TuiError::State { message }) => assert_eq!(message, "Import file does not exist: \"deck.toml\""),
        _ => panic!("expected a state error"),
    }
    match validate_import_file("\"deck.toml\"", true, false) {
        Err(TuiError::State { message }) => assert_eq!(message, "Import path is not a file: \"deck.toml\""),
        _ => panic!("expected a state error"),
    }
}
