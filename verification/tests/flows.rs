use ankitui_tui::app_commands::CoreRequest;
use ankitui_tui::command::{CardRating, Command, CommandKind, Rating, Screen};
use ankitui_tui::controller::{
    finish_create_deck, finish_delete_deck, finish_next_card, handle_command, navigate_to_screen, ControllerRequest,
};
use ankitui_tui::input::Action;
use ankitui_tui::model::{CardSummary, DeckSummary, SessionState, UserPreferences};
use ankitui_tui::outcomes::{begin_study_session, finish_card_rating, finish_study_session_end, finish_study_session_start};
use ankitui_tui::screens::AppState;
use ankitui_tui::store::{
    handle_navigate_back, numeric_state_update, toggle_boolean_ui_state, update_numeric_ui_state, MessageLevel,
    UiAppState,
};
use ankitui_tui::settings::SettingsValues;
use ankitui_tui::tui_app::TuiApp;
use ankitui_tui::tui_error::TuiError;

fn values() -> SettingsValues {
    SettingsValues {
        max_new_cards: "20".to_string(),
        max_review_cards: "200".to_string(),
        day_start_hour: "4".to_string(),
        day_end_hour: "23".to_string(),
        theme: "dark".to_string(),
        show_progress: "true".to_string(),
        starting_ease_factor: "2.5".to_string(),
        easy_bonus: "1.3".to_string(),
        data_dir: "Default".to_string(),
        auto_backup: "false".to_string(),
        animation_speed: "0.5".to_string(),
    }
}

fn decks(n: usize) -> Result<Vec<(DeckSummary, Vec<CardSummary>)>, String> {
    Ok((0..n)
        .map(|i| {
            (
                DeckSummary { uuid: i as u128 + 1, name: format!("d{}", i), description: None, created_at: 0, modified_at: 0 },
                vec![],
            )
        })
        .collect())
}

#[test]
fn controller_moves_and_requests() {
    let mut s = UiAppState::new();
    let d = decks(2);
    assert_eq!(handle_command(&mut s, &Command::user(CommandKind::NavigateTo(Screen::DeckSelection)), &d), None);
    assert_eq!(s.current_screen(), Screen::DeckSelection);
    assert_eq!(s.deck_list_selected, Some(0));
    assert_eq!(handle_command(&mut s, &Command::user(CommandKind::SelectPreviousDeck), &d), None);
    assert_eq!(s.deck_list_selected, Some(1));
    assert_eq!(
        handle_command(&mut s, &Command::user(CommandKind::RateCurrentCard(CardRating::Easy)), &d),
        Some(ControllerRequest::RateCard(Rating::Easy))
    );
    assert_eq!(
        handle_command(&mut s, &Command::user(CommandKind::StartStudySession(7)), &d),
        Some(ControllerRequest::StartStudySession(7))
    );
    assert_eq!(s.current_screen(), Screen::StudySession);
}

#[test]
fn controller_prepares_screen_defaults() {
    let mut s = UiAppState::new();
    navigate_to_screen(&mut s, Screen::StudyPrefs);
    assert_eq!(s.ui_state.get("new_cards_per_day"), Some(&"20".to_string()));
    assert_eq!(s.ui_state.get("max_reviews_per_day"), Some(&"200".to_string()));
    assert_eq!(s.ui_state.get("auto_advance"), Some(&"false".to_string()));
    s.ui_state.insert("new_cards_per_day".to_string(), "35".to_string());
    navigate_to_screen(&mut s, Screen::Settings);
    navigate_to_screen(&mut s, Screen::StudyPrefs);
    assert_eq!(s.ui_state.get("new_cards_per_day"), Some(&"35".to_string()));
}

#[test]
fn controller_outcomes_report_messages() {
    let mut s = UiAppState::new();
    assert!(matches!(finish_create_deck(&mut s, &"Kanji".to_string(), Ok(9)), Ok(9)));
    assert_eq!(s.message.as_ref().unwrap().content, "Deck 'Kanji' created successfully");
    assert!(finish_delete_deck(&mut s, &None, Ok(())).is_ok());
    assert_eq!(s.message.as_ref().unwrap().content, "Deck 'Unknown' deleted successfully");
    let before = s.message.as_ref().unwrap().content.clone();
    assert!(finish_delete_deck(&mut s, &Some("x".to_string()), Err(TuiError::Core("no".to_string()))).is_err());
    assert_eq!(s.message.as_ref().unwrap().content, before);
    finish_next_card(&mut s, Some(false));
    assert_eq!(s.message.as_ref().unwrap().content, "No more cards to study");
    assert!(!s.current_card_study);
}

#[test]
fn study_session_outcomes() {
    let mut s = UiAppState::new();
    assert_eq!(begin_study_session(&mut s), None);
    assert_eq!(s.message.as_ref().unwrap().title, "No Deck Selected");
    s.selected_deck_id = Some(5);
    assert_eq!(begin_study_session(&mut s), Some(5));
    match finish_study_session_start(&mut s, 5, &Err("locked".to_string())) {
        Err(TuiError::Core(m)) => assert_eq!(m, "Failed to start study session: locked"),
        other => panic!("unexpected {:?}", other),
    }
    assert_eq!(s.current_screen(), Screen::MainMenu);
    assert!(finish_study_session_start(&mut s, 5, &Ok(())).is_ok());
    assert_eq!(s.current_screen(), Screen::StudySession);
    assert_eq!(s.current_session.as_ref().unwrap().deck_id, 5);
    assert!(s.current_card_study);
    s.showing_answer = true;
    assert!(finish_card_rating(&mut s, &Ok(())).is_ok());
    assert!(!s.showing_answer);
    assert!(finish_study_session_end(&mut s, &Ok(12)).is_ok());
    assert_eq!(s.current_screen(), Screen::DeckSelection);
    assert!(s.current_session.is_none());
    let m = s.message.as_ref().unwrap();
    assert_eq!((m.level, m.content.as_str()), (MessageLevel::Success, "Cards studied: 12"));
}

#[test]
fn store_helpers() {
    assert_eq!(numeric_state_update(i32::MAX, 0), i32::MAX);
    assert_eq!(numeric_state_update(-5, -10), 0);
    let mut s = UiAppState::new();
    update_numeric_ui_state(&mut s, "count", 3);
    update_numeric_ui_state(&mut s, "count", -1);
    assert_eq!(s.ui_state.get("count"), Some(&"2".to_string()));
    toggle_boolean_ui_state(&mut s, "flag");
    assert_eq!(s.ui_state.get("flag"), Some(&"true".to_string()));
    toggle_boolean_ui_state(&mut s, "flag");
    assert_eq!(s.ui_state.get("flag"), Some(&"false".to_string()));
    s.navigate_to(Screen::Help);
    handle_navigate_back(&mut s);
    assert_eq!(s.current_screen(), Screen::MainMenu);
}

#[test]
fn model_values() {
    let p = UserPreferences::new("Ann".to_string());
    assert_eq!((p.display_name.as_str(), p.theme.as_str(), p.auto_advance, p.show_progress), ("Ann", "default", false, true));
    let d = UserPreferences::default();
    assert_eq!(d.display_name, "User");
    let mut s = SessionState::new(3);
    assert!(s.is_complete());
    s.total_cards = 4;
    s.cards_studied = 1;
    assert_eq!(s.current_position(), 1);
    assert!(!s.is_complete());
}

#[test]
fn tui_app_messages_and_screens() {
    let mut a = TuiApp::new(values());
    a.apply_deck_load(&Ok(0));
    assert_eq!(a.success_message.as_deref(), Some("Welcome! Create your first deck to get started learning."));
    a.apply_action(Action::Help, None);
    assert!(a.success_message.is_some());
    a.apply_action(Action::Select, Some(AppState::Statistics));
    assert!(a.success_message.is_none());
    assert_eq!(a.state(), AppState::Statistics);
    assert_eq!(a.previous_state, Some(AppState::MainMenu));
    a.apply_deck_load(&Err("gone".to_string()));
    assert_eq!(a.error_message.as_deref(), Some("Failed to load decks: gone"));
    a.apply_action(Action::Quit, Some(AppState::Help));
    assert!(a.should_quit());
    assert_eq!(a.state(), AppState::Statistics);
    let mut b = TuiApp::new(values());
    b.apply_action(Action::Select, Some(AppState::CardReview));
    b.apply_session_progress(false);
    assert_eq!(b.success_message.as_deref(), Some("All cards reviewed! Session complete."));
    b.set_error("e".to_string());
    assert!(b.success_message.is_none());
    b.clear_messages();
    assert!(b.error_message.is_none());
    let _ = CoreRequest::Quit;
}

#[test]
fn tui_app_routes_actions_through_its_components() {
    let mut a = TuiApp::new(values());
    a.handle_action(Action::Down);
    a.handle_action(Action::Down);
    a.handle_action(Action::Select);
    assert_eq!(a.state(), AppState::Statistics);
    assert_eq!(a.previous_state, Some(AppState::MainMenu));
    assert_eq!(
        a.action_dispatcher.component_registry().get_current_component_name().map(|s| s.as_str()),
        Some("statistics")
    );
    a.handle_action(Action::Cancel);
    assert_eq!(a.state(), AppState::MainMenu);
    a.handle_action(Action::Quit);
    assert!(a.should_quit());
    assert_eq!(a.action_dispatcher.event_bus().get_history().len(), 6);
}

#[test]
fn tui_app_update_and_statistics() {
    let mut a = TuiApp::new(values());
    a.update(Ok(vec![]), None);
    assert_eq!(a.success_message.as_deref(), Some("Welcome! Create your first deck to get started learning."));
    a.update(
        Ok(vec![DeckSummary { uuid: 3, name: "x".to_string(), description: None, created_at: 0, modified_at: 0 }]),
        None,
    );
    assert_eq!(a.components().decks().len(), 1);
    a.load_statistics(Err("down".to_string()));
    assert_eq!(a.error_message.as_deref(), Some("Failed to load statistics: down"));
    a.load_statistics(decks(2));
    assert!(!a.components().statistics_needs_refresh());
    a.update(Err("io".to_string()), None);
    assert_eq!(a.error_message.as_deref(), Some("Failed to load decks: io"));
}
