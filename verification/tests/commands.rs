use ankitui_tui::app_commands::{command_would_overflow, execute_command, CommandContext, CoreRequest};
use ankitui_tui::app_config::{validate_config, AppConfig, ApplicationEventProcessor, EventLoopConfig};
use ankitui_tui::command::{CardRating, Command, CommandKind, Rating, Screen};
use ankitui_tui::dispatch::{
    handle_event_with_state, handle_key_event_contextual, handle_mouse_event_contextual, handle_paste_contextual,
    Event, MouseButton, MouseEventKind, MouseInput,
};
use ankitui_tui::input::{KeyCode, KeyInput, KeyModifiers};
use ankitui_tui::model::{CardSummary, DeckSummary};
use ankitui_tui::store::{MessageLevel, UiAppState};
use ankitui_tui::tui_error::TuiError;

fn key(code: KeyCode) -> KeyInput {
    KeyInput { code, modifiers: KeyModifiers::none() }
}

fn decks(names: &[(&str, Option<&str>)]) -> Vec<(DeckSummary, Vec<CardSummary>)> {
    names
        .iter()
        .enumerate()
        .map(|(i, (n, d))| {
            (
                DeckSummary {
                    uuid: 100 + i as u128,
                    name: n.to_string(),
                    description: d.map(|x| x.to_string()),
                    created_at: 0,
                    modified_at: 0,
                },
                vec![],
            )
        })
        .collect()
}

fn ctx(names: &[(&str, Option<&str>)]) -> CommandContext {
    CommandContext { decks: Ok(decks(names)), config_theme: None }
}

fn run(state: &mut UiAppState, kind: CommandKind<String, Vec<(String, String)>>, c: &CommandContext) -> Result<Option<CoreRequest>, TuiError> {
    let cmd = Command::user(kind);
    assert!(!command_would_overflow(state, &cmd));
    execute_command(state, &cmd, c)
}

#[test]
fn keys_map_to_commands_by_screen() {
    let mut s = UiAppState::new();
    assert!(matches!(handle_key_event_contextual(key(KeyCode::Char('1')), &s).command_type, CommandKind::NavigateTo(Screen::DeckSelection)));
    assert!(matches!(handle_key_event_contextual(key(KeyCode::Up), &s).command_type, CommandKind::NavigateUp));
    assert!(matches!(handle_key_event_contextual(key(KeyCode::Home), &s).command_type, CommandKind::NavigateHome));
    assert!(matches!(handle_key_event_contextual(key(KeyCode::Left), &s).command_type, CommandKind::NavigateLeft));
    let ctrl_q = KeyInput { code: KeyCode::Char('q'), modifiers: KeyModifiers::control_only() };
    assert!(matches!(handle_key_event_contextual(ctrl_q, &s).command_type, CommandKind::Quit));
    s.navigate_to(Screen::DeckSelection);
    assert!(matches!(handle_key_event_contextual(key(KeyCode::Up), &s).command_type, CommandKind::SelectPreviousDeck));
    assert!(matches!(handle_key_event_contextual(key(KeyCode::Down), &s).command_type, CommandKind::SelectNextDeck));
    s.navigate_to(Screen::Search);
    match handle_key_event_contextual(key(KeyCode::Char('x')), &s).command_type {
        CommandKind::SearchDecks(q) => assert_eq!(q, "x"),
        other => panic!("expected a search, got {:?}", other),
    }
    s.navigate_to(Screen::StudySession);
    assert!(matches!(
        handle_key_event_contextual(key(KeyCode::Char('3')), &s).command_type,
        CommandKind::RateCurrentCard(CardRating::Good)
    ));
}

#[test]
fn mouse_and_paste_map_to_commands() {
    let mut s = UiAppState::new();
    s.navigate_to(Screen::StudySession);
    let click = |column: u16, row: u16| MouseInput { kind: MouseEventKind::Down(MouseButton::Left), column, row };
    assert!(matches!(handle_mouse_event_contextual(click(12, 11), &s).command_type, CommandKind::ShowAnswer));
    s.showing_answer = true;
    assert!(matches!(
        handle_mouse_event_contextual(click(12, 11), &s).command_type,
        CommandKind::RateCurrentCard(CardRating::Again)
    ));
    assert!(matches!(
        handle_mouse_event_contextual(click(33, 14), &s).command_type,
        CommandKind::RateCurrentCard(CardRating::Easy)
    ));
    s.navigate_to(Screen::DeckSelection);
    match handle_paste_contextual("a\nb".to_string(), &s).command_type {
        CommandKind::ImportCards(c) => assert_eq!(c, "a\nb"),
        other => panic!("expected an import, got {:?}", other),
    }
    assert!(matches!(handle_paste_contextual("ab".to_string(), &s).command_type, CommandKind::Paste(_)));
    assert!(matches!(handle_event_with_state(Event::Resize(80, 24), &s).command_type, CommandKind::Resize(80, 24)));
}

#[test]
fn deck_list_selection_wraps() {
    let c = ctx(&[("a", None), ("b", None), ("c", None)]);
    let mut s = UiAppState::new();
    assert!(matches!(run(&mut s, CommandKind::SelectPreviousDeck, &c), Ok(None)));
    assert_eq!(s.deck_list_selected, Some(2));
    assert!(matches!(run(&mut s, CommandKind::SelectNextDeck, &c), Ok(None)));
    assert_eq!(s.deck_list_selected, Some(0));
    run(&mut s, CommandKind::SelectNextDeck, &c).unwrap();
    assert_eq!(s.deck_list_selected, Some(1));
    let empty = ctx(&[]);
    run(&mut s, CommandKind::SelectNextDeck, &empty).unwrap();
    assert_eq!(s.deck_list_selected, Some(1));
}

#[test]
fn confirming_a_deck_starts_a_session() {
    let c = ctx(&[("a", None), ("b", None)]);
    let mut s = UiAppState::new();
    s.navigate_to(Screen::DeckSelection);
    run(&mut s, CommandKind::SelectNextDeck, &c).unwrap();
    match run(&mut s, CommandKind::Confirm, &c) {
        Ok(Some(CoreRequest::StartStudySession(id))) => assert_eq!(id, 101),
        other => panic!("expected a session start, got {:?}", other),
    }
    assert_eq!(s.selected_deck_id, Some(101));
    let mut e = UiAppState::new();
    e.navigate_to(Screen::DeckSelection);
    run(&mut e, CommandKind::Confirm, &ctx(&[])).unwrap();
    let m = e.message.as_ref().unwrap();
    assert_eq!((m.level, m.title.as_str()), (MessageLevel::Warning, "No Decks"));
}

#[test]
fn a_failed_deck_fetch_is_reported_and_changes_nothing() {
    let c = CommandContext { decks: Err("disk gone".to_string()), config_theme: None };
    let mut s = UiAppState::new();
    s.navigate_to(Screen::DeckSelection);
    match run(&mut s, CommandKind::SelectNextDeck, &c) {
        Err(TuiError::Core(m)) => assert_eq!(m, "disk gone"),
        other => panic!("expected a core error, got {:?}", other),
    }
    assert_eq!(s.deck_list_selected, None);
}

#[test]
fn navigation_and_back() {
    let c = ctx(&[]);
    let mut s = UiAppState::new();
    run(&mut s, CommandKind::NavigateTo(Screen::Statistics), &c).unwrap();
    assert_eq!(s.current_screen(), Screen::Statistics);
    run(&mut s, CommandKind::NavigateBack, &c).unwrap();
    assert_eq!(s.current_screen(), Screen::MainMenu);
    run(&mut s, CommandKind::NavigateTo(Screen::StudyPrefs), &c).unwrap();
    run(&mut s, CommandKind::NavigateBack, &c).unwrap();
    assert_eq!(s.current_screen(), Screen::Settings);
    run(&mut s, CommandKind::ShowHelp, &c).unwrap();
    assert_eq!(s.current_screen(), Screen::Help);
}

#[test]
fn searching_picks_the_matching_deck_case_aside() {
    let c = ctx(&[("French", None), ("Verbs", Some("SPANISH irregulars")), ("Spanish", None)]);
    let mut s = UiAppState::new();
    run(&mut s, CommandKind::StartSearch, &c).unwrap();
    assert_eq!(s.current_screen(), Screen::Search);
    run(&mut s, CommandKind::SearchDecks("sp".to_string()), &c).unwrap();
    run(&mut s, CommandKind::SearchDecks("a".to_string()), &c).unwrap();
    match run(&mut s, CommandKind::SearchSelectResult, &c) {
        Ok(Some(CoreRequest::StartStudySession(id))) => assert_eq!(id, 101),
        other => panic!("expected a session start, got {:?}", other),
    }
}

#[test]
fn study_commands_become_core_requests() {
    let c = ctx(&[]);
    let mut s = UiAppState::new();
    assert!(matches!(run(&mut s, CommandKind::RateCurrentCard(CardRating::Hard), &c), Ok(Some(CoreRequest::RateCard(Rating::Hard)))));
    assert!(matches!(run(&mut s, CommandKind::BuryCard, &c), Ok(Some(CoreRequest::BuryCard))));
    assert!(matches!(run(&mut s, CommandKind::Quit, &c), Ok(Some(CoreRequest::Quit))));
    run(&mut s, CommandKind::ShowAnswer, &c).unwrap();
    assert!(s.is_showing_answer());
    run(&mut s, CommandKind::PauseSession, &c).unwrap();
    assert_eq!(s.message.as_ref().unwrap().content, "Study session paused. Press any key to resume.");
}

#[test]
fn config_validation_and_loop_decision() {
    assert!(validate_config(&AppConfig::default()).is_ok());
    let mut bad = AppConfig::default();
    bad.tick_rate_ms = 0;
    match validate_config(&bad) {
        Err(TuiError::State { message }) => assert_eq!(message, "Tick rate must be greater than 0"),
        other => panic!("unexpected {:?}", other),
    }
    bad.tick_rate_ms = 1001;
    assert!(matches!(validate_config(&bad), Err(TuiError::State { .. })));
    bad.title = String::new();
    match validate_config(&bad) {
        Err(TuiError::State { message }) => assert_eq!(message, "Application title cannot be empty"),
        other => panic!("unexpected {:?}", other),
    }
    assert_eq!(EventLoopConfig::default().tick_rate_ms, 16);
    let mut p = ApplicationEventProcessor::new();
    assert!(matches!(p.process_command(&Command::user(CommandKind::NavigateUp), Ok(())), Ok(true)));
    assert!(matches!(p.process_command(&Command::user(CommandKind::Quit), Ok(())), Ok(false)));
    assert!(matches!(
        p.process_command(&Command::user(CommandKind::NavigateUp), Err(TuiError::Core("x".to_string()))),
        Err(TuiError::Core(_))
    ));
}

#[test]
fn page_counters_stay_on_their_pages() {
    let c = ctx(&[("A", None)]);
    let mut s = UiAppState::new();
    s.navigate_to(Screen::DataManage);
    for _ in 0..8 {
        run(&mut s, CommandKind::NavigateDown, &c).unwrap();
        run(&mut s, CommandKind::NavigateRight, &c).unwrap();
    }
    assert_eq!(s.ui_state.get("data_index").map(|v| v.as_str()), Some("4"));
    for _ in 0..8 {
        run(&mut s, CommandKind::NavigateLeft, &c).unwrap();
    }
    assert_eq!(s.ui_state.get("data_index").map(|v| v.as_str()), Some("0"));
    s.navigate_to(Screen::Statistics);
    for _ in 0..5 {
        run(&mut s, CommandKind::ScrollStatsDown, &c).unwrap();
    }
    assert_eq!(s.ui_state.get("stats_tab").map(|v| v.as_str()), Some("2"));
    run(&mut s, CommandKind::NavigateHome, &c).unwrap();
    assert_eq!(s.ui_state.get("stats_tab").map(|v| v.as_str()), Some("0"));
    s.navigate_to(Screen::Help);
    for _ in 0..6 {
        run(&mut s, CommandKind::NavigateDown, &c).unwrap();
    }
    assert_eq!(s.ui_state.get("help_category").map(|v| v.as_str()), Some("3"));
}
