use ankitui_tui::command::{CardRating, Rating};
use ankitui_tui::domain_state::{AppState as DomainState, DeckState, StudyState};
use ankitui_tui::events::{
    fallback_state_handling, get_component_name_for_state, get_help_text_for_state, AppEvent, EventBus,
};
use ankitui_tui::input::Action;
use ankitui_tui::model::{CardSummary, DeckSummary};
use ankitui_tui::screens::AppState;
use ankitui_tui::screens_components::{Menu, Stats, Study};

fn card(id: u128) -> CardSummary {
    CardSummary { id, front: "Q".to_string(), back: "A".to_string(), tags: vec![] }
}

#[test]
fn menu_moves_and_opens_screens() {
    let mut m = Menu::new();
    assert_eq!(m.menu_items().len(), 6);
    assert_eq!(m.menu_items()[0], "📚 Start Review");
    assert_eq!(m.handle_action(Action::Select), Some(AppState::DeckSelection));
    m.move_up();
    assert_eq!(m.selected_item(), 0);
    for _ in 0..10 {
        m.move_down();
    }
    assert_eq!(m.selected_item(), 5);
    assert_eq!(m.get_target_state(), AppState::ConfirmExit);
    m.navigate_main_menu(Action::Up);
    assert_eq!(m.get_selected_main_menu_item(), 4);
    assert_eq!(m.handle_action(Action::Select), Some(AppState::Help));
    assert_eq!(m.handle_action(Action::Cancel), Some(AppState::ConfirmExit));
    assert_eq!(m.handle_action(Action::Tab), None);
    assert_eq!(m.name(), "main_menu");
}

#[test]
fn stats_views_cycle_and_deck_selection_marks_stale() {
    let mut s = Stats::new();
    assert!(s.needs_refresh());
    assert_eq!(s.get_view_name(), "Overview");
    s.handle_action(Action::Left);
    assert_eq!(s.get_view_name(), "Calendar");
    s.handle_action(Action::Right);
    s.handle_action(Action::Right);
    assert_eq!(s.get_view_name(), "Progress");
    let d = |u: u128| DeckSummary { uuid: u, name: "n".to_string(), description: None, created_at: 0, modified_at: 0 };
    s.set_decks(vec![d(1), d(2)]);
    s.mark_refreshed();
    assert!(!s.needs_refresh());
    s.handle_action(Action::Down);
    assert_eq!(s.selected_deck(), 1);
    assert!(s.needs_refresh());
    s.handle_action(Action::Down);
    assert_eq!(s.selected_deck(), 1);
    assert_eq!(s.handle_action(Action::Cancel), Some(AppState::MainMenu));
}

#[test]
fn study_rates_only_after_the_answer() {
    let mut s = Study::new();
    assert_eq!(s.selected_rating(), 2);
    assert_eq!(s.prepare_rating(), Rating::Good);
    s.set_current_card(Some(card(3)));
    s.handle_action(Action::RateAgain);
    assert_eq!(s.selected_rating(), 2);
    s.handle_action(Action::ShowAnswer);
    assert!(s.answer_shown());
    s.handle_action(Action::RateAgain);
    assert_eq!(s.prepare_rating(), Rating::Again);
    s.handle_action(Action::RateEasy);
    assert_eq!(s.prepare_rating(), Rating::Easy);
    assert_eq!(s.current_card().unwrap().id, 3);
    s.handle_action(Action::Select);
    assert!(s.current_card().is_none());
    assert!(!s.answer_shown());
    assert_eq!(s.selected_rating(), 2);
    assert_eq!(s.handle_action(Action::SwitchDeck), Some(AppState::DeckSelection));
}

#[test]
fn event_bus_returns_recent_events_newest_first() {
    let mut b = EventBus::new();
    b.publish(AppEvent::Success { message: "one".to_string() });
    b.publish(AppEvent::NavigateBack);
    b.publish(AppEvent::Success { message: "two".to_string() });
    b.publish(AppEvent::Success { message: "three".to_string() });
    let r = b.get_recent_events("success", 2);
    assert_eq!(r.len(), 2);
    assert!(matches!(r[0], AppEvent::Success { message } if message == "three"));
    assert!(matches!(r[1], AppEvent::Success { message } if message == "two"));
    assert_eq!(b.get_recent_events("navigate_back", 10).len(), 1);
    assert_eq!(AppEvent::TimerTick { interval_ms: 5 }.event_type(), "timer_tick");
    b.clear_history();
    assert!(b.get_recent_events("success", 5).is_empty());
}

#[test]
fn event_bus_keeps_a_thousand_events() {
    let mut b = EventBus::new();
    for i in 0..1005u64 {
        b.publish(AppEvent::TimerTick { interval_ms: i });
    }
    assert_eq!(b.event_history.len(), 1000);
    assert!(matches!(b.event_history[0], AppEvent::TimerTick { interval_ms: 5 }));
}

#[test]
fn screen_defaults() {
    assert_eq!(get_component_name_for_state(AppState::CardReview), "learning");
    assert_eq!(get_component_name_for_state(AppState::ConfirmExit), "main_menu");
    assert_eq!(fallback_state_handling(Action::Cancel, AppState::Help), Some(AppState::MainMenu));
    assert_eq!(fallback_state_handling(Action::Quit, AppState::MainMenu), Some(AppState::ConfirmExit));
    assert_eq!(fallback_state_handling(Action::Quit, AppState::Settings), None);
    assert_eq!(fallback_state_handling(Action::Help, AppState::Statistics), Some(AppState::Help));
    assert_eq!(fallback_state_handling(Action::Help, AppState::Help), None);
    assert_eq!(get_help_text_for_state(AppState::ConfirmExit), "Enter Confirm | Back/Escape Cancel");
}

#[test]
fn domain_state_reads_the_study_stage() {
    let st = StudyState::InProgress { current_card: Some(card(8)), show_answer: true, card_start_ms: 1_000 };
    assert_eq!(st.get_current_card().unwrap().id, 8);
    assert!(st.should_show_answer());
    assert_eq!(st.response_time_at(1_250), Some(250));
    let s = DomainState::StudySession(st);
    assert!(s.is_studying());
    // a session in progress holds its card, not its deck
    assert_eq!(s.get_current_deck_id(), None);
    let waiting = DomainState::StudySession(StudyState::Paused {
        resume_state: Box::new(StudyState::NotStarted { deck_id: 6 }),
        pause_ms: 0,
    });
    assert_eq!(waiting.get_current_deck_id(), Some(6));
    let paused = StudyState::Paused {
        resume_state: Box::new(StudyState::InProgress { current_card: Some(card(8)), show_answer: false, card_start_ms: 1_000 }),
        pause_ms: 1_200,
    };
    assert_eq!(paused.response_time_at(1_300), Some(400));
    assert!(!paused.should_show_answer());
    assert_eq!(paused.get_current_card().unwrap().id, 8);
    let rating = StudyState::Rating { card: card(9), response_time: 77 };
    assert_eq!(rating.response_time_at(5), Some(77));
    assert!(rating.should_show_answer());
    assert!(!StudyState::Loading.response_time_fits_at(5) || StudyState::Loading.response_time_at(5).is_none());
    let editing = DomainState::DeckSelection(DeckState::Editing { deck_id: 4 });
    assert_eq!(editing.get_current_deck_id(), Some(4));
    assert!(!editing.is_studying());
    assert_eq!(DomainState::MainMenu.get_current_deck_id(), None);
    assert!(s.is_session_in_state(&StudyState::InProgress { current_card: None, show_answer: false, card_start_ms: 0 }));
    assert!(!s.is_session_in_state(&StudyState::Loading));
    assert_eq!(StudyState::NotStarted { deck_id: 3 }.kind_number(), 0);
}

#[test]
fn ratings_convert_both_ways() {
    for (c, r) in [
        (CardRating::Again, Rating::Again),
        (CardRating::Hard, Rating::Hard),
        (CardRating::Good, Rating::Good),
        (CardRating::Easy, Rating::Easy),
    ]
    .iter()
    {
        assert_eq!(Rating::from(*c), *r);
        assert_eq!(CardRating::from(*r), *c);
        assert_eq!(CardRating::from(Rating::from(*c)), *c);
    }
}
