use ankitui_tui::card_component::{CardComponent, CardType};
use ankitui_tui::input::Action;
use ankitui_tui::model::CardSummary;
use ankitui_tui::screens::AppState;
use ankitui_tui::state_manager::{StateError, StateManager};
use ankitui_tui::ui_map::UiMap;

fn card(id: u128) -> CardSummary {
    CardSummary { id, front: "Q".to_string(), back: "A".to_string(), tags: vec![] }
}

#[test]
fn card_component_typed_answer() {
    let mut c = CardComponent::new();
    assert!(c.current_card().is_none());
    c.set_current_card(Some(card(5)));
    assert_eq!(c.current_card().unwrap().id, 5);
    c.set_card_type(CardType::Input);
    assert!(c.requires_input());
    assert!(c.handle_input('h'));
    assert!(c.handle_input('i'));
    assert!(c.handle_input('x'));
    assert!(c.handle_input('\x08'));
    assert!(!c.handle_input('\u{e9}'));
    assert_eq!(c.get_user_answer(), Some("hi".to_string()));
    assert!(!c.is_answer_shown());
    assert!(c.handle_input('\n'));
    assert!(c.is_answer_shown());
    assert!(!c.handle_input('y'));
    assert_eq!(c.get_user_answer(), Some("hi".to_string()));
    c.reset_for_new_card();
    assert!(!c.is_answer_shown());
    assert_eq!(c.get_user_answer(), None);
    assert!(!c.requires_input());
    assert_eq!(c.current_card().unwrap().id, 5);
}

#[test]
fn card_component_multiple_choice() {
    let mut c = CardComponent::new();
    c.set_card_type(CardType::MultipleChoice);
    assert!(!c.handle_input('0'));
    assert!(!c.handle_input('a'));
    assert_eq!(c.get_user_answer(), None);
    assert!(c.handle_input('3'));
    assert!(c.is_answer_shown());
    assert_eq!(c.get_user_answer(), Some("3".to_string()));
}

#[test]
fn card_component_basic_card_takes_no_keys() {
    let mut c = CardComponent::new();
    c.set_card_type(CardType::Basic);
    assert!(!c.handle_input('a'));
    assert_eq!(c.build_rating_controls(), "1️⃣ Again  2️⃣ Hard  3️⃣ Good  4️⃣ Easy  •  ⏭️  Skip  🔄 Reset  🚪 Back");
    c.set_card_type(CardType::Cloze);
    assert_eq!(
        c.build_rating_controls(),
        "1️⃣ Again  2️⃣ Hard  3️⃣ Good  4️⃣ Easy  •  ↩️  Submit Answer  •  ⏭️  Skip  🔄 Reset  🚪 Back"
    );
}

#[test]
fn card_component_actions() {
    let mut c = CardComponent::new();
    assert_eq!(c.handle_action(Action::Up), None);
    assert!(!c.is_answer_shown());
    assert_eq!(c.handle_action(Action::ShowAnswer), None);
    assert!(c.is_answer_shown());
    c.toggle_answer();
    assert!(!c.is_answer_shown());
    c.show_answer();
    c.hide_answer();
    assert!(!c.is_answer_shown());
    assert_eq!(c.handle_action(Action::Cancel), Some(AppState::MainMenu));
    assert_eq!(c.name(), "card_review");
}

#[test]
fn state_manager_back_returns_to_the_screen_left() {
    let mut m = StateManager::new();
    assert_eq!(m.current_state(), AppState::MainMenu);
    assert!(!m.go_back());
    m.transition_to(AppState::Statistics);
    assert_eq!(m.previous_state(), Some(AppState::MainMenu));
    assert!(m.go_back());
    assert_eq!(m.current_state(), AppState::MainMenu);
    assert!(m.go_back());
    assert_eq!(m.current_state(), AppState::Statistics);
}

#[test]
fn state_manager_history_keeps_ten_screens() {
    let mut m = StateManager::new();
    for _ in 0..6 {
        m.transition_to(AppState::Help);
        m.transition_to(AppState::Settings);
    }
    assert_eq!(m.state_history.len(), 10);
    assert_eq!(m.state_history[9], AppState::Help);
}

#[test]
fn state_manager_actions() {
    let mut m = StateManager::new();
    assert_eq!(m.handle_action(Action::Select), AppState::Learning);
    assert_eq!(m.handle_action(Action::BackTab), AppState::DeckSelection);
    assert_eq!(m.handle_action(Action::Select), AppState::Learning);
    assert_eq!(m.handle_action(Action::Up), AppState::Learning);
    assert_eq!(m.handle_action(Action::Help), AppState::Help);
    assert_eq!(m.handle_action(Action::Quit), AppState::ConfirmExit);
    assert_eq!(m.handle_action(Action::Cancel), AppState::MainMenu);
    assert_eq!(m.state_history.len(), 6);
    m.update_context_data("k".to_string(), "v".to_string());
    assert_eq!(m.render_context.data.get("k"), Some(&"v".to_string()));
    m.set_focused(false);
    assert!(!m.render_context.focused);
}

#[test]
fn state_error_messages() {
    let e = StateError::InvalidTransition { from: AppState::MainMenu, to: AppState::Help };
    assert_eq!(e.message(), "Invalid state transition from Main Menu to Help");
    assert_eq!(StateError::EmptyHistory.message(), "State history is empty");
    assert_eq!(
        StateError::ActionNotAllowed { state: AppState::ConfirmExit }.message(),
        "Action not allowed in current state Confirm Exit"
    );
}

#[test]
fn ui_map_insert_then_get() {
    let mut m = UiMap::new();
    assert!(m.is_empty());
    m.insert("a".to_string(), "1".to_string());
    m.insert("b".to_string(), "2".to_string());
    m.insert("a".to_string(), "3".to_string());
    assert_eq!(m.get("a"), Some(&"3".to_string()));
    assert_eq!(m.get("b"), Some(&"2".to_string()));
    assert_eq!(m.get("c"), None);
    assert!(m.contains_key("b"));
    m.or_insert("b".to_string(), "9".to_string());
    m.or_insert("c".to_string(), "9".to_string());
    assert_eq!(m.get("b"), Some(&"2".to_string()));
    assert_eq!(m.get("c"), Some(&"9".to_string()));
    assert_eq!(m.pairs().len(), 3);
    m.clear();
    assert!(m.is_empty());
}

#[test]
fn card_component_new_card_forgets_the_answer() {
    let mut c = CardComponent::new();
    c.set_current_card(Some(card(1)));
    c.set_card_type(CardType::Input);
    assert!(c.handle_input('a'));
    assert!(c.handle_input('\n'));
    assert!(c.is_answer_shown());
    c.set_current_card(Some(card(2)));
    assert_eq!(c.current_card().unwrap().id, 2);
    assert!(!c.is_answer_shown());
    assert_eq!(c.get_user_answer(), None);
    assert!(!c.requires_input());
}
