//! The screens of the component layer.
use vstd::prelude::*;
use vstd::string::*;

verus! {

/// A screen of the component layer of the interface.
#[derive(Debug, Clone, Copy, PartialEq, Eq, Structural)]
pub enum AppState {
    MainMenu,
    DeckSelection,
    DeckManagement,
    Learning,
    CardReview,
    Statistics,
    Settings,
    Help,
    ConfirmExit,
}

/// The name of a screen as shown to the user.
pub open spec fn app_state_label(s: AppState) -> Seq<char> {
    match s {
        AppState::MainMenu => "Main Menu"@,
        AppState::DeckSelection => "Deck Selection"@,
        AppState::DeckManagement => "Deck Management"@,
        AppState::Learning => "Learning"@,
        AppState::CardReview => "Card Review"@,
        AppState::Statistics => "Statistics"@,
        AppState::Settings => "Settings"@,
        AppState::Help => "Help"@,
        AppState::ConfirmExit => "Confirm Exit"@,
    }
}

impl AppState {
    /// The name of the screen as shown to the user.
    pub fn label(&self) -> (s: String)
        ensures
            s@ == app_state_label(*self),
    {
        match self {
            AppState::MainMenu => String::from_str("Main Menu"),
            AppState::DeckSelection => String::from_str("Deck Selection"),
            AppState::DeckManagement => String::from_str("Deck Management"),
            AppState::Learning => String::from_str("Learning"),
            AppState::CardReview => String::from_str("Card Review"),
            AppState::Statistics => String::from_str("Statistics"),
            AppState::Settings => String::from_str("Settings"),
            AppState::Help => String::from_str("Help"),
            AppState::ConfirmExit => String::from_str("Confirm Exit"),
        }
    }
}

} // verus!
