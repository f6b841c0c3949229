//! The plain values the interface reads of decks, cards and study sessions.
use vstd::prelude::*;
use vstd::string::*;
use crate::clock::now_unix_seconds;

verus! {

/// What the interface reads of a deck.
#[derive(Debug)]
pub struct DeckSummary {
    pub uuid: u128,
    pub name: String,
    pub description: Option<String>,
    /// Creation time, seconds since the epoch.
    pub created_at: i64,
    /// Last modification time, seconds since the epoch.
    pub modified_at: i64,
}

/// What the interface reads of a card.
#[derive(Debug)]
pub struct CardSummary {
    pub id: u128,
    pub front: String,
    pub back: String,
    pub tags: Vec<String>,
}

impl DeckSummary {
    /// A copy of the summary.
    pub fn copy(&self) -> (d: DeckSummary)
        ensures
            d.uuid == self.uuid,
            d.name@ == self.name@,
            d.created_at == self.created_at,
            d.modified_at == self.modified_at,
            d.description is Some <==> self.description is Some,
            d.description is Some ==> d.description->0@ == self.description->0@,
    {
        let description = match &self.description {
            Some(s) => Some(s.clone()),
            None => None,
        };
        DeckSummary {
            uuid: self.uuid,
            name: self.name.clone(),
            description,
            created_at: self.created_at,
            modified_at: self.modified_at,
        }
    }
}

/// Whether a card with the given id is among the cards of a deck.
pub fn card_exists_in_deck(cards: &[CardSummary], card_id: u128) -> (b: bool)
    ensures
        b == exists|i: int| 0 <= i < cards@.len() && (#[trigger] cards@[i]).id == card_id,
{
    let n = cards.len();
    let mut i: usize = 0;
    while i < n
        invariant
            n == cards@.len(),
            i <= n,
            forall|j: int| 0 <= j < i ==> (#[trigger] cards@[j]).id != card_id,
        decreases n - i,
    {
        if cards[i].id == card_id {
            return true;
        }
        i = i + 1;
    }
    false
}

/// The state of a study session.
#[derive(Debug)]
pub struct SessionState {
    pub deck_id: u128,
    pub cards_studied: usize,
    pub total_cards: usize,
    /// Start time, seconds since the epoch.
    pub start_time: i64,
    pub remaining_new: usize,
    pub remaining_review: usize,
}

impl SessionState {
    /// A fresh session on a deck, started now.
    pub fn new(deck_id: u128) -> (s: SessionState)
        ensures
            s.deck_id == deck_id,
            s.cards_studied == 0,
            s.total_cards == 0,
            s.remaining_new == 0,
            s.remaining_review == 0,
    {
        let start_time = now_unix_seconds();
        SessionState {
            deck_id,
            cards_studied: 0,
            total_cards: 0,
            start_time,
            remaining_new: 0,
            remaining_review: 0,
        }
    }

    /// The position in the session: the number of cards studied.
    pub fn current_position(&self) -> (p: usize)
        ensures
            p == self.cards_studied,
    {
        self.cards_studied
    }

    /// Whether every card of the session has been studied.
    pub fn is_complete(&self) -> (b: bool)
        ensures
            b == (self.cards_studied >= self.total_cards),
    {
        self.cards_studied >= self.total_cards
    }

}

/// The user's preferences.
#[derive(Debug)]
pub struct UserPreferences {
    pub display_name: String,
    pub theme: String,
    pub auto_advance: bool,
    pub show_progress: bool,
}

impl UserPreferences {
    /// Preferences of a named user: default theme, no auto-advance, progress shown.
    pub fn new(name: String) -> (p: UserPreferences)
        ensures
            p.display_name@ == name@,
            p.theme@ == "default"@,
            !p.auto_advance,
            p.show_progress,
    {
        UserPreferences {
            display_name: name,
            theme: String::from_str("default"),
            auto_advance: false,
            show_progress: true,
        }
    }
}

impl Default for UserPreferences {
    fn default() -> (p: UserPreferences)
        ensures
            p.display_name@ == "User"@,
            p.theme@ == "default"@,
            !p.auto_advance,
            p.show_progress,
    {
        UserPreferences {
            display_name: String::from_str("User"),
            theme: String::from_str("default"),
            auto_advance: false,
            show_progress: true,
        }
    }
}

/// The sections of the settings screen of the domain layer.
#[derive(Debug, Clone, Copy, PartialEq, Eq, Structural)]
pub enum SettingsState {
    MainMenu,
    StudyPreferences,
    UiCustomization,
    DataManagement,
}

/// How far a study session has come: the cards left of each kind, the
/// cards left in all, and the cards studied today.
#[derive(Debug, Clone, Copy, PartialEq, Eq, Structural)]
pub struct SessionProgress {
    pub new_remaining: usize,
    pub learning_remaining: usize,
    pub review_remaining: usize,
    pub relearning_remaining: usize,
    pub total_remaining: usize,
    pub cards_studied_today: u32,
}

/// The cards of today's session: those left of each kind and those
/// studied.
pub open spec fn session_card_total(p: SessionProgress) -> int {
    p.new_remaining + p.learning_remaining + p.review_remaining + p.relearning_remaining
        + p.cards_studied_today
}

impl SessionProgress {
    /// The cards of today's session, as the progress bar counts them.
    pub fn card_total(&self) -> (t: usize)
        requires
            session_card_total(*self) <= usize::MAX,
        ensures
            t == session_card_total(*self),
    {
        self.new_remaining + self.learning_remaining + self.review_remaining + self.relearning_remaining
            + self.cards_studied_today as usize
    }

    /// The cards left that are not reviews, never below zero.
    pub fn non_review_remaining(&self) -> (n: usize)
        ensures
            n == if self.total_remaining >= self.review_remaining {
                self.total_remaining - self.review_remaining
            } else {
                0
            },
    {
        self.total_remaining.saturating_sub(self.review_remaining)
    }
}

} // verus!
