//! View models of the domain layer.
use vstd::prelude::*;
use vstd::string::*;
use crate::clock::{now_unix_millis, now_unix_seconds};
use crate::model::{CardSummary, DeckSummary};
use crate::text::{decimal, u64_to_text};
use crate::ui_map::UiMap;

verus! {

/// A section of the settings screen.
#[derive(Debug, Clone, Copy, PartialEq, Eq, Structural)]
pub enum SettingsSection {
    StudyPreferences,
    UiCustomization,
    DataManagement,
}

/// The settings screen: its open section and the values changed but not
/// saved yet.
#[derive(Debug)]
pub struct SettingsViewModel {
    pub current_section: SettingsSection,
    pub changed_values: UiMap,
}

impl SettingsViewModel {
    /// Study preferences open, nothing changed.
    pub fn new() -> (m: SettingsViewModel)
        ensures
            m.changed_values.wf(),
            m.current_section == SettingsSection::StudyPreferences,
            m.changed_values@ == Map::<Seq<char>, Seq<char>>::empty(),
    {
        SettingsViewModel { current_section: SettingsSection::StudyPreferences, changed_values: UiMap::new() }
    }

    /// The given section open, nothing changed.
    pub fn with_section(section: SettingsSection) -> (m: SettingsViewModel)
        ensures
            m.changed_values.wf(),
            m.current_section == section,
            m.changed_values@ == Map::<Seq<char>, Seq<char>>::empty(),
    {
        SettingsViewModel { current_section: section, changed_values: UiMap::new() }
    }

    /// Whether some value was changed and not saved.
    pub fn has_unsaved_changes(&self) -> (b: bool)
        ensures
            b == (self.changed_values@ != Map::<Seq<char>, Seq<char>>::empty()),
    {
        !self.changed_values.is_empty()
    }

    /// Records a changed value; a later change of the same key replaces it.
    pub fn mark_dirty(&mut self, key: &str, value: String)
        requires
            old(self).changed_values.wf(),
        ensures
            final(self).changed_values.wf(),
            final(self).current_section == old(self).current_section,
            final(self).changed_values@ == old(self).changed_values@.insert(key@, value@),
            final(self).changed_values@.dom().finite(),
            final(self).changed_values@.len() == old(self).changed_values@.len() + if old(
                self,
            ).changed_values@.contains_key(key@) {
                0int
            } else {
                1int
            },
    {
        proof {
            old(self).changed_values.lemma_size();
        }
        self.changed_values.insert(String::from_str(key), value);
        proof {
            self.changed_values.lemma_size();
        }
    }

    /// Forgets every changed value.
    pub fn clear_changes(&mut self)
        ensures
            final(self).changed_values.wf(),
            final(self).current_section == old(self).current_section,
            final(self).changed_values@ == Map::<Seq<char>, Seq<char>>::empty(),
    {
        self.changed_values.clear();
    }
}

/// After a value is marked changed there are unsaved changes, and after the
/// changes are cleared there are none.
pub proof fn lemma_dirty_then_clear(before: Map<Seq<char>, Seq<char>>, key: Seq<char>, value: Seq<char>)
    ensures
        before.insert(key, value) != Map::<Seq<char>, Seq<char>>::empty(),
{
    assert(before.insert(key, value).contains_key(key));
}

/// A deck as a list shows it, with whether it is selected and focused.
#[derive(Debug)]
pub struct DeckViewModel {
    pub deck: DeckSummary,
    pub selected: bool,
    pub focused: bool,
}

impl DeckViewModel {
    /// A deck neither selected nor focused.
    pub fn new(deck: DeckSummary) -> (m: DeckViewModel)
        ensures
            m.deck == deck,
            !m.selected,
            !m.focused,
    {
        DeckViewModel { deck, selected: false, focused: false }
    }

    /// A deck selected or not, not focused.
    pub fn with_selection(deck: DeckSummary, selected: bool) -> (m: DeckViewModel)
        ensures
            m.deck == deck,
            m.selected == selected,
            !m.focused,
    {
        DeckViewModel { deck, selected, focused: false }
    }

    /// A deck focused or not, not selected.
    pub fn with_focus(deck: DeckSummary, focused: bool) -> (m: DeckViewModel)
        ensures
            m.deck == deck,
            !m.selected,
            m.focused == focused,
    {
        DeckViewModel { deck, selected: false, focused }
    }

    /// The deck's name.
    pub fn display_name(&self) -> (n: &str)
        ensures
            n@ == self.deck.name@,
    {
        self.deck.name.as_str()
    }

    /// Whether the deck is marked as having due cards: the list takes a
    /// deck with a description for one.
    pub fn has_due_cards(&self) -> (b: bool)
        ensures
            b == (self.deck.description is Some),
    {
        self.deck.description.is_some()
    }

    /// Whether the deck is marked as having new cards: always.
    pub fn has_new_cards(&self) -> (b: bool)
        ensures
            b,
    {
        true
    }
}

/// The scheduling state of a card.
#[derive(Debug, Clone, Copy, PartialEq, Eq, Structural)]
pub enum CardState {
    New,
    Learning,
    Review,
    Relearning,
    Buried,
    Suspended,
}

/// What a study view shows of a card's scheduling: its state and its
/// interval in days.
#[derive(Debug, Clone, Copy, PartialEq, Eq, Structural)]
pub struct CardSchedule {
    pub state: CardState,
    pub interval: u32,
}

/// The label of a card state.
pub open spec fn state_label(s: CardState) -> Seq<char> {
    match s {
        CardState::New => "New"@,
        CardState::Learning => "Learning"@,
        CardState::Review => "Review"@,
        CardState::Relearning => "Relearning"@,
        CardState::Buried => "Buried"@,
        CardState::Suspended => "Suspended"@,
    }
}

/// How an interval in days is shown.
pub open spec fn interval_label(days: nat) -> Seq<char> {
    if days == 0 {
        "New"@
    } else if days == 1 {
        "1 day"@
    } else {
        decimal(days) + " days"@
    }
}

/// The milliseconds from `since` to `now`, cut to an `i64`.
pub open spec fn elapsed_ms(now: i64, since: i64) -> i64 {
    (now - since) as i64
}

/// A card under study: whether its answer is shown, and since when its
/// question is (milliseconds since the epoch).
#[derive(Debug)]
pub struct CardViewModel {
    pub card: CardSummary,
    pub schedule: CardSchedule,
    pub show_answer: bool,
    pub question_shown_at: i64,
}

impl CardViewModel {
    /// A card whose question is shown from now on.
    pub fn new(card: CardSummary, schedule: CardSchedule) -> (m: CardViewModel)
        ensures
            m.card == card,
            m.schedule == schedule,
            !m.show_answer,
    {
        let now = now_unix_millis();
        CardViewModel { card, schedule, show_answer: false, question_shown_at: now }
    }

    /// Shows the answer.
    pub fn reveal_answer(&mut self)
        ensures
            final(self).show_answer,
            final(self).question_shown_at == old(self).question_shown_at,
            final(self).card == old(self).card,
            final(self).schedule == old(self).schedule,
    {
        self.show_answer = true;
    }

    /// Hides the answer.
    pub fn hide_answer(&mut self)
        ensures
            !final(self).show_answer,
            final(self).question_shown_at == old(self).question_shown_at,
            final(self).card == old(self).card,
            final(self).schedule == old(self).schedule,
    {
        self.show_answer = false;
    }

    /// The milliseconds from the question's showing to `now`.
    pub fn question_time_ms_at(&self, now: i64) -> (t: i64)
        ensures
            t == (now - self.question_shown_at) as i64,
    {
        let elapsed: i128 = (now as i128) - (self.question_shown_at as i128);
        elapsed as i64
    }

    /// The milliseconds since the question was shown.
    pub fn question_time_ms(&self) -> (t: i64)
        ensures
            exists|now: i64| #[trigger] elapsed_ms(now, self.question_shown_at) == t,
    {
        let now = now_unix_millis();
        let t = self.question_time_ms_at(now);
        assert(elapsed_ms(now, self.question_shown_at) == t);
        t
    }

    /// The time taken to answer at `now`, once the answer is shown.
    pub fn answer_time_ms_at(&self, now: i64) -> (t: Option<i64>)
        ensures
            t == if self.show_answer {
                Some((now - self.question_shown_at) as i64)
            } else {
                None::<i64>
            },
    {
        if self.show_answer {
            Some(self.question_time_ms_at(now))
        } else {
            None
        }
    }

    /// The time taken to answer, once the answer is shown.
    pub fn answer_time_ms(&self) -> (t: Option<i64>)
        ensures
            (t is Some) == self.show_answer,
    {
        let now = now_unix_millis();
        self.answer_time_ms_at(now)
    }

    /// The label of the card's state.
    pub fn get_state_display(&self) -> (s: &'static str)
        ensures
            s@ == state_label(self.schedule.state),
    {
        match self.schedule.state {
            CardState::New => "New",
            CardState::Learning => "Learning",
            CardState::Review => "Review",
            CardState::Relearning => "Relearning",
            CardState::Buried => "Buried",
            CardState::Suspended => "Suspended",
        }
    }

    /// The card's interval: "New", "1 day", or the number of days.
    pub fn get_interval_display(&self) -> (s: String)
        ensures
            s@ == interval_label(self.schedule.interval as nat),
    {
        if self.schedule.interval == 0 {
            String::from_str("New")
        } else if self.schedule.interval == 1 {
            String::from_str("1 day")
        } else {
            u64_to_text(self.schedule.interval as u64).concat(" days")
        }
    }
}

/// The counts of a study session, with its start and end (seconds since
/// the epoch).
#[derive(Debug, Clone, Copy, PartialEq, Eq, Structural)]
pub struct StudySessionStats {
    pub cards_studied: usize,
    pub total_cards_studied: usize,
    pub new_cards: usize,
    pub review_cards: usize,
    pub correct_answers: usize,
    pub started_at: i64,
    pub ended_at: Option<i64>,
}

impl StudySessionStats {
    /// No card studied, started now.
    pub fn new() -> (s: StudySessionStats)
        ensures
            s.cards_studied == 0,
            s.total_cards_studied == 0,
            s.new_cards == 0,
            s.review_cards == 0,
            s.correct_answers == 0,
            s.ended_at is None,
    {
        StudySessionStats {
            cards_studied: 0,
            total_cards_studied: 0,
            new_cards: 0,
            review_cards: 0,
            correct_answers: 0,
            started_at: now_unix_seconds(),
            ended_at: None,
        }
    }
}

/// A study session as its screen shows it (the time in milliseconds).
#[derive(Debug)]
pub struct StudySessionViewModel {
    pub deck_name: String,
    pub current_card: Option<CardViewModel>,
    pub cards_remaining: usize,
    pub session_time_ms: i64,
    pub session_stats: StudySessionStats,
}

impl StudySessionViewModel {
    /// A session on a deck with no card yet.
    pub fn new(deck_name: String) -> (m: StudySessionViewModel)
        ensures
            m.deck_name == deck_name,
            m.current_card is None,
            m.cards_remaining == 0,
            m.session_time_ms == 0,
            m.session_stats.cards_studied == 0,
            m.session_stats.total_cards_studied == 0,
            m.session_stats.ended_at is None,
    {
        StudySessionViewModel {
            deck_name,
            current_card: None,
            cards_remaining: 0,
            session_time_ms: 0,
            session_stats: StudySessionStats::new(),
        }
    }

    /// A session on a deck showing a card.
    pub fn with_current_card(deck_name: String, card: CardViewModel) -> (m: StudySessionViewModel)
        ensures
            m.deck_name == deck_name,
            m.current_card == Some(card),
            m.cards_remaining == 0,
            m.session_time_ms == 0,
            m.session_stats.cards_studied == 0,
            m.session_stats.total_cards_studied == 0,
            m.session_stats.ended_at is None,
    {
        StudySessionViewModel {
            deck_name,
            current_card: Some(card),
            cards_remaining: 0,
            session_time_ms: 0,
            session_stats: StudySessionStats::new(),
        }
    }
}

/// The counts of one deck.
#[derive(Debug)]
pub struct DeckStats {
    pub deck_id: u128,
    pub deck_name: String,
    pub total_cards: usize,
    pub due_cards: usize,
    pub new_cards: usize,
    pub learned_cards: usize,
}

/// The counts over all decks.
#[derive(Debug, Clone, Copy, PartialEq, Eq, Structural)]
pub struct GlobalStats {
    pub total_decks: usize,
    pub total_cards: usize,
    pub cards_due_today: usize,
    pub cards_studied_today: usize,
    pub study_streak_days: i32,
}

impl GlobalStats {
    /// Nothing counted.
    pub fn new() -> (g: GlobalStats)
        ensures
            g == (GlobalStats {
                total_decks: 0,
                total_cards: 0,
                cards_due_today: 0,
                cards_studied_today: 0,
                study_streak_days: 0,
            }),
    {
        GlobalStats { total_decks: 0, total_cards: 0, cards_due_today: 0, cards_studied_today: 0, study_streak_days: 0 }
    }
}

/// The statistics dashboard: the counts of each deck by id, the global
/// counts, and the deck chosen.
#[derive(Debug)]
pub struct StatsViewModel {
    pub deck_stats: Vec<(u128, DeckStats)>,
    pub global_stats: GlobalStats,
    pub selected_deck: Option<u128>,
}

impl StatsViewModel {
    /// No deck counted, nothing chosen.
    pub fn new() -> (m: StatsViewModel)
        ensures
            m.deck_stats@.len() == 0,
            m.global_stats == GlobalStats::new_spec(),
            m.selected_deck is None,
    {
        StatsViewModel { deck_stats: Vec::new(), global_stats: GlobalStats::new(), selected_deck: None }
    }
}

impl GlobalStats {
    pub open spec fn new_spec() -> GlobalStats {
        GlobalStats { total_decks: 0, total_cards: 0, cards_due_today: 0, cards_studied_today: 0, study_streak_days: 0 }
    }
}

} // verus!
