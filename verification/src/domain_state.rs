//! The application state of the domain layer: which screen, and within a
//! study session, which stage of reviewing a card. Times are milliseconds
//! since the epoch.
use vstd::prelude::*;
use crate::clock::now_unix_millis;
use crate::model::{CardSummary, SettingsState};

verus! {

/// The stage of deck management.
#[derive(Debug, Clone, Copy, PartialEq, Eq, Structural)]
pub enum DeckState {
    Browsing,
    Creating,
    Editing { deck_id: u128 },
    ManagingCards { deck_id: u128 },
    EditingCard { deck_id: u128, card_id: Option<u128> },
}

/// The stage of a study session.
#[derive(Debug)]
pub enum StudyState {
    NotStarted { deck_id: u128 },
    InProgress { current_card: Option<CardSummary>, show_answer: bool, card_start_ms: i64 },
    Paused { resume_state: Box<StudyState>, pause_ms: i64 },
    Finished { cards_studied: usize, completion_ms: i64 },
    Rating { card: CardSummary, response_time: i64 },
    Loading,
}

/// What the statistics screen shows.
#[derive(Debug, Clone, Copy, PartialEq, Eq, Structural)]
pub enum StatsState {
    GlobalOverview,
    DeckStats { deck_id: u128 },
    ProgressCharts,
    Achievements,
}

/// The screen of the application and its stage.
#[derive(Debug)]
pub enum AppState {
    MainMenu,
    DeckSelection(DeckState),
    StudySession(StudyState),
    Statistics(StatsState),
    Settings(SettingsState),
}

/// The stage of a study session by kind only.
pub open spec fn study_kind(s: StudyState) -> nat {
    match s {
        StudyState::NotStarted { .. } => 0,
        StudyState::InProgress { .. } => 1,
        StudyState::Paused { .. } => 2,
        StudyState::Finished { .. } => 3,
        StudyState::Rating { .. } => 4,
        StudyState::Loading => 5,
    }
}

pub open spec fn card_id_of(c: Option<CardSummary>) -> Option<u128> {
    match c {
        Some(x) => Some(x.id),
        None => None,
    }
}

/// The deck a study stage names: the deck of a session not started, also
/// behind a pause. A stage in progress holds only its card, not its deck,
/// so it names none.
pub open spec fn study_current_id(s: StudyState) -> Option<u128> {
    match s {
        StudyState::NotStarted { deck_id } => Some(deck_id),
        StudyState::Paused { resume_state, .. } => match *resume_state {
            StudyState::NotStarted { deck_id } => Some(deck_id),
            _ => None,
        },
        _ => None,
    }
}

/// The deck the application state names, if it holds one.
pub open spec fn current_deck_id_spec(s: AppState) -> Option<u128> {
    match s {
        AppState::DeckSelection(d) => match d {
            DeckState::Editing { deck_id } => Some(deck_id),
            DeckState::ManagingCards { deck_id } => Some(deck_id),
            DeckState::EditingCard { deck_id, .. } => Some(deck_id),
            _ => None,
        },
        AppState::StudySession(st) => study_current_id(st),
        _ => None,
    }
}

/// The card a study stage shows, looking through pauses.
pub open spec fn study_card(s: StudyState) -> Option<u128>
    decreases s,
{
    match s {
        StudyState::InProgress { current_card, .. } => card_id_of(current_card),
        StudyState::Rating { card, .. } => Some(card.id),
        StudyState::Paused { resume_state, .. } => study_card(*resume_state),
        _ => None,
    }
}

/// Whether a study stage shows the answer, looking through pauses.
pub open spec fn study_shows_answer(s: StudyState) -> bool
    decreases s,
{
    match s {
        StudyState::InProgress { show_answer, .. } => show_answer,
        StudyState::Rating { .. } => true,
        StudyState::Paused { resume_state, .. } => study_shows_answer(*resume_state),
        _ => false,
    }
}

/// The response time of the card under review at time `now`: the time
/// since the card was shown; the recorded time once rated; for a pause, the
/// resumed stage's time plus the pause so far.
pub open spec fn response_time_at_spec(s: StudyState, now: int) -> Option<int>
    decreases s,
{
    match s {
        StudyState::InProgress { card_start_ms, .. } => Some(now - card_start_ms),
        StudyState::Rating { response_time, .. } => Some(response_time as int),
        StudyState::Paused { resume_state, pause_ms } => match response_time_at_spec(*resume_state, now) {
            Some(b) => Some(b + (now - pause_ms)),
            None => None,
        },
        _ => None,
    }
}

/// Whether every time `response_time_at_spec` computes fits an `i64`.
pub open spec fn response_time_fits(s: StudyState, now: int) -> bool
    decreases s,
{
    match s {
        StudyState::InProgress { card_start_ms, .. } => i64::MIN <= now - card_start_ms <= i64::MAX,
        StudyState::Paused { resume_state, pause_ms } => {
            &&& response_time_fits(*resume_state, now)
            &&& i64::MIN <= now - pause_ms <= i64::MAX
            &&& match response_time_at_spec(*resume_state, now) {
                Some(b) => i64::MIN <= b + (now - pause_ms) <= i64::MAX,
                None => true,
            }
        },
        _ => true,
    }
}

/// An optional `i64` as an optional integer.
pub open spec fn opt_int(o: Option<i64>) -> Option<int> {
    match o {
        Some(x) => Some(x as int),
        None => None,
    }
}

/// The response time read at clock time `now`: the stage's response time
/// when every time it computes fits an `i64`, else none.
pub open spec fn response_time_now(s: StudyState, now: int) -> Option<int> {
    if response_time_fits(s, now) {
        response_time_at_spec(s, now)
    } else {
        None
    }
}

impl AppState {
    /// Whether a study session is in the same stage kind as `expected`.
    pub fn is_session_in_state(&self, expected: &StudyState) -> (b: bool)
        ensures
            b == match *self {
                AppState::StudySession(s) => study_kind(s) == study_kind(*expected),
                _ => false,
            },
    {
        match self {
            AppState::StudySession(current) => current.kind_number() == expected.kind_number(),
            _ => false,
        }
    }

    /// Whether a study session is on.
    pub fn is_studying(&self) -> (b: bool)
        ensures
            b == (*self is StudySession),
    {
        match self {
            AppState::StudySession(_) => true,
            _ => false,
        }
    }

    /// The deck the state names, if it holds one: the deck edited or whose
    /// cards are managed, or the deck of a study session not yet started.
    pub fn get_current_deck_id(&self) -> (id: Option<u128>)
        ensures
            id == current_deck_id_spec(*self),
    {
        match self {
            AppState::DeckSelection(state) => match state {
                DeckState::Editing { deck_id } | DeckState::ManagingCards { deck_id } | DeckState::EditingCard {
                    deck_id,
                    ..
                } => Some(*deck_id),
                _ => None,
            },
            AppState::StudySession(study_state) => match study_state {
                StudyState::NotStarted { deck_id } => Some(*deck_id),
                StudyState::Paused { resume_state, .. } => match &**resume_state {
                    StudyState::NotStarted { deck_id } => Some(*deck_id),
                    _ => None,
                },
                _ => None,
            },
            _ => None,
        }
    }
}

impl StudyState {
    /// The kind of the stage, as a number.
    pub fn kind_number(&self) -> (k: u8)
        ensures
            k as nat == study_kind(*self),
    {
        match self {
            StudyState::NotStarted { .. } => 0,
            StudyState::InProgress { .. } => 1,
            StudyState::Paused { .. } => 2,
            StudyState::Finished { .. } => 3,
            StudyState::Rating { .. } => 4,
            StudyState::Loading => 5,
        }
    }

    /// The card shown, looking through pauses.
    pub fn get_current_card(&self) -> (c: Option<&CardSummary>)
        ensures
            match c {
                Some(x) => study_card(*self) == Some(x.id),
                None => study_card(*self) is None,
            },
        decreases *self,
    {
        match self {
            StudyState::InProgress { current_card, .. } => match current_card {
                Some(card) => Some(card),
                None => None,
            },
            StudyState::Rating { card, .. } => Some(card),
            StudyState::Paused { resume_state, .. } => resume_state.get_current_card(),
            _ => None,
        }
    }

    /// Whether the answer is shown, looking through pauses.
    pub fn should_show_answer(&self) -> (b: bool)
        ensures
            b == study_shows_answer(*self),
        decreases *self,
    {
        match self {
            StudyState::InProgress { show_answer, .. } => *show_answer,
            StudyState::Rating { .. } => true,
            StudyState::Paused { resume_state, .. } => resume_state.should_show_answer(),
            _ => false,
        }
    }

    /// The response time at time `now_ms`.
    pub fn response_time_at(&self, now_ms: i64) -> (r: Option<i64>)
        requires
            response_time_fits(*self, now_ms as int),
        ensures
            match response_time_at_spec(*self, now_ms as int) {
                Some(t) => r is Some && r->0 as int == t,
                None => r is None,
            },
        decreases *self,
    {
        match self {
            StudyState::InProgress { card_start_ms, .. } => Some(now_ms - *card_start_ms),
            StudyState::Rating { response_time, .. } => Some(*response_time),
            StudyState::Paused { pause_ms, resume_state } => {
                match resume_state.response_time_at(now_ms) {
                    Some(base) => Some(base + (now_ms - *pause_ms)),
                    None => None,
                }
            },
            _ => None,
        }
    }

    /// Whether `response_time_at` can compute at `now_ms` without leaving
    /// the range of `i64`.
    pub fn response_time_fits_at(&self, now_ms: i64) -> (b: bool)
        ensures
            b == response_time_fits(*self, now_ms as int),
        decreases *self,
    {
        match self {
            StudyState::InProgress { card_start_ms, .. } => now_ms.checked_sub(*card_start_ms).is_some(),
            StudyState::Paused { resume_state, pause_ms } => {
                if !resume_state.response_time_fits_at(now_ms) {
                    return false;
                }
                match now_ms.checked_sub(*pause_ms) {
                    None => false,
                    Some(p) => match resume_state.response_time_at(now_ms) {
                        Some(b) => b.checked_add(p).is_some(),
                        None => true,
                    },
                }
            },
            _ => true,
        }
    }

    /// The response time now, as the clock reads: `None` also when the
    /// time cannot be told within the range of `i64`.
    pub fn get_response_time_ms(&self) -> (r: Option<i64>)
        ensures
            exists|now: i64| #[trigger] response_time_now(*self, now as int) == opt_int(r),
    {
        let now = now_unix_millis();
        let r = if self.response_time_fits_at(now) {
            self.response_time_at(now)
        } else {
            None
        };
        assert(response_time_now(*self, now as int) == opt_int(r));
        r
    }
}

} // verus!
