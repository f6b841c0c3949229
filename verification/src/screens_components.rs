//! The main menu, statistics and study components of the component layer.
use vstd::prelude::*;
use vstd::string::*;
use crate::command::Rating;
use crate::input::Action;
use crate::model::{CardSummary, DeckSummary, SessionProgress};
use crate::screens::AppState;

verus! {

/// The entries of the main menu, in order.
pub open spec fn menu_labels() -> Seq<Seq<char>> {
    seq![
        "📚 Start Review"@,
        "🗂️ Deck Management"@,
        "📊 View Statistics"@,
        "⚙️ Settings"@,
        "❓ Help"@,
        "🚪 Quit"@,
    ]
}

/// The screen each main menu entry opens.
pub open spec fn menu_target(i: nat) -> AppState {
    if i == 0 {
        AppState::DeckSelection
    } else if i == 1 {
        AppState::DeckManagement
    } else if i == 2 {
        AppState::Statistics
    } else if i == 3 {
        AppState::Settings
    } else if i == 4 {
        AppState::Help
    } else if i == 5 {
        AppState::ConfirmExit
    } else {
        AppState::MainMenu
    }
}

pub open spec fn texts(v: Seq<String>) -> Seq<Seq<char>> {
    v.map_values(|s: String| s@)
}

/// The highlighted main menu entry after a key.
pub open spec fn menu_after(selected: nat, action: Action) -> nat {
    match action {
        Action::Up => if selected > 0 {
            (selected - 1) as nat
        } else {
            0
        },
        Action::Down => if selected < 5 {
            selected + 1
        } else {
            selected
        },
        _ => selected,
    }
}

/// The screen the main menu asks for after a key: enter opens the
/// highlighted entry's screen, escape asks whether to quit.
pub open spec fn menu_answer(selected: nat, action: Action) -> Option<AppState> {
    match action {
        Action::Select => Some(menu_target(selected)),
        Action::Cancel => Some(AppState::ConfirmExit),
        _ => None,
    }
}

/// The main menu component.
pub struct Menu {
    selected_item: usize,
    list_selected: Option<usize>,
    menu_items: Vec<String>,
}

impl Menu {
    #[verifier::type_invariant]
    closed spec fn inv(&self) -> bool {
        &&& texts(self.menu_items@) == menu_labels()
        &&& self.selected_item < 6
    }

    /// The highlighted entry.
    pub closed spec fn selected(&self) -> nat {
        self.selected_item as nat
    }

    /// The highlighted row as drawn.
    pub closed spec fn row(&self) -> Option<usize> {
        self.list_selected
    }

    /// The menu with its six entries and the first highlighted.
    pub fn new() -> (m: Menu)
        ensures
            m.selected() == 0,
            m.row() == Some(0usize),
    {
        let items = vec![
            String::from_str("📚 Start Review"),
            String::from_str("🗂️ Deck Management"),
            String::from_str("📊 View Statistics"),
            String::from_str("⚙️ Settings"),
            String::from_str("❓ Help"),
            String::from_str("🚪 Quit"),
        ];
        assert(texts(items@) =~= menu_labels());
        Menu { selected_item: 0, list_selected: Some(0), menu_items: items }
    }

    /// The highlighted entry.
    pub fn get_selected_main_menu_item(&self) -> (i: usize)
        ensures
            i as nat == self.selected(),
    {
        self.selected_item
    }

    /// The highlighted entry.
    pub fn selected_item(&self) -> (i: usize)
        ensures
            i as nat == self.selected(),
            i < 6,
    {
        proof {
            use_type_invariant(self);
        }
        self.selected_item
    }

    /// The entries' labels.
    pub fn menu_items(&self) -> (items: &Vec<String>)
        ensures
            texts(items@) == menu_labels(),
    {
        proof {
            use_type_invariant(self);
        }
        &self.menu_items
    }

    /// Moves the highlight up, stopping at the first entry.
    pub fn move_up(&mut self)
        ensures
            final(self).selected() == if old(self).selected() > 0 {
                (old(self).selected() - 1) as nat
            } else {
                0
            },
            old(self).selected() > 0 ==> final(self).row() == Some(final(self).selected() as usize),
            old(self).selected() == 0 ==> final(self).row() == old(self).row(),
    {
        proof {
            use_type_invariant(&*self);
        }
        if self.selected_item > 0 {
            self.selected_item = self.selected_item - 1;
            self.list_selected = Some(self.selected_item);
        }
    }

    /// Moves the highlight down, stopping at the last entry.
    pub fn move_down(&mut self)
        ensures
            final(self).selected() == if old(self).selected() < 5 {
                old(self).selected() + 1
            } else {
                old(self).selected()
            },
            old(self).selected() < 5 ==> final(self).row() == Some(final(self).selected() as usize),
            old(self).selected() >= 5 ==> final(self).row() == old(self).row(),
    {
        proof {
            use_type_invariant(&*self);
        }
        assert(texts(self.menu_items@).len() == self.menu_items@.len());
        if self.selected_item < self.menu_items.len() - 1 {
            self.selected_item = self.selected_item + 1;
            self.list_selected = Some(self.selected_item);
        }
    }

    /// Up and down move the highlight; other actions change nothing.
    pub fn navigate_main_menu(&mut self, action: Action)
        ensures
            final(self).selected() == match action {
                Action::Up => if old(self).selected() > 0 {
                    (old(self).selected() - 1) as nat
                } else {
                    0
                },
                Action::Down => if old(self).selected() < 5 {
                    old(self).selected() + 1
                } else {
                    old(self).selected()
                },
                _ => old(self).selected(),
            },
    {
        proof {
            use_type_invariant(&*self);
        }
        match action {
            Action::Up => self.move_up(),
            Action::Down => self.move_down(),
            _ => {},
        }
    }

    /// The screen the highlighted entry opens.
    pub fn get_target_state(&self) -> (s: AppState)
        ensures
            s == menu_target(self.selected()),
    {
        match self.selected_item {
            0 => AppState::DeckSelection,
            1 => AppState::DeckManagement,
            2 => AppState::Statistics,
            3 => AppState::Settings,
            4 => AppState::Help,
            5 => AppState::ConfirmExit,
            _ => AppState::MainMenu,
        }
    }

    /// Up and down move, enter opens the entry's screen, escape asks
    /// whether to quit.
    pub fn handle_action(&mut self, action: Action) -> (next: Option<AppState>)
        ensures
            next == menu_answer(old(self).selected(), action),
            final(self).selected() == menu_after(old(self).selected(), action),
            next == match action {
                Action::Select => Some(menu_target(old(self).selected())),
                Action::Cancel => Some(AppState::ConfirmExit),
                _ => None,
            },
            final(self).selected() == match action {
                Action::Up => if old(self).selected() > 0 {
                    (old(self).selected() - 1) as nat
                } else {
                    0
                },
                Action::Down => if old(self).selected() < 5 {
                    old(self).selected() + 1
                } else {
                    old(self).selected()
                },
                _ => old(self).selected(),
            },
    {
        proof {
            use_type_invariant(&*self);
        }
        match action {
            Action::Up => {
                self.move_up();
                None
            },
            Action::Down => {
                self.move_down();
                None
            },
            Action::Select => Some(self.get_target_state()),
            Action::Cancel => Some(AppState::ConfirmExit),
            _ => None,
        }
    }

    /// The component's name.
    pub fn name(&self) -> (n: &'static str)
        ensures
            n@ == "main_menu"@,
    {
        "main_menu"
    }
}

/// The views of the statistics screen, in cycling order.
#[derive(Debug, Clone, Copy, PartialEq, Eq, Structural)]
pub enum StatisticsView {
    Overview,
    Progress,
    Performance,
    Calendar,
}

pub open spec fn view_index(v: StatisticsView) -> nat {
    match v {
        StatisticsView::Overview => 0,
        StatisticsView::Progress => 1,
        StatisticsView::Performance => 2,
        StatisticsView::Calendar => 3,
    }
}

pub open spec fn view_at(i: nat) -> StatisticsView {
    if i == 0 {
        StatisticsView::Overview
    } else if i == 1 {
        StatisticsView::Progress
    } else if i == 2 {
        StatisticsView::Performance
    } else {
        StatisticsView::Calendar
    }
}

pub open spec fn view_name(v: StatisticsView) -> Seq<char> {
    match v {
        StatisticsView::Overview => "Overview"@,
        StatisticsView::Progress => "Progress"@,
        StatisticsView::Performance => "Performance"@,
        StatisticsView::Calendar => "Calendar"@,
    }
}

/// The statistics screen after a key: the view shown, the deck selected,
/// and whether the numbers are stale, as `Stats::handle_action` leaves them.
pub open spec fn stats_step(before: Stats, after: Stats, action: Action) -> bool {
    &&& after.deck_count() == before.deck_count()
    &&& after.view() == match action {
        Action::Left => view_at(((view_index(before.view()) + 3) % 4) as nat),
        Action::Right => view_at(((view_index(before.view()) + 1) % 4) as nat),
        _ => before.view(),
    }
    &&& after.selected() == match action {
        Action::Up => if before.selected() > 0 {
            (before.selected() - 1) as nat
        } else {
            before.selected()
        },
        Action::Down => if before.selected() + 1 < before.deck_count() {
            before.selected() + 1
        } else {
            before.selected()
        },
        _ => before.selected(),
    }
    &&& after.stale() == (before.stale() || after.selected() != before.selected())
}

/// The statistics component: the view shown, the decks and the selected
/// one, and whether the numbers must be computed again.
pub struct Stats {
    current_view: StatisticsView,
    decks: Vec<DeckSummary>,
    selected_deck: usize,
    needs_refresh: bool,
}

impl Stats {
    #[verifier::type_invariant]
    closed spec fn inv(&self) -> bool {
        if self.decks@.len() == 0 {
            self.selected_deck == 0
        } else {
            self.selected_deck < self.decks@.len()
        }
    }

    pub closed spec fn view(&self) -> StatisticsView {
        self.current_view
    }

    pub closed spec fn deck_count(&self) -> nat {
        self.decks@.len()
    }

    pub closed spec fn selected(&self) -> nat {
        self.selected_deck as nat
    }

    pub closed spec fn stale(&self) -> bool {
        self.needs_refresh
    }

    /// The overview of no deck, to be computed.
    pub fn new() -> (s: Stats)
        ensures
            s.view() == StatisticsView::Overview,
            s.deck_count() == 0,
            s.selected() == 0,
            s.stale(),
    {
        Stats { current_view: StatisticsView::Overview, decks: Vec::new(), selected_deck: 0, needs_refresh: true }
    }

    /// Replaces the decks; the first is selected and the numbers are stale.
    pub fn set_decks(&mut self, decks: Vec<DeckSummary>)
        ensures
            final(self).deck_count() == decks@.len(),
            final(self).selected() == 0,
            final(self).stale(),
            final(self).view() == old(self).view(),
    {
        proof {
            use_type_invariant(&*self);
        }
        self.selected_deck = 0;
        self.decks = decks;
        self.needs_refresh = true;
    }

    /// Whether the numbers must be computed again.
    pub fn needs_refresh(&self) -> (b: bool)
        ensures
            b == self.stale(),
    {
        self.needs_refresh
    }

    /// Records that the numbers were computed.
    pub fn mark_refreshed(&mut self)
        ensures
            !final(self).stale(),
            final(self).view() == old(self).view(),
            final(self).selected() == old(self).selected(),
            final(self).deck_count() == old(self).deck_count(),
    {
        proof {
            use_type_invariant(&*self);
        }
        self.needs_refresh = false;
    }

    /// The selected deck's position.
    pub fn selected_deck(&self) -> (i: usize)
        ensures
            i as nat == self.selected(),
    {
        self.selected_deck
    }

    /// The name of the view shown.
    pub fn get_view_name(&self) -> (n: &'static str)
        ensures
            n@ == view_name(self.view()),
    {
        match self.current_view {
            StatisticsView::Overview => "Overview",
            StatisticsView::Progress => "Progress",
            StatisticsView::Performance => "Performance",
            StatisticsView::Calendar => "Calendar",
        }
    }

    /// Left and right cycle through the views; up and down select another
    /// deck, whose numbers are then stale; escape returns to the main menu.
    pub fn handle_action(&mut self, action: Action) -> (next: Option<AppState>)
        ensures
            next == if action == Action::Cancel {
                Some(AppState::MainMenu)
            } else {
                None::<AppState>
            },
            final(self).deck_count() == old(self).deck_count(),
            final(self).view() == match action {
                Action::Left => view_at(((view_index(old(self).view()) + 3) % 4) as nat),
                Action::Right => view_at(((view_index(old(self).view()) + 1) % 4) as nat),
                _ => old(self).view(),
            },
            final(self).selected() == match action {
                Action::Up => if old(self).selected() > 0 {
                    (old(self).selected() - 1) as nat
                } else {
                    old(self).selected()
                },
                Action::Down => if old(self).selected() + 1 < old(self).deck_count() {
                    old(self).selected() + 1
                } else {
                    old(self).selected()
                },
                _ => old(self).selected(),
            },
            final(self).stale() == (old(self).stale() || final(self).selected() != old(self).selected()),
            stats_step(*old(self), *final(self), action),
    {
        proof {
            use_type_invariant(&*self);
        }
        match action {
            Action::Left => {
                self.current_view = match self.current_view {
                    StatisticsView::Overview => StatisticsView::Calendar,
                    StatisticsView::Progress => StatisticsView::Overview,
                    StatisticsView::Performance => StatisticsView::Progress,
                    StatisticsView::Calendar => StatisticsView::Performance,
                };
                None
            },
            Action::Right => {
                self.current_view = match self.current_view {
                    StatisticsView::Overview => StatisticsView::Progress,
                    StatisticsView::Progress => StatisticsView::Performance,
                    StatisticsView::Performance => StatisticsView::Calendar,
                    StatisticsView::Calendar => StatisticsView::Overview,
                };
                None
            },
            Action::Up => {
                if self.selected_deck > 0 {
                    self.selected_deck = self.selected_deck - 1;
                    self.needs_refresh = true;
                }
                None
            },
            Action::Down => {
                if self.selected_deck < self.decks.len().saturating_sub(1) {
                    self.selected_deck = self.selected_deck + 1;
                    self.needs_refresh = true;
                }
                None
            },
            Action::Cancel => Some(AppState::MainMenu),
            _ => None,
        }
    }

    /// The component's name.
    pub fn name(&self) -> (n: &'static str)
        ensures
            n@ == "statistics"@,
    {
        "statistics"
    }
}

/// The rating a rating button stands for; out of range counts as good.
pub open spec fn rating_at(i: nat) -> Rating {
    if i == 0 {
        Rating::Again
    } else if i == 1 {
        Rating::Hard
    } else if i == 3 {
        Rating::Easy
    } else {
        Rating::Good
    }
}

/// The study component: the card shown, whether its answer is shown, and
/// the highlighted rating button (0 again, 1 hard, 2 good, 3 easy).
pub struct Study {
    current_card: Option<CardSummary>,
    answer_shown: bool,
    selected_rating: usize,
    session_progress: Option<SessionProgress>,
}

impl Study {
    #[verifier::type_invariant]
    closed spec fn inv(&self) -> bool {
        self.selected_rating <= 3
    }

    pub closed spec fn card_id(&self) -> Option<u128> {
        match self.current_card {
            Some(c) => Some(c.id),
            None => None,
        }
    }

    pub closed spec fn shown(&self) -> bool {
        self.answer_shown
    }

    pub closed spec fn rating(&self) -> nat {
        self.selected_rating as nat
    }

    pub closed spec fn progress(&self) -> Option<SessionProgress> {
        self.session_progress
    }

    /// No card, the answer hidden, "good" highlighted.
    pub fn new() -> (s: Study)
        ensures
            s.card_id() is None,
            !s.shown(),
            s.rating() == 2,
            s.progress() is None,
    {
        Study { current_card: None, answer_shown: false, selected_rating: 2, session_progress: None }
    }

    /// Shows a card with its answer hidden.
    pub fn set_current_card(&mut self, card: Option<CardSummary>)
        ensures
            final(self).progress() == old(self).progress(),
            final(self).card_id() == match card {
                Some(c) => Some(c.id),
                None => None::<u128>,
            },
            !final(self).shown(),
            final(self).rating() == old(self).rating(),
    {
        proof {
            use_type_invariant(&*self);
        }
        self.current_card = card;
        self.answer_shown = false;
    }

    /// Records how far the session has come.
    pub fn set_session_progress(&mut self, progress: Option<SessionProgress>)
        ensures
            final(self).progress() == progress,
            final(self).card_id() == old(self).card_id(),
            final(self).shown() == old(self).shown(),
            final(self).rating() == old(self).rating(),
    {
        proof {
            use_type_invariant(&*self);
        }
        self.session_progress = progress;
    }

    /// How far the session has come, when known.
    pub fn session_progress(&self) -> (p: Option<SessionProgress>)
        ensures
            p == self.progress(),
    {
        self.session_progress
    }

    /// Shows the answer.
    pub fn show_answer(&mut self)
        ensures
            final(self).progress() == old(self).progress(),
            final(self).shown(),
            final(self).card_id() == old(self).card_id(),
            final(self).rating() == old(self).rating(),
    {
        proof {
            use_type_invariant(&*self);
        }
        self.answer_shown = true;
    }

    /// Hides the answer.
    pub fn hide_answer(&mut self)
        ensures
            final(self).progress() == old(self).progress(),
            !final(self).shown(),
            final(self).card_id() == old(self).card_id(),
            final(self).rating() == old(self).rating(),
    {
        proof {
            use_type_invariant(&*self);
        }
        self.answer_shown = false;
    }

    /// The card shown.
    pub fn current_card(&self) -> (c: Option<&CardSummary>)
        ensures
            match c {
                Some(x) => self.card_id() == Some(x.id),
                None => self.card_id() is None,
            },
    {
        match &self.current_card {
            Some(c) => Some(c),
            None => None,
        }
    }

    /// Whether the answer is shown.
    pub fn answer_shown(&self) -> (b: bool)
        ensures
            b == self.shown(),
    {
        self.answer_shown
    }

    /// The highlighted rating button.
    pub fn selected_rating(&self) -> (i: usize)
        ensures
            i as nat == self.rating(),
    {
        self.selected_rating
    }

    /// Clears the card for the next one, with "good" highlighted again.
    pub fn request_next_card(&mut self)
        ensures
            final(self).progress() == old(self).progress(),
            final(self).card_id() is None,
            !final(self).shown(),
            final(self).rating() == 2,
    {
        proof {
            use_type_invariant(&*self);
        }
        self.current_card = None;
        self.answer_shown = false;
        self.selected_rating = 2;
    }

    /// The rating of the highlighted button.
    pub fn prepare_rating(&self) -> (r: Rating)
        ensures
            r == rating_at(self.rating()),
    {
        match self.selected_rating {
            0 => Rating::Again,
            1 => Rating::Hard,
            2 => Rating::Good,
            3 => Rating::Easy,
            _ => Rating::Good,
        }
    }

    /// Reviewing keys: show the answer, choose a rating once it is shown,
    /// enter to show the answer or go on to the next card, escape to the
    /// main menu, deck switch to deck selection.
    pub fn handle_action(&mut self, action: Action) -> (next: Option<AppState>)
        ensures
            final(self).progress() == old(self).progress(),
            next == match action {
                Action::Cancel => Some(AppState::MainMenu),
                Action::SwitchDeck => Some(AppState::DeckSelection),
                _ => None,
            },
            final(self).rating() <= 3,
            action == Action::ShowAnswer ==> final(self).shown() && final(self).rating() == old(self).rating()
                && final(self).card_id() == old(self).card_id(),
            action == Action::Select ==> if old(self).shown() {
                final(self).card_id() is None && !final(self).shown() && final(self).rating() == 2
            } else {
                final(self).shown() && final(self).rating() == old(self).rating() && final(self).card_id()
                    == old(self).card_id()
            },
            (action == Action::RateAgain || action == Action::RateHard || action == Action::RateGood
                || action == Action::RateEasy || action == Action::Left || action == Action::Right)
                ==> final(self).shown() == old(self).shown() && final(self).card_id() == old(self).card_id()
                && final(self).rating() == if !old(self).shown() {
                old(self).rating()
            } else {
                match action {
                    Action::RateAgain => 0,
                    Action::RateHard => 1,
                    Action::RateGood => 2,
                    Action::RateEasy => 3,
                    Action::Left => if old(self).rating() > 0 {
                        (old(self).rating() - 1) as nat
                    } else {
                        0
                    },
                    _ => if old(self).rating() < 3 {
                        old(self).rating() + 1
                    } else {
                        3
                    },
                }
            },
            !(action == Action::ShowAnswer || action == Action::Select || action == Action::RateAgain
                || action == Action::RateHard || action == Action::RateGood || action == Action::RateEasy
                || action == Action::Left || action == Action::Right) ==> final(self).shown() == old(self).shown()
                && final(self).card_id() == old(self).card_id() && final(self).rating() == old(self).rating(),
    {
        proof {
            use_type_invariant(&*self);
        }
        match action {
            Action::ShowAnswer => {
                if !self.answer_shown {
                    self.show_answer();
                }
                None
            },
            Action::RateAgain => {
                if self.answer_shown {
                    self.selected_rating = 0;
                }
                None
            },
            Action::RateHard => {
                if self.answer_shown {
                    self.selected_rating = 1;
                }
                None
            },
            Action::RateGood => {
                if self.answer_shown {
                    self.selected_rating = 2;
                }
                None
            },
            Action::RateEasy => {
                if self.answer_shown {
                    self.selected_rating = 3;
                }
                None
            },
            Action::Select => {
                if self.answer_shown {
                    self.request_next_card();
                } else {
                    self.show_answer();
                }
                None
            },
            Action::Left => {
                if self.answer_shown && self.selected_rating > 0 {
                    self.selected_rating = self.selected_rating - 1;
                }
                None
            },
            Action::Right => {
                if self.answer_shown && self.selected_rating < 3 {
                    self.selected_rating = self.selected_rating + 1;
                }
                None
            },
            Action::Cancel => Some(AppState::MainMenu),
            Action::SwitchDeck => Some(AppState::DeckSelection),
            _ => None,
        }
    }

    /// The component's name.
    pub fn name(&self) -> (n: &'static str)
        ensures
            n@ == "learning"@,
    {
        "learning"
    }
}

/// Four steps right through the statistics views come back to the start,
/// and a step left undoes a step right.
pub proof fn lemma_view_cycle(v: StatisticsView)
    ensures
        view_at(((view_index(view_at(((view_index(v) + 1) % 4) as nat)) + 3) % 4) as nat) == v,
        view_at(((view_index(v) + 4) % 4) as nat) == v,
{
}

} // verus!
