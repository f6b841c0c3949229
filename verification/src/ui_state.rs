//! The interface states of the component layer and the manager that moves
//! between them, remembering where it came from.
use vstd::prelude::*;
use vstd::string::*;
use crate::clock::now_unix_seconds;
use crate::model::DeckSummary;
use crate::ui_map::UiMap;

verus! {

/// An entry of the main menu.
#[derive(Debug)]
pub struct MenuItem {
    pub id: String,
    pub label: String,
    pub enabled: bool,
}

/// The main menu: its entries and the highlighted one.
#[derive(Debug)]
pub struct MainMenuState {
    pub selected_item: usize,
    pub menu_items: Vec<MenuItem>,
}

/// How decks are ordered.
#[derive(Debug, Clone, Copy, PartialEq, Eq, Structural)]
pub enum DeckSortBy {
    Name,
    CreatedDate,
    CardCount,
    DueCount,
}

/// Choosing a deck to study.
#[derive(Debug)]
pub struct DeckSelectionState {
    pub available_decks: Vec<DeckSummary>,
    pub selected_deck_index: usize,
    pub deck_filter: Option<String>,
    pub sort_by: DeckSortBy,
}

/// An action on a deck.
#[derive(Debug, Clone, Copy, PartialEq, Eq, Structural)]
pub enum DeckManagementAction {
    Create,
    Delete,
    Rename,
    Info,
    Import,
    Export,
}

/// Creating a deck: the fields typed so far.
#[derive(Debug)]
pub struct CreateDeckState {
    pub deck_name: String,
    pub description: String,
    pub cursor_position: usize,
    pub validation_error: Option<String>,
}

/// Renaming a deck.
#[derive(Debug)]
pub struct RenameDeckState {
    pub deck_id: u128,
    pub old_name: String,
    pub new_name: String,
    pub cursor_position: usize,
    pub validation_error: Option<String>,
}

/// Confirming the deletion of a deck.
#[derive(Debug)]
pub struct DeleteConfirmState {
    pub deck_id: u128,
    pub deck_name: String,
    pub card_count: usize,
}

/// A file format decks are imported from.
#[derive(Debug, Clone, Copy, PartialEq, Eq, Structural)]
pub enum ImportFormat {
    Csv,
    Toml,
    Json,
    Apkg,
}

/// A file format decks are exported to.
#[derive(Debug, Clone, Copy, PartialEq, Eq, Structural)]
pub enum ExportFormat {
    Csv,
    Toml,
    Json,
    Apkg,
}

/// Importing a deck from a file.
#[derive(Debug)]
pub struct ImportState {
    pub file_path: String,
    pub target_deck_name: String,
    pub import_format: ImportFormat,
}

/// Exporting a deck to a file.
#[derive(Debug)]
pub struct ExportState {
    pub deck_id: u128,
    pub file_path: String,
    pub export_format: ExportFormat,
}

/// A dialog open over the deck management screen.
#[derive(Debug)]
pub enum DeckModalState {
    CreateDeck(CreateDeckState),
    RenameDeck(RenameDeckState),
    DeleteConfirm(DeleteConfirmState),
    Import(ImportState),
    Export(ExportState),
}

/// Managing decks.
#[derive(Debug)]
pub struct DeckManagementState {
    pub available_decks: Vec<DeckSummary>,
    pub selected_deck_index: usize,
    pub selected_action: DeckManagementAction,
    pub deck_details: Option<DeckSummary>,
    pub modal_state: Option<DeckModalState>,
    pub search_query: String,
    pub filtered_decks: Vec<usize>,
}

/// Which side of a card is shown.
#[derive(Debug, Clone, Copy, PartialEq, Eq, Structural)]
pub enum CardSide {
    Front,
    Back,
}

/// How a card is shown.
#[derive(Debug, Clone, Copy, PartialEq, Eq, Structural)]
pub struct CardDisplayState {
    pub show_answer: bool,
    pub show_front_first: bool,
    pub current_side: CardSide,
}

/// How cards are reviewed.
#[derive(Debug, Clone, Copy, PartialEq, Eq, Structural)]
pub enum ReviewMode {
    Normal,
    Browsing,
    Learning,
}

/// Reviewing cards.
#[derive(Debug, Clone, Copy, PartialEq, Eq, Structural)]
pub struct CardReviewState {
    pub current_card_display: CardDisplayState,
    pub review_mode: ReviewMode,
}

/// The period statistics cover.
#[derive(Debug, Clone, Copy, PartialEq, Eq, Structural)]
pub enum StatsTimePeriod {
    Today,
    Week,
    Month,
    Quarter,
    Year,
    AllTime,
}

/// How statistics are shown.
#[derive(Debug, Clone, Copy, PartialEq, Eq, Structural)]
pub enum StatsDisplayMode {
    Overview,
    Detailed,
    Charts,
}

/// Viewing statistics.
#[derive(Debug, Clone, Copy, PartialEq, Eq, Structural)]
pub struct StatisticsState {
    pub selected_deck_id: Option<u128>,
    pub time_period: StatsTimePeriod,
    pub display_mode: StatsDisplayMode,
}

/// A tab of the settings screen.
#[derive(Debug, Clone, Copy, PartialEq, Eq, Structural)]
pub enum SettingsTab {
    General,
    Learning,
    Display,
    Keyboard,
    Advanced,
}

/// Editing settings.
#[derive(Debug)]
pub struct SettingsState {
    pub current_tab: SettingsTab,
    pub edited_settings: UiMap,
    pub pending_changes: bool,
}

/// A help topic.
#[derive(Debug, Clone, Copy, PartialEq, Eq, Structural)]
pub enum HelpTopic {
    Overview,
    Shortcuts,
    DeckManagement,
    CardReview,
    Settings,
}

/// Reading help.
#[derive(Debug, Clone, Copy, PartialEq, Eq, Structural)]
pub struct HelpState {
    pub selected_topic: HelpTopic,
    pub scroll_position: usize,
}

/// Asking whether to quit: `true` is "yes".
#[derive(Debug, Clone, Copy, PartialEq, Eq, Structural)]
pub struct ConfirmExitState {
    pub selected_option: bool,
}

/// A state of the interface.
#[derive(Debug)]
pub enum UIState {
    MainMenu(MainMenuState),
    DeckSelection(DeckSelectionState),
    DeckManagement(DeckManagementState),
    CardReview(CardReviewState),
    Statistics(StatisticsState),
    Settings(SettingsState),
    Help(HelpState),
    ConfirmExit(ConfirmExitState),
}

/// The kind of an interface state.
#[derive(Debug, Clone, Copy, PartialEq, Eq, Structural)]
pub enum UIStateKind {
    MainMenu,
    DeckSelection,
    DeckManagement,
    CardReview,
    Statistics,
    Settings,
    Help,
    ConfirmExit,
}

pub open spec fn kind_of(s: UIState) -> UIStateKind {
    match s {
        UIState::MainMenu(_) => UIStateKind::MainMenu,
        UIState::DeckSelection(_) => UIStateKind::DeckSelection,
        UIState::DeckManagement(_) => UIStateKind::DeckManagement,
        UIState::CardReview(_) => UIStateKind::CardReview,
        UIState::Statistics(_) => UIStateKind::Statistics,
        UIState::Settings(_) => UIStateKind::Settings,
        UIState::Help(_) => UIStateKind::Help,
        UIState::ConfirmExit(_) => UIStateKind::ConfirmExit,
    }
}

impl UIState {
    /// The kind of the state.
    pub fn kind(&self) -> (k: UIStateKind)
        ensures
            k == kind_of(*self),
    {
        match self {
            UIState::MainMenu(_) => UIStateKind::MainMenu,
            UIState::DeckSelection(_) => UIStateKind::DeckSelection,
            UIState::DeckManagement(_) => UIStateKind::DeckManagement,
            UIState::CardReview(_) => UIStateKind::CardReview,
            UIState::Statistics(_) => UIStateKind::Statistics,
            UIState::Settings(_) => UIStateKind::Settings,
            UIState::Help(_) => UIStateKind::Help,
            UIState::ConfirmExit(_) => UIStateKind::ConfirmExit,
        }
    }
}

/// A move between interface states: the kinds left and entered, when
/// (seconds since the epoch), and why.
#[derive(Debug)]
pub struct StateTransition {
    pub from_state: UIStateKind,
    pub to_state: UIStateKind,
    pub timestamp: i64,
    pub trigger: String,
}

/// How many earlier states are remembered for going back.
pub const MAX_PREVIOUS_STATES: usize = 10;

/// The states remembered after `current` was left: the oldest is forgotten
/// once more than ten are kept.
pub open spec fn remembered_after(previous: Seq<UIState>, current: UIState) -> Seq<UIState> {
    let p = previous.push(current);
    if p.len() > MAX_PREVIOUS_STATES {
        p.subrange(1, p.len() as int)
    } else {
        p
    }
}

/// A history of transitions after one more: the oldest is dropped once it
/// holds more than `max`.
pub open spec fn history_kinds_after(h: Seq<(UIStateKind, UIStateKind)>, t: (UIStateKind, UIStateKind), max: nat) -> Seq<(UIStateKind, UIStateKind)> {
    let p = h.push(t);
    if p.len() > max {
        p.subrange(1, p.len() as int)
    } else {
        p
    }
}

pub open spec fn transition_kinds(h: Seq<StateTransition>) -> Seq<(UIStateKind, UIStateKind)> {
    h.map_values(|t: StateTransition| (t.from_state, t.to_state))
}

/// Moves between interface states, remembering the earlier ones.
#[derive(Debug)]
pub struct UIStateManager {
    pub current_state: UIState,
    pub previous_states: Vec<UIState>,
    pub state_history: Vec<StateTransition>,
    pub max_history_size: usize,
}

fn menu_item(id: &str, label: &str) -> (m: MenuItem)
    ensures
        m.id@ == id@,
        m.label@ == label@,
        m.enabled,
{
    MenuItem { id: String::from_str(id), label: String::from_str(label), enabled: true }
}

/// The ids of the main menu's entries, in order.
pub open spec fn main_menu_ids() -> Seq<Seq<char>> {
    seq!["review"@, "deck_management"@, "statistics"@, "settings"@, "help"@, "quit"@]
}

impl UIStateManager {
    /// The main menu with six entries, the first highlighted, nothing
    /// remembered, a history of at most fifty transitions.
    pub fn new() -> (m: UIStateManager)
        ensures
            m.current_state matches UIState::MainMenu(s) && s.selected_item == 0 && s.menu_items@.map_values(
                |i: MenuItem| i.id@,
            ) == main_menu_ids() && forall|i: int| 0 <= i < s.menu_items@.len() ==> (#[trigger] s.menu_items@[i]).enabled,
            m.previous_states@.len() == 0,
            m.state_history@.len() == 0,
            m.max_history_size == 50,
    {
        let items = vec![
            menu_item("review", "Start Review"),
            menu_item("deck_management", "Deck Management"),
            menu_item("statistics", "Statistics"),
            menu_item("settings", "Settings"),
            menu_item("help", "Help"),
            menu_item("quit", "Quit"),
        ];
        assert(items@.map_values(|i: MenuItem| i.id@) =~= main_menu_ids());
        UIStateManager {
            current_state: UIState::MainMenu(MainMenuState { selected_item: 0, menu_items: items }),
            previous_states: Vec::new(),
            state_history: Vec::new(),
            max_history_size: 50,
        }
    }

    /// Moves to a new state: the current one is remembered and the move is
    /// recorded.
    pub fn transition_to(&mut self, new_state: UIState, trigger: String)
        ensures
            final(self).current_state == new_state,
            final(self).previous_states@ == remembered_after(old(self).previous_states@, old(self).current_state),
            transition_kinds(final(self).state_history@) == history_kinds_after(
                transition_kinds(old(self).state_history@),
                (kind_of(old(self).current_state), kind_of(new_state)),
                old(self).max_history_size as nat,
            ),
            final(self).max_history_size == old(self).max_history_size,
    {
        let transition = StateTransition {
            from_state: self.current_state.kind(),
            to_state: new_state.kind(),
            timestamp: now_unix_seconds(),
            trigger,
        };
        let mut previous = new_state;
        std::mem::swap(&mut previous, &mut self.current_state);
        self.previous_states.push(previous);
        if self.previous_states.len() > MAX_PREVIOUS_STATES {
            self.previous_states.remove(0);
        }
        proof {
            let p = old(self).previous_states@.push(old(self).current_state);
            if p.len() > MAX_PREVIOUS_STATES {
                assert(self.previous_states@ =~= p.subrange(1, p.len() as int));
            }
        }
        self.state_history.push(transition);
        if self.state_history.len() > self.max_history_size {
            self.state_history.remove(0);
        }
        proof {
            let h = transition_kinds(old(self).state_history@);
            let t = (kind_of(old(self).current_state), kind_of(self.current_state));
            let p = h.push(t);
            if p.len() > old(self).max_history_size {
                assert(transition_kinds(self.state_history@) =~= p.subrange(1, p.len() as int));
            } else {
                assert(transition_kinds(self.state_history@) =~= p);
            }
        }
    }

    /// Returns to the last remembered state, recording the move; `false`
    /// when none is remembered, and then nothing changes.
    pub fn go_back(&mut self) -> (moved: bool)
        ensures
            moved == (old(self).previous_states@.len() > 0),
            moved ==> final(self).current_state == old(self).previous_states@.last()
                && final(self).previous_states@ == old(self).previous_states@.drop_last() && transition_kinds(
                final(self).state_history@,
            ) == transition_kinds(old(self).state_history@).push(
                (kind_of(old(self).current_state), kind_of(old(self).previous_states@.last())),
            ),
            !moved ==> final(self).current_state == old(self).current_state && final(self).previous_states@
                == old(self).previous_states@ && final(self).state_history@ == old(self).state_history@,
            final(self).max_history_size == old(self).max_history_size,
    {
        match self.previous_states.pop() {
            Some(previous) => {
                let transition = StateTransition {
                    from_state: self.current_state.kind(),
                    to_state: previous.kind(),
                    timestamp: now_unix_seconds(),
                    trigger: String::from_str("go_back"),
                };
                self.state_history.push(transition);
                self.current_state = previous;
                assert(transition_kinds(self.state_history@) =~= transition_kinds(old(self).state_history@).push(
                    (kind_of(old(self).current_state), kind_of(old(self).previous_states@.last())),
                ));
                true
            },
            None => false,
        }
    }

    /// The current state.
    pub fn get_current_state(&self) -> (s: &UIState)
        ensures
            *s == self.current_state,
    {
        &self.current_state
    }

    /// The main menu state, when the main menu is shown.
    pub fn as_main_menu_state(&self) -> (s: Option<&MainMenuState>)
        ensures
            match self.current_state {
                UIState::MainMenu(m) => s == Some(&m),
                _ => s is None,
            },
    {
        match &self.current_state {
            UIState::MainMenu(state) => Some(state),
            _ => None,
        }
    }

    /// The deck management state, when decks are managed.
    pub fn as_deck_management_state(&self) -> (s: Option<&DeckManagementState>)
        ensures
            match self.current_state {
                UIState::DeckManagement(m) => s == Some(&m),
                _ => s is None,
            },
    {
        match &self.current_state {
            UIState::DeckManagement(state) => Some(state),
            _ => None,
        }
    }

    /// The deck selection state, when a deck is being chosen.
    pub fn as_deck_selection_state(&self) -> (s: Option<&DeckSelectionState>)
        ensures
            match self.current_state {
                UIState::DeckSelection(m) => s == Some(&m),
                _ => s is None,
            },
    {
        match &self.current_state {
            UIState::DeckSelection(state) => Some(state),
            _ => None,
        }
    }

    /// The card review state, when cards are reviewed.
    pub fn as_card_review_state(&self) -> (s: Option<&CardReviewState>)
        ensures
            match self.current_state {
                UIState::CardReview(m) => s == Some(&m),
                _ => s is None,
            },
    {
        match &self.current_state {
            UIState::CardReview(state) => Some(state),
            _ => None,
        }
    }

    /// The statistics state, when statistics are shown.
    pub fn as_statistics_state(&self) -> (s: Option<&StatisticsState>)
        ensures
            match self.current_state {
                UIState::Statistics(m) => s == Some(&m),
                _ => s is None,
            },
    {
        match &self.current_state {
            UIState::Statistics(state) => Some(state),
            _ => None,
        }
    }

    /// A copy of the transitions recorded, oldest first.
    pub fn get_state_history(&self) -> (h: Vec<StateTransition>)
        ensures
            h@ == self.state_history@,
    {
        let mut h: Vec<StateTransition> = Vec::new();
        let mut i: usize = 0;
        while i < self.state_history.len()
            invariant
                i <= self.state_history@.len(),
                h@ == self.state_history@.subrange(0, i as int),
            decreases self.state_history@.len() - i,
        {
            let t = &self.state_history[i];
            h.push(StateTransition {
                from_state: t.from_state,
                to_state: t.to_state,
                timestamp: t.timestamp,
                trigger: t.trigger.clone(),
            });
            i = i + 1;
            assert(h@ =~= self.state_history@.subrange(0, i as int));
        }
        assert(h@ =~= self.state_history@);
        h
    }

    /// The main menu state for changing, when the main menu is shown.
    pub fn as_mut_main_menu_state(&mut self) -> (s: Option<&mut MainMenuState>)
        ensures
            match old(self).current_state {
                UIState::MainMenu(m) => s is Some && *s.unwrap() == m
                    && final(self).current_state == UIState::MainMenu(*final(s.unwrap())),
                _ => s is None && *final(self) == *old(self),
            },
            final(self).previous_states == old(self).previous_states,
            final(self).state_history == old(self).state_history,
            final(self).max_history_size == old(self).max_history_size,
    {
        match &mut self.current_state {
            UIState::MainMenu(state) => Some(state),
            _ => None,
        }
    }

    /// The deck management state for changing, when decks are managed.
    pub fn as_mut_deck_management_state(&mut self) -> (s: Option<&mut DeckManagementState>)
        ensures
            match old(self).current_state {
                UIState::DeckManagement(m) => s is Some && *s.unwrap() == m
                    && final(self).current_state == UIState::DeckManagement(*final(s.unwrap())),
                _ => s is None && *final(self) == *old(self),
            },
            final(self).previous_states == old(self).previous_states,
            final(self).state_history == old(self).state_history,
            final(self).max_history_size == old(self).max_history_size,
    {
        match &mut self.current_state {
            UIState::DeckManagement(state) => Some(state),
            _ => None,
        }
    }

    /// The deck selection state for changing, when a deck is being chosen.
    pub fn as_mut_deck_selection_state(&mut self) -> (s: Option<&mut DeckSelectionState>)
        ensures
            match old(self).current_state {
                UIState::DeckSelection(m) => s is Some && *s.unwrap() == m
                    && final(self).current_state == UIState::DeckSelection(*final(s.unwrap())),
                _ => s is None && *final(self) == *old(self),
            },
            final(self).previous_states == old(self).previous_states,
            final(self).state_history == old(self).state_history,
            final(self).max_history_size == old(self).max_history_size,
    {
        match &mut self.current_state {
            UIState::DeckSelection(state) => Some(state),
            _ => None,
        }
    }

    /// The card review state for changing, when cards are reviewed.
    pub fn as_mut_card_review_state(&mut self) -> (s: Option<&mut CardReviewState>)
        ensures
            match old(self).current_state {
                UIState::CardReview(m) => s is Some && *s.unwrap() == m
                    && final(self).current_state == UIState::CardReview(*final(s.unwrap())),
                _ => s is None && *final(self) == *old(self),
            },
            final(self).previous_states == old(self).previous_states,
            final(self).state_history == old(self).state_history,
            final(self).max_history_size == old(self).max_history_size,
    {
        match &mut self.current_state {
            UIState::CardReview(state) => Some(state),
            _ => None,
        }
    }

    /// The statistics state for changing, when statistics are shown.
    pub fn as_mut_statistics_state(&mut self) -> (s: Option<&mut StatisticsState>)
        ensures
            match old(self).current_state {
                UIState::Statistics(m) => s is Some && *s.unwrap() == m
                    && final(self).current_state == UIState::Statistics(*final(s.unwrap())),
                _ => s is None && *final(self) == *old(self),
            },
            final(self).previous_states == old(self).previous_states,
            final(self).state_history == old(self).state_history,
            final(self).max_history_size == old(self).max_history_size,
    {
        match &mut self.current_state {
            UIState::Statistics(state) => Some(state),
            _ => None,
        }
    }

    /// The settings state for changing, when settings are edited.
    pub fn as_mut_settings_state(&mut self) -> (s: Option<&mut SettingsState>)
        ensures
            match old(self).current_state {
                UIState::Settings(m) => s is Some && *s.unwrap() == m
                    && final(self).current_state == UIState::Settings(*final(s.unwrap())),
                _ => s is None && *final(self) == *old(self),
            },
            final(self).previous_states == old(self).previous_states,
            final(self).state_history == old(self).state_history,
            final(self).max_history_size == old(self).max_history_size,
    {
        match &mut self.current_state {
            UIState::Settings(state) => Some(state),
            _ => None,
        }
    }

    /// The settings state, when settings are edited.
    pub fn as_settings_state(&self) -> (s: Option<&SettingsState>)
        ensures
            match self.current_state {
                UIState::Settings(m) => s == Some(&m),
                _ => s is None,
            },
    {
        match &self.current_state {
            UIState::Settings(state) => Some(state),
            _ => None,
        }
    }
}

impl Default for UIStateManager {
    fn default() -> (m: UIStateManager)
        ensures
            m.previous_states@.len() == 0,
            m.state_history@.len() == 0,
            m.max_history_size == 50,
    {
        UIStateManager::new()
    }
}

/// Going back right after a transition returns to the state the transition
/// left, and the remembered states are those from before it, unless ten were
/// already remembered (the oldest is then forgotten).
pub proof fn lemma_back_undoes_transition(previous: Seq<UIState>, current: UIState)
    ensures
        remembered_after(previous, current).len() > 0,
        remembered_after(previous, current).last() == current,
        previous.len() < MAX_PREVIOUS_STATES ==> remembered_after(previous, current).drop_last() == previous,
{
    let p = previous.push(current);
    if p.len() > MAX_PREVIOUS_STATES {
        assert(p.subrange(1, p.len() as int).last() == current);
    } else {
        assert(p.drop_last() =~= previous);
    }
}

/// The level of a system message.
#[derive(Debug, Clone, Copy, PartialEq, Eq, Structural)]
pub enum MessageLevel {
    Info,
    Success,
    Warning,
    Error,
}

/// A message to the user: its level, text, when it was made (seconds since
/// the epoch), and after how many seconds it goes away by itself.
#[derive(Debug)]
pub struct SystemMessage {
    pub level: MessageLevel,
    pub content: String,
    pub timestamp: i64,
    pub auto_dismiss_secs: Option<u64>,
}

impl SystemMessage {
    /// Information, dismissed after five seconds.
    pub fn info(content: String) -> (m: SystemMessage)
        ensures
            m.level == MessageLevel::Info,
            m.content@ == content@,
            m.auto_dismiss_secs == Some(5u64),
    {
        SystemMessage { level: MessageLevel::Info, content, timestamp: now_unix_seconds(), auto_dismiss_secs: Some(5) }
    }

    /// A success, dismissed after three seconds.
    pub fn success(content: String) -> (m: SystemMessage)
        ensures
            m.level == MessageLevel::Success,
            m.content@ == content@,
            m.auto_dismiss_secs == Some(3u64),
    {
        SystemMessage {
            level: MessageLevel::Success,
            content,
            timestamp: now_unix_seconds(),
            auto_dismiss_secs: Some(3),
        }
    }

    /// A warning, dismissed after eight seconds.
    pub fn warning(content: String) -> (m: SystemMessage)
        ensures
            m.level == MessageLevel::Warning,
            m.content@ == content@,
            m.auto_dismiss_secs == Some(8u64),
    {
        SystemMessage {
            level: MessageLevel::Warning,
            content,
            timestamp: now_unix_seconds(),
            auto_dismiss_secs: Some(8),
        }
    }

    /// An error, which stays until dismissed.
    pub fn error(content: String) -> (m: SystemMessage)
        ensures
            m.level == MessageLevel::Error,
            m.content@ == content@,
            m.auto_dismiss_secs is None,
    {
        SystemMessage { level: MessageLevel::Error, content, timestamp: now_unix_seconds(), auto_dismiss_secs: None }
    }
}

} // verus!
