//! The application state store: current screen, navigation history,
//! selections, messages and the text-keyed interface values.
use vstd::prelude::*;
use vstd::string::*;
use crate::command::{CommandType, CommandKind, Screen};
use crate::model::{SessionState, UserPreferences};
use crate::tui_error::TuiResult;
use crate::text::{decimal, parse_i32, parse_i32_spec, str_eq, u64_to_text};
use crate::ui_map::UiMap;

verus! {

/// How urgent a message to the user is.
#[derive(Debug, Clone, Copy, PartialEq, Eq, Structural)]
pub enum MessageLevel {
    Info,
    Success,
    Warning,
    Error,
}

/// A message shown to the user.
#[derive(Debug)]
pub struct StoreMessage {
    pub level: MessageLevel,
    pub title: String,
    pub content: String,
}

impl StoreMessage {
    pub fn new(level: MessageLevel, title: &str, content: &str) -> (m: StoreMessage)
        ensures
            m.level == level,
            m.title@ == title@,
            m.content@ == content@,
    {
        StoreMessage { level, title: String::from_str(title), content: String::from_str(content) }
    }

    pub fn info(title: &str, content: &str) -> (m: StoreMessage)
        ensures
            m.level == MessageLevel::Info,
            m.title@ == title@,
            m.content@ == content@,
    {
        Self::new(MessageLevel::Info, title, content)
    }

    pub fn success(title: &str, content: &str) -> (m: StoreMessage)
        ensures
            m.level == MessageLevel::Success,
            m.title@ == title@,
            m.content@ == content@,
    {
        Self::new(MessageLevel::Success, title, content)
    }

    pub fn warning(title: &str, content: &str) -> (m: StoreMessage)
        ensures
            m.level == MessageLevel::Warning,
            m.title@ == title@,
            m.content@ == content@,
    {
        Self::new(MessageLevel::Warning, title, content)
    }

    pub fn error(title: &str, content: &str) -> (m: StoreMessage)
        ensures
            m.level == MessageLevel::Error,
            m.title@ == title@,
            m.content@ == content@,
    {
        Self::new(MessageLevel::Error, title, content)
    }
}

/// Number of entries of the main menu that the selection moves over.
pub const MAIN_MENU_ITEMS: usize = 5;

/// Number of entries of the settings menu.
pub const SETTINGS_ITEMS: usize = 5;

/// The state of the application as the interface keeps it.
#[derive(Debug)]
pub struct UiAppState {
    pub current_screen: Screen,
    pub navigation_history: Vec<Screen>,
    pub selected_deck_id: Option<u128>,
    pub current_session: Option<SessionState>,
    pub loading: bool,
    pub error: Option<String>,
    pub message: Option<StoreMessage>,
    pub ui_state: UiMap,
    pub action_history: Vec<String>,
    pub deck_list_selected: Option<usize>,
    pub user_preferences: UserPreferences,
    pub showing_answer: bool,
    pub current_card_study: bool,
    pub main_menu_selected: usize,
    pub settings_selected: usize,
}

/// The screen reached by going to `target` from `current`, and the history after it:
/// the current screen is remembered unless it is the target itself.
pub open spec fn history_after(current: Screen, target: Screen, history: Seq<Screen>) -> Seq<Screen> {
    if current != target {
        history.push(current)
    } else {
        history
    }
}

/// The interface value of a key read as an `i32`; absent or unreadable reads as 0.
pub open spec fn ui_i32(m: Map<Seq<char>, Seq<char>>, k: Seq<char>) -> int {
    if m.contains_key(k) {
        match parse_i32_spec(m[k]) {
            Some(v) => v,
            None => 0,
        }
    } else {
        0
    }
}

/// The interface value of a key read as a flag: true only when it is `"true"`;
/// absent reads as `default`.
pub open spec fn ui_flag(m: Map<Seq<char>, Seq<char>>, k: Seq<char>, default: bool) -> bool {
    if m.contains_key(k) {
        m[k] == "true"@
    } else {
        default
    }
}

/// The text of a flag.
pub open spec fn flag_text(b: bool) -> Seq<char> {
    if b {
        "true"@
    } else {
        "false"@
    }
}

/// The text of a flag.
pub fn bool_text(b: bool) -> (s: String)
    ensures
        s@ == flag_text(b),
{
    if b {
        String::from_str("true")
    } else {
        String::from_str("false")
    }
}

/// Whether a text is `"true"`.
pub fn is_true_text(s: &str) -> (b: bool)
    ensures
        b == (s@ == "true"@),
{
    str_eq(s, "true")
}

/// The previous screen for "back", as the helper computes it: a fixed parent
/// per screen; from help the last remembered screen (or the main menu).
pub open spec fn back_target(current: Screen, history: Seq<Screen>) -> Screen {
    match current {
        Screen::DeckSelection => Screen::MainMenu,
        Screen::StudySession => Screen::DeckSelection,
        Screen::CardEditor => Screen::DeckManagement,
        Screen::DeckManagement => Screen::DeckSelection,
        Screen::Statistics => Screen::MainMenu,
        Screen::Settings => Screen::MainMenu,
        Screen::Search => Screen::DeckSelection,
        Screen::Help => if history.len() > 0 {
            history.last()
        } else {
            Screen::MainMenu
        },
        Screen::TagManagement => Screen::Settings,
        Screen::MediaManagement => Screen::Settings,
        _ => current,
    }
}

impl UiAppState {
    /// The state is well formed: its interface values have unique keys.
    pub open spec fn wf(&self) -> bool {
        self.ui_state.wf()
    }

    /// The initial state: main menu, nothing selected, no message.
    pub fn new() -> (s: UiAppState)
        ensures
            s.wf(),
            s.current_screen == Screen::MainMenu,
            s.navigation_history@.len() == 0,
            s.selected_deck_id is None,
            s.current_session is None,
            !s.loading,
            s.error is None,
            s.message is None,
            s.ui_state@ == Map::<Seq<char>, Seq<char>>::empty(),
            s.deck_list_selected is None,
            !s.showing_answer,
            !s.current_card_study,
            s.main_menu_selected == 0,
            s.settings_selected == 0,
    {
        UiAppState {
            current_screen: Screen::MainMenu,
            navigation_history: Vec::new(),
            selected_deck_id: None,
            current_session: None,
            loading: false,
            error: None,
            message: None,
            ui_state: UiMap::new(),
            action_history: Vec::new(),
            deck_list_selected: None,
            user_preferences: UserPreferences::default(),
            showing_answer: false,
            current_card_study: false,
            main_menu_selected: 0,
            settings_selected: 0,
        }
    }

    /// The current screen.
    pub fn current_screen(&self) -> (s: Screen)
        ensures
            s == self.current_screen,
    {
        self.current_screen
    }

    /// Whether the answer of the current card is shown.
    pub fn is_showing_answer(&self) -> (b: bool)
        ensures
            b == self.showing_answer,
    {
        self.showing_answer
    }

    /// Whether a study session is running.
    pub fn is_study_session_active(&self) -> (b: bool)
        ensures
            b == self.current_session is Some,
    {
        self.current_session.is_some()
    }

    /// Goes to a screen, remembering the current one unless it is the target.
    pub fn navigate_to(&mut self, target: Screen)
        ensures
            final(self).current_screen == target,
            final(self).navigation_history@ == history_after(
                old(self).current_screen,
                target,
                old(self).navigation_history@,
            ),
            final(self).ui_state == old(self).ui_state,
            final(self).deck_list_selected == old(self).deck_list_selected,
            final(self).selected_deck_id == old(self).selected_deck_id,
            final(self).showing_answer == old(self).showing_answer,
            final(self).current_session == old(self).current_session,
            final(self).main_menu_selected == old(self).main_menu_selected,
            final(self).settings_selected == old(self).settings_selected,
            final(self).message == old(self).message,
            final(self).user_preferences == old(self).user_preferences,
            final(self).current_card_study == old(self).current_card_study,
            final(self).loading == old(self).loading,
            final(self).error == old(self).error,
            final(self).action_history == old(self).action_history,
    {
        if self.current_screen != target {
            let cur = self.current_screen;
            self.navigation_history.push(cur);
        }
        self.current_screen = target;
    }

    /// Returns to the last remembered screen, or to the main menu when none is.
    pub fn navigate_back(&mut self)
        ensures
            old(self).navigation_history@.len() > 0 ==> final(self).current_screen
                == old(self).navigation_history@.last() && final(self).navigation_history@
                == old(self).navigation_history@.drop_last(),
            old(self).navigation_history@.len() == 0 ==> final(self).current_screen
                == Screen::MainMenu && final(self).navigation_history@.len() == 0,
            final(self).ui_state == old(self).ui_state,
            final(self).deck_list_selected == old(self).deck_list_selected,
            final(self).selected_deck_id == old(self).selected_deck_id,
            final(self).showing_answer == old(self).showing_answer,
            final(self).current_session == old(self).current_session,
            final(self).message == old(self).message,
            final(self).user_preferences == old(self).user_preferences,
            final(self).current_card_study == old(self).current_card_study,
            final(self).main_menu_selected == old(self).main_menu_selected,
            final(self).settings_selected == old(self).settings_selected,
            final(self).loading == old(self).loading,
            final(self).error == old(self).error,
            final(self).action_history == old(self).action_history,
    {
        match self.navigation_history.pop() {
            Some(s) => {
                self.current_screen = s;
            },
            None => {
                self.current_screen = Screen::MainMenu;
            },
        }
    }

    /// Shows a message to the user.
    pub fn show_message(&mut self, message: StoreMessage)
        ensures
            final(self).message == Some(message),
            final(self).current_screen == old(self).current_screen,
            final(self).navigation_history == old(self).navigation_history,
            final(self).ui_state == old(self).ui_state,
            final(self).deck_list_selected == old(self).deck_list_selected,
            final(self).selected_deck_id == old(self).selected_deck_id,
            final(self).showing_answer == old(self).showing_answer,
            final(self).current_session == old(self).current_session,
            final(self).user_preferences == old(self).user_preferences,
    {
        self.message = Some(message);
    }

    /// Moves the main menu selection up, stopping at the first entry.
    pub fn navigate_main_menu_up(&mut self)
        ensures
            *final(self) == (UiAppState {
                main_menu_selected: if old(self).main_menu_selected > 0 {
                    (old(self).main_menu_selected - 1) as usize
                } else {
                    0
                },
                ..*old(self)
            }),
    {
        if self.main_menu_selected > 0 {
            self.main_menu_selected = self.main_menu_selected - 1;
        }
    }

    /// Moves the main menu selection down, stopping at the last entry.
    pub fn navigate_main_menu_down(&mut self)
        ensures
            *final(self) == (UiAppState {
                main_menu_selected: if old(self).main_menu_selected + 1 < MAIN_MENU_ITEMS {
                    (old(self).main_menu_selected + 1) as usize
                } else {
                    old(self).main_menu_selected
                },
                ..*old(self)
            }),
    {
        if self.main_menu_selected < MAIN_MENU_ITEMS - 1 {
            self.main_menu_selected = self.main_menu_selected + 1;
        }
    }

    /// Moves the settings selection up, stopping at the first entry.
    pub fn navigate_settings_up(&mut self)
        ensures
            *final(self) == (UiAppState {
                settings_selected: if old(self).settings_selected > 0 {
                    (old(self).settings_selected - 1) as usize
                } else {
                    0
                },
                ..*old(self)
            }),
    {
        if self.settings_selected > 0 {
            self.settings_selected = self.settings_selected - 1;
        }
    }

    /// Moves the settings selection down, stopping at the last entry.
    pub fn navigate_settings_down(&mut self)
        ensures
            *final(self) == (UiAppState {
                settings_selected: if old(self).settings_selected + 1 < SETTINGS_ITEMS {
                    (old(self).settings_selected + 1) as usize
                } else {
                    old(self).settings_selected
                },
                ..*old(self)
            }),
    {
        if self.settings_selected < SETTINGS_ITEMS - 1 {
            self.settings_selected = self.settings_selected + 1;
        }
    }
}

/// Goes back one screen, as the navigation helper does: see `back_target`.
pub fn handle_navigate_back(state: &mut UiAppState)
    ensures
        final(state).current_screen == back_target(
            old(state).current_screen,
            old(state).navigation_history@,
        ),
        final(state).navigation_history@ == history_after(
            old(state).current_screen,
            back_target(old(state).current_screen, old(state).navigation_history@),
            old(state).navigation_history@,
        ),
        final(state).ui_state == old(state).ui_state,
{
    let current = state.current_screen;
    let previous = match current {
        Screen::DeckSelection => Screen::MainMenu,
        Screen::StudySession => Screen::DeckSelection,
        Screen::CardEditor => Screen::DeckManagement,
        Screen::DeckManagement => Screen::DeckSelection,
        Screen::Statistics => Screen::MainMenu,
        Screen::Settings => Screen::MainMenu,
        Screen::Search => Screen::DeckSelection,
        Screen::Help => {
            let n = state.navigation_history.len();
            if n > 0 {
                state.navigation_history[n - 1]
            } else {
                Screen::MainMenu
            }
        },
        Screen::TagManagement => Screen::Settings,
        Screen::MediaManagement => Screen::Settings,
        _ => current,
    };
    state.navigate_to(previous);
}

/// Handles the simple navigation commands (main menu, help, back);
/// returns whether the command was one of them.
pub fn handle_simple_navigation(state: &mut UiAppState, command: &CommandType) -> (handled: bool)
    ensures
        handled == (command@ is NavigateToMainMenu || command@ is ShowHelp || command@ is NavigateBack),
        command@ is NavigateToMainMenu ==> final(state).current_screen == Screen::MainMenu,
        command@ is ShowHelp ==> final(state).current_screen == Screen::Help,
        command@ is NavigateBack ==> final(state).current_screen == back_target(
            old(state).current_screen,
            old(state).navigation_history@,
        ),
        !handled ==> *final(state) == *old(state),
        final(state).ui_state == old(state).ui_state,
{
    match command {
        CommandKind::NavigateToMainMenu => {
            state.navigate_to(Screen::MainMenu);
            true
        },
        CommandKind::ShowHelp => {
            state.navigate_to(Screen::Help);
            true
        },
        CommandKind::NavigateBack => {
            handle_navigate_back(state);
            true
        },
        _ => false,
    }
}

/// Goes to a screen.
pub fn handle_screen_navigation(state: &mut UiAppState, screen: Screen)
    ensures
        final(state).current_screen == screen,
        final(state).navigation_history@ == history_after(
            old(state).current_screen,
            screen,
            old(state).navigation_history@,
        ),
        final(state).ui_state == old(state).ui_state,
{
    state.navigate_to(screen);
}

/// Goes to a screen, remembering the current one unless it is the target.
pub fn navigate_with_history(state: &mut UiAppState, target_screen: Screen)
    ensures
        final(state).current_screen == target_screen,
        final(state).navigation_history@ == history_after(
            old(state).current_screen,
            target_screen,
            old(state).navigation_history@,
        ),
        final(state).ui_state == old(state).ui_state,
{
    state.navigate_to(target_screen);
}

/// The new value of a counter after adding `increment`, never below zero.
pub open spec fn counter_after(current: int, increment: int) -> int {
    if current + increment > 0 {
        current + increment
    } else {
        0
    }
}

/// Adds `increment` to an integer interface value (absent or unreadable
/// counts as 0), keeping it at least 0.
pub fn update_numeric_ui_state(state: &mut UiAppState, key: &str, increment: i32)
    requires
        old(state).wf(),
        i32::MIN <= ui_i32(old(state).ui_state@, key@) + increment <= i32::MAX,
    ensures
        final(state).wf(),
        final(state).ui_state@ == old(state).ui_state@.insert(
            key@,
            decimal(counter_after(ui_i32(old(state).ui_state@, key@), increment as int) as nat),
        ),
        final(state).current_screen == old(state).current_screen,
        final(state).navigation_history == old(state).navigation_history,
{
    let current: i32 = match state.ui_state.get(key) {
        Some(s) => match parse_i32(s.as_str()) {
            Some(v) => v,
            None => 0,
        },
        None => 0,
    };
    let new_value: i32 = numeric_state_update(current, increment);
    let text = u64_to_text(new_value as u64);
    state.ui_state.insert(String::from_str(key), text);
}

/// The counter update: `current + increment`, never below zero.
pub fn numeric_state_update(current: i32, increment: i32) -> (r: i32)
    requires
        i32::MIN <= current + increment <= i32::MAX,
    ensures
        r as int == counter_after(current as int, increment as int),
        r >= 0,
{
    let v = current + increment;
    if v > 0 {
        v
    } else {
        0
    }
}

/// Flips a flag interface value (absent counts as false).
pub fn toggle_boolean_ui_state(state: &mut UiAppState, key: &str)
    requires
        old(state).wf(),
    ensures
        final(state).wf(),
        final(state).ui_state@ == old(state).ui_state@.insert(
            key@,
            flag_text(!ui_flag(old(state).ui_state@, key@, false)),
        ),
        final(state).current_screen == old(state).current_screen,
{
    let current = match state.ui_state.get(key) {
        Some(s) => is_true_text(s.as_str()),
        None => false,
    };
    state.ui_state.insert(String::from_str(key), bool_text(!current));
}

/// Puts the store on the main menu with no loading, error or message.
pub fn initialize_state(state: &mut UiAppState)
    ensures
        final(state).current_screen == Screen::MainMenu,
        !final(state).loading,
        final(state).error is None,
        final(state).message is None,
        final(state).ui_state == old(state).ui_state,
        final(state).navigation_history == old(state).navigation_history,
        final(state).selected_deck_id == old(state).selected_deck_id,
{
    state.current_screen = Screen::MainMenu;
    state.loading = false;
    state.error = None;
    state.message = None;
}

/// Resets the store: main menu, nothing selected, no session, message,
/// interface values or history.
pub fn reset_state(state: &mut UiAppState)
    ensures
        final(state).wf(),
        final(state).current_screen == Screen::MainMenu,
        final(state).selected_deck_id is None,
        final(state).current_session is None,
        !final(state).loading,
        final(state).error is None,
        final(state).message is None,
        final(state).ui_state@ == Map::<Seq<char>, Seq<char>>::empty(),
        final(state).action_history@.len() == 0,
        final(state).navigation_history@.len() == 0,
{
    state.current_screen = Screen::MainMenu;
    state.selected_deck_id = None;
    state.current_session = None;
    state.loading = false;
    state.error = None;
    state.message = None;
    state.ui_state.clear();
    state.action_history = Vec::new();
    state.navigation_history = Vec::new();
}

/// Shows a message.
pub fn show_message(state: &mut UiAppState, message: StoreMessage)
    ensures
        final(state).message == Some(message),
        final(state).current_screen == old(state).current_screen,
        final(state).ui_state == old(state).ui_state,
{
    state.show_message(message);
}

/// Shows an informational message about an operation on a card.
pub fn show_card_operation_message(state: &mut UiAppState, operation: &str, description: &str) -> (r: TuiResult<()>)
    ensures
        r is Ok,
        final(state).message matches Some(m) && m.level == MessageLevel::Info && m.title@ == operation@
            && m.content@ == description@,
        final(state).current_screen == old(state).current_screen,
        final(state).ui_state == old(state).ui_state,
        final(state).showing_answer == old(state).showing_answer,
{
    state.show_message(StoreMessage::info(operation, description));
    Ok(())
}

/// Shows a warning about an operation on a card.
pub fn show_card_operation_warning(state: &mut UiAppState, operation: &str, description: &str) -> (r: TuiResult<()>)
    ensures
        r is Ok,
        final(state).message matches Some(m) && m.level == MessageLevel::Warning && m.title@ == operation@
            && m.content@ == description@,
        final(state).current_screen == old(state).current_screen,
        final(state).ui_state == old(state).ui_state,
        final(state).showing_answer == old(state).showing_answer,
{
    state.show_message(StoreMessage::warning(operation, description));
    Ok(())
}

/// Hides the answer after an operation on a card; the session then moves
/// on to the next card.
pub fn reset_study_ui_state(state: &mut UiAppState)
    ensures
        *final(state) == (UiAppState { showing_answer: false, ..*old(state) }),
{
    state.showing_answer = false;
}

} // verus!
