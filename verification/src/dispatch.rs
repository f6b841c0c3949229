//! Turning terminal events into application commands, depending on the screen.
use vstd::prelude::*;
use crate::command::{
    CardRating, Command, CommandKind, CommandSource, CommandTypeView, CommandView, Screen, system_cmd, user_cmd,
};
use crate::input::{KeyCode, KeyInput, KeyModifiers};
use crate::store::UiAppState;
use crate::text::{char_to_string, str_contains_char};

verus! {

/// A mouse button.
#[derive(Debug, Clone, Copy, PartialEq, Eq, Structural)]
pub enum MouseButton {
    Left,
    Right,
    Middle,
}

/// What the mouse did.
#[derive(Debug, Clone, Copy, PartialEq, Eq, Structural)]
pub enum MouseEventKind {
    Down(MouseButton),
    Up(MouseButton),
    Drag(MouseButton),
    Moved,
    ScrollDown,
    ScrollUp,
    ScrollLeft,
    ScrollRight,
}

/// A mouse event at a terminal cell.
#[derive(Debug, Clone, Copy, PartialEq, Eq, Structural)]
pub struct MouseInput {
    pub kind: MouseEventKind,
    pub column: u16,
    pub row: u16,
}

/// A terminal event.
#[derive(Debug)]
pub enum Event {
    Key(KeyInput),
    Mouse(MouseInput),
    Resize(u16, u16),
    FocusGained,
    FocusLost,
    Paste(String),
}

/// What the handlers read of the application state.
pub struct StateFacts {
    pub screen: Screen,
    pub showing_answer: bool,
    pub session_active: bool,
}

pub open spec fn facts_of(s: UiAppState) -> StateFacts {
    StateFacts {
        screen: s.current_screen,
        showing_answer: s.showing_answer,
        session_active: s.current_session is Some,
    }
}

pub open spec fn u(t: CommandTypeView) -> CommandView {
    user_cmd(t)
}

pub open spec fn nav_up_spec(screen: Screen) -> CommandView {
    match screen {
        Screen::DeckSelection => u(CommandKind::SelectPreviousDeck),
        _ => u(CommandKind::NavigateUp),
    }
}

pub open spec fn nav_down_spec(screen: Screen) -> CommandView {
    match screen {
        Screen::DeckSelection => u(CommandKind::SelectNextDeck),
        _ => u(CommandKind::NavigateDown),
    }
}

pub open spec fn answer_or_good(showing_answer: bool) -> CommandView {
    if showing_answer {
        u(CommandKind::RateCurrentCard(CardRating::Good))
    } else {
        u(CommandKind::ShowAnswer)
    }
}

pub open spec fn select_spec(screen: Screen, f: StateFacts) -> CommandView {
    match screen {
        Screen::MainMenu => u(CommandKind::Confirm),
        Screen::DeckSelection => u(CommandKind::StartStudySessionDefault),
        Screen::StudySession => answer_or_good(f.showing_answer),
        Screen::CardEditor => u(CommandKind::SaveCard),
        Screen::Settings => u(CommandKind::ConfirmSetting),
        _ => u(CommandKind::Select),
    }
}

pub open spec fn space_spec(screen: Screen, f: StateFacts) -> CommandView {
    match screen {
        Screen::StudySession => answer_or_good(f.showing_answer),
        Screen::DeckSelection => u(CommandKind::SelectDeck(0)),
        Screen::CardEditor => u(CommandKind::ToggleCardSide),
        _ => u(CommandKind::Select),
    }
}

pub open spec fn escape_spec(screen: Screen, f: StateFacts) -> CommandView {
    match screen {
        Screen::StudySession => if f.session_active {
            u(CommandKind::EndStudySession)
        } else {
            u(CommandKind::NavigateToMainMenu)
        },
        Screen::CardEditor => u(CommandKind::CancelEdit),
        Screen::Settings | Screen::Statistics | Screen::Help | Screen::Search => u(
            CommandKind::NavigateToMainMenu,
        ),
        _ => u(CommandKind::NavigateBack),
    }
}

pub open spec fn refresh_spec(screen: Screen) -> CommandView {
    match screen {
        Screen::DeckSelection => u(CommandKind::LoadDecks),
        Screen::Statistics => u(CommandKind::RefreshStatistics),
        Screen::StudySession => u(CommandKind::RefreshSession),
        _ => u(CommandKind::RefreshScreen),
    }
}

pub open spec fn search_spec(screen: Screen) -> CommandView {
    match screen {
        Screen::DeckSelection => u(CommandKind::SearchDecks(Seq::empty())),
        Screen::StudySession => u(CommandKind::SearchCards(Seq::empty())),
        _ => u(CommandKind::StartSearch),
    }
}

pub open spec fn create_spec(screen: Screen) -> CommandView {
    match screen {
        Screen::StudySession => u(CommandKind::CreateCardPrompt),
        _ => u(CommandKind::CreateDeckPrompt),
    }
}

pub open spec fn delete_spec(screen: Screen) -> CommandView {
    match screen {
        Screen::DeckSelection => u(CommandKind::DeleteDeckPrompt),
        _ => u(CommandKind::DeleteCard(0)),
    }
}

pub open spec fn page_up_spec(screen: Screen) -> CommandView {
    match screen {
        Screen::Statistics => u(CommandKind::ScrollStatsUp),
        _ => u(CommandKind::NavigatePageUp),
    }
}

pub open spec fn page_down_spec(screen: Screen) -> CommandView {
    match screen {
        Screen::Statistics => u(CommandKind::ScrollStatsDown),
        _ => u(CommandKind::NavigatePageDown),
    }
}

pub open spec fn tab_spec(screen: Screen) -> CommandView {
    match screen {
        Screen::Settings => u(CommandKind::NavigateRight),
        Screen::CardEditor | Screen::Search => u(CommandKind::ToggleCardSide),
        Screen::StudySession => u(CommandKind::SkipCurrentCard),
        _ => u(CommandKind::NavigateDown),
    }
}

pub open spec fn shift_tab_spec(screen: Screen) -> CommandView {
    match screen {
        Screen::Settings => u(CommandKind::NavigateLeft),
        Screen::CardEditor => u(CommandKind::ToggleCardSide),
        _ => u(CommandKind::NavigateUp),
    }
}

/// The command of a key press on a screen, in the order in which the
/// bindings are tried: plain navigation and selection keys, main-menu and
/// study shortcuts, escape, global quit and help, refresh, search, create,
/// delete, and text input on the search screen.
pub open spec fn key_command(key: KeyInput, f: StateFacts) -> CommandView {
    let screen = f.screen;
    let none = key.modifiers == KeyModifiers::spec_none();
    let shift = key.modifiers == KeyModifiers::only(true, false);
    let ctrl = key.modifiers == KeyModifiers::only(false, true);
    match key.code {
        KeyCode::Up if none => nav_up_spec(screen),
        KeyCode::Down if none => nav_down_spec(screen),
        KeyCode::Left if none => u(CommandKind::NavigateLeft),
        KeyCode::Right if none => u(CommandKind::NavigateRight),
        KeyCode::PageUp if none => page_up_spec(screen),
        KeyCode::PageDown if none => page_down_spec(screen),
        KeyCode::Home if none => u(CommandKind::NavigateHome),
        KeyCode::End if none => u(CommandKind::NavigateEnd),
        KeyCode::Enter if none => select_spec(screen, f),
        KeyCode::Char(' ') if none => space_spec(screen, f),
        KeyCode::Tab if none => tab_spec(screen),
        KeyCode::BackTab if shift => shift_tab_spec(screen),
        KeyCode::Char(c) if none && screen == Screen::MainMenu && ('1' <= c <= '5' || c == '/') =>
            if c == '1' {
                u(CommandKind::NavigateTo(Screen::DeckSelection))
            } else if c == '2' {
                u(CommandKind::NavigateTo(Screen::DeckManagement))
            } else if c == '3' {
                u(CommandKind::NavigateTo(Screen::Statistics))
            } else if c == '4' {
                u(CommandKind::NavigateTo(Screen::Settings))
            } else if c == '5' {
                u(CommandKind::Quit)
            } else {
                u(CommandKind::StartSearch)
            },
        KeyCode::Char(c) if none && screen == Screen::StudySession && '1' <= c <= '4' =>
            if c == '1' {
                u(CommandKind::RateCurrentCard(CardRating::Again))
            } else if c == '2' {
                u(CommandKind::RateCurrentCard(CardRating::Hard))
            } else if c == '3' {
                u(CommandKind::RateCurrentCard(CardRating::Good))
            } else {
                u(CommandKind::RateCurrentCard(CardRating::Easy))
            },
        KeyCode::Esc if none => escape_spec(screen, f),
        KeyCode::Char(c) if ctrl && (c == 'q' || c == 'c') => u(CommandKind::Quit),
        KeyCode::F(1) if none => u(CommandKind::ShowHelp),
        KeyCode::Char('?') if none => u(CommandKind::ShowHelp),
        KeyCode::F(5) if none => refresh_spec(screen),
        KeyCode::Char('/') if none => search_spec(screen),
        KeyCode::Char('n') if ctrl => create_spec(screen),
        KeyCode::Delete if none => delete_spec(screen),
        KeyCode::Backspace if ctrl => delete_spec(screen),
        KeyCode::Char(c) if none && screen == Screen::Search => u(CommandKind::SearchDecks(seq![c])),
        _ => u(CommandKind::Unknown),
    }
}

/// The command of a left click: on the study screen with the answer shown,
/// a click on a rating button rates the card; any other click there shows
/// the answer; elsewhere the click itself is the command.
pub open spec fn left_click_spec(x: u16, y: u16, f: StateFacts) -> CommandView {
    match f.screen {
        Screen::StudySession => if f.showing_answer && 10 <= y <= 14 {
            if 10 <= x <= 15 {
                u(CommandKind::RateCurrentCard(CardRating::Again))
            } else if 17 <= x <= 22 {
                u(CommandKind::RateCurrentCard(CardRating::Hard))
            } else if 24 <= x <= 29 {
                u(CommandKind::RateCurrentCard(CardRating::Good))
            } else if 31 <= x <= 36 {
                u(CommandKind::RateCurrentCard(CardRating::Easy))
            } else {
                u(CommandKind::ShowAnswer)
            }
        } else {
            u(CommandKind::ShowAnswer)
        },
        _ => u(CommandKind::Click(x, y)),
    }
}

pub open spec fn right_click_spec(x: u16, y: u16, screen: Screen) -> CommandView {
    match screen {
        Screen::DeckSelection => u(CommandKind::ShowDeckContextMenu(x, y)),
        Screen::StudySession => u(CommandKind::ShowCardContextMenu(x, y)),
        _ => u(CommandKind::RightClick(x, y)),
    }
}

pub open spec fn scroll_up_spec(screen: Screen) -> CommandView {
    match screen {
        Screen::DeckSelection => u(CommandKind::SelectPreviousDeck),
        Screen::Statistics => u(CommandKind::ScrollStatsUp),
        _ => u(CommandKind::ScrollUp),
    }
}

pub open spec fn scroll_down_spec(screen: Screen) -> CommandView {
    match screen {
        Screen::DeckSelection => u(CommandKind::SelectNextDeck),
        Screen::Statistics => u(CommandKind::ScrollStatsDown),
        _ => u(CommandKind::ScrollDown),
    }
}

/// The command of a mouse event.
pub open spec fn mouse_command(m: MouseInput, f: StateFacts) -> CommandView {
    match m.kind {
        MouseEventKind::Down(MouseButton::Left) => left_click_spec(m.column, m.row, f),
        MouseEventKind::Down(MouseButton::Right) => right_click_spec(m.column, m.row, f.screen),
        MouseEventKind::ScrollUp => scroll_up_spec(f.screen),
        MouseEventKind::ScrollDown => scroll_down_spec(f.screen),
        MouseEventKind::Moved => u(CommandKind::MouseMove(m.column, m.row)),
        _ => u(CommandKind::Unknown),
    }
}

/// The command of pasted text: card content in the editor, an import when
/// several lines are pasted on the deck list, a plain paste otherwise.
pub open spec fn paste_command(content: Seq<char>, screen: Screen) -> CommandView {
    if screen == Screen::CardEditor {
        u(CommandKind::PasteCardContent(content))
    } else if screen == Screen::DeckSelection && content.contains('\n') {
        u(CommandKind::ImportCards(content))
    } else {
        system_cmd(CommandKind::Paste(content))
    }
}

fn handle_navigation_up(screen: Screen) -> (c: Command)
    ensures
        c@ == nav_up_spec(screen),
{
    match screen {
        Screen::DeckSelection => Command::user(CommandKind::SelectPreviousDeck),
        _ => Command::user(CommandKind::NavigateUp),
    }
}

fn handle_navigation_down(screen: Screen) -> (c: Command)
    ensures
        c@ == nav_down_spec(screen),
{
    match screen {
        Screen::DeckSelection => Command::user(CommandKind::SelectNextDeck),
        _ => Command::user(CommandKind::NavigateDown),
    }
}

/// Left: the same command on every screen.
fn handle_navigation_left(screen: Screen) -> (c: Command)
    ensures
        c@ == u(CommandKind::NavigateLeft),
{
    Command::user(CommandKind::NavigateLeft)
}

/// Right: the same command on every screen.
fn handle_navigation_right(screen: Screen) -> (c: Command)
    ensures
        c@ == u(CommandKind::NavigateRight),
{
    Command::user(CommandKind::NavigateRight)
}

/// Home: the same command on every screen.
fn handle_home(screen: Screen) -> (c: Command)
    ensures
        c@ == u(CommandKind::NavigateHome),
{
    Command::user(CommandKind::NavigateHome)
}

/// End: the same command on every screen.
fn handle_end(screen: Screen) -> (c: Command)
    ensures
        c@ == u(CommandKind::NavigateEnd),
{
    Command::user(CommandKind::NavigateEnd)
}

fn answer_or_good_cmd(showing_answer: bool) -> (c: Command)
    ensures
        c@ == answer_or_good(showing_answer),
{
    if showing_answer {
        Command::user(CommandKind::RateCurrentCard(CardRating::Good))
    } else {
        Command::user(CommandKind::ShowAnswer)
    }
}

fn handle_select_contextual(screen: Screen, state: &UiAppState) -> (c: Command)
    ensures
        c@ == select_spec(screen, facts_of(*state)),
{
    match screen {
        Screen::MainMenu => Command::user(CommandKind::Confirm),
        Screen::DeckSelection => Command::user(CommandKind::StartStudySessionDefault),
        Screen::StudySession => answer_or_good_cmd(state.is_showing_answer()),
        Screen::CardEditor => Command::user(CommandKind::SaveCard),
        Screen::Settings => Command::user(CommandKind::ConfirmSetting),
        _ => Command::user(CommandKind::Select),
    }
}

fn handle_space_contextual(screen: Screen, state: &UiAppState) -> (c: Command)
    ensures
        c@ == space_spec(screen, facts_of(*state)),
{
    match screen {
        Screen::StudySession => answer_or_good_cmd(state.is_showing_answer()),
        Screen::DeckSelection => Command::user(CommandKind::SelectDeck(0)),
        Screen::CardEditor => Command::user(CommandKind::ToggleCardSide),
        _ => Command::user(CommandKind::Select),
    }
}

fn handle_escape_contextual(screen: Screen, state: &UiAppState) -> (c: Command)
    ensures
        c@ == escape_spec(screen, facts_of(*state)),
{
    match screen {
        Screen::StudySession => {
            if state.is_study_session_active() {
                Command::user(CommandKind::EndStudySession)
            } else {
                Command::user(CommandKind::NavigateToMainMenu)
            }
        },
        Screen::CardEditor => Command::user(CommandKind::CancelEdit),
        Screen::Settings => Command::user(CommandKind::NavigateToMainMenu),
        Screen::Statistics => Command::user(CommandKind::NavigateToMainMenu),
        Screen::Help => Command::user(CommandKind::NavigateToMainMenu),
        Screen::Search => Command::user(CommandKind::NavigateToMainMenu),
        _ => Command::user(CommandKind::NavigateBack),
    }
}

fn handle_refresh_contextual(screen: Screen) -> (c: Command)
    ensures
        c@ == refresh_spec(screen),
{
    match screen {
        Screen::DeckSelection => Command::user(CommandKind::LoadDecks),
        Screen::Statistics => Command::user(CommandKind::RefreshStatistics),
        Screen::StudySession => Command::user(CommandKind::RefreshSession),
        _ => Command::user(CommandKind::RefreshScreen),
    }
}

fn handle_search_contextual(screen: Screen) -> (c: Command)
    ensures
        c@ == search_spec(screen),
{
    match screen {
        Screen::DeckSelection => Command::user(CommandKind::SearchDecks(String::new())),
        Screen::StudySession => Command::user(CommandKind::SearchCards(String::new())),
        _ => Command::user(CommandKind::StartSearch),
    }
}

fn handle_create_contextual(screen: Screen) -> (c: Command)
    ensures
        c@ == create_spec(screen),
{
    match screen {
        Screen::DeckSelection => Command::user(CommandKind::CreateDeckPrompt),
        Screen::StudySession => Command::user(CommandKind::CreateCardPrompt),
        _ => Command::user(CommandKind::CreateDeckPrompt),
    }
}

fn handle_delete_contextual(screen: Screen) -> (c: Command)
    ensures
        c@ == delete_spec(screen),
{
    match screen {
        Screen::DeckSelection => Command::user(CommandKind::DeleteDeckPrompt),
        Screen::CardEditor => Command::user(CommandKind::DeleteCard(0)),
        _ => Command::user(CommandKind::DeleteCard(0)),
    }
}

fn handle_page_up(screen: Screen) -> (c: Command)
    ensures
        c@ == page_up_spec(screen),
{
    match screen {
        Screen::Statistics => Command::user(CommandKind::ScrollStatsUp),
        _ => Command::user(CommandKind::NavigatePageUp),
    }
}

fn handle_page_down(screen: Screen) -> (c: Command)
    ensures
        c@ == page_down_spec(screen),
{
    match screen {
        Screen::Statistics => Command::user(CommandKind::ScrollStatsDown),
        _ => Command::user(CommandKind::NavigatePageDown),
    }
}

fn handle_tab(screen: Screen) -> (c: Command)
    ensures
        c@ == tab_spec(screen),
{
    match screen {
        Screen::Settings => Command::user(CommandKind::NavigateRight),
        Screen::CardEditor => Command::user(CommandKind::ToggleCardSide),
        Screen::StudySession => Command::user(CommandKind::SkipCurrentCard),
        Screen::Search => Command::user(CommandKind::ToggleCardSide),
        _ => Command::user(CommandKind::NavigateDown),
    }
}

fn handle_shift_tab(screen: Screen) -> (c: Command)
    ensures
        c@ == shift_tab_spec(screen),
{
    match screen {
        Screen::Settings => Command::user(CommandKind::NavigateLeft),
        Screen::CardEditor => Command::user(CommandKind::ToggleCardSide),
        _ => Command::user(CommandKind::NavigateUp),
    }
}

/// The command of a key press, depending on the screen and the study state.
pub fn handle_key_event_contextual(event: KeyInput, state: &UiAppState) -> (c: Command)
    ensures
        c@ == key_command(event, facts_of(*state)),
{
    let screen = state.current_screen();
    let none = event.modifiers.is_none();
    let shift = event.modifiers.is_shift();
    let ctrl = event.modifiers.is_control();
    match event.code {
        KeyCode::Up if none => handle_navigation_up(screen),
        KeyCode::Down if none => handle_navigation_down(screen),
        KeyCode::Left if none => handle_navigation_left(screen),
        KeyCode::Right if none => handle_navigation_right(screen),
        KeyCode::PageUp if none => handle_page_up(screen),
        KeyCode::PageDown if none => handle_page_down(screen),
        KeyCode::Home if none => handle_home(screen),
        KeyCode::End if none => handle_end(screen),
        KeyCode::Enter if none => handle_select_contextual(screen, state),
        KeyCode::Char(' ') if none => handle_space_contextual(screen, state),
        KeyCode::Tab if none => handle_tab(screen),
        KeyCode::BackTab if shift => handle_shift_tab(screen),
        KeyCode::Char(c) if none && screen == Screen::MainMenu && (('1' <= c && c <= '5') || c
            == '/') => {
            if c == '1' {
                Command::user(CommandKind::NavigateTo(Screen::DeckSelection))
            } else if c == '2' {
                Command::user(CommandKind::NavigateTo(Screen::DeckManagement))
            } else if c == '3' {
                Command::user(CommandKind::NavigateTo(Screen::Statistics))
            } else if c == '4' {
                Command::user(CommandKind::NavigateTo(Screen::Settings))
            } else if c == '5' {
                Command::user(CommandKind::Quit)
            } else {
                Command::user(CommandKind::StartSearch)
            }
        },
        KeyCode::Char(c) if none && screen == Screen::StudySession && '1' <= c && c <= '4' => {
            if c == '1' {
                Command::user(CommandKind::RateCurrentCard(CardRating::Again))
            } else if c == '2' {
                Command::user(CommandKind::RateCurrentCard(CardRating::Hard))
            } else if c == '3' {
                Command::user(CommandKind::RateCurrentCard(CardRating::Good))
            } else {
                Command::user(CommandKind::RateCurrentCard(CardRating::Easy))
            }
        },
        KeyCode::Esc if none => handle_escape_contextual(screen, state),
        KeyCode::Char(c) if ctrl && (c == 'q' || c == 'c') => Command::user(CommandKind::Quit),
        KeyCode::F(1) if none => Command::user(CommandKind::ShowHelp),
        KeyCode::Char('?') if none => Command::user(CommandKind::ShowHelp),
        KeyCode::F(5) if none => handle_refresh_contextual(screen),
        KeyCode::Char('/') if none => handle_search_contextual(screen),
        KeyCode::Char('n') if ctrl => handle_create_contextual(screen),
        KeyCode::Delete if none => handle_delete_contextual(screen),
        KeyCode::Backspace if ctrl => handle_delete_contextual(screen),
        KeyCode::Char(c) if none && screen == Screen::Search => {
            Command::user(CommandKind::SearchDecks(char_to_string(c)))
        },
        _ => Command::user(CommandKind::Unknown),
    }
}

fn handle_left_click_contextual(x: u16, y: u16, state: &UiAppState) -> (c: Command)
    ensures
        c@ == left_click_spec(x, y, facts_of(*state)),
{
    match state.current_screen() {
        Screen::StudySession => {
            if state.is_showing_answer() {
                if y >= 10 && y <= 14 {
                    if 10 <= x && x <= 15 {
                        Command::user(CommandKind::RateCurrentCard(CardRating::Again))
                    } else if 17 <= x && x <= 22 {
                        Command::user(CommandKind::RateCurrentCard(CardRating::Hard))
                    } else if 24 <= x && x <= 29 {
                        Command::user(CommandKind::RateCurrentCard(CardRating::Good))
                    } else if 31 <= x && x <= 36 {
                        Command::user(CommandKind::RateCurrentCard(CardRating::Easy))
                    } else {
                        Command::user(CommandKind::ShowAnswer)
                    }
                } else {
                    Command::user(CommandKind::ShowAnswer)
                }
            } else {
                Command::user(CommandKind::ShowAnswer)
            }
        },
        _ => Command::user(CommandKind::Click(x, y)),
    }
}

fn handle_right_click_contextual(x: u16, y: u16, screen: Screen) -> (c: Command)
    ensures
        c@ == right_click_spec(x, y, screen),
{
    match screen {
        Screen::DeckSelection => Command::user(CommandKind::ShowDeckContextMenu(x, y)),
        Screen::StudySession => Command::user(CommandKind::ShowCardContextMenu(x, y)),
        _ => Command::user(CommandKind::RightClick(x, y)),
    }
}

fn handle_scroll_up_contextual(screen: Screen) -> (c: Command)
    ensures
        c@ == scroll_up_spec(screen),
{
    match screen {
        Screen::DeckSelection => Command::user(CommandKind::SelectPreviousDeck),
        Screen::CardEditor => Command::user(CommandKind::ScrollUp),
        Screen::Statistics => Command::user(CommandKind::ScrollStatsUp),
        _ => Command::user(CommandKind::ScrollUp),
    }
}

fn handle_scroll_down_contextual(screen: Screen) -> (c: Command)
    ensures
        c@ == scroll_down_spec(screen),
{
    match screen {
        Screen::DeckSelection => Command::user(CommandKind::SelectNextDeck),
        Screen::CardEditor => Command::user(CommandKind::ScrollDown),
        Screen::Statistics => Command::user(CommandKind::ScrollStatsDown),
        _ => Command::user(CommandKind::ScrollDown),
    }
}

/// The command of a mouse event, depending on the screen.
pub fn handle_mouse_event_contextual(event: MouseInput, state: &UiAppState) -> (c: Command)
    ensures
        c@ == mouse_command(event, facts_of(*state)),
{
    let screen = state.current_screen();
    match event.kind {
        MouseEventKind::Down(MouseButton::Left) => handle_left_click_contextual(
            event.column,
            event.row,
            state,
        ),
        MouseEventKind::Down(MouseButton::Right) => handle_right_click_contextual(
            event.column,
            event.row,
            screen,
        ),
        MouseEventKind::ScrollUp => handle_scroll_up_contextual(screen),
        MouseEventKind::ScrollDown => handle_scroll_down_contextual(screen),
        MouseEventKind::Moved => Command::user(CommandKind::MouseMove(event.column, event.row)),
        _ => Command::user(CommandKind::Unknown),
    }
}

/// The command of pasted text, depending on the screen.
pub fn handle_paste_contextual(content: String, state: &UiAppState) -> (c: Command)
    ensures
        c@ == paste_command(content@, state.current_screen),
{
    let screen = state.current_screen();
    match screen {
        Screen::CardEditor => Command::user(CommandKind::PasteCardContent(content)),
        Screen::DeckSelection if str_contains_char(content.as_str(), '\n') => {
            Command::user(CommandKind::ImportCards(content))
        },
        _ => Command::system(CommandKind::Paste(content)),
    }
}

/// The command of a terminal event.
pub open spec fn event_command(e: Event, f: StateFacts) -> CommandView {
    match e {
        Event::Key(k) => key_command(k, f),
        Event::Mouse(m) => mouse_command(m, f),
        Event::Resize(w, h) => system_cmd(CommandKind::Resize(w, h)),
        Event::FocusGained => system_cmd(CommandKind::FocusGained),
        Event::FocusLost => system_cmd(CommandKind::FocusLost),
        Event::Paste(s) => paste_command(s@, f.screen),
    }
}

/// The command of a terminal event, depending on the current state.
pub fn handle_event_with_state(event: Event, state: &UiAppState) -> (c: Command)
    ensures
        c@ == event_command(event, facts_of(*state)),
{
    match event {
        Event::Key(k) => handle_key_event_contextual(k, state),
        Event::Mouse(m) => handle_mouse_event_contextual(m, state),
        Event::Resize(w, h) => Command::system(CommandKind::Resize(w, h)),
        Event::FocusGained => Command::system(CommandKind::FocusGained),
        Event::FocusLost => Command::system(CommandKind::FocusLost),
        Event::Paste(content) => handle_paste_contextual(content, state),
    }
}

/// On the study screen the unmodified digit keys 1, 2, 3 and 4 rate the
/// card Again, Hard, Good and Easy, in that order, whatever the answer and
/// the session.
pub proof fn lemma_study_digits_rate_in_order(f: StateFacts)
    requires
        f.screen == Screen::StudySession,
    ensures
        key_command(KeyInput { code: KeyCode::Char('1'), modifiers: KeyModifiers::spec_none() }, f) == (CommandView {
            command_type: CommandKind::RateCurrentCard(CardRating::Again),
            source: CommandSource::User,
        }),
        key_command(KeyInput { code: KeyCode::Char('2'), modifiers: KeyModifiers::spec_none() }, f) == (CommandView {
            command_type: CommandKind::RateCurrentCard(CardRating::Hard),
            source: CommandSource::User,
        }),
        key_command(KeyInput { code: KeyCode::Char('3'), modifiers: KeyModifiers::spec_none() }, f) == (CommandView {
            command_type: CommandKind::RateCurrentCard(CardRating::Good),
            source: CommandSource::User,
        }),
        key_command(KeyInput { code: KeyCode::Char('4'), modifiers: KeyModifiers::spec_none() }, f) == (CommandView {
            command_type: CommandKind::RateCurrentCard(CardRating::Easy),
            source: CommandSource::User,
        }),
{
}

/// On the main menu the unmodified number keys 1 to 4 open the deck list,
/// deck management, the statistics and the settings, in that order.
pub proof fn lemma_menu_digits_open_in_order(f: StateFacts)
    requires
        f.screen == Screen::MainMenu,
    ensures
        key_command(KeyInput { code: KeyCode::Char('1'), modifiers: KeyModifiers::spec_none() }, f) == (CommandView {
            command_type: CommandKind::NavigateTo(Screen::DeckSelection),
            source: CommandSource::User,
        }),
        key_command(KeyInput { code: KeyCode::Char('2'), modifiers: KeyModifiers::spec_none() }, f) == (CommandView {
            command_type: CommandKind::NavigateTo(Screen::DeckManagement),
            source: CommandSource::User,
        }),
        key_command(KeyInput { code: KeyCode::Char('3'), modifiers: KeyModifiers::spec_none() }, f) == (CommandView {
            command_type: CommandKind::NavigateTo(Screen::Statistics),
            source: CommandSource::User,
        }),
        key_command(KeyInput { code: KeyCode::Char('4'), modifiers: KeyModifiers::spec_none() }, f) == (CommandView {
            command_type: CommandKind::NavigateTo(Screen::Settings),
            source: CommandSource::User,
        }),
{
}

/// On the study screen with the answer shown, a left click on the button
/// row (rows 10 to 14) rates the card by the button under it: columns 10-15
/// Again, 17-22 Hard, 24-29 Good, 31-36 Easy; any other click on the study
/// screen shows the answer.
pub proof fn lemma_click_rates_by_button(f: StateFacts, x: u16, y: u16)
    requires
        f.screen == Screen::StudySession,
    ensures
        ({
            let r = left_click_spec(x, y, f);
            let on_row = f.showing_answer && 10 <= y <= 14;
            &&& (on_row && 10 <= x <= 15) ==> r == user_cmd(CommandKind::RateCurrentCard(CardRating::Again))
            &&& (on_row && 17 <= x <= 22) ==> r == user_cmd(CommandKind::RateCurrentCard(CardRating::Hard))
            &&& (on_row && 24 <= x <= 29) ==> r == user_cmd(CommandKind::RateCurrentCard(CardRating::Good))
            &&& (on_row && 31 <= x <= 36) ==> r == user_cmd(CommandKind::RateCurrentCard(CardRating::Easy))
            &&& !(on_row && (10 <= x <= 15 || 17 <= x <= 22 || 24 <= x <= 29 || 31 <= x <= 36))
                ==> r == user_cmd(CommandKind::ShowAnswer)
        }),
{
}

} // verus!
