//! The application controller: high-level operations that move between
//! screens, prepare each screen's values, and hand the work on decks and
//! study sessions to the core.
use vstd::prelude::*;
use vstd::string::*;
use crate::app_commands::{
    StoreView, msg, nav, set_ui, init_ui, set_num, flip, ui_usize, ui_u32, ui_text_or, step, theme_index,
    theme_name, toggle_card_side_spec, with_selected_deck, text_or, step_u32, theme_index_of, theme_name_of,
    toggle_card_side,
};
use crate::command::{Command, CommandKind, CommandTypeView, Rating, Screen};
use crate::model::{CardSummary, DeckSummary};
use crate::store::{MessageLevel, StoreMessage, UiAppState, flag_text, bool_text};
use crate::tui_error::TuiError;

verus! {

/// The values a screen gets when it opens, where it has none yet.
pub open spec fn screen_defaults(v: StoreView, screen: Screen, auto_advance: bool) -> StoreView {
    match screen {
        Screen::StudyPrefs => init_ui(
            init_ui(
                init_ui(
                    init_ui(init_ui(v, "prefs_index"@, "0"@), "new_cards_per_day"@, "20"@),
                    "max_reviews_per_day"@,
                    "200"@,
                ),
                "auto_advance"@,
                flag_text(auto_advance),
            ),
            "show_hint"@,
            "true"@,
        ),
        Screen::UiSettings => init_ui(init_ui(v, "ui_settings_index"@, "0"@), "theme"@, v.theme),
        Screen::DataManage => init_ui(v, "data_index"@, "0"@),
        Screen::Search => init_ui(init_ui(v, "search_type"@, "Decks"@), "search_query"@, ""@),
        Screen::DeckSelection => match v.deck_list_selected {
            None => StoreView { deck_list_selected: Some(0), loading: false, ..v },
            Some(_) => StoreView { loading: false, ..v },
        },
        _ => v,
    }
}

/// Going to a screen through the controller: the store moves there and the
/// screen gets its default values.
pub open spec fn controller_nav(v: StoreView, screen: Screen, auto_advance: bool) -> StoreView {
    screen_defaults(nav(v, screen), screen, auto_advance)
}

/// Prepares the values of the screen being shown.
pub fn update_state_for_screen(state: &mut UiAppState, screen: Screen)
    requires
        old(state).wf(),
    ensures
        final(state).wf(),
        final(state)@ == screen_defaults(
            StoreView { screen, ..old(state)@ },
            screen,
            old(state).user_preferences.auto_advance,
        ),
        final(state).user_preferences.auto_advance == old(state).user_preferences.auto_advance,
        screen == Screen::DeckSelection ==> !final(state).loading,
        screen != Screen::DeckSelection ==> final(state).loading == old(state).loading,
{
    state.current_screen = screen;
    let ghost v = state@;
    let auto = state.user_preferences.auto_advance;
    match screen {
        Screen::DeckSelection => {
            state.loading = false;
            if state.deck_list_selected.is_none() {
                state.deck_list_selected = Some(0);
            }
            assert(state@ =~= screen_defaults(v, screen, auto));
        },
        Screen::StudyPrefs => {
            state.init_text("prefs_index", "0");
            state.init_text("new_cards_per_day", "20");
            state.init_text("max_reviews_per_day", "200");
            let a = bool_text(auto);
            state.init_text("auto_advance", a.as_str());
            state.init_text("show_hint", "true");
        },
        Screen::UiSettings => {
            state.init_text("ui_settings_index", "0");
            let theme = state.user_preferences.theme.clone();
            state.init_text("theme", theme.as_str());
            assert(state@ =~= screen_defaults(v, screen, auto));
        },
        Screen::DataManage => {
            state.init_text("data_index", "0");
        },
        Screen::Search => {
            state.init_text("search_type", "Decks");
            state.init_text("search_query", "");
        },
        _ => {},
    }
}

/// Goes to a screen and prepares its values.
pub fn navigate_to_screen(state: &mut UiAppState, screen: Screen)
    requires
        old(state).wf(),
    ensures
        final(state).wf(),
        final(state)@ == controller_nav(old(state)@, screen, old(state).user_preferences.auto_advance),
        final(state).user_preferences.auto_advance == old(state).user_preferences.auto_advance,
{
    state.go(screen);
    update_state_for_screen(state, screen);
}

/// Work on decks and sessions that a controller command leaves to the core.
#[derive(Debug, Clone, Copy, PartialEq, Eq, Structural)]
pub enum ControllerRequest {
    /// Create the deck that the command names.
    CreateDeck,
    DeleteDeck(u128),
    StartStudySession(u128),
    EndStudySession,
    RateCard(Rating),
    SkipCurrentCard,
    LoadDecks,
    LoadDeckStatistics(u128),
    LoadGlobalStatistics,
}

/// The settings page of an entry, as the controller reads it from the main
/// menu selection.
pub open spec fn controller_settings_target(idx: int) -> Screen {
    if idx == 0 {
        Screen::StudyPrefs
    } else if idx == 1 {
        Screen::UiSettings
    } else if idx == 2 {
        Screen::DataManage
    } else {
        Screen::Settings
    }
}

/// Left and right on the controller's settings pages.
pub open spec fn controller_left_right(v: StoreView, dec: bool) -> StoreView {
    match v.screen {
        Screen::StudyPrefs => {
            let idx = ui_usize(v.ui, "prefs_index"@, 0);
            if idx == 0 {
                set_num(v, "new_cards_per_day"@, step(ui_u32(v.ui, "new_cards_per_day"@, 20), dec))
            } else if idx == 1 {
                set_num(v, "max_reviews_per_day"@, step(ui_u32(v.ui, "max_reviews_per_day"@, 200), dec))
            } else if idx == 2 {
                flip(v, "auto_advance"@, false)
            } else if idx == 3 {
                flip(v, "show_hint"@, false)
            } else {
                v
            }
        },
        Screen::UiSettings => {
            let idx = ui_usize(v.ui, "ui_settings_index"@, 0);
            if idx == 1 {
                let ci = theme_index(ui_text_or(v.ui, "theme"@, v.theme));
                let ni = if dec {
                    if ci > 0 {
                        ci - 1
                    } else {
                        0
                    }
                } else {
                    if ci + 1 < 2 {
                        ci + 1
                    } else {
                        2
                    }
                };
                StoreView { theme: theme_name(ni), ..set_ui(v, "theme"@, theme_name(ni)) }
            } else {
                v
            }
        },
        _ => v,
    }
}

/// The controller's arithmetic overflows: a daily limit at the largest
/// `u32` stepped up once more.
pub open spec fn controller_overflows(v: StoreView, cmd: CommandTypeView) -> bool {
    match cmd {
        CommandKind::NavigateRight => v.screen == Screen::StudyPrefs && {
            let idx = ui_usize(v.ui, "prefs_index"@, 0);
            (idx == 0 && ui_u32(v.ui, "new_cards_per_day"@, 20) == u32::MAX) || (idx == 1 && ui_u32(
                v.ui,
                "max_reviews_per_day"@,
                200,
            ) == u32::MAX)
        },
        _ => false,
    }
}

/// The deck list as the controller reads it: ids only, or the fetch failed.
pub type DeckIds = Result<Seq<u128>, Seq<char>>;

pub open spec fn deck_ids_view(d: Result<Vec<(DeckSummary, Vec<CardSummary>)>, String>) -> DeckIds {
    match d {
        Ok(v) => Ok(v@.map_values(|x: (DeckSummary, Vec<CardSummary>)| x.0.uuid)),
        Err(e) => Err(e@),
    }
}

/// Studying the highlighted deck of the list.
pub open spec fn start_selected_spec(v: StoreView, decks: DeckIds, auto: bool) -> (StoreView, Option<
    ControllerRequest,
>) {
    match decks {
        Err(_) => (msg(v, MessageLevel::Error, "Error"@, "Failed to load decks"@), None),
        Ok(d) => if d.len() == 0 {
            (msg(v, MessageLevel::Warning, "No Decks"@, "No decks available. Create a deck first."@), None)
        } else {
            let idx = match v.deck_list_selected {
                Some(i) => i as int,
                None => 0,
            };
            if idx < d.len() {
                (
                    controller_nav(with_selected_deck(v, d[idx]), Screen::StudySession, auto),
                    Some(ControllerRequest::StartStudySession(d[idx])),
                )
            } else {
                (msg(v, MessageLevel::Error, "Error"@, "Invalid deck selection"@), None)
            }
        },
    }
}

/// What a controller command does to the store before the core is asked,
/// and what the core is asked.
pub open spec fn controller_spec(v: StoreView, cmd: CommandTypeView, decks: DeckIds, auto: bool) -> (
    StoreView,
    Option<ControllerRequest>,
) {
    match cmd {
        CommandKind::NavigateTo(s) => (controller_nav(v, s, auto), None),
        CommandKind::CreateDeck(_, _) => (v, Some(ControllerRequest::CreateDeck)),
        CommandKind::DeleteDeck(id) => (v, Some(ControllerRequest::DeleteDeck(id))),
        CommandKind::StartStudySession(id) => (
            controller_nav(v, Screen::StudySession, auto),
            Some(ControllerRequest::StartStudySession(id)),
        ),
        CommandKind::EndStudySession => (v, Some(ControllerRequest::EndStudySession)),
        CommandKind::RateCurrentCard(r) => (v, Some(ControllerRequest::RateCard(crate::command::spec_rating_of(r)))),
        CommandKind::SkipCurrentCard => (v, Some(ControllerRequest::SkipCurrentCard)),
        CommandKind::SelectPreviousDeck => (
            match decks {
                Ok(d) => if d.len() == 0 {
                    v
                } else {
                    let cur = match v.deck_list_selected {
                        Some(i) => i as int,
                        None => 0,
                    };
                    StoreView {
                        deck_list_selected: Some(
                            (if cur == 0 {
                                d.len() - 1
                            } else {
                                cur - 1
                            }) as usize,
                        ),
                        ..v
                    }
                },
                Err(_) => v,
            },
            None,
        ),
        CommandKind::SelectNextDeck => (
            match decks {
                Ok(d) => if d.len() == 0 {
                    v
                } else {
                    let cur = match v.deck_list_selected {
                        Some(i) => i as int,
                        None => 0,
                    };
                    StoreView {
                        deck_list_selected: Some(
                            (if cur >= d.len() - 1 {
                                0
                            } else {
                                cur + 1
                            }) as usize,
                        ),
                        ..v
                    }
                },
                Err(_) => v,
            },
            None,
        ),
        CommandKind::StartStudySessionDefault => start_selected_spec(v, decks, auto),
        CommandKind::LoadDecks => (v, Some(ControllerRequest::LoadDecks)),
        CommandKind::ShowHelp => (controller_nav(v, Screen::Help, auto), None),
        CommandKind::ToggleCardSide => (toggle_card_side_spec(v), None),
        CommandKind::SearchDecks(q) | CommandKind::SearchCards(q) => {
            let v1 = if v.screen != Screen::Search {
                controller_nav(v, Screen::Search, auto)
            } else {
                v
            };
            (
                set_ui(
                    set_ui(v1, "search_query"@, q),
                    "search_type"@,
                    if cmd is SearchDecks {
                        "Decks"@
                    } else {
                        "Cards"@
                    },
                ),
                None,
            )
        },
        CommandKind::StartSearch => (controller_nav(v, Screen::Search, auto), None),
        CommandKind::LoadStatistics(id) => (v, Some(ControllerRequest::LoadDeckStatistics(id))),
        CommandKind::RefreshStatistics => (v, Some(ControllerRequest::LoadGlobalStatistics)),
        CommandKind::ConfirmSetting => (
            controller_nav(v, controller_settings_target(v.main_menu_selected as int), auto),
            None,
        ),
        CommandKind::NavigateLeft => (controller_left_right(v, true), None),
        CommandKind::NavigateRight => (controller_left_right(v, false), None),
        CommandKind::NavigateToMainMenu => (controller_nav(v, Screen::MainMenu, auto), None),
        CommandKind::NavigateBack => (
            match v.screen {
                Screen::StudyPrefs | Screen::UiSettings | Screen::DataManage => controller_nav(
                    v,
                    Screen::Settings,
                    auto,
                ),
                _ => controller_nav(v, Screen::MainMenu, auto),
            },
            None,
        ),
        _ => (v, None),
    }
}

fn controller_left_right_exec(state: &mut UiAppState, dec: bool)
    requires
        old(state).wf(),
        !controller_overflows(
            old(state)@,
            if dec {
                CommandKind::NavigateLeft
            } else {
                CommandKind::NavigateRight
            },
        ),
    ensures
        final(state).wf(),
        final(state)@ == controller_left_right(old(state)@, dec),
        final(state).user_preferences.auto_advance == old(state).user_preferences.auto_advance,
{
    match state.current_screen {
        Screen::StudyPrefs => {
            let idx = state.read_usize("prefs_index", 0);
            if idx == 0 {
                let val = state.read_u32("new_cards_per_day", 20);
                let nv = step_u32(val, dec);
                state.write_usize("new_cards_per_day", nv as usize);
            } else if idx == 1 {
                let val = state.read_u32("max_reviews_per_day", 200);
                let nv = step_u32(val, dec);
                state.write_usize("max_reviews_per_day", nv as usize);
            } else if idx == 2 {
                state.flip_flag("auto_advance", false);
            } else if idx == 3 {
                state.flip_flag("show_hint", false);
            }
        },
        Screen::UiSettings => {
            let idx = state.read_usize("ui_settings_index", 0);
            if idx == 1 {
                let theme = if state.ui_state.contains_key("theme") {
                    text_or(state, "theme", "")
                } else {
                    state.user_preferences.theme.clone()
                };
                let ci = theme_index_of(&theme);
                let ni: usize = if dec {
                    ci.saturating_sub(1)
                } else if ci + 1 < 2 {
                    ci + 1
                } else {
                    2
                };
                let name = theme_name_of(ni);
                state.write_text("theme", name.as_str());
                state.user_preferences.theme = name;
                assert(final(state)@ =~= controller_left_right(old(state)@, dec));
            }
        },
        _ => {},
    }
}

fn controller_select_deck(state: &mut UiAppState, count: usize, next: bool)
    ensures
        final(state).wf() == old(state).wf(),
        final(state).user_preferences.auto_advance == old(state).user_preferences.auto_advance,
        final(state)@ == if count == 0 {
            old(state)@
        } else {
            let cur = match old(state)@.deck_list_selected {
                Some(i) => i as int,
                None => 0,
            };
            StoreView {
                deck_list_selected: Some(
                    (if next {
                        if cur >= count - 1 {
                            0
                        } else {
                            cur + 1
                        }
                    } else if cur == 0 {
                        count - 1
                    } else {
                        cur - 1
                    }) as usize,
                ),
                ..old(state)@
            }
        },
{
    if count == 0 {
        return ;
    }
    let cur = match state.deck_list_selected {
        Some(i) => i,
        None => 0,
    };
    let n = if next {
        if cur >= count - 1 {
            0
        } else {
            cur + 1
        }
    } else if cur == 0 {
        count - 1
    } else {
        cur - 1
    };
    state.deck_list_selected = Some(n);
    assert(final(state)@ =~= StoreView { deck_list_selected: Some(n), ..old(state)@ });
}

fn start_selected_exec(state: &mut UiAppState, decks: &Result<Vec<(DeckSummary, Vec<CardSummary>)>, String>) -> (r:
    Option<ControllerRequest>)
    requires
        old(state).wf(),
    ensures
        final(state).wf(),
        (final(state)@, r) == start_selected_spec(
            old(state)@,
            deck_ids_view(*decks),
            old(state).user_preferences.auto_advance,
        ),
{
    match decks {
        Err(_) => {
            state.say(MessageLevel::Error, "Error", "Failed to load decks");
            None
        },
        Ok(d) => {
            if d.len() == 0 {
                state.say(MessageLevel::Warning, "No Decks", "No decks available. Create a deck first.");
                return None;
            }
            let idx = match state.deck_list_selected {
                Some(i) => i,
                None => 0,
            };
            if idx < d.len() {
                let id = d[idx].0.uuid;
                state.selected_deck_id = Some(id);
                assert(state@ =~= with_selected_deck(old(state)@, id));
                navigate_to_screen(state, Screen::StudySession);
                Some(ControllerRequest::StartStudySession(id))
            } else {
                state.say(MessageLevel::Error, "Error", "Invalid deck selection");
                None
            }
        },
    }
}

/// Runs a command through the controller: the store changes as
/// `controller_spec` says, and the result names the core work left to do.
/// `decks` is the deck list the core gave for the commands that read it.
#[verifier::spinoff_prover]
#[verifier::rlimit(60)]
pub fn handle_command(
    state: &mut UiAppState,
    command: &Command,
    decks: &Result<Vec<(DeckSummary, Vec<CardSummary>)>, String>,
) -> (r: Option<ControllerRequest>)
    requires
        old(state).wf(),
        !controller_overflows(old(state)@, command@.command_type),
    ensures
        final(state).wf(),
        (final(state)@, r) == controller_spec(
            old(state)@,
            command@.command_type,
            deck_ids_view(*decks),
            old(state).user_preferences.auto_advance,
        ),
{
    let ghost auto = state.user_preferences.auto_advance;
    match &command.command_type {
        CommandKind::NavigateTo(s) => {
            navigate_to_screen(state, *s);
            None
        },
        CommandKind::CreateDeck(_, _) => Some(ControllerRequest::CreateDeck),
        CommandKind::DeleteDeck(id) => Some(ControllerRequest::DeleteDeck(*id)),
        CommandKind::StartStudySession(id) => {
            navigate_to_screen(state, Screen::StudySession);
            Some(ControllerRequest::StartStudySession(*id))
        },
        CommandKind::EndStudySession => Some(ControllerRequest::EndStudySession),
        CommandKind::RateCurrentCard(rating) => Some(ControllerRequest::RateCard(rating.to_rating())),
        CommandKind::SkipCurrentCard => Some(ControllerRequest::SkipCurrentCard),
        CommandKind::SelectPreviousDeck => {
            if let Ok(d) = decks {
                controller_select_deck(state, d.len(), false);
            }
            None
        },
        CommandKind::SelectNextDeck => {
            if let Ok(d) = decks {
                controller_select_deck(state, d.len(), true);
            }
            None
        },
        CommandKind::StartStudySessionDefault => start_selected_exec(state, decks),
        CommandKind::LoadDecks => Some(ControllerRequest::LoadDecks),
        CommandKind::ShowHelp => {
            navigate_to_screen(state, Screen::Help);
            None
        },
        CommandKind::ToggleCardSide => {
            toggle_card_side(state);
            None
        },
        CommandKind::SearchDecks(q) | CommandKind::SearchCards(q) => {
            if state.current_screen != Screen::Search {
                navigate_to_screen(state, Screen::Search);
            }
            state.write_text("search_query", q.as_str());
            let is_decks = match &command.command_type {
                CommandKind::SearchDecks(_) => true,
                _ => false,
            };
            if is_decks {
                state.write_text("search_type", "Decks");
            } else {
                state.write_text("search_type", "Cards");
            }
            None
        },
        CommandKind::StartSearch => {
            navigate_to_screen(state, Screen::Search);
            None
        },
        CommandKind::LoadStatistics(id) => Some(ControllerRequest::LoadDeckStatistics(*id)),
        CommandKind::RefreshStatistics => Some(ControllerRequest::LoadGlobalStatistics),
        CommandKind::ConfirmSetting => {
            let idx = state.main_menu_selected;
            let target = if idx == 0 {
                Screen::StudyPrefs
            } else if idx == 1 {
                Screen::UiSettings
            } else if idx == 2 {
                Screen::DataManage
            } else {
                Screen::Settings
            };
            navigate_to_screen(state, target);
            None
        },
        CommandKind::NavigateLeft => {
            controller_left_right_exec(state, true);
            None
        },
        CommandKind::NavigateRight => {
            controller_left_right_exec(state, false);
            None
        },
        CommandKind::NavigateToMainMenu => {
            navigate_to_screen(state, Screen::MainMenu);
            None
        },
        CommandKind::NavigateBack => {
            match state.current_screen {
                Screen::StudyPrefs | Screen::UiSettings | Screen::DataManage => {
                    navigate_to_screen(state, Screen::Settings);
                },
                _ => {
                    navigate_to_screen(state, Screen::MainMenu);
                },
            }
            None
        },
        _ => None,
    }
}

/// Records the core's answer to creating the deck `name`.
pub fn finish_create_deck(state: &mut UiAppState, name: &String, outcome: Result<u128, TuiError>) -> (r: Result<
    u128,
    TuiError,
>)
    ensures
        final(state).wf() == old(state).wf(),
        match outcome {
            Ok(id) => r == Ok::<u128, TuiError>(id) && final(state)@ == msg(
                old(state)@,
                MessageLevel::Success,
                "Success"@,
                "Deck '"@ + name@ + "' created successfully"@,
            ),
            Err(_) => r == outcome && final(state)@ == old(state)@,
        },
{
    match outcome {
        Ok(id) => {
            let text = String::from_str("Deck '").concat(name.as_str()).concat("' created successfully");
            state.message = Some(
                StoreMessage { level: MessageLevel::Success, title: String::from_str("Success"), content: text },
            );
            assert(final(state)@ =~= msg(
                old(state)@,
                MessageLevel::Success,
                "Success"@,
                "Deck '"@ + name@ + "' created successfully"@,
            ));
            Ok(id)
        },
        Err(e) => Err(e),
    }
}

/// The name a deleted deck is reported by: its name, or "Unknown" when it
/// could not be read.
pub open spec fn reported_name(name: Option<Seq<char>>) -> Seq<char> {
    match name {
        Some(n) => n,
        None => "Unknown"@,
    }
}

/// Records the core's answer to deleting a deck; `name` is the deck's name
/// as read before the deletion.
pub fn finish_delete_deck(state: &mut UiAppState, name: &Option<String>, outcome: Result<(), TuiError>) -> (r:
    Result<(), TuiError>)
    ensures
        final(state).wf() == old(state).wf(),
        match outcome {
            Ok(_) => r is Ok && final(state)@ == msg(
                old(state)@,
                MessageLevel::Success,
                "Success"@,
                "Deck '"@ + reported_name(crate::command::opt_view(*name)) + "' deleted successfully"@,
            ),
            Err(_) => r == outcome && final(state)@ == old(state)@,
        },
{
    match outcome {
        Ok(_) => {
            let shown = match name {
                Some(n) => n.clone(),
                None => String::from_str("Unknown"),
            };
            let text = String::from_str("Deck '").concat(shown.as_str()).concat("' deleted successfully");
            state.message = Some(
                StoreMessage { level: MessageLevel::Success, title: String::from_str("Success"), content: text },
            );
            assert(final(state)@ =~= msg(
                old(state)@,
                MessageLevel::Success,
                "Success"@,
                "Deck '"@ + reported_name(crate::command::opt_view(*name)) + "' deleted successfully"@,
            ));
            Ok(())
        },
        Err(e) => Err(e),
    }
}

/// The store after the next card was looked up: `next` is `None` when no
/// deck is current, else whether the deck had a card left.
pub open spec fn next_card_spec(v: StoreView, next: Option<bool>) -> StoreView {
    match next {
        None => v,
        Some(true) => StoreView { card_study: true, ..v },
        Some(false) => msg(
            StoreView { card_study: false, ..v },
            MessageLevel::Info,
            "Info"@,
            "No more cards to study"@,
        ),
    }
}

/// Records the lookup of the next card to study.
pub fn finish_next_card(state: &mut UiAppState, next: Option<bool>)
    ensures
        final(state).wf() == old(state).wf(),
        final(state)@ == next_card_spec(old(state)@, next),
{
    match next {
        None => {},
        Some(true) => {
            state.current_card_study = true;
            assert(final(state)@ =~= next_card_spec(old(state)@, next));
        },
        Some(false) => {
            state.current_card_study = false;
            state.message = Some(StoreMessage::info("Info", "No more cards to study"));
            assert(final(state)@ =~= next_card_spec(old(state)@, next));
        },
    }
}

/// Records the core's answer to starting a session and the lookup of its
/// first card.
pub fn finish_start_session(state: &mut UiAppState, outcome: Result<(), TuiError>, next: Option<bool>) -> (r:
    Result<(), TuiError>)
    ensures
        final(state).wf() == old(state).wf(),
        match outcome {
            Ok(_) => r is Ok && final(state)@ == msg(
                next_card_spec(old(state)@, next),
                MessageLevel::Success,
                "Session Started"@,
                "Study session started"@,
            ),
            Err(_) => r == outcome && final(state)@ == old(state)@,
        },
{
    match outcome {
        Ok(_) => {
            finish_next_card(state, next);
            state.say(MessageLevel::Success, "Session Started", "Study session started");
            Ok(())
        },
        Err(e) => Err(e),
    }
}

/// Records the end of a session. `summary` is the text reporting the cards
/// studied and the time, or `None` when the core could not end the session,
/// in which case nothing changes.
pub fn finish_end_session(state: &mut UiAppState, summary: &Option<String>)
    requires
        old(state).wf(),
    ensures
        final(state).wf(),
        final(state)@ == match summary {
            Some(s) => controller_nav(
                msg(old(state)@, MessageLevel::Success, "Session Ended"@, s@),
                Screen::DeckSelection,
                old(state).user_preferences.auto_advance,
            ),
            None => old(state)@,
        },
{
    match summary {
        Some(s) => {
            state.message = Some(
                StoreMessage { level: MessageLevel::Success, title: String::from_str("Session Ended"), content: s.clone() },
            );
            assert(state@ =~= msg(old(state)@, MessageLevel::Success, "Session Ended"@, s@));
            navigate_to_screen(state, Screen::DeckSelection);
        },
        None => {},
    }
}

/// Records the core's answer to rating or skipping the current card and the
/// lookup of the next one.
pub fn finish_card_step(state: &mut UiAppState, outcome: Result<(), TuiError>, next: Option<bool>) -> (r: Result<
    (),
    TuiError,
>)
    ensures
        final(state).wf() == old(state).wf(),
        match outcome {
            Ok(_) => r is Ok && final(state)@ == next_card_spec(old(state)@, next),
            Err(_) => r == outcome && final(state)@ == old(state)@,
        },
{
    match outcome {
        Ok(_) => {
            finish_next_card(state, next);
            Ok(())
        },
        Err(e) => Err(e),
    }
}

/// Records the core's answer to loading the decks.
pub fn finish_load_decks(state: &mut UiAppState, outcome: Result<(), TuiError>) -> (r: Result<(), TuiError>)
    ensures
        final(state).wf() == old(state).wf(),
        match outcome {
            Ok(_) => r is Ok && final(state)@ == msg(
                old(state)@,
                MessageLevel::Success,
                "Success"@,
                "Decks loaded successfully"@,
            ),
            Err(_) => r == outcome && final(state)@ == old(state)@,
        },
{
    match outcome {
        Ok(_) => {
            state.say(MessageLevel::Success, "Success", "Decks loaded successfully");
            Ok(())
        },
        Err(e) => Err(e),
    }
}

/// Records the core's answer to loading a deck's statistics: on success the
/// statistics screen opens.
pub fn finish_load_statistics(state: &mut UiAppState, outcome: Result<(), TuiError>) -> (r: Result<(), TuiError>)
    requires
        old(state).wf(),
    ensures
        final(state).wf(),
        match outcome {
            Ok(_) => r is Ok && final(state)@ == controller_nav(
                old(state)@,
                Screen::Statistics,
                old(state).user_preferences.auto_advance,
            ),
            Err(_) => r == outcome && final(state)@ == old(state)@,
        },
{
    match outcome {
        Ok(_) => {
            navigate_to_screen(state, Screen::Statistics);
            Ok(())
        },
        Err(e) => Err(e),
    }
}

/// Records the core's answer to refreshing the global statistics.
pub fn finish_refresh_statistics(state: &mut UiAppState, outcome: Result<(), TuiError>) -> (r: Result<(), TuiError>)
    ensures
        final(state).wf() == old(state).wf(),
        match outcome {
            Ok(_) => r is Ok && final(state)@ == msg(
                old(state)@,
                MessageLevel::Success,
                "Success"@,
                "Statistics refreshed"@,
            ),
            Err(_) => r == outcome && final(state)@ == old(state)@,
        },
{
    match outcome {
        Ok(_) => {
            state.say(MessageLevel::Success, "Success", "Statistics refreshed");
            Ok(())
        },
        Err(e) => Err(e),
    }
}

} // verus!
