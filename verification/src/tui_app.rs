//! The component-layer application: its screen, the screen before, whether
//! it should quit, the error or success message shown, its components, and
//! the dispatcher that routes actions to them.
use vstd::prelude::*;
use vstd::string::*;
use crate::dispatcher::{dispatch_entries_ok, ActionDispatcher};
use crate::events::component_for;
use crate::facade::Components;
use crate::input::Action;
use crate::model::{CardSummary, DeckSummary, SessionProgress};
use crate::registry::ComponentRegistry;
use crate::screens::AppState;
use crate::settings::SettingsValues;

verus! {

/// The application of the component layer.
pub struct TuiApp {
    pub state: AppState,
    pub previous_state: Option<AppState>,
    pub should_quit: bool,
    pub error_message: Option<String>,
    pub success_message: Option<String>,
    pub components: Components,
    pub action_dispatcher: ActionDispatcher,
}

/// The screen and the screen before after the components asked for
/// `dispatched`: a different screen is entered with the current one
/// remembered.
pub open spec fn screens_after(state: AppState, previous: Option<AppState>, dispatched: Option<AppState>) -> (AppState, Option<AppState>) {
    match dispatched {
        Some(s) => if s != state {
            (s, Some(state))
        } else {
            (state, previous)
        },
        None => (state, previous),
    }
}

pub open spec fn opt_text(o: Option<String>) -> Option<Seq<char>> {
    match o {
        Some(s) => Some(s@),
        None => None,
    }
}

impl TuiApp {
    /// The main menu, running, with no message, its components fresh and
    /// the settings screen showing the given values.
    pub fn new(values: SettingsValues) -> (a: TuiApp)
        ensures
            a.state == AppState::MainMenu,
            a.previous_state is None,
            !a.should_quit,
            a.error_message is None,
            a.success_message is None,
            a.action_dispatcher.bus().event_history@.len() == 0,
    {
        let components = Components::new(values.copy());
        let registry = ComponentRegistry::new(values);
        TuiApp {
            state: AppState::MainMenu,
            previous_state: None,
            should_quit: false,
            error_message: None,
            success_message: None,
            components,
            action_dispatcher: ActionDispatcher::new(registry),
        }
    }

    /// The current screen.
    pub fn state(&self) -> (s: AppState)
        ensures
            s == self.state,
    {
        self.state
    }

    /// Whether the application should quit.
    pub fn should_quit(&self) -> (b: bool)
        ensures
            b == self.should_quit,
    {
        self.should_quit
    }

    /// Removes both messages.
    pub fn clear_messages(&mut self)
        ensures
            final(self).components == old(self).components,
            final(self).action_dispatcher == old(self).action_dispatcher,
            final(self).error_message is None,
            final(self).success_message is None,
            final(self).state == old(self).state,
            final(self).previous_state == old(self).previous_state,
            final(self).should_quit == old(self).should_quit,
    {
        self.error_message = None;
        self.success_message = None;
    }

    /// Shows an error, replacing any success message.
    pub fn set_error(&mut self, message: String)
        ensures
            final(self).components == old(self).components,
            final(self).action_dispatcher == old(self).action_dispatcher,
            opt_text(final(self).error_message) == Some(message@),
            final(self).success_message is None,
            final(self).state == old(self).state,
            final(self).previous_state == old(self).previous_state,
            final(self).should_quit == old(self).should_quit,
    {
        self.error_message = Some(message);
        self.success_message = None;
    }

    /// Shows a success, replacing any error message.
    pub fn set_success(&mut self, message: String)
        ensures
            final(self).components == old(self).components,
            final(self).action_dispatcher == old(self).action_dispatcher,
            opt_text(final(self).success_message) == Some(message@),
            final(self).error_message is None,
            final(self).state == old(self).state,
            final(self).previous_state == old(self).previous_state,
            final(self).should_quit == old(self).should_quit,
    {
        self.success_message = Some(message);
        self.error_message = None;
    }

    /// Applies an action once the components have answered. Every action
    /// but help clears the messages; quit stops the application; otherwise
    /// `dispatched` is the screen the components asked for, if any, and a
    /// different screen is entered with the current one remembered.
    pub fn apply_action(&mut self, action: Action, dispatched: Option<AppState>)
        ensures
            action != Action::Help ==> final(self).error_message is None && final(self).success_message is None,
            action == Action::Help ==> opt_text(final(self).error_message) == opt_text(old(self).error_message)
                && opt_text(final(self).success_message) == opt_text(old(self).success_message),
            action == Action::Quit ==> final(self).should_quit && final(self).state == old(self).state
                && final(self).previous_state == old(self).previous_state,
            final(self).components == old(self).components,
            final(self).action_dispatcher == old(self).action_dispatcher,
            action != Action::Quit ==> final(self).should_quit == old(self).should_quit && match dispatched {
                Some(s) => if s != old(self).state {
                    final(self).state == s && final(self).previous_state == Some(old(self).state)
                } else {
                    final(self).state == old(self).state && final(self).previous_state == old(self).previous_state
                },
                None => final(self).state == old(self).state && final(self).previous_state == old(
                    self,
                ).previous_state,
            },
    {
        if action != Action::Help {
            self.clear_messages();
        }
        if action == Action::Quit {
            self.should_quit = true;
            return ;
        }
        if let Some(new_state) = dispatched {
            if new_state != self.state {
                self.previous_state = Some(self.state);
                self.state = new_state;
            }
        }
    }

    /// Handles an action: every action but help clears the messages; quit
    /// stops the application; any other action goes to the dispatcher, and
    /// a different screen it asks for is entered, with the current one
    /// remembered and its component made the current one.
    pub fn handle_action(&mut self, action: Action)
        ensures
            action != Action::Help ==> final(self).error_message is None && final(self).success_message is None,
            action == Action::Help ==> opt_text(final(self).error_message) == opt_text(old(self).error_message)
                && opt_text(final(self).success_message) == opt_text(old(self).success_message),
            final(self).components == old(self).components,
            action == Action::Quit ==> final(self).should_quit && final(self).state == old(self).state
                && final(self).previous_state == old(self).previous_state && final(self).action_dispatcher
                == old(self).action_dispatcher,
            action != Action::Quit ==> final(self).should_quit == old(self).should_quit && exists|r: Option<AppState>|
                #[trigger] dispatch_entries_ok(
                    old(self).action_dispatcher.registry().entries(),
                    final(self).action_dispatcher.registry().entries(),
                    old(self).state,
                    action,
                    r,
                ) && (final(self).state, final(self).previous_state) == screens_after(
                    old(self).state,
                    old(self).previous_state,
                    r,
                ),
            action != Action::Quit ==> final(self).action_dispatcher.registry().current() == Some(
                component_for(final(self).state),
            ),
    {
        if action != Action::Help {
            self.clear_messages();
        }
        if action == Action::Quit {
            self.should_quit = true;
            return ;
        }
        let dispatched = self.action_dispatcher.handle_action(action, self.state);
        if let Some(new_state) = dispatched {
            if new_state != self.state {
                self.previous_state = Some(self.state);
                self.state = new_state;
                self.action_dispatcher.component_registry_mut().set_current_component(new_state);
            }
        }
        assert(dispatch_entries_ok(
            old(self).action_dispatcher.registry().entries(),
            self.action_dispatcher.registry().entries(),
            old(self).state,
            action,
            dispatched,
        ));
    }

    /// Records the deck list just loaded, or the failure to load it: an
    /// empty list on the main menu with no message shown greets the user.
    pub fn apply_deck_load(&mut self, loaded: &Result<usize, String>)
        ensures
            final(self).components == old(self).components,
            final(self).action_dispatcher == old(self).action_dispatcher,
            final(self).state == old(self).state,
            final(self).previous_state == old(self).previous_state,
            final(self).should_quit == old(self).should_quit,
            match loaded {
                Err(e) => opt_text(final(self).error_message) == Some("Failed to load decks: "@ + e@)
                    && final(self).success_message is None,
                Ok(n) => if *n == 0 && old(self).state == AppState::MainMenu && old(self).error_message is None
                    && old(self).success_message is None {
                    opt_text(final(self).success_message) == Some(
                        "Welcome! Create your first deck to get started learning."@,
                    ) && final(self).error_message is None
                } else {
                    opt_text(final(self).error_message) == opt_text(old(self).error_message) && opt_text(
                        final(self).success_message,
                    ) == opt_text(old(self).success_message)
                },
            },
    {
        match loaded {
            Ok(n) => {
                if *n == 0 && self.state == AppState::MainMenu {
                    if self.error_message.is_none() && self.success_message.is_none() {
                        self.set_success(String::from_str("Welcome! Create your first deck to get started learning."));
                    }
                }
            },
            Err(e) => {
                self.set_error(String::from_str("Failed to load decks: ").concat(e.as_str()));
            },
        }
    }

    /// Notes the end of the cards of an active session during review.
    pub fn apply_session_progress(&mut self, has_more_cards: bool)
        ensures
            final(self).components == old(self).components,
            final(self).action_dispatcher == old(self).action_dispatcher,
            final(self).state == old(self).state,
            final(self).previous_state == old(self).previous_state,
            final(self).should_quit == old(self).should_quit,
            if !has_more_cards && old(self).state == AppState::CardReview && old(self).error_message is None
                && old(self).success_message is None {
                opt_text(final(self).success_message) == Some("All cards reviewed! Session complete."@)
                    && final(self).error_message is None
            } else {
                opt_text(final(self).error_message) == opt_text(old(self).error_message) && opt_text(
                    final(self).success_message,
                ) == opt_text(old(self).success_message)
            },
    {
        if !has_more_cards && self.state == AppState::CardReview {
            if self.error_message.is_none() && self.success_message.is_none() {
                self.set_success(String::from_str("All cards reviewed! Session complete."));
            }
        }
    }

    /// Takes the decks just loaded (or the failure to load them) and, during
    /// a session, its progress and whether cards remain: the deck list and
    /// the study component are refreshed, and the user is greeted or told
    /// the session is complete as `apply_deck_load` and
    /// `apply_session_progress` say.
    pub fn update(&mut self, loaded: Result<Vec<DeckSummary>, String>, session: Option<(SessionProgress, bool)>)
        ensures
            final(self).state == old(self).state,
            final(self).previous_state == old(self).previous_state,
            final(self).should_quit == old(self).should_quit,
            final(self).action_dispatcher == old(self).action_dispatcher,
            loaded is Ok ==> final(self).components.deck_selector()@.decks == crate::deck_selector::deck_rows(
                loaded->Ok_0@,
            ),
            session matches Some(p) ==> final(self).components.study().progress() == Some(p.0),
            match loaded {
                Err(e) => session is None ==> opt_text(final(self).error_message) == Some("Failed to load decks: "@ + e@)
                    && final(self).success_message is None,
                Ok(d) => session is None ==> if d@.len() == 0 && old(self).state == AppState::MainMenu
                    && old(self).error_message is None && old(self).success_message is None {
                    opt_text(final(self).success_message) == Some(
                        "Welcome! Create your first deck to get started learning."@,
                    ) && final(self).error_message is None
                } else {
                    opt_text(final(self).error_message) == opt_text(old(self).error_message) && opt_text(
                        final(self).success_message,
                    ) == opt_text(old(self).success_message)
                },
            },
    {
        match loaded {
            Ok(decks) => {
                let n = decks.len();
                self.components.update_decks(decks);
                self.apply_deck_load(&Ok(n));
            },
            Err(e) => {
                self.apply_deck_load(&Err(e));
            },
        }
        if let Some((progress, has_more_cards)) = session {
            self.components.update_session_progress(progress);
            let ghost before = self.components;
            self.components.set_session_progress(Some(progress));
            proof {
                crate::facade::lemma_with_study(before, self.components.study());
            }
            self.apply_session_progress(has_more_cards);
        }
    }

    /// Takes the decks with their cards loaded for the statistics screen, or
    /// the failure to load them: with decks the statistics screen takes
    /// them, on a failure the error is shown.
    pub fn load_statistics(&mut self, loaded: Result<Vec<(DeckSummary, Vec<CardSummary>)>, String>)
        ensures
            final(self).state == old(self).state,
            final(self).previous_state == old(self).previous_state,
            final(self).should_quit == old(self).should_quit,
            final(self).action_dispatcher == old(self).action_dispatcher,
            match loaded {
                Err(e) => opt_text(final(self).error_message) == Some("Failed to load statistics: "@ + e@)
                    && final(self).success_message is None && final(self).components == old(self).components,
                Ok(d) => opt_text(final(self).error_message) == opt_text(old(self).error_message) && opt_text(
                    final(self).success_message,
                ) == opt_text(old(self).success_message) && (d@.len() == 0 ==> final(self).components
                    == old(self).components) && (d@.len() > 0 ==> final(self).components.stats().deck_count()
                    == d@.len() && !final(self).components.stats().stale()),
            },
    {
        match loaded {
            Ok(decks) => {
                if decks.len() == 0 {
                    return ;
                }
                self.components.update_deck_statistics(decks);
            },
            Err(e) => {
                self.set_error(String::from_str("Failed to load statistics: ").concat(e.as_str()));
            },
        }
    }

    /// The components.
    pub fn components(&self) -> (c: &Components)
        ensures
            *c == self.components,
    {
        &self.components
    }

    /// The components, for changing.
    pub fn components_mut(&mut self) -> (c: &mut Components)
        ensures
            *c == old(self).components,
            final(self).components == *final(c),
            final(self).state == old(self).state,
            final(self).action_dispatcher == old(self).action_dispatcher,
    {
        &mut self.components
    }
}

} // verus!
