//! The action dispatcher: it logs each action as an event, passes the
//! action to the component of the screen shown, falls back to the screens'
//! default reactions when no component is registered for it, and logs the
//! change of screen.
use vstd::prelude::*;
use vstd::string::*;
use crate::events::{component_for, fallback_spec, fallback_state_handling, history_with, AppEvent, EventBus};
use crate::input::Action;
use crate::registry::{component_step, entry_position, ComponentRegistry, RegisteredComponent};
use crate::screens::AppState;

verus! {

/// The text `{:?}` gives for a character.
pub uninterp spec fn char_debug_text(c: char) -> Seq<char>;

/// A character as `{:?}` writes it (`<char as Debug>::fmt`).
/// Claimed: the text is `char_debug_text` of the character, and a printable
/// ASCII character other than a quote or a backslash is written between
/// single quotes. The escapes of other characters are left unstated.
#[verifier::external_body]
fn char_debug(c: char) -> (s: String)
    ensures
        s@ == char_debug_text(c),
        (' ' <= c && c <= '~' && c != '\'' && c != '\\') ==> s@ == seq!['\'', c, '\''],
{
    format!("{:?}", c)
}

/// The name of a screen as `{:?}` writes it.
pub open spec fn state_debug(s: AppState) -> Seq<char> {
    match s {
        AppState::MainMenu => "MainMenu"@,
        AppState::DeckSelection => "DeckSelection"@,
        AppState::DeckManagement => "DeckManagement"@,
        AppState::Learning => "Learning"@,
        AppState::CardReview => "CardReview"@,
        AppState::Statistics => "Statistics"@,
        AppState::Settings => "Settings"@,
        AppState::Help => "Help"@,
        AppState::ConfirmExit => "ConfirmExit"@,
    }
}

/// The name of a screen as `{:?}` writes it.
pub fn state_debug_text(s: AppState) -> (t: String)
    ensures
        t@ == state_debug(s),
{
    let n = match s {
        AppState::MainMenu => "MainMenu",
        AppState::DeckSelection => "DeckSelection",
        AppState::DeckManagement => "DeckManagement",
        AppState::Learning => "Learning",
        AppState::CardReview => "CardReview",
        AppState::Statistics => "Statistics",
        AppState::Settings => "Settings",
        AppState::Help => "Help",
        AppState::ConfirmExit => "ConfirmExit",
    };
    String::from_str(n)
}

/// The name of a variant of `Action` without data, as `{:?}` writes it.
pub open spec fn unit_action_name(a: Action) -> Seq<char> {
    match a {
        Action::Up => "Up"@,
        Action::Down => "Down"@,
        Action::Left => "Left"@,
        Action::Right => "Right"@,
        Action::PageUp => "PageUp"@,
        Action::PageDown => "PageDown"@,
        Action::Home => "Home"@,
        Action::End => "End"@,
        Action::Tab => "Tab"@,
        Action::BackTab => "BackTab"@,
        Action::Select => "Select"@,
        Action::Cancel => "Cancel"@,
        Action::ShowAnswer => "ShowAnswer"@,
        Action::RateAgain => "RateAgain"@,
        Action::RateHard => "RateHard"@,
        Action::RateGood => "RateGood"@,
        Action::RateEasy => "RateEasy"@,
        Action::SkipCard => "SkipCard"@,
        Action::ResetCard => "ResetCard"@,
        Action::Create => "Create"@,
        Action::Delete => "Delete"@,
        Action::Edit => "Edit"@,
        Action::Info => "Info"@,
        Action::SwitchDeck => "SwitchDeck"@,
        Action::Quit => "Quit"@,
        Action::Help => "Help"@,
        Action::Refresh => "Refresh"@,
        Action::Char(_) => "Char"@,
        Action::Backspace => "Backspace"@,
        Action::StartEdit => "StartEdit"@,
        Action::Save => "Save"@,
        Action::Discard => "Discard"@,
        Action::Unknown => "Unknown"@,
    }
}

/// An action as `{:?}` writes it: its name, and for a typed character the
/// character in brackets.
pub open spec fn action_debug(a: Action) -> Seq<char> {
    match a {
        Action::Char(c) => "Char("@ + char_debug_text(c) + ")"@,
        _ => unit_action_name(a),
    }
}

fn unit_action_text(a: Action) -> (t: &'static str)
    ensures
        t@ == unit_action_name(a),
{
    match a {
        Action::Up => "Up",
        Action::Down => "Down",
        Action::Left => "Left",
        Action::Right => "Right",
        Action::PageUp => "PageUp",
        Action::PageDown => "PageDown",
        Action::Home => "Home",
        Action::End => "End",
        Action::Tab => "Tab",
        Action::BackTab => "BackTab",
        Action::Select => "Select",
        Action::Cancel => "Cancel",
        Action::ShowAnswer => "ShowAnswer",
        Action::RateAgain => "RateAgain",
        Action::RateHard => "RateHard",
        Action::RateGood => "RateGood",
        Action::RateEasy => "RateEasy",
        Action::SkipCard => "SkipCard",
        Action::ResetCard => "ResetCard",
        Action::Create => "Create",
        Action::Delete => "Delete",
        Action::Edit => "Edit",
        Action::Info => "Info",
        Action::SwitchDeck => "SwitchDeck",
        Action::Quit => "Quit",
        Action::Help => "Help",
        Action::Refresh => "Refresh",
        Action::Char(_) => "Char",
        Action::Backspace => "Backspace",
        Action::StartEdit => "StartEdit",
        Action::Save => "Save",
        Action::Discard => "Discard",
        Action::Unknown => "Unknown",
    }
}

/// An action as `{:?}` writes it.
pub fn action_debug_text(a: Action) -> (t: String)
    ensures
        t@ == action_debug(a),
{
    match a {
        Action::Char(c) => {
            let mut t = String::from_str("Char(");
            let d = char_debug(c);
            t.append(d.as_str());
            t.append(")");
            t
        },
        _ => String::from_str(unit_action_text(a)),
    }
}

/// Whether `e` is the event an action on a screen is logged as: a choice
/// or an escape as a user action on the screen, a move up or down as a key
/// press, quitting as the application exiting, help as navigation to help,
/// and any other action as a user action named by the action.
pub open spec fn action_event_ok(e: AppEvent, action: Action, state: AppState) -> bool {
    match action {
        Action::Select => e matches AppEvent::UserAction { action: a, target: t } && a@ == "select"@ && t@
            == state_debug(state),
        Action::Cancel => e matches AppEvent::UserAction { action: a, target: t } && a@ == "cancel"@ && t@
            == state_debug(state),
        Action::Up | Action::Down => e matches AppEvent::KeyPressed { key, modifiers } && key@ == action_debug(
            action,
        ) && modifiers@.len() == 0,
        Action::Quit => e is ApplicationExiting,
        Action::Help => e matches AppEvent::NavigateTo { destination } && destination@ == "help"@,
        _ => e matches AppEvent::UserAction { action: a, target: t } && a@ == action_debug(action) && t@
            == state_debug(state),
    }
}

/// Whether `e` logs a change from one screen to another.
pub open spec fn state_changed_ok(e: AppEvent, from: AppState, to: AppState) -> bool {
    e matches AppEvent::StateChanged { old_state, new_state } && old_state@ == state_debug(from) && new_state@
        == state_debug(to)
}

/// The screen a dispatch asks for and how the registry changes: the
/// component registered for the screen handles the action, and without one
/// the screen's default reaction decides.
pub open spec fn dispatch_ok(before: ComponentRegistry, after: ComponentRegistry, state: AppState, action: Action, r: Option<AppState>) -> bool {
    &&& after.current() == Some(component_for(state))
    &&& dispatch_entries_ok(before.entries(), after.entries(), state, action, r)
}

/// How the registered components change in a dispatch, and the screen it
/// asks for: the component registered for the screen handles the action,
/// and without one the screen's default reaction decides.
pub open spec fn dispatch_entries_ok(
    before: Seq<(Seq<char>, RegisteredComponent)>,
    after: Seq<(Seq<char>, RegisteredComponent)>,
    state: AppState,
    action: Action,
    r: Option<AppState>,
) -> bool {
    match entry_position(before, component_for(state)) {
        None => r == fallback_spec(state, action) && after == before,
        Some(i) => after == before.update(i, (component_for(state), after[i].1)) && component_step(
            before[i].1,
            after[i].1,
            action,
            r,
        ),
    }
}

/// Routes actions to components and logs them on its event bus.
pub struct ActionDispatcher {
    event_bus: EventBus,
    component_registry: ComponentRegistry,
}

impl ActionDispatcher {
    pub closed spec fn bus(&self) -> EventBus {
        self.event_bus
    }

    pub closed spec fn registry(&self) -> ComponentRegistry {
        self.component_registry
    }

    /// A dispatcher over the given components, with an empty event log.
    pub fn new(component_registry: ComponentRegistry) -> (d: ActionDispatcher)
        ensures
            d.registry() == component_registry,
            d.bus().event_history@.len() == 0,
            d.bus().max_history_size == 1000,
    {
        ActionDispatcher { event_bus: EventBus::new(), component_registry }
    }

    /// Dispatches an action on a screen: logs it, lets the component of the
    /// screen (or the screen's default reaction) decide, logs a change of
    /// screen, and answers the screen asked for.
    pub fn handle_action(&mut self, action: Action, current_state: AppState) -> (r: Option<AppState>)
        ensures
            dispatch_ok(old(self).registry(), final(self).registry(), current_state, action, r),
            exists|e1: AppEvent|
                #[trigger] action_event_ok(e1, action, current_state) && {
                    let h1 = history_with(old(self).bus().event_history@, e1, old(self).bus().max_history_size as nat);
                    match r {
                        None => final(self).bus().event_history@ == h1,
                        Some(next) => exists|e2: AppEvent|
                            #[trigger] state_changed_ok(e2, current_state, next) && final(self).bus().event_history@
                                == history_with(h1, e2, old(self).bus().max_history_size as nat),
                    }
                },
            final(self).bus().max_history_size == old(self).bus().max_history_size,
    {
        let event = self.action_to_event(action, current_state);
        let ghost e1 = event;
        self.event_bus.publish(event);
        let result = self.handle_action_with_components(action, current_state);
        match result {
            Some(next) => {
                let changed = AppEvent::StateChanged {
                    old_state: state_debug_text(current_state),
                    new_state: state_debug_text(next),
                };
                let ghost e2 = changed;
                self.event_bus.publish(changed);
                assert(state_changed_ok(e2, current_state, next));
            },
            None => {},
        }
        assert(action_event_ok(e1, action, current_state));
        result
    }

    /// The event an action on a screen is logged as.
    fn action_to_event(&self, action: Action, current_state: AppState) -> (e: AppEvent)
        ensures
            action_event_ok(e, action, current_state),
    {
        proof {
            reveal_strlit("select");
            reveal_strlit("cancel");
            reveal_strlit("help");
        }
        match action {
            Action::Select => AppEvent::UserAction {
                action: String::from_str("select"),
                target: state_debug_text(current_state),
            },
            Action::Cancel => AppEvent::UserAction {
                action: String::from_str("cancel"),
                target: state_debug_text(current_state),
            },
            Action::Up | Action::Down => AppEvent::KeyPressed { key: action_debug_text(action), modifiers: Vec::new() },
            Action::Quit => AppEvent::ApplicationExiting,
            Action::Help => AppEvent::NavigateTo { destination: String::from_str("help") },
            _ => AppEvent::UserAction { action: action_debug_text(action), target: state_debug_text(current_state) },
        }
    }

    /// Lets the component of the screen handle the action, or the screen's
    /// default reaction when none is registered for it.
    fn handle_action_with_components(&mut self, action: Action, current_state: AppState) -> (r: Option<AppState>)
        ensures
            dispatch_ok(old(self).registry(), final(self).registry(), current_state, action, r),
            final(self).bus() == old(self).bus(),
    {
        self.component_registry.set_current_component(current_state);
        match self.component_registry.handle_action_in_current(action) {
            Some(result) => result,
            None => fallback_state_handling(action, current_state),
        }
    }

    /// The event bus the dispatcher logs on.
    pub fn event_bus(&self) -> (b: &EventBus)
        ensures
            *b == self.bus(),
    {
        &self.event_bus
    }

    /// The components the dispatcher routes to, for changing.
    pub fn component_registry_mut(&mut self) -> (r: &mut ComponentRegistry)
        ensures
            *r == old(self).registry(),
            final(self).registry() == *final(r),
            final(self).bus() == old(self).bus(),
    {
        &mut self.component_registry
    }

    /// The components the dispatcher routes to.
    pub fn component_registry(&self) -> (r: &ComponentRegistry)
        ensures
            *r == self.registry(),
    {
        &self.component_registry
    }
}

} // verus!
