//! Application events and their history, which component handles each
//! screen, and the default reactions of screens to actions.
use vstd::prelude::*;
use vstd::string::*;
use crate::input::Action;
use crate::screens::AppState;
use crate::ui_map::UiMap;

verus! {

/// An event of the application.
#[derive(Debug)]
pub enum AppEvent {
    NavigateTo { destination: String },
    NavigateBack,
    NavigateForward,
    StateChanged { old_state: String, new_state: String },
    StateUpdated { component: String, data: UiMap },
    DataLoaded { data_type: String, count: usize },
    DataChanged { data_type: String, id: String },
    DataError { data_type: String, error: String },
    UserAction { action: String, target: String },
    KeyPressed { key: String, modifiers: Vec<String> },
    ThemeChanged { theme: String },
    ConfigurationChanged { key: String, value: String },
    ErrorOccurred { error: String, context: String },
    Success { message: String },
    TimerTick { interval_ms: u64 },
    FocusChanged { component: String, focused: bool },
    FocusRequested { component: String },
    ModalOpened { modal_type: String },
    ModalClosed { result: Option<String> },
    ApplicationStarted,
    ApplicationExiting,
    ApplicationResumed,
    ApplicationPaused,
}

/// The type name an event is routed by.
pub open spec fn event_type_spec(e: AppEvent) -> Seq<char> {
    match e {
        AppEvent::NavigateTo { .. } => "navigate_to"@,
        AppEvent::NavigateBack => "navigate_back"@,
        AppEvent::NavigateForward => "navigate_forward"@,
        AppEvent::StateChanged { .. } => "state_changed"@,
        AppEvent::StateUpdated { .. } => "state_updated"@,
        AppEvent::DataLoaded { .. } => "data_loaded"@,
        AppEvent::DataChanged { .. } => "data_changed"@,
        AppEvent::DataError { .. } => "data_error"@,
        AppEvent::UserAction { .. } => "user_action"@,
        AppEvent::KeyPressed { .. } => "key_pressed"@,
        AppEvent::ThemeChanged { .. } => "theme_changed"@,
        AppEvent::ConfigurationChanged { .. } => "configuration_changed"@,
        AppEvent::ErrorOccurred { .. } => "error_occurred"@,
        AppEvent::Success { .. } => "success"@,
        AppEvent::TimerTick { .. } => "timer_tick"@,
        AppEvent::FocusChanged { .. } => "focus_changed"@,
        AppEvent::FocusRequested { .. } => "focus_requested"@,
        AppEvent::ModalOpened { .. } => "modal_opened"@,
        AppEvent::ModalClosed { .. } => "modal_closed"@,
        AppEvent::ApplicationStarted => "application_started"@,
        AppEvent::ApplicationExiting => "application_exiting"@,
        AppEvent::ApplicationResumed => "application_resumed"@,
        AppEvent::ApplicationPaused => "application_paused"@,
    }
}

impl AppEvent {
    /// The type name the event is routed by.
    pub fn event_type(&self) -> (s: &'static str)
        ensures
            s@ == event_type_spec(*self),
    {
        match self {
            AppEvent::NavigateTo { .. } => "navigate_to",
            AppEvent::NavigateBack => "navigate_back",
            AppEvent::NavigateForward => "navigate_forward",
            AppEvent::StateChanged { .. } => "state_changed",
            AppEvent::StateUpdated { .. } => "state_updated",
            AppEvent::DataLoaded { .. } => "data_loaded",
            AppEvent::DataChanged { .. } => "data_changed",
            AppEvent::DataError { .. } => "data_error",
            AppEvent::UserAction { .. } => "user_action",
            AppEvent::KeyPressed { .. } => "key_pressed",
            AppEvent::ThemeChanged { .. } => "theme_changed",
            AppEvent::ConfigurationChanged { .. } => "configuration_changed",
            AppEvent::ErrorOccurred { .. } => "error_occurred",
            AppEvent::Success { .. } => "success",
            AppEvent::TimerTick { .. } => "timer_tick",
            AppEvent::FocusChanged { .. } => "focus_changed",
            AppEvent::FocusRequested { .. } => "focus_requested",
            AppEvent::ModalOpened { .. } => "modal_opened",
            AppEvent::ModalClosed { .. } => "modal_closed",
            AppEvent::ApplicationStarted => "application_started",
            AppEvent::ApplicationExiting => "application_exiting",
            AppEvent::ApplicationResumed => "application_resumed",
            AppEvent::ApplicationPaused => "application_paused",
        }
    }
}

/// The events of a type in a history, newest first, at most `count`.
pub open spec fn recent_of_type(h: Seq<AppEvent>, t: Seq<char>, count: nat) -> Seq<AppEvent>
    decreases h.len(),
{
    if h.len() == 0 || count == 0 {
        Seq::empty()
    } else if event_type_spec(h.last()) == t {
        seq![h.last()] + recent_of_type(h.drop_last(), t, (count - 1) as nat)
    } else {
        recent_of_type(h.drop_last(), t, count)
    }
}

/// The history after one more event: the oldest is dropped once it holds
/// more than `max`.
pub open spec fn history_with(h: Seq<AppEvent>, e: AppEvent, max: nat) -> Seq<AppEvent> {
    let p = h.push(e);
    if p.len() > max {
        p.subrange(1, p.len() as int)
    } else {
        p
    }
}

/// The events published, oldest first, at most `max_history_size` of them.
#[derive(Debug)]
pub struct EventBus {
    pub event_history: Vec<AppEvent>,
    pub max_history_size: usize,
}

impl EventBus {
    /// An empty history of at most a thousand events.
    pub fn new() -> (b: EventBus)
        ensures
            b.event_history@.len() == 0,
            b.max_history_size == 1000,
    {
        EventBus { event_history: Vec::new(), max_history_size: 1000 }
    }

    /// Publishes an event: it joins the history.
    pub fn publish(&mut self, event: AppEvent)
        ensures
            final(self).event_history@ == history_with(
                old(self).event_history@,
                event,
                old(self).max_history_size as nat,
            ),
            final(self).max_history_size == old(self).max_history_size,
    {
        self.event_history.push(event);
        if self.event_history.len() > self.max_history_size {
            self.event_history.remove(0);
        }
        proof {
            let p = old(self).event_history@.push(event);
            if p.len() > old(self).max_history_size {
                assert(self.event_history@ =~= p.subrange(1, p.len() as int));
            }
        }
    }

    /// The events published, oldest first.
    pub fn get_history(&self) -> (h: Vec<&AppEvent>)
        ensures
            seq_deref(h@) == self.event_history@,
    {
        let mut h: Vec<&AppEvent> = Vec::new();
        let mut i: usize = 0;
        while i < self.event_history.len()
            invariant
                i <= self.event_history@.len(),
                seq_deref(h@) == self.event_history@.take(i as int),
            decreases self.event_history@.len() - i,
        {
            let ghost before = h@;
            h.push(&self.event_history[i]);
            proof {
                assert(seq_deref(h@) =~= seq_deref(before).push(self.event_history@[i as int]));
                assert(self.event_history@.take(i + 1) =~= self.event_history@.take(i as int).push(
                    self.event_history@[i as int],
                ));
            }
            i = i + 1;
        }
        assert(self.event_history@.take(i as int) =~= self.event_history@);
        h
    }

    /// Forgets every event.
    pub fn clear_history(&mut self)
        ensures
            final(self).event_history@.len() == 0,
            final(self).max_history_size == old(self).max_history_size,
    {
        self.event_history = Vec::new();
    }

    /// The most recent events of a type, newest first, at most `count`.
    pub fn get_recent_events(&self, event_type: &str, count: usize) -> (r: Vec<&AppEvent>)
        ensures
            r@.len() == recent_of_type(self.event_history@, event_type@, count as nat).len(),
            forall|i: int| 0 <= i < r@.len() ==> *r@[i] == recent_of_type(self.event_history@, event_type@, count as nat)[i],
    {
        let mut r: Vec<&AppEvent> = Vec::new();
        let n = self.event_history.len();
        let mut i: usize = n;
        let ghost h = self.event_history@;
        proof {
            assert(h.take(n as int) =~= h);
            assert(seq_deref(r@) + recent_of_type(h, event_type@, count as nat) =~= recent_of_type(h, event_type@, count as nat));
        }
        while i > 0 && r.len() < count
            invariant
                i <= n,
                n == h.len(),
                h == self.event_history@,
                r@.len() <= count,
                recent_of_type(h, event_type@, count as nat) == seq_deref(r@) + recent_of_type(
                    h.take(i as int),
                    event_type@,
                    (count - r@.len()) as nat,
                ),
            decreases i,
        {
            let e = &self.event_history[i - 1];
            let ghost prefix = h.take(i as int);
            proof {
                assert(prefix.last() == h[i - 1]);
                assert(prefix.drop_last() =~= h.take(i - 1));
            }
            let t = e.event_type();
            if crate::text::str_eq(t, event_type) {
                let ghost before = r@;
                r.push(e);
                proof {
                    assert(seq_deref(r@) =~= seq_deref(before).push(h[i - 1]));
                    assert(seq_deref(before).push(h[i - 1]) + recent_of_type(h.take(i - 1), event_type@, (count - r@.len()) as nat)
                        =~= seq_deref(before) + (seq![h[i - 1]] + recent_of_type(h.take(i - 1), event_type@, (count - r@.len()) as nat)));
                }
            }
            i = i - 1;
        }
        proof {
            if i == 0 {
                assert(h.take(0).len() == 0);
            }
            assert(recent_of_type(h.take(i as int), event_type@, (count - r@.len()) as nat) =~= Seq::<AppEvent>::empty());
            assert(recent_of_type(h, event_type@, count as nat) =~= seq_deref(r@));
        }
        r
    }
}

/// A list of borrowed events as values.
pub open spec fn seq_deref(s: Seq<&AppEvent>) -> Seq<AppEvent> {
    s.map_values(|e: &AppEvent| *e)
}

/// What a component's handling of an action asks for.
#[derive(Debug)]
pub enum ComponentResult {
    /// No change is asked for.
    Unchanged,
    Transition(AppState),
    Message(String),
    Refresh,
    Error(String),
}

/// The component that handles a screen.
pub open spec fn component_for(s: AppState) -> Seq<char> {
    match s {
        AppState::MainMenu | AppState::ConfirmExit => "main_menu"@,
        AppState::DeckSelection | AppState::DeckManagement => "deck_selector"@,
        AppState::Learning | AppState::CardReview => "learning"@,
        AppState::Statistics => "statistics"@,
        AppState::Settings => "settings"@,
        AppState::Help => "help"@,
    }
}

/// The name of the component that handles a screen.
pub fn get_component_name_for_state(state: AppState) -> (n: &'static str)
    ensures
        n@ == component_for(state),
{
    match state {
        AppState::MainMenu => "main_menu",
        AppState::DeckSelection => "deck_selector",
        AppState::DeckManagement => "deck_selector",
        AppState::Learning => "learning",
        AppState::CardReview => "learning",
        AppState::Statistics => "statistics",
        AppState::Settings => "settings",
        AppState::Help => "help",
        AppState::ConfirmExit => "main_menu",
    }
}

/// The screen a screen moves to on an action when no component handles it:
/// escape returns to the main menu everywhere, quit asks to confirm on the
/// main menu, help opens help except from help and the exit dialog.
pub open spec fn fallback_spec(state: AppState, action: Action) -> Option<AppState> {
    if action == Action::Cancel {
        Some(AppState::MainMenu)
    } else if state == AppState::MainMenu && action == Action::Quit {
        Some(AppState::ConfirmExit)
    } else if action == Action::Help && state != AppState::Help && state != AppState::ConfirmExit {
        Some(AppState::Help)
    } else {
        None
    }
}

/// The default reaction of a screen to an action.
pub fn fallback_state_handling(action: Action, current_state: AppState) -> (r: Option<AppState>)
    ensures
        r == fallback_spec(current_state, action),
{
    match action {
        Action::Cancel => Some(AppState::MainMenu),
        Action::Quit => {
            if current_state == AppState::MainMenu {
                Some(AppState::ConfirmExit)
            } else {
                None
            }
        },
        Action::Help => {
            if current_state == AppState::Help || current_state == AppState::ConfirmExit {
                None
            } else {
                Some(AppState::Help)
            }
        },
        _ => None,
    }
}

/// The key hints of a screen.
pub open spec fn state_help_text(s: AppState) -> Seq<char> {
    match s {
        AppState::MainMenu => "↑↓ Navigate | Enter Select | q Quit | ? Help"@,
        AppState::DeckSelection | AppState::DeckManagement | AppState::Statistics =>
            "↑↓ Navigate | Enter Select | Back/Escape Cancel | ? Help"@,
        AppState::Learning | AppState::CardReview =>
            "1-4 Rate Card | Space Show Answer | W Switch Deck | Back/Escape Exit | ? Help"@,
        AppState::Settings => "↑↓ Navigate | Enter Toggle | Back/Escape Cancel | ? Help"@,
        AppState::Help => "↑↓ Scroll | Back/Escape Close | q Quit"@,
        AppState::ConfirmExit => "Enter Confirm | Back/Escape Cancel"@,
    }
}

/// The key hints shown at the bottom of a screen.
pub fn get_help_text_for_state(state: AppState) -> (s: &'static str)
    ensures
        s@ == state_help_text(state),
{
    match state {
        AppState::MainMenu => "↑↓ Navigate | Enter Select | q Quit | ? Help",
        AppState::DeckSelection => "↑↓ Navigate | Enter Select | Back/Escape Cancel | ? Help",
        AppState::DeckManagement => "↑↓ Navigate | Enter Select | Back/Escape Cancel | ? Help",
        AppState::Learning => "1-4 Rate Card | Space Show Answer | W Switch Deck | Back/Escape Exit | ? Help",
        AppState::CardReview => "1-4 Rate Card | Space Show Answer | W Switch Deck | Back/Escape Exit | ? Help",
        AppState::Statistics => "↑↓ Navigate | Enter Select | Back/Escape Cancel | ? Help",
        AppState::Settings => "↑↓ Navigate | Enter Toggle | Back/Escape Cancel | ? Help",
        AppState::Help => "↑↓ Scroll | Back/Escape Close | q Quit",
        AppState::ConfirmExit => "Enter Confirm | Back/Escape Cancel",
    }
}

} // verus!
