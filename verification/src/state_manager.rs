//! The state manager of the component layer: the current screen, the one
//! before it, the recent history, and how actions move between screens.
use vstd::prelude::*;
use vstd::string::*;
use crate::input::Action;
use crate::screens::{AppState, app_state_label};
use crate::ui_map::UiMap;

verus! {

/// What components get when they are drawn.
#[derive(Debug)]
pub struct RenderContext {
    pub state: AppState,
    pub data: UiMap,
    pub focused: bool,
}

/// How many screens the history keeps.
pub const MAX_STATE_HISTORY: usize = 10;

/// The history after leaving `current`: the oldest is dropped once more
/// than ten are kept.
pub open spec fn history_after_leaving(h: Seq<AppState>, current: AppState) -> Seq<AppState> {
    let p = h.push(current);
    if p.len() > MAX_STATE_HISTORY {
        p.subrange(1, p.len() as int)
    } else {
        p
    }
}

/// The screen the manager moves to on an action. The menu selection the
/// manager knows of is always the first entry.
pub open spec fn next_state(current: AppState, action: Action) -> AppState {
    if current == AppState::MainMenu && action == Action::Select {
        AppState::Learning
    } else if action == Action::Quit {
        AppState::ConfirmExit
    } else if action == Action::Cancel {
        AppState::MainMenu
    } else if action == Action::Help {
        AppState::Help
    } else if current == AppState::Learning && action == Action::BackTab {
        AppState::DeckSelection
    } else if current == AppState::DeckSelection && action == Action::Select {
        AppState::Learning
    } else {
        current
    }
}

/// The screens of the state manager as a value: current, previous, history.
pub type ScreensView = (AppState, Option<AppState>, Seq<AppState>);

/// The screens after moving to `target`.
pub open spec fn transition_spec(v: ScreensView, target: AppState) -> ScreensView {
    (target, Some(v.0), history_after_leaving(v.2, v.0))
}

/// The screens after going back, and whether there was a screen to go to.
pub open spec fn back_spec(v: ScreensView) -> (ScreensView, bool) {
    match v.1 {
        Some(p) => (transition_spec(v, p), true),
        None => (v, false),
    }
}

/// The state manager.
#[derive(Debug)]
pub struct StateManager {
    pub current_state: AppState,
    pub previous_state: Option<AppState>,
    pub state_history: Vec<AppState>,
    pub render_context: RenderContext,
}

impl StateManager {
    /// The screens as a value.
    pub open spec fn screens(&self) -> ScreensView {
        (self.current_state, self.previous_state, self.state_history@)
    }

    /// The main menu, focused, with nothing before it.
    pub fn new() -> (m: StateManager)
        ensures
            m.current_state == AppState::MainMenu,
            m.previous_state is None,
            m.state_history@.len() == 0,
            m.render_context.state == AppState::MainMenu,
            m.render_context.focused,
            m.render_context.data.wf(),
            m.render_context.data@ == Map::<Seq<char>, Seq<char>>::empty(),
    {
        StateManager {
            current_state: AppState::MainMenu,
            previous_state: None,
            state_history: Vec::new(),
            render_context: RenderContext { state: AppState::MainMenu, data: UiMap::new(), focused: true },
        }
    }

    /// The current screen.
    pub fn current_state(&self) -> (s: AppState)
        ensures
            s == self.current_state,
    {
        self.current_state
    }

    /// The screen before the current one.
    pub fn previous_state(&self) -> (s: Option<AppState>)
        ensures
            s == self.previous_state,
    {
        self.previous_state
    }

    /// Moves to a screen, remembering the current one.
    pub fn transition_to(&mut self, new_state: AppState)
        ensures
            final(self).screens() == transition_spec(old(self).screens(), new_state),
            final(self).render_context.state == new_state,
            final(self).render_context.data == old(self).render_context.data,
            final(self).render_context.focused == old(self).render_context.focused,
    {
        self.previous_state = Some(self.current_state);
        self.state_history.push(self.current_state);
        if self.state_history.len() > MAX_STATE_HISTORY {
            self.state_history.remove(0);
        }
        proof {
            let p = old(self).state_history@.push(old(self).current_state);
            if p.len() > MAX_STATE_HISTORY {
                assert(self.state_history@ =~= p.subrange(1, p.len() as int));
            }
        }
        self.current_state = new_state;
        self.render_context.state = new_state;
    }

    /// Moves back to the screen before; `false` when there is none.
    pub fn go_back(&mut self) -> (moved: bool)
        ensures
            (final(self).screens(), moved) == back_spec(old(self).screens()),
            final(self).render_context.state == if moved {
                old(self).previous_state->0
            } else {
                old(self).render_context.state
            },
    {
        match self.previous_state {
            Some(prev) => {
                self.transition_to(prev);
                true
            },
            None => false,
        }
    }

    /// Moves as the action asks and answers the screen reached.
    pub fn handle_action(&mut self, action: Action) -> (s: AppState)
        ensures
            s == next_state(old(self).current_state, action),
            final(self).screens() == if s != old(self).current_state {
                transition_spec(old(self).screens(), s)
            } else {
                old(self).screens()
            },
    {
        let current = self.current_state;
        let new_state = if current == AppState::MainMenu && action == Action::Select {
            AppState::Learning
        } else if action == Action::Quit {
            AppState::ConfirmExit
        } else if action == Action::Cancel {
            AppState::MainMenu
        } else if action == Action::Help {
            AppState::Help
        } else if current == AppState::Learning && action == Action::BackTab {
            AppState::DeckSelection
        } else if current == AppState::DeckSelection && action == Action::Select {
            AppState::Learning
        } else {
            current
        };
        if new_state != current {
            self.transition_to(new_state);
        }
        new_state
    }

    /// A copy of what components get when they are drawn.
    pub fn get_render_context(&self) -> (c: RenderContext)
        ensures
            c.state == self.render_context.state,
            c.focused == self.render_context.focused,
            c.data@ == self.render_context.data@,
            c.data.wf() == self.render_context.data.wf(),
    {
        RenderContext {
            state: self.render_context.state,
            data: self.render_context.data.copy(),
            focused: self.render_context.focused,
        }
    }

    /// Sets a value of the render context.
    pub fn update_context_data(&mut self, key: String, value: String)
        requires
            old(self).render_context.data.wf(),
        ensures
            final(self).render_context.data.wf(),
            final(self).render_context.data@ == old(self).render_context.data@.insert(key@, value@),
            final(self).current_state == old(self).current_state,
    {
        self.render_context.data.insert(key, value);
    }

    /// Gives or takes the focus.
    pub fn set_focused(&mut self, focused: bool)
        ensures
            final(self).render_context.focused == focused,
            final(self).current_state == old(self).current_state,
            final(self).render_context.state == old(self).render_context.state,
    {
        self.render_context.focused = focused;
    }
}

/// Going back right after a move returns to the screen the move left, and
/// going back again returns to the target.
pub proof fn lemma_back_after_transition(v: ScreensView, target: AppState)
    ensures
        back_spec(transition_spec(v, target)).1,
        back_spec(transition_spec(v, target)).0.0 == v.0,
        back_spec(back_spec(transition_spec(v, target)).0).0.0 == target,
{
}

/// An error of the state manager.
#[derive(Debug, Clone, Copy, PartialEq, Eq, Structural)]
pub enum StateError {
    InvalidTransition { from: AppState, to: AppState },
    EmptyHistory,
    ActionNotAllowed { state: AppState },
}

/// The text of a state error.
pub open spec fn state_error_text(e: StateError) -> Seq<char> {
    match e {
        StateError::InvalidTransition { from, to } => "Invalid state transition from "@ + app_state_label(from)
            + " to "@ + app_state_label(to),
        StateError::EmptyHistory => "State history is empty"@,
        StateError::ActionNotAllowed { state } => "Action not allowed in current state "@ + app_state_label(
            state,
        ),
    }
}

impl StateError {
    /// The error's text.
    pub fn message(&self) -> (s: String)
        ensures
            s@ == state_error_text(*self),
    {
        match self {
            StateError::InvalidTransition { from, to } => {
                let f = from.label();
                let t = to.label();
                String::from_str("Invalid state transition from ").concat(f.as_str()).concat(" to ").concat(
                    t.as_str(),
                )
            },
            StateError::EmptyHistory => String::from_str("State history is empty"),
            StateError::ActionNotAllowed { state } => {
                let s = state.label();
                String::from_str("Action not allowed in current state ").concat(s.as_str())
            },
        }
    }
}

} // verus!
