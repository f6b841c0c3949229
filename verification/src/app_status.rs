//! The application-level state: the state of the services, of the running
//! program and of error handling, and snapshots of it for monitoring.
use vstd::prelude::*;
use vstd::string::*;
use crate::clock::now_unix_seconds;
use crate::error_management::{ErrorConfig, ErrorManagement, ErrorSeverity, ErrorStatistics};
use crate::ids::{id_to_text, nibble, random_id, uuid_text};

verus! {

/// The interface settings of the application.
#[derive(Debug)]
pub struct UIAppState {
    pub focused_area: String,
    pub theme: String,
    pub language: String,
    pub show_help: bool,
}

/// The state of the deck manager (times in seconds since the epoch).
#[derive(Debug)]
pub struct DeckManagerState {
    pub initialized: bool,
    pub last_load_time: Option<i64>,
    pub deck_count: usize,
    pub error: Option<String>,
}

/// The state of a learning session.
#[derive(Debug)]
pub struct SessionControllerState {
    pub active: bool,
    pub start_time: i64,
    pub current_deck_id: Option<String>,
    pub cards_studied: usize,
    pub error: Option<String>,
}

/// The state of the statistics engine.
#[derive(Debug)]
pub struct StatsEngineState {
    pub initialized: bool,
    pub last_calculation: Option<i64>,
    pub cached_data: Option<Vec<(String, String)>>,
    pub error: Option<String>,
}

/// The state of the services.
#[derive(Debug)]
pub struct ServiceState {
    pub deck_manager_state: DeckManagerState,
    pub session_controller_state: Option<SessionControllerState>,
    pub stats_engine_state: StatsEngineState,
}

/// Rendering figures.
#[derive(Debug)]
pub struct PerformanceState {
    pub last_render_time: Option<i64>,
    pub render_count: usize,
    pub memory_usage: Option<usize>,
}

/// The user's session: who, which session, last activity, and how long it
/// has run in seconds.
#[derive(Debug)]
pub struct UserSessionState {
    pub user_id: Option<String>,
    pub session_id: String,
    pub last_activity: i64,
    pub duration: u64,
}

/// The state of the running program.
#[derive(Debug)]
pub struct RuntimeState {
    pub start_time: i64,
    pub current_action: Option<String>,
    pub performance: PerformanceState,
    pub session: UserSessionState,
}

/// The state of error handling.
#[derive(Debug)]
pub struct ErrorState {
    pub error_management: ErrorManagement,
    pub last_error_time: Option<i64>,
    pub error_count: usize,
    pub warning_count: usize,
}

/// The application-level state.
#[derive(Debug)]
pub struct ApplicationState {
    pub ui_state: UIAppState,
    pub service_state: ServiceState,
    pub runtime_state: RuntimeState,
    pub error_state: ErrorState,
}

/// A summary of the application state for monitoring and debugging.
#[derive(Debug)]
pub struct ApplicationStateSnapshot {
    pub ui_focused_area: String,
    pub deck_count: usize,
    pub session_active: bool,
    pub render_count: usize,
    pub error_count: usize,
    pub uptime_seconds: i64,
}

/// Whether a state is the one a program starts with at time `now` in the
/// session with the given id.
pub open spec fn is_initial_state(s: ApplicationState, now: i64, session_id: Seq<char>) -> bool {
    &&& s.ui_state.focused_area@ == "main"@
    &&& s.ui_state.theme@ == "default"@
    &&& s.ui_state.language@ == "en"@
    &&& !s.ui_state.show_help
    &&& !s.service_state.deck_manager_state.initialized
    &&& s.service_state.deck_manager_state.last_load_time is None
    &&& s.service_state.deck_manager_state.deck_count == 0
    &&& s.service_state.deck_manager_state.error is None
    &&& s.service_state.session_controller_state is None
    &&& !s.service_state.stats_engine_state.initialized
    &&& s.service_state.stats_engine_state.last_calculation is None
    &&& s.service_state.stats_engine_state.cached_data is None
    &&& s.service_state.stats_engine_state.error is None
    &&& s.runtime_state.start_time == now
    &&& s.runtime_state.current_action is None
    &&& s.runtime_state.performance.last_render_time is None
    &&& s.runtime_state.performance.render_count == 0
    &&& s.runtime_state.performance.memory_usage is None
    &&& s.runtime_state.session.user_id is None
    &&& s.runtime_state.session.session_id@ == session_id
    &&& s.runtime_state.session.last_activity == now
    &&& s.runtime_state.session.duration == 0
    &&& s.error_state.error_management.error_manager.history@.len() == 0
    &&& s.error_state.error_management.error_manager.active_messages@.len() == 0
    &&& s.error_state.error_management.error_manager.statistics == ErrorStatistics::default_spec()
    &&& s.error_state.error_management.error_manager.max_history_size == 100
    &&& s.error_state.error_management.error_manager.max_active_messages == 10
    &&& s.error_state.error_management.recovery_manager.auto_recovery
    &&& s.error_state.error_management.recovery_manager.max_retries == 3
    &&& s.error_state.error_management.recovery_manager.retry_delay_ms == 1000
    &&& s.error_state.error_management.recovery_manager.recovery_strategies@.len() == 0
    &&& s.error_state.error_management.config == (ErrorConfig {
        max_history_size: 100,
        max_active_messages: 10,
        auto_recovery: true,
        max_retries: 3,
        retry_delay_ms: 1000,
    })
    &&& s.error_state.last_error_time is None
    &&& s.error_state.error_count == 0
    &&& s.error_state.warning_count == 0
}

impl ApplicationState {
    /// The state a program starts with at time `now` in the given session.
    pub fn starting_at(now: i64, session_id: String) -> (s: ApplicationState)
        ensures
            is_initial_state(s, now, session_id@),
    {
        ApplicationState {
            ui_state: UIAppState {
                focused_area: String::from_str("main"),
                theme: String::from_str("default"),
                language: String::from_str("en"),
                show_help: false,
            },
            service_state: ServiceState {
                deck_manager_state: DeckManagerState {
                    initialized: false,
                    last_load_time: None,
                    deck_count: 0,
                    error: None,
                },
                session_controller_state: None,
                stats_engine_state: StatsEngineState {
                    initialized: false,
                    last_calculation: None,
                    cached_data: None,
                    error: None,
                },
            },
            runtime_state: RuntimeState {
                start_time: now,
                current_action: None,
                performance: PerformanceState { last_render_time: None, render_count: 0, memory_usage: None },
                session: UserSessionState { user_id: None, session_id, last_activity: now, duration: 0 },
            },
            error_state: ErrorState {
                error_management: ErrorManagement::default(),
                last_error_time: None,
                error_count: 0,
                warning_count: 0,
            },
        }
    }
}

impl Default for ApplicationState {
    /// The state of a program starting now, in a session with a fresh random id.
    fn default() -> (s: ApplicationState)
        ensures
            exists|now: i64, id: u128| nibble(id, 12) == 4 && is_initial_state(s, now, uuid_text(id)),
    {
        let now = now_unix_seconds();
        let id = random_id();
        let s = ApplicationState::starting_at(now, id_to_text(id));
        assert(nibble(id, 12) == 4 && is_initial_state(s, now, uuid_text(id)));
        s
    }
}

/// Manages the application-level state.
#[derive(Debug)]
pub struct ApplicationStateManager {
    pub state: ApplicationState,
}

impl ApplicationStateManager {
    /// A manager of the state of a program starting now, in a session with a
    /// fresh random id.
    pub fn new() -> (m: ApplicationStateManager)
        ensures
            exists|now: i64, id: u128| nibble(id, 12) == 4 && is_initial_state(m.state, now, uuid_text(id)),
    {
        ApplicationStateManager { state: ApplicationState::default() }
    }

    /// Marks the services initialized at time `now`, given the deck count
    /// the deck manager reported: on a failure only the deck manager is
    /// marked, and the failure is returned.
    pub fn initialize_services_at(&mut self, deck_count: Result<usize, String>, now: i64) -> (r: Result<(), String>)
        ensures
            final(self).state.service_state.deck_manager_state.initialized,
            final(self).state.service_state.deck_manager_state.last_load_time == Some(now),
            final(self).state.service_state.deck_manager_state.error == old(self).state.service_state.deck_manager_state.error,
            final(self).state.ui_state == old(self).state.ui_state,
            final(self).state.runtime_state == old(self).state.runtime_state,
            final(self).state.error_state == old(self).state.error_state,
            final(self).state.service_state.session_controller_state == old(self).state.service_state.session_controller_state,
            match deck_count {
                Ok(n) => {
                    &&& r is Ok
                    &&& final(self).state.service_state.deck_manager_state.deck_count == n
                    &&& final(self).state.service_state.stats_engine_state.initialized
                    &&& final(self).state.service_state.stats_engine_state.last_calculation == Some(now)
                    &&& final(self).state.service_state.stats_engine_state.cached_data == old(self).state.service_state.stats_engine_state.cached_data
                    &&& final(self).state.service_state.stats_engine_state.error == old(self).state.service_state.stats_engine_state.error
                },
                Err(e) => {
                    &&& r == Err::<(), String>(e)
                    &&& final(self).state.service_state.deck_manager_state.deck_count == old(self).state.service_state.deck_manager_state.deck_count
                    &&& final(self).state.service_state.stats_engine_state == old(self).state.service_state.stats_engine_state
                },
            },
    {
        self.state.service_state.deck_manager_state.initialized = true;
        self.state.service_state.deck_manager_state.last_load_time = Some(now);
        match deck_count {
            Ok(n) => {
                self.state.service_state.deck_manager_state.deck_count = n;
                self.state.service_state.stats_engine_state.initialized = true;
                self.state.service_state.stats_engine_state.last_calculation = Some(now);
                Ok(())
            },
            Err(e) => Err(e),
        }
    }

    /// `initialize_services_at` at the current time.
    pub fn initialize_services(&mut self, deck_count: Result<usize, String>) -> (r: Result<(), String>)
        ensures
            final(self).state.service_state.deck_manager_state.initialized,
            final(self).state.service_state.deck_manager_state.last_load_time is Some,
            (r is Ok) == (deck_count is Ok),
            deck_count matches Ok(n) ==> (final(self).state.service_state.deck_manager_state.deck_count == n
                && final(self).state.service_state.stats_engine_state.initialized),
    {
        let now = now_unix_seconds();
        self.initialize_services_at(deck_count, now)
    }

    /// Records a learning session started on a deck at time `now`, once the
    /// session controller has been made; if making it failed, nothing changes.
    pub fn start_learning_session_at(&mut self, deck_id: String, controller: Result<(), String>, now: i64) -> (r: Result<(), String>)
        ensures
            match controller {
                Ok(_) => {
                    &&& r is Ok
                    &&& final(self).state.service_state.session_controller_state matches Some(s) && {
                        &&& s.active
                        &&& s.start_time == now
                        &&& s.current_deck_id matches Some(d) && d@ == deck_id@
                        &&& s.cards_studied == 0
                        &&& s.error is None
                    }
                    &&& final(self).state.runtime_state.current_action matches Some(a) && a@ == "start_learning_session"@
                    &&& final(self).state.ui_state == old(self).state.ui_state
                    &&& final(self).state.error_state == old(self).state.error_state
                    &&& final(self).state.service_state.deck_manager_state == old(self).state.service_state.deck_manager_state
                    &&& final(self).state.service_state.stats_engine_state == old(self).state.service_state.stats_engine_state
                    &&& final(self).state.runtime_state.start_time == old(self).state.runtime_state.start_time
                    &&& final(self).state.runtime_state.performance == old(self).state.runtime_state.performance
                    &&& final(self).state.runtime_state.session == old(self).state.runtime_state.session
                },
                Err(e) => r == Err::<(), String>(e) && *final(self) == *old(self),
            },
    {
        match controller {
            Err(e) => Err(e),
            Ok(_) => {
                self.state.service_state.session_controller_state = Some(
                    SessionControllerState {
                        active: true,
                        start_time: now,
                        current_deck_id: Some(deck_id),
                        cards_studied: 0,
                        error: None,
                    },
                );
                self.state.runtime_state.current_action = Some(String::from_str("start_learning_session"));
                Ok(())
            },
        }
    }

    /// `start_learning_session_at` at the current time.
    pub fn start_learning_session(&mut self, deck_id: String, controller: Result<(), String>) -> (r: Result<(), String>)
        ensures
            (r is Ok) == (controller is Ok),
            r is Ok ==> (final(self).state.service_state.session_controller_state matches Some(s) && s.active
                && (s.current_deck_id matches Some(d) && d@ == deck_id@) && s.cards_studied == 0),
            r is Err ==> *final(self) == *old(self),
    {
        let now = now_unix_seconds();
        self.start_learning_session_at(deck_id, controller, now)
    }

    /// Marks the learning session, if any, inactive.
    pub fn end_learning_session(&mut self)
        ensures
            match old(self).state.service_state.session_controller_state {
                Some(s) => final(self).state.service_state.session_controller_state == Some(
                    SessionControllerState { active: false, ..s },
                ),
                None => final(self).state.service_state.session_controller_state is None,
            },
            final(self).state.runtime_state.current_action matches Some(a) && a@ == "end_learning_session"@,
            final(self).state.ui_state == old(self).state.ui_state,
            final(self).state.error_state == old(self).state.error_state,
            final(self).state.service_state.deck_manager_state == old(self).state.service_state.deck_manager_state,
            final(self).state.service_state.stats_engine_state == old(self).state.service_state.stats_engine_state,
            final(self).state.runtime_state.start_time == old(self).state.runtime_state.start_time,
            final(self).state.runtime_state.performance == old(self).state.runtime_state.performance,
            final(self).state.runtime_state.session == old(self).state.runtime_state.session,
    {
        let taken = self.state.service_state.session_controller_state.take();
        match taken {
            Some(mut s) => {
                s.active = false;
                self.state.service_state.session_controller_state = Some(s);
            },
            None => {},
        }
        self.state.runtime_state.current_action = Some(String::from_str("end_learning_session"));
    }

    /// Counts a render made at time `now`.
    pub fn update_performance_at(&mut self, now: i64)
        requires
            old(self).state.runtime_state.performance.render_count < usize::MAX,
        ensures
            final(self).state.runtime_state.performance == (PerformanceState {
                last_render_time: Some(now),
                render_count: (old(self).state.runtime_state.performance.render_count + 1) as usize,
                ..old(self).state.runtime_state.performance
            }),
            final(self).state.ui_state == old(self).state.ui_state,
            final(self).state.service_state == old(self).state.service_state,
            final(self).state.error_state == old(self).state.error_state,
            final(self).state.runtime_state.start_time == old(self).state.runtime_state.start_time,
            final(self).state.runtime_state.current_action == old(self).state.runtime_state.current_action,
            final(self).state.runtime_state.session == old(self).state.runtime_state.session,
    {
        self.state.runtime_state.performance.last_render_time = Some(now);
        self.state.runtime_state.performance.render_count = self.state.runtime_state.performance.render_count + 1;
    }

    /// Counts a render made now.
    pub fn update_performance(&mut self)
        requires
            old(self).state.runtime_state.performance.render_count < usize::MAX,
        ensures
            final(self).state.runtime_state.performance.render_count == old(self).state.runtime_state.performance.render_count + 1,
            final(self).state.runtime_state.performance.last_render_time is Some,
    {
        let now = now_unix_seconds();
        self.update_performance_at(now);
    }

    /// Records user activity at time `now`: the session has lasted the
    /// seconds since the program started, taken as an unsigned number.
    pub fn update_user_activity_at(&mut self, now: i64)
        ensures
            final(self).state.runtime_state.session == (UserSessionState {
                last_activity: now,
                duration: (now - old(self).state.runtime_state.start_time) as u64,
                ..old(self).state.runtime_state.session
            }),
            final(self).state.ui_state == old(self).state.ui_state,
            final(self).state.service_state == old(self).state.service_state,
            final(self).state.error_state == old(self).state.error_state,
            final(self).state.runtime_state.start_time == old(self).state.runtime_state.start_time,
            final(self).state.runtime_state.current_action == old(self).state.runtime_state.current_action,
            final(self).state.runtime_state.performance == old(self).state.runtime_state.performance,
    {
        let elapsed: i128 = (now as i128) - (self.state.runtime_state.start_time as i128);
        self.state.runtime_state.session.last_activity = now;
        self.state.runtime_state.session.duration = elapsed as u64;
    }

    /// Records user activity now.
    pub fn update_user_activity(&mut self)
        ensures
            final(self).state.runtime_state.session.duration == (final(self).state.runtime_state.session.last_activity
                - old(self).state.runtime_state.start_time) as u64,
            final(self).state.runtime_state.start_time == old(self).state.runtime_state.start_time,
    {
        let now = now_unix_seconds();
        self.update_user_activity_at(now);
    }

    /// Records an error of the given severity at time `now`: errors and
    /// warnings are counted, other severities only dated.
    pub fn handle_error_at(&mut self, error: String, severity: ErrorSeverity, now: i64)
        requires
            severity == ErrorSeverity::Error ==> old(self).state.error_state.error_count < usize::MAX,
            severity == ErrorSeverity::Warning ==> old(self).state.error_state.warning_count < usize::MAX,
        ensures
            final(self).state.error_state.last_error_time == Some(now),
            final(self).state.error_state.error_count == old(self).state.error_state.error_count + if severity
                == ErrorSeverity::Error {
                1int
            } else {
                0
            },
            final(self).state.error_state.warning_count == old(self).state.error_state.warning_count + if severity
                == ErrorSeverity::Warning {
                1int
            } else {
                0
            },
            final(self).state.error_state.error_management == old(self).state.error_state.error_management,
            final(self).state.ui_state == old(self).state.ui_state,
            final(self).state.service_state == old(self).state.service_state,
            final(self).state.runtime_state == old(self).state.runtime_state,
    {
        self.state.error_state.last_error_time = Some(now);
        match severity {
            ErrorSeverity::Error => {
                self.state.error_state.error_count = self.state.error_state.error_count + 1;
            },
            ErrorSeverity::Warning => {
                self.state.error_state.warning_count = self.state.error_state.warning_count + 1;
            },
            _ => {},
        }
    }

    /// Records an error of the given severity now.
    pub fn handle_error(&mut self, error: String, severity: ErrorSeverity)
        requires
            severity == ErrorSeverity::Error ==> old(self).state.error_state.error_count < usize::MAX,
            severity == ErrorSeverity::Warning ==> old(self).state.error_state.warning_count < usize::MAX,
        ensures
            final(self).state.error_state.last_error_time is Some,
            final(self).state.error_state.error_count == old(self).state.error_state.error_count + if severity
                == ErrorSeverity::Error {
                1int
            } else {
                0
            },
            final(self).state.error_state.warning_count == old(self).state.error_state.warning_count + if severity
                == ErrorSeverity::Warning {
                1int
            } else {
                0
            },
    {
        let now = now_unix_seconds();
        self.handle_error_at(error, severity, now);
    }

    /// A snapshot of the state at time `now`.
    pub fn get_state_snapshot_at(&self, now: i64) -> (s: ApplicationStateSnapshot)
        ensures
            s.ui_focused_area@ == self.state.ui_state.focused_area@,
            s.deck_count == self.state.service_state.deck_manager_state.deck_count,
            s.session_active == match self.state.service_state.session_controller_state {
                Some(c) => c.active,
                None => false,
            },
            s.render_count == self.state.runtime_state.performance.render_count,
            s.error_count == self.state.error_state.error_count,
            s.uptime_seconds == (now - self.state.runtime_state.start_time) as i64,
    {
        let session_active = match &self.state.service_state.session_controller_state {
            Some(c) => c.active,
            None => false,
        };
        let elapsed: i128 = (now as i128) - (self.state.runtime_state.start_time as i128);
        ApplicationStateSnapshot {
            ui_focused_area: self.state.ui_state.focused_area.clone(),
            deck_count: self.state.service_state.deck_manager_state.deck_count,
            session_active,
            render_count: self.state.runtime_state.performance.render_count,
            error_count: self.state.error_state.error_count,
            uptime_seconds: elapsed as i64,
        }
    }

    /// A snapshot of the state now.
    pub fn get_state_snapshot(&self) -> (s: ApplicationStateSnapshot)
        ensures
            s.ui_focused_area@ == self.state.ui_state.focused_area@,
            s.deck_count == self.state.service_state.deck_manager_state.deck_count,
            s.session_active == match self.state.service_state.session_controller_state {
                Some(c) => c.active,
                None => false,
            },
            s.render_count == self.state.runtime_state.performance.render_count,
            s.error_count == self.state.error_state.error_count,
    {
        let now = now_unix_seconds();
        self.get_state_snapshot_at(now)
    }

    /// Starts over with the state of a program starting now.
    pub fn reset(&mut self)
        ensures
            exists|now: i64, id: u128| nibble(id, 12) == 4 && is_initial_state(final(self).state, now, uuid_text(id)),
    {
        *self = ApplicationStateManager::new();
    }
}

} // verus!
