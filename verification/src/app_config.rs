//! Configuration of the application, its event loop and its terminal, and
//! the decision to keep the event loop running.
use vstd::prelude::*;
use vstd::string::*;
use crate::command::{Command, CommandKind};
use crate::tui_error::{TuiError, TuiResult};

verus! {

/// The version of the interface.
pub const VERSION: &'static str = "0.1.0";

/// Starts the interface; nothing can fail.
pub fn init() -> (r: TuiResult<()>)
    ensures
        r is Ok,
{
    Ok(())
}

/// How the event loop runs: a tick every `tick_rate_ms` milliseconds.
#[derive(Debug, Clone, Copy, PartialEq, Eq, Structural)]
pub struct EventLoopConfig {
    pub tick_rate_ms: u64,
    pub enable_mouse: bool,
    pub enable_bracketed_paste: bool,
    pub capture_keyboard: bool,
}

impl Default for EventLoopConfig {
    /// About 60 frames a second, with mouse, paste and keyboard capture on.
    fn default() -> (c: EventLoopConfig)
        ensures
            c == (EventLoopConfig {
                tick_rate_ms: 16,
                enable_mouse: true,
                enable_bracketed_paste: true,
                capture_keyboard: true,
            }),
    {
        EventLoopConfig { tick_rate_ms: 16, enable_mouse: true, enable_bracketed_paste: true, capture_keyboard: true }
    }
}

/// The configuration of the application; its tick rate in milliseconds.
#[derive(Debug)]
pub struct AppConfig {
    pub title: String,
    pub enable_mouse: bool,
    pub enable_bracketed_paste: bool,
    pub tick_rate_ms: u64,
    pub debug: bool,
}

impl Default for AppConfig {
    fn default() -> (c: AppConfig)
        ensures
            c.title@ == "AnkiTUI V2"@,
            c.enable_mouse,
            c.enable_bracketed_paste,
            c.tick_rate_ms == 16,
            !c.debug,
    {
        AppConfig {
            title: String::from_str("AnkiTUI V2"),
            enable_mouse: true,
            enable_bracketed_paste: true,
            tick_rate_ms: 16,
            debug: false,
        }
    }
}

/// What is wrong with a configuration, if anything.
pub open spec fn config_problem(title: Seq<char>, tick_rate_ms: nat) -> Option<Seq<char>> {
    if title.len() == 0 {
        Some("Application title cannot be empty"@)
    } else if tick_rate_ms == 0 {
        Some("Tick rate must be greater than 0"@)
    } else if tick_rate_ms > 1000 {
        Some("Tick rate should not exceed 1000ms for smooth UI"@)
    } else {
        None
    }
}

/// Checks a configuration: a title, and a tick rate from 1 to 1000 ms.
pub fn validate_config(config: &AppConfig) -> (r: TuiResult<()>)
    ensures
        match config_problem(config.title@, config.tick_rate_ms as nat) {
            None => r is Ok,
            Some(m) => r matches Err(TuiError::State { message }) && message@ == m,
        },
{
    if config.title.unicode_len() == 0 {
        return Err(TuiError::State { message: String::from_str("Application title cannot be empty") });
    }
    if config.tick_rate_ms == 0 {
        return Err(TuiError::State { message: String::from_str("Tick rate must be greater than 0") });
    }
    if config.tick_rate_ms > 1000 {
        return Err(
            TuiError::State { message: String::from_str("Tick rate should not exceed 1000ms for smooth UI") },
        );
    }
    Ok(())
}

/// The terminal's configuration.
#[derive(Debug)]
pub struct TerminalConfig {
    pub enable_mouse: bool,
    pub enable_bracketed_paste: bool,
    pub title: Option<String>,
}

impl Default for TerminalConfig {
    fn default() -> (c: TerminalConfig)
        ensures
            c.enable_mouse,
            c.enable_bracketed_paste,
            c.title matches Some(t) && t@ == "AnkiTUI V2"@,
    {
        TerminalConfig {
            enable_mouse: true,
            enable_bracketed_paste: true,
            title: Some(String::from_str("AnkiTUI V2")),
        }
    }
}

/// Whether the event loop goes on after a command: it stops on quit.
pub open spec fn continues_after(cmd: CommandKind<Seq<char>, Seq<(Seq<char>, Seq<char>)>>) -> bool {
    !(cmd is Quit)
}

/// Connects commands to the application; the commands themselves are run
/// by the application (which the caller holds), this decides whether the
/// loop goes on.
pub struct ApplicationEventProcessor {}

impl ApplicationEventProcessor {
    /// A processor for the application the caller holds.
    pub fn new() -> (p: ApplicationEventProcessor) {
        ApplicationEventProcessor {}
    }

    /// Takes a command the application has run, with the application's
    /// result: an error is passed on; otherwise the answer says whether the
    /// event loop goes on.
    pub fn process_command(&mut self, command: &Command, handled: TuiResult<()>) -> (r: TuiResult<bool>)
        ensures
            match handled {
                Ok(_) => r == Ok::<bool, TuiError>(continues_after(command@.command_type)),
                Err(e) => r == Err::<bool, TuiError>(e),
            },
    {
        match handled {
            Ok(_) => Ok(
                match command.command_type {
                    CommandKind::Quit => false,
                    _ => true,
                },
            ),
            Err(e) => Err(e),
        }
    }
}

} // verus!
