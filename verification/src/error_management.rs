//! Error severities, recovery actions and strategies, and the defaults of
//! error handling.
use vstd::prelude::*;
use vstd::string::*;

verus! {

/// How serious an error is, from least to most.
#[derive(Debug, Clone, Copy, PartialEq, Eq, Structural)]
pub enum ErrorSeverity {
    Info,
    Warning,
    Error,
    Critical,
}

/// The rank of a severity: higher is more serious.
pub open spec fn severity_rank(s: ErrorSeverity) -> nat {
    match s {
        ErrorSeverity::Info => 0,
        ErrorSeverity::Warning => 1,
        ErrorSeverity::Error => 2,
        ErrorSeverity::Critical => 3,
    }
}

/// The label of a severity.
pub open spec fn severity_label(s: ErrorSeverity) -> Seq<char> {
    match s {
        ErrorSeverity::Info => "INFO"@,
        ErrorSeverity::Warning => "WARNING"@,
        ErrorSeverity::Error => "ERROR"@,
        ErrorSeverity::Critical => "CRITICAL"@,
    }
}

impl ErrorSeverity {
    /// The severity's label in capitals.
    pub fn as_str(&self) -> (s: &'static str)
        ensures
            s@ == severity_label(*self),
    {
        match self {
            ErrorSeverity::Info => "INFO",
            ErrorSeverity::Warning => "WARNING",
            ErrorSeverity::Error => "ERROR",
            ErrorSeverity::Critical => "CRITICAL",
        }
    }

    /// The rank of the severity: higher is more serious.
    pub fn rank(&self) -> (r: u8)
        ensures
            r as nat == severity_rank(*self),
    {
        match self {
            ErrorSeverity::Info => 0,
            ErrorSeverity::Warning => 1,
            ErrorSeverity::Error => 2,
            ErrorSeverity::Critical => 3,
        }
    }

    /// Whether this severity is at least as serious as `other`.
    pub fn at_least(&self, other: &ErrorSeverity) -> (b: bool)
        ensures
            b == (severity_rank(*self) >= severity_rank(*other)),
    {
        self.rank() >= other.rank()
    }
}

/// A way to recover from an error.
#[derive(Debug)]
pub enum RecoveryAction {
    Retry,
    Refresh,
    SaveAs,
    CheckConnection,
    CheckPermissions,
    CorrectInput(String),
    ResetField(String),
    ShowHelp(String),
    ShowExamples,
    ShowDetails,
    Cancel,
}

/// The level of a message to the user.
#[derive(Debug, Clone, Copy, PartialEq, Eq, Structural)]
pub enum UserMessageLevel {
    Info,
    Success,
    Warning,
    Error,
}

/// How errors of one kind are recovered from.
#[derive(Debug)]
pub struct RecoveryStrategy {
    pub can_auto_recover: bool,
    pub max_attempts: u32,
    pub actions: Vec<RecoveryAction>,
}

/// How errors are handled.
#[derive(Debug, Clone, Copy, PartialEq, Eq, Structural)]
pub struct ErrorConfig {
    pub max_history_size: usize,
    pub max_active_messages: usize,
    pub auto_recovery: bool,
    pub max_retries: u32,
    pub retry_delay_ms: u64,
}

impl Default for ErrorConfig {
    /// A hundred errors remembered, ten messages shown, automatic recovery
    /// with three retries a second apart.
    fn default() -> (c: ErrorConfig)
        ensures
            c == (ErrorConfig {
                max_history_size: 100,
                max_active_messages: 10,
                auto_recovery: true,
                max_retries: 3,
                retry_delay_ms: 1000,
            }),
    {
        ErrorConfig {
            max_history_size: 100,
            max_active_messages: 10,
            auto_recovery: true,
            max_retries: 3,
            retry_delay_ms: 1000,
        }
    }
}

/// Chooses how to recover from errors.
#[derive(Debug)]
pub struct RecoveryManager {
    pub auto_recovery: bool,
    pub max_retries: u32,
    pub retry_delay_ms: u64,
    pub recovery_strategies: Vec<(String, RecoveryStrategy)>,
}

impl Default for RecoveryManager {
    /// Automatic recovery, three retries a second apart, no strategies.
    fn default() -> (m: RecoveryManager)
        ensures
            m.auto_recovery,
            m.max_retries == 3,
            m.retry_delay_ms == 1000,
            m.recovery_strategies@.len() == 0,
    {
        RecoveryManager { auto_recovery: true, max_retries: 3, retry_delay_ms: 1000, recovery_strategies: Vec::new() }
    }
}

/// Counts of the errors seen.
#[derive(Debug, Clone, Copy, PartialEq, Eq, Structural)]
pub struct ErrorStatistics {
    pub total_count: usize,
    pub critical_count: usize,
    pub error_count: usize,
    pub warning_count: usize,
    pub info_count: usize,
    /// When the last error happened, seconds since the epoch.
    pub most_recent_error: Option<i64>,
    pub recoverable_count: usize,
    pub non_recoverable_count: usize,
}

impl ErrorStatistics {
    /// No errors counted.
    pub open spec fn default_spec() -> ErrorStatistics {
        ErrorStatistics {
            total_count: 0,
            critical_count: 0,
            error_count: 0,
            warning_count: 0,
            info_count: 0,
            most_recent_error: None,
            recoverable_count: 0,
            non_recoverable_count: 0,
        }
    }
}

impl Default for ErrorStatistics {
    fn default() -> (s: ErrorStatistics)
        ensures
            s == (ErrorStatistics {
                total_count: 0,
                critical_count: 0,
                error_count: 0,
                warning_count: 0,
                info_count: 0,
                most_recent_error: None,
                recoverable_count: 0,
                non_recoverable_count: 0,
            }),
    {
        ErrorStatistics {
            total_count: 0,
            critical_count: 0,
            error_count: 0,
            warning_count: 0,
            info_count: 0,
            most_recent_error: None,
            recoverable_count: 0,
            non_recoverable_count: 0,
        }
    }
}

/// An error of the interface, with where and when it happened (times in
/// seconds since the epoch).
#[derive(Debug)]
pub enum TUIError {
    RenderError { component: String, operation: String, reason: String, timestamp: i64 },
    InputError { input_type: String, expected_format: String, received_value: String, timestamp: i64 },
    ComponentError { component_name: String, operation: String, reason: String, timestamp: i64 },
    DataLoadError { resource_type: String, resource_id: Option<String>, reason: String, timestamp: i64 },
    DataSaveError { resource_type: String, resource_id: Option<String>, reason: String, timestamp: i64 },
    OperationError { operation: String, context: String, reason: String, timestamp: i64 },
    ValidationError { field: String, value: String, validation_rule: String, timestamp: i64 },
    SystemError { component: String, operation: String, reason: String, timestamp: i64, error_code: Option<u32> },
}

/// What a recovery attempt led to.
#[derive(Debug)]
pub enum RecoveryResult {
    RetryRequested,
    RefreshRequested,
    SaveAsDialog,
    ConnectionCheck,
    PermissionCheck,
    InputCorrection(String),
    FieldReset(String),
    HelpDialog(String),
    ExamplesDialog,
    ErrorDetails(TUIError),
    CancelOperation,
    NoAction,
}

/// A message to the user, with the time it was made (seconds since the
/// epoch) and, where it goes away by itself, after how many milliseconds.
#[derive(Debug)]
pub struct UserMessage {
    pub level: UserMessageLevel,
    pub content: String,
    pub timestamp: i64,
    pub auto_dismiss_ms: Option<u64>,
}

/// An error as remembered, with its context and what recovery did.
#[derive(Debug)]
pub struct ErrorRecord {
    pub error: TUIError,
    pub context: String,
    pub recovery_attempted: bool,
    pub recovery_result: Option<RecoveryResult>,
}

/// Remembers errors and the messages shown for them.
#[derive(Debug)]
pub struct ErrorManager {
    pub history: Vec<ErrorRecord>,
    pub active_messages: Vec<UserMessage>,
    pub statistics: ErrorStatistics,
    pub max_history_size: usize,
    pub max_active_messages: usize,
}

impl Default for ErrorManager {
    /// Nothing remembered; room for a hundred errors and ten messages.
    fn default() -> (m: ErrorManager)
        ensures
            m.history@.len() == 0,
            m.active_messages@.len() == 0,
            m.statistics == ErrorStatistics::default_spec(),
            m.max_history_size == 100,
            m.max_active_messages == 10,
    {
        ErrorManager {
            history: Vec::new(),
            active_messages: Vec::new(),
            statistics: ErrorStatistics::default(),
            max_history_size: 100,
            max_active_messages: 10,
        }
    }
}

/// Error handling as a whole: the record keeper, recovery, and the settings.
#[derive(Debug)]
pub struct ErrorManagement {
    pub error_manager: ErrorManager,
    pub recovery_manager: RecoveryManager,
    pub config: ErrorConfig,
}

impl Default for ErrorManagement {
    /// The defaults of each part.
    fn default() -> (m: ErrorManagement)
        ensures
            m.error_manager.history@.len() == 0,
            m.error_manager.active_messages@.len() == 0,
            m.error_manager.statistics == ErrorStatistics::default_spec(),
            m.error_manager.max_history_size == 100,
            m.error_manager.max_active_messages == 10,
            m.recovery_manager.auto_recovery,
            m.recovery_manager.max_retries == 3,
            m.recovery_manager.retry_delay_ms == 1000,
            m.recovery_manager.recovery_strategies@.len() == 0,
            m.config == (ErrorConfig {
                max_history_size: 100,
                max_active_messages: 10,
                auto_recovery: true,
                max_retries: 3,
                retry_delay_ms: 1000,
            }),
    {
        ErrorManagement {
            error_manager: ErrorManager::default(),
            recovery_manager: RecoveryManager::default(),
            config: ErrorConfig::default(),
        }
    }
}

} // verus!
