//! Error types of the application and their classification.
//!
//! Errors are organized hierarchically: fatal errors (an actor died or a
//! channel broke) cannot be recovered from; each actor has its own error type
//! holding only the errors it can emit; all of them compose into [`AppError`].
use vstd::prelude::*;
use vstd::string::*;

use crate::text::{decimal, decimal_string};

verus! {

#[verifier::external_type_specification]
#[verifier::external_body]
pub struct ExIoError(std::io::Error);

#[verifier::external_type_specification]
#[verifier::external_body]
pub struct ExReqwestError(reqwest::Error);

// ============================================================================
// Fatal (Unrecoverable) Errors
// ============================================================================
/// Fatal errors: an actor has died or communication with it failed.
#[derive(Debug)]
pub enum FatalActorError {
    /// Actor has died - communication channel closed.
    ActorDied {
        /// Name of the actor that died
        actor_name: &'static str,
    },
    /// Failed to send message to actor.
    ActorSendFailed {
        /// Name of the actor
        actor_name: &'static str,
        /// Description of the operation being performed
        operation: String,
    },
    /// Failed to receive response from actor.
    ActorRecvFailed {
        /// Name of the actor
        actor_name: &'static str,
        /// Description of the operation being performed
        operation: String,
    },
}

// ============================================================================
// Actor-Specific Error Types
// ============================================================================
/// Errors that can occur during network operations.
#[derive(Debug)]
pub enum NetError {
    /// Network request failed.
    RequestFailed {
        /// URL that was requested
        url: String,
        /// HTTP method used
        method: String,
        /// Whether this error is retryable
        retryable: bool,
        /// Underlying error source
        source: reqwest::Error,
        /// Human-readable error message
        message: String,
    },
    /// Fatal error that occurred during network actor operations.
    Fatal(FatalActorError),
}

/// Errors that can occur during filesystem operations.
#[derive(Debug)]
pub enum FsError {
    /// File or directory operation failed.
    OperationFailed {
        /// Path to the file or directory involved (if applicable)
        path: Option<String>,
        /// Description of the operation
        operation: String,
        /// Whether this error is retryable
        retryable: bool,
        /// Underlying error source
        source: std::io::Error,
    },
    /// Fatal error that occurred during filesystem actor operations.
    Fatal(FatalActorError),
}

/// Errors that can occur during logging operations.
#[derive(Debug)]
pub enum LogError {
    /// Log file operation failed.
    FileOperationFailed {
        /// Path to the log file
        path: String,
        /// Description of the operation
        operation: String,
        /// Underlying error source
        source: std::io::Error,
    },
    /// Logger has been flushed and cannot be used.
    AlreadyFlushed,
    /// Fatal error that occurred during logging actor operations.
    Fatal(FatalActorError),
}

/// Errors that can occur during shell command execution.
#[derive(Debug)]
pub enum ShellError {
    /// Command execution failed.
    ExecutionFailed {
        /// Command that was executed
        command: String,
        /// Arguments passed to the command
        args: Vec<String>,
        /// Human-readable error message
        message: String,
        /// Exit code (if available)
        exit_code: Option<i32>,
    },
    /// Command output encoding error.
    EncodingFailed {
        /// Command that was executed
        command: String,
    },
    /// Fatal error that occurred during shell actor operations.
    Fatal(FatalActorError),
}

/// Errors that can occur during terminal operations.
#[derive(Debug)]
pub enum TerminalError {
    /// Terminal initialization failed.
    InitFailed {
        /// Human-readable error message
        message: String,
    },
    /// Terminal operation failed.
    OperationFailed {
        /// Description of the operation
        operation: String,
        /// Text of the underlying error (if available)
        source: Option<String>,
    },
    /// Fatal error that occurred during terminal actor operations.
    Fatal(FatalActorError),
}

/// Errors that can occur during rendering operations.
#[derive(Debug)]
pub enum RenderError {
    /// Patch rendering failed.
    RenderingFailed {
        /// Human-readable error message
        message: String,
        /// Text of the underlying error (if available)
        source: Option<String>,
    },
    /// Fatal error that occurred during render actor operations.
    Fatal(FatalActorError),
}

/// Errors that can occur during configuration operations.
#[derive(Debug)]
pub enum ConfigError {
    /// Configuration file parsing failed.
    ParseFailed {
        /// Configuration key being accessed (if applicable)
        key: Option<String>,
        /// Text of the underlying TOML error
        source: String,
        /// Human-readable error message
        message: String,
    },
    /// Configuration value not found or invalid.
    InvalidValue {
        /// Configuration key being accessed (if applicable)
        key: Option<String>,
        /// Human-readable error message
        message: String,
    },
    /// Configuration file operation failed.
    FileOperationFailed {
        /// Path to the configuration file
        path: String,
        /// Description of the operation
        operation: String,
        /// Underlying error source
        source: std::io::Error,
    },
    /// Fatal error that occurred during configuration actor operations.
    Fatal(FatalActorError),
}

/// Errors that can occur during Lore API operations.
#[derive(Debug)]
pub enum LoreApiError {
    /// API request failed.
    RequestFailed {
        /// Endpoint that was requested
        endpoint: String,
        /// Human-readable error message
        message: String,
        /// Whether this error is retryable
        retryable: bool,
    },
    /// Response parsing failed.
    ParseFailed {
        /// Format being parsed (e.g., "HTML", "XML", "JSON")
        format: String,
        /// Description of the operation
        operation: String,
        /// Human-readable error details
        details: String,
    },
    /// Fatal error that occurred during Lore API actor operations.
    Fatal(FatalActorError),
}

/// Errors that can occur during cache operations.
#[derive(Debug)]
pub enum CacheError {
    /// Cache file operation failed.
    FileOperationFailed {
        /// Path to the cache file
        path: String,
        /// Description of the operation
        operation: String,
        /// Underlying error source
        source: std::io::Error,
    },
    /// Cache serialization/deserialization failed.
    SerializationFailed {
        /// Human-readable error message
        message: String,
        /// Text of the underlying error (if available)
        source: Option<String>,
    },
    /// Fatal error that occurred during cache actor operations.
    Fatal(FatalActorError),
}

/// Errors that can occur during environment variable operations.
#[derive(Debug)]
pub enum EnvError {
    /// Environment variable not found.
    NotFound {
        /// Name of the environment variable
        name: String,
    },
    /// Fatal error that occurred during environment actor operations.
    Fatal(FatalActorError),
}

/// Errors that can occur during UI operations.
#[derive(Debug)]
pub enum UiError {
    /// UI operation failed.
    OperationFailed {
        /// Description of the operation
        operation: String,
        /// Human-readable error message
        message: String,
    },
    /// Fatal error that occurred during UI actor operations.
    Fatal(FatalActorError),
}

/// Errors that can occur during application operations.
#[derive(Debug)]
pub enum AppOperationError {
    /// Application operation failed.
    OperationFailed {
        /// Human-readable error message
        message: String,
    },
    /// Fatal error that occurred during application actor operations.
    Fatal(FatalActorError),
}

// ============================================================================
// Top-Level App Error
// ============================================================================
/// Top-level application error type, composing all actor-specific errors.
#[derive(Debug)]
pub enum AppError {
    /// Fatal error that requires system-level changes.
    Fatal(FatalActorError),
    /// Network operation error.
    Net(NetError),
    /// Filesystem operation error.
    Fs(FsError),
    /// Logging operation error.
    Log(LogError),
    /// Shell command execution error.
    Shell(ShellError),
    /// Terminal operation error.
    Terminal(TerminalError),
    /// Rendering operation error.
    Render(RenderError),
    /// Configuration operation error.
    Config(ConfigError),
    /// Lore API operation error.
    LoreApi(LoreApiError),
    /// Cache operation error.
    Cache(CacheError),
    /// Environment variable operation error.
    Env(EnvError),
    /// UI operation error.
    Ui(UiError),
    /// Application operation error.
    App(AppOperationError),
}

/// The fatal error nested in an application error, if there is one.
pub open spec fn fatal_of(e: AppError) -> Option<FatalActorError> {
    match e {
        AppError::Fatal(f) => Some(f),
        AppError::Net(NetError::Fatal(f)) => Some(f),
        AppError::Fs(FsError::Fatal(f)) => Some(f),
        AppError::Log(LogError::Fatal(f)) => Some(f),
        AppError::Shell(ShellError::Fatal(f)) => Some(f),
        AppError::Terminal(TerminalError::Fatal(f)) => Some(f),
        AppError::Render(RenderError::Fatal(f)) => Some(f),
        AppError::Config(ConfigError::Fatal(f)) => Some(f),
        AppError::LoreApi(LoreApiError::Fatal(f)) => Some(f),
        AppError::Cache(CacheError::Fatal(f)) => Some(f),
        AppError::Env(EnvError::Fatal(f)) => Some(f),
        AppError::Ui(UiError::Fatal(f)) => Some(f),
        AppError::App(AppOperationError::Fatal(f)) => Some(f),
        _ => None,
    }
}

/// Whether an error is recoverable: every error but a fatal one, at the top
/// or nested in an actor-specific error.
pub open spec fn recoverable(e: AppError) -> bool {
    fatal_of(e) is None
}

/// Whether an error says that its operation can be retried: only network
/// and filesystem failures that are marked retryable.
pub open spec fn retryable(e: AppError) -> bool {
    match e {
        AppError::Net(NetError::RequestFailed { retryable, .. }) => retryable,
        AppError::Fs(FsError::OperationFailed { retryable, .. }) => retryable,
        _ => false,
    }
}

/// The delay, in milliseconds, after which a retry is suggested: 1000 for a
/// retryable network failure, 100 for a retryable filesystem failure.
pub open spec fn retry_delay_millis(e: AppError) -> Option<u64> {
    match e {
        AppError::Net(NetError::RequestFailed { retryable, .. }) => if retryable {
            Some(1000)
        } else {
            None
        },
        AppError::Fs(FsError::OperationFailed { retryable, .. }) => if retryable {
            Some(100)
        } else {
            None
        },
        _ => None,
    }
}

/// The suggestion given for a fatal error.
pub open spec fn fatal_suggestion(f: FatalActorError) -> Seq<char> {
    match f {
        FatalActorError::ActorDied { actor_name } => "Restart the "@ + actor_name@
            + " actor or the application"@,
        FatalActorError::ActorSendFailed { actor_name, .. } => "Check if the "@ + actor_name@
            + " actor is still running"@,
        FatalActorError::ActorRecvFailed { actor_name, .. } => "Check if the "@ + actor_name@
            + " actor is still running"@,
    }
}

/// The suggestion given for a recoverable error.
pub open spec fn domain_suggestion(e: AppError) -> Seq<char> {
    match e {
        AppError::Net(NetError::RequestFailed { retryable, .. }) => if retryable {
            "Retry the request after a brief delay"@
        } else {
            "Check the request parameters and network connectivity"@
        },
        AppError::Fs(FsError::OperationFailed { retryable, .. }) => if retryable {
            "Retry the operation after a brief delay"@
        } else {
            "Check file permissions and disk space"@
        },
        AppError::Config(ConfigError::ParseFailed { .. }) => "Check the TOML syntax in the configuration file"@,
        AppError::Config(ConfigError::InvalidValue { .. }) => "Check and fix the configuration file"@,
        AppError::Config(ConfigError::FileOperationFailed { .. }) => "Check file permissions for the configuration file"@,
        AppError::LoreApi(LoreApiError::ParseFailed { .. }) => "Check the data format and try again"@,
        AppError::LoreApi(LoreApiError::RequestFailed { retryable, .. }) => if retryable {
            "Retry the API request after a brief delay"@
        } else {
            "Check your network connection and API endpoint"@
        },
        AppError::Cache(CacheError::SerializationFailed { .. }) => "The cache file may be corrupted. Consider clearing the cache"@,
        AppError::Cache(CacheError::FileOperationFailed { .. }) => "Check file permissions and disk space for the cache directory"@,
        AppError::Env(EnvError::NotFound { name }) => "Set the "@ + name@ + " environment variable"@,
        AppError::Log(LogError::FileOperationFailed { .. }) => "Check file permissions and disk space for the log directory"@,
        AppError::Log(LogError::AlreadyFlushed) => "The logger has been flushed and cannot be used anymore"@,
        AppError::Shell(ShellError::ExecutionFailed { .. }) => "Check the command and its arguments"@,
        AppError::Shell(ShellError::EncodingFailed { .. }) => "The command output contains invalid UTF-8. Check the command output"@,
        AppError::Terminal(TerminalError::InitFailed { .. }) => "Check terminal settings and try again"@,
        AppError::Terminal(TerminalError::OperationFailed { .. }) => "Check terminal state and try again"@,
        AppError::Render(RenderError::RenderingFailed { .. }) => "Check the renderer configuration and patch format"@,
        AppError::Ui(UiError::OperationFailed { .. }) => "Check the UI state and try again"@,
        AppError::App(AppOperationError::OperationFailed { .. }) => "Check the error details and try again"@,
        _ => Seq::empty(),
    }
}

/// The suggestion given for an error: that of its fatal part if it has one,
/// else the one for its kind.
pub open spec fn suggestion(e: AppError) -> Seq<char> {
    match fatal_of(e) {
        Some(f) => fatal_suggestion(f),
        None => domain_suggestion(e),
    }
}

impl FatalActorError {
    /// The name of the actor the error is about.
    pub fn actor_name(&self) -> (r: &'static str)
        ensures
            r == match *self {
                FatalActorError::ActorDied { actor_name } => actor_name,
                FatalActorError::ActorSendFailed { actor_name, .. } => actor_name,
                FatalActorError::ActorRecvFailed { actor_name, .. } => actor_name,
            },
    {
        match self {
            FatalActorError::ActorDied { actor_name } => actor_name,
            FatalActorError::ActorSendFailed { actor_name, .. } => actor_name,
            FatalActorError::ActorRecvFailed { actor_name, .. } => actor_name,
        }
    }

    /// Returns a human-readable suggestion for handling this fatal error.
    pub fn suggested_action(&self) -> (r: String)
        ensures
            r@ == fatal_suggestion(*self),
    {
        match self {
            FatalActorError::ActorDied { actor_name } => {
                crate::text::concat3("Restart the ", actor_name, " actor or the application")
            },
            FatalActorError::ActorSendFailed { actor_name, .. } | FatalActorError::ActorRecvFailed {
                actor_name,
                ..
            } => { crate::text::concat3("Check if the ", actor_name, " actor is still running") },
        }
    }
}

impl AppError {
    /// The fatal error nested in this error, if there is one.
    pub fn fatal(&self) -> (r: Option<&FatalActorError>)
        ensures
            match fatal_of(*self) {
                Some(f) => r is Some && *r->Some_0 == f,
                None => r is None,
            },
    {
        match self {
            AppError::Fatal(f) => Some(f),
            AppError::Net(NetError::Fatal(f)) => Some(f),
            AppError::Fs(FsError::Fatal(f)) => Some(f),
            AppError::Log(LogError::Fatal(f)) => Some(f),
            AppError::Shell(ShellError::Fatal(f)) => Some(f),
            AppError::Terminal(TerminalError::Fatal(f)) => Some(f),
            AppError::Render(RenderError::Fatal(f)) => Some(f),
            AppError::Config(ConfigError::Fatal(f)) => Some(f),
            AppError::LoreApi(LoreApiError::Fatal(f)) => Some(f),
            AppError::Cache(CacheError::Fatal(f)) => Some(f),
            AppError::Env(EnvError::Fatal(f)) => Some(f),
            AppError::Ui(UiError::Fatal(f)) => Some(f),
            AppError::App(AppOperationError::Fatal(f)) => Some(f),
            _ => None,
        }
    }

    /// Returns `true` if this error is recoverable: fatal errors never are,
    /// all other errors are.
    pub fn is_recoverable(&self) -> (r: bool)
        ensures
            r == recoverable(*self),
    {
        self.fatal().is_none()
    }

    /// Returns `true` if this error is unrecoverable: only fatal actor errors are.
    pub fn is_unrecoverable(&self) -> (r: bool)
        ensures
            r == !recoverable(*self),
    {
        !self.is_recoverable()
    }

    /// Returns `true` if this error indicates the operation can be retried.
    pub fn is_retryable(&self) -> (r: bool)
        ensures
            r == retryable(*self),
    {
        match self {
            AppError::Net(NetError::RequestFailed { retryable, .. }) => *retryable,
            AppError::Fs(FsError::OperationFailed { retryable, .. }) => *retryable,
            _ => false,
        }
    }

    /// Returns the suggested retry delay in milliseconds if this error is
    /// retryable: one second for the network, 100 ms for the filesystem.
    pub fn retry_after(&self) -> (r: Option<u64>)
        ensures
            r == retry_delay_millis(*self),
    {
        match self {
            AppError::Net(NetError::RequestFailed { retryable, .. }) => if *retryable {
                Some(1000)
            } else {
                None
            },
            AppError::Fs(FsError::OperationFailed { retryable, .. }) => if *retryable {
                Some(100)
            } else {
                None
            },
            _ => None,
        }
    }

    /// Returns a human-readable suggestion for handling this error.
    pub fn suggested_action(&self) -> (r: String)
        ensures
            r@ == suggestion(*self),
    {
        if let Some(f) = self.fatal() {
            return f.suggested_action();
        }
        match self {
            AppError::Net(NetError::RequestFailed { retryable, .. }) => if *retryable {
                String::from_str("Retry the request after a brief delay")
            } else {
                String::from_str("Check the request parameters and network connectivity")
            },
            AppError::Fs(FsError::OperationFailed { retryable, .. }) => if *retryable {
                String::from_str("Retry the operation after a brief delay")
            } else {
                String::from_str("Check file permissions and disk space")
            },
            AppError::Config(ConfigError::ParseFailed { .. }) => String::from_str(
                "Check the TOML syntax in the configuration file",
            ),
            AppError::Config(ConfigError::InvalidValue { .. }) => String::from_str(
                "Check and fix the configuration file",
            ),
            AppError::Config(ConfigError::FileOperationFailed { .. }) => String::from_str(
                "Check file permissions for the configuration file",
            ),
            AppError::LoreApi(LoreApiError::ParseFailed { .. }) => String::from_str(
                "Check the data format and try again",
            ),
            AppError::LoreApi(LoreApiError::RequestFailed { retryable, .. }) => if *retryable {
                String::from_str("Retry the API request after a brief delay")
            } else {
                String::from_str("Check your network connection and API endpoint")
            },
            AppError::Cache(CacheError::SerializationFailed { .. }) => String::from_str(
                "The cache file may be corrupted. Consider clearing the cache",
            ),
            AppError::Cache(CacheError::FileOperationFailed { .. }) => String::from_str(
                "Check file permissions and disk space for the cache directory",
            ),
            AppError::Env(EnvError::NotFound { name }) => crate::text::concat3(
                "Set the ",
                name.as_str(),
                " environment variable",
            ),
            AppError::Log(LogError::FileOperationFailed { .. }) => String::from_str(
                "Check file permissions and disk space for the log directory",
            ),
            AppError::Log(LogError::AlreadyFlushed) => String::from_str(
                "The logger has been flushed and cannot be used anymore",
            ),
            AppError::Shell(ShellError::ExecutionFailed { .. }) => String::from_str(
                "Check the command and its arguments",
            ),
            AppError::Shell(ShellError::EncodingFailed { .. }) => String::from_str(
                "The command output contains invalid UTF-8. Check the command output",
            ),
            AppError::Terminal(TerminalError::InitFailed { .. }) => String::from_str(
                "Check terminal settings and try again",
            ),
            AppError::Terminal(TerminalError::OperationFailed { .. }) => String::from_str(
                "Check terminal state and try again",
            ),
            AppError::Render(RenderError::RenderingFailed { .. }) => String::from_str(
                "Check the renderer configuration and patch format",
            ),
            AppError::Ui(UiError::OperationFailed { .. }) => String::from_str(
                "Check the UI state and try again",
            ),
            AppError::App(AppOperationError::OperationFailed { .. }) => String::from_str(
                "Check the error details and try again",
            ),
            _ => String::new(),
        }
    }
}

/// Law: an error is retryable only if it is recoverable, and a retry delay
/// is suggested exactly for the retryable errors.
pub proof fn law_retryable_is_recoverable(e: AppError)
    ensures
        retryable(e) ==> recoverable(e),
        retry_delay_millis(e) is Some <==> retryable(e),
{
}

/// Law: every fatal error, wherever it is nested, is unrecoverable and not
/// retryable, and its suggestion is that of the fatal part.
pub proof fn law_fatal_errors(e: AppError)
    requires
        fatal_of(e) is Some,
    ensures
        !recoverable(e),
        !retryable(e),
        suggestion(e) == fatal_suggestion(fatal_of(e)->Some_0),
{
}

// ============================================================================
// Helper Traits and Functions
// ============================================================================
/// The kinds of I/O errors that the retry decision tells apart.
/// Law: a fatal error nested in any actor's error is the error's fatal part,
/// so such an error is unrecoverable, not retryable, has no retry delay, and
/// is given the fatal suggestion.
pub proof fn law_nested_fatal_errors(f: FatalActorError)
    ensures
        forall|e: AppError|
            (e == AppError::Fatal(f) || e == AppError::Net(NetError::Fatal(f)) || e == AppError::Fs(
                FsError::Fatal(f),
            ) || e == AppError::Log(LogError::Fatal(f)) || e == AppError::Shell(
                ShellError::Fatal(f),
            ) || e == AppError::Terminal(TerminalError::Fatal(f)) || e == AppError::Render(
                RenderError::Fatal(f),
            ) || e == AppError::Config(ConfigError::Fatal(f)) || e == AppError::LoreApi(
                LoreApiError::Fatal(f),
            ) || e == AppError::Cache(CacheError::Fatal(f)) || e == AppError::Env(
                EnvError::Fatal(f),
            ) || e == AppError::Ui(UiError::Fatal(f)) || e == AppError::App(
                AppOperationError::Fatal(f),
            )) ==> {
                &&& #[trigger] fatal_of(e) == Some(f)
                &&& !recoverable(e)
                &&& !retryable(e)
                &&& retry_delay_millis(e) is None
                &&& suggestion(e) == fatal_suggestion(f)
            },
{
}

#[derive(Debug, Clone, Copy, PartialEq, Eq, Structural)]
pub enum IoErrorKind {
    /// The entity was not found
    NotFound,
    /// The operation timed out
    TimedOut,
    /// The operation would block
    WouldBlock,
    /// The operation was interrupted
    Interrupted,
    /// The resource is busy
    ResourceBusy,
    /// The end of the input came too early
    UnexpectedEof,
    /// Any other kind
    Other,
}

/// Whether an I/O error of this kind suggests a retry.
pub open spec fn io_kind_retryable(kind: IoErrorKind) -> bool {
    kind != IoErrorKind::Other && kind != IoErrorKind::NotFound
}

/// Whether an I/O error of the given kind suggests a retry: timeouts,
/// would-block, interruptions, busy resources and early end of input do.
pub fn io_kind_is_retryable(kind: IoErrorKind) -> (r: bool)
    ensures
        r == io_kind_retryable(kind),
{
    match kind {
        IoErrorKind::TimedOut | IoErrorKind::WouldBlock | IoErrorKind::Interrupted
        | IoErrorKind::ResourceBusy | IoErrorKind::UnexpectedEof => true,
        IoErrorKind::NotFound | IoErrorKind::Other => false,
    }
}

/// The kind of an I/O error (`std::io::Error::kind`), with the kinds that
/// the retry decision does not tell apart taken as `Other`.
pub uninterp spec fn io_kind_of(e: std::io::Error) -> IoErrorKind;

/// Calls `std::io::Error::kind` and tells apart the kinds that the retry
/// decision needs; every other kind is `Other`. The kind is a property of
/// the error value alone.
#[verifier::external_body]
fn io_error_kind(e: &std::io::Error) -> (r: IoErrorKind)
    ensures
        r == io_kind_of(*e),
{
    match e.kind() {
        std::io::ErrorKind::NotFound => IoErrorKind::NotFound,
        std::io::ErrorKind::TimedOut => IoErrorKind::TimedOut,
        std::io::ErrorKind::WouldBlock => IoErrorKind::WouldBlock,
        std::io::ErrorKind::Interrupted => IoErrorKind::Interrupted,
        std::io::ErrorKind::ResourceBusy => IoErrorKind::ResourceBusy,
        std::io::ErrorKind::UnexpectedEof => IoErrorKind::UnexpectedEof,
        _ => IoErrorKind::Other,
    }
}

/// Helper trait to determine if an IO error is retryable.
pub trait IoErrorExt {
    /// Returns `true` if this error suggests the operation should be retried.
    fn is_retryable(&self) -> bool;
}

impl IoErrorExt for std::io::Error {
    fn is_retryable(&self) -> (r: bool)
        ensures
            r == io_kind_retryable(io_kind_of(*self)),
    {
        io_kind_is_retryable(io_error_kind(self))
    }
}

/// What the retry decision reads of a failed HTTP request.
#[derive(Debug, Clone, Copy, PartialEq, Eq, Structural)]
pub struct RequestFailure {
    /// The request timed out
    pub timeout: bool,
    /// Connecting failed
    pub connect: bool,
    /// Building or sending the request failed
    pub request: bool,
    /// The HTTP status code of the response, if there was one
    pub status: Option<u16>,
}

/// Whether a failed request suggests a retry: timeouts, connection errors,
/// request errors and 5xx server errors do; of the 4xx client errors only
/// 408 (request timeout) and 429 (too many requests) do.
pub open spec fn request_retryable(f: RequestFailure) -> bool {
    if f.timeout || f.connect || f.request {
        true
    } else {
        match f.status {
            Some(code) => if 500 <= code < 600 {
                true
            } else if 400 <= code < 500 {
                code == 408 || code == 429
            } else {
                false
            },
            None => false,
        }
    }
}

/// The message of a failed request: `HTTP <code>: <reason>` for a status
/// error (`Unknown` where the code has no reason), else a timeout or
/// connection message, else the error's own text.
pub open spec fn request_message(
    f: RequestFailure,
    reason: Option<Seq<char>>,
    text: Seq<char>,
) -> Seq<char> {
    match f.status {
        Some(code) => "HTTP "@ + decimal(code as nat) + ": "@ + match reason {
            Some(r) => r,
            None => "Unknown"@,
        },
        None => if f.timeout {
            "Request timed out"@
        } else if f.connect {
            "Connection failed"@
        } else {
            text
        },
    }
}

/// The message of a failed request whose reason phrase is the canonical one
/// of its status code.
pub open spec fn failure_message(f: RequestFailure, text: Seq<char>) -> Seq<char> {
    request_message(
        f,
        match f.status {
            Some(code) => canonical_reason_of(code),
            None => None,
        },
        text,
    )
}

impl RequestFailure {
    /// Whether the failure suggests the request should be retried.
    pub fn is_retryable(&self) -> (r: bool)
        ensures
            r == request_retryable(*self),
    {
        if self.timeout || self.connect || self.request {
            return true;
        }
        match self.status {
            Some(code) => {
                if 500 <= code && code < 600 {
                    true
                } else if 400 <= code && code < 500 {
                    code == 408 || code == 429
                } else {
                    false
                }
            },
            None => false,
        }
    }

    /// The human-readable message of the failure, given the canonical reason
    /// of its status code and the error's own text.
    pub fn message(&self, reason: Option<&str>, text: &str) -> (r: String)
        ensures
            r@ == request_message(
                *self,
                match reason {
                    Some(s) => Some(s@),
                    None => None,
                },
                text@,
            ),
    {
        match self.status {
            Some(code) => {
                let mut r = String::from_str("HTTP ");
                let digits = decimal_string(code as u64);
                r.append(digits.as_str());
                r.append(": ");
                match reason {
                    Some(s) => r.append(s),
                    None => r.append("Unknown"),
                }
                r
            },
            None => if self.timeout {
                String::from_str("Request timed out")
            } else if self.connect {
                String::from_str("Connection failed")
            } else {
                text.to_string()
            },
        }
    }
}

/// Whether a request error is a timeout (`reqwest::Error::is_timeout`).
pub uninterp spec fn reqwest_timeout_of(e: reqwest::Error) -> bool;

/// Whether a request error came from connecting (`reqwest::Error::is_connect`).
pub uninterp spec fn reqwest_connect_of(e: reqwest::Error) -> bool;

/// Whether a request error came from sending the request (`reqwest::Error::is_request`).
pub uninterp spec fn reqwest_request_of(e: reqwest::Error) -> bool;

/// The status code of a request error, if it has one (`reqwest::Error::status`).
pub uninterp spec fn reqwest_status_of(e: reqwest::Error) -> Option<u16>;

/// The `Display` text of a request error.
pub uninterp spec fn reqwest_text_of(e: reqwest::Error) -> Seq<char>;

/// What the retry decision reads of a request error.
pub open spec fn failure_of(e: reqwest::Error) -> RequestFailure {
    RequestFailure {
        timeout: reqwest_timeout_of(e),
        connect: reqwest_connect_of(e),
        request: reqwest_request_of(e),
        status: reqwest_status_of(e),
    }
}

/// Calls `reqwest::Error::is_timeout`; it reads a flag of the error value.
#[verifier::external_body]
fn reqwest_is_timeout(e: &reqwest::Error) -> (r: bool)
    ensures
        r == reqwest_timeout_of(*e),
{
    e.is_timeout()
}

/// Calls `reqwest::Error::is_connect`; it reads the error value.
#[verifier::external_body]
fn reqwest_is_connect(e: &reqwest::Error) -> (r: bool)
    ensures
        r == reqwest_connect_of(*e),
{
    e.is_connect()
}

/// Calls `reqwest::Error::is_request`; it reads a flag of the error value.
#[verifier::external_body]
fn reqwest_is_request(e: &reqwest::Error) -> (r: bool)
    ensures
        r == reqwest_request_of(*e),
{
    e.is_request()
}

/// Calls `reqwest::Error::status` and gives the code as a number
/// (`StatusCode::as_u16`); it depends on the error value. A `StatusCode`
/// always holds a code from 100 to 999 (`StatusCode::from_u16` and
/// `StatusCode::from_bytes` build no other).
#[verifier::external_body]
fn reqwest_status(e: &reqwest::Error) -> (r: Option<u16>)
    ensures
        r == reqwest_status_of(*e),
        r matches Some(code) ==> 100 <= code <= 999,
{
    e.status().map(|s| s.as_u16())
}

/// What `StatusCode::canonical_reason` returns for a status code: the
/// standard reason phrase of the code, if it has one.
pub uninterp spec fn canonical_reason_of(code: u16) -> Option<Seq<char>>;

/// Calls `StatusCode::canonical_reason` on the status code built by
/// `StatusCode::from_u16`; the phrase depends on the code alone.
#[verifier::external_body]
fn status_reason(code: u16) -> (r: Option<&'static str>)
    requires
        100 <= code <= 999,
    ensures
        match r {
            Some(s) => canonical_reason_of(code) == Some(s@),
            None => canonical_reason_of(code) is None,
        },
{
    reqwest::StatusCode::from_u16(code).ok().and_then(|s| s.canonical_reason())
}

/// Calls `ToString::to_string` on the error (its `Display` text).
#[verifier::external_body]
fn reqwest_text(e: &reqwest::Error) -> (r: String)
    ensures
        r@ == reqwest_text_of(*e),
{
    e.to_string()
}

/// Reads from a request error what the retry decision needs.
fn request_failure(e: &reqwest::Error) -> (r: RequestFailure)
    ensures
        r == failure_of(*e),
        r.status matches Some(code) ==> 100 <= code <= 999,
{
    RequestFailure {
        timeout: reqwest_is_timeout(e),
        connect: reqwest_is_connect(e),
        request: reqwest_is_request(e),
        status: reqwest_status(e),
    }
}

/// Law: of failures that carry only a status code, every server error
/// (500 to 599) is retryable, of client errors (400 to 499) exactly 408
/// (request timeout) and 429 (too many requests) are, and no other code is;
/// a timeout, a failed connection or a failed request is always retryable.
pub proof fn law_status_retryable(code: u16, timeout: bool, connect: bool, request: bool)
    ensures
        ({
            let f = RequestFailure { timeout: false, connect: false, request: false, status: Some(code) };
            &&& 500 <= code <= 599 ==> request_retryable(f)
            &&& 400 <= code <= 499 ==> (request_retryable(f) <==> (code == 408 || code == 429))
            &&& (code < 400 || code > 599) ==> !request_retryable(f)
        }),
        !request_retryable(RequestFailure { timeout: false, connect: false, request: false, status: None }),
        (timeout || connect || request) ==> request_retryable(
            RequestFailure { timeout, connect, request, status: Some(code) },
        ),
        (timeout || connect || request) ==> request_retryable(
            RequestFailure { timeout, connect, request, status: None },
        ),
{
}

/// Helper trait to determine if a reqwest error is retryable.
pub trait ReqwestErrorExt {
    /// Returns `true` if this error suggests the request should be retried.
    fn is_retryable(&self) -> bool;

    /// Returns a human-readable error message.
    fn error_message(&self) -> String;
}

impl ReqwestErrorExt for reqwest::Error {
    fn is_retryable(&self) -> (r: bool)
        ensures
            r == request_retryable(failure_of(*self)),
    {
        request_failure(self).is_retryable()
    }

    fn error_message(&self) -> (r: String)
        ensures
            r@ == failure_message(failure_of(*self), reqwest_text_of(*self)),
    {
        let failure = request_failure(self);
        let reason = match failure.status {
            Some(code) => status_reason(code),
            None => None,
        };
        let text = reqwest_text(self);
        let r = failure.message(reason, text.as_str());
        assert(r@ == failure_message(failure, text@));
        r
    }
}

/// Helper function to create a NetError from a reqwest error.
pub fn network_error(url: String, method: String, source: reqwest::Error) -> (r: NetError)
    ensures
        r matches NetError::RequestFailed { url: u, method: m, retryable, source: e, message }
            && u == url && m == method && e == source && retryable == request_retryable(
            failure_of(source),
        ) && message@ == failure_message(failure_of(source), reqwest_text_of(source)),
{
    let retryable = source.is_retryable();
    let message = source.error_message();
    NetError::RequestFailed { url, method, retryable, source, message }
}

/// Helper function to create a FsError from an std::io::Error.
pub fn fs_error(path: Option<String>, operation: String, source: std::io::Error) -> (r: FsError)
    ensures
        r matches FsError::OperationFailed { path: p, operation: o, retryable, source: e }
            && p == path && o == operation && e == source && retryable == io_kind_retryable(
            io_kind_of(source),
        ),
{
    let retryable = source.is_retryable();
    FsError::OperationFailed { path, operation, retryable, source }
}

/// The text of a fatal error.
pub open spec fn fatal_text(f: FatalActorError) -> Seq<char> {
    match f {
        FatalActorError::ActorDied { actor_name } => "Actor '"@ + actor_name@
            + "' has died - communication channel closed"@,
        FatalActorError::ActorSendFailed { actor_name, operation } => "Failed to send message to actor '"@
            + actor_name@ + "' for operation '"@ + operation@ + "'"@,
        FatalActorError::ActorRecvFailed { actor_name, operation } => "Failed to receive response from actor '"@
            + actor_name@ + "' for operation '"@ + operation@ + "'"@,
    }
}

/// The text of a cache error.
pub open spec fn cache_error_text(e: CacheError) -> Seq<char> {
    match e {
        CacheError::FileOperationFailed { operation, .. } => "Cache file operation failed: "@
            + operation@,
        CacheError::SerializationFailed { message, .. } => "Cache serialization failed: "@
            + message@,
        CacheError::Fatal(f) => fatal_text(f),
    }
}

impl FatalActorError {
    /// The text of the error.
    pub fn message(&self) -> (r: String)
        ensures
            r@ == fatal_text(*self),
    {
        match self {
            FatalActorError::ActorDied { actor_name } => crate::text::concat3(
                "Actor '",
                actor_name,
                "' has died - communication channel closed",
            ),
            FatalActorError::ActorSendFailed { actor_name, operation } => {
                let mut r = crate::text::concat3(
                    "Failed to send message to actor '",
                    actor_name,
                    "' for operation '",
                );
                r.append(operation.as_str());
                r.append("'");
                r
            },
            FatalActorError::ActorRecvFailed { actor_name, operation } => {
                let mut r = crate::text::concat3(
                    "Failed to receive response from actor '",
                    actor_name,
                    "' for operation '",
                );
                r.append(operation.as_str());
                r.append("'");
                r
            },
        }
    }
}

impl CacheError {
    /// The text of the error.
    pub fn message(&self) -> (r: String)
        ensures
            r@ == cache_error_text(*self),
    {
        match self {
            CacheError::FileOperationFailed { operation, .. } => {
                let mut r = String::from_str("Cache file operation failed: ");
                r.append(operation.as_str());
                r
            },
            CacheError::SerializationFailed { message, .. } => {
                let mut r = String::from_str("Cache serialization failed: ");
                r.append(message.as_str());
                r
            },
            CacheError::Fatal(f) => f.message(),
        }
    }
}

impl UiError {
    /// The UI error for a failed cache request made during `operation`: a
    /// fatal error stays fatal, any other becomes an operation failure that
    /// carries the cache error's text.
    pub fn from_cache(operation: &str, e: CacheError) -> (r: UiError)
        ensures
            match e {
                CacheError::Fatal(f) => r == UiError::Fatal(f),
                _ => r matches UiError::OperationFailed { operation: o, message: m } && o@
                    == operation@ && m@ == cache_error_text(e),
            },
    {
        let text = e.message();
        match e {
            CacheError::Fatal(f) => UiError::Fatal(f),
            _ => UiError::OperationFailed { operation: operation.to_string(), message: text },
        }
    }

    /// The UI error for a failed patch rendering: a fatal error stays fatal,
    /// a rendering failure becomes the failure of the `render patch` operation.
    pub fn from_render(e: RenderError) -> (r: UiError)
        ensures
            match e {
                RenderError::Fatal(f) => r == UiError::Fatal(f),
                RenderError::RenderingFailed { message, .. } => r matches UiError::OperationFailed {
                    operation: o,
                    message: m,
                } && o@ == "render patch"@ && m == message,
            },
    {
        match e {
            RenderError::Fatal(f) => UiError::Fatal(f),
            RenderError::RenderingFailed { message, .. } => UiError::OperationFailed {
                operation: String::from_str("render patch"),
                message,
            },
        }
    }

    /// The UI error for a failed terminal operation made during `operation`:
    /// it carries the text of the underlying error, or `Unknown error`.
    /// Terminal operations fail only with `OperationFailed`.
    pub fn from_terminal(operation: &str, e: TerminalError) -> (r: UiError)
        requires
            e is OperationFailed,
        ensures
            r matches UiError::OperationFailed { operation: o, message: m } && o@ == operation@
                && m@ == match e->OperationFailed_source {
                Some(s) => s@,
                None => "Unknown error"@,
            },
    {
        match e {
            TerminalError::OperationFailed { source, .. } => UiError::OperationFailed {
                operation: operation.to_string(),
                message: match source {
                    Some(s) => s,
                    None => String::from_str("Unknown error"),
                },
            },
            _ => UiError::OperationFailed {
                operation: operation.to_string(),
                message: String::from_str("Unknown error"),
            },
        }
    }
}

/// The standard library's kind for one of the library's kinds.
#[verifier::external_body]
fn std_io_kind(kind: IoErrorKind) -> (r: std::io::ErrorKind) {
    match kind {
        IoErrorKind::NotFound => std::io::ErrorKind::NotFound,
        IoErrorKind::TimedOut => std::io::ErrorKind::TimedOut,
        IoErrorKind::WouldBlock => std::io::ErrorKind::WouldBlock,
        IoErrorKind::Interrupted => std::io::ErrorKind::Interrupted,
        IoErrorKind::ResourceBusy => std::io::ErrorKind::ResourceBusy,
        IoErrorKind::UnexpectedEof => std::io::ErrorKind::UnexpectedEof,
        IoErrorKind::Other => std::io::ErrorKind::Other,
    }
}

#[verifier::external_type_specification]
#[verifier::external_body]
pub struct ExIoErrorKind(std::io::ErrorKind);

/// Calls `std::io::Error::new` with a kind and a message. The error is
/// opaque here: nothing is stated of it.
#[verifier::external_body]
fn io_error_new(kind: IoErrorKind, message: String) -> (r: std::io::Error) {
    std::io::Error::new(std_io_kind(kind), message)
}

/// Calls `std::io::Error::from` on a kind (an error with no message). The
/// error is opaque here: nothing is stated of it.
#[verifier::external_body]
fn io_error_from_kind(kind: IoErrorKind) -> (r: std::io::Error) {
    std::io::Error::from(std_io_kind(kind))
}

/// The text of a configuration error.
pub open spec fn config_error_text(e: ConfigError) -> Seq<char> {
    match e {
        ConfigError::ParseFailed { message, .. } => "Configuration file parsing failed: "@
            + message@,
        ConfigError::InvalidValue { message, .. } => "Configuration error: "@ + message@,
        ConfigError::FileOperationFailed { operation, .. } => "Configuration file operation failed: "@
            + operation@,
        ConfigError::Fatal(f) => fatal_text(f),
    }
}

/// The path reported for a failed file operation: the one the filesystem
/// error names, else the path the operation was on.
pub open spec fn reported_path(named: Option<String>, fallback: Seq<char>) -> Seq<char> {
    match named {
        Some(p) => p@,
        None => fallback,
    }
}

fn path_or(named: Option<String>, fallback: &str) -> (r: String)
    ensures
        r@ == reported_path(named, fallback@),
{
    match named {
        Some(p) => p,
        None => fallback.to_string(),
    }
}

impl ConfigError {
    /// The text of the error.
    pub fn message(&self) -> (r: String)
        ensures
            r@ == config_error_text(*self),
    {
        match self {
            ConfigError::ParseFailed { message, .. } => {
                let mut r = String::from_str("Configuration file parsing failed: ");
                r.append(message.as_str());
                r
            },
            ConfigError::InvalidValue { message, .. } => {
                let mut r = String::from_str("Configuration error: ");
                r.append(message.as_str());
                r
            },
            ConfigError::FileOperationFailed { operation, .. } => {
                let mut r = String::from_str("Configuration file operation failed: ");
                r.append(operation.as_str());
                r
            },
            ConfigError::Fatal(f) => f.message(),
        }
    }

    /// The configuration error for a failed filesystem request on the file
    /// at `path`: fatal stays fatal; a failed operation keeps its operation
    /// and source, and its path or else `path`.
    pub fn from_fs(path: &str, e: FsError) -> (r: ConfigError)
        ensures
            match e {
                FsError::Fatal(f) => r == ConfigError::Fatal(f),
                FsError::OperationFailed { path: p, operation, source, .. } => r matches ConfigError::FileOperationFailed {
                    path: rp,
                    operation: ro,
                    source: rs,
                } && rp@ == reported_path(p, path@) && ro == operation && rs == source,
            },
    {
        match e {
            FsError::Fatal(f) => ConfigError::Fatal(f),
            FsError::OperationFailed { path: p, operation, source, .. } => ConfigError::FileOperationFailed {
                path: path_or(p, path),
                operation,
                source,
            },
        }
    }
}

impl LogError {
    /// The logging error for a failed filesystem request on `path`: fatal
    /// stays fatal; a failed operation keeps its operation and source, and
    /// its path or else `path`.
    pub fn from_fs(path: &str, e: FsError) -> (r: LogError)
        ensures
            match e {
                FsError::Fatal(f) => r == LogError::Fatal(f),
                FsError::OperationFailed { path: p, operation, source, .. } => r matches LogError::FileOperationFailed {
                    path: rp,
                    operation: ro,
                    source: rs,
                } && rp@ == reported_path(p, path@) && ro == operation && rs == source,
            },
    {
        match e {
            FsError::Fatal(f) => LogError::Fatal(f),
            FsError::OperationFailed { path: p, operation, source, .. } => LogError::FileOperationFailed {
                path: path_or(p, path),
                operation,
                source,
            },
        }
    }

    /// The logging error for a configuration value that could not be read
    /// while setting up the logger (`operation` names the value): fatal stays
    /// fatal; anything else is a failure on the `configuration`.
    pub fn from_config(operation: &str, e: ConfigError) -> (r: LogError)
        ensures
            match e {
                ConfigError::Fatal(f) => r == LogError::Fatal(f),
                _ => r matches LogError::FileOperationFailed { path: rp, operation: ro, .. } && rp@
                    == "configuration"@ && ro@ == operation@,
            },
    {
        match e {
            ConfigError::Fatal(f) => LogError::Fatal(f),
            _ => LogError::FileOperationFailed {
                path: String::from_str("configuration"),
                operation: operation.to_string(),
                source: io_error_from_kind(IoErrorKind::Other),
            },
        }
    }
}

/// Whether `c` is the cache error for the archive error `e` met while
/// fetching a patch: fatal stays fatal; a failed request is a failed `fetch
/// patch` on its endpoint; a parse failure is a serialization failure saying
/// `Failed to parse <format> for <operation>: <details>`.
pub open spec fn lore_cache_error(e: LoreApiError, c: CacheError) -> bool {
    match e {
        LoreApiError::Fatal(f) => c == CacheError::Fatal(f),
        LoreApiError::RequestFailed { endpoint, .. } => c matches CacheError::FileOperationFailed {
            path: rp,
            operation: ro,
            ..
        } && rp == endpoint && ro@ == "fetch patch"@,
        LoreApiError::ParseFailed { format, operation, details } => c matches CacheError::SerializationFailed {
            message: m,
            source: None,
        } && m@ == "Failed to parse "@ + format@ + " for "@ + operation@ + ": "@ + details@,
    }
}

impl CacheError {
    /// The cache error for a failed filesystem request on `path`: fatal
    /// stays fatal; a failed operation keeps its operation and source, and
    /// its path or else `path`.
    pub fn from_fs(path: &str, e: FsError) -> (r: CacheError)
        ensures
            match e {
                FsError::Fatal(f) => r == CacheError::Fatal(f),
                FsError::OperationFailed { path: p, operation, source, .. } => r matches CacheError::FileOperationFailed {
                    path: rp,
                    operation: ro,
                    source: rs,
                } && rp@ == reported_path(p, path@) && ro == operation && rs == source,
            },
    {
        match e {
            FsError::Fatal(f) => CacheError::Fatal(f),
            FsError::OperationFailed { path: p, operation, source, .. } => CacheError::FileOperationFailed {
                path: path_or(p, path),
                operation,
                source,
            },
        }
    }

    /// The cache error for a failed request to the archive while fetching a
    /// patch: fatal stays fatal; a failed request is a failed `fetch patch`
    /// on its endpoint; a parse failure is a serialization failure saying
    /// `Failed to parse <format> for <operation>: <details>`.
    pub fn from_lore(e: LoreApiError) -> (r: CacheError)
        ensures
            lore_cache_error(e, r),
    {
        match e {
            LoreApiError::Fatal(f) => CacheError::Fatal(f),
            LoreApiError::RequestFailed { endpoint, message, .. } => CacheError::FileOperationFailed {
                path: endpoint,
                operation: String::from_str("fetch patch"),
                source: io_error_new(IoErrorKind::Other, message),
            },
            LoreApiError::ParseFailed { format, operation, details } => {
                let mut m = crate::text::concat3("Failed to parse ", format.as_str(), " for ");
                m.append(operation.as_str());
                m.append(": ");
                m.append(details.as_str());
                CacheError::SerializationFailed { message: m, source: None }
            },
        }
    }

    /// The cache error for a cache directory that the configuration could
    /// not give: fatal stays fatal; anything else is a failed `get cache
    /// path` on the `config`.
    pub fn from_config(e: ConfigError) -> (r: CacheError)
        ensures
            match e {
                ConfigError::Fatal(f) => r == CacheError::Fatal(f),
                _ => r matches CacheError::FileOperationFailed { path: rp, operation: ro, .. } && rp@
                    == "config"@ && ro@ == "get cache path"@,
            },
    {
        let text = e.message();
        match e {
            ConfigError::Fatal(f) => CacheError::Fatal(f),
            _ => CacheError::FileOperationFailed {
                path: String::from_str("config"),
                operation: String::from_str("get cache path"),
                source: io_error_new(IoErrorKind::NotFound, text),
            },
        }
    }
}

} // verus!
