use ph::error::{
    fs_error, io_kind_is_retryable, network_error, AppError, AppOperationError, CacheError,
    ConfigError, EnvError, FatalActorError, FsError, IoErrorExt, IoErrorKind, LogError,
    LoreApiError, NetError, RenderError, ReqwestErrorExt, RequestFailure, ShellError,
    TerminalError, UiError,
};

fn builder_error() -> reqwest::Error {
    reqwest::Client::new().get("not a url").build().unwrap_err()
}

fn io(kind: std::io::ErrorKind) -> std::io::Error {
    std::io::Error::new(kind, "boom")
}

#[test]
fn fatal_error_texts_and_suggestions() {
    let died = FatalActorError::ActorDied { actor_name: "cache" };
    assert_eq!(died.actor_name(), "cache");
    assert_eq!(died.suggested_action(), "Restart the cache actor or the application");
    assert_eq!(died.message(), "Actor 'cache' has died - communication channel closed");
    let send = FatalActorError::ActorSendFailed { actor_name: "ui", operation: String::from("render") };
    assert_eq!(send.suggested_action(), "Check if the ui actor is still running");
    assert_eq!(send.message(), "Failed to send message to actor 'ui' for operation 'render'");
    let recv = FatalActorError::ActorRecvFailed { actor_name: "net", operation: String::from("get") };
    assert_eq!(recv.message(), "Failed to receive response from actor 'net' for operation 'get'");
}

#[test]
fn app_error_fatal_is_found_at_any_depth() {
    let e = AppError::Cache(CacheError::Fatal(FatalActorError::ActorDied { actor_name: "fs" }));
    assert!(e.fatal().is_some());
    assert!(e.is_unrecoverable());
    assert!(!e.is_recoverable());
    assert!(!e.is_retryable());
    assert_eq!(e.retry_after(), None);
    assert_eq!(e.suggested_action(), "Restart the fs actor or the application");
    let top = AppError::Fatal(FatalActorError::ActorDied { actor_name: "x" });
    assert!(top.is_unrecoverable());
}

#[test]
fn app_error_retry_delays() {
    let net = AppError::Net(NetError::RequestFailed {
        url: String::from("u"),
        method: String::from("GET"),
        retryable: true,
        source: builder_error(),
        message: String::from("m"),
    });
    assert!(net.is_retryable());
    assert!(net.is_recoverable());
    assert_eq!(net.retry_after(), Some(1000));
    assert_eq!(net.suggested_action(), "Retry the request after a brief delay");
    let fs = AppError::Fs(FsError::OperationFailed {
        path: None,
        operation: String::from("read"),
        retryable: true,
        source: io(std::io::ErrorKind::TimedOut),
    });
    assert_eq!(fs.retry_after(), Some(100));
    assert_eq!(fs.suggested_action(), "Retry the operation after a brief delay");
    let fs2 = AppError::Fs(FsError::OperationFailed {
        path: None,
        operation: String::from("read"),
        retryable: false,
        source: io(std::io::ErrorKind::NotFound),
    });
    assert!(!fs2.is_retryable());
    assert_eq!(fs2.retry_after(), None);
    assert_eq!(fs2.suggested_action(), "Check file permissions and disk space");
}

#[test]
fn app_error_domain_suggestions() {
    let env = AppError::Env(EnvError::NotFound { name: String::from("HOME") });
    assert_eq!(env.suggested_action(), "Set the HOME environment variable");
    let log = AppError::Log(LogError::AlreadyFlushed);
    assert_eq!(log.suggested_action(), "The logger has been flushed and cannot be used anymore");
    let cfg = AppError::Config(ConfigError::ParseFailed { key: None, source: String::new(), message: String::new() });
    assert_eq!(cfg.suggested_action(), "Check the TOML syntax in the configuration file");
    let lore = AppError::LoreApi(LoreApiError::RequestFailed { endpoint: String::new(), message: String::new(), retryable: false });
    assert_eq!(lore.suggested_action(), "Check your network connection and API endpoint");
    assert!(!lore.is_retryable());
    let shell = AppError::Shell(ShellError::EncodingFailed { command: String::from("git") });
    assert_eq!(shell.suggested_action(), "The command output contains invalid UTF-8. Check the command output");
    let term = AppError::Terminal(TerminalError::InitFailed { message: String::new() });
    assert_eq!(term.suggested_action(), "Check terminal settings and try again");
    let render = AppError::Render(RenderError::RenderingFailed { message: String::new(), source: None });
    assert_eq!(render.suggested_action(), "Check the renderer configuration and patch format");
    let ui = AppError::Ui(UiError::OperationFailed { operation: String::new(), message: String::new() });
    assert_eq!(ui.suggested_action(), "Check the UI state and try again");
    let app = AppError::App(AppOperationError::OperationFailed { message: String::new() });
    assert_eq!(app.suggested_action(), "Check the error details and try again");
}

#[test]
fn io_kinds_that_are_retryable() {
    assert!(io_kind_is_retryable(IoErrorKind::TimedOut));
    assert!(io_kind_is_retryable(IoErrorKind::Interrupted));
    assert!(io_kind_is_retryable(IoErrorKind::UnexpectedEof));
    assert!(!io_kind_is_retryable(IoErrorKind::NotFound));
    assert!(!io_kind_is_retryable(IoErrorKind::Other));
    assert!(io(std::io::ErrorKind::TimedOut).is_retryable());
    assert!(io(std::io::ErrorKind::WouldBlock).is_retryable());
    assert!(!io(std::io::ErrorKind::NotFound).is_retryable());
    assert!(!io(std::io::ErrorKind::PermissionDenied).is_retryable());
}

#[test]
fn request_failure_classification() {
    let base = RequestFailure { timeout: false, connect: false, request: false, status: None };
    assert!(!base.is_retryable());
    assert!(RequestFailure { timeout: true, ..base }.is_retryable());
    assert!(RequestFailure { status: Some(503), ..base }.is_retryable());
    assert!(RequestFailure { status: Some(429), ..base }.is_retryable());
    assert!(RequestFailure { status: Some(408), ..base }.is_retryable());
    assert!(!RequestFailure { status: Some(404), ..base }.is_retryable());
    assert!(!RequestFailure { status: Some(302), ..base }.is_retryable());
}

#[test]
fn request_failure_messages() {
    let base = RequestFailure { timeout: false, connect: false, request: false, status: None };
    assert_eq!(RequestFailure { status: Some(404), ..base }.message(Some("Not Found"), "t"), "HTTP 404: Not Found");
    assert_eq!(RequestFailure { status: Some(599), ..base }.message(None, "t"), "HTTP 599: Unknown");
    assert_eq!(RequestFailure { timeout: true, ..base }.message(None, "t"), "Request timed out");
    assert_eq!(RequestFailure { connect: true, ..base }.message(None, "t"), "Connection failed");
    assert_eq!(base.message(None, "other"), "other");
}

#[test]
fn reqwest_error_helpers() {
    let e = builder_error();
    assert!(!ReqwestErrorExt::is_retryable(&e));
    assert_eq!(e.error_message(), e.to_string());
    let n = network_error(String::from("http://x"), String::from("GET"), builder_error());
    match n {
        NetError::RequestFailed { url, method, retryable, message, .. } => {
            assert_eq!(url, "http://x");
            assert_eq!(method, "GET");
            assert!(!retryable);
            assert!(!message.is_empty());
        }
        _ => panic!("expected a request failure"),
    }
}

#[test]
fn fs_error_keeps_path_and_operation() {
    match fs_error(Some(String::from("/p")), String::from("open"), io(std::io::ErrorKind::TimedOut)) {
        FsError::OperationFailed { path, operation, retryable, .. } => {
            assert_eq!(path, Some(String::from("/p")));
            assert_eq!(operation, "open");
            assert!(retryable);
        }
        _ => panic!("expected an operation failure"),
    }
}

#[test]
fn error_conversions() {
    let e = CacheError::SerializationFailed { message: String::from("bad"), source: None };
    assert_eq!(e.message(), "Cache serialization failed: bad");
    match UiError::from_cache("load", e) {
        UiError::OperationFailed { operation, message } => {
            assert_eq!(operation, "load");
            assert_eq!(message, "Cache serialization failed: bad");
        }
        _ => panic!(),
    }
    match UiError::from_render(RenderError::RenderingFailed { message: String::from("m"), source: None }) {
        UiError::OperationFailed { operation, message } => {
            assert_eq!(operation, "render patch");
            assert_eq!(message, "m");
        }
        _ => panic!(),
    }
    match UiError::from_terminal("draw", TerminalError::OperationFailed { operation: String::from("o"), source: None }) {
        UiError::OperationFailed { message, .. } => assert_eq!(message, "Unknown error"),
        _ => panic!(),
    }
    let fs = FsError::OperationFailed { path: None, operation: String::from("read"), retryable: false, source: io(std::io::ErrorKind::NotFound) };
    match ConfigError::from_fs("/cfg", fs) {
        ConfigError::FileOperationFailed { path, operation, .. } => {
            assert_eq!(path, "/cfg");
            assert_eq!(operation, "read");
        }
        _ => panic!(),
    }
    let fs = FsError::OperationFailed { path: Some(String::from("/own")), operation: String::from("w"), retryable: false, source: io(std::io::ErrorKind::NotFound) };
    match LogError::from_fs("/other", fs) {
        LogError::FileOperationFailed { path, .. } => assert_eq!(path, "/own"),
        _ => panic!(),
    }
    match CacheError::from_lore(LoreApiError::ParseFailed { format: String::from("XML"), operation: String::from("feed"), details: String::from("eof") }) {
        CacheError::SerializationFailed { message, source } => {
            assert_eq!(message, "Failed to parse XML for feed: eof");
            assert!(source.is_none());
        }
        _ => panic!(),
    }
    match CacheError::from_lore(LoreApiError::RequestFailed { endpoint: String::from("/e"), message: String::from("m"), retryable: true }) {
        CacheError::FileOperationFailed { path, operation, .. } => {
            assert_eq!(path, "/e");
            assert_eq!(operation, "fetch patch");
        }
        _ => panic!(),
    }
    match CacheError::from_config(ConfigError::InvalidValue { key: None, message: String::from("x") }) {
        CacheError::FileOperationFailed { path, operation, .. } => {
            assert_eq!(path, "config");
            assert_eq!(operation, "get cache path");
        }
        _ => panic!(),
    }
    match LogError::from_config("log dir", ConfigError::Fatal(FatalActorError::ActorDied { actor_name: "config" })) {
        LogError::Fatal(_) => {}
        _ => panic!(),
    }
    assert_eq!(ConfigError::InvalidValue { key: None, message: String::from("v") }.message(), "Configuration error: v");
}

fn connect_error() -> reqwest::Error {
    let rt = tokio::runtime::Runtime::new().unwrap();
    rt.block_on(async { reqwest::Client::new().get("http://127.0.0.1:9/").send().await.unwrap_err() })
}

#[test]
fn reqwest_connect_errors_are_retryable() {
    let e = connect_error();
    assert!(e.is_connect());
    assert_eq!(e.error_message(), "Connection failed");
    assert!(ReqwestErrorExt::is_retryable(&e));
    match network_error(String::from("http://127.0.0.1:9/"), String::from("GET"), connect_error()) {
        NetError::RequestFailed { retryable, message, .. } => {
            assert!(retryable);
            assert_eq!(message, "Connection failed");
        }
        _ => panic!("expected a request failure"),
    }
}
