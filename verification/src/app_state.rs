//! The state of the application actor.
use vstd::prelude::*;

verus! {

/// Commands that can be executed by the App actor
#[derive(Debug, Clone)]
pub enum Command {
    /// List all available mailing lists
    Lists { page: usize, count: usize },
    /// Get the feed of a given mailing list
    Feed { list: String, page: usize, count: usize },
    /// Get the content of a patch from the feed
    Patch { list: String, message_id: String, html: bool },
}

/// Application state managed by the App actor
#[derive(Debug)]
pub struct AppState {
    /// Whether the application has been initialized
    pub initialized: bool,
    /// Current command being executed (if any)
    pub current_command: Option<Command>,
}

impl AppState {
    /// The state of an application actor that has been built with all of
    /// its collaborators: initialized, running no command.
    pub fn started() -> (r: AppState)
        ensures
            r.initialized,
            r.current_command is None,
    {
        AppState { initialized: true, current_command: None }
    }
}

impl Default for AppState {
    /// A state that is not initialized and runs no command.
    fn default() -> (r: AppState)
        ensures
            !r.initialized,
            r.current_command is None,
    {
        AppState { initialized: false, current_command: None }
    }
}

/// Mock data for testing the App actor
#[derive(Debug)]
pub struct MockData {
    /// Simulated application state
    pub state: AppState,
    /// Commands that have been executed
    pub executed_commands: Vec<Command>,
    /// Whether TUI mode has been run
    pub tui_run: bool,
    /// Whether shutdown has been called
    pub shutdown_called: bool,
}

impl Default for MockData {
    /// A default state, no command executed, neither run nor shut down.
    fn default() -> (r: MockData)
        ensures
            !r.state.initialized,
            r.state.current_command is None,
            r.executed_commands@.len() == 0,
            !r.tui_run,
            !r.shutdown_called,
    {
        MockData {
            state: AppState::default(),
            executed_commands: Vec::new(),
            tui_run: false,
            shutdown_called: false,
        }
    }
}

} // verus!
