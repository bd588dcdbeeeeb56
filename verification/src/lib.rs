//! Resilience core for a desktop application that embeds a long-running
//! background worker process and a UI surface.
//!
//! The crate provides four components: a process supervisor that restarts the
//! worker with exponential backoff and a sliding-window rate limit, a liveness
//! monitor that tracks UI heartbeats and drives bounded recovery, an event
//! relay that buffers outbound notifications until the UI is ready, and a
//! persistent state store with a dirty flag and crash-safe load semantics.
//! All decision logic is verified; the host performs the actual process,
//! window and file operations and feeds the outcomes back in.

pub mod backoff;
pub mod git_log;
pub mod git_status;
pub mod health;
pub mod relay;
pub mod store;
pub mod supervisor;
pub mod validate;

pub use backoff::{app_server_backoff, renderer_recovery_backoff};
pub use git_log::{parse_git_log, GitCommit};
pub use git_status::{parse_git_status, GitFileStatus};
pub use health::{RendererHealth, RendererHealthSnapshot};
pub use relay::{EmitDisposition, EventRelay, PendingEvent};
pub use supervisor::{EpisodeAction, RestartEpisode, Supervisor, WorkerHandle};
pub use validate::{
    fuzzy_match, validate_arg_safe, validate_branch_name, validate_commit_message,
    validate_commit_sha, validate_git_file_path, validate_id, validate_limit,
    validate_relative_project_path, ValidationError,
};
pub use store::{
    unix_timestamp_millis, unix_timestamp_secs, AppServerState, GlobalStateFile, GlobalStateStore,
    LoadedFile, RendererState, StartupState,
};
