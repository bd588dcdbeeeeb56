//! Persistent state store: a versioned document with a dirty flag.
//!
//! The store holds the document in memory and decides what the host must do:
//! `load` turns what the host read from disk into the initial store (falling
//! back to the default document, and asking for a corrupt file to be renamed
//! aside), `update` is the single mutation path and marks the store dirty,
//! and `flush_payload` hands out the document to write — through a temporary
//! file and an atomic rename — exactly when the store is dirty. The host
//! reports a successful write back with `mark_flushed`.

use vstd::prelude::*;

verus! {

/// Version of the persisted document schema.
pub const STATE_VERSION: u32 = 2;

/// Durable counters of the supervised worker process.
#[derive(Debug, Clone, PartialEq, Eq)]
pub struct AppServerState {
    pub restart_count: u64,
    pub last_restart_at: Option<i64>,
    pub last_disconnect_reason: Option<String>,
}

/// Durable counters of the UI surface's liveness.
#[derive(Debug, Clone, PartialEq, Eq)]
pub struct RendererState {
    pub last_ready_at: Option<i64>,
    pub last_heartbeat_at: Option<i64>,
    pub recovery_attempts: u32,
    pub last_recovery_at: Option<i64>,
}

/// Durable startup timing.
#[derive(Debug, Clone, PartialEq, Eq)]
pub struct StartupState {
    pub app_started_at_ms: Option<i64>,
    pub renderer_ready_latency_ms: Option<u64>,
}

/// The versioned persisted document.
#[derive(Debug, Clone, PartialEq, Eq)]
pub struct GlobalStateFile {
    pub version: u32,
    pub app_server: AppServerState,
    pub renderer: RendererState,
    pub startup: StartupState,
}

impl Default for AppServerState {
    /// All counters zero, no timestamps, no disconnect reason.
    fn default() -> (d: Self)
        ensures
            d.restart_count == 0,
            d.last_restart_at == None::<i64>,
            d.last_disconnect_reason == None::<String>,
    {
        AppServerState { restart_count: 0, last_restart_at: None, last_disconnect_reason: None }
    }
}

impl Default for RendererState {
    /// No timestamps, zero recovery attempts.
    fn default() -> (d: Self)
        ensures
            d.last_ready_at == None::<i64>,
            d.last_heartbeat_at == None::<i64>,
            d.recovery_attempts == 0,
            d.last_recovery_at == None::<i64>,
    {
        RendererState {
            last_ready_at: None,
            last_heartbeat_at: None,
            recovery_attempts: 0,
            last_recovery_at: None,
        }
    }
}

impl Default for StartupState {
    /// No startup timing recorded.
    fn default() -> (d: Self)
        ensures
            d.app_started_at_ms == None::<i64>,
            d.renderer_ready_latency_ms == None::<u64>,
    {
        StartupState { app_started_at_ms: None, renderer_ready_latency_ms: None }
    }
}

/// The default document: current schema version, everything else empty.
pub open spec fn spec_default_document(d: GlobalStateFile) -> bool {
    &&& d.version == STATE_VERSION
    &&& d.app_server == (AppServerState {
        restart_count: 0,
        last_restart_at: None,
        last_disconnect_reason: None,
    })
    &&& d.renderer == (RendererState {
        last_ready_at: None,
        last_heartbeat_at: None,
        recovery_attempts: 0,
        last_recovery_at: None,
    })
    &&& d.startup == (StartupState { app_started_at_ms: None, renderer_ready_latency_ms: None })
}

impl Default for GlobalStateFile {
    /// The default document: current schema version, empty counters.
    fn default() -> (d: Self)
        ensures
            spec_default_document(d),
    {
        GlobalStateFile {
            version: STATE_VERSION,
            app_server: Default::default(),
            renderer: Default::default(),
            startup: Default::default(),
        }
    }
}

/// The migrated form of a loaded document: the version is raised to
/// `STATE_VERSION` if older, everything else is kept.
pub open spec fn spec_migrate(state: GlobalStateFile) -> GlobalStateFile {
    if state.version < STATE_VERSION {
        GlobalStateFile { version: STATE_VERSION, ..state }
    } else {
        state
    }
}

/// What the host found when it read the persisted file.
pub enum LoadedFile {
    /// No file at the path.
    Missing,
    /// The file exists but could not be read.
    Unreadable,
    /// The file was read but did not parse as a document.
    Corrupt,
    /// The file parsed to this document.
    Parsed(GlobalStateFile),
}

/// The in-memory document and its dirty flag.
#[derive(Debug, Clone)]
pub struct GlobalStateStore {
    pub state: GlobalStateFile,
    pub dirty: bool,
}

/// The document `flush_payload` hands the host to write: the current
/// document when the store is dirty, nothing otherwise.
pub open spec fn spec_flush_payload(s: GlobalStateStore) -> Option<GlobalStateFile> {
    if s.dirty {
        Some(s.state)
    } else {
        None
    }
}

impl GlobalStateStore {
    /// Build the store from what the host read at startup. A parsed document
    /// is migrated; the store starts dirty exactly when the document differs
    /// from the file (migration changed it, or there was no usable file).
    /// The second result asks the host to rename the unreadable file aside
    /// with a `.corrupt` suffix — the file is kept for diagnosis, never
    /// deleted.
    pub fn load(input: LoadedFile) -> (r: (GlobalStateStore, bool))
        ensures
            match input {
                LoadedFile::Parsed(doc) => {
                    &&& r.0.state == spec_migrate(doc)
                    &&& r.0.dirty == (doc.version < STATE_VERSION)
                    &&& !r.1
                },
                LoadedFile::Corrupt => {
                    &&& spec_default_document(r.0.state)
                    &&& r.0.dirty
                    &&& r.1
                },
                _ => {
                    &&& spec_default_document(r.0.state)
                    &&& r.0.dirty
                    &&& !r.1
                },
            },
    {
        match input {
            LoadedFile::Parsed(doc) => {
                let (migrated, changed) = Self::migrate(doc);
                (GlobalStateStore { state: migrated, dirty: changed }, false)
            },
            LoadedFile::Corrupt => (
                GlobalStateStore { state: Default::default(), dirty: true },
                true,
            ),
            _ => (GlobalStateStore { state: Default::default(), dirty: true }, false),
        }
    }

    /// Raise the document's version to the current schema version; the
    /// second result says whether anything changed.
    pub fn migrate(state: GlobalStateFile) -> (r: (GlobalStateFile, bool))
        ensures
            r.0 == spec_migrate(state),
            r.1 == (state.version < STATE_VERSION),
    {
        if state.version < STATE_VERSION {
            (GlobalStateFile { version: STATE_VERSION, ..state }, true)
        } else {
            (state, false)
        }
    }

    /// The single mutation path: replace the document and mark the store
    /// dirty.
    pub fn update(&mut self, new_state: GlobalStateFile)
        ensures
            final(self).state == new_state,
            final(self).dirty,
    {
        self.state = new_state;
        self.dirty = true;
    }

    /// The current document, for the host to read, or to clone and mutate
    /// before handing it back through `update`.
    pub fn document(&self) -> (d: &GlobalStateFile)
        ensures
            d == self.state,
    {
        &self.state
    }

    /// Whether the in-memory document differs from what is on disk.
    pub fn needs_flush(&self) -> (b: bool)
        ensures
            b == self.dirty,
    {
        self.dirty
    }

    /// The document to persist now: the current document when the store is
    /// dirty, nothing otherwise. The host writes it to a temporary file in
    /// the same directory, forces it to stable storage, atomically renames it
    /// over the real path, and then calls `mark_flushed`.
    pub fn flush_payload(&self) -> (w: Option<&GlobalStateFile>)
        ensures
            w matches Some(d) <==> self.dirty,
            self.dirty ==> (w matches Some(d) && *d == self.state),
    {
        if self.dirty {
            Some(&self.state)
        } else {
            None
        }
    }

    /// The host persisted the document successfully: the store is clean.
    pub fn mark_flushed(&mut self)
        ensures
            final(self).state == old(self).state,
            !final(self).dirty,
    {
        self.dirty = false;
    }
}

/// Migrations are idempotent and only ever raise the version: migrating a
/// migrated document is a no-op, and the version never decreases.
pub proof fn lemma_migrate_idempotent(state: GlobalStateFile)
    ensures
        spec_migrate(spec_migrate(state)) == spec_migrate(state),
        spec_migrate(state).version >= state.version,
        spec_migrate(state).version >= STATE_VERSION || spec_migrate(state) == state,
{
}

/// Flushing is idempotent on a clean store: a flush writes the dirty
/// document and leaves the store clean, and a flush of a clean store writes
/// nothing at all — so two flushes with no update in between write the
/// document at most once, and the second leaves the persisted bytes exactly
/// as the first left them.
pub proof fn lemma_flush_idempotent_on_clean(s: GlobalStateStore)
    ensures
        !s.dirty ==> spec_flush_payload(s) is None,
        spec_flush_payload(GlobalStateStore { state: s.state, dirty: false }) is None,
        s.dirty ==> spec_flush_payload(s) == Some(s.state),
{
}

/// Seconds since the Unix epoch, from the system clock.
///
/// Relies on `std::time::SystemTime::now`: the clock is outside the model,
/// so nothing is promised beyond the result being non-negative (a clock
/// before the epoch reports zero).
#[verifier::external_body]
pub fn unix_timestamp_secs() -> (t: i64)
    ensures
        t >= 0,
{
    match std::time::SystemTime::now().duration_since(std::time::UNIX_EPOCH) {
        Ok(duration) => duration.as_secs() as i64,
        Err(_) => 0,
    }
}

/// Milliseconds since the Unix epoch, from the system clock.
///
/// Relies on `std::time::SystemTime::now`: the clock is outside the model,
/// so nothing is promised beyond the result being non-negative (a clock
/// before the epoch reports zero).
#[verifier::external_body]
pub fn unix_timestamp_millis() -> (t: i64)
    ensures
        t >= 0,
{
    match std::time::SystemTime::now().duration_since(std::time::UNIX_EPOCH) {
        Ok(duration) => duration.as_millis() as i64,
        Err(_) => 0,
    }
}

} // verus!
