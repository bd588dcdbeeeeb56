use resilience_core::{GlobalStateFile, GlobalStateStore, LoadedFile};

#[test]
fn missing_file_loads_the_default_document_dirty() {
    let (store, rename_aside) = GlobalStateStore::load(LoadedFile::Missing);
    assert!(!rename_aside);
    assert!(store.needs_flush());
    let doc = store.document();
    assert_eq!(doc.version, 2);
    assert_eq!(doc.app_server.restart_count, 0);
    assert_eq!(doc.renderer.recovery_attempts, 0);
    assert_eq!(doc.startup.app_started_at_ms, None);
}

#[test]
fn corrupt_file_loads_default_and_renames_aside() {
    // A corrupt state file yields the default document in memory, marks the
    // store dirty, and asks for the file to be renamed aside with a .corrupt
    // suffix — the load API offers no way to delete it.
    let (store, rename_aside) = GlobalStateStore::load(LoadedFile::Corrupt);
    assert!(rename_aside);
    assert!(store.needs_flush());
    assert_eq!(*store.document(), GlobalStateFile::default());
}

#[test]
fn parsed_current_document_loads_clean() {
    let mut doc = GlobalStateFile::default();
    doc.app_server.restart_count = 7;
    doc.renderer.recovery_attempts = 2;
    let (store, rename_aside) = GlobalStateStore::load(LoadedFile::Parsed(doc.clone()));
    assert!(!rename_aside);
    // Nothing changed, so nothing needs rewriting.
    assert!(!store.needs_flush());
    assert_eq!(*store.document(), doc);
}

#[test]
fn old_version_is_migrated_and_marked_dirty() {
    let mut doc = GlobalStateFile::default();
    doc.version = 1;
    doc.app_server.restart_count = 3;
    let (store, rename_aside) = GlobalStateStore::load(LoadedFile::Parsed(doc));
    assert!(!rename_aside);
    assert!(store.needs_flush());
    let migrated = store.document();
    assert_eq!(migrated.version, 2);
    assert_eq!(migrated.app_server.restart_count, 3);
}

#[test]
fn migrate_is_idempotent() {
    let mut doc = GlobalStateFile::default();
    doc.version = 1;
    let (once, changed_once) = GlobalStateStore::migrate(doc);
    assert!(changed_once);
    let (twice, changed_twice) = GlobalStateStore::migrate(once.clone());
    assert!(!changed_twice);
    assert_eq!(once, twice);
}

#[test]
fn flush_writes_once_and_is_a_no_op_when_clean() {
    let (mut store, _) = GlobalStateStore::load(LoadedFile::Missing);
    // Dirty store: the first flush hands out the document.
    let first = store.flush_payload().cloned();
    assert!(first.is_some());
    store.mark_flushed();
    // Clean store with no update in between: the second flush writes
    // nothing at all, so the persisted bytes stay exactly as the first
    // flush left them.
    assert!(!store.needs_flush());
    assert!(store.flush_payload().is_none());
}

#[test]
fn update_replaces_the_document_and_marks_dirty() {
    let (mut store, _) = GlobalStateStore::load(LoadedFile::Missing);
    store.mark_flushed();
    let mut doc = store.document().clone();
    doc.app_server.restart_count += 1;
    doc.app_server.last_restart_at = Some(123);
    store.update(doc.clone());
    assert!(store.needs_flush());
    assert_eq!(*store.document(), doc);
    assert_eq!(store.flush_payload(), Some(&doc));
}
