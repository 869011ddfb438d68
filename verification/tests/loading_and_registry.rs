use binjuice::config::AudioConfig;
use binjuice::config::Config;
use binjuice::errors::ReadFailure;
use binjuice::errors::ResourceLoadError;
use binjuice::errors::StartupError;
use binjuice::events::EVENT_KIND_COUNT;
use binjuice::events::EventKind;
use binjuice::events::all_kinds;
use binjuice::handler::SoundHandler;
use binjuice::registry::AttachResult;
use binjuice::registry::DocumentRegistry;
use binjuice::table::AudioResourceTable;
use binjuice::table::ReadOutcome;

fn no_reads() -> Vec<ReadOutcome> {
    let mut v: Vec<ReadOutcome> = Vec::new();
    for _ in 0..EVENT_KIND_COUNT {
        v.push(None);
    }
    v
}

fn setup(entries: &[(EventKind, Result<Vec<u8>, ReadFailure>)]) -> (AudioConfig, Vec<ReadOutcome>) {
    let mut config = AudioConfig::empty();
    let mut reads = no_reads();
    for (kind, outcome) in entries {
        config.set_path(*kind, Some(format!("{:?}.wav", kind)));
        reads[kind.index()] = Some(outcome.clone());
    }
    (config, reads)
}

#[test]
fn unreadable_startup_file_fails_before_any_state() {
    let (config, reads) = setup(&[(EventKind::StartBinaryNinja, Err(ReadFailure::NotFound))]);
    let r = SoundHandler::new(&config, &reads);
    match r {
        Err(e) => {
            assert_eq!(e.kind, EventKind::StartBinaryNinja);
            assert_eq!(e.failure, ReadFailure::NotFound);
        },
        Ok(_) => panic!("a failed read must abort initialization"),
    }
}

#[test]
fn load_is_all_or_nothing() {
    let (config, reads) = setup(&[
        (EventKind::FunctionAdded, Ok(vec![1, 2, 3])),
        (EventKind::SymbolAdded, Err(ReadFailure::PermissionDenied)),
    ]);
    match AudioResourceTable::load(&config, &reads) {
        Err(e) => {
            assert_eq!(e.kind, EventKind::SymbolAdded);
            assert_eq!(e.failure, ReadFailure::PermissionDenied);
        },
        Ok(_) => panic!("a failed read must yield no table"),
    }
}

#[test]
fn load_error_names_the_first_failing_kind() {
    // DataWritten stands before SymbolAdded in the catalog.
    let (config, reads) = setup(&[
        (EventKind::SymbolAdded, Err(ReadFailure::ReadError)),
        (EventKind::DataWritten, Err(ReadFailure::NotFound)),
    ]);
    let e = match AudioResourceTable::load(&config, &reads) {
        Err(e) => e,
        Ok(_) => panic!("a failed read must yield no table"),
    };
    assert!(EventKind::DataWritten.index() < EventKind::SymbolAdded.index());
    assert_eq!(e.kind, EventKind::DataWritten);
    assert_eq!(e.failure, ReadFailure::NotFound);
}

#[test]
fn short_read_is_reported_as_read_error() {
    let (config, reads) = setup(&[(EventKind::Rebased, Err(ReadFailure::ReadError))]);
    let e = match AudioResourceTable::load(&config, &reads) {
        Err(e) => e,
        Ok(_) => panic!("a failed read must yield no table"),
    };
    assert_eq!(e.kind, EventKind::Rebased);
    assert_eq!(e.failure, ReadFailure::ReadError);
}

#[test]
fn barrier_answers_the_protocol_default() {
    assert_eq!(binjuice::handler::barrier_response(), 0);
}

#[test]
fn loading_twice_gives_byte_identical_tables() {
    let (config, reads) = setup(&[
        (EventKind::FunctionAdded, Ok(vec![9, 8, 7])),
        (EventKind::UndoEntryAdded, Ok(vec![0, 0, 1])),
    ]);
    let t1 = AudioResourceTable::load(&config, &reads).unwrap();
    let t2 = AudioResourceTable::load(&config, &reads).unwrap();
    for k in all_kinds() {
        assert_eq!(t1.buffer(k), t2.buffer(k));
    }
}

#[test]
fn absent_entries_are_not_errors() {
    let config = AudioConfig::empty();
    let reads = no_reads();
    let t = AudioResourceTable::load(&config, &reads).unwrap();
    for k in all_kinds() {
        assert!(t.buffer(k).is_none());
    }
}

#[test]
fn registry_attaches_each_document_once() {
    let mut registry = DocumentRegistry::new();
    assert_eq!(registry.try_attach(0x1000), AttachResult::Attached);
    assert_eq!(registry.try_attach(0x1000), AttachResult::AlreadyAttached);
    assert_eq!(registry.try_attach(0x2000), AttachResult::Attached);
    assert_eq!(registry.len(), 2);
    assert!(registry.contains(0x1000));
    assert!(registry.contains(0x2000));
    assert!(!registry.contains(0x3000));
}

#[test]
fn repeated_announcements_grow_the_registry_once() {
    let mut registry = DocumentRegistry::new();
    let mut attached = 0;
    for _ in 0..5 {
        if registry.try_attach(42) == AttachResult::Attached {
            attached += 1;
        }
    }
    assert_eq!(attached, 1);
    assert_eq!(registry.len(), 1);
}

#[test]
fn catalog_indexing_is_a_bijection() {
    let kinds = all_kinds();
    assert_eq!(kinds.len(), EVENT_KIND_COUNT);
    for (i, k) in kinds.iter().enumerate() {
        assert_eq!(k.index(), i);
        assert_eq!(EventKind::from_index(i), *k);
    }
}

#[test]
fn config_paths_are_kept_per_kind() {
    let mut config = AudioConfig::empty();
    config.set_path(EventKind::TagAdded, Some(String::from("tag.wav")));
    assert_eq!(config.path(EventKind::TagAdded), &Some(String::from("tag.wav")));
    assert_eq!(config.path(EventKind::TagRemoved), &None);
    config.set_path(EventKind::TagAdded, None);
    assert_eq!(config.path(EventKind::TagAdded), &None);
    let whole = Config { files: config };
    assert_eq!(whole.files.path(EventKind::TagAdded), &None);
}

#[test]
fn startup_error_wraps_a_load_failure() {
    let load_error = ResourceLoadError {
        kind: EventKind::StartBinaryNinja,
        failure: ReadFailure::NotFound,
    };
    let e = StartupError::from_load(load_error);
    assert_eq!(e, StartupError::ResourceLoad(load_error));
    assert_ne!(e, StartupError::ConfigUnreadable);
}
