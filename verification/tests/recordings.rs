use backend::errors::BackendError;
use backend::ids::{RecordingId, TokenId};
use backend::label::Label;
use backend::normalization::normalize_name;
use backend::recording::{recording_status, Recording, UploadMetadata};
use backend::table::{assemble_recording, RecordingTable, RowState};

fn rec(v: u128) -> RecordingId {
    RecordingId::new(v)
}

fn metadata(name: &str) -> UploadMetadata {
    UploadMetadata {
        age_id: Some(1),
        gender_id: None,
        location: None,
        name: normalize_name(name),
        occupation: None,
        token: TokenId::new(1),
        category_id: 6,
    }
}

fn catalogues() -> (Vec<Label>, Vec<Label>, Vec<Label>, Vec<Label>) {
    let mimes = vec![Label::new(1, "audio/ogg; codec=opus".into(), None)];
    let categories = vec![Label::new(6, "This is a category".into(), None)];
    let ages = vec![Label::new(1, "Age 1".into(), None)];
    let genders = vec![Label::new(2, "Gender".into(), None)];
    (mimes, categories, ages, genders)
}

#[test]
fn insert_rejects_duplicate_ids_and_names() {
    let mut table = RecordingTable::new();
    let id = rec(1);
    table.insert(id, None, &metadata("Ana"), 1000).expect("first insert");

    assert!(matches!(
        table.insert(id, None, &metadata("Other"), 1001),
        Err(BackendError::IdAlreadyExists)
    ));
    // A name that normalizes to an already-stored one is a conflict,
    // not a server error.
    assert!(matches!(
        table.insert(rec(2), None, &metadata("  Ana "), 1002),
        Err(BackendError::NameAlreadyExists)
    ));
}

#[test]
fn availability_follows_normalization() {
    let mut table = RecordingTable::new();
    table.insert(rec(1), None, &metadata("Ana"), 0).expect("insert");
    assert!(!table.check_availability(" Ana  "));
    assert!(table.check_availability("Bob"));
}

#[test]
fn retrieval_assembles_the_active_recording() {
    let mut table = RecordingTable::new();
    let id = rec(3);
    table.insert(id, None, &metadata("Maya"), 42).expect("insert");
    let (mimes, categories, ages, genders) = catalogues();

    // Before the URL is linked, the half-created row is a backend
    // fault to retrieve.
    let row = table.retrieve_row(id).expect("row exists");
    assert!(matches!(
        assemble_recording(&row, &mimes, &categories, &ages, &genders),
        Err(BackendError::Database { .. })
    ));

    assert!(table.update_url(id, "https://cdn.example.com/x.ogg".to_string(), 1));
    let row = table.retrieve_row(id).expect("row exists");
    let recording = assemble_recording(&row, &mimes, &categories, &ages, &genders)
        .expect("assemble active recording");
    match recording {
        Recording::Active(active) => {
            assert_eq!(active.id, id);
            assert_eq!(active.url, "https://cdn.example.com/x.ogg");
            assert_eq!(active.name, "Maya");
            assert_eq!(active.mime_type.label, "audio/ogg; codec=opus");
            assert_eq!(active.category.id, 6);
            assert_eq!(active.age.expect("age label").label, "Age 1");
            assert!(active.gender.is_none());
        }
        other => panic!("expected an active recording, got {:?}", other),
    }
}

#[test]
fn deletion_leaves_a_permanent_tombstone() {
    let mut table = RecordingTable::new();
    let parent = rec(10);
    let id = rec(11);
    table.insert(parent, None, &metadata("Parent"), 1).expect("insert parent");
    table.insert(id, Some(parent), &metadata("Child"), 2).expect("insert child");
    table.update_url(id, "https://cdn.example.com/c.ogg".to_string(), 1);

    assert_eq!(table.count_all(), 2);
    assert_eq!(table.children(parent).len(), 1);

    table.delete(id, 99).expect("delete child");

    // The tombstone keeps id, times and parent, and nothing else.
    let row = table.retrieve_row(id).expect("tombstone exists");
    assert!(matches!(row.state, RowState::Deleted { deleted_at: 99 }));
    assert_eq!(row.parent_id, Some(parent));

    let (mimes, categories, ages, genders) = catalogues();
    let recording = assemble_recording(&row, &mimes, &categories, &ages, &genders)
        .expect("assemble tombstone");
    assert_eq!(recording_status(&Some(recording)), 410);

    // The former parent no longer lists it, and it is gone from the
    // active count; a second deletion is a missing id.
    assert_eq!(table.children(parent).len(), 0);
    assert_eq!(table.count_all(), 1);
    assert!(matches!(
        table.delete(id, 100),
        Err(BackendError::NonExistentId { .. })
    ));

    // Its name is free again for a new recording.
    assert!(table.check_availability("Child"));
}

#[test]
fn children_come_back_in_insertion_order() {
    let mut table = RecordingTable::new();
    let parent = rec(20);
    table.insert(parent, None, &metadata("Root"), 1).expect("insert root");
    table.insert(rec(21), Some(parent), &metadata("One"), 2).expect("insert one");
    table.insert(rec(22), Some(rec(999)), &metadata("Elsewhere"), 3).expect("insert other");
    table.insert(rec(23), Some(parent), &metadata("Two"), 4).expect("insert two");

    let children = table.children(parent);
    assert_eq!(children.len(), 2);
    assert_eq!(children[0].id, rec(21));
    assert_eq!(children[0].name, "One");
    assert_eq!(children[1].id, rec(23));
    assert_eq!(children[1].name, "Two");
}

#[test]
fn missing_recording_is_not_found() {
    let table = RecordingTable::new();
    assert!(table.retrieve_row(rec(77)).is_none());
    assert_eq!(recording_status(&None), 404);
}
