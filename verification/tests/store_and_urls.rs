use backend::ids::RecordingId;
use backend::objects::MockStore;
use backend::urls::Urls;

#[test]
fn saved_objects_can_be_fetched_and_deleted() {
    let mut store = MockStore::new("ogg".to_string());
    let id = RecordingId::new(0xabc);

    assert!(store.fetch(id).is_none());
    store
        .save(id, "audio/ogg; codec=opus".to_string(), vec![1, 2, 3])
        .expect("save object");
    assert_eq!(store.fetch(id).expect("object exists"), vec![1, 2, 3]);

    // Saving again overwrites.
    store
        .save(id, "audio/ogg; codec=opus".to_string(), vec![9])
        .expect("overwrite object");
    assert_eq!(store.fetch(id).expect("object exists"), vec![9]);

    store.delete(id).expect("delete object");
    assert!(store.fetch(id).is_none());
    // Deleting an absent object is still a success.
    store.delete(id).expect("idempotent delete");
}

#[test]
fn object_urls_are_deterministic() {
    let store = MockStore::new("ogg".to_string());
    let id = RecordingId::new(1);
    assert_eq!(
        store.get_url(id),
        "https://www.example.com/00000000-0000-0000-0000-000000000001.ogg"
    );
    assert_eq!(store.get_url(id), store.get_url(id));
}

#[test]
fn recording_urls_sit_under_the_recordings_path() {
    let urls = Urls::new("https://api.example.com/".to_string(), "recs".to_string());
    assert_eq!(urls.recordings(), "https://api.example.com/recs/");
    let id = RecordingId::new(2);
    assert_eq!(
        urls.recording(&id),
        "https://api.example.com/recs/00000000-0000-0000-0000-000000000002"
    );
}
