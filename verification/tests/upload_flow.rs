use backend::errors::{delete_outcome, BackendError};
use backend::format::AudioFormat;
use backend::ids::{RecordingId, TokenId};
use backend::ledger::TokenLedger;
use backend::mime::{MimeCatalog, MimeType};
use backend::normalization::normalize_name;
use backend::objects::MockStore;
use backend::probe::ProbeReport;
use backend::recording::{recording_status, Recording, UploadMetadata};
use backend::saga::{parse_parts, Config, Part, UploadResponse, UploadSaga, UploadStep};
use backend::table::{assemble_recording, RecordingTable};
use backend::urls::Urls;

const FANOUT: u8 = 4;

struct TestEnv {
    ledger: TokenLedger,
    table: RecordingTable,
    store: MockStore,
    catalog: MimeCatalog,
    urls: Urls,
    config: Config,
    next_id: u128,
}

impl TestEnv {
    fn new() -> Self {
        let mut catalog = MimeCatalog::new();
        catalog.add(MimeType::new(
            1,
            AudioFormat::new("ogg".into(), "opus".into()),
            "audio/ogg; codec=opus".into(),
            "ogg".into(),
        ));
        catalog.add(MimeType::new(
            2,
            AudioFormat::new("ogg".into(), "vorbis".into()),
            "audio/ogg".into(),
            "ogg".into(),
        ));
        TestEnv {
            ledger: TokenLedger::new(),
            table: RecordingTable::new(),
            store: MockStore::new("ogg".to_string()),
            catalog,
            urls: Urls::new("https://api.example.com/".to_string(), "recs".to_string()),
            config: Config::new(FANOUT),
            next_id: 0x1000,
        }
    }

    fn fresh(&mut self) -> u128 {
        self.next_id += 1;
        self.next_id
    }

    fn root_token(&mut self) -> TokenId {
        let t = TokenId::new(self.fresh());
        self.ledger.create(t, None).expect("create root token");
        t
    }
}

fn metadata(name: &str, token: TokenId) -> UploadMetadata {
    UploadMetadata {
        age_id: None,
        gender_id: None,
        location: None,
        name: name.to_string(),
        occupation: None,
        token,
        category_id: 6,
    }
}

fn opus_report() -> ProbeReport {
    ProbeReport {
        streams: vec!["opus".to_string()],
        format_name: "ogg".to_string(),
    }
}

/// Drives one upload saga against the in-memory backends, performing
/// each instructed step and feeding the outcome back.
fn drive_upload(
    env: &mut TestEnv,
    meta: UploadMetadata,
    audio: Vec<u8>,
    probe: Result<ProbeReport, BackendError>,
) -> Result<(UploadResponse, String), (u16, String)> {
    let mut probe_outcome = Some(probe);
    let (mut saga, mut step) = UploadSaga::new(meta, env.config);
    loop {
        step = match step {
            UploadStep::Lock { token } => {
                let outcome = env.ledger.lock(token);
                saga.feed_lock(outcome)
            }
            UploadStep::Probe => {
                let outcome = probe_outcome.take().expect("probe runs once");
                saga.feed_probe(outcome, &env.catalog)
            }
            UploadStep::Insert { parent_id } => {
                let id = RecordingId::new(env.fresh());
                let outcome = env.table.insert(id, parent_id, &saga.metadata, 1_700_000_000);
                saga.feed_insert(outcome)
            }
            UploadStep::Store { id } => {
                let essence = saga.mime.as_ref().expect("mime resolved").essence.clone();
                let outcome = env.store.save(id, essence, audio.clone());
                saga.feed_store(outcome)
            }
            UploadStep::Link { id } => {
                let url = env.store.get_url(id);
                let mime_id = saga.mime.as_ref().expect("mime resolved").id;
                env.table.update_url(id, url, mime_id);
                saga.feed_link(Ok(()))
            }
            UploadStep::Retire { token } => {
                env.ledger.remove(token);
                saga.feed_retire(Ok(()))
            }
            UploadStep::IssueTokens { parent_id, count } => {
                let mut ids = Vec::new();
                for _ in 0..count {
                    ids.push(TokenId::new(env.fresh()));
                }
                let outcome = env.ledger.create_batch(parent_id, ids);
                saga.feed_tokens(outcome)
            }
            UploadStep::IssueKey { id } => {
                let key = TokenId::new(env.fresh());
                env.ledger.create(key, Some(id)).expect("create management key");
                saga.feed_key(Ok(key))
            }
            UploadStep::Respond => {
                let id = saga.recording_id.expect("finished saga has an id");
                let location = env.urls.recording(&id);
                return Ok((saga.into_response(), location));
            }
            UploadStep::Fail { release } => {
                // The compensation the response does not wait for: a
                // detached best-effort release.
                if let Some(t) = release {
                    env.ledger.release(t);
                }
                let rejection = saga.failure.take().expect("failed saga has a rejection");
                let status = rejection.status();
                return Err((status, rejection.flatten().message));
            }
        };
    }
}

#[test]
fn upload_succeeds_with_tokens_and_location() {
    let mut env = TestEnv::new();
    let token = env.root_token();
    let audio = vec![0x4f, 0x67, 0x67, 0x53, 1, 2, 3];

    let (response, location) = drive_upload(
        &mut env,
        metadata("  My Recording ", token),
        audio.clone(),
        Ok(opus_report()),
    )
    .expect("upload succeeds");

    assert_eq!(response.tokens.len(), FANOUT as usize);
    let id = response.id;
    assert!(!id.text().is_empty());
    assert_eq!(
        location,
        format!("https://api.example.com/recs/{}", id.text())
    );

    // The bytes are durably stored and the row is retrievable, with
    // the normalized name.
    assert_eq!(env.store.fetch(id).expect("object stored"), audio);
    let row = env.table.retrieve_row(id).expect("row exists");
    let mimes = vec![backend::label::Label::new(1, "audio/ogg; codec=opus".into(), None)];
    let categories = vec![backend::label::Label::new(6, "Category".into(), None)];
    let recording = assemble_recording(&row, &mimes, &categories, &vec![], &vec![])
        .expect("assemble recording");
    match recording {
        Recording::Active(active) => {
            assert_eq!(active.name, normalize_name("  My Recording "));
            assert_eq!(active.url, env.store.get_url(id));
        }
        other => panic!("expected active recording, got {:?}", other),
    }

    // Every issued child token is usable and bound to the recording.
    for t in &response.tokens {
        assert_eq!(env.ledger.lock(*t), Some(Some(id)));
        env.ledger.release(*t);
    }
}

#[test]
fn reusing_a_consumed_token_is_unauthorized() {
    let mut env = TestEnv::new();
    let token = env.root_token();
    drive_upload(
        &mut env,
        metadata("First", token),
        vec![1],
        Ok(opus_report()),
    )
    .expect("first upload succeeds");

    // The token was removed on success; a re-upload with it is a 401
    // whose message names the invalid token.
    let (status, message) = drive_upload(
        &mut env,
        metadata("Second", token),
        vec![1],
        Ok(opus_report()),
    )
    .expect_err("reused token is rejected");
    assert_eq!(status, 401);
    assert!(message.starts_with("invalid token"));
}

#[test]
fn unsupported_format_is_rejected_and_token_released() {
    let mut env = TestEnv::new();
    let token = env.root_token();
    let report = ProbeReport {
        streams: vec!["pcm_s16le".to_string()],
        format_name: "wav".to_string(),
    };

    let (status, message) =
        drive_upload(&mut env, metadata("Wave", token), vec![1], Ok(report))
            .expect_err("unsupported format is rejected");
    assert_eq!(status, 415);
    assert_eq!(message, "invalid audio format: wav/pcm_s16le");

    // The compensation ran: the same token is usable again.
    assert_eq!(env.ledger.lock(token), Some(None));
}

#[test]
fn multiple_streams_are_rejected_and_token_released() {
    let mut env = TestEnv::new();
    let token = env.root_token();
    let report = ProbeReport {
        streams: vec!["opus".to_string(), "vorbis".to_string()],
        format_name: "ogg".to_string(),
    };

    let (status, message) =
        drive_upload(&mut env, metadata("Two streams", token), vec![1], Ok(report))
            .expect_err("two streams are rejected");
    assert_eq!(status, 400);
    assert_eq!(message, "too many streams: should be 1, was 2");
    assert_eq!(env.ledger.lock(token), Some(None));
}

#[test]
fn probe_fault_is_a_backend_error() {
    let mut env = TestEnv::new();
    let token = env.root_token();
    let (status, _message) = drive_upload(
        &mut env,
        metadata("Faulty", token),
        vec![1],
        Err(BackendError::FfprobeFailed { message: "no such binary".into() }),
    )
    .expect_err("probe fault is rejected");
    assert_eq!(status, 500);
    assert_eq!(env.ledger.lock(token), Some(None));
}

#[test]
fn duplicate_normalized_name_is_a_conflict() {
    let mut env = TestEnv::new();
    let first = env.root_token();
    drive_upload(&mut env, metadata("Ana", first), vec![1], Ok(opus_report()))
        .expect("first upload succeeds");

    let second = env.root_token();
    let (status, message) = drive_upload(
        &mut env,
        metadata("  Ana ", second),
        vec![1],
        Ok(opus_report()),
    )
    .expect_err("same normalized name is rejected");
    assert_eq!(status, 403);
    assert_eq!(message, "name already exists in database");
    // The conflicting attempt's token was released.
    assert_eq!(env.ledger.lock(second), Some(None));
}

#[test]
fn comma_separated_containers_try_each_candidate() {
    let mut env = TestEnv::new();
    let token = env.root_token();
    let report = ProbeReport {
        streams: vec!["vorbis".to_string()],
        format_name: "unknown,ogg".to_string(),
    };
    let (response, _location) =
        drive_upload(&mut env, metadata("Candidates", token), vec![1], Ok(report))
            .expect("second candidate resolves");
    let row = env.table.retrieve_row(response.id).expect("row exists");
    let _ = row;
}

#[test]
fn deleted_recording_is_gone_everywhere() {
    let mut env = TestEnv::new();
    let token = env.root_token();
    let (response, _location) = drive_upload(
        &mut env,
        metadata("Short lived", token),
        vec![5, 6],
        Ok(opus_report()),
    )
    .expect("upload succeeds");
    let id = response.id;

    // The deletion saga: object deletion and row deletion, with
    // partial failures aggregated.
    let object_result = env.store.delete(id);
    let db_result = env.table.delete(id, 1_700_000_100);
    delete_outcome(id, object_result, db_result).expect("deletion succeeds");

    // Retrieval now reports it gone; the object fetch finds nothing.
    let row = env.table.retrieve_row(id).expect("tombstone exists");
    let recording = assemble_recording(&row, &vec![], &vec![], &vec![], &vec![])
        .expect("assemble tombstone");
    assert_eq!(recording_status(&Some(recording)), 410);
    assert!(env.store.fetch(id).is_none());

    // Deleting again reports the missing id as such.
    let object_again = env.store.delete(id);
    let db_again = env.table.delete(id, 1_700_000_200);
    match delete_outcome(id, object_again, db_again) {
        Err(BackendError::NonExistentId { id: missing }) => assert_eq!(missing, id),
        other => panic!("expected NonExistentId, got {:?}", other),
    }
}

#[test]
fn parse_parts_requires_both_named_parts() {
    let audio_part = || Part { name: "audio".to_string(), data: vec![1, 2] };
    let metadata_part = || Part { name: "metadata".to_string(), data: vec![b'{'] };

    let upload = parse_parts(vec![metadata_part(), audio_part()]).expect("both parts");
    assert_eq!(upload.audio, vec![1, 2]);
    assert_eq!(upload.metadata, vec![b'{']);

    assert!(matches!(
        parse_parts(vec![audio_part()]),
        Err(BackendError::PartsMissing)
    ));
    assert!(matches!(
        parse_parts(vec![metadata_part()]),
        Err(BackendError::PartsMissing)
    ));
    assert!(matches!(parse_parts(vec![]), Err(BackendError::PartsMissing)));
}

#[test]
fn parse_parts_takes_the_last_part_under_each_name() {
    let parts = vec![
        Part { name: "audio".to_string(), data: vec![1] },
        Part { name: "extra".to_string(), data: vec![9] },
        Part { name: "audio".to_string(), data: vec![2] },
        Part { name: "metadata".to_string(), data: vec![3] },
    ];
    let upload = parse_parts(parts).expect("parts present");
    assert_eq!(upload.audio, vec![2]);
    assert_eq!(upload.metadata, vec![3]);
}
