use backend::errors::{
    delete_outcome, status_code_for, summarize_delete_errors, BackendError,
};
use backend::format::AudioFormat;
use backend::ids::{RecordingId, TokenId};
use backend::rejection::{Context, Rejection};

fn rec(v: u128) -> RecordingId {
    RecordingId::new(v)
}

#[test]
fn status_codes_follow_the_taxonomy() {
    assert_eq!(
        status_code_for(&BackendError::InvalidToken { token: TokenId::new(1) }),
        401
    );
    assert_eq!(
        status_code_for(&BackendError::InvalidAudioFormat {
            format: AudioFormat::new("wav".into(), "pcm".into()),
        }),
        415
    );
    assert_eq!(status_code_for(&BackendError::NameAlreadyExists), 403);
    assert_eq!(status_code_for(&BackendError::IdAlreadyExists), 409);
    assert_eq!(status_code_for(&BackendError::NonExistentId { id: rec(9) }), 404);
    assert_eq!(status_code_for(&BackendError::PartsMissing), 400);
    assert_eq!(status_code_for(&BackendError::MalformedFormSubmission), 400);
    assert_eq!(
        status_code_for(&BackendError::TooManyStreams { expected: 1, actual: 2 }),
        400
    );
    assert_eq!(
        status_code_for(&BackendError::MalformedUploadMetadata { message: "x".into() }),
        400
    );
    assert_eq!(status_code_for(&BackendError::InvalidId { id: "zz".into() }), 400);
    assert_eq!(status_code_for(&BackendError::UnrecognizedAudioFormat), 400);
    assert_eq!(
        status_code_for(&BackendError::Database { message: "down".into() }),
        500
    );
    assert_eq!(
        status_code_for(&BackendError::UploadFailed { message: "s3".into() }),
        500
    );
}

#[test]
fn invalid_token_message_has_the_expected_prefix() {
    let e = BackendError::InvalidToken { token: TokenId::new(0x2a) };
    let m = e.message();
    assert!(m.starts_with("invalid token"));
    assert_eq!(m, "invalid token: 00000000-0000-0000-0000-00000000002a");
}

#[test]
fn too_many_streams_message_counts_streams() {
    let e = BackendError::TooManyStreams { expected: 1, actual: 3 };
    assert_eq!(e.message(), "too many streams: should be 1, was 3");
}

#[test]
fn messages_carry_their_arguments() {
    assert_eq!(
        BackendError::MalformedUploadMetadata { message: "expected value".into() }.message(),
        "failed to parse uploaded metadata: expected value"
    );
    assert_eq!(
        BackendError::InvalidId { id: "not-a-uuid".into() }.message(),
        "not a valid ID: not-a-uuid"
    );
    assert_eq!(
        BackendError::NonExistentId { id: rec(2) }.message(),
        "non-existent ID: 00000000-0000-0000-0000-000000000002"
    );
    assert_eq!(
        BackendError::InvalidAudioFormat {
            format: AudioFormat::new("wav".into(), "pcm".into()),
        }
        .message(),
        "invalid audio format: wav/pcm"
    );
    assert_eq!(
        BackendError::RecordingDeleteFailed {
            id: rec(3),
            part: "database".into(),
            message: "down".into(),
        }
        .message(),
        "failed to delete 00000000-0000-0000-0000-000000000003/database: down"
    );
}

#[test]
fn flatten_carries_context_and_message() {
    let r = Rejection::new(
        Context::upload(None),
        BackendError::NameAlreadyExists,
    );
    let flat = r.flatten();
    assert_eq!(flat.context, Context::upload(None));
    assert_eq!(flat.message, "name already exists in database");
    assert_eq!(r.status(), 403);
}

#[test]
fn summarize_collects_only_deletion_parts() {
    let id = rec(5);
    let errors = vec![
        BackendError::RecordingDeleteFailed {
            id,
            part: "object-store".into(),
            message: "timeout".into(),
        },
        BackendError::BadRequest,
        BackendError::DeleteRollbackFailed {
            id,
            part: "database".into(),
            message: "down".into(),
        },
    ];
    match summarize_delete_errors(id, errors) {
        BackendError::SummarizedRecordingDeleteFailed { id: rid, parts } => {
            assert_eq!(rid, id);
            assert_eq!(parts, vec!["object-store".to_string(), "database".to_string()]);
        }
        other => panic!("unexpected summary: {:?}", other),
    }
}

#[test]
fn delete_outcome_names_exactly_the_failed_parts() {
    let id = rec(7);
    let db_err = || BackendError::Database { message: "down".into() };
    let obj_err = || BackendError::StoreDeleteFailed { message: "gone".into() };

    assert!(delete_outcome(id, Ok(()), Ok(())).is_ok());

    match delete_outcome(id, Err(obj_err()), Ok(())) {
        Err(BackendError::SummarizedRecordingDeleteFailed { parts, .. }) => {
            assert_eq!(parts, vec!["object-store".to_string()]);
        }
        other => panic!("unexpected: {:?}", other),
    }

    match delete_outcome(id, Ok(()), Err(db_err())) {
        Err(BackendError::SummarizedRecordingDeleteFailed { parts, .. }) => {
            assert_eq!(parts, vec!["database".to_string()]);
        }
        other => panic!("unexpected: {:?}", other),
    }

    match delete_outcome(id, Err(obj_err()), Err(db_err())) {
        Err(BackendError::SummarizedRecordingDeleteFailed { parts, .. }) => {
            assert_eq!(parts, vec!["object-store".to_string(), "database".to_string()]);
        }
        other => panic!("unexpected: {:?}", other),
    }
}

#[test]
fn delete_outcome_passes_non_existent_id_through() {
    let id = rec(8);
    match delete_outcome(id, Ok(()), Err(BackendError::NonExistentId { id })) {
        Err(BackendError::NonExistentId { id: missing }) => assert_eq!(missing, id),
        other => panic!("unexpected: {:?}", other),
    }
}

#[test]
fn summarized_message_joins_parts() {
    let e = BackendError::SummarizedRecordingDeleteFailed {
        id: rec(1),
        parts: vec!["object-store".to_string(), "database".to_string()],
    };
    assert_eq!(
        e.message(),
        "failed to delete parts of 00000000-0000-0000-0000-000000000001: object-store, database"
    );
}
