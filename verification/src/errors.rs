//! The closed error taxonomy, its transport status mapping, and the
//! aggregation of partial deletion failures.
//!
//! Every failure the service can report is one variant here; the
//! mapping to an HTTP-style status code is exhaustive, so a new kind
//! cannot silently fall back to a default.  Outside failures arrive
//! as plain messages; no foreign error type crosses into this crate.

use vstd::prelude::*;

verus! {

use vstd::string::StringExecFns;
use crate::format::AudioFormat;
use crate::format::serialized_seq;
use crate::ids::RecordingId;
use crate::ids::TokenId;
use crate::ids::dec_seq;
use crate::ids::decimal_text;
use crate::ids::uuid_seq;

/// Enumerates high-level errors returned by this library.
#[derive(Debug, PartialEq)]
pub enum BackendError {
    /// A failure reported by the relational store.
    Database { message: String },
    /// A request that could not be understood at all.
    BadRequest,
    /// A URL for an uploaded object could not be generated.
    FailedToGenerateUrl { message: String },
    /// A form submission without the two required parts.
    PartsMissing,
    /// A scratch file for the probe could not be created or written.
    TemporaryFileError { message: String },
    /// The audio probe could not be run.
    FfprobeFailed { message: String },
    /// The audio probe produced output that could not be parsed.
    MalformedFfprobeOutput { message: String },
    /// The uploaded metadata could not be parsed.
    MalformedUploadMetadata { message: String },
    /// The uploaded media did not hold exactly one decodable stream.
    TooManyStreams { expected: usize, actual: usize },
    /// The form submission could not be parsed.
    MalformedFormSubmission,
    /// The object store failed to delete an object.
    StoreDeleteFailed { message: String },
    /// The object store failed to accept an upload.
    UploadFailed { message: String },
    /// A recording identifier that is already taken.
    IdAlreadyExists,
    /// A recording name that is already taken.
    NameAlreadyExists,
    /// An identifier that could not be parsed.
    InvalidId { id: String },
    /// An identifier that names no recording.
    NonExistentId { id: RecordingId },
    /// A stored URL that could not be parsed back.
    UnableToParseUrl { url: String, message: String },
    /// A container and codec pair with no catalogue entry.
    InvalidAudioFormat { format: AudioFormat },
    /// Media in which no audio format could be recognized.
    UnrecognizedAudioFormat,
    /// A token that is unknown, locked, or already consumed.
    InvalidToken { token: TokenId },
    /// A failure to release a token after a downstream error.
    TokenRollbackFailed { token: TokenId, message: String },
    /// A failure to delete one part of a recording.
    RecordingDeleteFailed { id: RecordingId, part: String, message: String },
    /// A failure to roll back the deletion of one part of a recording.
    DeleteRollbackFailed { id: RecordingId, part: String, message: String },
    /// One or more parts of a recording could not be deleted.
    SummarizedRecordingDeleteFailed { id: RecordingId, parts: Vec<String> },
}

/// The transport status for each error kind.  Client input faults map
/// to 400-class codes, authorization faults to 401, conflicts to 403
/// and 409, unsupported media to 415, and backend faults to 500.
pub open spec fn status_code_spec(e: BackendError) -> u16 {
    match e {
        BackendError::Database { .. } => 500,
        BackendError::BadRequest => 400,
        BackendError::FailedToGenerateUrl { .. } => 500,
        BackendError::PartsMissing => 400,
        BackendError::TemporaryFileError { .. } => 500,
        BackendError::FfprobeFailed { .. } => 500,
        BackendError::MalformedFfprobeOutput { .. } => 500,
        BackendError::MalformedUploadMetadata { .. } => 400,
        BackendError::TooManyStreams { .. } => 400,
        BackendError::MalformedFormSubmission => 400,
        BackendError::StoreDeleteFailed { .. } => 500,
        BackendError::UploadFailed { .. } => 500,
        BackendError::IdAlreadyExists => 409,
        BackendError::NameAlreadyExists => 403,
        BackendError::InvalidId { .. } => 400,
        BackendError::NonExistentId { .. } => 404,
        BackendError::UnableToParseUrl { .. } => 500,
        BackendError::InvalidAudioFormat { .. } => 415,
        BackendError::UnrecognizedAudioFormat => 400,
        BackendError::InvalidToken { .. } => 401,
        BackendError::TokenRollbackFailed { .. } => 500,
        BackendError::RecordingDeleteFailed { .. } => 500,
        BackendError::DeleteRollbackFailed { .. } => 500,
        BackendError::SummarizedRecordingDeleteFailed { .. } => 500,
    }
}

/// Chooses the transport status code for an error, from its kind
/// alone.
pub fn status_code_for(e: &BackendError) -> (code: u16)
    ensures
        code == status_code_spec(*e),
{
    match e {
        BackendError::Database { .. } => 500,
        BackendError::BadRequest => 400,
        BackendError::FailedToGenerateUrl { .. } => 500,
        BackendError::PartsMissing => 400,
        BackendError::TemporaryFileError { .. } => 500,
        BackendError::FfprobeFailed { .. } => 500,
        BackendError::MalformedFfprobeOutput { .. } => 500,
        BackendError::MalformedUploadMetadata { .. } => 400,
        BackendError::TooManyStreams { .. } => 400,
        BackendError::MalformedFormSubmission => 400,
        BackendError::StoreDeleteFailed { .. } => 500,
        BackendError::UploadFailed { .. } => 500,
        BackendError::IdAlreadyExists => 409,
        BackendError::NameAlreadyExists => 403,
        BackendError::InvalidId { .. } => 400,
        BackendError::NonExistentId { .. } => 404,
        BackendError::UnableToParseUrl { .. } => 500,
        BackendError::InvalidAudioFormat { .. } => 415,
        BackendError::UnrecognizedAudioFormat => 400,
        BackendError::InvalidToken { .. } => 401,
        BackendError::TokenRollbackFailed { .. } => 500,
        BackendError::RecordingDeleteFailed { .. } => 500,
        BackendError::DeleteRollbackFailed { .. } => 500,
        BackendError::SummarizedRecordingDeleteFailed { .. } => 500,
    }
}

/// The deletion failure parts joined with `, `.
pub open spec fn join_views(s: Seq<String>) -> Seq<char>
    decreases s.len(),
{
    if s.len() == 0 {
        Seq::empty()
    } else if s.len() == 1 {
        s[0]@
    } else {
        s[0]@ + ", "@ + join_views(s.drop_first())
    }
}

proof fn lemma_join_push(s: Seq<String>, x: String)
    ensures
        join_views(s.push(x)) == if s.len() == 0 {
            x@
        } else {
            join_views(s) + ", "@ + x@
        },
    decreases s.len(),
{
    if s.len() == 0 {
        assert(s.push(x)[0] == x);
    } else {
        assert(s.push(x).drop_first() =~= s.drop_first().push(x));
        lemma_join_push(s.drop_first(), x);
        if s.len() == 1 {
            assert(s.push(x)[0] == s[0]);
        } else {
            assert(join_views(s.push(x)) =~= join_views(s) + ", "@ + x@);
        }
    }
}

/// The human-readable message for each error kind.
pub open spec fn message_seq(e: BackendError) -> Seq<char> {
    match e {
        BackendError::Database { message } => "database error: "@ + message@,
        BackendError::BadRequest => "bad request"@,
        BackendError::FailedToGenerateUrl { .. } => "couldn't generate URL"@,
        BackendError::PartsMissing => "missing parts in upload"@,
        BackendError::TemporaryFileError { .. } => "temporary file error"@,
        BackendError::FfprobeFailed { .. } => "error running `ffprobe`"@,
        BackendError::MalformedFfprobeOutput { message } => {
            "failed to parse JSON received from `ffprobe`: "@ + message@
        },
        BackendError::MalformedUploadMetadata { message } => {
            "failed to parse uploaded metadata: "@ + message@
        },
        BackendError::TooManyStreams { expected, actual } => {
            "too many streams: should be "@ + dec_seq(expected as nat) + ", was "@ + dec_seq(
                actual as nat,
            )
        },
        BackendError::MalformedFormSubmission => "failed to parse form submission"@,
        BackendError::StoreDeleteFailed { .. } => "failed to delete object from storage"@,
        BackendError::UploadFailed { .. } => "failed to upload object to S3"@,
        BackendError::IdAlreadyExists => "ID already exists in database"@,
        BackendError::NameAlreadyExists => "name already exists in database"@,
        BackendError::InvalidId { id } => "not a valid ID: "@ + id@,
        BackendError::NonExistentId { id } => "non-existent ID: "@ + uuid_seq(id.value),
        BackendError::UnableToParseUrl { url, message } => {
            "unable to parse URL "@ + url@ + ": "@ + message@
        },
        BackendError::InvalidAudioFormat { format } => {
            "invalid audio format: "@ + serialized_seq(format)
        },
        BackendError::UnrecognizedAudioFormat => "unknown audio format"@,
        BackendError::InvalidToken { token } => "invalid token: "@ + uuid_seq(token.value),
        BackendError::TokenRollbackFailed { token, .. } => {
            "token rollback failed for "@ + uuid_seq(token.value)
        },
        BackendError::RecordingDeleteFailed { id, part, message } => {
            "failed to delete "@ + uuid_seq(id.value) + "/"@ + part@ + ": "@ + message@
        },
        BackendError::DeleteRollbackFailed { id, part, message } => {
            "failed to roll back deletion of "@ + uuid_seq(id.value) + "/"@ + part@ + ": "@
                + message@
        },
        BackendError::SummarizedRecordingDeleteFailed { id, parts } => {
            "failed to delete parts of "@ + uuid_seq(id.value) + ": "@ + join_views(parts@)
        },
    }
}

impl BackendError {
    /// The human-readable message for this error, as the response
    /// body shows it.
    pub fn message(&self) -> (r: String)
        ensures
            r@ == message_seq(*self),
    {
        match self {
            BackendError::Database { message } => {
                let mut out = String::from_str("database error: ");
                out.append(message.as_str());
                out
            },
            BackendError::BadRequest => String::from_str("bad request"),
            BackendError::FailedToGenerateUrl { .. } => String::from_str("couldn't generate URL"),
            BackendError::PartsMissing => String::from_str("missing parts in upload"),
            BackendError::TemporaryFileError { .. } => String::from_str("temporary file error"),
            BackendError::FfprobeFailed { .. } => String::from_str("error running `ffprobe`"),
            BackendError::MalformedFfprobeOutput { message } => {
                let mut out = String::from_str("failed to parse JSON received from `ffprobe`: ");
                out.append(message.as_str());
                out
            },
            BackendError::MalformedUploadMetadata { message } => {
                let mut out = String::from_str("failed to parse uploaded metadata: ");
                out.append(message.as_str());
                out
            },
            BackendError::TooManyStreams { expected, actual } => {
                let mut out = String::from_str("too many streams: should be ");
                out.append(decimal_text(*expected as u64).as_str());
                out.append(", was ");
                out.append(decimal_text(*actual as u64).as_str());
                proof {
                    assert(out@ =~= message_seq(*self));
                }
                out
            },
            BackendError::MalformedFormSubmission => {
                String::from_str("failed to parse form submission")
            },
            BackendError::StoreDeleteFailed { .. } => {
                String::from_str("failed to delete object from storage")
            },
            BackendError::UploadFailed { .. } => {
                String::from_str("failed to upload object to S3")
            },
            BackendError::IdAlreadyExists => String::from_str("ID already exists in database"),
            BackendError::NameAlreadyExists => {
                String::from_str("name already exists in database")
            },
            BackendError::InvalidId { id } => {
                let mut out = String::from_str("not a valid ID: ");
                out.append(id.as_str());
                out
            },
            BackendError::NonExistentId { id } => {
                let mut out = String::from_str("non-existent ID: ");
                out.append(id.text().as_str());
                out
            },
            BackendError::UnableToParseUrl { url, message } => {
                let mut out = String::from_str("unable to parse URL ");
                out.append(url.as_str());
                out.append(": ");
                out.append(message.as_str());
                proof {
                    assert(out@ =~= message_seq(*self));
                }
                out
            },
            BackendError::InvalidAudioFormat { format } => {
                let mut out = String::from_str("invalid audio format: ");
                out.append(format.serialized().as_str());
                out
            },
            BackendError::UnrecognizedAudioFormat => String::from_str("unknown audio format"),
            BackendError::InvalidToken { token } => {
                let mut out = String::from_str("invalid token: ");
                out.append(token.text().as_str());
                out
            },
            BackendError::TokenRollbackFailed { token, .. } => {
                let mut out = String::from_str("token rollback failed for ");
                out.append(token.text().as_str());
                out
            },
            BackendError::RecordingDeleteFailed { id, part, message } => {
                let mut out = String::from_str("failed to delete ");
                out.append(id.text().as_str());
                out.append("/");
                out.append(part.as_str());
                out.append(": ");
                out.append(message.as_str());
                proof {
                    assert(out@ =~= message_seq(*self));
                }
                out
            },
            BackendError::DeleteRollbackFailed { id, part, message } => {
                let mut out = String::from_str("failed to roll back deletion of ");
                out.append(id.text().as_str());
                out.append("/");
                out.append(part.as_str());
                out.append(": ");
                out.append(message.as_str());
                proof {
                    assert(out@ =~= message_seq(*self));
                }
                out
            },
            BackendError::SummarizedRecordingDeleteFailed { id, parts } => {
                let mut out = String::from_str("failed to delete parts of ");
                out.append(id.text().as_str());
                out.append(": ");
                let ghost base = out@;
                let mut i: usize = 0;
                while i < parts.len()
                    invariant
                        i <= parts@.len(),
                        out@ == base + join_views(parts@.subrange(0, i as int)),
                    decreases parts@.len() - i,
                {
                    if i > 0 {
                        out.append(", ");
                    }
                    let piece = &parts[i];
                    out.append(piece.as_str());
                    proof {
                        let pre = parts@.subrange(0, i as int);
                        lemma_join_push(pre, parts@[i as int]);
                        assert(parts@.subrange(0, i + 1) =~= pre.push(parts@[i as int]));
                        assert(out@ =~= base + join_views(parts@.subrange(0, i + 1)));
                    }
                    i = i + 1;
                }
                proof {
                    assert(parts@.subrange(0, parts@.len() as int) =~= parts@);
                    assert(out@ =~= message_seq(*self));
                }
                out
            },
        }
    }
}

/// The message of an invalid-token error begins with the words
/// `invalid token`.
pub proof fn lemma_invalid_token_message_prefix(token: TokenId)
    ensures
        message_seq(BackendError::InvalidToken { token }).subrange(0, 13) == "invalid token"@,
{
    reveal_strlit("invalid token: ");
    reveal_strlit("invalid token");
    assert(message_seq(BackendError::InvalidToken { token }).subrange(0, 13)
        =~= "invalid token"@);
}

/// Collapses a list of deletion failures into one summarized error
/// whose parts name every sub-operation that failed.
pub open spec fn delete_parts_seq(errs: Seq<BackendError>) -> Seq<Seq<char>>
    decreases errs.len(),
{
    if errs.len() == 0 {
        Seq::empty()
    } else {
        let head = match errs[0] {
            BackendError::RecordingDeleteFailed { part, .. } => seq![part@],
            BackendError::DeleteRollbackFailed { part, .. } => seq![part@],
            _ => Seq::empty(),
        };
        head + delete_parts_seq(errs.drop_first())
    }
}

proof fn lemma_delete_parts_push(errs: Seq<BackendError>, e: BackendError)
    ensures
        delete_parts_seq(errs.push(e)) == delete_parts_seq(errs) + (match e {
            BackendError::RecordingDeleteFailed { part, .. } => seq![part@],
            BackendError::DeleteRollbackFailed { part, .. } => seq![part@],
            _ => Seq::<Seq<char>>::empty(),
        }),
    decreases errs.len(),
{
    let tail = match e {
        BackendError::RecordingDeleteFailed { part, .. } => seq![part@],
        BackendError::DeleteRollbackFailed { part, .. } => seq![part@],
        _ => Seq::<Seq<char>>::empty(),
    };
    if errs.len() == 0 {
        assert(errs.push(e)[0] == e);
        assert(errs.push(e).drop_first() =~= Seq::<BackendError>::empty());
        assert(delete_parts_seq(Seq::<BackendError>::empty()) == Seq::<Seq<char>>::empty());
        assert(delete_parts_seq(errs.push(e)) =~~= tail);
    } else {
        assert(errs.push(e)[0] == errs[0]);
        assert(errs.push(e).drop_first() =~= errs.drop_first().push(e));
        lemma_delete_parts_push(errs.drop_first(), e);
        assert(delete_parts_seq(errs.push(e)) =~~= delete_parts_seq(errs) + tail);
    }
}

/// Merges every partial deletion failure in `errors` into one
/// `SummarizedRecordingDeleteFailed` naming each failed part, in
/// order.
pub fn summarize_delete_errors(id: RecordingId, errors: Vec<BackendError>) -> (r: BackendError)
    ensures
        r matches BackendError::SummarizedRecordingDeleteFailed { id: rid, parts } && rid == id
            && parts@.map_values(|p: String| p@) == delete_parts_seq(errors@),
{
    let mut parts: Vec<String> = Vec::new();
    let mut i: usize = 0;
    while i < errors.len()
        invariant
            i <= errors@.len(),
            parts@.map_values(|p: String| p@) == delete_parts_seq(errors@.subrange(0, i as int)),
        decreases errors@.len() - i,
    {
        let e = &errors[i];
        match e {
            BackendError::RecordingDeleteFailed { part, .. } => {
                parts.push(part.clone());
            },
            BackendError::DeleteRollbackFailed { part, .. } => {
                parts.push(part.clone());
            },
            _ => {},
        }
        proof {
            let pre = errors@.subrange(0, i as int);
            lemma_delete_parts_push(pre, errors@[i as int]);
            assert(errors@.subrange(0, i + 1) =~= pre.push(errors@[i as int]));
            assert(parts@.map_values(|p: String| p@) =~~= delete_parts_seq(
                errors@.subrange(0, i + 1),
            ));
        }
        i = i + 1;
    }
    proof {
        assert(errors@.subrange(0, errors@.len() as int) =~= errors@);
    }
    BackendError::SummarizedRecordingDeleteFailed { id, parts }
}

/// Combines the outcomes of the two deletion sub-operations.
///
/// Both succeeding is success.  A database report that the recording
/// never existed, with the object deletion fine, passes through as
/// `NonExistentId`.  Any other failure, of either side or of both, is
/// summarized with the parts `object-store` and `database` naming
/// exactly the sides that failed.
pub fn delete_outcome(
    id: RecordingId,
    object_result: Result<(), BackendError>,
    db_result: Result<(), BackendError>,
) -> (r: Result<(), BackendError>)
    ensures
        object_result is Ok && db_result is Ok ==> r is Ok,
        r is Ok ==> object_result is Ok && db_result is Ok,
        match db_result {
            Err(e) => {
                &&& (object_result is Ok && e is NonExistentId) ==> r == Err::<(), BackendError>(e)
                &&& (object_result is Ok && !(e is NonExistentId)) ==> (r matches Err(
                    BackendError::SummarizedRecordingDeleteFailed { id: rid, parts },
                ) && rid == id && parts@.len() == 1 && parts@[0]@ == "database"@)
            },
            Ok(_) => true,
        },
        object_result is Err && db_result is Ok ==> (r matches Err(
            BackendError::SummarizedRecordingDeleteFailed { id: rid, parts },
        ) && rid == id && parts@.len() == 1 && parts@[0]@ == "object-store"@),
        object_result is Err && db_result is Err ==> (r matches Err(
            BackendError::SummarizedRecordingDeleteFailed { id: rid, parts },
        ) && rid == id && parts@.len() == 2 && parts@[0]@ == "object-store"@ && parts@[1]@
            == "database"@),
{
    match (object_result, db_result) {
        (Ok(_), Ok(_)) => Ok(()),
        (Ok(_), Err(e)) => {
            match e {
                BackendError::NonExistentId { id: missing } => {
                    Err(BackendError::NonExistentId { id: missing })
                },
                _ => {
                    let mut parts: Vec<String> = Vec::new();
                    parts.push(String::from_str("database"));
                    Err(BackendError::SummarizedRecordingDeleteFailed { id, parts })
                },
            }
        },
        (Err(_), Ok(_)) => {
            let mut parts: Vec<String> = Vec::new();
            parts.push(String::from_str("object-store"));
            Err(BackendError::SummarizedRecordingDeleteFailed { id, parts })
        },
        (Err(_), Err(_)) => {
            let mut parts: Vec<String> = Vec::new();
            parts.push(String::from_str("object-store"));
            parts.push(String::from_str("database"));
            Err(BackendError::SummarizedRecordingDeleteFailed { id, parts })
        },
    }
}

} // verus!
