//! The upload saga: the state machine that drives one submission
//! through token locking, audio verification, metadata insertion,
//! object storage, URL linkage, token retirement and child-token
//! issuance, with the prescribed compensation at every failure.
//!
//! The saga decides; the driver performs.  Each step the saga emits
//! names the one outside action to take next, and the driver feeds
//! the outcome back as a plain value.  The ordering rules live here,
//! proved once, whatever the driver talks to:
//!
//! - the token is locked before any expensive work, so a reused token
//!   is rejected cheaply;
//! - a failure during audio verification, resolution or metadata
//!   insertion emits a release instruction, so the legitimate
//!   submitter keeps a usable token;
//! - from successful insertion on, failures carry the created
//!   recording's identifier and release nothing: the row stays, the
//!   error is reported with its id;
//! - the token is retired only after the object is durably stored and
//!   its URL linked, and child tokens are issued only after that.

use vstd::prelude::*;

verus! {

broadcast use vstd::string::group_string_axioms;

use crate::errors::BackendError;
use crate::ids::RecordingId;
use crate::ids::TokenId;
use crate::ids::uuid_seq;
use crate::mime::MimeCatalog;
use crate::mime::MimeType;
use crate::mime::choose_format;
use crate::mime::lemma_pick_views;
use crate::mime::pick_views;
use crate::probe::ProbeReport;
use crate::probe::interpret_probe;
use crate::probe::lemma_split_nonempty;
use crate::probe::report_containers;
use crate::recording::NewRecording;
use crate::recording::UploadMetadata;
use crate::rejection::Context;
use crate::rejection::Rejection;

/// One part of a multipart submission: its field name and its bytes.
#[derive(Debug, PartialEq)]
pub struct Part {
    pub name: String,
    pub data: Vec<u8>,
}

/// The two required parts of a submission.
#[derive(Debug, PartialEq)]
pub struct Upload {
    pub audio: Vec<u8>,
    pub metadata: Vec<u8>,
}

/// The bytes of the last part with the given field name, if any.
pub open spec fn last_named(parts: Seq<Part>, name: Seq<char>) -> Option<Seq<u8>>
    decreases parts.len(),
{
    if parts.len() == 0 {
        None
    } else if parts.last().name@ == name {
        Some(parts.last().data@)
    } else {
        last_named(parts.drop_last(), name)
    }
}

/// Picks the `metadata` and `audio` parts out of a submission, the
/// last part under each name winning; any other parts are ignored.
/// Both must be present, or the submission is rejected.
pub fn parse_parts(parts: Vec<Part>) -> (r: Result<Upload, BackendError>)
    ensures
        match r {
            Ok(u) => last_named(parts@, "audio"@) == Some(u.audio@) && last_named(
                parts@,
                "metadata"@,
            ) == Some(u.metadata@),
            Err(e) => e == BackendError::PartsMissing && (last_named(parts@, "audio"@) is None
                || last_named(parts@, "metadata"@) is None),
        },
{
    proof {
        reveal_strlit("audio");
        reveal_strlit("metadata");
    }
    let audio_name = String::from_str("audio");
    let metadata_name = String::from_str("metadata");
    let mut rest = parts;
    let mut audio: Option<Vec<u8>> = None;
    let mut metadata: Option<Vec<u8>> = None;
    while rest.len() > 0
        invariant
            audio_name@ == "audio"@,
            metadata_name@ == "metadata"@,
            match audio {
                Some(d) => last_named(parts@, "audio"@) == Some(d@),
                None => last_named(parts@, "audio"@) == last_named(rest@, "audio"@),
            },
            match metadata {
                Some(d) => last_named(parts@, "metadata"@) == Some(d@),
                None => last_named(parts@, "metadata"@) == last_named(rest@, "metadata"@),
            },
        decreases rest@.len(),
    {
        let ghost before = rest@;
        let part = match rest.pop() {
            Some(p) => p,
            None => {
                proof {
                    assert(false);
                }
                return Err(BackendError::PartsMissing);
            },
        };
        let ghost popped = part;
        proof {
            reveal_strlit("audio");
            reveal_strlit("metadata");
            assert(before.drop_last() =~= rest@);
            assert(before.last() == popped);
            assert("audio"@.len() == 5);
            assert("metadata"@.len() == 8);
            assert("audio"@ != "metadata"@);
        }
        let is_audio = part.name == audio_name;
        let is_metadata = part.name == metadata_name;
        if is_audio && audio.is_none() {
            audio = Some(part.data);
        } else if is_metadata && metadata.is_none() {
            metadata = Some(part.data);
        }
    }
    match (audio, metadata) {
        (Some(a), Some(m)) => Ok(Upload { audio: a, metadata: m }),
        (a, m) => {
            proof {
                if a is Some && m is Some {
                    assert(false);
                }
            }
            Err(BackendError::PartsMissing)
        },
    }
}

/// Saga-level configuration: how many child tokens each recording
/// fans out.
#[derive(Clone, Copy, Debug, PartialEq, Eq, Structural)]
pub struct Config {
    pub tokens_per_recording: u8,
}

impl Config {
    pub fn new(tokens_per_recording: u8) -> (r: Self)
        ensures
            r == (Config { tokens_per_recording }),
    {
        Config { tokens_per_recording }
    }
}

/// Where one saga instance stands.
#[derive(Clone, Copy, Debug, PartialEq, Eq, Structural)]
pub enum UploadPhase {
    AwaitLock,
    AwaitProbe,
    AwaitInsert,
    AwaitStore,
    AwaitLink,
    AwaitRetire,
    AwaitTokens,
    AwaitKey,
    Finished,
    Failed,
}

/// The position of a phase in the saga's fixed progression.
pub open spec fn phase_index(p: UploadPhase) -> int {
    match p {
        UploadPhase::AwaitLock => 0,
        UploadPhase::AwaitProbe => 1,
        UploadPhase::AwaitInsert => 2,
        UploadPhase::AwaitStore => 3,
        UploadPhase::AwaitLink => 4,
        UploadPhase::AwaitRetire => 5,
        UploadPhase::AwaitTokens => 6,
        UploadPhase::AwaitKey => 7,
        UploadPhase::Finished => 8,
        UploadPhase::Failed => 9,
    }
}

/// The next outside action the driver must perform.
#[derive(Debug, PartialEq)]
pub enum UploadStep {
    /// Atomically lock this token in the token store.
    Lock { token: TokenId },
    /// Run the audio probe over the submitted bytes.
    Probe,
    /// Insert the metadata row, bound to this parent.
    Insert { parent_id: Option<RecordingId> },
    /// Store the verified bytes under this recording, with the
    /// resolved MIME essence.
    Store { id: RecordingId },
    /// Link the recording's URL and MIME type in the store.
    Link { id: RecordingId },
    /// Permanently remove the consumed token.
    Retire { token: TokenId },
    /// Create this many child tokens bound to the recording.
    IssueTokens { parent_id: RecordingId, count: u8 },
    /// Create the management key for the recording.
    IssueKey { id: RecordingId },
    /// Send the success response.
    Respond,
    /// Send the failure response; first release this token, if any,
    /// as a detached best-effort task whose own failure is only
    /// logged.
    Fail { release: Option<TokenId> },
}

/// The success response: the recording, its child tokens, and the
/// management key.
#[derive(Debug, PartialEq)]
pub struct UploadResponse {
    pub id: RecordingId,
    pub tokens: Vec<TokenId>,
    pub key: TokenId,
}

/// One upload saga instance.
pub struct UploadSaga {
    pub phase: UploadPhase,
    pub config: Config,
    /// The submitted metadata, held in normalized form.
    pub metadata: UploadMetadata,
    /// The parent the locked token was bound to.
    pub parent_id: Option<RecordingId>,
    /// The resolved MIME type, once audio verification passed.
    pub mime: Option<MimeType>,
    /// The created recording, once insertion succeeded.
    pub recording_id: Option<RecordingId>,
    /// The issued child tokens.
    pub tokens: Vec<TokenId>,
    /// The issued management key.
    pub key: Option<TokenId>,
    /// The rejection to report, once failed.
    pub failure: Option<Rejection>,
}

/// What each phase guarantees about the gathered data.
pub open spec fn saga_wf(s: UploadSaga) -> bool {
    match s.phase {
        UploadPhase::AwaitLock => s.recording_id is None,
        UploadPhase::AwaitProbe => s.recording_id is None,
        UploadPhase::AwaitInsert => s.mime is Some && s.recording_id is None,
        UploadPhase::AwaitStore => s.mime is Some && s.recording_id is Some,
        UploadPhase::AwaitLink => s.mime is Some && s.recording_id is Some,
        UploadPhase::AwaitRetire => s.mime is Some && s.recording_id is Some,
        UploadPhase::AwaitTokens => s.mime is Some && s.recording_id is Some,
        UploadPhase::AwaitKey => s.mime is Some && s.recording_id is Some,
        UploadPhase::Finished => s.mime is Some && s.recording_id is Some && s.key is Some,
        UploadPhase::Failed => s.failure is Some,
    }
}

/// A failed transition: the saga is terminal, the step tells the
/// driver what to release and the stored rejection carries the error
/// under the upload context — with the recording's identifier
/// attached as soon as one exists.  Everything gathered is kept.
pub open spec fn upload_failed(
    pre: UploadSaga,
    post: UploadSaga,
    step: UploadStep,
    e: BackendError,
    release: Option<TokenId>,
) -> bool {
    &&& post.phase == UploadPhase::Failed
    &&& step == (UploadStep::Fail { release })
    &&& (post.failure matches Some(rej) && rej.error == e && (match pre.recording_id {
        None => rej.context == (Context::Upload { id: None }),
        Some(rid) => rej.context matches Context::Upload { id: Some(s) } && s@ == uuid_seq(
            rid.value,
        ),
    }))
    &&& post.config == pre.config
    &&& post.metadata == pre.metadata
    &&& post.parent_id == pre.parent_id
    &&& post.mime == pre.mime
    &&& post.recording_id == pre.recording_id
    &&& post.tokens == pre.tokens
    &&& post.key == pre.key
}

impl UploadSaga {
    /// Fails the saga with `e`, instructing the driver to release
    /// `release` first if set.
    fn fail(&mut self, e: BackendError, release: Option<TokenId>) -> (step: UploadStep)
        ensures
            upload_failed(*old(self), *final(self), step, e, release),
            saga_wf(*final(self)),
    {
        let context = match self.recording_id {
            None => Context::Upload { id: None },
            Some(rid) => Context::Upload { id: Some(rid.text()) },
        };
        self.failure = Some(Rejection { context, error: e });
        self.phase = UploadPhase::Failed;
        UploadStep::Fail { release }
    }

    /// Starts a saga over a parsed submission.  The metadata is
    /// normalized here, before anything else happens to it; the
    /// first instruction is to lock its token, before any expensive
    /// work.
    pub fn new(metadata: UploadMetadata, config: Config) -> (r: (UploadSaga, UploadStep))
        ensures
            saga_wf(r.0),
            r.0.phase == UploadPhase::AwaitLock,
            r.0.config == config,
            r.0.metadata.name@ == crate::normalization::normal_seq(metadata.name@),
            r.0.metadata.token == metadata.token,
            r.0.metadata.category_id == metadata.category_id,
            r.0.metadata.age_id == metadata.age_id,
            r.0.metadata.gender_id == metadata.gender_id,
            match metadata.location {
                Some(s) => r.0.metadata.location matches Some(t) && t@
                    == crate::normalization::normal_seq(s@),
                None => r.0.metadata.location is None,
            },
            match metadata.occupation {
                Some(s) => r.0.metadata.occupation matches Some(t) && t@
                    == crate::normalization::normal_seq(s@),
                None => r.0.metadata.occupation is None,
            },
            r.0.recording_id is None,
            r.1 == (UploadStep::Lock { token: metadata.token }),
    {
        let normalized = metadata.normalized();
        let token = normalized.token;
        let saga = UploadSaga {
            phase: UploadPhase::AwaitLock,
            config,
            metadata: normalized,
            parent_id: None,
            mime: None,
            recording_id: None,
            tokens: Vec::new(),
            key: None,
            failure: None,
        };
        (saga, UploadStep::Lock { token })
    }

    /// Feeds the outcome of the lock.  A token that was absent,
    /// locked or already consumed is an authorization failure, not a
    /// backend fault; nothing is released, since nothing was locked.
    pub fn feed_lock(&mut self, outcome: Option<Option<RecordingId>>) -> (step: UploadStep)
        requires
            saga_wf(*old(self)),
            old(self).phase == UploadPhase::AwaitLock,
        ensures
            saga_wf(*final(self)),
            phase_index(final(self).phase) > phase_index(old(self).phase),
            match outcome {
                Some(parent) => {
                    &&& final(self).phase == UploadPhase::AwaitProbe
                    &&& final(self).parent_id == parent
                    &&& step == UploadStep::Probe
                    &&& final(self).metadata == old(self).metadata
                    &&& final(self).config == old(self).config
                    &&& final(self).recording_id is None
                },
                None => upload_failed(
                    *old(self),
                    *final(self),
                    step,
                    BackendError::InvalidToken { token: old(self).metadata.token },
                    None,
                ),
            },
    {
        match outcome {
            Some(parent) => {
                self.parent_id = parent;
                self.phase = UploadPhase::AwaitProbe;
                UploadStep::Probe
            },
            None => {
                let token = self.metadata.token;
                self.fail(BackendError::InvalidToken { token }, None)
            },
        }
    }

    /// Feeds the probe's outcome and resolves the MIME type against
    /// the registered catalogue.  Any failure here — probe fault,
    /// stream count, unsupported format — releases the token: the
    /// submission failed before anything was committed.
    pub fn feed_probe(&mut self, outcome: Result<ProbeReport, BackendError>, catalog: &MimeCatalog)
        -> (step: UploadStep)
        requires
            saga_wf(*old(self)),
            old(self).phase == UploadPhase::AwaitProbe,
        ensures
            saga_wf(*final(self)),
            phase_index(final(self).phase) > phase_index(old(self).phase),
            match outcome {
                Err(e) => upload_failed(
                    *old(self),
                    *final(self),
                    step,
                    e,
                    Some(old(self).metadata.token),
                ),
                Ok(report) => {
                    if report.streams@.len() != 1 {
                        upload_failed(
                            *old(self),
                            *final(self),
                            step,
                            BackendError::TooManyStreams {
                                expected: 1,
                                actual: report.streams@.len() as usize,
                            },
                            Some(old(self).metadata.token),
                        )
                    } else {
                        match pick_views(
                            catalog.catalogue(),
                            report_containers(report),
                            report.streams@[0]@,
                        ) {
                            Some(p) => {
                                &&& final(self).phase == UploadPhase::AwaitInsert
                                &&& final(self).mime == Some(p.1)
                                &&& step == (UploadStep::Insert {
                                    parent_id: old(self).parent_id,
                                })
                                &&& final(self).metadata == old(self).metadata
                                &&& final(self).config == old(self).config
                                &&& final(self).parent_id == old(self).parent_id
                                &&& final(self).recording_id is None
                            },
                            None => final(self).phase == UploadPhase::Failed
                                && (final(self).failure matches Some(rej) && rej.context == (Context::Upload {
                                id: None,
                            }) && (rej.error matches BackendError::InvalidAudioFormat { format }
                                && format.container@ == report_containers(report)[0]
                                && format.codec@ == report.streams@[0]@)) && step == (
                            UploadStep::Fail { release: Some(old(self).metadata.token) }),
                        }
                    }
                },
            },
    {
        match outcome {
            Err(e) => {
                let token = self.metadata.token;
                self.fail(e, Some(token))
            },
            Ok(report) => {
                match interpret_probe(&report) {
                    Err(e) => {
                        let token = self.metadata.token;
                        self.fail(e, Some(token))
                    },
                    Ok(formats) => {
                        proof {
                            lemma_split_nonempty(report.format_name@, ',');
                            lemma_pick_views(
                                formats@,
                                catalog.catalogue(),
                                report_containers(report),
                                report.streams@[0]@,
                            );
                        }
                        match choose_format(&formats, catalog) {
                            Ok((_chosen, m)) => {
                                self.mime = Some(m);
                                self.phase = UploadPhase::AwaitInsert;
                                UploadStep::Insert { parent_id: self.parent_id }
                            },
                            Err(e) => {
                                let token = self.metadata.token;
                                self.fail(e, Some(token))
                            },
                        }
                    },
                }
            },
        }
    }

    /// Feeds the outcome of the metadata insertion.  A conflict or a
    /// backend fault still releases the token — nothing durable was
    /// created; success moves the saga past the point of release.
    pub fn feed_insert(&mut self, outcome: Result<NewRecording, BackendError>) -> (step:
        UploadStep)
        requires
            saga_wf(*old(self)),
            old(self).phase == UploadPhase::AwaitInsert,
        ensures
            saga_wf(*final(self)),
            phase_index(final(self).phase) > phase_index(old(self).phase),
            match outcome {
                Err(e) => upload_failed(
                    *old(self),
                    *final(self),
                    step,
                    e,
                    Some(old(self).metadata.token),
                ),
                Ok(nr) => {
                    &&& final(self).phase == UploadPhase::AwaitStore
                    &&& final(self).recording_id == Some(nr.id)
                    &&& step == (UploadStep::Store { id: nr.id })
                    &&& final(self).metadata == old(self).metadata
                    &&& final(self).config == old(self).config
                    &&& final(self).parent_id == old(self).parent_id
                    &&& final(self).mime == old(self).mime
                },
            },
    {
        match outcome {
            Err(e) => {
                let token = self.metadata.token;
                self.fail(e, Some(token))
            },
            Ok(nr) => {
                let id = nr.id;
                self.recording_id = Some(id);
                self.phase = UploadPhase::AwaitStore;
                UploadStep::Store { id }
            },
        }
    }

    /// Feeds the outcome of storing the bytes.  From here on a
    /// failure keeps the created row and reports the error with the
    /// recording's identifier attached; the token is not released.
    pub fn feed_store(&mut self, outcome: Result<(), BackendError>) -> (step: UploadStep)
        requires
            saga_wf(*old(self)),
            old(self).phase == UploadPhase::AwaitStore,
        ensures
            saga_wf(*final(self)),
            phase_index(final(self).phase) > phase_index(old(self).phase),
            match outcome {
                Err(e) => upload_failed(*old(self), *final(self), step, e, None),
                Ok(_) => {
                    &&& final(self).phase == UploadPhase::AwaitLink
                    &&& (old(self).recording_id matches Some(rid) && step == (UploadStep::Link {
                        id: rid,
                    }))
                    &&& final(self).metadata == old(self).metadata
                    &&& final(self).config == old(self).config
                    &&& final(self).parent_id == old(self).parent_id
                    &&& final(self).mime == old(self).mime
                    &&& final(self).recording_id == old(self).recording_id
                },
            },
    {
        match outcome {
            Err(e) => self.fail(e, None),
            Ok(_) => {
                let id = match self.recording_id {
                    Some(rid) => rid,
                    None => {
                        proof {
                            assert(false);
                        }
                        RecordingId { value: 0 }
                    },
                };
                self.phase = UploadPhase::AwaitLink;
                UploadStep::Link { id }
            },
        }
    }

    /// Feeds the outcome of linking the URL.  Only once the object
    /// is stored and its URL linked may the token be retired, so a
    /// recording never exists without exactly one consumed token.
    pub fn feed_link(&mut self, outcome: Result<(), BackendError>) -> (step: UploadStep)
        requires
            saga_wf(*old(self)),
            old(self).phase == UploadPhase::AwaitLink,
        ensures
            saga_wf(*final(self)),
            phase_index(final(self).phase) > phase_index(old(self).phase),
            match outcome {
                Err(e) => upload_failed(*old(self), *final(self), step, e, None),
                Ok(_) => {
                    &&& final(self).phase == UploadPhase::AwaitRetire
                    &&& step == (UploadStep::Retire { token: old(self).metadata.token })
                    &&& final(self).metadata == old(self).metadata
                    &&& final(self).config == old(self).config
                    &&& final(self).parent_id == old(self).parent_id
                    &&& final(self).mime == old(self).mime
                    &&& final(self).recording_id == old(self).recording_id
                },
            },
    {
        match outcome {
            Err(e) => self.fail(e, None),
            Ok(_) => {
                self.phase = UploadPhase::AwaitRetire;
                UploadStep::Retire { token: self.metadata.token }
            },
        }
    }

    /// Feeds the outcome of retiring the token.  Success asks for
    /// the configured fan-out of child tokens, bound to the new
    /// recording.
    pub fn feed_retire(&mut self, outcome: Result<(), BackendError>) -> (step: UploadStep)
        requires
            saga_wf(*old(self)),
            old(self).phase == UploadPhase::AwaitRetire,
        ensures
            saga_wf(*final(self)),
            phase_index(final(self).phase) > phase_index(old(self).phase),
            match outcome {
                Err(e) => upload_failed(*old(self), *final(self), step, e, None),
                Ok(_) => {
                    &&& final(self).phase == UploadPhase::AwaitTokens
                    &&& (old(self).recording_id matches Some(rid) && step == (
                    UploadStep::IssueTokens {
                        parent_id: rid,
                        count: old(self).config.tokens_per_recording,
                    }))
                    &&& final(self).metadata == old(self).metadata
                    &&& final(self).config == old(self).config
                    &&& final(self).parent_id == old(self).parent_id
                    &&& final(self).mime == old(self).mime
                    &&& final(self).recording_id == old(self).recording_id
                },
            },
    {
        match outcome {
            Err(e) => self.fail(e, None),
            Ok(_) => {
                let id = match self.recording_id {
                    Some(rid) => rid,
                    None => {
                        proof {
                            assert(false);
                        }
                        RecordingId { value: 0 }
                    },
                };
                self.phase = UploadPhase::AwaitTokens;
                UploadStep::IssueTokens { parent_id: id, count: self.config.tokens_per_recording }
            },
        }
    }

    /// Feeds the created child tokens, or the failure to create
    /// them.
    pub fn feed_tokens(&mut self, outcome: Result<Vec<TokenId>, BackendError>) -> (step:
        UploadStep)
        requires
            saga_wf(*old(self)),
            old(self).phase == UploadPhase::AwaitTokens,
        ensures
            saga_wf(*final(self)),
            phase_index(final(self).phase) > phase_index(old(self).phase),
            match outcome {
                Err(e) => upload_failed(*old(self), *final(self), step, e, None),
                Ok(ts) => {
                    &&& final(self).phase == UploadPhase::AwaitKey
                    &&& final(self).tokens == ts
                    &&& (old(self).recording_id matches Some(rid) && step == (
                    UploadStep::IssueKey { id: rid }))
                    &&& final(self).metadata == old(self).metadata
                    &&& final(self).config == old(self).config
                    &&& final(self).parent_id == old(self).parent_id
                    &&& final(self).mime == old(self).mime
                    &&& final(self).recording_id == old(self).recording_id
                },
            },
    {
        match outcome {
            Err(e) => self.fail(e, None),
            Ok(ts) => {
                let id = match self.recording_id {
                    Some(rid) => rid,
                    None => {
                        proof {
                            assert(false);
                        }
                        RecordingId { value: 0 }
                    },
                };
                self.tokens = ts;
                self.phase = UploadPhase::AwaitKey;
                UploadStep::IssueKey { id }
            },
        }
    }

    /// Feeds the created management key.  Success completes the
    /// saga.
    pub fn feed_key(&mut self, outcome: Result<TokenId, BackendError>) -> (step: UploadStep)
        requires
            saga_wf(*old(self)),
            old(self).phase == UploadPhase::AwaitKey,
        ensures
            saga_wf(*final(self)),
            phase_index(final(self).phase) > phase_index(old(self).phase),
            match outcome {
                Err(e) => upload_failed(*old(self), *final(self), step, e, None),
                Ok(k) => {
                    &&& final(self).phase == UploadPhase::Finished
                    &&& final(self).key == Some(k)
                    &&& step == UploadStep::Respond
                    &&& final(self).metadata == old(self).metadata
                    &&& final(self).config == old(self).config
                    &&& final(self).parent_id == old(self).parent_id
                    &&& final(self).mime == old(self).mime
                    &&& final(self).recording_id == old(self).recording_id
                    &&& final(self).tokens == old(self).tokens
                },
            },
    {
        match outcome {
            Err(e) => self.fail(e, None),
            Ok(k) => {
                self.key = Some(k);
                self.phase = UploadPhase::Finished;
                UploadStep::Respond
            },
        }
    }

    /// The success response of a finished saga: the recording's
    /// identifier, the child tokens, and the management key.
    pub fn into_response(self) -> (r: UploadResponse)
        requires
            saga_wf(self),
            self.phase == UploadPhase::Finished,
        ensures
            match (self.recording_id, self.key) {
                (Some(rid), Some(k)) => r == (UploadResponse {
                    id: rid,
                    tokens: self.tokens,
                    key: k,
                }),
                _ => false,
            },
    {
        let id = match self.recording_id {
            Some(rid) => rid,
            None => {
                proof {
                    assert(false);
                }
                RecordingId { value: 0 }
            },
        };
        let key = match self.key {
            Some(k) => k,
            None => {
                proof {
                    assert(false);
                }
                TokenId { value: 0 }
            },
        };
        UploadResponse { id, tokens: self.tokens, key }
    }
}

} // verus!
