//! Recordings and the data a submission carries.
//!
//! A recording is active until it is deleted, and then remains as a
//! tombstone: the identifier, the timestamps, and the parent survive;
//! every descriptive field is dropped.

use vstd::prelude::*;

verus! {

use crate::ids::RecordingId;
use crate::ids::TokenId;
use crate::label::Label;
use crate::normalization::normal_seq;
use crate::normalization::normalize_name;
use crate::normalization::normalize_option;

/// The creation and last-modification timestamps of a row, as Unix
/// timestamps.
#[derive(Clone, Copy, Debug, PartialEq, Eq, Structural)]
pub struct Times {
    pub created_at: i64,
    pub updated_at: i64,
}

/// The metadata for a single recording, as the submitter provides it:
/// the consent token, the chosen category, optional age and gender
/// labels, and the name and optional location and occupation texts.
#[derive(Debug, PartialEq)]
pub struct UploadMetadata {
    /// The ID of the age group provided.
    pub age_id: Option<i16>,
    /// The ID of the gender provided.
    pub gender_id: Option<i16>,
    /// The location provided.
    pub location: Option<String>,
    /// The name provided.  Must be unique after normalization.
    pub name: String,
    /// The occupation provided.
    pub occupation: Option<String>,
    /// The token using which this recording is created.
    pub token: TokenId,
    /// The ID of the category it falls into.
    pub category_id: i16,
}

impl Clone for UploadMetadata {
    fn clone(&self) -> (r: Self)
        ensures
            r == *self,
    {
        UploadMetadata {
            age_id: self.age_id,
            gender_id: self.gender_id,
            location: match &self.location {
                Some(s) => Some(s.clone()),
                None => None,
            },
            name: self.name.clone(),
            occupation: match &self.occupation {
                Some(s) => Some(s.clone()),
                None => None,
            },
            token: self.token,
            category_id: self.category_id,
        }
    }
}

impl UploadMetadata {
    /// This metadata with its name, location and occupation put in
    /// normalized form; everything else is unchanged.
    pub fn normalized(self) -> (r: UploadMetadata)
        ensures
            r.name@ == normal_seq(self.name@),
            normal_seq(r.name@) == r.name@,
            match self.location {
                Some(s) => r.location matches Some(t) && t@ == normal_seq(s@),
                None => r.location is None,
            },
            match self.occupation {
                Some(s) => r.occupation matches Some(t) && t@ == normal_seq(s@),
                None => r.occupation is None,
            },
            r.age_id == self.age_id,
            r.gender_id == self.gender_id,
            r.token == self.token,
            r.category_id == self.category_id,
    {
        UploadMetadata {
            age_id: self.age_id,
            gender_id: self.gender_id,
            location: normalize_option(self.location),
            name: normalize_name(self.name.as_str()),
            occupation: normalize_option(self.occupation),
            token: self.token,
            category_id: self.category_id,
        }
    }
}

/// A single active recording, assembled for retrieval.
#[derive(Debug, PartialEq)]
pub struct ActiveRecording {
    /// The ID of the recording.
    pub id: RecordingId,
    /// The URL of the file.
    pub url: String,
    /// The MIME type of the file.
    pub mime_type: Label,
    /// The times it was created and updated.
    pub times: Times,
    /// The category it falls into.
    pub category: Label,
    /// The ID of the recording it follows, if any.
    pub parent: Option<RecordingId>,
    /// The name provided.  Unique after normalization.
    pub name: String,
    /// The age group provided.
    pub age: Option<Label>,
    /// The gender provided.
    pub gender: Option<Label>,
    /// The location provided.
    pub location: Option<String>,
    /// The occupation provided.
    pub occupation: Option<String>,
}

impl ActiveRecording {
    pub fn new(
        id: RecordingId,
        times: Times,
        name: String,
        parent: Option<RecordingId>,
        url: String,
        mime_type: Label,
        category: Label,
        gender: Option<Label>,
        age: Option<Label>,
        location: Option<String>,
        occupation: Option<String>,
    ) -> (r: Self)
        ensures
            r == (ActiveRecording {
                id,
                url,
                mime_type,
                times,
                category,
                parent,
                name,
                age,
                gender,
                location,
                occupation,
            }),
    {
        ActiveRecording {
            id,
            url,
            mime_type,
            times,
            category,
            parent,
            name,
            age,
            gender,
            location,
            occupation,
        }
    }
}

/// A single deleted recording: the tombstone left behind.
#[derive(Debug, PartialEq)]
pub struct DeletedRecording {
    /// The ID of the recording.
    pub id: RecordingId,
    /// The times it was created and updated.
    pub times: Times,
    /// The time it was deleted.
    pub deleted_at: i64,
    /// The ID of the recording it follows, if any.
    pub parent: Option<RecordingId>,
}

impl DeletedRecording {
    pub fn new(id: RecordingId, times: Times, deleted_at: i64, parent: Option<RecordingId>) -> (r:
        Self)
        ensures
            r == (DeletedRecording { id, times, deleted_at, parent }),
    {
        DeletedRecording { id, times, deleted_at, parent }
    }
}

/// A recording as retrieval sees it: active, or a tombstone.
#[derive(Debug, PartialEq)]
pub enum Recording {
    Active(ActiveRecording),
    Deleted(DeletedRecording),
}

/// The response status for a retrieval: 200 for an active recording,
/// 410 for a deleted one, 404 for none at all.
pub fn recording_status(found: &Option<Recording>) -> (status: u16)
    ensures
        match found {
            Some(Recording::Active(_)) => status == 200,
            Some(Recording::Deleted(_)) => status == 410,
            None => status == 404,
        },
{
    match found {
        Some(Recording::Active(_)) => 200,
        Some(Recording::Deleted(_)) => 410,
        None => 404,
    }
}

/// A recording row just created, before its bytes are stored.
#[derive(Debug, PartialEq)]
pub struct NewRecording {
    /// The ID of the recording.
    pub id: RecordingId,
    /// The times it was created and updated.
    pub times: Times,
    /// The user-submitted metadata.
    pub metadata: UploadMetadata,
}

impl NewRecording {
    pub fn new(id: RecordingId, created_at: i64, updated_at: i64, metadata: UploadMetadata) -> (r:
        Self)
        ensures
            r.id == id,
            r.times == (Times { created_at, updated_at }),
            r.metadata == metadata,
    {
        NewRecording { id, times: Times { created_at, updated_at }, metadata }
    }

    pub fn id(&self) -> (r: RecordingId)
        ensures
            r == self.id,
    {
        self.id
    }

    pub fn metadata(&self) -> (r: &UploadMetadata)
        ensures
            r == self.metadata,
    {
        &self.metadata
    }
}

/// A minimal view of a recording, for sampling endpoints.
#[derive(Debug, PartialEq)]
pub struct PartialRecording {
    /// The ID of the recording.
    pub id: RecordingId,
    /// The name provided.
    pub name: String,
    /// The location provided, if any.
    pub location: Option<String>,
}

impl PartialRecording {
    pub fn new(id: RecordingId, name: String, location: Option<String>) -> (r: Self)
        ensures
            r == (PartialRecording { id, name, location }),
    {
        PartialRecording { id, name, location }
    }
}

/// A simplified view of a recording that follows another.
#[derive(Debug, PartialEq)]
pub struct ChildRecording {
    /// The ID of the recording.
    pub id: RecordingId,
    /// The name provided.
    pub name: String,
}

/// A token to create a new recording, as a status check reports it.
#[derive(Clone, Copy, Debug, PartialEq, Eq)]
pub struct RecordingToken {
    /// The ID of the token.
    pub id: TokenId,
    /// The ID of the parent recording, if any.
    pub parent_id: Option<RecordingId>,
}

impl RecordingToken {
    pub fn new(id: TokenId, parent_id: Option<RecordingId>) -> (r: Self)
        ensures
            r == (RecordingToken { id, parent_id }),
    {
        RecordingToken { id, parent_id }
    }
}

} // verus!
