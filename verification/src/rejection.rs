//! Error propagation toward the transport boundary: each failure is
//! wrapped with the context of the operation it arose in, and
//! flattened to context plus human-readable message for the response
//! body.  The status code comes from the error kind alone, never
//! from the context.

use vstd::prelude::*;

verus! {

use crate::errors::BackendError;
use crate::errors::message_seq;
use crate::errors::status_code_for;
use crate::errors::status_code_spec;

/// Which operation an error arose in, with the argument it was
/// given.
#[derive(Debug, PartialEq)]
pub enum Context {
    Ages,
    Categories,
    Children { parent: String },
    Count,
    Delete { id: String },
    Formats,
    Genders,
    Hide { id: String },
    Random { count: i16 },
    Retrieve { id: String },
    RetrieveByToken { token: String },
    Token { id: String },
    Upload { id: Option<String> },
}

impl Clone for Context {
    fn clone(&self) -> (r: Self)
        ensures
            r == *self,
    {
        match self {
            Context::Ages => Context::Ages,
            Context::Categories => Context::Categories,
            Context::Children { parent } => Context::Children { parent: parent.clone() },
            Context::Count => Context::Count,
            Context::Delete { id } => Context::Delete { id: id.clone() },
            Context::Formats => Context::Formats,
            Context::Genders => Context::Genders,
            Context::Hide { id } => Context::Hide { id: id.clone() },
            Context::Random { count } => Context::Random { count: *count },
            Context::Retrieve { id } => Context::Retrieve { id: id.clone() },
            Context::RetrieveByToken { token } => Context::RetrieveByToken {
                token: token.clone(),
            },
            Context::Token { id } => Context::Token { id: id.clone() },
            Context::Upload { id } => Context::Upload {
                id: match id {
                    Some(s) => Some(s.clone()),
                    None => None,
                },
            },
        }
    }
}

impl Context {
    pub fn ages() -> (r: Context)
        ensures
            r == Context::Ages,
    {
        Context::Ages
    }

    pub fn categories() -> (r: Context)
        ensures
            r == Context::Categories,
    {
        Context::Categories
    }

    pub fn children(parent: String) -> (r: Context)
        ensures
            r == (Context::Children { parent }),
    {
        Context::Children { parent }
    }

    pub fn count() -> (r: Context)
        ensures
            r == Context::Count,
    {
        Context::Count
    }

    pub fn delete(id: String) -> (r: Context)
        ensures
            r == (Context::Delete { id }),
    {
        Context::Delete { id }
    }

    pub fn formats() -> (r: Context)
        ensures
            r == Context::Formats,
    {
        Context::Formats
    }

    pub fn genders() -> (r: Context)
        ensures
            r == Context::Genders,
    {
        Context::Genders
    }

    pub fn hidden(id: String) -> (r: Context)
        ensures
            r == (Context::Hide { id }),
    {
        Context::Hide { id }
    }

    pub fn random(count: i16) -> (r: Context)
        ensures
            r == (Context::Random { count }),
    {
        Context::Random { count }
    }

    pub fn retrieve(id: String) -> (r: Context)
        ensures
            r == (Context::Retrieve { id }),
    {
        Context::Retrieve { id }
    }

    pub fn retrieve_by_token(token: String) -> (r: Context)
        ensures
            r == (Context::RetrieveByToken { token }),
    {
        Context::RetrieveByToken { token }
    }

    pub fn token(id: String) -> (r: Context)
        ensures
            r == (Context::Token { id }),
    {
        Context::Token { id }
    }

    pub fn upload(id: Option<String>) -> (r: Context)
        ensures
            r == (Context::Upload { id }),
    {
        Context::Upload { id }
    }
}

/// A failure wrapped with the context it arose in.
#[derive(Debug, PartialEq)]
pub struct Rejection {
    pub context: Context,
    pub error: BackendError,
}

/// A rejection flattened for the response body: the context and the
/// human-readable message.
#[derive(Debug, PartialEq)]
pub struct FlattenedRejection {
    pub context: Context,
    pub message: String,
}

impl Rejection {
    pub fn new(context: Context, error: BackendError) -> (r: Self)
        ensures
            r == (Rejection { context, error }),
    {
        Rejection { context, error }
    }

    /// The response body for this rejection: its context and its
    /// error's message.
    pub fn flatten(&self) -> (r: FlattenedRejection)
        ensures
            r.context == self.context,
            r.message@ == message_seq(self.error),
    {
        FlattenedRejection { context: self.context.clone(), message: self.error.message() }
    }

    /// The response status for this rejection, chosen from the error
    /// kind alone.
    pub fn status(&self) -> (code: u16)
        ensures
            code == status_code_spec(self.error),
    {
        status_code_for(&self.error)
    }
}

} // verus!
