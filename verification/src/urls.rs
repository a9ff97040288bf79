//! Generation of the service's own URLs: the recordings collection
//! and each recording's location, deterministic from configuration
//! and identifier.

use vstd::prelude::*;

verus! {

use vstd::string::StringExecFns;
use crate::ids::RecordingId;
use crate::ids::uuid_seq;

/// Convenience wrapper for URL generation.
#[derive(Debug, PartialEq)]
pub struct Urls {
    /// Top-level URL, including trailing slash.
    pub base: String,
    /// Path for all recordings-related actions.
    pub recordings_path: String,
    /// Prefix for all recordings-related actions: the path with a
    /// trailing slash.
    pub recordings_prefix: String,
}

impl Urls {
    /// Creates a new instance.  `base` must end with a slash;
    /// `recordings_prefix` must not include one.
    pub fn new(base: String, recordings_prefix: String) -> (r: Self)
        requires
            base@.len() > 0,
            base@.last() == '/',
        ensures
            r.base == base,
            r.recordings_path == recordings_prefix,
            r.recordings_prefix@ == recordings_prefix@ + "/"@,
    {
        let mut prefix = recordings_prefix.clone();
        prefix.append("/");
        Urls { base, recordings_path: recordings_prefix, recordings_prefix: prefix }
    }

    /// The URL of the recordings collection.
    pub fn recordings(&self) -> (r: String)
        ensures
            r@ == self.base@ + self.recordings_prefix@,
    {
        let mut out = self.base.clone();
        out.append(self.recordings_prefix.as_str());
        out
    }

    /// The URL of one recording, used as the `Location` of a created
    /// upload.
    pub fn recording(&self, id: &RecordingId) -> (r: String)
        ensures
            r@ == self.base@ + self.recordings_prefix@ + uuid_seq(id.value),
    {
        let mut out = self.recordings();
        out.append(id.text().as_str());
        proof {
            assert(out@ =~= self.base@ + self.recordings_prefix@ + uuid_seq(id.value));
        }
        out
    }
}

} // verus!
