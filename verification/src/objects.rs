//! An in-memory object store: durable byte storage keyed by
//! recording identifier, with deterministic public URLs.
//!
//! This is the model behind the object-store interface the upload and
//! deletion flows drive: save overwrites, delete is idempotent, and
//! the URL of an object is a pure function of configuration and key.

use vstd::prelude::*;

verus! {

use vstd::pervasive::VecAdditionalExecFns;
use crate::errors::BackendError;
use crate::ids::RecordingId;
use crate::ids::uuid_seq;
use crate::rows::Keyed;
use crate::rows::key_in;
use crate::rows::lemma_row_map_index;
use crate::rows::lemma_row_map_not_in;
use crate::rows::lemma_row_map_push;
use crate::rows::lemma_row_map_remove;
use crate::rows::lemma_row_map_update;
use crate::rows::row_map;
use crate::rows::unique_keys;
use vstd::string::StringExecFns;

/// One stored object: its key, declared content type, and bytes.
#[derive(Debug, PartialEq)]
pub struct StoredObject {
    pub key: RecordingId,
    pub content_type: String,
    pub data: Vec<u8>,
}

impl Keyed for StoredObject {
    open spec fn key(&self) -> u128 {
        self.key.value
    }

    fn key_value(&self) -> (k: u128)
        ensures
            k == self.key(),
    {
        self.key.value
    }
}

/// Copies a byte vector.
fn copy_bytes(v: &Vec<u8>) -> (r: Vec<u8>)
    ensures
        r@ == v@,
{
    let mut out: Vec<u8> = Vec::new();
    let mut i: usize = 0;
    while i < v.len()
        invariant
            i <= v@.len(),
            out@ == v@.subrange(0, i as int),
        decreases v@.len() - i,
    {
        out.push(v[i]);
        proof {
            assert(out@ =~= v@.subrange(0, i + 1));
        }
        i = i + 1;
    }
    proof {
        assert(v@.subrange(0, v@.len() as int) =~= v@);
    }
    out
}

/// The public URL of the object stored under `key`, given the
/// configured extension.
pub open spec fn mock_url_seq(key: u128, extension: Seq<char>) -> Seq<char> {
    "https://www.example.com/"@ + uuid_seq(key) + "."@ + extension
}

/// An in-memory object store.
pub struct MockStore {
    objects: Vec<StoredObject>,
    extension: String,
}

impl View for MockStore {
    type V = Map<u128, StoredObject>;

    closed spec fn view(&self) -> Map<u128, StoredObject> {
        row_map(self.objects@)
    }
}

impl MockStore {
    /// The store's internal invariant: one object per key.
    pub closed spec fn wf(&self) -> bool {
        unique_keys(self.objects@)
    }

    /// The file extension its URLs carry.
    pub closed spec fn extension_seq(&self) -> Seq<char> {
        self.extension@
    }

    /// An empty store whose URLs end in `extension`.
    pub fn new(extension: String) -> (r: Self)
        ensures
            r.wf(),
            r@ == Map::<u128, StoredObject>::empty(),
            r.extension_seq() == extension@,
    {
        MockStore { objects: Vec::new(), extension }
    }

    /// The index of the object keyed `k`, if any.
    fn find_index(&self, k: u128) -> (r: Option<usize>)
        ensures
            match r {
                Some(i) => i < self.objects@.len() && self.objects@[i as int].key() == k,
                None => !key_in(self.objects@, k),
            },
    {
        let mut i: usize = 0;
        while i < self.objects.len()
            invariant
                i <= self.objects@.len(),
                forall|j: int| 0 <= j < i ==> self.objects@[j].key() != k,
            decreases self.objects@.len() - i,
        {
            if self.objects[i].key_value() == k {
                return Some(i);
            }
            i = i + 1;
        }
        None
    }

    /// Saves bytes under a key with their content type, overwriting
    /// any object already there.
    pub fn save(&mut self, key: RecordingId, content_type: String, raw: Vec<u8>) -> (r: Result<
        (),
        BackendError,
    >)
        requires
            old(self).wf(),
        ensures
            final(self).wf(),
            final(self).extension_seq() == old(self).extension_seq(),
            r is Ok,
            final(self)@ == old(self)@.insert(
                key.value,
                StoredObject { key, content_type, data: raw },
            ),
    {
        let row = StoredObject { key, content_type, data: raw };
        match self.find_index(key.value) {
            Some(i) => {
                proof {
                    lemma_row_map_update(self.objects@, i as int, row);
                }
                self.objects.set(i, row);
            },
            None => {
                proof {
                    lemma_row_map_push(self.objects@, row);
                }
                self.objects.push(row);
            },
        }
        Ok(())
    }

    /// Deletes the object under a key; deleting an absent key is
    /// still a success.
    pub fn delete(&mut self, key: RecordingId) -> (r: Result<(), BackendError>)
        requires
            old(self).wf(),
        ensures
            final(self).wf(),
            final(self).extension_seq() == old(self).extension_seq(),
            r is Ok,
            final(self)@ == old(self)@.remove(key.value),
    {
        match self.find_index(key.value) {
            Some(i) => {
                proof {
                    lemma_row_map_remove(self.objects@, i as int);
                }
                self.objects.remove(i);
            },
            None => {
                proof {
                    lemma_row_map_not_in(self.objects@, key.value);
                    assert(old(self)@.remove(key.value) =~= old(self)@);
                }
            },
        }
        Ok(())
    }

    /// The bytes stored under a key, if any.
    pub fn fetch(&self, key: RecordingId) -> (r: Option<Vec<u8>>)
        requires
            self.wf(),
        ensures
            match r {
                Some(d) => self@.contains_key(key.value) && d@ == self@[key.value].data@,
                None => !self@.contains_key(key.value),
            },
    {
        match self.find_index(key.value) {
            None => {
                proof {
                    lemma_row_map_not_in(self.objects@, key.value);
                }
                None
            },
            Some(i) => {
                proof {
                    lemma_row_map_index(self.objects@, i as int);
                }
                Some(copy_bytes(&self.objects[i].data))
            },
        }
    }

    /// The public URL for a key: deterministic from the configured
    /// extension and the key alone, with no call anywhere.
    pub fn get_url(&self, key: RecordingId) -> (r: String)
        ensures
            r@ == mock_url_seq(key.value, self.extension_seq()),
    {
        let mut out = String::from_str("https://www.example.com/");
        out.append(key.text().as_str());
        out.append(".");
        out.append(self.extension.as_str());
        proof {
            assert(out@ =~= mock_url_seq(key.value, self.extension_seq()));
        }
        out
    }
}

} // verus!
