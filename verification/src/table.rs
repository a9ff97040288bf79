//! The recording table: the model of the relational store's
//! `recordings` rows.
//!
//! Rows are kept in insertion order under pairwise-distinct
//! identifiers, and no two active rows share a name — the two unique
//! constraints the store enforces.  Insertion reports which
//! constraint a conflicting row hit; deletion turns an active row
//! into a tombstone and leaves tombstones and absent rows alike as
//! `NonExistentId`.

use vstd::prelude::*;

verus! {

use vstd::pervasive::VecAdditionalExecFns;
use crate::errors::BackendError;
use crate::ids::RecordingId;
use crate::label::Label;
use crate::label::find_label;
use crate::label::find_label_seq;
use crate::normalization::normal_seq;
use crate::normalization::normalize_name;
use crate::recording::ActiveRecording;
use crate::recording::ChildRecording;
use crate::recording::DeletedRecording;
use crate::recording::NewRecording;
use crate::recording::Recording;
use crate::recording::Times;
use crate::recording::UploadMetadata;
use crate::rows::Keyed;
use crate::rows::key_in;
use crate::rows::key_index;
use crate::rows::lemma_key_index;
use crate::rows::unique_keys;

/// The descriptive fields an active recording row carries.
#[derive(Debug, PartialEq)]
pub struct ActiveData {
    pub name: String,
    pub url: Option<String>,
    pub mime_type_id: Option<i16>,
    pub category_id: i16,
    pub age_id: Option<i16>,
    pub gender_id: Option<i16>,
    pub location: Option<String>,
    pub occupation: Option<String>,
}

impl Clone for ActiveData {
    fn clone(&self) -> (r: Self)
        ensures
            r == *self,
    {
        ActiveData {
            name: self.name.clone(),
            url: match &self.url {
                Some(s) => Some(s.clone()),
                None => None,
            },
            mime_type_id: self.mime_type_id,
            category_id: self.category_id,
            age_id: self.age_id,
            gender_id: self.gender_id,
            location: match &self.location {
                Some(s) => Some(s.clone()),
                None => None,
            },
            occupation: match &self.occupation {
                Some(s) => Some(s.clone()),
                None => None,
            },
        }
    }
}

/// The lifecycle state of a row: active with its descriptive fields,
/// or a tombstone that has dropped them.
#[derive(Debug, PartialEq)]
pub enum RowState {
    Active(ActiveData),
    Deleted { deleted_at: i64 },
}

impl Clone for RowState {
    fn clone(&self) -> (r: Self)
        ensures
            r == *self,
    {
        match self {
            RowState::Active(d) => RowState::Active(d.clone()),
            RowState::Deleted { deleted_at } => RowState::Deleted { deleted_at: *deleted_at },
        }
    }
}

/// One recording row.
#[derive(Debug, PartialEq)]
pub struct StoredRecording {
    pub id: RecordingId,
    pub times: Times,
    pub parent_id: Option<RecordingId>,
    pub state: RowState,
}

impl Clone for StoredRecording {
    fn clone(&self) -> (r: Self)
        ensures
            r == *self,
    {
        StoredRecording {
            id: self.id,
            times: self.times,
            parent_id: self.parent_id,
            state: self.state.clone(),
        }
    }
}

impl Keyed for StoredRecording {
    open spec fn key(&self) -> u128 {
        self.id.value
    }

    fn key_value(&self) -> (k: u128)
        ensures
            k == self.key(),
    {
        self.id.value
    }
}

/// The name of a row when it is active; a tombstone has none.
pub open spec fn active_name(r: StoredRecording) -> Option<Seq<char>> {
    match r.state {
        RowState::Active(d) => Some(d.name@),
        RowState::Deleted { .. } => None,
    }
}

/// No two active rows share a name.
pub open spec fn unique_names(s: Seq<StoredRecording>) -> bool {
    forall|i: int, j: int|
        0 <= i < j < s.len() && active_name(s[i]) is Some ==> active_name(s[i]) != active_name(
            s[j],
        )
}

/// Some active row carries the name `n`.
pub open spec fn seq_name_taken(s: Seq<StoredRecording>, n: Seq<char>) -> bool {
    exists|i: int| 0 <= i < s.len() && active_name(s[i]) == Some(n)
}

/// The row that an insertion creates: active, with no URL or MIME
/// type yet, carrying the submitted fields.
pub open spec fn fresh_row(
    id: RecordingId,
    parent_id: Option<RecordingId>,
    metadata: UploadMetadata,
    now: i64,
) -> StoredRecording {
    StoredRecording {
        id,
        times: Times { created_at: now, updated_at: now },
        parent_id,
        state: RowState::Active(
            ActiveData {
                name: metadata.name,
                url: None,
                mime_type_id: None,
                category_id: metadata.category_id,
                age_id: metadata.age_id,
                gender_id: metadata.gender_id,
                location: metadata.location,
                occupation: metadata.occupation,
            },
        ),
    }
}

/// The tombstone a deletion leaves: identifier, timestamps and parent
/// survive; every descriptive field is dropped.
pub open spec fn tombstone(r: StoredRecording, deleted_at: i64) -> StoredRecording {
    StoredRecording {
        id: r.id,
        times: r.times,
        parent_id: r.parent_id,
        state: RowState::Deleted { deleted_at },
    }
}

/// `r` with its URL and MIME type linked; everything else unchanged.
/// Applies only to active rows.
pub open spec fn with_url(r: StoredRecording, url: String, mime_type_id: i16) -> StoredRecording {
    match r.state {
        RowState::Active(d) => StoredRecording {
            id: r.id,
            times: r.times,
            parent_id: r.parent_id,
            state: RowState::Active(
                ActiveData {
                    name: d.name,
                    url: Some(url),
                    mime_type_id: Some(mime_type_id),
                    category_id: d.category_id,
                    age_id: d.age_id,
                    gender_id: d.gender_id,
                    location: d.location,
                    occupation: d.occupation,
                },
            ),
        },
        RowState::Deleted { .. } => r,
    }
}

/// The children of `parent`: every active row bound to it, in row
/// order, reduced to identifier and name.
pub open spec fn children_of(s: Seq<StoredRecording>, parent: RecordingId) -> Seq<ChildRecording>
    decreases s.len(),
{
    if s.len() == 0 {
        Seq::empty()
    } else {
        let head: Seq<ChildRecording> = match s[0].state {
            RowState::Active(d) => if s[0].parent_id == Some(parent) {
                seq![ChildRecording { id: s[0].id, name: d.name }]
            } else {
                Seq::empty()
            },
            RowState::Deleted { .. } => Seq::empty(),
        };
        head + children_of(s.drop_first(), parent)
    }
}

proof fn lemma_children_push(s: Seq<StoredRecording>, r: StoredRecording, parent: RecordingId)
    ensures
        children_of(s.push(r), parent) == children_of(s, parent) + (match r.state {
            RowState::Active(d) => if r.parent_id == Some(parent) {
                seq![ChildRecording { id: r.id, name: d.name }]
            } else {
                Seq::<ChildRecording>::empty()
            },
            RowState::Deleted { .. } => Seq::<ChildRecording>::empty(),
        }),
    decreases s.len(),
{
    let tail: Seq<ChildRecording> = match r.state {
        RowState::Active(d) => if r.parent_id == Some(parent) {
            seq![ChildRecording { id: r.id, name: d.name }]
        } else {
            Seq::empty()
        },
        RowState::Deleted { .. } => Seq::empty(),
    };
    if s.len() == 0 {
        assert(s.push(r)[0] == r);
        assert(s.push(r).drop_first() =~= Seq::<StoredRecording>::empty());
        assert(children_of(Seq::<StoredRecording>::empty(), parent)
            == Seq::<ChildRecording>::empty());
        assert(children_of(s.push(r), parent) =~~= tail);
        assert(children_of(s, parent) + tail =~~= tail);
    } else {
        assert(s.push(r)[0] == s[0]);
        assert(s.push(r).drop_first() =~= s.drop_first().push(r));
        lemma_children_push(s.drop_first(), r, parent);
        assert(children_of(s.push(r), parent) =~~= children_of(s, parent) + tail);
    }
}

/// Some active row carries the identifier `id`.
pub open spec fn active_row_with_id(s: Seq<StoredRecording>, id: RecordingId) -> bool {
    exists|j: int| 0 <= j < s.len() && s[j].id == id && active_name(s[j]) is Some
}

/// Every listed child comes from an active row bearing its
/// identifier.
proof fn lemma_children_ids(s: Seq<StoredRecording>, parent: RecordingId)
    ensures
        forall|k: int|
            0 <= k < children_of(s, parent).len() ==> active_row_with_id(
                s,
                #[trigger] children_of(s, parent)[k].id,
            ),
    decreases s.len(),
{
    if s.len() > 0 {
        lemma_children_ids(s.drop_first(), parent);
        let c = children_of(s, parent);
        let head: Seq<ChildRecording> = match s[0].state {
            RowState::Active(d) => if s[0].parent_id == Some(parent) {
                seq![ChildRecording { id: s[0].id, name: d.name }]
            } else {
                Seq::empty()
            },
            RowState::Deleted { .. } => Seq::empty(),
        };
        let rest = children_of(s.drop_first(), parent);
        assert(c == head + rest);
        assert forall|k: int| 0 <= k < c.len() implies active_row_with_id(
            s,
            #[trigger] c[k].id,
        ) by {
            if k < head.len() {
                assert(c[k] == head[0]);
                assert(s[0].id == c[k].id && active_name(s[0]) is Some);
            } else {
                assert(c[k] == rest[k - head.len()]);
                let j = choose|j: int|
                    0 <= j < s.drop_first().len() && s.drop_first()[j].id == c[k].id
                        && active_name(s.drop_first()[j]) is Some;
                assert(s[j + 1] == s.drop_first()[j]);
            }
        }
    }
}

/// A deleted recording disappears from every child listing: once its
/// row is a tombstone, no listing for any parent names its
/// identifier again.
pub proof fn lemma_children_after_delete(
    s: Seq<StoredRecording>,
    i: int,
    deleted_at: i64,
    parent: RecordingId,
)
    requires
        unique_keys(s),
        0 <= i < s.len(),
    ensures
        forall|k: int|
            0 <= k < children_of(s.update(i, tombstone(s[i], deleted_at)), parent).len()
                ==> children_of(s.update(i, tombstone(s[i], deleted_at)), parent)[k].id
                != s[i].id,
{
    let t = s.update(i, tombstone(s[i], deleted_at));
    lemma_children_ids(t, parent);
    let c = children_of(t, parent);
    assert forall|k: int| 0 <= k < c.len() implies c[k].id != s[i].id by {
        if c[k].id == s[i].id {
            let j = choose|j: int|
                0 <= j < t.len() && t[j].id == s[i].id && active_name(t[j]) is Some;
            assert(j != i);
            assert(t[j] == s[j]);
            assert(s[j].key() == s[i].key());
        }
    }
}

/// How many rows are active.
pub open spec fn active_count(s: Seq<StoredRecording>) -> nat
    decreases s.len(),
{
    if s.len() == 0 {
        0
    } else {
        (if active_name(s[0]) is Some {
            1nat
        } else {
            0nat
        }) + active_count(s.drop_first())
    }
}

proof fn lemma_active_count_push(s: Seq<StoredRecording>, r: StoredRecording)
    ensures
        active_count(s.push(r)) == active_count(s) + (if active_name(r) is Some {
            1nat
        } else {
            0nat
        }),
    decreases s.len(),
{
    if s.len() == 0 {
        assert(s.push(r)[0] == r);
        assert(s.push(r).drop_first() =~= Seq::<StoredRecording>::empty());
        assert(active_count(Seq::<StoredRecording>::empty()) == 0);
    } else {
        assert(s.push(r)[0] == s[0]);
        assert(s.push(r).drop_first() =~= s.drop_first().push(r));
        lemma_active_count_push(s.drop_first(), r);
    }
}

/// Once a row with an active name is appended, that name is taken.
/// With `insert`'s contract this is the uniqueness guarantee: a later
/// insertion under an equal stored name cannot succeed; with a fresh
/// identifier it reports exactly the name conflict.
pub proof fn lemma_inserted_name_taken(
    s: Seq<StoredRecording>,
    id: RecordingId,
    parent_id: Option<RecordingId>,
    metadata: UploadMetadata,
    now: i64,
)
    ensures
        seq_name_taken(s.push(fresh_row(id, parent_id, metadata, now)), metadata.name@),
{
    let t = s.push(fresh_row(id, parent_id, metadata, now));
    assert(active_name(t[s.len() as int]) == Some(metadata.name@));
}

/// The recording table.
pub struct RecordingTable {
    rows: Vec<StoredRecording>,
}

impl RecordingTable {
    /// The rows, in insertion order.
    pub closed spec fn rows_seq(&self) -> Seq<StoredRecording> {
        self.rows@
    }

    /// The table's invariant: distinct identifiers, distinct active
    /// names.
    pub closed spec fn wf(&self) -> bool {
        unique_keys(self.rows@) && unique_names(self.rows@)
    }

    /// An empty table.
    pub fn new() -> (r: Self)
        ensures
            r.wf(),
            r.rows_seq() == Seq::<StoredRecording>::empty(),
    {
        RecordingTable { rows: Vec::new() }
    }

    /// The index of the row keyed `k`, if any.
    fn find_index(&self, k: u128) -> (r: Option<usize>)
        ensures
            match r {
                Some(i) => i < self.rows@.len() && self.rows@[i as int].key() == k,
                None => !key_in(self.rows@, k),
            },
    {
        let mut i: usize = 0;
        while i < self.rows.len()
            invariant
                i <= self.rows@.len(),
                forall|j: int| 0 <= j < i ==> self.rows@[j].key() != k,
            decreases self.rows@.len() - i,
        {
            if self.rows[i].key_value() == k {
                return Some(i);
            }
            i = i + 1;
        }
        None
    }

    /// Whether some active row carries exactly the name `name`.
    fn name_taken(&self, name: &String) -> (b: bool)
        ensures
            b == seq_name_taken(self.rows_seq(), name@),
    {
        let mut i: usize = 0;
        while i < self.rows.len()
            invariant
                i <= self.rows@.len(),
                forall|j: int| 0 <= j < i ==> active_name(self.rows@[j]) != Some(name@),
            decreases self.rows@.len() - i,
        {
            match &self.rows[i].state {
                RowState::Active(d) => {
                    if d.name == *name {
                        proof {
                            assert(active_name(self.rows@[i as int]) == Some(name@));
                        }
                        return true;
                    }
                },
                RowState::Deleted { .. } => {},
            }
            i = i + 1;
        }
        false
    }

    /// Creates a recording row from the submitted metadata, with no
    /// URL yet.  The caller supplies the freshly drawn identifier and
    /// the current time.  An identifier collision and a name
    /// collision are reported as the distinct conflicts they are, and
    /// change nothing.
    pub fn insert(
        &mut self,
        id: RecordingId,
        parent_id: Option<RecordingId>,
        metadata: &UploadMetadata,
        now: i64,
    ) -> (r: Result<NewRecording, BackendError>)
        requires
            old(self).wf(),
        ensures
            final(self).wf(),
            match r {
                Ok(nr) => {
                    &&& !key_in(old(self).rows_seq(), id.value)
                    &&& !seq_name_taken(old(self).rows_seq(), metadata.name@)
                    &&& final(self).rows_seq() == old(self).rows_seq().push(
                        fresh_row(id, parent_id, *metadata, now),
                    )
                    &&& nr.id == id
                    &&& nr.times == (Times { created_at: now, updated_at: now })
                    &&& nr.metadata == *metadata
                },
                Err(e) => final(self).rows_seq() == old(self).rows_seq() && (match e {
                    BackendError::IdAlreadyExists => key_in(old(self).rows_seq(), id.value),
                    BackendError::NameAlreadyExists => !key_in(old(self).rows_seq(), id.value)
                        && seq_name_taken(old(self).rows_seq(), metadata.name@),
                    _ => false,
                }),
            },
    {
        match self.find_index(id.value) {
            Some(_) => Err(BackendError::IdAlreadyExists),
            None => {
                if self.name_taken(&metadata.name) {
                    Err(BackendError::NameAlreadyExists)
                } else {
                    let m = metadata.clone();
                    let row = StoredRecording {
                        id,
                        times: Times { created_at: now, updated_at: now },
                        parent_id,
                        state: RowState::Active(
                            ActiveData {
                                name: m.name,
                                url: None,
                                mime_type_id: None,
                                category_id: m.category_id,
                                age_id: m.age_id,
                                gender_id: m.gender_id,
                                location: m.location,
                                occupation: m.occupation,
                            },
                        ),
                    };
                    proof {
                        let s = self.rows@;
                        let v = fresh_row(id, parent_id, *metadata, now);
                        assert(row == v);
                        assert forall|a: int, b: int|
                            0 <= a < b < s.push(v).len() && active_name(s.push(v)[a]) is Some
                            implies active_name(s.push(v)[a]) != active_name(s.push(v)[b]) by {
                            if b == s.len() {
                                assert(s.push(v)[a] == s[a]);
                                if active_name(s[a]) == Some(metadata.name@) {
                                    assert(seq_name_taken(s, metadata.name@));
                                }
                            } else {
                                assert(s.push(v)[a] == s[a]);
                                assert(s.push(v)[b] == s[b]);
                            }
                        }
                        assert forall|a: int, b: int|
                            0 <= a < b < s.push(v).len() implies s.push(v)[a].key() != s.push(
                            v,
                        )[b].key() by {
                            if b == s.len() {
                                assert(s.push(v)[a] == s[a]);
                            }
                        }
                    }
                    self.rows.push(row);
                    Ok(NewRecording {
                        id,
                        times: Times { created_at: now, updated_at: now },
                        metadata: metadata.clone(),
                    })
                }
            },
        }
    }

    /// Links the stored URL and MIME type of an active row; reports
    /// whether a row was updated.  Anything else is left unchanged.
    pub fn update_url(&mut self, id: RecordingId, url: String, mime_type_id: i16) -> (updated:
        bool)
        requires
            old(self).wf(),
        ensures
            final(self).wf(),
            ({
                let s = old(self).rows_seq();
                let i = key_index(s, id.value);
                if key_in(s, id.value) && active_name(s[i]) is Some {
                    updated && final(self).rows_seq() == s.update(
                        i,
                        with_url(s[i], url, mime_type_id),
                    )
                } else {
                    !updated && final(self).rows_seq() == s
                }
            }),
    {
        match self.find_index(id.value) {
            None => false,
            Some(i) => {
                proof {
                    lemma_key_index(self.rows@, i as int);
                }
                let row = &self.rows[i];
                match &row.state {
                    RowState::Deleted { .. } => false,
                    RowState::Active(d) => {
                        let updated_row = StoredRecording {
                            id: row.id,
                            times: row.times,
                            parent_id: row.parent_id,
                            state: RowState::Active(
                                ActiveData {
                                    name: d.name.clone(),
                                    url: Some(url),
                                    mime_type_id: Some(mime_type_id),
                                    category_id: d.category_id,
                                    age_id: d.age_id,
                                    gender_id: d.gender_id,
                                    location: match &d.location {
                                        Some(s) => Some(s.clone()),
                                        None => None,
                                    },
                                    occupation: match &d.occupation {
                                        Some(s) => Some(s.clone()),
                                        None => None,
                                    },
                                },
                            ),
                        };
                        proof {
                            let s = self.rows@;
                            let v = with_url(s[i as int], url, mime_type_id);
                            assert(updated_row == v);
                            assert forall|a: int, b: int|
                                0 <= a < b < s.update(i as int, v).len() && active_name(
                                s.update(i as int, v)[a],
                            ) is Some implies active_name(s.update(i as int, v)[a])
                                != active_name(s.update(i as int, v)[b]) by {
                                assert(active_name(v) == active_name(s[i as int]));
                                assert(s.update(i as int, v)[a] == if a == i as int {
                                    v
                                } else {
                                    s[a]
                                });
                                assert(s.update(i as int, v)[b] == if b == i as int {
                                    v
                                } else {
                                    s[b]
                                });
                            }
                            assert forall|a: int, b: int|
                                0 <= a < b < s.update(i as int, v).len() implies s.update(
                                i as int,
                                v,
                            )[a].key() != s.update(i as int, v)[b].key() by {
                                assert(s.update(i as int, v)[a].key() == s[a].key());
                                assert(s.update(i as int, v)[b].key() == s[b].key());
                            }
                        }
                        self.rows.set(i, updated_row);
                        true
                    },
                }
            },
        }
    }

    /// Deletes a recording: an active row becomes a tombstone, which
    /// drops every descriptive field and is permanent.  An absent or
    /// already-deleted identifier is `NonExistentId`.
    pub fn delete(&mut self, id: RecordingId, deleted_at: i64) -> (r: Result<(), BackendError>)
        requires
            old(self).wf(),
        ensures
            final(self).wf(),
            ({
                let s = old(self).rows_seq();
                let i = key_index(s, id.value);
                match r {
                    Ok(_) => key_in(s, id.value) && active_name(s[i]) is Some
                        && final(self).rows_seq() == s.update(i, tombstone(s[i], deleted_at)),
                    Err(e) => e == (BackendError::NonExistentId { id }) && final(self).rows_seq()
                        == s && !(key_in(s, id.value) && active_name(s[i]) is Some),
                }
            }),
    {
        match self.find_index(id.value) {
            None => Err(BackendError::NonExistentId { id }),
            Some(i) => {
                proof {
                    lemma_key_index(self.rows@, i as int);
                }
                let row = &self.rows[i];
                match &row.state {
                    RowState::Deleted { .. } => Err(BackendError::NonExistentId { id }),
                    RowState::Active(_) => {
                        let tomb = StoredRecording {
                            id: row.id,
                            times: row.times,
                            parent_id: row.parent_id,
                            state: RowState::Deleted { deleted_at },
                        };
                        proof {
                            let s = self.rows@;
                            let v = tombstone(s[i as int], deleted_at);
                            assert(tomb == v);
                            assert forall|a: int, b: int|
                                0 <= a < b < s.update(i as int, v).len() && active_name(
                                s.update(i as int, v)[a],
                            ) is Some implies active_name(s.update(i as int, v)[a])
                                != active_name(s.update(i as int, v)[b]) by {
                                assert(s.update(i as int, v)[a] == if a == i as int {
                                    v
                                } else {
                                    s[a]
                                });
                                assert(s.update(i as int, v)[b] == if b == i as int {
                                    v
                                } else {
                                    s[b]
                                });
                            }
                            assert forall|a: int, b: int|
                                0 <= a < b < s.update(i as int, v).len() implies s.update(
                                i as int,
                                v,
                            )[a].key() != s.update(i as int, v)[b].key() by {
                                assert(s.update(i as int, v)[a].key() == s[a].key());
                                assert(s.update(i as int, v)[b].key() == s[b].key());
                            }
                        }
                        self.rows.set(i, tomb);
                        Ok(())
                    },
                }
            },
        }
    }

    /// The row stored under `id`, if any.
    pub fn retrieve_row(&self, id: RecordingId) -> (r: Option<StoredRecording>)
        requires
            self.wf(),
        ensures
            ({
                let s = self.rows_seq();
                match r {
                    Some(row) => key_in(s, id.value) && row == s[key_index(s, id.value)],
                    None => !key_in(s, id.value),
                }
            }),
    {
        match self.find_index(id.value) {
            None => None,
            Some(i) => {
                proof {
                    lemma_key_index(self.rows@, i as int);
                }
                Some(self.rows[i].clone())
            },
        }
    }

    /// Every active child of `parent`, in row order.
    pub fn children(&self, parent: RecordingId) -> (r: Vec<ChildRecording>)
        ensures
            r@ == children_of(self.rows_seq(), parent),
    {
        let mut out: Vec<ChildRecording> = Vec::new();
        let mut i: usize = 0;
        proof {
            assert(self.rows@.subrange(0, 0) =~= Seq::<StoredRecording>::empty());
        }
        while i < self.rows.len()
            invariant
                i <= self.rows@.len(),
                out@ == children_of(self.rows@.subrange(0, i as int), parent),
            decreases self.rows@.len() - i,
        {
            let row = &self.rows[i];
            match &row.state {
                RowState::Active(d) => {
                    let matches_parent = match (&row.parent_id, &parent) {
                        (Some(p), q) => p.value == q.value,
                        (None, _) => false,
                    };
                    if matches_parent {
                        out.push(ChildRecording { id: row.id, name: d.name.clone() });
                    }
                },
                RowState::Deleted { .. } => {},
            }
            proof {
                let pre = self.rows@.subrange(0, i as int);
                lemma_children_push(pre, self.rows@[i as int], parent);
                assert(self.rows@.subrange(0, i + 1) =~= pre.push(self.rows@[i as int]));
                assert(out@ =~= children_of(self.rows@.subrange(0, i + 1), parent));
            }
            i = i + 1;
        }
        proof {
            assert(self.rows@.subrange(0, self.rows@.len() as int) =~= self.rows@);
        }
        out
    }

    /// How many active recordings the table holds.
    pub fn count_all(&self) -> (n: usize)
        ensures
            n == active_count(self.rows_seq()),
    {
        let mut n: usize = 0;
        let mut i: usize = 0;
        proof {
            assert(self.rows@.subrange(0, 0) =~= Seq::<StoredRecording>::empty());
        }
        while i < self.rows.len()
            invariant
                i <= self.rows@.len(),
                n == active_count(self.rows@.subrange(0, i as int)),
                n <= i,
            decreases self.rows@.len() - i,
        {
            match &self.rows[i].state {
                RowState::Active(_) => {
                    n = n + 1;
                },
                RowState::Deleted { .. } => {},
            }
            proof {
                let pre = self.rows@.subrange(0, i as int);
                lemma_active_count_push(pre, self.rows@[i as int]);
                assert(self.rows@.subrange(0, i + 1) =~= pre.push(self.rows@[i as int]));
            }
            i = i + 1;
        }
        proof {
            assert(self.rows@.subrange(0, self.rows@.len() as int) =~= self.rows@);
        }
        n
    }

    /// Whether the name, once normalized, is still free among active
    /// recordings.
    pub fn check_availability(&self, name: &str) -> (available: bool)
        ensures
            available == !seq_name_taken(self.rows_seq(), normal_seq(name@)),
    {
        let normalized = normalize_name(name);
        !self.name_taken(&normalized)
    }
}

/// A successful optional lookup: no identifier means no label, a
/// present identifier must resolve.
pub open spec fn lookup_optional(labels: Seq<Label>, id: Option<i16>) -> Option<Option<Label>> {
    match id {
        None => Some(None),
        Some(i) => match find_label_seq(labels, i) {
            Some(l) => Some(Some(l)),
            None => None,
        },
    }
}

/// The active recording assembled from a row and the label
/// catalogues, when the row has its URL linked and every referenced
/// label resolves.
pub open spec fn assemble_active(
    id: RecordingId,
    times: Times,
    parent: Option<RecordingId>,
    d: ActiveData,
    mime_types: Seq<Label>,
    categories: Seq<Label>,
    ages: Seq<Label>,
    genders: Seq<Label>,
) -> Option<ActiveRecording> {
    match (d.url, d.mime_type_id) {
        (Some(url), Some(mid)) => match (
            find_label_seq(mime_types, mid),
            find_label_seq(categories, d.category_id),
        ) {
            (Some(mime_type), Some(category)) => match (
                lookup_optional(ages, d.age_id),
                lookup_optional(genders, d.gender_id),
            ) {
                (Some(age), Some(gender)) => Some(
                    ActiveRecording {
                        id,
                        url,
                        mime_type,
                        times,
                        category,
                        parent,
                        name: d.name,
                        age,
                        gender,
                        location: d.location,
                        occupation: d.occupation,
                    },
                ),
                _ => None,
            },
            _ => None,
        },
        _ => None,
    }
}

/// Builds the retrieval view of a row: a tombstone becomes a deleted
/// recording; an active row becomes an active recording once its URL
/// is linked and its labels resolve, and is otherwise a backend
/// fault, since the store only hands out rows it wrote itself.
pub fn assemble_recording(
    row: &StoredRecording,
    mime_types: &Vec<Label>,
    categories: &Vec<Label>,
    ages: &Vec<Label>,
    genders: &Vec<Label>,
) -> (r: Result<Recording, BackendError>)
    ensures
        match row.state {
            RowState::Deleted { deleted_at } => r == Ok::<Recording, BackendError>(
                Recording::Deleted(
                    DeletedRecording {
                        id: row.id,
                        times: row.times,
                        deleted_at,
                        parent: row.parent_id,
                    },
                ),
            ),
            RowState::Active(d) => match assemble_active(
                row.id,
                row.times,
                row.parent_id,
                d,
                mime_types@,
                categories@,
                ages@,
                genders@,
            ) {
                Some(rec) => r == Ok::<Recording, BackendError>(Recording::Active(rec)),
                None => r matches Err(BackendError::Database { .. }),
            },
        },
{
    match &row.state {
        RowState::Deleted { deleted_at } => Ok(
            Recording::Deleted(
                DeletedRecording {
                    id: row.id,
                    times: row.times,
                    deleted_at: *deleted_at,
                    parent: row.parent_id,
                },
            ),
        ),
        RowState::Active(d) => {
            let url = match &d.url {
                Some(u) => u.clone(),
                None => {
                    return Err(
                        BackendError::Database {
                            message: String::from_str("recording row has no URL yet"),
                        },
                    );
                },
            };
            let mid = match d.mime_type_id {
                Some(m) => m,
                None => {
                    return Err(
                        BackendError::Database {
                            message: String::from_str("recording row has no MIME type yet"),
                        },
                    );
                },
            };
            let mime_type = match find_label(mime_types, mid) {
                Some(l) => l,
                None => {
                    return Err(
                        BackendError::Database {
                            message: String::from_str("stored MIME type is not in the catalogue"),
                        },
                    );
                },
            };
            let category = match find_label(categories, d.category_id) {
                Some(l) => l,
                None => {
                    return Err(
                        BackendError::Database {
                            message: String::from_str("stored category is not in the catalogue"),
                        },
                    );
                },
            };
            let age = match d.age_id {
                None => None,
                Some(aid) => match find_label(ages, aid) {
                    Some(l) => Some(l),
                    None => {
                        return Err(
                            BackendError::Database {
                                message: String::from_str("stored age is not in the catalogue"),
                            },
                        );
                    },
                },
            };
            let gender = match d.gender_id {
                None => None,
                Some(gid) => match find_label(genders, gid) {
                    Some(l) => Some(l),
                    None => {
                        return Err(
                            BackendError::Database {
                                message: String::from_str("stored gender is not in the catalogue"),
                            },
                        );
                    },
                },
            };
            Ok(
                Recording::Active(
                    ActiveRecording {
                        id: row.id,
                        url,
                        mime_type,
                        times: row.times,
                        category,
                        parent: row.parent_id,
                        name: d.name.clone(),
                        age,
                        gender,
                        location: match &d.location {
                            Some(s) => Some(s.clone()),
                            None => None,
                        },
                        occupation: match &d.occupation {
                            Some(s) => Some(s.clone()),
                            None => None,
                        },
                    },
                ),
            )
        },
    }
}

} // verus!
