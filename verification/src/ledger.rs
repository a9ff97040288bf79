//! The token ledger: creation, atomic lock-and-consume, release, and
//! removal of single-use consent tokens.
//!
//! The ledger is the model of the token store: a map from token key
//! to row.  Locking is a conditional transition that succeeds at most
//! once between releases, which is the concurrency guarantee the
//! whole upload flow rests on; the store serializes the transition,
//! so every interleaving of requests is some sequence of these
//! transitions.

use vstd::prelude::*;

verus! {

use crate::errors::BackendError;
use crate::ids::RecordingId;
use crate::ids::TokenId;
use crate::rows::Keyed;
use crate::rows::key_in;
use crate::rows::lemma_row_map_index;
use crate::rows::lemma_row_map_not_in;
use crate::rows::lemma_row_map_push;
use crate::rows::lemma_row_map_remove;
use crate::rows::row_map;
use crate::rows::unique_keys;

/// One token row: its identifier, the recording it is bound to (none
/// for a root token), and whether a consumption attempt is in flight.
#[derive(Clone, Copy, Debug, PartialEq, Eq)]
pub struct TokenRow {
    pub id: TokenId,
    pub parent_id: Option<RecordingId>,
    pub locked: bool,
}

impl Keyed for TokenRow {
    open spec fn key(&self) -> u128 {
        self.id.value
    }

    fn key_value(&self) -> (k: u128)
        ensures
            k == self.key(),
    {
        self.id.value
    }
}

/// Whether a lock of `t` can succeed in `m`: the token exists and is
/// unlocked.
pub open spec fn lock_allowed(m: Map<u128, TokenRow>, t: u128) -> bool {
    m.contains_key(t) && !m[t].locked
}

/// The ledger after a lock of `t`: the token becomes locked if the
/// lock succeeds, and nothing changes otherwise.
pub open spec fn lock_transition(m: Map<u128, TokenRow>, t: u128) -> Map<u128, TokenRow> {
    if lock_allowed(m, t) {
        m.insert(t, TokenRow { id: m[t].id, parent_id: m[t].parent_id, locked: true })
    } else {
        m
    }
}

/// What a lock of `t` returns: the bound parent on success, nothing
/// when the token is absent or already locked.
pub open spec fn lock_result(m: Map<u128, TokenRow>, t: u128) -> Option<Option<RecordingId>> {
    if lock_allowed(m, t) {
        Some(m[t].parent_id)
    } else {
        None
    }
}

/// The ledger after a release of `t`: the token becomes unlocked if
/// present; releasing an absent token changes nothing.
pub open spec fn release_transition(m: Map<u128, TokenRow>, t: u128) -> Map<u128, TokenRow> {
    if m.contains_key(t) {
        m.insert(t, TokenRow { id: m[t].id, parent_id: m[t].parent_id, locked: false })
    } else {
        m
    }
}

/// The ledger after a removal of `t`.
pub open spec fn remove_transition(m: Map<u128, TokenRow>, t: u128) -> Map<u128, TokenRow> {
    m.remove(t)
}

/// The ledger after creating token `t` bound to `parent_id`.
pub open spec fn create_transition(
    m: Map<u128, TokenRow>,
    t: u128,
    parent_id: Option<RecordingId>,
) -> Map<u128, TokenRow> {
    m.insert(t, TokenRow { id: TokenId { value: t }, parent_id, locked: false })
}

/// Token single use: once a lock of `t` has succeeded, a second lock
/// of `t` is denied until a release.  The store serializes lock
/// transitions, so of N racing locks exactly the first can succeed.
pub proof fn lemma_token_single_use(m: Map<u128, TokenRow>, t: u128)
    requires
        lock_result(m, t) is Some,
    ensures
        lock_result(lock_transition(m, t), t) is None,
{
}

/// Releasing is idempotent: a second release changes nothing.
pub proof fn lemma_release_idempotent(m: Map<u128, TokenRow>, t: u128)
    ensures
        release_transition(release_transition(m, t), t) == release_transition(m, t),
{
    if m.contains_key(t) {
        assert(release_transition(release_transition(m, t), t) =~= release_transition(m, t));
    }
}

/// A released token is consumable again: after a successful lock and
/// the compensating release, locking succeeds and yields the same
/// parent, so a failed upload does not leave its token unusable.
pub proof fn lemma_release_restores_lock(m: Map<u128, TokenRow>, t: u128)
    requires
        lock_result(m, t) is Some,
    ensures
        lock_result(release_transition(lock_transition(m, t), t), t) == lock_result(m, t),
{
}

/// A removed token never comes back: locking it is denied.
pub proof fn lemma_removed_never_lockable(m: Map<u128, TokenRow>, t: u128)
    ensures
        lock_result(remove_transition(m, t), t) is None,
{
}

/// The token ledger itself: rows with pairwise-distinct keys, viewed
/// as a map from token key to row.
pub struct TokenLedger {
    rows: Vec<TokenRow>,
}

impl View for TokenLedger {
    type V = Map<u128, TokenRow>;

    closed spec fn view(&self) -> Map<u128, TokenRow> {
        row_map(self.rows@)
    }
}

impl TokenLedger {
    /// The ledger's internal invariant: no two rows share a key.
    pub closed spec fn wf(&self) -> bool {
        unique_keys(self.rows@)
    }

    /// An empty ledger.
    pub fn new() -> (r: Self)
        ensures
            r.wf(),
            r@ == Map::<u128, TokenRow>::empty(),
    {
        TokenLedger { rows: Vec::new() }
    }

    /// The index of the row keyed `k`, if any.
    fn find_index(&self, k: u128) -> (r: Option<usize>)
        ensures
            match r {
                Some(i) => i < self.rows@.len() && self.rows@[i as int].key() == k,
                None => !key_in(self.rows@, k),
            },
    {
        let mut i: usize = 0;
        while i < self.rows.len()
            invariant
                i <= self.rows@.len(),
                forall|j: int| 0 <= j < i ==> self.rows@[j].key() != k,
            decreases self.rows@.len() - i,
        {
            if self.rows[i].key_value() == k {
                return Some(i);
            }
            i = i + 1;
        }
        None
    }

    /// Issues a new unlocked token bound to `parent_id` (none for a
    /// root token).  The caller supplies the freshly drawn
    /// identifier; a collision is reported, and changes nothing.
    pub fn create(&mut self, token: TokenId, parent_id: Option<RecordingId>) -> (r: Result<
        (),
        BackendError,
    >)
        requires
            old(self).wf(),
        ensures
            final(self).wf(),
            match r {
                Ok(_) => !old(self)@.contains_key(token.value) && final(self)@
                    == create_transition(old(self)@, token.value, parent_id),
                Err(e) => e == BackendError::IdAlreadyExists && old(self)@.contains_key(
                    token.value,
                ) && final(self)@ == old(self)@,
            },
    {
        match self.find_index(token.value) {
            Some(i) => {
                proof {
                    lemma_row_map_index(self.rows@, i as int);
                }
                Err(BackendError::IdAlreadyExists)
            },
            None => {
                let row = TokenRow { id: token, parent_id, locked: false };
                proof {
                    lemma_row_map_not_in(self.rows@, token.value);
                    lemma_row_map_push(self.rows@, row);
                }
                self.rows.push(row);
                Ok(())
            },
        }
    }

    /// Atomically consumes one permission to proceed: an unlocked
    /// token becomes locked and its parent is returned; an absent or
    /// already-locked token yields nothing and changes nothing.
    pub fn lock(&mut self, token: TokenId) -> (r: Option<Option<RecordingId>>)
        requires
            old(self).wf(),
        ensures
            final(self).wf(),
            final(self)@ == lock_transition(old(self)@, token.value),
            r == lock_result(old(self)@, token.value),
    {
        match self.find_index(token.value) {
            None => {
                proof {
                    lemma_row_map_not_in(self.rows@, token.value);
                }
                None
            },
            Some(i) => {
                proof {
                    lemma_row_map_index(self.rows@, i as int);
                }
                let row = self.rows[i];
                if row.locked {
                    None
                } else {
                    proof {
                        lemma_row_map_remove(self.rows@, i as int);
                    }
                    let ghost removed = self.rows@.remove(i as int);
                    self.rows.remove(i);
                    let updated = TokenRow {
                        id: row.id,
                        parent_id: row.parent_id,
                        locked: true,
                    };
                    proof {
                        assert forall|j: int| 0 <= j < removed.len() implies removed[j].key()
                            != token.value by {
                            let j0 = if j < i as int {
                                j
                            } else {
                                j + 1
                            };
                            assert(removed[j] == self.rows@[j]);
                        }
                        lemma_row_map_push(removed, updated);
                    }
                    self.rows.push(updated);
                    proof {
                        assert(final(self)@ =~= lock_transition(old(self)@, token.value));
                    }
                    Some(row.parent_id)
                }
            },
        }
    }

    /// Returns a locked token to the unlocked, consumable state.
    /// Releasing an absent or already-unlocked token is a no-op.
    pub fn release(&mut self, token: TokenId)
        requires
            old(self).wf(),
        ensures
            final(self).wf(),
            final(self)@ == release_transition(old(self)@, token.value),
    {
        match self.find_index(token.value) {
            None => {
                proof {
                    lemma_row_map_not_in(self.rows@, token.value);
                }
            },
            Some(i) => {
                proof {
                    lemma_row_map_index(self.rows@, i as int);
                    lemma_row_map_remove(self.rows@, i as int);
                }
                let row = self.rows[i];
                let ghost removed = self.rows@.remove(i as int);
                self.rows.remove(i);
                let updated = TokenRow { id: row.id, parent_id: row.parent_id, locked: false };
                proof {
                    assert forall|j: int| 0 <= j < removed.len() implies removed[j].key()
                        != token.value by {
                        let j0 = if j < i as int {
                            j
                        } else {
                            j + 1
                        };
                        assert(removed[j] == self.rows@[j]);
                    }
                    lemma_row_map_push(removed, updated);
                }
                self.rows.push(updated);
                proof {
                    assert(final(self)@ =~= release_transition(old(self)@, token.value));
                }
            },
        }
    }

    /// Permanently deletes a token; called only once the consuming
    /// recording is durably created.  Removing an absent token is a
    /// no-op.
    pub fn remove(&mut self, token: TokenId)
        requires
            old(self).wf(),
        ensures
            final(self).wf(),
            final(self)@ == remove_transition(old(self)@, token.value),
    {
        match self.find_index(token.value) {
            None => {
                proof {
                    lemma_row_map_not_in(self.rows@, token.value);
                    assert(old(self)@.remove(token.value) =~= old(self)@);
                }
            },
            Some(i) => {
                proof {
                    lemma_row_map_remove(self.rows@, i as int);
                }
                self.rows.remove(i);
            },
        }
    }

    /// Read-only lookup for status checks: the row for `token`, if
    /// any.
    pub fn retrieve(&self, token: TokenId) -> (r: Option<TokenRow>)
        requires
            self.wf(),
        ensures
            match r {
                Some(row) => self@.contains_key(token.value) && row == self@[token.value],
                None => !self@.contains_key(token.value),
            },
    {
        match self.find_index(token.value) {
            None => {
                proof {
                    lemma_row_map_not_in(self.rows@, token.value);
                }
                None
            },
            Some(i) => {
                proof {
                    lemma_row_map_index(self.rows@, i as int);
                }
                Some(self.rows[i])
            },
        }
    }
}

/// The ledger after creating each identifier in `ids`, in order, all
/// bound to `parent`.
pub open spec fn create_batch_transition(
    m: Map<u128, TokenRow>,
    ids: Seq<TokenId>,
    parent: RecordingId,
) -> Map<u128, TokenRow>
    decreases ids.len(),
{
    if ids.len() == 0 {
        m
    } else {
        create_batch_transition(
            create_transition(m, ids[0].value, Some(parent)),
            ids.drop_first(),
            parent,
        )
    }
}

/// Whether every identifier in `ids` is fresh when its turn comes.
pub open spec fn create_batch_allowed(
    m: Map<u128, TokenRow>,
    ids: Seq<TokenId>,
    parent: RecordingId,
) -> bool
    decreases ids.len(),
{
    if ids.len() == 0 {
        true
    } else {
        !m.contains_key(ids[0].value) && create_batch_allowed(
            create_transition(m, ids[0].value, Some(parent)),
            ids.drop_first(),
            parent,
        )
    }
}

proof fn lemma_batch_push(m: Map<u128, TokenRow>, ids: Seq<TokenId>, x: TokenId, parent: RecordingId)
    ensures
        create_batch_transition(m, ids.push(x), parent) == create_transition(
            create_batch_transition(m, ids, parent),
            x.value,
            Some(parent),
        ),
        create_batch_allowed(m, ids.push(x), parent) == (create_batch_allowed(m, ids, parent)
            && !create_batch_transition(m, ids, parent).contains_key(x.value)),
    decreases ids.len(),
{
    if ids.len() == 0 {
        assert(ids.push(x)[0] == x);
        assert(ids.push(x).drop_first() =~= Seq::<TokenId>::empty());
        let m1 = create_transition(m, x.value, Some(parent));
        assert(create_batch_transition(m, ids, parent) == m);
        assert(create_batch_allowed(m, ids, parent));
        assert(create_batch_transition(m1, Seq::<TokenId>::empty(), parent) == m1);
        assert(create_batch_allowed(m1, Seq::<TokenId>::empty(), parent));
    } else {
        assert(ids.push(x)[0] == ids[0]);
        assert(ids.push(x).drop_first() =~= ids.drop_first().push(x));
        let m1 = create_transition(m, ids[0].value, Some(parent));
        lemma_batch_push(m1, ids.drop_first(), x, parent);
        assert(create_batch_transition(m, ids, parent) == create_batch_transition(
            m1,
            ids.drop_first(),
            parent,
        ));
        assert(create_batch_transition(m, ids.push(x), parent) == create_batch_transition(
            m1,
            ids.drop_first().push(x),
            parent,
        ));
        assert(create_batch_allowed(m, ids.push(x), parent) == (!m.contains_key(ids[0].value)
            && create_batch_allowed(m1, ids.drop_first().push(x), parent)));
    }
}

impl TokenLedger {
    /// Issues a batch of child tokens bound to `parent`, one per
    /// supplied identifier, in order.  On a collision the tokens
    /// already created stay (the store does not roll them back) and
    /// the collision is reported.
    pub fn create_batch(&mut self, parent: RecordingId, ids: Vec<TokenId>) -> (r: Result<
        Vec<TokenId>,
        BackendError,
    >)
        requires
            old(self).wf(),
        ensures
            final(self).wf(),
            match r {
                Ok(created) => {
                    &&& created@ == ids@
                    &&& create_batch_allowed(old(self)@, ids@, parent)
                    &&& final(self)@ == create_batch_transition(old(self)@, ids@, parent)
                },
                Err(e) => {
                    &&& e == BackendError::IdAlreadyExists
                    &&& !create_batch_allowed(old(self)@, ids@, parent)
                },
            },
    {
        let mut i: usize = 0;
        proof {
            assert(ids@.subrange(0, 0) =~= Seq::<TokenId>::empty());
        }
        while i < ids.len()
            invariant
                i <= ids@.len(),
                self.wf(),
                self@ == create_batch_transition(old(self)@, ids@.subrange(0, i as int), parent),
                create_batch_allowed(old(self)@, ids@.subrange(0, i as int), parent),
            decreases ids@.len() - i,
        {
            let token = ids[i];
            let created = self.create(token, Some(parent));
            proof {
                let pre = ids@.subrange(0, i as int);
                lemma_batch_push(old(self)@, pre, ids@[i as int], parent);
                assert(ids@.subrange(0, i + 1) =~= pre.push(ids@[i as int]));
            }
            match created {
                Ok(_) => {},
                Err(e) => {
                    proof {
                        let pre = ids@.subrange(0, i as int);
                        assert(!create_batch_allowed(old(self)@, ids@.subrange(0, i + 1), parent));
                        lemma_batch_allowed_prefix(old(self)@, ids@, i + 1, parent);
                    }
                    return Err(e);
                },
            }
            i = i + 1;
        }
        proof {
            assert(ids@.subrange(0, ids@.len() as int) =~= ids@);
        }
        Ok(ids)
    }
}

/// If a prefix of the batch already collides, the whole batch does.
proof fn lemma_batch_allowed_prefix(
    m: Map<u128, TokenRow>,
    ids: Seq<TokenId>,
    n: int,
    parent: RecordingId,
)
    requires
        0 <= n <= ids.len(),
        !create_batch_allowed(m, ids.subrange(0, n), parent),
    ensures
        !create_batch_allowed(m, ids, parent),
    decreases n,
{
    if n > 0 && ids.len() > 0 {
        let pre = ids.subrange(0, n);
        assert(pre[0] == ids[0]);
        if !m.contains_key(ids[0].value) {
            let m1 = create_transition(m, ids[0].value, Some(parent));
            assert(pre.drop_first() =~= ids.drop_first().subrange(0, n - 1));
            lemma_batch_allowed_prefix(m1, ids.drop_first(), n - 1, parent);
        }
    }
}

} // verus!
