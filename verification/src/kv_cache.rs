//! Per-session store of compressed KV tensors and their byte budgets.
//!
//! Compressing a session's KV cache runs it through the virtual chip; the store
//! keeps the chip's output as that session's compressed tensor and records its
//! size in bytes. A failed compression leaves the store untouched.

use vstd::prelude::*;
use std::collections::HashMap;

use crate::vchip::OmegaVChipError;

verus! {

broadcast use vstd::std_specs::hash::group_hash_axioms;

/// Identifies an inference session.
pub type SessionId = u64;

/// Errors of `compress_kv`.
#[derive(Debug, Clone, Copy, PartialEq, Eq, Structural)]
pub enum CompressKvError {
    /// The virtual chip refused the KV tensor.
    Chip(OmegaVChipError),
}

impl From<OmegaVChipError> for CompressKvError {
    fn from(e: OmegaVChipError) -> (r: Self) {
        CompressKvError::Chip(e)
    }
}

impl vstd::std_specs::convert::FromSpecImpl<OmegaVChipError> for CompressKvError {
    open spec fn obeys_from_spec() -> bool {
        true
    }

    open spec fn from_spec(v: OmegaVChipError) -> CompressKvError {
        CompressKvError::Chip(v)
    }
}

/// Errors of `decompress_kv`.
#[derive(Debug, Clone, Copy, PartialEq, Eq, Structural)]
pub enum DecompressKvError {
    SessionNotFound(SessionId),
}

/// The compressed tensor of each session, with its size in bytes.
#[derive(Debug)]
pub struct KvSessionStore<T> {
    sessions: HashMap<SessionId, (Vec<T>, usize)>,
}

/// The store after recording `compressed` for `session_id`: the session's
/// tensor on success, no change on a chip error.
pub open spec fn store_after<T>(
    store: Map<SessionId, Seq<T>>,
    session_id: SessionId,
    compressed: Result<Seq<T>, OmegaVChipError>,
) -> Map<SessionId, Seq<T>> {
    match compressed {
        Ok(v) => store.insert(session_id, v),
        Err(_) => store,
    }
}

/// What `decompress_kv` reads back for `session_id`.
pub open spec fn lookup<T>(store: Map<SessionId, Seq<T>>, session_id: SessionId) -> Result<
    Seq<T>,
    DecompressKvError,
> {
    if store.contains_key(session_id) {
        Ok(store[session_id])
    } else {
        Err(DecompressKvError::SessionNotFound(session_id))
    }
}

/// The byte budget recorded for a tensor of `len` elements.
pub open spec fn budget_of<T>(len: nat) -> nat {
    len * vstd::layout::size_of::<T>()
}

impl<T> KvSessionStore<T> {
    /// Every session's recorded budget is its tensor's size in bytes.
    #[verifier::type_invariant]
    spec fn budgets_match(self) -> bool {
        forall|k: SessionId| #[trigger]
            self.sessions@.contains_key(k) ==> self.sessions@[k].1 == budget_of::<T>(
                self.sessions@[k].0@.len(),
            )
    }

    /// The compressed tensor of every stored session.
    pub closed spec fn tensors(self) -> Map<SessionId, Seq<T>> {
        Map::new(|k: SessionId| self.sessions@.contains_key(k), |k: SessionId| self.sessions@[k].0@)
    }
}

impl<T: Copy> KvSessionStore<T> {
    /// An empty store.
    pub fn new() -> (s: Self)
        ensures
            s.tensors() == Map::<SessionId, Seq<T>>::empty(),
    {
        let s = KvSessionStore { sessions: HashMap::new() };
        assert(s.tensors() =~= Map::<SessionId, Seq<T>>::empty());
        s
    }

    /// Records the chip's output for `session_id`: on success the tensor
    /// replaces the session's previous one and its size in bytes becomes the
    /// session's budget; a chip error is returned as `Chip` and changes nothing.
    /// The size in bytes must fit in a `usize`.
    pub fn store_compressed(
        &mut self,
        session_id: SessionId,
        compressed: Result<Vec<T>, OmegaVChipError>,
    ) -> (r: Result<(), CompressKvError>)
        requires
            compressed matches Ok(v) ==> budget_of::<T>(v.len() as nat) <= usize::MAX,
        ensures
            final(self).tensors() == store_after(
                old(self).tensors(),
                session_id,
                match compressed {
                    Ok(v) => Ok(v@),
                    Err(e) => Err(e),
                },
            ),
            r == match compressed {
                Ok(_) => Ok::<(), CompressKvError>(()),
                Err(e) => Err(CompressKvError::Chip(e)),
            },
    {
        proof {
            use_type_invariant(&*self);
        }
        match compressed {
            Ok(v) => {
                let bytes = v.len() * core::mem::size_of::<T>();
                let ghost old_tensors = self.tensors();
                let ghost vv = v@;
                let mut sessions: HashMap<SessionId, (Vec<T>, usize)> = HashMap::new();
                std::mem::swap(&mut sessions, &mut self.sessions);
                sessions.insert(session_id, (v, bytes));
                self.sessions = sessions;
                assert(self.tensors() =~= old_tensors.insert(session_id, vv));
                Ok(())
            },
            Err(e) => Err(CompressKvError::Chip(e)),
        }
    }

    /// The compressed tensor of `session_id`, or `SessionNotFound`.
    pub fn decompress_kv(&self, session_id: SessionId) -> (r: Result<Vec<T>, DecompressKvError>)
        ensures
            match r {
                Ok(v) => lookup(self.tensors(), session_id) == Ok::<Seq<T>, DecompressKvError>(v@),
                Err(e) => lookup(self.tensors(), session_id) == Err::<Seq<T>, DecompressKvError>(e),
            },
    {
        match self.sessions.get(&session_id) {
            Some(entry) => {
                let stored = &entry.0;
                let mut out: Vec<T> = Vec::new();
                let mut i: usize = 0;
                while i < stored.len()
                    invariant
                        i <= stored.len(),
                        out@ == stored@.subrange(0, i as int),
                    decreases stored.len() - i,
                {
                    out.push(stored[i]);
                    i = i + 1;
                    assert(out@ =~= stored@.subrange(0, i as int));
                }
                assert(out@ =~= stored@);
                Ok(out)
            },
            None => Err(DecompressKvError::SessionNotFound(session_id)),
        }
    }

    /// The byte budget of `session_id`: its tensor's length times the
    /// element size, or `None` for an unknown session.
    pub fn session_budget(&self, session_id: SessionId) -> (r: Option<usize>)
        ensures
            match r {
                Some(b) => self.tensors().contains_key(session_id) && b == budget_of::<T>(
                    self.tensors()[session_id].len(),
                ),
                None => !self.tensors().contains_key(session_id),
            },
    {
        proof {
            use_type_invariant(self);
        }
        match self.sessions.get(&session_id) {
            Some(entry) => Some(entry.1),
            None => None,
        }
    }
}

/// Reading back a session gives what was last stored for it: after a
/// successful compression the tensor itself, any other session unchanged;
/// after a chip error, exactly what was there before.
pub proof fn lemma_read_after_compress<T>(
    store: Map<SessionId, Seq<T>>,
    session_id: SessionId,
    other: SessionId,
    compressed: Result<Seq<T>, OmegaVChipError>,
)
    requires
        other != session_id,
    ensures
        compressed matches Ok(v) ==> lookup(store_after(store, session_id, compressed), session_id)
            == Ok::<Seq<T>, DecompressKvError>(v),
        lookup(store_after(store, session_id, compressed), other) == lookup(store, other),
        compressed is Err ==> store_after(store, session_id, compressed) == store,
{
}

/// The store after a history of compressions applied in order to an empty
/// store: each entry is a session and what the chip returned for it.
pub open spec fn store_history<T>(ops: Seq<(SessionId, Result<Seq<T>, OmegaVChipError>)>) -> Map<
    SessionId,
    Seq<T>,
>
    decreases ops.len(),
{
    if ops.len() == 0 {
        Map::empty()
    } else {
        store_after(store_history(ops.drop_last()), ops.last().0, ops.last().1)
    }
}

/// Whether a history entry is a successful compression for `session_id`.
pub open spec fn stores<T>(op: (SessionId, Result<Seq<T>, OmegaVChipError>), session_id: SessionId) -> bool {
    op.0 == session_id && op.1 is Ok
}

/// The position of the latest successful compression for `session_id` in a
/// history, or `-1` when there is none.
pub open spec fn latest_store<T>(
    ops: Seq<(SessionId, Result<Seq<T>, OmegaVChipError>)>,
    session_id: SessionId,
) -> int
    decreases ops.len(),
{
    if ops.len() == 0 {
        -1
    } else if stores(ops.last(), session_id) {
        ops.len() - 1
    } else {
        latest_store(ops.drop_last(), session_id)
    }
}

proof fn lemma_lookup_is_latest<T>(
    ops: Seq<(SessionId, Result<Seq<T>, OmegaVChipError>)>,
    session_id: SessionId,
)
    ensures
        -1 <= latest_store(ops, session_id) < ops.len(),
        latest_store(ops, session_id) >= 0 ==> stores(ops[latest_store(ops, session_id)], session_id),
        forall|k: int|
            latest_store(ops, session_id) < k < ops.len() ==> !#[trigger] stores(ops[k], session_id),
        lookup(store_history(ops), session_id) == (if latest_store(ops, session_id) < 0 {
            Err::<Seq<T>, DecompressKvError>(DecompressKvError::SessionNotFound(session_id))
        } else {
            Ok(ops[latest_store(ops, session_id)].1->Ok_0)
        }),
    decreases ops.len(),
{
    if ops.len() > 0 {
        let prev = ops.drop_last();
        lemma_lookup_is_latest(prev, session_id);
        if !stores(ops.last(), session_id) {
            lemma_read_after_compress_any(store_history(prev), ops.last().0, session_id, ops.last().1);
            assert forall|k: int|
                latest_store(ops, session_id) < k < ops.len() implies !#[trigger] stores(
                ops[k],
                session_id,
            ) by {
                if k < prev.len() {
                    assert(prev[k] == ops[k]);
                }
            }
        }
    }
}

proof fn lemma_latest_is_last_store<T>(
    ops: Seq<(SessionId, Result<Seq<T>, OmegaVChipError>)>,
    session_id: SessionId,
    j: int,
)
    requires
        -1 <= j < ops.len(),
        j >= 0 ==> stores(ops[j], session_id),
        forall|k: int| j < k < ops.len() ==> !#[trigger] stores(ops[k], session_id),
    ensures
        latest_store(ops, session_id) == j,
    decreases ops.len(),
{
    if ops.len() > 0 && j < ops.len() - 1 {
        let prev = ops.drop_last();
        assert(!stores(ops[ops.len() - 1], session_id));
        assert forall|k: int| j < k < prev.len() implies !#[trigger] stores(prev[k], session_id) by {
            assert(prev[k] == ops[k]);
            assert(!stores(ops[k], session_id));
        }
        if j >= 0 {
            assert(prev[j] == ops[j]);
        }
        lemma_latest_is_last_store(prev, session_id, j);
    }
}

/// Read-after-write over a whole history: reading a session back gives
/// `SessionNotFound` if and only if no compression for it succeeded, and
/// otherwise the tensor of the latest successful one.
pub proof fn lemma_lookup_after_history<T>(
    ops: Seq<(SessionId, Result<Seq<T>, OmegaVChipError>)>,
    session_id: SessionId,
)
    ensures
        (lookup(store_history(ops), session_id) == Err::<Seq<T>, DecompressKvError>(
            DecompressKvError::SessionNotFound(session_id),
        )) <==> (forall|i: int| 0 <= i < ops.len() ==> !#[trigger] stores(ops[i], session_id)),
        forall|j: int|
            0 <= j < ops.len() && #[trigger] stores(ops[j], session_id) && (forall|k: int|
                j < k < ops.len() ==> !#[trigger] stores(ops[k], session_id)) ==> lookup(
                store_history(ops),
                session_id,
            ) == Ok::<Seq<T>, DecompressKvError>(ops[j].1->Ok_0),
{
    lemma_lookup_is_latest(ops, session_id);
    if forall|i: int| 0 <= i < ops.len() ==> !#[trigger] stores(ops[i], session_id) {
        lemma_latest_is_last_store(ops, session_id, -1);
    }
    assert forall|j: int|
        0 <= j < ops.len() && #[trigger] stores(ops[j], session_id) && (forall|k: int|
            j < k < ops.len() ==> !#[trigger] stores(ops[k], session_id)) implies lookup(
        store_history(ops),
        session_id,
    ) == Ok::<Seq<T>, DecompressKvError>(ops[j].1->Ok_0) by {
        lemma_latest_is_last_store(ops, session_id, j);
    }
}

/// A compression for one session leaves every other session's read as it was.
proof fn lemma_read_after_compress_any<T>(
    store: Map<SessionId, Seq<T>>,
    written: SessionId,
    session_id: SessionId,
    compressed: Result<Seq<T>, OmegaVChipError>,
)
    requires
        !(written == session_id && compressed is Ok),
    ensures
        lookup(store_after(store, written, compressed), session_id) == lookup(store, session_id),
{
}

} // verus!
