//! The key-rotator handle: mutable cryptographic key state reachable only
//! through a reader/writer lock, shared across workers by reference count.
//!
//! The rotation algorithm itself (generation, aging, persistence of AEAD
//! keys) is an external collaborator; this module holds the state it
//! maintains and guards every access, so that a reader can never observe a
//! state that mixes the fields of two different updates.

use std::sync::Arc;
use vstd::prelude::*;
use vstd::rwlock::{RwLock, RwLockPredicate};

verus! {

/// One cookie-encryption key served during NTS-KE handshakes.
pub struct RotatorKey {
    /// Identifier under which cookies name this key.
    pub key_id: u32,
    /// The AEAD key material.
    pub material: Vec<u8>,
}

/// The rotating key set: every key still accepted, newest last.
pub struct KeyRotator {
    /// Keys in rotation order; the last entry is the newest.
    pub keys: Vec<RotatorKey>,
    /// Identifier of the newest key, the one used to encrypt new cookies.
    pub latest_key_id: u32,
}

impl KeyRotator {
    /// Coherence of the key set: there is at least one key, and the
    /// advertised latest identifier is that of the newest stored key. A
    /// state that mixed the fields of two updates would break this.
    pub open spec fn wf(&self) -> bool {
        &&& self.keys@.len() > 0
        &&& self.keys@.last().key_id == self.latest_key_id
    }

    /// Runtime check of [`Self::wf`], for callers outside verified code.
    pub fn is_well_formed(&self) -> (r: bool)
        ensures
            r == self.wf(),
    {
        self.keys.len() > 0 && self.keys[self.keys.len() - 1].key_id == self.latest_key_id
    }
}

/// Observational equality of two rotator states: same latest identifier and
/// the same keys with the same material, position by position.
pub open spec fn same_rotator_state(a: &KeyRotator, b: &KeyRotator) -> bool {
    &&& a.latest_key_id == b.latest_key_id
    &&& a.keys@.len() == b.keys@.len()
    &&& forall|j: int|
        #![trigger a.keys@[j]]
        #![trigger b.keys@[j]]
        0 <= j < a.keys@.len() ==> a.keys@[j].key_id == b.keys@[j].key_id
            && a.keys@[j].material@ == b.keys@[j].material@
}

/// Relation between the state before a rotation update and the state after:
/// one key appended, the advertised latest identifier moved to it, nothing
/// else touched.
pub open spec fn rotated_from(prev: &KeyRotator, next: &KeyRotator, id: u32, material: Seq<u8>) -> bool {
    &&& next.keys@.len() == prev.keys@.len() + 1
    &&& next.keys@.subrange(0, prev.keys@.len() as int) == prev.keys@
    &&& next.keys@.last().key_id == id
    &&& next.keys@.last().material@ == material
    &&& next.latest_key_id == id
}

/// The lock predicate of the shared rotator: every state that can be stored,
/// and hence every state a reader can acquire, is coherent.
pub struct RotatorPred {}

impl RwLockPredicate<KeyRotator> for RotatorPred {
    open spec fn inv(self, v: KeyRotator) -> bool {
        v.wf()
    }
}

/// The shared key-rotator handle: the rotator state behind a reader/writer
/// lock, wrapped in a reference count so each worker gets its own handle.
pub struct SharedRotator {
    lock: Arc<RwLock<KeyRotator, RotatorPred>>,
}

impl SharedRotator {
    /// The lock guards exactly the coherence invariant: a value can be
    /// stored if and only if it is well formed.
    pub closed spec fn wf_handle(&self) -> bool {
        forall|v: KeyRotator| #[trigger] self.lock.inv(v) == v.wf()
    }

    /// Wrap an initial rotator state, as obtained from the external
    /// connect operation, behind the shared lock.
    pub fn new(initial: KeyRotator) -> (s: SharedRotator)
        requires
            initial.wf(),
        ensures
            s.wf_handle(),
    {
        let lock = RwLock::new(initial, Ghost(RotatorPred {}));
        SharedRotator { lock: Arc::new(lock) }
    }

    /// A new handle to the same lock, to hand to a worker at spawn time.
    pub fn clone_handle(&self) -> (r: SharedRotator)
        requires
            self.wf_handle(),
        ensures
            r == *self,
            r.wf_handle(),
    {
        SharedRotator { lock: self.lock.clone() }
    }

    /// Read access for a listener worker: a snapshot of the current state.
    /// Whatever updates run concurrently, the observed state is coherent —
    /// it is one whole stored state, never a mixture of two.
    pub fn read_snapshot(&self) -> (k: KeyRotator)
        requires
            self.wf_handle(),
        ensures
            k.wf(),
    {
        let handle = self.lock.acquire_read();
        let k = duplicate(handle.borrow());
        handle.release_read();
        k
    }

    /// Exclusive write access for the rotation worker: append the key with
    /// identifier `id` and the given material and advertise it as latest,
    /// as one guarded update. The returned ghost pair is the state replaced
    /// and the state stored.
    pub fn apply_rotation(&self, id: u32, material: Vec<u8>) -> (trace: Ghost<(KeyRotator, KeyRotator)>)
        requires
            self.wf_handle(),
        ensures
            trace@.0.wf(),
            trace@.1.wf(),
            rotated_from(&trace@.0, &trace@.1, id, material@),
    {
        let (mut val, handle) = self.lock.acquire_write();
        let ghost prev = val;
        val.keys.push(RotatorKey { key_id: id, material });
        val.latest_key_id = id;
        let ghost next = val;
        proof {
            assert(next.keys@.subrange(0, prev.keys@.len() as int) =~= prev.keys@);
        }
        handle.release_write(val);
        Ghost((prev, next))
    }
}

/// Law: a rotation update is atomic with respect to the invariant — the
/// whole state it stores is coherent, for every state it replaces.
pub proof fn lemma_rotation_atomic(prev: &KeyRotator, next: &KeyRotator, id: u32, material: Seq<u8>)
    requires
        rotated_from(prev, next, id, material),
    ensures
        next.wf(),
{
}

/// Law: coherence is a property of the observable state alone — a reader
/// that copies a coherent state observes a coherent state.
pub proof fn lemma_snapshot_coherent(a: &KeyRotator, b: &KeyRotator)
    requires
        same_rotator_state(a, b),
        a.wf(),
    ensures
        b.wf(),
{
    assert(b.keys@[b.keys@.len() - 1].key_id == a.keys@[a.keys@.len() - 1].key_id);
}

/// Copy a rotator state field by field.
fn duplicate(k: &KeyRotator) -> (r: KeyRotator)
    ensures
        same_rotator_state(k, &r),
{
    let mut keys: Vec<RotatorKey> = Vec::new();
    let mut i: usize = 0;
    while i < k.keys.len()
        invariant
            i <= k.keys@.len(),
            keys@.len() == i as int,
            forall|j: int|
                #![trigger keys@[j]]
                0 <= j < i as int ==> keys@[j].key_id == k.keys@[j].key_id
                    && keys@[j].material@ == k.keys@[j].material@,
        decreases k.keys@.len() - i,
    {
        let entry = &k.keys[i];
        keys.push(RotatorKey { key_id: entry.key_id, material: clone_bytes(&entry.material) });
        i = i + 1;
    }
    KeyRotator { keys, latest_key_id: k.latest_key_id }
}

/// Copy a byte vector.
pub(crate) fn clone_bytes(v: &Vec<u8>) -> (r: Vec<u8>)
    ensures
        r@ == v@,
{
    let r = v.clone();
    proof {
        assert(r@ =~= v@);
    }
    r
}

} // verus!
