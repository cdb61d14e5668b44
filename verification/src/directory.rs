//! The Live-Node Directory: the authoritative in-memory record of which
//! identities are currently running. Check-and-insert and check-and-remove
//! are each one uninterrupted operation here, so the directory never holds
//! two handles for one public identity.

use vstd::prelude::*;

verus! {

/// A running-node handle: the identity it runs under, the key of the live
/// protocol-engine instance, the engine's serialized capability token, and
/// the keys of the background tasks spawned at start.
pub struct NodeHandle {
    pub pubkey: String,
    pub engine_id: u64,
    pub macaroon: Vec<u8>,
    pub task_ids: Vec<u64>,
}

/// The single shared mapping from public identity to running-node handle.
pub struct NodeDirectory {
    pub handles: Vec<NodeHandle>,
}

impl NodeDirectory {
    /// Well-formedness: no two handles share a public identity.
    pub open spec fn wf(self) -> bool {
        forall|i: int, j: int|
            0 <= i < self.handles@.len() && 0 <= j < self.handles@.len() && i != j ==> (
            #[trigger] self.handles@[i]).pubkey@ != (#[trigger] self.handles@[j]).pubkey@
    }

    /// Whether an identity is currently running.
    pub open spec fn spec_contains(self, pk: Seq<char>) -> bool {
        exists|i: int| 0 <= i < self.handles@.len() && (#[trigger] self.handles@[i]).pubkey@ == pk
    }

    pub fn new() -> (r: NodeDirectory)
        ensures
            r.wf(),
            r.handles@.len() == 0,
    {
        NodeDirectory { handles: Vec::new() }
    }

    pub fn contains_key(&self, pubkey: &String) -> (r: bool)
        ensures
            r == self.spec_contains(pubkey@),
    {
        let mut i: usize = 0;
        while i < self.handles.len()
            invariant
                i <= self.handles@.len(),
                forall|j: int| 0 <= j < i ==> (#[trigger] self.handles@[j]).pubkey@ != pubkey@,
            decreases self.handles@.len() - i,
        {
            if self.handles[i].pubkey == *pubkey {
                return true;
            }
            i = i + 1;
        }
        false
    }

    /// The handle an identity runs under, if it is running.
    pub fn get(&self, pubkey: &String) -> (r: Option<&NodeHandle>)
        ensures
            r is Some <==> self.spec_contains(pubkey@),
            r matches Some(h) ==> exists|i: int|
                0 <= i < self.handles@.len() && *h == (#[trigger] self.handles@[i]) && h.pubkey@
                    == pubkey@,
    {
        let mut i: usize = 0;
        while i < self.handles.len()
            invariant
                i <= self.handles@.len(),
                forall|j: int| 0 <= j < i ==> (#[trigger] self.handles@[j]).pubkey@ != pubkey@,
            decreases self.handles@.len() - i,
        {
            if self.handles[i].pubkey == *pubkey {
                return Some(&self.handles[i]);
            }
            i = i + 1;
        }
        None
    }

    /// Check-and-insert, as one operation: an identity that is already
    /// running keeps its existing handle and nothing is added.
    pub fn insert_if_absent(&mut self, handle: NodeHandle) -> (inserted: bool)
        requires
            old(self).wf(),
        ensures
            final(self).wf(),
            inserted == !old(self).spec_contains(handle.pubkey@),
            !inserted ==> *final(self) == *old(self),
            inserted ==> final(self).handles@ == old(self).handles@ + seq![handle],
            final(self).spec_contains(handle.pubkey@),
    {
        if self.contains_key(&handle.pubkey) {
            return false;
        }
        let ghost pk = handle.pubkey@;
        self.handles.push(handle);
        proof {
            assert(self.handles@[old(self).handles@.len() as int].pubkey@ == pk);
        }
        true
    }

    /// Check-and-remove, as one operation: removing an identity that is not
    /// running changes nothing and hands no handle back.
    pub fn remove(&mut self, pubkey: &String) -> (r: Option<NodeHandle>)
        requires
            old(self).wf(),
        ensures
            final(self).wf(),
            r is Some <==> old(self).spec_contains(pubkey@),
            r is None ==> *final(self) == *old(self),
            r matches Some(h) ==> h.pubkey@ == pubkey@ && exists|i: int|
                0 <= i < old(self).handles@.len() && h == old(self).handles@[i]
                    && final(self).handles@ == old(self).handles@.remove(i),
            !final(self).spec_contains(pubkey@),
    {
        let mut i: usize = 0;
        while i < self.handles.len()
            invariant
                old(self).wf(),
                *self == *old(self),
                i <= self.handles@.len(),
                forall|j: int| 0 <= j < i ==> (#[trigger] self.handles@[j]).pubkey@ != pubkey@,
            decreases self.handles@.len() - i,
        {
            if self.handles[i].pubkey == *pubkey {
                let ghost pos = i as int;
                let h = self.handles.remove(i);
                proof {
                    assert(self.handles@ =~= old(self).handles@.remove(pos));
                    assert forall|k: int|
                        0 <= k < self.handles@.len() implies (#[trigger] self.handles@[k]).pubkey@
                        != pubkey@ by {
                        if k < pos {
                            assert(self.handles@[k] == old(self).handles@[k]);
                        } else {
                            assert(self.handles@[k] == old(self).handles@[k + 1]);
                            if old(self).handles@[k + 1].pubkey@ == pubkey@ {
                                assert(old(self).handles@[pos].pubkey@ == pubkey@);
                                assert(k + 1 == pos);
                            }
                        }
                    }
                    assert forall|a: int, b: int|
                        0 <= a < self.handles@.len() && 0 <= b < self.handles@.len() && a
                            != b implies (#[trigger] self.handles@[a]).pubkey@ != (
                    #[trigger] self.handles@[b]).pubkey@ by {
                        let a0 = if a < pos { a } else { a + 1 };
                        let b0 = if b < pos { b } else { b + 1 };
                        assert(self.handles@[a] == old(self).handles@[a0]);
                        assert(self.handles@[b] == old(self).handles@[b0]);
                    }
                }
                return Some(h);
            }
            i = i + 1;
        }
        None
    }
}

/// The Live-Node Directory holds at most one handle per public identity:
/// in a well-formed directory, two entries for one identity are one entry.
pub proof fn lemma_at_most_one_handle(d: NodeDirectory, i: int, j: int)
    requires
        d.wf(),
        0 <= i < d.handles@.len(),
        0 <= j < d.handles@.len(),
        d.handles@[i].pubkey@ == d.handles@[j].pubkey@,
    ensures
        i == j,
{
}

} // verus!
