//! Interning tables: injective arenas mapping internal keys to dense
//! solver-facing handles.
//!
//! A table is a growable indexed store; the handle for a key is its index.
//! The well-formedness invariant (no key stored twice) makes the mapping a
//! bijection between the stored keys and the handles below the table's
//! length: interning is total, and looking a handle up is total over the
//! handles handed out so far.

use vstd::prelude::*;

use crate::ids::AssocTyValueKey;
use crate::ids::AssociatedTyValueId;
use crate::ids::ImplId;
use crate::ids::ImplKey;
use crate::ids::OpaqueTyId;
use crate::ids::OpaqueTyKey;

verus! {

/// Interning table for impls (real impl blocks and built-in impls).
pub struct ImplInternTable {
    pub keys: Vec<ImplKey>,
}

impl ImplInternTable {
    /// No key is stored twice, so handles identify keys uniquely.
    pub open spec fn wf(&self) -> bool {
        forall|i: int, j: int|
            0 <= i < j < self.keys@.len() ==> self.keys@[i] != self.keys@[j]
    }

    pub open spec fn contains_key(&self, k: ImplKey) -> bool {
        self.keys@.contains(k)
    }

    pub fn new() -> (t: Self)
        ensures
            t.wf(),
            t.keys@.len() == 0,
    {
        ImplInternTable { keys: Vec::new() }
    }

    /// Intern a key: returns the existing handle if the key was interned
    /// before, otherwise appends the key and returns the fresh handle.
    pub fn intern(&mut self, k: ImplKey) -> (h: ImplId)
        requires
            old(self).wf(),
        ensures
            final(self).wf(),
            h.0 < final(self).keys@.len(),
            final(self).keys@[h.0 as int] == k,
            final(self).contains_key(k),
            old(self).keys@.len() <= final(self).keys@.len() <= old(self).keys@.len() + 1,
            final(self).keys@.subrange(0, old(self).keys@.len() as int) == old(self).keys@,
            old(self).contains_key(k) ==> final(self).keys@ == old(self).keys@,
    {
        let mut i: usize = 0;
        while i < self.keys.len()
            invariant
                i <= self.keys@.len(),
                self.wf(),
                forall|j: int| 0 <= j < i ==> self.keys@[j] != k,
                self.keys@ == old(self).keys@,
            decreases self.keys@.len() - i,
        {
            if self.keys[i] == k {
                return ImplId(i);
            }
            i = i + 1;
        }
        proof {
            assert(!old(self).contains_key(k));
        }
        self.keys.push(k);
        proof {
            assert(self.keys@.subrange(0, old(self).keys@.len() as int) =~= old(self).keys@);
        }
        ImplId(self.keys.len() - 1)
    }

    /// The handle of a previously interned key. Calling this on a key that
    /// was never interned is a programming error, excluded by precondition.
    pub fn to_handle(&self, k: ImplKey) -> (h: ImplId)
        requires
            self.contains_key(k),
        ensures
            h.0 < self.keys@.len(),
            self.keys@[h.0 as int] == k,
    {
        let mut i: usize = 0;
        while i < self.keys.len()
            invariant
                i <= self.keys@.len(),
                self.contains_key(k),
                forall|j: int| 0 <= j < i ==> self.keys@[j] != k,
            decreases self.keys@.len() - i,
        {
            if self.keys[i] == k {
                return ImplId(i);
            }
            i = i + 1;
        }
        proof {
            assert(false);
        }
        ImplId(0)
    }

    /// The key behind a handle. Handles are only ever produced below the
    /// table's length, so the bound is a validity precondition.
    pub fn from_handle(&self, h: ImplId) -> (k: ImplKey)
        requires
            h.0 < self.keys@.len(),
        ensures
            k == self.keys@[h.0 as int],
    {
        self.keys[h.0]
    }

    /// Distinct handles always hold distinct keys: the handle-to-key
    /// mapping is injective, so both round trips are exact.
    pub proof fn lemma_injective(&self, h1: ImplId, h2: ImplId)
        requires
            self.wf(),
            h1.0 < self.keys@.len(),
            h2.0 < self.keys@.len(),
            self.keys@[h1.0 as int] == self.keys@[h2.0 as int],
        ensures
            h1 == h2,
    {
    }
}

/// Interning table for associated type values.
pub struct AssocTyValueInternTable {
    pub keys: Vec<AssocTyValueKey>,
}

impl AssocTyValueInternTable {
    pub open spec fn wf(&self) -> bool {
        forall|i: int, j: int|
            0 <= i < j < self.keys@.len() ==> self.keys@[i] != self.keys@[j]
    }

    pub open spec fn contains_key(&self, k: AssocTyValueKey) -> bool {
        self.keys@.contains(k)
    }

    pub fn new() -> (t: Self)
        ensures
            t.wf(),
            t.keys@.len() == 0,
    {
        AssocTyValueInternTable { keys: Vec::new() }
    }

    pub fn intern(&mut self, k: AssocTyValueKey) -> (h: AssociatedTyValueId)
        requires
            old(self).wf(),
        ensures
            final(self).wf(),
            h.0 < final(self).keys@.len(),
            final(self).keys@[h.0 as int] == k,
            final(self).contains_key(k),
            old(self).keys@.len() <= final(self).keys@.len() <= old(self).keys@.len() + 1,
            final(self).keys@.subrange(0, old(self).keys@.len() as int) == old(self).keys@,
            old(self).contains_key(k) ==> final(self).keys@ == old(self).keys@,
    {
        let mut i: usize = 0;
        while i < self.keys.len()
            invariant
                i <= self.keys@.len(),
                self.wf(),
                forall|j: int| 0 <= j < i ==> self.keys@[j] != k,
                self.keys@ == old(self).keys@,
            decreases self.keys@.len() - i,
        {
            if self.keys[i] == k {
                return AssociatedTyValueId(i);
            }
            i = i + 1;
        }
        proof {
            assert(!old(self).contains_key(k));
        }
        self.keys.push(k);
        proof {
            assert(self.keys@.subrange(0, old(self).keys@.len() as int) =~= old(self).keys@);
        }
        AssociatedTyValueId(self.keys.len() - 1)
    }

    pub fn to_handle(&self, k: AssocTyValueKey) -> (h: AssociatedTyValueId)
        requires
            self.contains_key(k),
        ensures
            h.0 < self.keys@.len(),
            self.keys@[h.0 as int] == k,
    {
        let mut i: usize = 0;
        while i < self.keys.len()
            invariant
                i <= self.keys@.len(),
                self.contains_key(k),
                forall|j: int| 0 <= j < i ==> self.keys@[j] != k,
            decreases self.keys@.len() - i,
        {
            if self.keys[i] == k {
                return AssociatedTyValueId(i);
            }
            i = i + 1;
        }
        proof {
            assert(false);
        }
        AssociatedTyValueId(0)
    }

    pub fn from_handle(&self, h: AssociatedTyValueId) -> (k: AssocTyValueKey)
        requires
            h.0 < self.keys@.len(),
        ensures
            k == self.keys@[h.0 as int],
    {
        self.keys[h.0]
    }

    pub proof fn lemma_injective(&self, h1: AssociatedTyValueId, h2: AssociatedTyValueId)
        requires
            self.wf(),
            h1.0 < self.keys@.len(),
            h2.0 < self.keys@.len(),
            self.keys@[h1.0 as int] == self.keys@[h2.0 as int],
        ensures
            h1 == h2,
    {
    }
}

/// Interning table for opaque types (return-position existentials).
pub struct OpaqueTyInternTable {
    pub keys: Vec<OpaqueTyKey>,
}

impl OpaqueTyInternTable {
    pub open spec fn wf(&self) -> bool {
        forall|i: int, j: int|
            0 <= i < j < self.keys@.len() ==> self.keys@[i] != self.keys@[j]
    }

    pub open spec fn contains_key(&self, k: OpaqueTyKey) -> bool {
        self.keys@.contains(k)
    }

    pub fn new() -> (t: Self)
        ensures
            t.wf(),
            t.keys@.len() == 0,
    {
        OpaqueTyInternTable { keys: Vec::new() }
    }

    pub fn intern(&mut self, k: OpaqueTyKey) -> (h: OpaqueTyId)
        requires
            old(self).wf(),
        ensures
            final(self).wf(),
            h.0 < final(self).keys@.len(),
            final(self).keys@[h.0 as int] == k,
            final(self).contains_key(k),
            old(self).keys@.len() <= final(self).keys@.len() <= old(self).keys@.len() + 1,
            final(self).keys@.subrange(0, old(self).keys@.len() as int) == old(self).keys@,
            old(self).contains_key(k) ==> final(self).keys@ == old(self).keys@,
    {
        let mut i: usize = 0;
        while i < self.keys.len()
            invariant
                i <= self.keys@.len(),
                self.wf(),
                forall|j: int| 0 <= j < i ==> self.keys@[j] != k,
                self.keys@ == old(self).keys@,
            decreases self.keys@.len() - i,
        {
            if self.keys[i] == k {
                return OpaqueTyId(i);
            }
            i = i + 1;
        }
        proof {
            assert(!old(self).contains_key(k));
        }
        self.keys.push(k);
        proof {
            assert(self.keys@.subrange(0, old(self).keys@.len() as int) =~= old(self).keys@);
        }
        OpaqueTyId(self.keys.len() - 1)
    }

    pub fn to_handle(&self, k: OpaqueTyKey) -> (h: OpaqueTyId)
        requires
            self.contains_key(k),
        ensures
            h.0 < self.keys@.len(),
            self.keys@[h.0 as int] == k,
    {
        let mut i: usize = 0;
        while i < self.keys.len()
            invariant
                i <= self.keys@.len(),
                self.contains_key(k),
                forall|j: int| 0 <= j < i ==> self.keys@[j] != k,
            decreases self.keys@.len() - i,
        {
            if self.keys[i] == k {
                return OpaqueTyId(i);
            }
            i = i + 1;
        }
        proof {
            assert(false);
        }
        OpaqueTyId(0)
    }

    pub fn from_handle(&self, h: OpaqueTyId) -> (k: OpaqueTyKey)
        requires
            h.0 < self.keys@.len(),
        ensures
            k == self.keys@[h.0 as int],
    {
        self.keys[h.0]
    }

    pub proof fn lemma_injective(&self, h1: OpaqueTyId, h2: OpaqueTyId)
        requires
            self.wf(),
            h1.0 < self.keys@.len(),
            h2.0 < self.keys@.len(),
            self.keys@[h1.0 as int] == self.keys@[h2.0 as int],
        ensures
            h1 == h2,
    {
    }
}

} // verus!
