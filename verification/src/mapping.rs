//! Conversion between internal definition identifiers and solver-facing
//! handles, one bijection per definition kind.
//!
//! Trait, ADT, callable and associated-type-declaration handles carry the
//! internal index directly; impls, associated type values and opaque types
//! go through the database's interning tables. Either way the round trip is
//! exact in both directions — the laws `lemma_round_trip_key` and
//! `lemma_round_trip_handle` are proved by every implementation, since a
//! broken round trip would corrupt solver identity comparisons.

use vstd::prelude::*;

use crate::db::Database;
use crate::ids::AdtDefId;
use crate::ids::AdtId;
use crate::ids::AssocTyValueKey;
use crate::ids::AssocTypeId;
use crate::ids::AssociatedTyValueId;
use crate::ids::CallableDefId;
use crate::ids::FnDefId;
use crate::ids::ImplId;
use crate::ids::ImplKey;
use crate::ids::OpaqueTyId;
use crate::ids::OpaqueTyKey;
use crate::ids::TraitDefId;
use crate::ids::TraitId;
use crate::ids::TypeAliasId;

verus! {

/// Bidirectional, exactly round-tripping conversion between an internal
/// identifier kind and its solver handle kind.
pub trait ToChalk: Sized {
    type Chalk;

    /// Whether the internal value may be converted (for interned kinds:
    /// it has been interned).
    spec fn key_known(db: &Database, k: Self) -> bool;

    /// Whether a handle is one the database has handed out.
    spec fn handle_known(db: &Database, h: Self::Chalk) -> bool;

    /// The handle of an internal value.
    spec fn handle_spec(db: &Database, k: Self) -> Self::Chalk;

    /// The internal value behind a handle.
    spec fn key_spec(db: &Database, h: Self::Chalk) -> Self;

    /// Convert an internal value to its solver handle.
    fn to_chalk(self, db: &Database) -> (h: Self::Chalk)
        requires
            db.wf(),
            Self::key_known(db, self),
        ensures
            h == Self::handle_spec(db, self),
            Self::handle_known(db, h),
    ;

    /// Convert a solver handle back to the internal value.
    fn from_chalk(db: &Database, h: Self::Chalk) -> (k: Self)
        requires
            db.wf(),
            Self::handle_known(db, h),
        ensures
            k == Self::key_spec(db, h),
            Self::key_known(db, k),
    ;

    /// Round trip: converting an internal value to its handle and back
    /// yields the value.
    proof fn lemma_round_trip_key(db: &Database, k: Self)
        requires
            db.wf(),
            Self::key_known(db, k),
        ensures
            Self::key_spec(db, Self::handle_spec(db, k)) == k,
            Self::handle_known(db, Self::handle_spec(db, k)),
    ;

    /// Round trip: converting a handle to the internal value and back
    /// yields the handle.
    proof fn lemma_round_trip_handle(db: &Database, h: Self::Chalk)
        requires
            db.wf(),
            Self::handle_known(db, h),
        ensures
            Self::handle_spec(db, Self::key_spec(db, h)) == h,
            Self::key_known(db, Self::key_spec(db, h)),
    ;
}

/// Convert a solver handle back to the internal value it stands for.
pub fn from_chalk<T: ToChalk>(db: &Database, chalk: T::Chalk) -> (r: T)
    requires
        db.wf(),
        T::handle_known(db, chalk),
    ensures
        r == T::key_spec(db, chalk),
        T::key_known(db, r),
{
    T::from_chalk(db, chalk)
}

impl ToChalk for TraitDefId {
    type Chalk = TraitId;

    open spec fn key_known(db: &Database, k: TraitDefId) -> bool {
        true
    }

    open spec fn handle_known(db: &Database, h: TraitId) -> bool {
        true
    }

    open spec fn handle_spec(db: &Database, k: TraitDefId) -> TraitId {
        TraitId(k.0)
    }

    open spec fn key_spec(db: &Database, h: TraitId) -> TraitDefId {
        TraitDefId(h.0)
    }

    fn to_chalk(self, db: &Database) -> TraitId {
        TraitId(self.0)
    }

    fn from_chalk(db: &Database, h: TraitId) -> TraitDefId {
        TraitDefId(h.0)
    }

    proof fn lemma_round_trip_key(db: &Database, k: TraitDefId) {
    }

    proof fn lemma_round_trip_handle(db: &Database, h: TraitId) {
    }
}

impl ToChalk for AdtDefId {
    type Chalk = AdtId;

    open spec fn key_known(db: &Database, k: AdtDefId) -> bool {
        true
    }

    open spec fn handle_known(db: &Database, h: AdtId) -> bool {
        true
    }

    open spec fn handle_spec(db: &Database, k: AdtDefId) -> AdtId {
        AdtId(k.0)
    }

    open spec fn key_spec(db: &Database, h: AdtId) -> AdtDefId {
        AdtDefId(h.0)
    }

    fn to_chalk(self, db: &Database) -> AdtId {
        AdtId(self.0)
    }

    fn from_chalk(db: &Database, h: AdtId) -> AdtDefId {
        AdtDefId(h.0)
    }

    proof fn lemma_round_trip_key(db: &Database, k: AdtDefId) {
    }

    proof fn lemma_round_trip_handle(db: &Database, h: AdtId) {
    }
}

impl ToChalk for CallableDefId {
    type Chalk = FnDefId;

    open spec fn key_known(db: &Database, k: CallableDefId) -> bool {
        true
    }

    open spec fn handle_known(db: &Database, h: FnDefId) -> bool {
        true
    }

    open spec fn handle_spec(db: &Database, k: CallableDefId) -> FnDefId {
        FnDefId(k.0)
    }

    open spec fn key_spec(db: &Database, h: FnDefId) -> CallableDefId {
        CallableDefId(h.0)
    }

    fn to_chalk(self, db: &Database) -> FnDefId {
        FnDefId(self.0)
    }

    fn from_chalk(db: &Database, h: FnDefId) -> CallableDefId {
        CallableDefId(h.0)
    }

    proof fn lemma_round_trip_key(db: &Database, k: CallableDefId) {
    }

    proof fn lemma_round_trip_handle(db: &Database, h: FnDefId) {
    }
}

impl ToChalk for TypeAliasId {
    type Chalk = AssocTypeId;

    open spec fn key_known(db: &Database, k: TypeAliasId) -> bool {
        true
    }

    open spec fn handle_known(db: &Database, h: AssocTypeId) -> bool {
        true
    }

    open spec fn handle_spec(db: &Database, k: TypeAliasId) -> AssocTypeId {
        AssocTypeId(k.0)
    }

    open spec fn key_spec(db: &Database, h: AssocTypeId) -> TypeAliasId {
        TypeAliasId(h.0)
    }

    fn to_chalk(self, db: &Database) -> AssocTypeId {
        AssocTypeId(self.0)
    }

    fn from_chalk(db: &Database, h: AssocTypeId) -> TypeAliasId {
        TypeAliasId(h.0)
    }

    proof fn lemma_round_trip_key(db: &Database, k: TypeAliasId) {
    }

    proof fn lemma_round_trip_handle(db: &Database, h: AssocTypeId) {
    }
}

impl ToChalk for ImplKey {
    type Chalk = ImplId;

    open spec fn key_known(db: &Database, k: ImplKey) -> bool {
        db.impl_interns.contains_key(k)
    }

    open spec fn handle_known(db: &Database, h: ImplId) -> bool {
        h.0 < db.impl_interns.keys@.len()
    }

    open spec fn handle_spec(db: &Database, k: ImplKey) -> ImplId {
        ImplId(
            (choose|i: int|
                0 <= i < db.impl_interns.keys@.len() && db.impl_interns.keys@[i] == k) as usize,
        )
    }

    open spec fn key_spec(db: &Database, h: ImplId) -> ImplKey {
        db.impl_interns.keys@[h.0 as int]
    }

    fn to_chalk(self, db: &Database) -> (h: ImplId) {
        let h = db.impl_interns.to_handle(self);
        proof {
            let i = choose|i: int|
                0 <= i < db.impl_interns.keys@.len() && db.impl_interns.keys@[i] == self;
            db.impl_interns.lemma_injective(ImplId(i as usize), h);
        }
        h
    }

    fn from_chalk(db: &Database, h: ImplId) -> (k: ImplKey) {
        let k = db.impl_interns.from_handle(h);
        proof {
            assert(db.impl_interns.keys@[h.0 as int] == k);
        }
        k
    }

    proof fn lemma_round_trip_key(db: &Database, k: ImplKey) {
        assert(db.impl_interns.keys.len() == db.impl_interns.keys@.len());
        assert(exists|i: int|
            0 <= i < db.impl_interns.keys@.len() && db.impl_interns.keys@[i] == k);
        let i = choose|i: int|
            0 <= i < db.impl_interns.keys@.len() && db.impl_interns.keys@[i] == k;
        assert(db.impl_interns.keys@[i] == k);
    }

    proof fn lemma_round_trip_handle(db: &Database, h: ImplId) {
        let k = db.impl_interns.keys@[h.0 as int];
        assert(db.impl_interns.keys@.contains(k));
        let i = choose|i: int|
            0 <= i < db.impl_interns.keys@.len() && db.impl_interns.keys@[i] == k;
        db.impl_interns.lemma_injective(ImplId(i as usize), h);
    }
}

impl ToChalk for AssocTyValueKey {
    type Chalk = AssociatedTyValueId;

    open spec fn key_known(db: &Database, k: AssocTyValueKey) -> bool {
        db.assoc_ty_value_interns.contains_key(k)
    }

    open spec fn handle_known(db: &Database, h: AssociatedTyValueId) -> bool {
        h.0 < db.assoc_ty_value_interns.keys@.len()
    }

    open spec fn handle_spec(db: &Database, k: AssocTyValueKey) -> AssociatedTyValueId {
        AssociatedTyValueId(
            (choose|i: int|
                0 <= i < db.assoc_ty_value_interns.keys@.len()
                    && db.assoc_ty_value_interns.keys@[i] == k) as usize,
        )
    }

    open spec fn key_spec(db: &Database, h: AssociatedTyValueId) -> AssocTyValueKey {
        db.assoc_ty_value_interns.keys@[h.0 as int]
    }

    fn to_chalk(self, db: &Database) -> (h: AssociatedTyValueId) {
        let h = db.assoc_ty_value_interns.to_handle(self);
        proof {
            let i = choose|i: int|
                0 <= i < db.assoc_ty_value_interns.keys@.len()
                    && db.assoc_ty_value_interns.keys@[i] == self;
            db.assoc_ty_value_interns.lemma_injective(AssociatedTyValueId(i as usize), h);
        }
        h
    }

    fn from_chalk(db: &Database, h: AssociatedTyValueId) -> (k: AssocTyValueKey) {
        let k = db.assoc_ty_value_interns.from_handle(h);
        proof {
            assert(db.assoc_ty_value_interns.keys@[h.0 as int] == k);
        }
        k
    }

    proof fn lemma_round_trip_key(db: &Database, k: AssocTyValueKey) {
        assert(db.assoc_ty_value_interns.keys.len() == db.assoc_ty_value_interns.keys@.len());
        assert(exists|i: int|
            0 <= i < db.assoc_ty_value_interns.keys@.len()
                && db.assoc_ty_value_interns.keys@[i] == k);
        let i = choose|i: int|
            0 <= i < db.assoc_ty_value_interns.keys@.len() && db.assoc_ty_value_interns.keys@[i]
                == k;
        assert(db.assoc_ty_value_interns.keys@[i] == k);
    }

    proof fn lemma_round_trip_handle(db: &Database, h: AssociatedTyValueId) {
        let k = db.assoc_ty_value_interns.keys@[h.0 as int];
        assert(db.assoc_ty_value_interns.keys@.contains(k));
        let i = choose|i: int|
            0 <= i < db.assoc_ty_value_interns.keys@.len() && db.assoc_ty_value_interns.keys@[i]
                == k;
        db.assoc_ty_value_interns.lemma_injective(AssociatedTyValueId(i as usize), h);
    }
}

impl ToChalk for OpaqueTyKey {
    type Chalk = OpaqueTyId;

    open spec fn key_known(db: &Database, k: OpaqueTyKey) -> bool {
        db.opaque_ty_interns.contains_key(k)
    }

    open spec fn handle_known(db: &Database, h: OpaqueTyId) -> bool {
        h.0 < db.opaque_ty_interns.keys@.len()
    }

    open spec fn handle_spec(db: &Database, k: OpaqueTyKey) -> OpaqueTyId {
        OpaqueTyId(
            (choose|i: int|
                0 <= i < db.opaque_ty_interns.keys@.len() && db.opaque_ty_interns.keys@[i]
                    == k) as usize,
        )
    }

    open spec fn key_spec(db: &Database, h: OpaqueTyId) -> OpaqueTyKey {
        db.opaque_ty_interns.keys@[h.0 as int]
    }

    fn to_chalk(self, db: &Database) -> (h: OpaqueTyId) {
        let h = db.opaque_ty_interns.to_handle(self);
        proof {
            let i = choose|i: int|
                0 <= i < db.opaque_ty_interns.keys@.len() && db.opaque_ty_interns.keys@[i] == self;
            db.opaque_ty_interns.lemma_injective(OpaqueTyId(i as usize), h);
        }
        h
    }

    fn from_chalk(db: &Database, h: OpaqueTyId) -> (k: OpaqueTyKey) {
        let k = db.opaque_ty_interns.from_handle(h);
        proof {
            assert(db.opaque_ty_interns.keys@[h.0 as int] == k);
        }
        k
    }

    proof fn lemma_round_trip_key(db: &Database, k: OpaqueTyKey) {
        assert(db.opaque_ty_interns.keys.len() == db.opaque_ty_interns.keys@.len());
        assert(exists|i: int|
            0 <= i < db.opaque_ty_interns.keys@.len() && db.opaque_ty_interns.keys@[i] == k);
        let i = choose|i: int|
            0 <= i < db.opaque_ty_interns.keys@.len() && db.opaque_ty_interns.keys@[i] == k;
        assert(db.opaque_ty_interns.keys@[i] == k);
    }

    proof fn lemma_round_trip_handle(db: &Database, h: OpaqueTyId) {
        let k = db.opaque_ty_interns.keys@[h.0 as int];
        assert(db.opaque_ty_interns.keys@.contains(k));
        let i = choose|i: int|
            0 <= i < db.opaque_ty_interns.keys@.len() && db.opaque_ty_interns.keys@[i] == k;
        db.opaque_ty_interns.lemma_injective(OpaqueTyId(i as usize), h);
    }
}

} // verus!
