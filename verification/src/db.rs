//! The immutable program snapshot the bridge works against: definition
//! tables for crates, traits, ADTs, callables, impls and type aliases, the
//! lang-item registry, the built-in impl records, the stored
//! ambient-environment clause sets, and the interning tables that hand out
//! solver handles.
//!
//! Name resolution, lowering and memoization happen outside this crate; the
//! tables here hold their already-lowered results. The well-formedness
//! predicate [`Database::wf`] states the cross-table invariants the bridge
//! relies on — in particular that the impl interning tables are
//! pre-populated, and that an impl is only ever interned when its trait
//! reference resolved: unresolvable impls must never become solver-visible.

use vstd::prelude::*;

use crate::binders::GenericPredicate;
use crate::binders::TraitRef;
use crate::fingerprint::TyFingerprint;
use crate::ids::AssocTyValueKey;
use crate::ids::BuiltinImplId;
use crate::ids::CrateId;
use crate::ids::ImplDefId;
use crate::ids::ImplKey;
use crate::ids::NameId;
use crate::ids::OpaqueTyKey;
use crate::ids::TraitDefId;
use crate::ids::TypeAliasId;
use crate::intern::AssocTyValueInternTable;
use crate::intern::ImplInternTable;
use crate::intern::OpaqueTyInternTable;
use crate::tys::Ty;

verus! {

/// What a lang-item attribute resolves to in a crate.
#[derive(Clone, Copy, PartialEq, Eq, Structural, Debug)]
pub enum LangItemTarget {
    TraitId(TraitDefId),
    Other,
}

/// One entry of the lang-item registry.
pub struct LangItemEntry {
    pub krate: CrateId,
    pub name: String,
    pub target: LangItemTarget,
}

/// Dependency information for one crate: the crates it transitively
/// depends on.
pub struct CrateData {
    pub deps: Vec<CrateId>,
}

/// A trait definition as lowering produced it.
pub struct TraitData {
    pub krate: CrateId,
    pub auto: bool,
    pub param_count: usize,
    pub assoc_types: Vec<TypeAliasId>,
    pub where_clauses: Vec<GenericPredicate>,
    pub lang_attr: Option<String>,
}

/// An ADT definition.
pub struct AdtData {
    pub krate: CrateId,
    pub param_count: usize,
    pub where_clauses: Vec<GenericPredicate>,
}

/// One return-position existential of a function: the bounds the hidden
/// type is declared to satisfy.
pub struct ReturnTypeImplTrait {
    pub bounds: Vec<GenericPredicate>,
}

/// All return-position existentials of one function, wrapped in the
/// function's generic binder.
pub struct ReturnTypeImplTraits {
    pub num_binders: usize,
    pub impl_traits: Vec<ReturnTypeImplTrait>,
}

/// A callable definition: signature, where-clauses and return-position
/// existentials.
pub struct CallableData {
    pub param_count: usize,
    pub params: Vec<Ty>,
    pub ret: Ty,
    pub where_clauses: Vec<GenericPredicate>,
    pub impl_traits: Option<ReturnTypeImplTraits>,
}

/// The container a type alias was declared in.
#[derive(Clone, Copy, PartialEq, Eq, Structural, Debug)]
pub enum AssocContainerId {
    TraitId(TraitDefId),
    ImplId(ImplDefId),
    ModuleId,
}

/// A type alias: an associated type declaration (in a trait) or an
/// associated type value (in an impl).
pub struct TypeAliasData {
    pub name: NameId,
    pub container: AssocContainerId,
    pub param_count: usize,
    pub bounds: Vec<GenericPredicate>,
    pub where_clauses: Vec<GenericPredicate>,
    pub value: Ty,
    pub value_num_binders: usize,
}

/// An item declared inside an impl block.
#[derive(Clone, Copy, PartialEq, Eq, Structural, Debug)]
pub enum AssocItemId {
    TypeAliasId(TypeAliasId),
    FunctionId(crate::ids::CallableDefId),
}

/// An impl block. `trait_ref` is `None` when the implemented trait failed
/// to resolve; such an impl must never reach the solver.
pub struct ImplData {
    pub krate: CrateId,
    pub param_count: usize,
    pub trait_ref: Option<TraitRef>,
    pub negative: bool,
    pub items: Vec<AssocItemId>,
    pub self_ty: Ty,
    pub where_clauses: Vec<GenericPredicate>,
}

/// The associated type value a built-in impl provides.
pub struct BuiltinAssocTyValueData {
    pub assoc_ty_id: TypeAliasId,
    pub value: Ty,
    pub num_binders: usize,
}

/// A synthesized built-in impl: a library-provided blanket impl matched
/// structurally against (self type, optional second parameter, trait),
/// generated on demand and never stored in the ordinary impl tables.
pub struct BuiltinImplData {
    pub krate: CrateId,
    pub trait_ref: TraitRef,
    pub param_count: usize,
    pub self_fp: TyFingerprint,
    pub arg_fp: Option<TyFingerprint>,
    pub assoc_value: Option<BuiltinAssocTyValueData>,
}

/// An ambient environment, identified by the external substrate.
#[derive(Clone, Copy, PartialEq, Eq, Structural, Debug)]
pub struct Environment(pub usize);

/// An opaque solver program clause, produced by the external substrate.
#[derive(Clone, Copy, PartialEq, Eq, Structural, Debug)]
pub struct ProgramClause(pub u64);

/// The program snapshot.
pub struct Database {
    pub crates: Vec<CrateData>,
    pub traits: Vec<TraitData>,
    pub adts: Vec<AdtData>,
    pub callables: Vec<CallableData>,
    pub impls: Vec<ImplData>,
    pub type_aliases: Vec<TypeAliasData>,
    pub builtin_impls: Vec<BuiltinImplData>,
    pub lang_items: Vec<LangItemEntry>,
    pub env_clauses: Vec<Vec<ProgramClause>>,
    pub impl_interns: ImplInternTable,
    pub assoc_ty_value_interns: AssocTyValueInternTable,
    pub opaque_ty_interns: OpaqueTyInternTable,
}

impl Database {
    pub open spec fn valid_trait(&self, id: TraitDefId) -> bool {
        id.0 < self.traits@.len()
    }

    pub open spec fn valid_adt(&self, id: crate::ids::AdtDefId) -> bool {
        id.0 < self.adts@.len()
    }

    pub open spec fn valid_callable(&self, id: crate::ids::CallableDefId) -> bool {
        id.0 < self.callables@.len()
    }

    pub open spec fn valid_impl(&self, id: ImplDefId) -> bool {
        id.0 < self.impls@.len()
    }

    pub open spec fn valid_type_alias(&self, id: TypeAliasId) -> bool {
        id.0 < self.type_aliases@.len()
    }

    pub open spec fn valid_builtin(&self, id: BuiltinImplId) -> bool {
        id.0 < self.builtin_impls@.len()
    }

    pub open spec fn trait_data_spec(&self, id: TraitDefId) -> TraitData {
        self.traits@[id.0 as int]
    }

    pub open spec fn adt_data_spec(&self, id: crate::ids::AdtDefId) -> AdtData {
        self.adts@[id.0 as int]
    }

    pub open spec fn callable_data_spec(&self, id: crate::ids::CallableDefId) -> CallableData {
        self.callables@[id.0 as int]
    }

    pub open spec fn impl_data_spec(&self, id: ImplDefId) -> ImplData {
        self.impls@[id.0 as int]
    }

    pub open spec fn type_alias_data_spec(&self, id: TypeAliasId) -> TypeAliasData {
        self.type_aliases@[id.0 as int]
    }

    pub open spec fn builtin_data_spec(&self, id: BuiltinImplId) -> BuiltinImplData {
        self.builtin_impls@[id.0 as int]
    }

    /// Whether the impl's trait reference resolved during lowering.
    pub open spec fn impl_resolved(&self, id: ImplDefId) -> bool {
        self.impl_data_spec(id).trait_ref is Some
    }

    /// Whether a trait declares an associated type with the given name.
    pub open spec fn trait_has_assoc_type_named(&self, t: TraitDefId, name: NameId) -> bool {
        exists|j: int|
            0 <= j < self.trait_data_spec(t).assoc_types@.len()
                && self.valid_type_alias(#[trigger] self.trait_data_spec(t).assoc_types@[j])
                && self.type_alias_data_spec(self.trait_data_spec(t).assoc_types@[j]).name == name
    }

    /// An impl key the solver may hold: the impl exists, and its trait
    /// reference resolved.
    pub open spec fn valid_impl_key(&self, k: ImplKey) -> bool {
        match k {
            ImplKey::ImplDef(i) => self.valid_impl(i) && self.impl_resolved(i),
            ImplKey::Builtin(b) => self.valid_builtin(b),
        }
    }

    /// An associated-type-value key the solver may hold: it lives in an
    /// impl whose trait resolved, and names an associated type the trait
    /// really declares (validated when the impl's data was built).
    pub open spec fn valid_assoc_ty_value_key(&self, k: AssocTyValueKey) -> bool {
        match k {
            AssocTyValueKey::TypeAlias(a) => {
                &&& self.valid_type_alias(a)
                &&& self.type_alias_data_spec(a).container is ImplId
                &&& {
                    let im = self.type_alias_data_spec(a).container->ImplId_0;
                    &&& self.valid_impl(im)
                    &&& self.impl_resolved(im)
                    &&& {
                        let tr = self.impl_data_spec(im).trait_ref->Some_0;
                        &&& self.valid_trait(tr.trait_id)
                        &&& self.trait_has_assoc_type_named(
                            tr.trait_id,
                            self.type_alias_data_spec(a).name,
                        )
                    }
                }
            }
            AssocTyValueKey::Builtin(b) => self.valid_builtin(b) && self.builtin_data_spec(
                b,
            ).assoc_value is Some,
        }
    }

    /// An opaque-type key the solver may hold: the function exists and has
    /// a return-position existential at that position.
    pub open spec fn valid_opaque_ty_key(&self, k: OpaqueTyKey) -> bool {
        &&& self.valid_callable(k.func)
        &&& self.callable_data_spec(k.func).impl_traits is Some
        &&& k.idx < self.callable_data_spec(k.func).impl_traits->Some_0.impl_traits@.len()
    }

    /// Cross-table well-formedness. Notably: interned keys are valid (an
    /// impl is interned only if its trait reference resolved), every
    /// resolvable impl and every built-in impl is interned, trait
    /// references point at real traits, and lang-item entries are unique
    /// per (crate, name).
    pub open spec fn wf(&self) -> bool {
        &&& self.impls@.len() <= u32::MAX
        &&& self.builtin_impls@.len() <= u32::MAX
        &&& self.impl_interns.wf()
        &&& self.assoc_ty_value_interns.wf()
        &&& self.opaque_ty_interns.wf()
        &&& forall|h: int|
            0 <= h < self.impl_interns.keys@.len() ==> self.valid_impl_key(
                #[trigger] self.impl_interns.keys@[h],
            )
        &&& forall|h: int|
            0 <= h < self.assoc_ty_value_interns.keys@.len() ==> self.valid_assoc_ty_value_key(
                #[trigger] self.assoc_ty_value_interns.keys@[h],
            )
        &&& forall|h: int|
            0 <= h < self.opaque_ty_interns.keys@.len() ==> self.valid_opaque_ty_key(
                #[trigger] self.opaque_ty_interns.keys@[h],
            )
        &&& forall|i: int|
            0 <= i < self.impls@.len() && (#[trigger] self.impls@[i]).trait_ref is Some
                ==> self.impl_interns.contains_key(ImplKey::ImplDef(ImplDefId(i as u32)))
        &&& forall|b: int|
            0 <= b < self.builtin_impls@.len() ==> #[trigger] self.impl_interns.contains_key(
                ImplKey::Builtin(BuiltinImplId(b as u32)),
            )
        &&& forall|i: int|
            0 <= i < self.impls@.len() && (#[trigger] self.impls@[i]).trait_ref is Some
                ==> self.valid_trait(self.impls@[i].trait_ref->Some_0.trait_id)
        &&& forall|b: int|
            0 <= b < self.builtin_impls@.len() ==> self.valid_trait(
                (#[trigger] self.builtin_impls@[b]).trait_ref.trait_id,
            )
        &&& forall|i: int, j: int|
            0 <= i < self.impls@.len() && 0 <= j < self.impls@[i].items@.len()
                && (#[trigger] self.impls@[i].items@[j]) is TypeAliasId ==> self.valid_type_alias(
                self.impls@[i].items@[j]->TypeAliasId_0,
            )
        &&& forall|t: int, j: int|
            0 <= t < self.traits@.len() && 0 <= j < self.traits@[t].assoc_types@.len()
                ==> self.valid_type_alias(#[trigger] self.traits@[t].assoc_types@[j])
        &&& forall|i: int, j: int|
            0 <= i < self.impls@.len() && 0 <= j < self.impls@[i].items@.len()
                && (#[trigger] self.impls@[i].items@[j]) is TypeAliasId
                ==> self.type_alias_data_spec(self.impls@[i].items@[j]->TypeAliasId_0).container
                == AssocContainerId::ImplId(ImplDefId(i as u32))
        &&& forall|t: int, j1: int, j2: int|
            #![trigger self.traits@[t].assoc_types@[j1], self.traits@[t].assoc_types@[j2]]
            0 <= t < self.traits@.len() && 0 <= j1 < j2 < self.traits@[t].assoc_types@.len()
                ==> self.type_alias_data_spec(self.traits@[t].assoc_types@[j1]).name
                != self.type_alias_data_spec(self.traits@[t].assoc_types@[j2]).name
        &&& forall|a: int|
            0 <= a < self.type_aliases@.len() && self.valid_assoc_ty_value_key(
                AssocTyValueKey::TypeAlias(TypeAliasId(a as u32)),
            ) ==> #[trigger] self.assoc_ty_value_interns.contains_key(
                AssocTyValueKey::TypeAlias(TypeAliasId(a as u32)),
            )
        &&& forall|b: int|
            0 <= b < self.builtin_impls@.len() && (#[trigger] self.builtin_impls@[b]).assoc_value
                is Some ==> self.assoc_ty_value_interns.contains_key(
                AssocTyValueKey::Builtin(BuiltinImplId(b as u32)),
            )
        &&& forall|i: int, j: int|
            #![trigger self.lang_items@[i], self.lang_items@[j]]
            0 <= i < j < self.lang_items@.len() ==> !(self.lang_items@[i].krate
                == self.lang_items@[j].krate && self.lang_items@[i].name@
                == self.lang_items@[j].name@)
    }

    /// Whether an entry maps (krate, name) in the lang-item registry.
    pub open spec fn lang_item_spec(&self, krate: CrateId, name: Seq<char>) -> Option<
        LangItemTarget,
    > {
        if exists|i: int|
            0 <= i < self.lang_items@.len() && (#[trigger] self.lang_items@[i]).krate == krate
                && self.lang_items@[i].name@ == name {
            let i = choose|i: int|
                0 <= i < self.lang_items@.len() && (#[trigger] self.lang_items@[i]).krate == krate
                    && self.lang_items@[i].name@ == name;
            Some(self.lang_items@[i].target)
        } else {
            None
        }
    }

    /// Look a lang item up in the registry of the given crate.
    pub fn lang_item(&self, krate: CrateId, name: &String) -> (r: Option<LangItemTarget>)
        requires
            self.wf(),
        ensures
            r == self.lang_item_spec(krate, name@),
    {
        let mut i: usize = 0;
        while i < self.lang_items.len()
            invariant
                self.wf(),
                i <= self.lang_items@.len(),
                forall|j: int|
                    0 <= j < i ==> !((#[trigger] self.lang_items@[j]).krate == krate
                        && self.lang_items@[j].name@ == name@),
            decreases self.lang_items@.len() - i,
        {
            let e = &self.lang_items[i];
            if e.krate == krate && e.name == *name {
                proof {
                    let j = choose|j: int|
                        0 <= j < self.lang_items@.len() && (#[trigger] self.lang_items@[j]).krate
                            == krate && self.lang_items@[j].name@ == name@;
                    assert(self.lang_items@[i as int].krate == krate
                        && self.lang_items@[i as int].name@ == name@);
                    if j < i as int {
                        assert(!(self.lang_items@[j].krate == self.lang_items@[i as int].krate
                            && self.lang_items@[j].name@ == self.lang_items@[i as int].name@));
                    }
                    if j > i as int {
                        assert(!(self.lang_items@[i as int].krate == self.lang_items@[j].krate
                            && self.lang_items@[i as int].name@ == self.lang_items@[j].name@));
                    }
                    assert(j == i as int);
                }
                return Some(e.target);
            }
            i = i + 1;
        }
        None
    }
}

} // verus!
