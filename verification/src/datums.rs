//! Datum construction: the seven solver-facing query operations, one per
//! entity kind. Each is a pure function of (database, requesting crate,
//! identifier) producing an immutable datum; the external substrate caches
//! the results.
//!
//! Flag policy follows the adapter's documented gaps: `non_enumerable` is
//! always set, `coinductive`, `marker`, `fundamental` and `phantom_data`
//! are never set, and ADT variant shapes are placeholder-empty (auto-trait
//! field enumeration is out of scope).

use vstd::prelude::*;

use crate::binders::Binders;
use crate::binders::GenericPredicate;
use crate::binders::InlineBound;
use crate::binders::TraitRef;
use crate::binders::clone_trait_ref;
use crate::binders::convert_where_clauses;
use crate::binders::drop_errors;
use crate::binders::generic_predicate_to_inline_bound;
use crate::binders::inline_bound_of_pred;
use crate::binders::lemma_preds_view;
use crate::binders::make_binders;
use crate::binders::pred_shiftable;
use crate::binders::preds_view;
use crate::binders::shift_inline_bound;
use crate::binders::shift_inline_bound_spec;
use crate::db::AssocContainerId;
use crate::db::AssocItemId;
use crate::db::Database;
use crate::ids::AdtId;
use crate::ids::AssocTyValueKey;
use crate::ids::AssocTypeId;
use crate::ids::AssociatedTyValueId;
use crate::ids::CrateId;
use crate::ids::FnDefId;
use crate::ids::ImplDefId;
use crate::ids::ImplId;
use crate::ids::ImplKey;
use crate::ids::NameId;
use crate::ids::TraitDefId;
use crate::ids::TraitId;
use crate::ids::TypeAliasId;
use crate::mapping::ToChalk;
use crate::tys::Ty;
use crate::tys::clone_ty;
use crate::tys::shift_bound_vars;
use crate::tys::shift_ty_spec;
use crate::tys::shift_tys;
use crate::tys::shift_tys_spec;
use crate::tys::shiftable_ty;
use crate::tys::shiftable_tys;
use crate::tys::tys_view;
use crate::well_known::WellKnownTrait;
use crate::well_known::well_known_from_lang_attr_spec;
use crate::well_known::well_known_trait_from_lang_attr;

verus! {

/// Flags of a trait datum.
#[derive(Clone, Copy, PartialEq, Eq, Structural, Debug)]
pub struct TraitFlags {
    pub auto: bool,
    pub upstream: bool,
    pub non_enumerable: bool,
    pub coinductive: bool,
    pub marker: bool,
    pub fundamental: bool,
}

/// The bound part of a trait datum.
pub struct TraitDatumBound {
    pub where_clauses: Vec<GenericPredicate>,
}

/// The solver-facing fact about one trait.
pub struct TraitDatum {
    pub id: TraitId,
    pub binders: Binders<TraitDatumBound>,
    pub flags: TraitFlags,
    pub associated_ty_ids: Vec<AssocTypeId>,
    pub well_known: Option<WellKnownTrait>,
}

/// Flags of an ADT datum.
#[derive(Clone, Copy, PartialEq, Eq, Structural, Debug)]
pub struct AdtFlags {
    pub upstream: bool,
    pub fundamental: bool,
    pub phantom_data: bool,
}

/// One variant of an ADT, as the solver sees it. Field enumeration is out
/// of scope, so the field list is a placeholder.
pub struct AdtVariantDatum {
    pub fields: Vec<Ty>,
}

/// The bound part of an ADT datum.
pub struct AdtDatumBound {
    pub variants: Vec<AdtVariantDatum>,
    pub where_clauses: Vec<GenericPredicate>,
}

/// The kind of an ADT.
#[derive(Clone, Copy, PartialEq, Eq, Structural, Debug)]
pub enum AdtKind {
    Struct,
    Enum,
    Union,
}

/// The solver-facing fact about one ADT.
pub struct StructDatum {
    pub kind: AdtKind,
    pub id: AdtId,
    pub binders: Binders<AdtDatumBound>,
    pub flags: AdtFlags,
}

/// Whether an impl is local to the requesting crate or external to it.
#[derive(Clone, Copy, PartialEq, Eq, Structural, Debug)]
pub enum ImplType {
    Local,
    External,
}

/// Whether an impl asserts or denies its trait.
#[derive(Clone, Copy, PartialEq, Eq, Structural, Debug)]
pub enum Polarity {
    Positive,
    Negative,
}

/// The bound part of an impl datum.
pub struct ImplDatumBound {
    pub trait_ref: TraitRef,
    pub where_clauses: Vec<GenericPredicate>,
}

/// The solver-facing fact about one impl.
pub struct ImplDatum {
    pub binders: Binders<ImplDatumBound>,
    pub impl_type: ImplType,
    pub polarity: Polarity,
    pub associated_ty_value_ids: Vec<AssociatedTyValueId>,
}

/// The bound part of an associated type declaration datum.
pub struct AssociatedTyDatumBound {
    pub bounds: Vec<Binders<InlineBound>>,
    pub where_clauses: Vec<GenericPredicate>,
}

/// The solver-facing fact about one associated type declaration.
pub struct AssociatedTyDatum {
    pub trait_id: TraitId,
    pub id: AssocTypeId,
    pub name: TypeAliasId,
    pub binders: Binders<AssociatedTyDatumBound>,
}

/// The bound part of an associated type value datum.
pub struct AssociatedTyValueBound {
    pub ty: Ty,
}

/// The solver-facing fact about one associated type value in an impl.
pub struct AssociatedTyValue {
    pub impl_id: ImplId,
    pub associated_ty_id: AssocTypeId,
    pub value: Binders<AssociatedTyValueBound>,
}

/// Argument and return types of a function definition.
pub struct FnDefInputsAndOutputDatum {
    pub argument_types: Vec<Ty>,
    pub return_type: Ty,
}

/// The bound part of a function definition datum.
pub struct FnDefDatumBound {
    pub inputs_and_output: Binders<FnDefInputsAndOutputDatum>,
    pub where_clauses: Vec<GenericPredicate>,
}

/// The solver-facing fact about one function definition.
pub struct FnDefDatum {
    pub id: FnDefId,
    pub binders: Binders<FnDefDatumBound>,
}

/// Find the associated type a trait declares under a name.
pub fn associated_type_by_name(db: &Database, t: TraitDefId, name: NameId) -> (r: Option<
    TypeAliasId,
>)
    requires
        db.wf(),
        db.valid_trait(t),
    ensures
        r is Some <==> db.trait_has_assoc_type_named(t, name),
        r matches Some(a) ==> db.valid_type_alias(a) && db.type_alias_data_spec(a).name == name
            && db.trait_data_spec(t).assoc_types@.contains(a),
{
    let td = &db.traits[t.0 as usize];
    let mut j: usize = 0;
    while j < td.assoc_types.len()
        invariant
            db.wf(),
            db.valid_trait(t),
            td == &db.traits@[t.0 as int],
            j <= td.assoc_types@.len(),
            forall|k: int|
                0 <= k < j ==> db.type_alias_data_spec(
                    #[trigger] td.assoc_types@[k],
                ).name != name,
        decreases td.assoc_types@.len() - j,
    {
        let a = td.assoc_types[j];
        if db.type_aliases[a.0 as usize].name == name {
            proof {
                assert(db.trait_data_spec(t).assoc_types@[j as int] == a);
            }
            return Some(a);
        }
        j = j + 1;
    }
    proof {
        assert(!db.trait_has_assoc_type_named(t, name));
    }
    None
}

/// Construct the trait datum for a trait, as seen from `krate`. The
/// `upstream` flag is set exactly when the trait's owning crate is not the
/// requesting crate; the bound-variable count equals the trait's declared
/// generic-parameter count; unresolved where-clauses are dropped.
pub open spec fn trait_datum_matches(
    db: &Database,
    krate: CrateId,
    trait_id: TraitId,
    r: TraitDatum,
) -> bool {
    let t = db.trait_data_spec(TraitDefId(trait_id.0));
    &&& r.id == trait_id
    &&& r.binders.num_binders == t.param_count
    &&& preds_view(r.binders.value.where_clauses@) == drop_errors(preds_view(t.where_clauses@))
    &&& r.flags.auto == t.auto
    &&& r.flags.upstream == (t.krate != krate)
    &&& r.flags.non_enumerable == true
    &&& r.flags.coinductive == false
    &&& r.flags.marker == false
    &&& r.flags.fundamental == false
    &&& r.associated_ty_ids@.len() == t.assoc_types@.len()
    &&& forall|i: int|
        0 <= i < t.assoc_types@.len() ==> r.associated_ty_ids@[i] == AssocTypeId(
            (#[trigger] t.assoc_types@[i]).0,
        )
    &&& r.well_known == (match t.lang_attr {
        Some(n) => well_known_from_lang_attr_spec(n@),
        None => None,
    })
}

pub fn trait_datum_query(db: &Database, krate: CrateId, trait_id: TraitId) -> (r: TraitDatum)
    requires
        db.wf(),
        db.valid_trait(TraitDefId(trait_id.0)),
    ensures
        trait_datum_matches(db, krate, trait_id, r),
{
    let trait_data = &db.traits[trait_id.0 as usize];
    let flags = TraitFlags {
        auto: trait_data.auto,
        upstream: trait_data.krate != krate,
        non_enumerable: true,
        coinductive: false,
        marker: false,
        fundamental: false,
    };
    let where_clauses = convert_where_clauses(&trait_data.where_clauses);
    let mut associated_ty_ids: Vec<AssocTypeId> = Vec::new();
    let mut i: usize = 0;
    while i < trait_data.assoc_types.len()
        invariant
            trait_data == &db.traits@[trait_id.0 as int],
            trait_id.0 < db.traits@.len(),
            i <= trait_data.assoc_types@.len(),
            associated_ty_ids@.len() == i,
            forall|j: int|
                0 <= j < i ==> associated_ty_ids@[j] == AssocTypeId(
                    (#[trigger] trait_data.assoc_types@[j]).0,
                ),
        decreases trait_data.assoc_types@.len() - i,
    {
        associated_ty_ids.push(AssocTypeId(trait_data.assoc_types[i].0));
        i = i + 1;
    }
    let well_known = match &trait_data.lang_attr {
        Some(name) => well_known_trait_from_lang_attr(name),
        None => None,
    };
    let trait_datum_bound = TraitDatumBound { where_clauses };
    TraitDatum {
        id: trait_id,
        binders: make_binders(trait_datum_bound, trait_data.param_count),
        flags,
        associated_ty_ids,
        well_known,
    }
}

/// Construct the ADT datum for a struct, as seen from `krate`. The
/// `upstream` flag is set exactly when the ADT's owning crate is not the
/// requesting crate; the variant shape is a placeholder (one variant, no
/// fields); the bound-variable count equals the ADT's generic-parameter
/// count.
pub open spec fn struct_datum_matches(
    db: &Database,
    krate: CrateId,
    struct_id: AdtId,
    r: StructDatum,
) -> bool {
    let a = db.adt_data_spec(crate::ids::AdtDefId(struct_id.0));
    &&& r.id == struct_id
    &&& r.kind == AdtKind::Struct
    &&& r.binders.num_binders == a.param_count
    &&& preds_view(r.binders.value.where_clauses@) == drop_errors(preds_view(a.where_clauses@))
    &&& r.flags.upstream == (a.krate != krate)
    &&& r.flags.fundamental == false
    &&& r.flags.phantom_data == false
    &&& r.binders.value.variants@.len() == 1
    &&& r.binders.value.variants@[0].fields@.len() == 0
}

pub fn struct_datum_query(db: &Database, krate: CrateId, struct_id: AdtId) -> (r: StructDatum)
    requires
        db.wf(),
        db.valid_adt(crate::ids::AdtDefId(struct_id.0)),
    ensures
        struct_datum_matches(db, krate, struct_id, r),
{
    let adt_data = &db.adts[struct_id.0 as usize];
    let upstream = adt_data.krate != krate;
    let where_clauses = convert_where_clauses(&adt_data.where_clauses);
    let flags = AdtFlags { upstream, fundamental: false, phantom_data: false };
    let variant = AdtVariantDatum { fields: Vec::new() };
    let mut variants: Vec<AdtVariantDatum> = Vec::new();
    variants.push(variant);
    let struct_datum_bound = AdtDatumBound { variants, where_clauses };
    StructDatum {
        kind: AdtKind::Struct,
        id: struct_id,
        binders: make_binders(struct_datum_bound, adt_data.param_count),
        flags,
    }
}

/// The type-alias items of an impl that name an associated type the
/// implemented trait really declares; items without a counterpart on the
/// trait are silently dropped (malformed code must not crash the solver).
pub open spec fn impl_assoc_value_items(db: &Database, items: Seq<AssocItemId>, t: TraitDefId)
    -> Seq<TypeAliasId>
    decreases items,
{
    if items.len() == 0 {
        Seq::empty()
    } else {
        let init = impl_assoc_value_items(db, items.drop_last(), t);
        match items.last() {
            AssocItemId::TypeAliasId(a) => {
                if db.valid_type_alias(a) && db.trait_has_assoc_type_named(
                    t,
                    db.type_alias_data_spec(a).name,
                ) {
                    init.push(a)
                } else {
                    init
                }
            }
            AssocItemId::FunctionId(_f) => init,
        }
    }
}

/// What the impl datum of a real impl block must hold, relative to the
/// impl's stored data and the requesting crate.
pub open spec fn impl_datum_def_matches(
    db: &Database,
    krate: CrateId,
    i: ImplDefId,
    r: ImplDatum,
) -> bool {
    let d = db.impl_data_spec(i);
    let tr = d.trait_ref->Some_0;
    &&& r.binders.num_binders == d.param_count
    &&& r.binders.value.trait_ref@ == tr@
    &&& preds_view(r.binders.value.where_clauses@) == drop_errors(preds_view(d.where_clauses@))
    &&& r.impl_type == (if d.krate == krate {
        ImplType::Local
    } else {
        ImplType::External
    })
    &&& r.polarity == (if d.negative {
        Polarity::Negative
    } else {
        Polarity::Positive
    })
    &&& r.associated_ty_value_ids@.len() == impl_assoc_value_items(db, d.items@, tr.trait_id).len()
    &&& forall|j: int|
        0 <= j < impl_assoc_value_items(db, d.items@, tr.trait_id).len()
            ==> #[trigger] r.associated_ty_value_ids@[j] == AssocTyValueKey::handle_spec(
            db,
            AssocTyValueKey::TypeAlias(impl_assoc_value_items(db, d.items@, tr.trait_id)[j]),
        )
}

/// What the impl datum of a built-in impl must hold.
pub open spec fn impl_datum_builtin_matches(
    db: &Database,
    krate: CrateId,
    b: crate::ids::BuiltinImplId,
    r: ImplDatum,
) -> bool {
    let d = db.builtin_data_spec(b);
    &&& r.binders.num_binders == d.param_count
    &&& r.binders.value.trait_ref@ == d.trait_ref@
    &&& r.binders.value.where_clauses@.len() == 0
    &&& r.impl_type == (if d.krate == krate {
        ImplType::Local
    } else {
        ImplType::External
    })
    &&& r.polarity == Polarity::Positive
    &&& r.associated_ty_value_ids@.len() == (if d.assoc_value is Some {
        1int
    } else {
        0int
    })
    &&& (d.assoc_value is Some ==> r.associated_ty_value_ids@[0]
        == AssocTyValueKey::handle_spec(db, AssocTyValueKey::Builtin(b)))
}

/// Construct the impl datum for a real impl block. Reaching this for an
/// impl whose trait reference never resolved is a broken precondition
/// upstream: such impls are excluded from every solver-visible index, so
/// the resolved trait reference is required here.
#[verifier::loop_isolation(false)]
pub fn impl_def_datum(db: &Database, krate: CrateId, impl_id: ImplDefId) -> (r: ImplDatum)
    requires
        db.wf(),
        db.valid_impl(impl_id),
        db.impl_resolved(impl_id),
    ensures
        impl_datum_def_matches(db, krate, impl_id, r),
{
    let impl_data = &db.impls[impl_id.0 as usize];
    let trait_ref = match &impl_data.trait_ref {
        Some(tr) => clone_trait_ref(tr),
        None => {
            proof {
                assert(false);
            }
            TraitRef { trait_id: TraitDefId(0), substs: Vec::new() }
        }
    };
    let ghost tr_spec = db.impl_data_spec(impl_id).trait_ref->Some_0;
    let trait_ = trait_ref.trait_id;
    proof {
        assert(trait_ == tr_spec.trait_id);
    }
    let impl_type = if impl_data.krate == krate {
        ImplType::Local
    } else {
        ImplType::External
    };
    let where_clauses = convert_where_clauses(&impl_data.where_clauses);
    let polarity = if impl_data.negative {
        Polarity::Negative
    } else {
        Polarity::Positive
    };
    let mut associated_ty_value_ids: Vec<AssociatedTyValueId> = Vec::new();
    let mut i: usize = 0;
    while i < impl_data.items.len()
        invariant
            associated_ty_value_ids@.len() == impl_assoc_value_items(
                db,
                impl_data.items@.subrange(0, i as int),
                trait_,
            ).len(),
            forall|j: int|
                0 <= j < impl_assoc_value_items(
                    db,
                    impl_data.items@.subrange(0, i as int),
                    trait_,
                ).len() ==> #[trigger] associated_ty_value_ids@[j]
                    == AssocTyValueKey::handle_spec(
                    db,
                    AssocTyValueKey::TypeAlias(
                        impl_assoc_value_items(db, impl_data.items@.subrange(0, i as int), trait_)[j],
                    ),
                ),
            i <= impl_data.items@.len(),
        decreases impl_data.items@.len() - i,
    {
        let ghost prefix = impl_data.items@.subrange(0, i as int);
        let ghost next_prefix = impl_data.items@.subrange(0, i + 1);
        proof {
            assert(next_prefix.drop_last() =~= prefix);
            assert(next_prefix.last() == impl_data.items@[i as int]);
        }
        match &impl_data.items[i] {
            AssocItemId::TypeAliasId(type_alias) => {
                let a = *type_alias;
                proof {
                    assert(db.impls@[impl_id.0 as int].items@[i as int] is TypeAliasId);
                    assert(db.valid_type_alias(a));
                    assert(db.type_alias_data_spec(a).container == AssocContainerId::ImplId(
                        ImplDefId(impl_id.0 as int as u32),
                    ));
                }
                let name = db.type_aliases[a.0 as usize].name;
                match associated_type_by_name(db, trait_, name) {
                    Some(_decl) => {
                        let key = AssocTyValueKey::TypeAlias(a);
                        proof {
                            assert(db.valid_assoc_ty_value_key(key));
                            assert(a.0 < db.type_aliases@.len());
                            assert(db.valid_assoc_ty_value_key(
                                AssocTyValueKey::TypeAlias(TypeAliasId(a.0 as int as u32)),
                            ));
                            assert(db.assoc_ty_value_interns.contains_key(
                                AssocTyValueKey::TypeAlias(TypeAliasId(a.0 as int as u32)),
                            ));
                        }
                        let h = key.to_chalk(db);
                        associated_ty_value_ids.push(h);
                        proof {
                            assert(impl_assoc_value_items(db, next_prefix, trait_)
                                =~= impl_assoc_value_items(db, prefix, trait_).push(a));
                        }
                    }
                    None => {
                        proof {
                            assert(impl_assoc_value_items(db, next_prefix, trait_)
                                =~= impl_assoc_value_items(db, prefix, trait_));
                        }
                    }
                }
            }
            AssocItemId::FunctionId(_f) => {
                proof {
                    assert(impl_assoc_value_items(db, next_prefix, trait_)
                        =~= impl_assoc_value_items(db, prefix, trait_));
                }
            }
        }
        i = i + 1;
    }
    proof {
        assert(impl_data.items@.subrange(0, impl_data.items@.len() as int) =~= impl_data.items@);
    }
    let impl_datum_bound = ImplDatumBound { trait_ref, where_clauses };
    ImplDatum {
        binders: make_binders(impl_datum_bound, impl_data.param_count),
        impl_type,
        polarity,
        associated_ty_value_ids,
    }
}

/// Construct the impl datum for a built-in impl.
pub fn builtin_impl_datum(db: &Database, krate: CrateId, b: crate::ids::BuiltinImplId) -> (r:
    ImplDatum)
    requires
        db.wf(),
        db.valid_builtin(b),
    ensures
        impl_datum_builtin_matches(db, krate, b, r),
{
    let d = &db.builtin_impls[b.0 as usize];
    let trait_ref = clone_trait_ref(&d.trait_ref);
    let impl_type = if d.krate == krate {
        ImplType::Local
    } else {
        ImplType::External
    };
    let mut associated_ty_value_ids: Vec<AssociatedTyValueId> = Vec::new();
    match &d.assoc_value {
        Some(_v) => {
            let key = AssocTyValueKey::Builtin(b);
            proof {
                assert(db.builtin_impls@[b.0 as int].assoc_value is Some);
                assert(db.assoc_ty_value_interns.contains_key(
                    AssocTyValueKey::Builtin(crate::ids::BuiltinImplId(b.0 as int as u32)),
                ));
            }
            let h = key.to_chalk(db);
            associated_ty_value_ids.push(h);
        }
        None => {
        }
    }
    let impl_datum_bound = ImplDatumBound { trait_ref, where_clauses: Vec::new() };
    ImplDatum {
        binders: make_binders(impl_datum_bound, d.param_count),
        impl_type,
        polarity: Polarity::Positive,
        associated_ty_value_ids,
    }
}

/// Construct the impl datum behind a solver impl handle, dispatching on
/// whether the handle stands for a real impl block or a built-in impl.
pub fn impl_datum_query(db: &Database, krate: CrateId, impl_id: ImplId) -> (r: ImplDatum)
    requires
        db.wf(),
        impl_id.0 < db.impl_interns.keys@.len(),
    ensures
        ({
            let k = db.impl_interns.keys@[impl_id.0 as int];
            match k {
                ImplKey::ImplDef(i) => impl_datum_def_matches(db, krate, i, r),
                ImplKey::Builtin(b) => impl_datum_builtin_matches(db, krate, b, r),
            }
        }),
{
    let impl_: ImplKey = crate::mapping::from_chalk(db, impl_id);
    proof {
        assert(db.valid_impl_key(db.impl_interns.keys@[impl_id.0 as int]));
    }
    match impl_ {
        ImplKey::ImplDef(impl_def) => impl_def_datum(db, krate, impl_def),
        ImplKey::Builtin(b) => builtin_impl_datum(db, krate, b),
    }
}

/// What the associated type value datum of a type alias in an impl must
/// hold.
pub open spec fn assoc_ty_value_def_matches(db: &Database, a: TypeAliasId, r: AssociatedTyValue)
    -> bool {
    let ta = db.type_alias_data_spec(a);
    let im = ta.container->ImplId_0;
    let tr = db.impl_data_spec(im).trait_ref->Some_0;
    &&& r.impl_id == ImplKey::handle_spec(db, ImplKey::ImplDef(im))
    &&& exists|j: int|
        0 <= j < db.trait_data_spec(tr.trait_id).assoc_types@.len()
            && db.type_alias_data_spec(
            #[trigger] db.trait_data_spec(tr.trait_id).assoc_types@[j],
        ).name == ta.name && r.associated_ty_id == AssocTypeId(
            db.trait_data_spec(tr.trait_id).assoc_types@[j].0,
        )
    &&& r.value.num_binders == ta.value_num_binders
    &&& r.value.value.ty@ == ta.value@
}

/// What the associated type value datum of a built-in impl must hold.
pub open spec fn assoc_ty_value_builtin_matches(
    db: &Database,
    b: crate::ids::BuiltinImplId,
    r: AssociatedTyValue,
) -> bool {
    let v = db.builtin_data_spec(b).assoc_value->Some_0;
    &&& r.impl_id == ImplKey::handle_spec(db, ImplKey::Builtin(b))
    &&& r.associated_ty_id == AssocTypeId(v.assoc_ty_id.0)
    &&& r.value.num_binders == v.num_binders
    &&& r.value.value.ty@ == v.value@
}

/// Construct the associated type value datum for a type alias declared in
/// an impl. The impl's trait reference must have resolved, and the alias
/// must name an associated type the trait declares — both were validated
/// before such a value ever became solver-visible.
pub fn type_alias_associated_ty_value(db: &Database, _krate: CrateId, type_alias: TypeAliasId)
    -> (r: AssociatedTyValue)
    requires
        db.wf(),
        db.valid_assoc_ty_value_key(AssocTyValueKey::TypeAlias(type_alias)),
    ensures
        assoc_ty_value_def_matches(db, type_alias, r),
{
    let ta = &db.type_aliases[type_alias.0 as usize];
    let impl_id = match ta.container {
        AssocContainerId::ImplId(it) => it,
        _ => {
            proof {
                assert(false);
            }
            ImplDefId(0)
        }
    };
    let trait_ = match &db.impls[impl_id.0 as usize].trait_ref {
        Some(tr) => tr.trait_id,
        None => {
            proof {
                assert(false);
            }
            TraitDefId(0)
        }
    };
    let assoc_ty = match associated_type_by_name(db, trait_, ta.name) {
        Some(a) => a,
        None => {
            proof {
                assert(false);
            }
            TypeAliasId(0)
        }
    };
    proof {
        let list = db.trait_data_spec(trait_).assoc_types@;
        assert(list.contains(assoc_ty));
        let j = choose|j: int| 0 <= j < list.len() && list[j] == assoc_ty;
        assert(db.type_alias_data_spec(list[j]).name == db.type_alias_data_spec(
            type_alias,
        ).name);
    }
    let key = ImplKey::ImplDef(impl_id);
    proof {
        assert(db.impls@[impl_id.0 as int].trait_ref is Some);
        assert(db.impl_interns.contains_key(ImplKey::ImplDef(ImplDefId(impl_id.0 as int as u32))));
    }
    let impl_handle = key.to_chalk(db);
    let ty = clone_ty(&ta.value);
    let value_bound = AssociatedTyValueBound { ty };
    AssociatedTyValue {
        impl_id: impl_handle,
        associated_ty_id: AssocTypeId(assoc_ty.0),
        value: make_binders(value_bound, ta.value_num_binders),
    }
}

/// Construct the associated type value datum of a built-in impl.
pub fn builtin_associated_ty_value(db: &Database, _krate: CrateId, b: crate::ids::BuiltinImplId)
    -> (r: AssociatedTyValue)
    requires
        db.wf(),
        db.valid_builtin(b),
        db.builtin_data_spec(b).assoc_value is Some,
    ensures
        assoc_ty_value_builtin_matches(db, b, r),
{
    let d = &db.builtin_impls[b.0 as usize];
    let v = match &d.assoc_value {
        Some(v) => v,
        None => {
            proof {
                assert(false);
            }
            d.assoc_value.as_ref().unwrap()
        }
    };
    let key = ImplKey::Builtin(b);
    proof {
        assert(db.impl_interns.contains_key(
            ImplKey::Builtin(crate::ids::BuiltinImplId(b.0 as int as u32)),
        ));
    }
    let impl_handle = key.to_chalk(db);
    let ty = clone_ty(&v.value);
    AssociatedTyValue {
        impl_id: impl_handle,
        associated_ty_id: AssocTypeId(v.assoc_ty_id.0),
        value: make_binders(AssociatedTyValueBound { ty }, v.num_binders),
    }
}

/// Construct the associated type value datum behind a solver handle.
pub fn associated_ty_value_query(db: &Database, krate: CrateId, id: AssociatedTyValueId) -> (r:
    AssociatedTyValue)
    requires
        db.wf(),
        id.0 < db.assoc_ty_value_interns.keys@.len(),
    ensures
        ({
            let k = db.assoc_ty_value_interns.keys@[id.0 as int];
            match k {
                AssocTyValueKey::TypeAlias(a) => assoc_ty_value_def_matches(db, a, r),
                AssocTyValueKey::Builtin(b) => assoc_ty_value_builtin_matches(db, b, r),
            }
        }),
{
    let data: AssocTyValueKey = crate::mapping::from_chalk(db, id);
    proof {
        assert(db.valid_assoc_ty_value_key(db.assoc_ty_value_interns.keys@[id.0 as int]));
    }
    match data {
        AssocTyValueKey::TypeAlias(type_alias) => type_alias_associated_ty_value(
            db,
            krate,
            type_alias,
        ),
        AssocTyValueKey::Builtin(b) => builtin_associated_ty_value(db, krate, b),
    }
}

/// Construct the function definition datum: argument and return types in
/// declaration order, shifted into the extra binder wrapped around the
/// signature, plus the function's where-clauses.
pub open spec fn fn_def_datum_matches(db: &Database, fn_def_id: FnDefId, r: FnDefDatum) -> bool {
    let c = db.callable_data_spec(crate::ids::CallableDefId(fn_def_id.0));
    &&& r.id == fn_def_id
    &&& r.binders.num_binders == c.param_count
    &&& preds_view(r.binders.value.where_clauses@) == drop_errors(preds_view(c.where_clauses@))
    &&& r.binders.value.inputs_and_output.num_binders == 0
    &&& tys_view(r.binders.value.inputs_and_output.value.argument_types@) == shift_tys_spec(
        tys_view(c.params@),
        1,
    )
    &&& r.binders.value.inputs_and_output.value.return_type@ == shift_ty_spec(c.ret@, 1)
}

pub fn fn_def_datum_query(db: &Database, _krate: CrateId, fn_def_id: FnDefId) -> (r: FnDefDatum)
    requires
        db.wf(),
        db.valid_callable(crate::ids::CallableDefId(fn_def_id.0)),
        shiftable_tys(
            tys_view(db.callable_data_spec(crate::ids::CallableDefId(fn_def_id.0)).params@),
            1,
        ),
        shiftable_ty(db.callable_data_spec(crate::ids::CallableDefId(fn_def_id.0)).ret@, 1),
    ensures
        fn_def_datum_matches(db, fn_def_id, r),
{
    let c = &db.callables[fn_def_id.0 as usize];
    let where_clauses = convert_where_clauses(&c.where_clauses);
    let argument_types = shift_tys(&c.params, 1);
    let return_type = shift_bound_vars(&c.ret, 1);
    let inputs_and_output = make_binders(
        FnDefInputsAndOutputDatum { argument_types, return_type },
        0,
    );
    let bound = FnDefDatumBound { inputs_and_output, where_clauses };
    FnDefDatum { id: fn_def_id, binders: make_binders(bound, c.param_count) }
}

/// The inline-bound forms of a predicate list, each shifted into the one
/// extra binder level wrapped around an associated type's own bounds;
/// predicates without an inline form contribute nothing.
pub open spec fn inline_bounds_of(ps: Seq<crate::binders::GenericPredicateS>) -> Seq<
    crate::binders::InlineBoundS,
>
    decreases ps,
{
    if ps.len() == 0 {
        Seq::empty()
    } else {
        let init = inline_bounds_of(ps.drop_last());
        match inline_bound_of_pred(ps.last()) {
            Some(b) => init.push(shift_inline_bound_spec(b, 1)),
            None => init,
        }
    }
}

/// Construct the associated type declaration datum for a type alias
/// declared in a trait. The declared bounds are converted to inline-bound
/// form and shifted outward by one binder level, so a bound that mentions
/// the owning trait's generic parameter at depth 0 refers to it at depth 1
/// from inside the associated type's own binder.
pub open spec fn associated_ty_datum_matches(db: &Database, id: AssocTypeId, r: AssociatedTyDatum)
    -> bool {
    let ta = db.type_alias_data_spec(TypeAliasId(id.0));
    &&& r.trait_id == TraitId(ta.container->TraitId_0.0)
    &&& r.id == id
    &&& r.name == TypeAliasId(id.0)
    &&& r.binders.num_binders == ta.param_count
    &&& preds_view(r.binders.value.where_clauses@) == drop_errors(preds_view(ta.where_clauses@))
    &&& r.binders.value.bounds@.len() == inline_bounds_of(preds_view(ta.bounds@)).len()
    &&& forall|j: int|
        0 <= j < r.binders.value.bounds@.len() ==> (#[trigger] r.binders.value.bounds@[j]).num_binders
            == 0 && r.binders.value.bounds@[j].value@ == inline_bounds_of(
            preds_view(ta.bounds@),
        )[j]
}

#[verifier::loop_isolation(false)]
pub fn associated_ty_data_query(db: &Database, id: AssocTypeId) -> (r: AssociatedTyDatum)
    requires
        db.wf(),
        db.valid_type_alias(TypeAliasId(id.0)),
        db.type_alias_data_spec(TypeAliasId(id.0)).container is TraitId,
        forall|j: int|
            0 <= j < db.type_alias_data_spec(TypeAliasId(id.0)).bounds@.len() ==> pred_shiftable(
                (#[trigger] db.type_alias_data_spec(TypeAliasId(id.0)).bounds@[j])@,
                1,
            ),
    ensures
        associated_ty_datum_matches(db, id, r),
{
    let type_alias = TypeAliasId(id.0);
    let ta = &db.type_aliases[type_alias.0 as usize];
    let trait_ = match ta.container {
        AssocContainerId::TraitId(t) => t,
        _ => {
            proof {
                assert(false);
            }
            TraitDefId(0)
        }
    };
    proof {
        lemma_preds_view(ta.bounds@);
        assert(*ta == db.type_alias_data_spec(TypeAliasId(id.0)));
        assert forall|j: int| 0 <= j < ta.bounds@.len() implies pred_shiftable(
            #[trigger] ta.bounds@[j]@,
            1,
        ) by {
            assert(ta.bounds@[j] == db.type_alias_data_spec(TypeAliasId(id.0)).bounds@[j]);
        }
    }
    let mut bounds: Vec<Binders<InlineBound>> = Vec::new();
    let mut i: usize = 0;
    while i < ta.bounds.len()
        invariant
            bounds@.len() == inline_bounds_of(
                preds_view(ta.bounds@).subrange(0, i as int),
            ).len(),
            forall|j: int|
                0 <= j < bounds@.len() ==> (#[trigger] bounds@[j]).num_binders == 0
                    && bounds@[j].value@ == inline_bounds_of(
                    preds_view(ta.bounds@).subrange(0, i as int),
                )[j],
            i <= ta.bounds@.len(),
        decreases ta.bounds@.len() - i,
    {
        let ghost prefix = preds_view(ta.bounds@).subrange(0, i as int);
        let ghost next_prefix = preds_view(ta.bounds@).subrange(0, i + 1);
        proof {
            lemma_preds_view(ta.bounds@);
            assert(next_prefix.drop_last() =~= prefix);
            assert(next_prefix.last() == ta.bounds@[i as int]@);
        }
        let converted = generic_predicate_to_inline_bound(&ta.bounds[i]);
        match converted {
            Some(b) => {
                proof {
                    let p = ta.bounds@[i as int]@;
                    assert(pred_shiftable(p, 1));
                    let tr = p->Implemented_0;
                    crate::tys::lemma_shiftable_tys(tr.substs, 1);
                    let args = tr.substs.subrange(1, tr.substs.len() as int);
                    assert forall|k: int| 0 <= k < args.len() implies crate::tys::shiftable_ty(
                        #[trigger] args[k],
                        1,
                    ) by {
                        assert(args[k] == tr.substs[k + 1]);
                    }
                    crate::tys::lemma_shiftable_tys(args, 1);
                    assert(b@.args == args);
                }
                let shifted = shift_inline_bound(&b, 1);
                let wrapped = make_binders(shifted, 0);
                bounds.push(wrapped);
                proof {
                    assert(inline_bounds_of(next_prefix) =~= inline_bounds_of(prefix).push(
                        shift_inline_bound_spec(inline_bound_of_pred(next_prefix.last())->Some_0, 1),
                    ));
                }
            }
            None => {
                proof {
                    assert(inline_bounds_of(next_prefix) =~= inline_bounds_of(prefix));
                }
            }
        }
        i = i + 1;
    }
    proof {
        assert(preds_view(ta.bounds@).subrange(0, ta.bounds@.len() as int) =~= preds_view(
            ta.bounds@,
        ));
    }
    let where_clauses = convert_where_clauses(&ta.where_clauses);
    let bound_data = AssociatedTyDatumBound { bounds, where_clauses };
    AssociatedTyDatum {
        trait_id: TraitId(trait_.0),
        id,
        name: type_alias,
        binders: make_binders(bound_data, ta.param_count),
    }
}

/// The bound part of an opaque type datum: the existential bounds, inside
/// the binder for the opaque type's own existential variable.
pub struct OpaqueTyDatumBound {
    pub bounds: Binders<Vec<GenericPredicate>>,
}

/// The solver-facing fact about one opaque type.
pub struct OpaqueTyDatum {
    pub opaque_ty_id: crate::ids::OpaqueTyId,
    pub bound: Binders<OpaqueTyDatumBound>,
}

} // verus!
