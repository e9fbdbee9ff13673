//! The per-query environment context: "which crate is asking" bundled with
//! the database, exposing the solver-facing surface — one operation per
//! datum kind, impl lookup, the well-known-trait handle lookup, and the
//! ambient-environment clause set. Operations the adapter does not model
//! answer with an explicit conservative default ("no information"), never
//! with a guessed value.

use vstd::prelude::*;

use crate::binders::make_binders;
use crate::binders::convert_where_clauses;
use crate::binders::drop_errors;
use crate::binders::preds_view;
use crate::datums::AssociatedTyDatum;
use crate::datums::AssociatedTyValue;
use crate::datums::FnDefDatum;
use crate::datums::ImplDatum;
use crate::datums::OpaqueTyDatum;
use crate::datums::OpaqueTyDatumBound;
use crate::datums::StructDatum;
use crate::datums::TraitDatum;
use crate::datums::associated_ty_datum_matches;
use crate::datums::associated_ty_data_query;
use crate::datums::associated_ty_value_query;
use crate::datums::assoc_ty_value_builtin_matches;
use crate::datums::assoc_ty_value_def_matches;
use crate::datums::fn_def_datum_matches;
use crate::datums::fn_def_datum_query;
use crate::datums::impl_datum_builtin_matches;
use crate::datums::impl_datum_def_matches;
use crate::datums::impl_datum_query;
use crate::datums::struct_datum_matches;
use crate::datums::struct_datum_query;
use crate::datums::trait_datum_matches;
use crate::datums::trait_datum_query;
use crate::db::Database;
use crate::db::Environment;
use crate::db::LangItemTarget;
use crate::db::ProgramClause;
use crate::ids::AdtId;
use crate::ids::AssocTypeId;
use crate::ids::AssocTyValueKey;
use crate::ids::AssociatedTyValueId;
use crate::ids::CrateId;
use crate::ids::FnDefId;
use crate::ids::ImplId;
use crate::ids::ImplKey;
use crate::ids::OpaqueTyId;
use crate::ids::OpaqueTyKey;
use crate::ids::TraitDefId;
use crate::ids::TraitId;
use crate::ids::TypeAliasId;
use crate::lookup::VariableKind;
use crate::lookup::impls_for_trait_spec;
use crate::mapping::ToChalk;
use crate::mapping::from_chalk;
use crate::tys::Ty;
use crate::tys::TyS;
use crate::tys::shiftable_ty;
use crate::tys::shiftable_tys;
use crate::tys::tys_view;
use crate::well_known::WellKnownTrait;
use crate::well_known::lang_attr_from_well_known_trait;
use crate::well_known::lang_attr_of_well_known;

verus! {

/// What the opaque type datum behind a solver handle must hold: the
/// record's existential bounds with unresolved entries dropped, wrapped in
/// exactly one binder for the opaque type's own existential variable,
/// itself wrapped in the owning function's binder.
pub open spec fn opaque_ty_datum_matches(db: &Database, id: OpaqueTyId, r: OpaqueTyDatum) -> bool {
    let k = db.opaque_ty_interns.keys@[id.0 as int];
    let rits = db.callable_data_spec(k.func).impl_traits->Some_0;
    let rit = rits.impl_traits@[k.idx as int];
    &&& r.opaque_ty_id == id
    &&& r.bound.num_binders == rits.num_binders
    &&& r.bound.value.bounds.num_binders == 1
    &&& preds_view(r.bound.value.bounds.value@) == drop_errors(preds_view(rit.bounds@))
}

/// The ambient-environment clause set: computed by the external substrate
/// and forwarded here, per environment.
pub fn program_clauses_for_chalk_env_query(
    db: &Database,
    _krate: CrateId,
    environment: Environment,
) -> (r: Vec<ProgramClause>)
    requires
        environment.0 < db.env_clauses@.len(),
    ensures
        r@ == db.env_clauses@[environment.0 as int]@,
{
    let stored = &db.env_clauses[environment.0];
    let mut out: Vec<ProgramClause> = Vec::new();
    let mut i: usize = 0;
    while i < stored.len()
        invariant
            stored == &db.env_clauses@[environment.0 as int],
            environment.0 < db.env_clauses@.len(),
            i <= stored@.len(),
            out@ == stored@.subrange(0, i as int),
        decreases stored@.len() - i,
    {
        out.push(stored[i]);
        proof {
            assert(out@ =~= stored@.subrange(0, i + 1));
        }
        i = i + 1;
    }
    proof {
        assert(stored@.subrange(0, stored@.len() as int) =~= stored@);
    }
    out
}

/// The solver's view of the program, for one requesting crate.
pub struct ChalkContext<'a> {
    pub db: &'a Database,
    pub krate: CrateId,
}

impl<'a> ChalkContext<'a> {
    /// The associated type declaration datum behind a handle.
    pub fn associated_ty_data(&self, id: AssocTypeId) -> (r: AssociatedTyDatum)
        requires
            self.db.wf(),
            self.db.valid_type_alias(TypeAliasId(id.0)),
            self.db.type_alias_data_spec(TypeAliasId(id.0)).container is TraitId,
            forall|j: int|
                0 <= j < self.db.type_alias_data_spec(TypeAliasId(id.0)).bounds@.len()
                    ==> crate::binders::pred_shiftable(
                    (#[trigger] self.db.type_alias_data_spec(TypeAliasId(id.0)).bounds@[j])@,
                    1,
                ),
        ensures
            associated_ty_datum_matches(self.db, id, r),
    {
        associated_ty_data_query(self.db, id)
    }

    /// The trait datum behind a handle, as seen from the asking crate.
    pub fn trait_datum(&self, trait_id: TraitId) -> (r: TraitDatum)
        requires
            self.db.wf(),
            self.db.valid_trait(TraitDefId(trait_id.0)),
        ensures
            trait_datum_matches(self.db, self.krate, trait_id, r),
    {
        trait_datum_query(self.db, self.krate, trait_id)
    }

    /// The ADT datum behind a handle, as seen from the asking crate.
    pub fn adt_datum(&self, struct_id: AdtId) -> (r: StructDatum)
        requires
            self.db.wf(),
            self.db.valid_adt(crate::ids::AdtDefId(struct_id.0)),
        ensures
            struct_datum_matches(self.db, self.krate, struct_id, r),
    {
        struct_datum_query(self.db, self.krate, struct_id)
    }

    /// The impl datum behind a handle, as seen from the asking crate.
    pub fn impl_datum(&self, impl_id: ImplId) -> (r: ImplDatum)
        requires
            self.db.wf(),
            impl_id.0 < self.db.impl_interns.keys@.len(),
        ensures
            ({
                let k = self.db.impl_interns.keys@[impl_id.0 as int];
                match k {
                    ImplKey::ImplDef(i) => impl_datum_def_matches(self.db, self.krate, i, r),
                    ImplKey::Builtin(b) => impl_datum_builtin_matches(self.db, self.krate, b, r),
                }
            }),
    {
        impl_datum_query(self.db, self.krate, impl_id)
    }

    /// The function definition datum behind a handle.
    pub fn fn_def_datum(&self, fn_def_id: FnDefId) -> (r: FnDefDatum)
        requires
            self.db.wf(),
            self.db.valid_callable(crate::ids::CallableDefId(fn_def_id.0)),
            shiftable_tys(
                tys_view(
                    self.db.callable_data_spec(crate::ids::CallableDefId(fn_def_id.0)).params@,
                ),
                1,
            ),
            shiftable_ty(
                self.db.callable_data_spec(crate::ids::CallableDefId(fn_def_id.0)).ret@,
                1,
            ),
        ensures
            fn_def_datum_matches(self.db, fn_def_id, r),
    {
        fn_def_datum_query(self.db, self.krate, fn_def_id)
    }

    /// The candidate impls for a trait applied to a self type.
    pub fn impls_for_trait(
        &self,
        trait_id: TraitId,
        parameters: &Vec<Ty>,
        binders: &Vec<VariableKind>,
    ) -> (result: Vec<ImplId>)
        requires
            self.db.wf(),
            self.krate.0 < self.db.crates@.len(),
            parameters@.len() >= 1,
            parameters@[0]@ matches TyS::Bound(bv) ==> (bv.debruijn == 0 ==> bv.index
                < binders@.len()),
        ensures
            result@ == impls_for_trait_spec(
                self.db,
                self.krate,
                TraitDefId(trait_id.0),
                parameters@[0]@,
                if parameters@.len() > 1 {
                    Some(parameters@[1]@)
                } else {
                    None
                },
                binders@,
            ),
            forall|k: int|
                0 <= k < result@.len() ==> (#[trigger] result@[k]).0
                    < self.db.impl_interns.keys@.len(),
    {
        crate::lookup::impls_for_trait(self.db, self.krate, trait_id, parameters, binders)
    }

    /// Auto-trait impl analysis is not modeled: conservatively, no impl is
    /// reported as provided.
    pub fn impl_provided_for(&self, _auto_trait_id: TraitId, _struct_id: AdtId) -> (r: bool)
        ensures
            r == false,
    {
        false
    }

    /// The associated type value datum behind a handle.
    pub fn associated_ty_value(&self, id: AssociatedTyValueId) -> (r: AssociatedTyValue)
        requires
            self.db.wf(),
            id.0 < self.db.assoc_ty_value_interns.keys@.len(),
        ensures
            ({
                let k = self.db.assoc_ty_value_interns.keys@[id.0 as int];
                match k {
                    AssocTyValueKey::TypeAlias(a) => assoc_ty_value_def_matches(self.db, a, r),
                    AssocTyValueKey::Builtin(b) => assoc_ty_value_builtin_matches(self.db, b, r),
                }
            }),
    {
        associated_ty_value_query(self.db, self.krate, id)
    }

    /// No custom solver clauses are supplied.
    pub fn custom_clauses(&self) -> (r: Vec<ProgramClause>)
        ensures
            r@.len() == 0,
    {
        Vec::new()
    }

    /// The trait handle of a well-known trait, if the asking crate's
    /// lang-item registry defines the matching marker attribute; `None`
    /// (no information) otherwise.
    pub fn well_known_trait_id(&self, well_known_trait: WellKnownTrait) -> (r: Option<TraitId>)
        requires
            self.db.wf(),
        ensures
            r == (match self.db.lang_item_spec(
                self.krate,
                lang_attr_of_well_known(well_known_trait),
            ) {
                Some(LangItemTarget::TraitId(t)) => Some(TraitId(t.0)),
                _ => None,
            }),
    {
        let lang_attr = lang_attr_from_well_known_trait(well_known_trait);
        let name: String = lang_attr.to_owned();
        let trait_ = match self.db.lang_item(self.krate, &name) {
            Some(LangItemTarget::TraitId(t)) => t,
            _ => {
                return None;
            }
        };
        Some(trait_.to_chalk(self.db))
    }

    /// The ambient-environment clause set for an environment.
    pub fn program_clauses_for_env(&self, environment: Environment) -> (r: Vec<ProgramClause>)
        requires
            environment.0 < self.db.env_clauses@.len(),
        ensures
            r@ == self.db.env_clauses@[environment.0 as int]@,
    {
        program_clauses_for_chalk_env_query(self.db, self.krate, environment)
    }

    /// The opaque type datum behind a handle: the stored return-position
    /// existential's bounds, unresolved entries dropped, wrapped in one
    /// binder for the existential variable itself.
    pub fn opaque_ty_data(&self, id: OpaqueTyId) -> (r: OpaqueTyDatum)
        requires
            self.db.wf(),
            id.0 < self.db.opaque_ty_interns.keys@.len(),
        ensures
            opaque_ty_datum_matches(self.db, id, r),
    {
        let interned_key: OpaqueTyKey = from_chalk(self.db, id);
        proof {
            assert(self.db.valid_opaque_ty_key(self.db.opaque_ty_interns.keys@[id.0 as int]));
        }
        let func = interned_key.func;
        let idx = interned_key.idx;
        let c = &self.db.callables[func.0 as usize];
        match &c.impl_traits {
            Some(datas) => {
                let data = &datas.impl_traits[idx];
                let filtered = convert_where_clauses(&data.bounds);
                let bound = OpaqueTyDatumBound { bounds: make_binders(filtered, 1) };
                OpaqueTyDatum { opaque_ty_id: id, bound: make_binders(bound, datas.num_binders) }
            }
            None => {
                proof {
                    assert(false);
                }
                let bound = OpaqueTyDatumBound { bounds: make_binders(Vec::new(), 1) };
                OpaqueTyDatum { opaque_ty_id: id, bound: make_binders(bound, 0) }
            }
        }
    }

    /// The hidden concrete type behind an opaque type is deliberately not
    /// exposed: callers must treat it as unknown.
    pub fn hidden_opaque_type(&self, _id: OpaqueTyId) -> (r: Ty)
        ensures
            r@ == TyS::Unknown,
    {
        Ty::Unknown
    }

    /// No impl is ever forced for a well-known trait: no information.
    pub fn force_impl_for(&self, _well_known: WellKnownTrait, _ty: &Ty) -> (r: Option<bool>)
        ensures
            r is None,
    {
        None
    }

    /// Object safety is not analyzed; the conservative default the solver
    /// expects is to assume every trait object-safe.
    pub fn is_object_safe(&self, _trait_id: TraitId) -> (r: bool)
        ensures
            r == true,
    {
        true
    }
}

} // verus!
