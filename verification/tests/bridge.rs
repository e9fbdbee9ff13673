use chalk_bridge::binders::GenericPredicate;
use chalk_bridge::binders::TraitRef;
use chalk_bridge::context::ChalkContext;
use chalk_bridge::db::AdtData;
use chalk_bridge::db::BuiltinAssocTyValueData;
use chalk_bridge::db::BuiltinImplData;
use chalk_bridge::db::AssocContainerId;
use chalk_bridge::db::AssocItemId;
use chalk_bridge::db::CallableData;
use chalk_bridge::db::CrateData;
use chalk_bridge::db::Database;
use chalk_bridge::db::Environment;
use chalk_bridge::db::ImplData;
use chalk_bridge::db::LangItemEntry;
use chalk_bridge::db::LangItemTarget;
use chalk_bridge::db::ProgramClause;
use chalk_bridge::db::ReturnTypeImplTrait;
use chalk_bridge::db::ReturnTypeImplTraits;
use chalk_bridge::db::TraitData;
use chalk_bridge::db::TypeAliasData;
use chalk_bridge::datums::ImplType;
use chalk_bridge::datums::Polarity;
use chalk_bridge::ids::AdtDefId;
use chalk_bridge::ids::AdtId;
use chalk_bridge::ids::AssocTypeId;
use chalk_bridge::ids::AssociatedTyValueId;
use chalk_bridge::ids::AssocTyValueKey;
use chalk_bridge::ids::BuiltinImplId;
use chalk_bridge::ids::CallableDefId;
use chalk_bridge::ids::CrateId;
use chalk_bridge::ids::ImplDefId;
use chalk_bridge::ids::ImplId;
use chalk_bridge::ids::ImplKey;
use chalk_bridge::fingerprint::TyFingerprint;
use chalk_bridge::ids::NameId;
use chalk_bridge::ids::OpaqueTyId;
use chalk_bridge::ids::OpaqueTyKey;
use chalk_bridge::ids::TraitDefId;
use chalk_bridge::ids::TraitId;
use chalk_bridge::ids::TypeAliasId;
use chalk_bridge::intern::AssocTyValueInternTable;
use chalk_bridge::intern::ImplInternTable;
use chalk_bridge::intern::OpaqueTyInternTable;
use chalk_bridge::lookup::TyVariableKind;
use chalk_bridge::lookup::VariableKind;
use chalk_bridge::lookup::impls_for_trait;
use chalk_bridge::tys::BoundVar;
use chalk_bridge::tys::Ty;
use chalk_bridge::tys::TypeCtor;
use chalk_bridge::well_known::WellKnownTrait;

fn point() -> Ty {
    Ty::Apply(TypeCtor::Adt(AdtDefId(0)), vec![])
}

fn vec3() -> Ty {
    Ty::Apply(TypeCtor::Adt(AdtDefId(1)), vec![])
}

fn empty_db() -> Database {
    Database {
        crates: vec![],
        traits: vec![],
        adts: vec![],
        callables: vec![],
        impls: vec![],
        type_aliases: vec![],
        builtin_impls: vec![],
        lang_items: vec![],
        env_clauses: vec![],
        impl_interns: ImplInternTable::new(),
        assoc_ty_value_interns: AssocTyValueInternTable::new(),
        opaque_ty_interns: OpaqueTyInternTable::new(),
    }
}

/// Crate 0 is a dependency of crate 1. One trait (0) lives in crate 0.
/// ADT 0 (a point type) lives in crate 1; ADT 1 (a vector type) lives in
/// crate 0. Impl 0 implements the trait for the point type in crate 1,
/// impl 1 for the vector type in crate 0, impl 2 never resolved its trait
/// reference and is not interned.
fn fixture() -> Database {
    let mut db = empty_db();
    db.crates = vec![CrateData { deps: vec![] }, CrateData { deps: vec![CrateId(0)] }];
    db.traits = vec![TraitData {
        krate: CrateId(0),
        auto: false,
        param_count: 1,
        assoc_types: vec![],
        where_clauses: vec![
            GenericPredicate::Implemented(TraitRef {
                trait_id: TraitDefId(0),
                substs: vec![Ty::Bound(BoundVar { debruijn: 0, index: 0 })],
            }),
            GenericPredicate::Error,
        ],
        lang_attr: Some("copy".to_string()),
    }];
    db.adts = vec![
        AdtData { krate: CrateId(1), param_count: 0, where_clauses: vec![] },
        AdtData { krate: CrateId(0), param_count: 0, where_clauses: vec![] },
    ];
    db.impls = vec![
        ImplData {
            krate: CrateId(1),
            param_count: 0,
            trait_ref: Some(TraitRef { trait_id: TraitDefId(0), substs: vec![point()] }),
            negative: false,
            items: vec![],
            self_ty: point(),
            where_clauses: vec![],
        },
        ImplData {
            krate: CrateId(0),
            param_count: 0,
            trait_ref: Some(TraitRef { trait_id: TraitDefId(0), substs: vec![vec3()] }),
            negative: false,
            items: vec![],
            self_ty: vec3(),
            where_clauses: vec![],
        },
        ImplData {
            krate: CrateId(1),
            param_count: 0,
            trait_ref: None,
            negative: false,
            items: vec![],
            self_ty: point(),
            where_clauses: vec![],
        },
    ];
    db.impl_interns.intern(ImplKey::ImplDef(ImplDefId(0)));
    db.impl_interns.intern(ImplKey::ImplDef(ImplDefId(1)));
    db.lang_items = vec![LangItemEntry {
        krate: CrateId(0),
        name: "copy".to_string(),
        target: LangItemTarget::TraitId(TraitDefId(0)),
    }];
    db.env_clauses = vec![vec![ProgramClause(7), ProgramClause(9)]];
    db
}

#[test]
fn lookup_with_fingerprint_returns_only_matching_impl() {
    let db = fixture();
    let params = vec![point()];
    let binders: Vec<VariableKind> = vec![];
    let r = impls_for_trait(&db, CrateId(1), TraitId(0), &params, &binders);
    assert_eq!(r, vec![ImplId(0)]);
}

#[test]
fn lookup_without_fingerprint_returns_all_impls() {
    let db = fixture();
    let params = vec![Ty::Bound(BoundVar { debruijn: 0, index: 0 })];
    let binders = vec![VariableKind::Ty(TyVariableKind::General)];
    let r = impls_for_trait(&db, CrateId(1), TraitId(0), &params, &binders);
    assert_eq!(r, vec![ImplId(1), ImplId(0)]);
}

#[test]
fn pruned_result_is_the_fingerprint_compatible_part_of_the_unrestricted_one() {
    let db = fixture();
    let binders: Vec<VariableKind> = vec![];
    let var_binders = vec![VariableKind::Ty(TyVariableKind::General)];
    let pruned_params = vec![point()];
    let var_params = vec![Ty::Bound(BoundVar { debruijn: 0, index: 0 })];
    let pruned = impls_for_trait(&db, CrateId(1), TraitId(0), &pruned_params, &binders);
    let unrestricted = impls_for_trait(&db, CrateId(1), TraitId(0), &var_params, &var_binders);
    for h in &pruned {
        assert!(unrestricted.contains(h));
    }
    for h in &unrestricted {
        let matches_query_head = match &db.impls[match db.impl_interns.from_handle(*h) {
            ImplKey::ImplDef(i) => i.0 as usize,
            ImplKey::Builtin(_) => panic!("no builtin impls in this fixture"),
        }]
        .self_ty
        {
            Ty::Apply(ctor, _) => *ctor == TypeCtor::Adt(AdtDefId(0)),
            _ => false,
        };
        assert_eq!(pruned.contains(h), matches_query_head);
    }
}

#[test]
fn unresolved_impl_never_appears_in_lookup_results() {
    let db = fixture();
    let var_params = vec![Ty::Bound(BoundVar { debruijn: 0, index: 0 })];
    let var_binders = vec![VariableKind::Ty(TyVariableKind::General)];
    let r = impls_for_trait(&db, CrateId(1), TraitId(0), &var_params, &var_binders);
    for h in &r {
        match db.impl_interns.from_handle(*h) {
            ImplKey::ImplDef(i) => {
                assert!(db.impls[i.0 as usize].trait_ref.is_some());
                assert_ne!(i, ImplDefId(2));
            }
            ImplKey::Builtin(_) => panic!("no builtin impls in this fixture"),
        }
    }
}

#[test]
fn trait_datum_upstream_classification() {
    let db = fixture();
    let at_home = ChalkContext { db: &db, krate: CrateId(0) }.trait_datum(TraitId(0));
    assert!(!at_home.flags.upstream);
    let from_dependent = ChalkContext { db: &db, krate: CrateId(1) }.trait_datum(TraitId(0));
    assert!(from_dependent.flags.upstream);
}

#[test]
fn trait_datum_binder_count_and_flags() {
    let db = fixture();
    let d = ChalkContext { db: &db, krate: CrateId(0) }.trait_datum(TraitId(0));
    assert_eq!(d.id, TraitId(0));
    assert_eq!(d.binders.num_binders, 1);
    assert!(!d.flags.auto);
    assert!(d.flags.non_enumerable);
    assert!(!d.flags.coinductive);
    assert!(!d.flags.marker);
    assert!(!d.flags.fundamental);
    assert_eq!(d.well_known, Some(WellKnownTrait::Copy));
    // the unresolved where-clause was dropped
    assert_eq!(d.binders.value.where_clauses.len(), 1);
}

#[test]
fn adt_datum_upstream_classification() {
    let db = fixture();
    let ctx0 = ChalkContext { db: &db, krate: CrateId(0) };
    let ctx1 = ChalkContext { db: &db, krate: CrateId(1) };
    // ADT 0 lives in crate 1
    assert!(ctx0.adt_datum(AdtId(0)).flags.upstream);
    assert!(!ctx1.adt_datum(AdtId(0)).flags.upstream);
    assert_eq!(ctx1.adt_datum(AdtId(0)).binders.value.variants.len(), 1);
    assert!(ctx1.adt_datum(AdtId(0)).binders.value.variants[0].fields.is_empty());
}

#[test]
fn impl_datum_local_external_classification() {
    let db = fixture();
    let ctx0 = ChalkContext { db: &db, krate: CrateId(0) };
    let ctx1 = ChalkContext { db: &db, krate: CrateId(1) };
    // impl 0 lives in crate 1
    assert_eq!(ctx1.impl_datum(ImplId(0)).impl_type, ImplType::Local);
    assert_eq!(ctx0.impl_datum(ImplId(0)).impl_type, ImplType::External);
    assert_eq!(ctx1.impl_datum(ImplId(0)).polarity, Polarity::Positive);
    assert_eq!(ctx1.impl_datum(ImplId(0)).binders.num_binders, 0);
}

#[test]
fn well_known_trait_id_resolves_through_lang_items() {
    let db = fixture();
    let ctx0 = ChalkContext { db: &db, krate: CrateId(0) };
    let ctx1 = ChalkContext { db: &db, krate: CrateId(1) };
    assert_eq!(ctx0.well_known_trait_id(WellKnownTrait::Copy), Some(TraitId(0)));
    assert_eq!(ctx0.well_known_trait_id(WellKnownTrait::Sized), None);
    // crate 1 has no lang items registered
    assert_eq!(ctx1.well_known_trait_id(WellKnownTrait::Copy), None);
}

#[test]
fn environment_clauses_are_forwarded() {
    let db = fixture();
    let ctx = ChalkContext { db: &db, krate: CrateId(0) };
    assert_eq!(
        ctx.program_clauses_for_env(Environment(0)),
        vec![ProgramClause(7), ProgramClause(9)]
    );
    assert!(ctx.custom_clauses().is_empty());
}

#[test]
fn conservative_defaults() {
    let db = fixture();
    let ctx = ChalkContext { db: &db, krate: CrateId(0) };
    assert!(!ctx.impl_provided_for(TraitId(0), AdtId(0)));
    assert!(ctx.is_object_safe(TraitId(0)));
    assert_eq!(
        ctx.force_impl_for(WellKnownTrait::Copy, &point()),
        None
    );
    match ctx.hidden_opaque_type(OpaqueTyId(0)) {
        Ty::Unknown => {}
        _ => panic!("the hidden type behind an opaque type must stay unknown"),
    }
}

/// A function `make` with one return-position existential whose stored
/// bounds hold one resolved trait bound and one error placeholder: the
/// opaque type datum keeps exactly the resolved bound, wrapped in one
/// existential binder.
#[test]
fn opaque_type_datum_scenario() {
    let mut db = fixture();
    db.callables = vec![CallableData {
        param_count: 0,
        params: vec![],
        ret: Ty::Unknown,
        where_clauses: vec![],
        impl_traits: Some(ReturnTypeImplTraits {
            num_binders: 0,
            impl_traits: vec![ReturnTypeImplTrait {
                bounds: vec![
                    GenericPredicate::Implemented(TraitRef {
                        trait_id: TraitDefId(0),
                        substs: vec![Ty::Bound(BoundVar { debruijn: 0, index: 0 })],
                    }),
                    GenericPredicate::Error,
                ],
            }],
        }),
    }];
    db.opaque_ty_interns.intern(OpaqueTyKey { func: CallableDefId(0), idx: 0 });
    let ctx = ChalkContext { db: &db, krate: CrateId(0) };
    let datum = ctx.opaque_ty_data(OpaqueTyId(0));
    assert_eq!(datum.opaque_ty_id, OpaqueTyId(0));
    assert_eq!(datum.bound.num_binders, 0);
    assert_eq!(datum.bound.value.bounds.num_binders, 1);
    let kept = &datum.bound.value.bounds.value;
    assert_eq!(kept.len(), 1);
    match &kept[0] {
        GenericPredicate::Implemented(tr) => assert_eq!(tr.trait_id, TraitDefId(0)),
        GenericPredicate::Error => panic!("the error placeholder must be dropped"),
    }
}

/// An impl provides an associated type value under the name the trait
/// declares: the value datum points back at the impl's handle and at the
/// trait's declaration.
#[test]
fn associated_type_value_scenario() {
    let mut db = fixture();
    // declaration (alias 0) in the trait, value (alias 1) in impl 0
    db.type_aliases = vec![
        TypeAliasData {
            name: NameId(42),
            container: AssocContainerId::TraitId(TraitDefId(0)),
            param_count: 1,
            bounds: vec![],
            where_clauses: vec![],
            value: Ty::Unknown,
            value_num_binders: 0,
        },
        TypeAliasData {
            name: NameId(42),
            container: AssocContainerId::ImplId(ImplDefId(0)),
            param_count: 0,
            bounds: vec![],
            where_clauses: vec![],
            value: vec3(),
            value_num_binders: 0,
        },
    ];
    db.traits[0].assoc_types = vec![TypeAliasId(0)];
    db.impls[0].items = vec![AssocItemId::TypeAliasId(TypeAliasId(1))];
    db.assoc_ty_value_interns.intern(AssocTyValueKey::TypeAlias(TypeAliasId(1)));
    let ctx = ChalkContext { db: &db, krate: CrateId(1) };

    let impl_datum = ctx.impl_datum(ImplId(0));
    assert_eq!(impl_datum.associated_ty_value_ids, vec![AssociatedTyValueId(0)]);

    let value = ctx.associated_ty_value(AssociatedTyValueId(0));
    assert_eq!(value.impl_id, ImplId(0));
    assert_eq!(value.associated_ty_id, AssocTypeId(0));
    assert_eq!(value.value.num_binders, 0);
    match &value.value.value.ty {
        Ty::Apply(TypeCtor::Adt(a), _) => assert_eq!(*a, AdtDefId(1)),
        _ => panic!("the stored concrete type must be returned"),
    }
}

/// An impl item whose name has no counterpart on the trait is silently
/// dropped from the impl datum.
#[test]
fn impl_item_without_trait_declaration_is_dropped() {
    let mut db = fixture();
    db.type_aliases = vec![TypeAliasData {
        name: NameId(13),
        container: AssocContainerId::ImplId(ImplDefId(0)),
        param_count: 0,
        bounds: vec![],
        where_clauses: vec![],
        value: vec3(),
        value_num_binders: 0,
    }];
    db.impls[0].items = vec![AssocItemId::TypeAliasId(TypeAliasId(0))];
    let ctx = ChalkContext { db: &db, krate: CrateId(1) };
    let impl_datum = ctx.impl_datum(ImplId(0));
    assert!(impl_datum.associated_ty_value_ids.is_empty());
}

/// A built-in impl that structurally matches (self type, trait) is
/// synthesized on demand and appended after the stored impls, and its
/// datum and associated type value are served like any other impl's.
#[test]
fn builtin_impl_is_injected_and_served() {
    let mut db = fixture();
    db.builtin_impls = vec![BuiltinImplData {
        krate: CrateId(0),
        trait_ref: TraitRef { trait_id: TraitDefId(0), substs: vec![point()] },
        param_count: 0,
        self_fp: TyFingerprint(TypeCtor::Adt(AdtDefId(0))),
        arg_fp: None,
        assoc_value: Some(BuiltinAssocTyValueData {
            assoc_ty_id: TypeAliasId(0),
            value: vec3(),
            num_binders: 0,
        }),
    }];
    let bh = db.impl_interns.intern(ImplKey::Builtin(BuiltinImplId(0)));
    let ah = db.assoc_ty_value_interns.intern(AssocTyValueKey::Builtin(BuiltinImplId(0)));
    let params = vec![point()];
    let binders: Vec<VariableKind> = vec![];
    let r = impls_for_trait(&db, CrateId(1), TraitId(0), &params, &binders);
    assert_eq!(r, vec![ImplId(0), bh]);

    let ctx = ChalkContext { db: &db, krate: CrateId(0) };
    let d = ctx.impl_datum(bh);
    assert_eq!(d.impl_type, ImplType::Local);
    assert_eq!(d.polarity, Polarity::Positive);
    assert_eq!(d.associated_ty_value_ids, vec![ah]);
    let v = ctx.associated_ty_value(ah);
    assert_eq!(v.impl_id, bh);
    assert_eq!(v.associated_ty_id, AssocTypeId(0));

    // a built-in impl for a different head does not match
    let other = vec![vec3()];
    let r2 = impls_for_trait(&db, CrateId(0), TraitId(0), &other, &binders);
    assert_eq!(r2, vec![ImplId(1)]);
}
