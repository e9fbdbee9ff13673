use chalk_bridge::binders::GenericPredicate;
use chalk_bridge::binders::TraitRef;
use chalk_bridge::datums::associated_ty_data_query;
use chalk_bridge::datums::fn_def_datum_query;
use chalk_bridge::db::AssocContainerId;
use chalk_bridge::db::CallableData;
use chalk_bridge::db::CrateData;
use chalk_bridge::db::Database;
use chalk_bridge::db::TraitData;
use chalk_bridge::db::TypeAliasData;
use chalk_bridge::fingerprint::TyFingerprint;
use chalk_bridge::fingerprint::all_float_fps;
use chalk_bridge::fingerprint::all_int_fps;
use chalk_bridge::ids::AdtDefId;
use chalk_bridge::ids::AdtId;
use chalk_bridge::ids::AssocTypeId;
use chalk_bridge::ids::AssocTyValueKey;
use chalk_bridge::ids::AssociatedTyValueId;
use chalk_bridge::ids::BuiltinImplId;
use chalk_bridge::ids::CallableDefId;
use chalk_bridge::ids::CrateId;
use chalk_bridge::ids::FnDefId;
use chalk_bridge::ids::ImplDefId;
use chalk_bridge::ids::ImplId;
use chalk_bridge::ids::ImplKey;
use chalk_bridge::ids::NameId;
use chalk_bridge::ids::OpaqueTyKey;
use chalk_bridge::ids::OpaqueTyId;
use chalk_bridge::ids::TraitDefId;
use chalk_bridge::ids::TraitId;
use chalk_bridge::ids::TypeAliasId;
use chalk_bridge::intern::AssocTyValueInternTable;
use chalk_bridge::intern::ImplInternTable;
use chalk_bridge::intern::OpaqueTyInternTable;
use chalk_bridge::mapping::ToChalk;
use chalk_bridge::mapping::from_chalk;
use chalk_bridge::tys::BoundVar;
use chalk_bridge::tys::IntKind;
use chalk_bridge::tys::Ty;
use chalk_bridge::tys::TypeCtor;
use chalk_bridge::tys::clone_ty;
use chalk_bridge::tys::shift_bound_vars;
use chalk_bridge::well_known::WellKnownTrait;
use chalk_bridge::well_known::lang_attr_from_well_known_trait;
use chalk_bridge::well_known::well_known_trait_from_lang_attr;

fn empty_db() -> Database {
    Database {
        crates: vec![CrateData { deps: vec![] }],
        traits: vec![],
        adts: vec![],
        callables: vec![],
        impls: vec![],
        type_aliases: vec![],
        builtin_impls: vec![],
        lang_items: vec![],
        env_clauses: vec![],
        impl_interns: ImplInternTable::new(),
        assoc_ty_value_interns: AssocTyValueInternTable::new(),
        opaque_ty_interns: OpaqueTyInternTable::new(),
    }
}

#[test]
fn identity_handles_round_trip() {
    let db = empty_db();
    assert_eq!(TraitDefId(5).to_chalk(&db), TraitId(5));
    let t: TraitDefId = from_chalk(&db, TraitId(5));
    assert_eq!(t, TraitDefId(5));
    assert_eq!(AdtDefId(3).to_chalk(&db), AdtId(3));
    let a: AdtDefId = from_chalk(&db, AdtId(3));
    assert_eq!(a, AdtDefId(3));
    assert_eq!(CallableDefId(9).to_chalk(&db), FnDefId(9));
    let c: CallableDefId = from_chalk(&db, FnDefId(9));
    assert_eq!(c, CallableDefId(9));
    assert_eq!(TypeAliasId(2).to_chalk(&db), AssocTypeId(2));
    let ta: TypeAliasId = from_chalk(&db, AssocTypeId(2));
    assert_eq!(ta, TypeAliasId(2));
}

#[test]
fn interned_impl_handles_round_trip() {
    let mut db = empty_db();
    let k0 = ImplKey::ImplDef(ImplDefId(4));
    let k1 = ImplKey::Builtin(BuiltinImplId(0));
    let h0 = db.impl_interns.intern(k0);
    let h1 = db.impl_interns.intern(k1);
    assert_ne!(h0, h1);
    // interning again hands the same handle back
    assert_eq!(db.impl_interns.intern(k0), h0);
    assert_eq!(k0.to_chalk(&db), h0);
    assert_eq!(k1.to_chalk(&db), h1);
    let r0: ImplKey = from_chalk(&db, h0);
    let r1: ImplKey = from_chalk(&db, h1);
    assert_eq!(r0, k0);
    assert_eq!(r1, k1);
}

#[test]
fn interned_assoc_value_and_opaque_handles_round_trip() {
    let mut db = empty_db();
    let ak = AssocTyValueKey::TypeAlias(TypeAliasId(7));
    let ah = db.assoc_ty_value_interns.intern(ak);
    assert_eq!(ah, AssociatedTyValueId(0));
    assert_eq!(ak.to_chalk(&db), ah);
    let ar: AssocTyValueKey = from_chalk(&db, ah);
    assert_eq!(ar, ak);

    let ok = OpaqueTyKey { func: CallableDefId(1), idx: 2 };
    let oh = db.opaque_ty_interns.intern(ok);
    assert_eq!(oh, OpaqueTyId(0));
    assert_eq!(ok.to_chalk(&db), oh);
    let or: OpaqueTyKey = from_chalk(&db, oh);
    assert_eq!(or, ok);
}

#[test]
fn well_known_mapping_is_a_bijection() {
    let all = [
        WellKnownTrait::Sized,
        WellKnownTrait::Copy,
        WellKnownTrait::Clone,
        WellKnownTrait::Drop,
        WellKnownTrait::FnOnce,
        WellKnownTrait::FnMut,
        WellKnownTrait::Fn,
        WellKnownTrait::Unsize,
    ];
    for w in all {
        let name = lang_attr_from_well_known_trait(w).to_string();
        assert_eq!(well_known_trait_from_lang_attr(&name), Some(w));
    }
    assert_eq!(lang_attr_from_well_known_trait(WellKnownTrait::FnOnce), "fn_once");
    assert_eq!(well_known_trait_from_lang_attr(&"send".to_string()), None);
}

#[test]
fn fingerprints_of_heads_and_variables() {
    let int_ty = Ty::Apply(TypeCtor::Int(IntKind::U32), vec![]);
    assert_eq!(
        TyFingerprint::for_impl(&int_ty),
        Some(TyFingerprint(TypeCtor::Int(IntKind::U32)))
    );
    assert_eq!(TyFingerprint::for_impl(&Ty::Bound(BoundVar { debruijn: 0, index: 0 })), None);
    assert_eq!(TyFingerprint::for_impl(&Ty::Unknown), None);
    let ints = all_int_fps();
    assert_eq!(ints.len(), 12);
    assert!(ints.contains(&TyFingerprint(TypeCtor::Int(IntKind::U32))));
    assert_eq!(all_float_fps().len(), 2);
}

#[test]
fn shift_moves_a_reference_one_binder_out() {
    let shifted = shift_bound_vars(&Ty::Bound(BoundVar { debruijn: 0, index: 3 }), 1);
    match shifted {
        Ty::Bound(bv) => assert_eq!(bv, BoundVar { debruijn: 1, index: 3 }),
        _ => panic!("shifting a variable keeps it a variable"),
    }
    let nested = Ty::Apply(
        TypeCtor::Slice,
        vec![Ty::Bound(BoundVar { debruijn: 2, index: 0 })],
    );
    match shift_bound_vars(&nested, 2) {
        Ty::Apply(TypeCtor::Slice, args) => match &args[0] {
            Ty::Bound(bv) => assert_eq!(*bv, BoundVar { debruijn: 4, index: 0 }),
            _ => panic!("shifting recurses into arguments"),
        },
        _ => panic!("shifting keeps the head constructor"),
    }
}

#[test]
fn clone_preserves_structure() {
    let t = Ty::Apply(
        TypeCtor::Ref(chalk_bridge::tys::Mutability::Shared),
        vec![Ty::Apply(TypeCtor::Adt(AdtDefId(1)), vec![Ty::Unknown])],
    );
    match clone_ty(&t) {
        Ty::Apply(TypeCtor::Ref(_), args) => match &args[0] {
            Ty::Apply(TypeCtor::Adt(a), inner) => {
                assert_eq!(*a, AdtDefId(1));
                assert!(matches!(inner[0], Ty::Unknown));
            }
            _ => panic!("clone keeps nested structure"),
        },
        _ => panic!("clone keeps the head"),
    }
}

/// A trait `Trait<T>` declares `Assoc: SomeBound<T>`. In the trait's own
/// binder the stored bound is `SomeBound<Self@0, T@1>` at depth 0; once the
/// bound is wrapped in the associated type's binder, the lowered inline
/// bound must reference `T` at depth 1, not depth 0.
#[test]
fn associated_type_bound_is_shifted_one_level() {
    let mut db = empty_db();
    db.traits = vec![
        TraitData {
            krate: CrateId(0),
            auto: false,
            param_count: 2,
            assoc_types: vec![TypeAliasId(0)],
            where_clauses: vec![],
            lang_attr: None,
        },
        TraitData {
            krate: CrateId(0),
            auto: false,
            param_count: 2,
            assoc_types: vec![],
            where_clauses: vec![],
            lang_attr: None,
        },
    ];
    db.type_aliases = vec![TypeAliasData {
        name: NameId(0),
        container: AssocContainerId::TraitId(TraitDefId(0)),
        param_count: 2,
        bounds: vec![GenericPredicate::Implemented(TraitRef {
            trait_id: TraitDefId(1),
            substs: vec![
                Ty::Bound(BoundVar { debruijn: 0, index: 0 }),
                Ty::Bound(BoundVar { debruijn: 0, index: 1 }),
            ],
        })],
        where_clauses: vec![],
        value: Ty::Unknown,
        value_num_binders: 0,
    }];
    let datum = associated_ty_data_query(&db, AssocTypeId(0));
    assert_eq!(datum.trait_id, TraitId(0));
    assert_eq!(datum.id, AssocTypeId(0));
    assert_eq!(datum.binders.num_binders, 2);
    assert_eq!(datum.binders.value.bounds.len(), 1);
    let bound = &datum.binders.value.bounds[0];
    assert_eq!(bound.num_binders, 0);
    assert_eq!(bound.value.trait_id, TraitDefId(1));
    assert_eq!(bound.value.args.len(), 1);
    match &bound.value.args[0] {
        Ty::Bound(bv) => {
            assert_eq!(*bv, BoundVar { debruijn: 1, index: 1 });
        }
        _ => panic!("the bound's argument is the trait's own parameter"),
    }
}

/// A bound whose self position is not the associated type itself has no
/// inline form and is dropped from the declaration datum.
#[test]
fn non_self_bound_has_no_inline_form() {
    let mut db = empty_db();
    db.traits = vec![TraitData {
        krate: CrateId(0),
        auto: false,
        param_count: 1,
        assoc_types: vec![TypeAliasId(0)],
        where_clauses: vec![],
        lang_attr: None,
    }];
    db.type_aliases = vec![TypeAliasData {
        name: NameId(0),
        container: AssocContainerId::TraitId(TraitDefId(0)),
        param_count: 1,
        bounds: vec![
            GenericPredicate::Error,
            GenericPredicate::Implemented(TraitRef {
                trait_id: TraitDefId(0),
                substs: vec![Ty::Bound(BoundVar { debruijn: 0, index: 1 })],
            }),
        ],
        where_clauses: vec![],
        value: Ty::Unknown,
        value_num_binders: 0,
    }];
    let datum = associated_ty_data_query(&db, AssocTypeId(0));
    assert!(datum.binders.value.bounds.is_empty());
}

#[test]
fn fn_def_datum_shifts_signature_into_its_binder() {
    let mut db = empty_db();
    db.callables = vec![CallableData {
        param_count: 1,
        params: vec![Ty::Bound(BoundVar { debruijn: 0, index: 0 })],
        ret: Ty::Bound(BoundVar { debruijn: 0, index: 0 }),
        where_clauses: vec![GenericPredicate::Error],
        impl_traits: None,
    }];
    let datum = fn_def_datum_query(&db, CrateId(0), FnDefId(0));
    assert_eq!(datum.id, FnDefId(0));
    assert_eq!(datum.binders.num_binders, 1);
    assert!(datum.binders.value.where_clauses.is_empty());
    assert_eq!(datum.binders.value.inputs_and_output.num_binders, 0);
    let io = &datum.binders.value.inputs_and_output.value;
    assert_eq!(io.argument_types.len(), 1);
    match &io.argument_types[0] {
        Ty::Bound(bv) => assert_eq!(*bv, BoundVar { debruijn: 1, index: 0 }),
        _ => panic!("arguments are shifted into the signature binder"),
    }
    match &io.return_type {
        Ty::Bound(bv) => assert_eq!(*bv, BoundVar { debruijn: 1, index: 0 }),
        _ => panic!("the return type is shifted into the signature binder"),
    }
}
