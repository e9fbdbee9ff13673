//! Impl lookup with fingerprint pruning and built-in-impl injection.
//!
//! Given a trait and a partially-instantiated self type, the candidate impl
//! set is collected from the transitive dependencies' impls and the local
//! crate's impls, pruned by a cheap structural fingerprint of the self
//! type's head, and extended with the built-in impls that structurally
//! match. Pruning is an optimization only: it restricts the scan to impls
//! whose self-type head is fingerprint-compatible with the query, and when
//! no fingerprint is available the scan is unrestricted. Only impls whose
//! trait reference resolved are ever produced.

use vstd::prelude::*;

use crate::db::Database;
use crate::fingerprint::TyFingerprint;
use crate::fingerprint::all_float_fps;
use crate::fingerprint::all_float_fps_spec;
use crate::fingerprint::all_int_fps;
use crate::fingerprint::all_int_fps_spec;
use crate::fingerprint::fp_for_impl;
use crate::fingerprint::lemma_all_float_fps_contains;
use crate::fingerprint::lemma_all_int_fps_contains;
use crate::ids::BuiltinImplId;
use crate::ids::CrateId;
use crate::ids::ImplDefId;
use crate::ids::ImplId;
use crate::ids::ImplKey;
use crate::ids::TraitDefId;
use crate::ids::TraitId;
use crate::mapping::ToChalk;
use crate::mapping::from_chalk;
use crate::tys::Ty;
use crate::tys::TyS;

verus! {

/// The kind of a bound type variable in the query's binder context.
#[derive(Clone, Copy, PartialEq, Eq, Structural, Debug)]
pub enum TyVariableKind {
    General,
    Integer,
    Float,
}

/// The kind of a bound variable in the query's binder context.
#[derive(Clone, Copy, PartialEq, Eq, Structural, Debug)]
pub enum VariableKind {
    Ty(TyVariableKind),
    Lifetime,
}

/// The declared kind of the self type, when it is an uninstantiated
/// variable of the innermost binder.
pub open spec fn binder_kind_spec(ty: TyS, binders: Seq<VariableKind>) -> Option<TyVariableKind> {
    match ty {
        TyS::Bound(bv) => {
            if bv.debruijn == 0 && bv.index < binders.len() {
                match binders[bv.index as int] {
                    VariableKind::Ty(tk) => Some(tk),
                    VariableKind::Lifetime => None,
                }
            } else {
                None
            }
        }
        _ => None,
    }
}

/// The pruning set for a self type: the fixed table of all integer
/// (respectively float) fingerprints for an uninstantiated integer (float)
/// variable, the single head fingerprint for a concrete type, and the
/// empty set (no pruning possible) otherwise.
pub open spec fn pruning_fps(ty: TyS, binders: Seq<VariableKind>) -> Seq<TyFingerprint> {
    match binder_kind_spec(ty, binders) {
        Some(TyVariableKind::Integer) => all_int_fps_spec(),
        Some(TyVariableKind::Float) => all_float_fps_spec(),
        _ => match fp_for_impl(ty) {
            Some(fp) => seq![fp],
            None => Seq::empty(),
        },
    }
}

/// Whether impl `i` is a candidate for the query: it exists, its trait
/// reference resolved to the queried trait, it lives in the right
/// partition (a transitive dependency, or the requesting crate itself),
/// and — when a pruning set is available — its self-type head fingerprint
/// is in the pruning set.
pub open spec fn impl_candidate(
    db: &Database,
    t: TraitDefId,
    fps: Seq<TyFingerprint>,
    krate: CrateId,
    from_deps: bool,
    i: int,
) -> bool {
    &&& 0 <= i < db.impls@.len()
    &&& db.impls@[i].trait_ref is Some
    &&& db.impls@[i].trait_ref->Some_0.trait_id == t
    &&& (if from_deps {
        db.crates@[krate.0 as int].deps@.contains(db.impls@[i].krate)
    } else {
        db.impls@[i].krate == krate
    })
    &&& (fps.len() == 0 || (fp_for_impl(db.impls@[i].self_ty@) matches Some(f) && fps.contains(
        f,
    )))
}

/// The solver handle of impl block `i`.
pub open spec fn impl_handle_spec(db: &Database, i: int) -> ImplId {
    <ImplKey as ToChalk>::handle_spec(db, ImplKey::ImplDef(ImplDefId(i as u32)))
}

/// The solver handle of built-in impl `b`.
pub open spec fn builtin_handle_spec(db: &Database, b: int) -> ImplId {
    <ImplKey as ToChalk>::handle_spec(db, ImplKey::Builtin(BuiltinImplId(b as u32)))
}

/// The handles of the candidate impl blocks among the first `n` impls, in
/// index order.
pub open spec fn matching_impl_handles_upto(
    db: &Database,
    t: TraitDefId,
    fps: Seq<TyFingerprint>,
    krate: CrateId,
    from_deps: bool,
    n: int,
) -> Seq<ImplId>
    decreases n,
{
    if n <= 0 {
        Seq::empty()
    } else {
        let init = matching_impl_handles_upto(db, t, fps, krate, from_deps, n - 1);
        if impl_candidate(db, t, fps, krate, from_deps, n - 1) {
            init.push(impl_handle_spec(db, n - 1))
        } else {
            init
        }
    }
}

/// Whether built-in impl `b` structurally matches the query.
pub open spec fn builtin_candidate(
    db: &Database,
    t: TraitDefId,
    ty: TyS,
    arg: Option<TyS>,
    b: int,
) -> bool {
    &&& 0 <= b < db.builtin_impls@.len()
    &&& db.builtin_impls@[b].trait_ref.trait_id == t
    &&& fp_for_impl(ty) == Some(db.builtin_impls@[b].self_fp)
    &&& (db.builtin_impls@[b].arg_fp matches Some(af) ==> arg matches Some(a) && fp_for_impl(a)
        == Some(af))
}

/// The handles of the matching built-in impls among the first `n`
/// records, in index order.
pub open spec fn matching_builtin_handles_upto(
    db: &Database,
    t: TraitDefId,
    ty: TyS,
    arg: Option<TyS>,
    n: int,
) -> Seq<ImplId>
    decreases n,
{
    if n <= 0 {
        Seq::empty()
    } else {
        let init = matching_builtin_handles_upto(db, t, ty, arg, n - 1);
        if builtin_candidate(db, t, ty, arg, n - 1) {
            init.push(builtin_handle_spec(db, n - 1))
        } else {
            init
        }
    }
}

/// The whole lookup result: dependency impls, then local impls, then
/// built-in impls.
pub open spec fn impls_for_trait_spec(
    db: &Database,
    krate: CrateId,
    t: TraitDefId,
    ty: TyS,
    arg: Option<TyS>,
    binders: Seq<VariableKind>,
) -> Seq<ImplId> {
    let fps = pruning_fps(ty, binders);
    matching_impl_handles_upto(db, t, fps, krate, true, db.impls@.len() as int)
        + matching_impl_handles_upto(db, t, fps, krate, false, db.impls@.len() as int)
        + matching_builtin_handles_upto(db, t, ty, arg, db.builtin_impls@.len() as int)
}

/// Whether `c` is one of the crates `krate` transitively depends on.
pub fn crate_in_deps(db: &Database, krate: CrateId, c: CrateId) -> (r: bool)
    requires
        krate.0 < db.crates@.len(),
    ensures
        r == db.crates@[krate.0 as int].deps@.contains(c),
{
    let deps = &db.crates[krate.0 as usize].deps;
    let mut i: usize = 0;
    while i < deps.len()
        invariant
            deps == &db.crates@[krate.0 as int].deps,
            krate.0 < db.crates@.len(),
            i <= deps@.len(),
            forall|j: int| 0 <= j < i ==> deps@[j] != c,
        decreases deps@.len() - i,
    {
        if deps[i] == c {
            return true;
        }
        i = i + 1;
    }
    false
}

/// Whether `f` is in the pruning set (executable form).
fn fps_contain(fps: &Vec<TyFingerprint>, f: TyFingerprint) -> (r: bool)
    ensures
        r == fps@.contains(f),
{
    let mut i: usize = 0;
    while i < fps.len()
        invariant
            i <= fps@.len(),
            forall|j: int| 0 <= j < i ==> fps@[j] != f,
        decreases fps@.len() - i,
    {
        if fps[i] == f {
            return true;
        }
        i = i + 1;
    }
    false
}

/// Collect the candidate impls for a trait applied to a self type, as the
/// solver queries them: impls from the transitive dependencies, then impls
/// from the requesting crate, both fingerprint-pruned, then the built-in
/// impls that structurally match (self type, optional second parameter,
/// trait). Only impls whose trait reference resolved are ever produced.
#[verifier::loop_isolation(false)]
pub fn impls_for_trait(
    db: &Database,
    krate: CrateId,
    trait_id: TraitId,
    parameters: &Vec<Ty>,
    binders: &Vec<VariableKind>,
) -> (result: Vec<ImplId>)
    requires
        db.wf(),
        krate.0 < db.crates@.len(),
        parameters@.len() >= 1,
        parameters@[0]@ matches TyS::Bound(bv) ==> (bv.debruijn == 0 ==> bv.index
            < binders@.len()),
    ensures
        result@ == impls_for_trait_spec(
            db,
            krate,
            TraitDefId(trait_id.0),
            parameters@[0]@,
            if parameters@.len() > 1 {
                Some(parameters@[1]@)
            } else {
                None
            },
            binders@,
        ),
        forall|k: int|
            0 <= k < result@.len() ==> (#[trigger] result@[k]).0 < db.impl_interns.keys@.len(),
{
    let trait_: TraitDefId = from_chalk(db, trait_id);
    let ty = &parameters[0];
    let ghost ty_s = parameters@[0]@;
    let kind: Option<TyVariableKind> = match ty {
        Ty::Bound(bv) => {
            if bv.debruijn == 0 {
                proof {
                    assert(ty_s == TyS::Bound(*bv));
                }
                match binders[bv.index] {
                    VariableKind::Ty(tk) => Some(tk),
                    VariableKind::Lifetime => None,
                }
            } else {
                None
            }
        }
        Ty::Apply(_c, _args) => None,
        Ty::Unknown => None,
    };
    proof {
        assert(kind == binder_kind_spec(ty_s, binders@));
    }
    let fps: Vec<TyFingerprint> = match kind {
        Some(TyVariableKind::Integer) => all_int_fps(),
        Some(TyVariableKind::Float) => all_float_fps(),
        _ => {
            match TyFingerprint::for_impl(ty) {
                Some(fp) => {
                    let mut v: Vec<TyFingerprint> = Vec::new();
                    v.push(fp);
                    v
                }
                None => Vec::new(),
            }
        }
    };
    let ghost fps_s = pruning_fps(ty_s, binders@);
    proof {
        assert(fps@ =~= fps_s);
    }
    let ghost arg_s: Option<TyS> = if parameters@.len() > 1 {
        Some(parameters@[1]@)
    } else {
        None
    };

    let mut result: Vec<ImplId> = Vec::new();
    let mut i: usize = 0;
    while i < db.impls.len()
        invariant
            i <= db.impls@.len(),
            result@ == matching_impl_handles_upto(db, trait_, fps_s, krate, true, i as int),
            forall|k: int|
                0 <= k < result@.len() ==> (#[trigger] result@[k]).0
                    < db.impl_interns.keys@.len(),
        decreases db.impls@.len() - i,
    {
        let d = &db.impls[i];
        let mut is_cand = false;
        match &d.trait_ref {
            Some(tr) => {
                if tr.trait_id == trait_ && crate_in_deps(db, krate, d.krate) {
                    if fps.len() == 0 {
                        is_cand = true;
                    } else {
                        match TyFingerprint::for_impl(&d.self_ty) {
                            Some(f) => {
                                is_cand = fps_contain(&fps, f);
                            }
                            None => {
                            }
                        }
                    }
                }
            }
            None => {
            }
        }
        proof {
            assert(is_cand == impl_candidate(db, trait_, fps_s, krate, true, i as int));
        }
        if is_cand {
            let h = ImplKey::ImplDef(ImplDefId(i as u32)).to_chalk(db);
            result.push(h);
        }
        i = i + 1;
    }

    let ghost deps_part = matching_impl_handles_upto(
        db,
        trait_,
        fps_s,
        krate,
        true,
        db.impls@.len() as int,
    );
    let mut j: usize = 0;
    while j < db.impls.len()
        invariant
            j <= db.impls@.len(),
            result@ == deps_part + matching_impl_handles_upto(
                db,
                trait_,
                fps_s,
                krate,
                false,
                j as int,
            ),
            forall|k: int|
                0 <= k < result@.len() ==> (#[trigger] result@[k]).0
                    < db.impl_interns.keys@.len(),
        decreases db.impls@.len() - j,
    {
        let d = &db.impls[j];
        let mut is_cand = false;
        match &d.trait_ref {
            Some(tr) => {
                if tr.trait_id == trait_ && d.krate == krate {
                    if fps.len() == 0 {
                        is_cand = true;
                    } else {
                        match TyFingerprint::for_impl(&d.self_ty) {
                            Some(f) => {
                                is_cand = fps_contain(&fps, f);
                            }
                            None => {
                            }
                        }
                    }
                }
            }
            None => {
            }
        }
        proof {
            assert(is_cand == impl_candidate(db, trait_, fps_s, krate, false, j as int));
        }
        if is_cand {
            let h = ImplKey::ImplDef(ImplDefId(j as u32)).to_chalk(db);
            result.push(h);
            proof {
                assert(result@ =~= deps_part + matching_impl_handles_upto(
                    db,
                    trait_,
                    fps_s,
                    krate,
                    false,
                    j + 1,
                ));
            }
        } else {
            proof {
                assert(result@ =~= deps_part + matching_impl_handles_upto(
                    db,
                    trait_,
                    fps_s,
                    krate,
                    false,
                    j + 1,
                ));
            }
        }
        j = j + 1;
    }

    let ghost impls_part = deps_part + matching_impl_handles_upto(
        db,
        trait_,
        fps_s,
        krate,
        false,
        db.impls@.len() as int,
    );
    let arg: Option<&Ty> = if parameters.len() > 1 {
        Some(&parameters[1])
    } else {
        None
    };
    let mut b: usize = 0;
    while b < db.builtin_impls.len()
        invariant
            b <= db.builtin_impls@.len(),
            result@ == impls_part + matching_builtin_handles_upto(
                db,
                trait_,
                ty_s,
                arg_s,
                b as int,
            ),
            forall|k: int|
                0 <= k < result@.len() ==> (#[trigger] result@[k]).0
                    < db.impl_interns.keys@.len(),
        decreases db.builtin_impls@.len() - b,
    {
        let d = &db.builtin_impls[b];
        let mut is_cand = false;
        if d.trait_ref.trait_id == trait_ {
            let self_matches = match TyFingerprint::for_impl(ty) {
                Some(f) => f == d.self_fp,
                None => false,
            };
            if self_matches {
                is_cand = match &d.arg_fp {
                    Some(af) => {
                        match arg {
                            Some(a) => {
                                match TyFingerprint::for_impl(a) {
                                    Some(g) => g == *af,
                                    None => false,
                                }
                            }
                            None => false,
                        }
                    }
                    None => true,
                };
            }
        }
        proof {
            assert(is_cand == builtin_candidate(db, trait_, ty_s, arg_s, b as int));
        }
        if is_cand {
            let h = ImplKey::Builtin(BuiltinImplId(b as u32)).to_chalk(db);
            result.push(h);
            proof {
                assert(result@ =~= impls_part + matching_builtin_handles_upto(
                    db,
                    trait_,
                    ty_s,
                    arg_s,
                    b + 1,
                ));
            }
        } else {
            proof {
                assert(result@ =~= impls_part + matching_builtin_handles_upto(
                    db,
                    trait_,
                    ty_s,
                    arg_s,
                    b + 1,
                ));
            }
        }
        b = b + 1;
    }
    result
}

/// Pruning restricts, never redefines: a pruned candidate is exactly an
/// unrestricted candidate whose self-type head fingerprint is in the
/// pruning set, and with an empty pruning set the candidate sets coincide.
/// Omitting the pruning step can therefore only add impls whose head
/// cannot match the query, never remove one.
pub proof fn lemma_pruning_is_restriction(
    db: &Database,
    t: TraitDefId,
    fps: Seq<TyFingerprint>,
    krate: CrateId,
    from_deps: bool,
    i: int,
)
    ensures
        impl_candidate(db, t, fps, krate, from_deps, i) <==> (impl_candidate(
            db,
            t,
            Seq::empty(),
            krate,
            from_deps,
            i,
        ) && (fps.len() == 0 || (fp_for_impl(db.impls@[i].self_ty@) matches Some(f)
            && fps.contains(f)))),
{
}

/// Pruning has no false negatives: an impl whose self-type head is
/// compatible with the query — same concrete head, or an integer (float)
/// head under an uninstantiated integer (float) variable — is a pruned
/// candidate whenever it is an unrestricted candidate.
pub proof fn lemma_pruning_no_false_negative(
    db: &Database,
    t: TraitDefId,
    krate: CrateId,
    from_deps: bool,
    ty: TyS,
    binders: Seq<VariableKind>,
    i: int,
)
    requires
        impl_candidate(db, t, Seq::empty(), krate, from_deps, i),
        ({
            let ifp = fp_for_impl(db.impls@[i].self_ty@);
            ||| pruning_fps(ty, binders).len() == 0
            ||| (binder_kind_spec(ty, binders) == Some(TyVariableKind::Integer) && ifp is Some
                && (ifp->0).0 is Int)
            ||| (binder_kind_spec(ty, binders) == Some(TyVariableKind::Float) && ifp is Some
                && (ifp->0).0 is Float)
            ||| (fp_for_impl(ty) is Some && ifp == fp_for_impl(ty))
        }),
    ensures
        impl_candidate(db, t, pruning_fps(ty, binders), krate, from_deps, i),
{
    let fps = pruning_fps(ty, binders);
    let ifp = fp_for_impl(db.impls@[i].self_ty@);
    if fps.len() == 0 {
    } else {
        let f = ifp->0;
        let ctor = f.0;
        if binder_kind_spec(ty, binders) == Some(TyVariableKind::Integer) && ifp is Some
            && ctor is Int {
            lemma_all_int_fps_contains(ctor->Int_0);
        } else if binder_kind_spec(ty, binders) == Some(TyVariableKind::Float) && ifp is Some
            && ctor is Float {
            lemma_all_float_fps_contains(ctor->Float_0);
        } else {
            assert(fps == seq![fp_for_impl(ty)->0]);
            assert(fps[0] == ifp->0);
            assert(fps.contains(ifp->0));
        }
    }
}

/// An impl whose trait reference failed to resolve is never a candidate,
/// pruned or not: it cannot appear in any lookup result.
pub proof fn lemma_unresolved_never_candidate(
    db: &Database,
    t: TraitDefId,
    fps: Seq<TyFingerprint>,
    krate: CrateId,
    from_deps: bool,
    i: int,
)
    requires
        !(db.impls@[i].trait_ref is Some),
    ensures
        !impl_candidate(db, t, fps, krate, from_deps, i),
{
}

/// A handle is in the candidate-handle list exactly when it is the handle
/// of one of the first `n` impls that is a candidate.
pub proof fn lemma_matching_impl_membership(
    db: &Database,
    t: TraitDefId,
    fps: Seq<TyFingerprint>,
    krate: CrateId,
    from_deps: bool,
    n: int,
    h: ImplId,
)
    ensures
        matching_impl_handles_upto(db, t, fps, krate, from_deps, n).contains(h) <==> exists|i: int|
            0 <= i < n && #[trigger] impl_candidate(db, t, fps, krate, from_deps, i) && h
                == impl_handle_spec(db, i),
    decreases n,
{
    if n > 0 {
        lemma_matching_impl_membership(db, t, fps, krate, from_deps, n - 1, h);
        let prev = matching_impl_handles_upto(db, t, fps, krate, from_deps, n - 1);
        let cur = matching_impl_handles_upto(db, t, fps, krate, from_deps, n);
        if impl_candidate(db, t, fps, krate, from_deps, n - 1) {
            assert(cur == prev.push(impl_handle_spec(db, n - 1)));
            assert forall|j: int| 0 <= j < prev.len() implies cur[j] == prev[j] by {}
            if cur.contains(h) {
                let j = choose|j: int| 0 <= j < cur.len() && cur[j] == h;
                if j < prev.len() {
                    assert(prev.contains(h));
                } else {
                    assert(h == impl_handle_spec(db, n - 1));
                }
            }
            if prev.contains(h) {
                let j = choose|j: int| 0 <= j < prev.len() && prev[j] == h;
                assert(cur[j] == h);
                assert(cur.contains(h));
            }
            assert(cur[n - 1 - (n - 1 - prev.len() as int)] == cur[prev.len() as int]);
            assert(cur[prev.len() as int] == impl_handle_spec(db, n - 1));
            if h == impl_handle_spec(db, n - 1) {
                assert(cur.contains(h));
            }
        } else {
            assert(cur == prev);
        }
    }
}

/// A handle is in the built-in candidate list exactly when it is the
/// handle of one of the first `n` built-in records that matches.
pub proof fn lemma_matching_builtin_membership(
    db: &Database,
    t: TraitDefId,
    ty: TyS,
    arg: Option<TyS>,
    n: int,
    h: ImplId,
)
    ensures
        matching_builtin_handles_upto(db, t, ty, arg, n).contains(h) <==> exists|b: int|
            0 <= b < n && #[trigger] builtin_candidate(db, t, ty, arg, b) && h
                == builtin_handle_spec(db, b),
    decreases n,
{
    if n > 0 {
        lemma_matching_builtin_membership(db, t, ty, arg, n - 1, h);
        let prev = matching_builtin_handles_upto(db, t, ty, arg, n - 1);
        let cur = matching_builtin_handles_upto(db, t, ty, arg, n);
        if builtin_candidate(db, t, ty, arg, n - 1) {
            assert(cur == prev.push(builtin_handle_spec(db, n - 1)));
            if cur.contains(h) {
                let j = choose|j: int| 0 <= j < cur.len() && cur[j] == h;
                if j < prev.len() {
                    assert(prev[j] == h);
                    assert(prev.contains(h));
                } else {
                    assert(h == builtin_handle_spec(db, n - 1));
                }
            }
            if prev.contains(h) {
                let j = choose|j: int| 0 <= j < prev.len() && prev[j] == h;
                assert(cur[j] == h);
                assert(cur.contains(h));
            }
            assert(cur[prev.len() as int] == builtin_handle_spec(db, n - 1));
            if h == builtin_handle_spec(db, n - 1) {
                assert(cur.contains(h));
            }
        } else {
            assert(cur == prev);
        }
    }
}

/// Unresolved-trait exclusion, end to end: every handle an impl lookup
/// returns was handed out by the interning table, and a handle standing
/// for an impl block always stands for one whose trait reference resolved
/// to the queried trait. An unresolved impl can appear in no lookup
/// result.
pub proof fn lemma_lookup_result_resolved(
    db: &Database,
    krate: CrateId,
    t: TraitDefId,
    ty: TyS,
    arg: Option<TyS>,
    binders: Seq<VariableKind>,
    h: ImplId,
)
    requires
        db.wf(),
        impls_for_trait_spec(db, krate, t, ty, arg, binders).contains(h),
    ensures
        h.0 < db.impl_interns.keys@.len(),
        db.impl_interns.keys@[h.0 as int] matches ImplKey::ImplDef(i) ==> db.valid_impl(i)
            && db.impl_resolved(i) && db.impl_data_spec(i).trait_ref->Some_0.trait_id == t,
{
    let fps = pruning_fps(ty, binders);
    let n = db.impls@.len() as int;
    let nb = db.builtin_impls@.len() as int;
    let deps = matching_impl_handles_upto(db, t, fps, krate, true, n);
    let own = matching_impl_handles_upto(db, t, fps, krate, false, n);
    let builtins = matching_builtin_handles_upto(db, t, ty, arg, nb);
    let whole = deps + own + builtins;
    let j = choose|j: int| 0 <= j < whole.len() && whole[j] == h;
    if j < deps.len() {
        assert(deps[j] == h);
        assert(deps.contains(h));
    } else if j < deps.len() + own.len() {
        assert(own[j - deps.len()] == h);
        assert(own.contains(h));
    } else {
        assert(builtins[j - deps.len() - own.len()] == h);
        assert(builtins.contains(h));
    }
    if deps.contains(h) {
        lemma_matching_impl_membership(db, t, fps, krate, true, n, h);
        let i = choose|i: int|
            0 <= i < n && #[trigger] impl_candidate(db, t, fps, krate, true, i) && h
                == impl_handle_spec(db, i);
        let k = ImplKey::ImplDef(ImplDefId(i as u32));
        assert(db.impls@[i].trait_ref is Some);
        assert(db.impl_interns.contains_key(k));
        <ImplKey as ToChalk>::lemma_round_trip_key(db, k);
        assert(db.impl_interns.keys@[h.0 as int] == k);
    } else if own.contains(h) {
        lemma_matching_impl_membership(db, t, fps, krate, false, n, h);
        let i = choose|i: int|
            0 <= i < n && #[trigger] impl_candidate(db, t, fps, krate, false, i) && h
                == impl_handle_spec(db, i);
        let k = ImplKey::ImplDef(ImplDefId(i as u32));
        assert(db.impls@[i].trait_ref is Some);
        assert(db.impl_interns.contains_key(k));
        <ImplKey as ToChalk>::lemma_round_trip_key(db, k);
        assert(db.impl_interns.keys@[h.0 as int] == k);
    } else {
        lemma_matching_builtin_membership(db, t, ty, arg, nb, h);
        let b = choose|b: int|
            0 <= b < nb && #[trigger] builtin_candidate(db, t, ty, arg, b) && h
                == builtin_handle_spec(db, b);
        let k = ImplKey::Builtin(BuiltinImplId(b as u32));
        assert(db.impl_interns.contains_key(k));
        <ImplKey as ToChalk>::lemma_round_trip_key(db, k);
        assert(db.impl_interns.keys@[h.0 as int] == k);
    }
}

} // verus!
