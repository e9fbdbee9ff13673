//! Binders and where-clause lowering.
//!
//! A `Binders<T>` pairs a payload with the number of bound variables it is
//! parameterized over; the count must equal the generic-parameter count of
//! the originating definition (plus one for implicit self-like positions in
//! nested contexts). Where-clauses whose predicate failed to resolve (the
//! error placeholder) are dropped before they reach the solver: the solver
//! cannot reason about unresolved predicates and must never see malformed
//! clauses.

use vstd::prelude::*;

use crate::ids::TraitDefId;
use crate::tys::BoundVar;
use crate::tys::Ty;
use crate::tys::TyS;
use crate::tys::clone_tys;
use crate::tys::lemma_tys_view;
use crate::tys::shift_tys_spec;
use crate::tys::shiftable_tys;
use crate::tys::shift_tys;
use crate::tys::tys_ref_var;
use crate::tys::lemma_shift_moves_refs_tys;
use crate::tys::tys_view;

verus! {

/// A payload parameterized over `num_binders` leading bound variables.
pub struct Binders<T> {
    pub num_binders: usize,
    pub value: T,
}

/// Wrap a value in a binder with the given bound-variable count.
pub fn make_binders<T>(value: T, num_binders: usize) -> (r: Binders<T>)
    ensures
        r.num_binders == num_binders,
        r.value == value,
{
    Binders { num_binders, value }
}

/// A trait applied to arguments; the first argument is the self type.
pub struct TraitRef {
    pub trait_id: TraitDefId,
    pub substs: Vec<Ty>,
}

/// Mathematical mirror of [`TraitRef`].
pub struct TraitRefS {
    pub trait_id: TraitDefId,
    pub substs: Seq<TyS>,
}

impl View for TraitRef {
    type V = TraitRefS;

    open spec fn view(&self) -> TraitRefS {
        TraitRefS { trait_id: self.trait_id, substs: tys_view(self.substs@) }
    }
}

/// Deep copy of a trait reference.
pub fn clone_trait_ref(tr: &TraitRef) -> (r: TraitRef)
    ensures
        r@ == tr@,
{
    TraitRef { trait_id: tr.trait_id, substs: clone_tys(&tr.substs) }
}

/// A lowered where-clause predicate: either a resolved trait bound or the
/// placeholder for a predicate that failed to resolve.
pub enum GenericPredicate {
    Implemented(TraitRef),
    Error,
}

/// Mathematical mirror of [`GenericPredicate`].
pub enum GenericPredicateS {
    Implemented(TraitRefS),
    Error,
}

impl View for GenericPredicate {
    type V = GenericPredicateS;

    open spec fn view(&self) -> GenericPredicateS {
        match *self {
            GenericPredicate::Implemented(tr) => GenericPredicateS::Implemented(tr@),
            GenericPredicate::Error => GenericPredicateS::Error,
        }
    }
}

/// Mirror of a list of predicates.
pub open spec fn preds_view(ps: Seq<GenericPredicate>) -> Seq<GenericPredicateS>
    decreases ps,
{
    if ps.len() == 0 {
        Seq::empty()
    } else {
        seq![ps[0]@] + preds_view(ps.subrange(1, ps.len() as int))
    }
}

pub proof fn lemma_preds_view(ps: Seq<GenericPredicate>)
    ensures
        preds_view(ps).len() == ps.len(),
        forall|i: int| 0 <= i < ps.len() ==> preds_view(ps)[i] == #[trigger] ps[i]@,
    decreases ps,
{
    if ps.len() > 0 {
        let rest = ps.subrange(1, ps.len() as int);
        lemma_preds_view(rest);
        assert(preds_view(ps) == seq![ps[0]@] + preds_view(rest));
        assert forall|i: int| 0 <= i < ps.len() implies preds_view(ps)[i] == #[trigger] ps[i]@ by {
            if i > 0 {
                assert(rest[i - 1] == ps[i]);
                assert(preds_view(ps)[i] == preds_view(rest)[i - 1]);
            }
        }
    }
}

/// Deep copy of a predicate.
pub fn clone_predicate(p: &GenericPredicate) -> (r: GenericPredicate)
    ensures
        r@ == p@,
{
    match p {
        GenericPredicate::Implemented(tr) => GenericPredicate::Implemented(clone_trait_ref(tr)),
        GenericPredicate::Error => GenericPredicate::Error,
    }
}

/// The predicates with every unresolved (error) placeholder dropped, in
/// their stored order.
pub open spec fn drop_errors(ps: Seq<GenericPredicateS>) -> Seq<GenericPredicateS>
    decreases ps,
{
    if ps.len() == 0 {
        Seq::empty()
    } else {
        let init = drop_errors(ps.drop_last());
        if ps.last() is Error {
            init
        } else {
            init.push(ps.last())
        }
    }
}

/// Every predicate surviving [`drop_errors`] is resolved.
pub proof fn lemma_drop_errors_resolved(ps: Seq<GenericPredicateS>)
    ensures
        forall|i: int|
            0 <= i < drop_errors(ps).len() ==> !(#[trigger] drop_errors(ps)[i] is Error),
    decreases ps,
{
    if ps.len() > 0 {
        lemma_drop_errors_resolved(ps.drop_last());
    }
}

/// Lower a definition's stored where-clauses for the solver: unresolved
/// predicates are silently dropped, resolved ones are kept in order.
#[verifier::loop_isolation(false)]
pub fn convert_where_clauses(preds: &Vec<GenericPredicate>) -> (r: Vec<GenericPredicate>)
    ensures
        preds_view(r@) == drop_errors(preds_view(preds@)),
{
    proof {
        lemma_preds_view(preds@);
    }
    let mut out: Vec<GenericPredicate> = Vec::new();
    let mut i: usize = 0;
    while i < preds.len()
        invariant
            i <= preds@.len(),
            preds_view(out@) == drop_errors(preds_view(preds@).subrange(0, i as int)),
        decreases preds@.len() - i,
    {
        let ghost prefix = preds_view(preds@).subrange(0, i as int);
        let ghost next_prefix = preds_view(preds@).subrange(0, i + 1);
        proof {
            assert(next_prefix.drop_last() =~= prefix);
            assert(next_prefix.last() == preds@[i as int]@);
        }
        match &preds[i] {
            GenericPredicate::Error => {
            }
            GenericPredicate::Implemented(_tr) => {
                let c = clone_predicate(&preds[i]);
                let ghost old_out = out@;
                out.push(c);
                proof {
                    lemma_preds_view(old_out);
                    lemma_preds_view(out@);
                    assert forall|k: int|
                        0 <= k < out@.len() implies preds_view(out@)[k] == drop_errors(
                        next_prefix,
                    )[k] by {
                        if k < old_out.len() {
                            assert(out@[k] == old_out[k]);
                            assert(preds_view(out@)[k] == old_out[k]@);
                            assert(old_out[k]@ == preds_view(old_out)[k]);
                        } else {
                            assert(out@[k]@ == preds@[i as int]@);
                        }
                    }
                    assert(preds_view(out@) =~= drop_errors(next_prefix));
                }
            }
        }
        i = i + 1;
    }
    proof {
        assert(preds_view(preds@).subrange(0, preds@.len() as int) =~= preds_view(preds@));
    }
    out
}

/// An inline bound on an associated type declaration: a trait bound on the
/// associated type itself, with the self position stripped.
pub struct InlineBound {
    pub trait_id: TraitDefId,
    pub args: Vec<Ty>,
}

/// Mathematical mirror of [`InlineBound`].
pub struct InlineBoundS {
    pub trait_id: TraitDefId,
    pub args: Seq<TyS>,
}

impl View for InlineBound {
    type V = InlineBoundS;

    open spec fn view(&self) -> InlineBoundS {
        InlineBoundS { trait_id: self.trait_id, args: tys_view(self.args@) }
    }
}

/// An inline bound with all bound-variable references shifted outward by
/// `n` binder levels.
pub open spec fn shift_inline_bound_spec(b: InlineBoundS, n: nat) -> InlineBoundS {
    InlineBoundS { trait_id: b.trait_id, args: shift_tys_spec(b.args, n) }
}

/// The inline-bound form of a predicate about the self type: a predicate
/// `Implemented(Tr<Self, A...>)` whose self position is exactly the
/// innermost bound variable 0 becomes the bound `Tr<A...>`; every other
/// predicate has no inline form.
pub open spec fn inline_bound_of_pred(p: GenericPredicateS) -> Option<InlineBoundS> {
    match p {
        GenericPredicateS::Implemented(tr) => {
            if tr.substs.len() > 0 && tr.substs[0] == TyS::Bound(
                BoundVar { debruijn: 0, index: 0 },
            ) {
                Some(
                    InlineBoundS {
                        trait_id: tr.trait_id,
                        args: tr.substs.subrange(1, tr.substs.len() as int),
                    },
                )
            } else {
                None
            }
        }
        GenericPredicateS::Error => None,
    }
}

/// Whether every type in the predicate can be shifted outward by `n`
/// levels without exceeding the representable de Bruijn depth.
pub open spec fn pred_shiftable(p: GenericPredicateS, n: nat) -> bool {
    match p {
        GenericPredicateS::Implemented(tr) => shiftable_tys(tr.substs, n),
        GenericPredicateS::Error => true,
    }
}

/// Convert a predicate about the self type into solver inline-bound form;
/// predicates of any other shape (including unresolved ones) yield nothing.
#[verifier::loop_isolation(false)]
pub fn generic_predicate_to_inline_bound(p: &GenericPredicate) -> (r: Option<InlineBound>)
    ensures
        r is Some <==> inline_bound_of_pred(p@) is Some,
        r is Some ==> r->0@ == inline_bound_of_pred(p@)->0,
{
    match p {
        GenericPredicate::Implemented(tr) => {
            proof {
                lemma_tys_view(tr.substs@);
            }
            if tr.substs.len() == 0 {
                return None;
            }
            let is_self = match &tr.substs[0] {
                Ty::Bound(bv) => bv.debruijn == 0 && bv.index == 0,
                _ => false,
            };
            proof {
                assert(tr.substs@[0]@ == tr@.substs[0]);
                assert(is_self == (tr@.substs[0] == TyS::Bound(BoundVar { debruijn: 0, index: 0 })));
            }
            if !is_self {
                return None;
            }
            let mut args: Vec<Ty> = Vec::new();
            let mut i: usize = 1;
            while i < tr.substs.len()
                invariant
                    1 <= i <= tr.substs@.len(),
                    args@.len() == i - 1,
                    forall|j: int| 0 <= j < i - 1 ==> args@[j]@ == #[trigger] tr.substs@[j + 1]@,
                decreases tr.substs@.len() - i,
            {
                let c = crate::tys::clone_ty(&tr.substs[i]);
                args.push(c);
                i = i + 1;
            }
            proof {
                lemma_tys_view(args@);
                let expected = tr@.substs.subrange(1, tr@.substs.len() as int);
                assert forall|k: int| 0 <= k < args@.len() implies tys_view(args@)[k]
                    == expected[k] by {
                    assert(tys_view(args@)[k] == args@[k]@);
                    assert(args@[k]@ == tr.substs@[k + 1]@);
                    assert(expected[k] == tys_view(tr.substs@)[k + 1]);
                }
                assert(tys_view(args@) =~= expected);
            }
            Some(InlineBound { trait_id: tr.trait_id, args })
        }
        GenericPredicate::Error => None,
    }
}

/// Shift an inline bound outward by `n` binder levels.
pub fn shift_inline_bound(b: &InlineBound, n: u32) -> (r: InlineBound)
    requires
        shiftable_tys(b@.args, n as nat),
    ensures
        r@ == shift_inline_bound_spec(b@, n as nat),
{
    InlineBound { trait_id: b.trait_id, args: shift_tys(&b.args, n) }
}

/// Shift correctness at the bound level: the shifted inline bound of an
/// associated type refers to a variable at depth `d + 1` exactly when the
/// unshifted bound referred to it at depth `d`. In particular a bound that
/// mentioned the owning trait's generic parameter (depth 0 where the bound
/// was lowered) mentions it at depth 1 once wrapped in the associated
/// type's own binder — never at depth 0.
pub proof fn lemma_shifted_bound_refs(b: InlineBoundS, bv: BoundVar)
    requires
        shiftable_tys(b.args, 1),
        bv.debruijn < u32::MAX,
    ensures
        tys_ref_var(
            shift_inline_bound_spec(b, 1).args,
            BoundVar { debruijn: (bv.debruijn + 1) as u32, index: bv.index },
        ) <==> tys_ref_var(b.args, bv),
{
    lemma_shift_moves_refs_tys(b.args, 1, bv);
}

} // verus!
