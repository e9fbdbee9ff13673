//! The internal type representation that runs through the bridge: enough of
//! a type's structure to compute head fingerprints and to track bound
//! (de Bruijn) variable references across binder levels.
//!
//! Executable values use `Ty` (with `Vec` argument lists); contracts speak
//! of the mathematical mirror `TyS` (with `Seq` argument lists), related by
//! [`Ty::view`].

use vstd::prelude::*;

use crate::ids::AdtDefId;
use crate::ids::CallableDefId;

verus! {

/// A reference to a bound variable: `debruijn` counts the binders between
/// the reference and the binder that introduced the variable (innermost
/// binder = 0), `index` is the position within that binder's variable list.
#[derive(Clone, Copy, PartialEq, Eq, Structural, Debug)]
pub struct BoundVar {
    pub debruijn: u32,
    pub index: usize,
}

/// Built-in integer type kinds.
#[derive(Clone, Copy, PartialEq, Eq, Structural, Debug)]
pub enum IntKind {
    I8,
    I16,
    I32,
    I64,
    I128,
    Isize,
    U8,
    U16,
    U32,
    U64,
    U128,
    Usize,
}

/// Built-in floating-point type kinds (tags only; no float values are ever
/// computed here).
#[derive(Clone, Copy, PartialEq, Eq, Structural, Debug)]
pub enum FloatKind {
    F32,
    F64,
}

/// Mutability of a reference or raw pointer type.
#[derive(Clone, Copy, PartialEq, Eq, Structural, Debug)]
pub enum Mutability {
    Shared,
    Mut,
}

/// The head constructor of an applied type.
#[derive(Clone, Copy, PartialEq, Eq, Structural, Debug)]
pub enum TypeCtor {
    Bool,
    Char,
    Int(IntKind),
    Float(FloatKind),
    Str,
    Never,
    Slice,
    RawPtr(Mutability),
    Ref(Mutability),
    Tuple { cardinality: usize },
    FnPtr { num_args: usize },
    Adt(AdtDefId),
    FnDef(CallableDefId),
}

/// A type: a head constructor applied to arguments, a bound variable, or
/// the error placeholder for something that failed to lower.
pub enum Ty {
    Apply(TypeCtor, Vec<Ty>),
    Bound(BoundVar),
    Unknown,
}

/// Mathematical mirror of [`Ty`], used in contracts.
pub enum TyS {
    Apply(TypeCtor, Seq<TyS>),
    Bound(BoundVar),
    Unknown,
}

/// Mirror of a sequence of types.
pub open spec fn tys_view(ts: Seq<Ty>) -> Seq<TyS>
    decreases ts,
{
    if ts.len() == 0 {
        Seq::empty()
    } else {
        seq![ts[0]@] + tys_view(ts.subrange(1, ts.len() as int))
    }
}

impl View for Ty {
    type V = TyS;

    open spec fn view(&self) -> TyS
        decreases self,
    {
        match *self {
            Ty::Apply(ctor, args) => TyS::Apply(ctor, tys_view(args@)),
            Ty::Bound(bv) => TyS::Bound(bv),
            Ty::Unknown => TyS::Unknown,
        }
    }
}

/// The mirror of a sequence of types is the sequence of mirrors.
pub proof fn lemma_tys_view(ts: Seq<Ty>)
    ensures
        tys_view(ts).len() == ts.len(),
        forall|i: int| 0 <= i < ts.len() ==> tys_view(ts)[i] == #[trigger] ts[i]@,
    decreases ts,
{
    if ts.len() > 0 {
        let rest = ts.subrange(1, ts.len() as int);
        lemma_tys_view(rest);
        assert(tys_view(ts) == seq![ts[0]@] + tys_view(rest));
        assert forall|i: int| 0 <= i < ts.len() implies tys_view(ts)[i] == #[trigger] ts[i]@ by {
            if i > 0 {
                assert(rest[i - 1] == ts[i]);
                assert(tys_view(ts)[i] == tys_view(rest)[i - 1]);
            }
        }
    }
}

/// Result of shifting every bound-variable reference in a type outward by
/// `n` binder levels: a value built under some binders, when wrapped in `n`
/// additional outer binders, must have its references adjusted by `n` to
/// keep pointing at the same binder.
pub open spec fn shift_ty_spec(t: TyS, n: nat) -> TyS
    decreases t,
{
    match t {
        TyS::Apply(ctor, args) => TyS::Apply(ctor, shift_tys_spec(args, n)),
        TyS::Bound(bv) => TyS::Bound(
            BoundVar { debruijn: #[verifier::truncate] ((bv.debruijn + n) as u32), index: bv.index },
        ),
        TyS::Unknown => TyS::Unknown,
    }
}

/// Pointwise shift of a sequence of types.
pub open spec fn shift_tys_spec(ts: Seq<TyS>, n: nat) -> Seq<TyS>
    decreases ts,
{
    if ts.len() == 0 {
        Seq::empty()
    } else {
        seq![shift_ty_spec(ts[0], n)] + shift_tys_spec(ts.subrange(1, ts.len() as int), n)
    }
}

pub proof fn lemma_shift_tys_spec(ts: Seq<TyS>, n: nat)
    ensures
        shift_tys_spec(ts, n).len() == ts.len(),
        forall|i: int|
            0 <= i < ts.len() ==> shift_tys_spec(ts, n)[i] == shift_ty_spec(#[trigger] ts[i], n),
    decreases ts,
{
    if ts.len() > 0 {
        let rest = ts.subrange(1, ts.len() as int);
        lemma_shift_tys_spec(rest, n);
        assert(shift_tys_spec(ts, n) == seq![shift_ty_spec(ts[0], n)] + shift_tys_spec(rest, n));
        assert forall|i: int|
            0 <= i < ts.len() implies shift_tys_spec(ts, n)[i] == shift_ty_spec(
            #[trigger] ts[i],
            n,
        ) by {
            if i > 0 {
                assert(rest[i - 1] == ts[i]);
                assert(shift_tys_spec(ts, n)[i] == shift_tys_spec(rest, n)[i - 1]);
            }
        }
    }
}

/// Whether every bound variable in `t` can be shifted outward by `n` levels
/// without exceeding the representable de Bruijn depth.
pub open spec fn shiftable_ty(t: TyS, n: nat) -> bool
    decreases t,
{
    match t {
        TyS::Apply(_ctor, args) => shiftable_tys(args, n),
        TyS::Bound(bv) => bv.debruijn + n <= u32::MAX,
        TyS::Unknown => true,
    }
}

pub open spec fn shiftable_tys(ts: Seq<TyS>, n: nat) -> bool
    decreases ts,
{
    ts.len() == 0 || (shiftable_ty(ts[0], n) && shiftable_tys(ts.subrange(1, ts.len() as int), n))
}

pub proof fn lemma_shiftable_tys(ts: Seq<TyS>, n: nat)
    ensures
        shiftable_tys(ts, n) <==> (forall|i: int|
            0 <= i < ts.len() ==> shiftable_ty(#[trigger] ts[i], n)),
    decreases ts,
{
    if ts.len() > 0 {
        let rest = ts.subrange(1, ts.len() as int);
        lemma_shiftable_tys(rest, n);
        assert(shiftable_tys(ts, n) == (shiftable_ty(ts[0], n) && shiftable_tys(rest, n)));
        if forall|i: int| 0 <= i < ts.len() ==> shiftable_ty(#[trigger] ts[i], n) {
            assert forall|i: int| 0 <= i < rest.len() implies shiftable_ty(#[trigger] rest[i], n) by {
                assert(rest[i] == ts[i + 1]);
            }
        }
        if shiftable_tys(ts, n) {
            assert forall|i: int| 0 <= i < ts.len() implies shiftable_ty(#[trigger] ts[i], n) by {
                if i > 0 {
                    assert(ts[i] == rest[i - 1]);
                }
            }
        }
    }
}

/// Whether the type contains a reference to exactly the bound variable `bv`.
pub open spec fn ty_refs_var(t: TyS, bv: BoundVar) -> bool
    decreases t,
{
    match t {
        TyS::Apply(_ctor, args) => tys_ref_var(args, bv),
        TyS::Bound(v) => v == bv,
        TyS::Unknown => false,
    }
}

pub open spec fn tys_ref_var(ts: Seq<TyS>, bv: BoundVar) -> bool
    decreases ts,
{
    ts.len() > 0 && (ty_refs_var(ts[0], bv) || tys_ref_var(ts.subrange(1, ts.len() as int), bv))
}

/// Shift correctness: shifting outward by `n` moves a reference to binder
/// depth `d` to depth `d + n`, and introduces or loses no references. In
/// particular a bound lowered for a nested binder context (an
/// associated-type bound mentioning the owning trait's generic parameter)
/// refers to the parameter at depth 1 after the shift exactly when the
/// unshifted bound referred to it at depth 0.
pub proof fn lemma_shift_moves_refs(t: TyS, n: nat, bv: BoundVar)
    requires
        shiftable_ty(t, n),
        bv.debruijn + n <= u32::MAX,
    ensures
        ty_refs_var(shift_ty_spec(t, n), BoundVar { debruijn: (bv.debruijn + n) as u32, index: bv.index })
            <==> ty_refs_var(t, bv),
    decreases t,
{
    match t {
        TyS::Apply(_ctor, args) => {
            lemma_shift_moves_refs_tys(args, n, bv);
        }
        TyS::Bound(_v) => {
        }
        TyS::Unknown => {
        }
    }
}

pub proof fn lemma_shift_moves_refs_tys(ts: Seq<TyS>, n: nat, bv: BoundVar)
    requires
        shiftable_tys(ts, n),
        bv.debruijn + n <= u32::MAX,
    ensures
        tys_ref_var(shift_tys_spec(ts, n), BoundVar { debruijn: (bv.debruijn + n) as u32, index: bv.index })
            <==> tys_ref_var(ts, bv),
    decreases ts,
{
    if ts.len() > 0 {
        let rest = ts.subrange(1, ts.len() as int);
        lemma_shift_moves_refs(ts[0], n, bv);
        lemma_shift_moves_refs_tys(rest, n, bv);
        let shifted = shift_tys_spec(ts, n);
        assert(shifted == seq![shift_ty_spec(ts[0], n)] + shift_tys_spec(rest, n));
        assert(shifted[0] == shift_ty_spec(ts[0], n));
        assert(shifted.subrange(1, shifted.len() as int) =~= shift_tys_spec(rest, n));
    }
}

/// Deep copy of a type; the copy has the same mathematical value.
#[verifier::loop_isolation(false)]
pub fn clone_ty(t: &Ty) -> (r: Ty)
    ensures
        r@ == t@,
    decreases t,
{
    match t {
        Ty::Apply(ctor, args) => {
            let mut out: Vec<Ty> = Vec::new();
            let mut i: usize = 0;
            while i < args.len()
                invariant
                    i <= args.len(),
                    out@.len() == i,
                    forall|j: int| 0 <= j < i ==> out@[j]@ == #[trigger] args@[j]@,
                decreases args.len() - i,
            {
                proof {
                    assert(decreases_to!(*t => (*t)->Apply_1));
                    assert((*t)->Apply_1 == *args);
                    assert(decreases_to!(*args => args@));
                    assert(decreases_to!(args@ => args@[i as int]));
                }
                let c = clone_ty(&args[i]);
                out.push(c);
                i = i + 1;
            }
            proof {
                lemma_tys_view(args@);
                lemma_tys_view(out@);
                assert forall|k: int|
                    0 <= k < args@.len() implies tys_view(out@)[k] == tys_view(args@)[k] by {
                    assert(out@[k]@ == args@[k]@);
                }
                assert(tys_view(out@) =~= tys_view(args@));
            }
            Ty::Apply(*ctor, out)
        }
        Ty::Bound(bv) => Ty::Bound(*bv),
        Ty::Unknown => Ty::Unknown,
    }
}

/// Shift every bound-variable reference in `t` outward by `n` binder
/// levels.
#[verifier::loop_isolation(false)]
pub fn shift_bound_vars(t: &Ty, n: u32) -> (r: Ty)
    requires
        shiftable_ty(t@, n as nat),
    ensures
        r@ == shift_ty_spec(t@, n as nat),
    decreases t,
{
    match t {
        Ty::Apply(ctor, args) => {
            proof {
                lemma_tys_view(args@);
                lemma_shiftable_tys(tys_view(args@), n as nat);
            }
            let mut out: Vec<Ty> = Vec::new();
            let mut i: usize = 0;
            while i < args.len()
                invariant
                    i <= args.len(),
                    out@.len() == i,
                    shiftable_tys(tys_view(args@), n as nat),
                    tys_view(args@).len() == args@.len(),
                    forall|j: int| 0 <= j < args@.len() ==> tys_view(args@)[j] == #[trigger] args@[j]@,
                    forall|j: int|
                        0 <= j < i ==> out@[j]@ == shift_ty_spec(#[trigger] args@[j]@, n as nat),
                decreases args.len() - i,
            {
                proof {
                    lemma_shiftable_tys(tys_view(args@), n as nat);
                    assert(decreases_to!(*t => (*t)->Apply_1));
                    assert((*t)->Apply_1 == *args);
                    assert(decreases_to!(*args => args@));
                    assert(decreases_to!(args@ => args@[i as int]));
                }
                let c = shift_bound_vars(&args[i], n);
                out.push(c);
                i = i + 1;
            }
            proof {
                lemma_tys_view(out@);
                lemma_shift_tys_spec(tys_view(args@), n as nat);
                let shifted = shift_tys_spec(tys_view(args@), n as nat);
                assert forall|k: int| 0 <= k < args@.len() implies tys_view(out@)[k] == shifted[k] by {
                    assert(out@[k]@ == shift_ty_spec(args@[k]@, n as nat));
                    assert(shifted[k] == shift_ty_spec(tys_view(args@)[k], n as nat));
                }
                assert(tys_view(out@) =~= shifted);
            }
            Ty::Apply(*ctor, out)
        }
        Ty::Bound(bv) => Ty::Bound(BoundVar { debruijn: bv.debruijn + n, index: bv.index }),
        Ty::Unknown => Ty::Unknown,
    }
}

/// Deep copy of a list of types.
#[verifier::loop_isolation(false)]
pub fn clone_tys(ts: &Vec<Ty>) -> (r: Vec<Ty>)
    ensures
        tys_view(r@) == tys_view(ts@),
        r@.len() == ts@.len(),
{
    let mut out: Vec<Ty> = Vec::new();
    let mut i: usize = 0;
    while i < ts.len()
        invariant
            i <= ts@.len(),
            out@.len() == i,
            forall|j: int| 0 <= j < i ==> out@[j]@ == #[trigger] ts@[j]@,
        decreases ts@.len() - i,
    {
        let c = clone_ty(&ts[i]);
        out.push(c);
        i = i + 1;
    }
    proof {
        lemma_tys_view(ts@);
        lemma_tys_view(out@);
        assert forall|k: int| 0 <= k < ts@.len() implies tys_view(out@)[k] == tys_view(ts@)[k] by {
            assert(out@[k]@ == ts@[k]@);
        }
        assert(tys_view(out@) =~= tys_view(ts@));
    }
    out
}

/// Shift every bound-variable reference in a list of types outward by `n`
/// binder levels.
#[verifier::loop_isolation(false)]
pub fn shift_tys(ts: &Vec<Ty>, n: u32) -> (r: Vec<Ty>)
    requires
        shiftable_tys(tys_view(ts@), n as nat),
    ensures
        tys_view(r@) == shift_tys_spec(tys_view(ts@), n as nat),
        r@.len() == ts@.len(),
{
    proof {
        lemma_tys_view(ts@);
        lemma_shiftable_tys(tys_view(ts@), n as nat);
    }
    let mut out: Vec<Ty> = Vec::new();
    let mut i: usize = 0;
    while i < ts.len()
        invariant
            i <= ts@.len(),
            out@.len() == i,
            forall|j: int| 0 <= j < i ==> out@[j]@ == shift_ty_spec(#[trigger] ts@[j]@, n as nat),
        decreases ts@.len() - i,
    {
        let c = shift_bound_vars(&ts[i], n);
        out.push(c);
        i = i + 1;
    }
    proof {
        lemma_tys_view(out@);
        lemma_shift_tys_spec(tys_view(ts@), n as nat);
        let shifted = shift_tys_spec(tys_view(ts@), n as nat);
        assert forall|k: int| 0 <= k < ts@.len() implies tys_view(out@)[k] == shifted[k] by {
            assert(out@[k]@ == shift_ty_spec(ts@[k]@, n as nat));
            assert(shifted[k] == shift_ty_spec(tys_view(ts@)[k], n as nat));
        }
        assert(tys_view(out@) =~= shifted);
    }
    out
}

} // verus!
