//! Type fingerprints: a coarse, cheap structural key of a type's head
//! constructor, used only to prune impl search. A fingerprint match may be
//! a false positive (the solver still unifies properly later); pruning must
//! never produce a false negative.

use vstd::prelude::*;

use crate::tys::FloatKind;
use crate::tys::IntKind;
use crate::tys::Ty;
use crate::tys::TyS;
use crate::tys::TypeCtor;

verus! {

/// The head-constructor key of a type.
#[derive(Clone, Copy, PartialEq, Eq, Structural, Debug)]
pub struct TyFingerprint(pub TypeCtor);

/// The fingerprint a type contributes to impl matching: applied types have
/// their head constructor, bound variables and the error placeholder have
/// no stable head and cannot be pruned on.
pub open spec fn fp_for_impl(t: TyS) -> Option<TyFingerprint> {
    match t {
        TyS::Apply(ctor, _args) => Some(TyFingerprint(ctor)),
        TyS::Bound(_bv) => None,
        TyS::Unknown => None,
    }
}

impl TyFingerprint {
    /// Compute the fingerprint of a type for impl lookup.
    pub fn for_impl(t: &Ty) -> (r: Option<TyFingerprint>)
        ensures
            r == fp_for_impl(t@),
    {
        match t {
            Ty::Apply(ctor, _args) => Some(TyFingerprint(*ctor)),
            Ty::Bound(_bv) => None,
            Ty::Unknown => None,
        }
    }
}

/// The fingerprints of all built-in integer types, used as the pruning set
/// when the self type is an uninstantiated integer variable.
pub open spec fn all_int_fps_spec() -> Seq<TyFingerprint> {
    seq![
        TyFingerprint(TypeCtor::Int(IntKind::I8)),
        TyFingerprint(TypeCtor::Int(IntKind::I16)),
        TyFingerprint(TypeCtor::Int(IntKind::I32)),
        TyFingerprint(TypeCtor::Int(IntKind::I64)),
        TyFingerprint(TypeCtor::Int(IntKind::I128)),
        TyFingerprint(TypeCtor::Int(IntKind::Isize)),
        TyFingerprint(TypeCtor::Int(IntKind::U8)),
        TyFingerprint(TypeCtor::Int(IntKind::U16)),
        TyFingerprint(TypeCtor::Int(IntKind::U32)),
        TyFingerprint(TypeCtor::Int(IntKind::U64)),
        TyFingerprint(TypeCtor::Int(IntKind::U128)),
        TyFingerprint(TypeCtor::Int(IntKind::Usize)),
    ]
}

/// The fingerprints of all built-in floating-point types, used as the
/// pruning set when the self type is an uninstantiated float variable.
pub open spec fn all_float_fps_spec() -> Seq<TyFingerprint> {
    seq![
        TyFingerprint(TypeCtor::Float(FloatKind::F32)),
        TyFingerprint(TypeCtor::Float(FloatKind::F64)),
    ]
}

/// The integer pruning set, as a value.
pub fn all_int_fps() -> (r: Vec<TyFingerprint>)
    ensures
        r@ == all_int_fps_spec(),
{
    let r = vec![
        TyFingerprint(TypeCtor::Int(IntKind::I8)),
        TyFingerprint(TypeCtor::Int(IntKind::I16)),
        TyFingerprint(TypeCtor::Int(IntKind::I32)),
        TyFingerprint(TypeCtor::Int(IntKind::I64)),
        TyFingerprint(TypeCtor::Int(IntKind::I128)),
        TyFingerprint(TypeCtor::Int(IntKind::Isize)),
        TyFingerprint(TypeCtor::Int(IntKind::U8)),
        TyFingerprint(TypeCtor::Int(IntKind::U16)),
        TyFingerprint(TypeCtor::Int(IntKind::U32)),
        TyFingerprint(TypeCtor::Int(IntKind::U64)),
        TyFingerprint(TypeCtor::Int(IntKind::U128)),
        TyFingerprint(TypeCtor::Int(IntKind::Usize)),
    ];
    proof {
        assert(r@ =~= all_int_fps_spec());
    }
    r
}

/// The float pruning set, as a value.
pub fn all_float_fps() -> (r: Vec<TyFingerprint>)
    ensures
        r@ == all_float_fps_spec(),
{
    let r = vec![
        TyFingerprint(TypeCtor::Float(FloatKind::F32)),
        TyFingerprint(TypeCtor::Float(FloatKind::F64)),
    ];
    proof {
        assert(r@ =~= all_float_fps_spec());
    }
    r
}

/// Every integer kind's fingerprint is in the integer pruning set, so an
/// integer-headed impl is never pruned away under an integer variable.
pub proof fn lemma_all_int_fps_contains(k: IntKind)
    ensures
        all_int_fps_spec().contains(TyFingerprint(TypeCtor::Int(k))),
{
    let fp = TyFingerprint(TypeCtor::Int(k));
    match k {
        IntKind::I8 => assert(all_int_fps_spec()[0] == fp),
        IntKind::I16 => assert(all_int_fps_spec()[1] == fp),
        IntKind::I32 => assert(all_int_fps_spec()[2] == fp),
        IntKind::I64 => assert(all_int_fps_spec()[3] == fp),
        IntKind::I128 => assert(all_int_fps_spec()[4] == fp),
        IntKind::Isize => assert(all_int_fps_spec()[5] == fp),
        IntKind::U8 => assert(all_int_fps_spec()[6] == fp),
        IntKind::U16 => assert(all_int_fps_spec()[7] == fp),
        IntKind::U32 => assert(all_int_fps_spec()[8] == fp),
        IntKind::U64 => assert(all_int_fps_spec()[9] == fp),
        IntKind::U128 => assert(all_int_fps_spec()[10] == fp),
        IntKind::Usize => assert(all_int_fps_spec()[11] == fp),
    }
}

/// Every float kind's fingerprint is in the float pruning set.
pub proof fn lemma_all_float_fps_contains(k: FloatKind)
    ensures
        all_float_fps_spec().contains(TyFingerprint(TypeCtor::Float(k))),
{
    let fp = TyFingerprint(TypeCtor::Float(k));
    match k {
        FloatKind::F32 => assert(all_float_fps_spec()[0] == fp),
        FloatKind::F64 => assert(all_float_fps_spec()[1] == fp),
    }
}

} // verus!
