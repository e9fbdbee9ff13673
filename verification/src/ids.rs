//! Internal definition identifiers and their solver-facing handles.
//!
//! Internal identifiers (`TraitDefId`, `AdtDefId`, ...) are dense,
//! crate-scoped indices into the database's definition tables. The solver
//! only ever sees opaque interned handles (`TraitId`, `AdtId`, ...); the
//! conversion between the two must round-trip exactly, per kind.

use vstd::prelude::*;

verus! {

/// Identifier of a crate in the compilation graph.
#[derive(Clone, Copy, PartialEq, Eq, Structural, Debug)]
pub struct CrateId(pub u32);

/// Internal identifier of a trait definition.
#[derive(Clone, Copy, PartialEq, Eq, Structural, Debug)]
pub struct TraitDefId(pub u32);

/// Internal identifier of an algebraic data type definition.
#[derive(Clone, Copy, PartialEq, Eq, Structural, Debug)]
pub struct AdtDefId(pub u32);

/// Internal identifier of a callable definition (a function item).
#[derive(Clone, Copy, PartialEq, Eq, Structural, Debug)]
pub struct CallableDefId(pub u32);

/// Internal identifier of an impl block.
#[derive(Clone, Copy, PartialEq, Eq, Structural, Debug)]
pub struct ImplDefId(pub u32);

/// Internal identifier of a type alias (an associated type declaration in a
/// trait, or an associated type value in an impl).
#[derive(Clone, Copy, PartialEq, Eq, Structural, Debug)]
pub struct TypeAliasId(pub u32);

/// Internal identifier of a synthesized built-in impl.
#[derive(Clone, Copy, PartialEq, Eq, Structural, Debug)]
pub struct BuiltinImplId(pub u32);

/// An interned name (name resolution happens outside this crate).
#[derive(Clone, Copy, PartialEq, Eq, Structural, Debug)]
pub struct NameId(pub u32);

/// Solver-facing handle for a trait.
#[derive(Clone, Copy, PartialEq, Eq, Structural, Debug)]
pub struct TraitId(pub u32);

/// Solver-facing handle for an ADT.
#[derive(Clone, Copy, PartialEq, Eq, Structural, Debug)]
pub struct AdtId(pub u32);

/// Solver-facing handle for a function definition.
#[derive(Clone, Copy, PartialEq, Eq, Structural, Debug)]
pub struct FnDefId(pub u32);

/// Solver-facing handle for an associated type declaration.
#[derive(Clone, Copy, PartialEq, Eq, Structural, Debug)]
pub struct AssocTypeId(pub u32);

/// Solver-facing handle for an impl (a dense index into the impl
/// interning table).
#[derive(Clone, Copy, PartialEq, Eq, Structural, Debug)]
pub struct ImplId(pub usize);

/// Solver-facing handle for an associated type value.
#[derive(Clone, Copy, PartialEq, Eq, Structural, Debug)]
pub struct AssociatedTyValueId(pub usize);

/// Solver-facing handle for an opaque type.
#[derive(Clone, Copy, PartialEq, Eq, Structural, Debug)]
pub struct OpaqueTyId(pub usize);

/// An impl as the solver sees it: either a real impl block or a
/// synthesized built-in impl.
#[derive(Clone, Copy, PartialEq, Eq, Structural, Debug)]
pub enum ImplKey {
    ImplDef(ImplDefId),
    Builtin(BuiltinImplId),
}

/// An associated type value as the solver sees it: either a type alias
/// inside a real impl block, or part of a synthesized built-in impl.
#[derive(Clone, Copy, PartialEq, Eq, Structural, Debug)]
pub enum AssocTyValueKey {
    TypeAlias(TypeAliasId),
    Builtin(BuiltinImplId),
}

/// An opaque type: the return-position existential of a function, numbered
/// by position within the function's return type.
#[derive(Clone, Copy, PartialEq, Eq, Structural, Debug)]
pub struct OpaqueTyKey {
    pub func: CallableDefId,
    pub idx: usize,
}

} // verus!
