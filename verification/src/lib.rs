//! Bridge between an internal program representation and a constraint-logic
//! trait solver: interned identifier conversion, datum construction for
//! traits, types, impls and functions, fingerprint-pruned impl lookup, and
//! the well-known-trait bridge.
//!
//! The pieces, leaf first: [`ids`] holds the internal identifiers and the
//! solver handles; [`intern`] the injective arenas mapping one to the
//! other; [`tys`] the type representation with de Bruijn variables and the
//! binder shift; [`fingerprint`] the head keys that prune impl search;
//! [`binders`] the binder wrapper and where-clause lowering; [`db`] the
//! program snapshot and its invariants; [`mapping`] the per-kind handle
//! conversions; [`datums`] the solver-facing facts and their construction;
//! [`lookup`] the pruned impl search; [`well_known`] the marker-attribute
//! bridge; and [`context`] the per-crate view the solver queries.

pub mod binders;
pub mod context;
pub mod datums;
pub mod db;
pub mod fingerprint;
pub mod ids;
pub mod intern;
pub mod lookup;
pub mod mapping;
pub mod tys;
pub mod well_known;
