//! Bidirectional, field-wise conversions between a native type and its
//! Python-facing counterpart.
//!
//! `runtime` holds the conversion capability (`MapPy`) and the small adapters
//! that conversions compose with; `options` selects per-field converter
//! overrides from attribute metadata; `generate` emits the source text of the
//! two conversion impls for one annotated declaration.

pub mod generate;
pub mod options;
pub mod runtime;

pub use runtime::MapPy;
