//! Cross-boundary binding generator: reads type and function declarations,
//! builds a typed intermediate representation, and derives three coordinated
//! outputs (native wire-ABI glue, a C header, managed-side marshaling code)
//! from one registry of per-type behaviours, so that field order, null
//! representation and calling convention agree by construction.

pub mod bridge;
pub mod codec;
pub mod dart_gen;
pub mod errors;
pub mod ir;
pub mod registry;
pub mod rust_gen;
pub mod transformer;
pub mod ty_struct;
pub mod text;
