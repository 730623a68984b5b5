//! Generation of builder types.
//!
//! Given the description of a record (its named fields with their declared
//! types and the markers attached to them), the library decides what builder
//! goes with the record: one slot per field, the methods that fill the slots,
//! and what constructing the record from the slots does. A field is required,
//! optional (its type is `Option<...>`) or repeated (its type is `Vec<...>`
//! and it carries the directive `#[builder(each = "...")]`).
//!
//! The way from a definition to a builder:
//!
//! - [`syntax`]: the definition as a host hands it over;
//! - [`introspect`]: the description of the record, [`descriptor`];
//! - [`directive`]: the grammar of the directive;
//! - [`classify`]: required, optional or repeated;
//! - [`emit`]: the generated builder, as a model of its code;
//! - [`generate`]: all of these in a row, ending in code or in a
//!   [`diagnostic`].
//!
//! [`runtime`] runs a generated builder, and [`laws`] states what holds of
//! every one. [`debug`] is the companion generator for printers.

pub mod classify;
pub mod debug;
pub mod descriptor;
pub mod diagnostic;
pub mod directive;
pub mod emit;
pub mod generate;
pub mod introspect;
pub mod laws;
pub mod layout;
pub mod runtime;
pub mod scan;
pub mod syntax;
pub mod text;
