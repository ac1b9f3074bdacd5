//! Schema-driven slot-layout compiler for records stored in the reserved
//! slots of a garbage-collected host object.
//!
//! A schema describes one record type as an ordered list of typed fields,
//! with optional single-parent inheritance.  From it the library derives the
//! record's slot layout (per-field offsets and the class's reserved-slot
//! count), field accessors that move values between native representation
//! and slot storage, an arity-checked constructor, and the static class
//! descriptor that the host object system needs when registering the class.
//!
//! The host object store itself is modelled here as indexed slot storage:
//! every generated instance is a bare handle into that store, and all
//! accessor and constructor behaviour is stated and proved over it.

pub mod accessor;
pub mod catalog;
pub mod construct;
pub mod descriptor;
pub mod dom;
pub mod element;
pub mod error;
pub mod layout;
pub mod magic;
pub mod node;
pub mod schema;
pub mod slots;
pub mod store;
pub mod value;
