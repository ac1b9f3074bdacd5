//! The failure taxonomy shared by schema compilation, the generated
//! constructor and the generated accessors.

use vstd::prelude::*;

verus! {

/// Every way the layout compiler or a generated routine can fail.
///
/// The first two variants arise while a schema is compiled and are fatal to
/// the build; the rest arise at instance-construction or instance-access
/// time and are returned to the caller.
#[derive(Clone, Copy, Debug, PartialEq, Eq, Structural)]
pub enum Error {
    /// A field names a type that is neither registered in the type catalog
    /// nor a resolvable schema.
    UnknownType,
    /// The schema itself is ill-formed: an inheritance marker somewhere
    /// other than position 0, more than one marker, a marker that does not
    /// name a parent schema, or a layout too wide for the host's
    /// reserved-slot class flag.
    SchemaMalformed,
    /// The constructor received a number of arguments different from the
    /// schema's declared field count (inherited fields included).
    ArityMismatch,
    /// A constructor argument could not be converted to its field's native
    /// type; carries the offending position.
    ArgumentConversion(usize),
    /// The host object store refused to allocate a new object.
    AllocationFailure,
    /// A move-only field was read a second time without an intervening
    /// write, or a slot was read before it was ever filled.
    SlotAlreadyTaken,
    /// The receiving handle's class does not match the schema the accessor
    /// was generated for, and is no descendant of it either.
    ClassMismatch,
}

} // verus!
