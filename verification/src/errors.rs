//! The violation report a failed check produces: which table, which entry,
//! and which invariant broke.

use vstd::prelude::*;

verus! {

/// The kind of table (or definition component) an index points into.
#[derive(Clone, Copy, Debug, PartialEq, Eq, Structural)]
pub enum IndexKind {
    ModuleHandle,
    StructHandle,
    FunctionHandle,
    FieldHandle,
    StructDefInstantiation,
    FunctionInstantiation,
    FieldInstantiation,
    Identifier,
    ConstantPool,
    Signature,
    StructDefinition,
    FunctionDefinition,
    FieldDefinition,
}

/// The closed set of reasons a module can fail the duplication check.
#[derive(Clone, Copy, Debug, PartialEq, Eq, Structural)]
pub enum StatusCode {
    /// Two entries of one table (or two field names of one struct) are equal
    /// under that table's uniqueness key.
    DuplicateElement,
    /// A function's acquires list names the same struct definition twice.
    DuplicateAcquiresAnnotation,
    /// A non-native struct declares no fields.
    ZeroSizedStruct,
    /// A definition's handle is not owned by the module being checked.
    InvalidModuleOwner,
    /// A handle owned by the module being checked has no definition.
    UnimplementedHandle,
}

/// A single structural violation: the first defect found, located precisely.
#[derive(Clone, Copy, Debug, PartialEq, Eq, Structural)]
pub struct Violation {
    /// The table or definition component the offending entry lives in.
    pub kind: IndexKind,
    /// The 0-based position of the offending entry.
    pub index: usize,
    /// The invariant that broke.
    pub code: StatusCode,
}

} // verus!
