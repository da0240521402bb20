//! The in-memory shape of a module under check: index-addressed tables of
//! handles, definitions and instantiations, already materialized by a
//! deserializer.
//!
//! Every field the checker reads is held as a plain value.  Names and
//! encoded type descriptors are byte strings; cross-table references are
//! 16-bit table indices, as the binary format addresses them.

use vstd::prelude::*;

use crate::dup_scan::DupKey;

verus! {

/// Compares two byte strings for equality.
fn bytes_eq(a: &Vec<u8>, b: &Vec<u8>) -> (r: bool)
    ensures
        r == (a@ == b@),
{
    if a.len() != b.len() {
        assert(a@ != b@);
        return false;
    }
    let n: usize = a.len();
    let mut i: usize = 0;
    while i < n
        invariant
            i <= n,
            n == a@.len(),
            a@.len() == b@.len(),
            forall|k: int| 0 <= k < i ==> a@[k] == b@[k],
        decreases n - i,
    {
        if a[i] != b[i] {
            assert(a@ != b@);
            return false;
        }
        i += 1;
    }
    assert(a@ =~= b@);
    true
}

/// An interned name: the bytes of one identifier.
///
/// Uniqueness key: the full value.
#[derive(Debug, Clone)]
pub struct Identifier {
    pub bytes: Vec<u8>,
}

impl DupKey for Identifier {
    open spec fn keq(self, other: Self) -> bool {
        self.bytes@ == other.bytes@
    }

    fn eq_key(&self, other: &Self) -> (r: bool) {
        bytes_eq(&self.bytes, &other.bytes)
    }
}

/// A literal constant: an encoded type descriptor plus the encoded value.
///
/// Uniqueness key: the full value.
#[derive(Debug, Clone)]
pub struct Constant {
    pub type_desc: Vec<u8>,
    pub data: Vec<u8>,
}

impl DupKey for Constant {
    open spec fn keq(self, other: Self) -> bool {
        self.type_desc@ == other.type_desc@ && self.data@ == other.data@
    }

    fn eq_key(&self, other: &Self) -> (r: bool) {
        bytes_eq(&self.type_desc, &other.type_desc) && bytes_eq(&self.data, &other.data)
    }
}

/// A reusable type-signature descriptor, held as its encoded token string.
///
/// Uniqueness key: the full value.
#[derive(Debug, Clone)]
pub struct Signature {
    pub tokens: Vec<u8>,
}

impl DupKey for Signature {
    open spec fn keq(self, other: Self) -> bool {
        self.tokens@ == other.tokens@
    }

    fn eq_key(&self, other: &Self) -> (r: bool) {
        bytes_eq(&self.tokens, &other.tokens)
    }
}

/// A reference to a module: its defining address and its name, both as
/// indices into the corresponding tables.
///
/// Uniqueness key: the full value.
#[derive(Debug, Clone, Copy, PartialEq, Eq, Structural)]
pub struct ModuleHandle {
    pub address: u16,
    pub name: u16,
}

impl DupKey for ModuleHandle {
    open spec fn keq(self, other: Self) -> bool {
        self == other
    }

    fn eq_key(&self, other: &Self) -> (r: bool) {
        self.address == other.address && self.name == other.name
    }
}

/// A reference to a struct type: the handle of its owning module and its
/// name, plus metadata that does not take part in the uniqueness key.
///
/// Uniqueness key: `(module, name)` only — two handles that agree there are
/// duplicates even if their metadata differs.
#[derive(Debug, Clone, Copy, PartialEq, Eq, Structural)]
pub struct StructHandle {
    pub module: u16,
    pub name: u16,
    pub is_nominal_resource: bool,
    pub type_parameter_count: u64,
}

impl DupKey for StructHandle {
    open spec fn keq(self, other: Self) -> bool {
        self.module == other.module && self.name == other.name
    }

    fn eq_key(&self, other: &Self) -> (r: bool) {
        self.module == other.module && self.name == other.name
    }
}

/// A reference to a function: the handle of its owning module and its name,
/// plus metadata that does not take part in the uniqueness key.
///
/// Uniqueness key: `(module, name)` only.
#[derive(Debug, Clone, Copy, PartialEq, Eq, Structural)]
pub struct FunctionHandle {
    pub module: u16,
    pub name: u16,
    pub parameters: u16,
    pub return_sig: u16,
    pub type_parameter_count: u64,
}

impl DupKey for FunctionHandle {
    open spec fn keq(self, other: Self) -> bool {
        self.module == other.module && self.name == other.name
    }

    fn eq_key(&self, other: &Self) -> (r: bool) {
        self.module == other.module && self.name == other.name
    }
}

/// A reference to one field of a struct definition.
///
/// Uniqueness key: the full value.
#[derive(Debug, Clone, Copy, PartialEq, Eq, Structural)]
pub struct FieldHandle {
    pub owner: u16,
    pub field: u16,
}

impl DupKey for FieldHandle {
    open spec fn keq(self, other: Self) -> bool {
        self == other
    }

    fn eq_key(&self, other: &Self) -> (r: bool) {
        self.owner == other.owner && self.field == other.field
    }
}

/// A struct definition applied to type arguments.
///
/// Uniqueness key: the full value.
#[derive(Debug, Clone, Copy, PartialEq, Eq, Structural)]
pub struct StructDefInstantiation {
    pub def: u16,
    pub type_parameters: u16,
}

impl DupKey for StructDefInstantiation {
    open spec fn keq(self, other: Self) -> bool {
        self == other
    }

    fn eq_key(&self, other: &Self) -> (r: bool) {
        self.def == other.def && self.type_parameters == other.type_parameters
    }
}

/// A function handle applied to type arguments.
///
/// Uniqueness key: the full value.
#[derive(Debug, Clone, Copy, PartialEq, Eq, Structural)]
pub struct FunctionInstantiation {
    pub handle: u16,
    pub type_parameters: u16,
}

impl DupKey for FunctionInstantiation {
    open spec fn keq(self, other: Self) -> bool {
        self == other
    }

    fn eq_key(&self, other: &Self) -> (r: bool) {
        self.handle == other.handle && self.type_parameters == other.type_parameters
    }
}

/// A field handle applied to type arguments.
///
/// Uniqueness key: the full value.
#[derive(Debug, Clone, Copy, PartialEq, Eq, Structural)]
pub struct FieldInstantiation {
    pub handle: u16,
    pub type_parameters: u16,
}

impl DupKey for FieldInstantiation {
    open spec fn keq(self, other: Self) -> bool {
        self == other
    }

    fn eq_key(&self, other: &Self) -> (r: bool) {
        self.handle == other.handle && self.type_parameters == other.type_parameters
    }
}

/// One declared field of a struct definition: a name and an encoded type.
///
/// Uniqueness key (within its struct only): the name.
#[derive(Debug, Clone)]
pub struct FieldDefinition {
    pub name: u16,
    pub type_desc: Vec<u8>,
}

impl DupKey for FieldDefinition {
    open spec fn keq(self, other: Self) -> bool {
        self.name == other.name
    }

    fn eq_key(&self, other: &Self) -> (r: bool) {
        self.name == other.name
    }
}

/// The field information of a struct definition: either a native body with
/// no declared fields, or an ordered list of declared fields.
#[derive(Debug, Clone)]
pub enum StructFieldInformation {
    Native,
    Declared(Vec<FieldDefinition>),
}

/// The body for one struct handle.
///
/// Uniqueness key: the handle index — at most one definition per handle.
#[derive(Debug, Clone)]
pub struct StructDefinition {
    pub struct_handle: u16,
    pub field_information: StructFieldInformation,
}

impl DupKey for StructDefinition {
    open spec fn keq(self, other: Self) -> bool {
        self.struct_handle == other.struct_handle
    }

    fn eq_key(&self, other: &Self) -> (r: bool) {
        self.struct_handle == other.struct_handle
    }
}

/// The body for one function handle, with the struct definitions the
/// function may acquire global access to.
///
/// Uniqueness key: the handle index — at most one definition per handle.
#[derive(Debug, Clone)]
pub struct FunctionDefinition {
    pub function: u16,
    pub acquires_global_resources: Vec<u16>,
}

impl DupKey for FunctionDefinition {
    open spec fn keq(self, other: Self) -> bool {
        self.function == other.function
    }

    fn eq_key(&self, other: &Self) -> (r: bool) {
        self.function == other.function
    }
}

impl DupKey for u16 {
    open spec fn keq(self, other: Self) -> bool {
        self == other
    }

    fn eq_key(&self, other: &Self) -> (r: bool) {
        *self == *other
    }
}

/// A deserialized module: its tables, and the designated entry of the
/// module-handle table that names the module itself.
#[derive(Debug, Clone)]
pub struct CompiledModule {
    pub identifiers: Vec<Identifier>,
    pub constant_pool: Vec<Constant>,
    pub signatures: Vec<Signature>,
    pub module_handles: Vec<ModuleHandle>,
    pub struct_handles: Vec<StructHandle>,
    pub function_handles: Vec<FunctionHandle>,
    pub field_handles: Vec<FieldHandle>,
    pub struct_instantiations: Vec<StructDefInstantiation>,
    pub function_instantiations: Vec<FunctionInstantiation>,
    pub field_instantiations: Vec<FieldInstantiation>,
    pub struct_defs: Vec<StructDefinition>,
    pub function_defs: Vec<FunctionDefinition>,
    /// The self handle: the position in `module_handles` that denotes the
    /// module being checked.
    pub self_module_handle_idx: u16,
}

impl CompiledModule {
    /// The shape guarantee the deserializer establishes before this check
    /// runs: every definition's handle index lands inside its handle table.
    pub open spec fn wf(self) -> bool {
        &&& forall|i: int|
            0 <= i < self.struct_defs@.len() ==> (#[trigger] self.struct_defs@[i]).struct_handle
                < self.struct_handles@.len()
        &&& forall|i: int|
            0 <= i < self.function_defs@.len() ==> (#[trigger] self.function_defs@[i]).function
                < self.function_handles@.len()
    }
}

} // verus!
