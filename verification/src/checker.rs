//! The module consistency checker: one uniqueness scan per table, the
//! per-function acquires rule, the field rules, the ownership checks and
//! the two totality checks, in a fixed order, stopping at the first
//! violation.

use vstd::prelude::*;

use crate::dup_scan::dup_free;
use crate::dup_scan::first_dup;
use crate::dup_scan::first_duplicate_element;
use crate::dup_scan::first_index;
use crate::dup_scan::lemma_first_dup_none_iff;
use crate::dup_scan::lemma_first_from_found;
use crate::dup_scan::lemma_first_from_none;
use crate::dup_scan::lemma_first_from_some;
use crate::errors::IndexKind;
use crate::errors::StatusCode;
use crate::errors::Violation;
use crate::file_format::CompiledModule;
use crate::file_format::StructDefinition;
use crate::file_format::StructFieldInformation;

verus! {

/// The duplicate violation for position `i` of the table of kind `kind`.
pub open spec fn dup_violation(kind: IndexKind, i: int) -> Violation {
    Violation { kind, index: i as usize, code: StatusCode::DuplicateElement }
}

/// A helper shared by the twelve table scans: the violation (if any) for
/// the first repeated entry of one table, given that table's scan result.
pub open spec fn dup_check(kind: IndexKind, scan: Option<int>) -> Option<Violation> {
    match scan {
        Some(i) => Some(dup_violation(kind, i)),
        None => None,
    }
}

pub open spec fn check_identifiers(m: CompiledModule) -> Option<Violation> {
    dup_check(IndexKind::Identifier, first_dup(m.identifiers@))
}

pub open spec fn check_constants(m: CompiledModule) -> Option<Violation> {
    dup_check(IndexKind::ConstantPool, first_dup(m.constant_pool@))
}

pub open spec fn check_signatures(m: CompiledModule) -> Option<Violation> {
    dup_check(IndexKind::Signature, first_dup(m.signatures@))
}

pub open spec fn check_module_handles(m: CompiledModule) -> Option<Violation> {
    dup_check(IndexKind::ModuleHandle, first_dup(m.module_handles@))
}

pub open spec fn check_struct_handles(m: CompiledModule) -> Option<Violation> {
    dup_check(IndexKind::StructHandle, first_dup(m.struct_handles@))
}

pub open spec fn check_function_handles(m: CompiledModule) -> Option<Violation> {
    dup_check(IndexKind::FunctionHandle, first_dup(m.function_handles@))
}

pub open spec fn check_field_handles(m: CompiledModule) -> Option<Violation> {
    dup_check(IndexKind::FieldHandle, first_dup(m.field_handles@))
}

pub open spec fn check_struct_instantiations(m: CompiledModule) -> Option<Violation> {
    dup_check(IndexKind::StructDefInstantiation, first_dup(m.struct_instantiations@))
}

pub open spec fn check_function_instantiations(m: CompiledModule) -> Option<Violation> {
    dup_check(IndexKind::FunctionInstantiation, first_dup(m.function_instantiations@))
}

pub open spec fn check_field_instantiations(m: CompiledModule) -> Option<Violation> {
    dup_check(IndexKind::FieldInstantiation, first_dup(m.field_instantiations@))
}

pub open spec fn check_struct_defs(m: CompiledModule) -> Option<Violation> {
    dup_check(IndexKind::StructDefinition, first_dup(m.struct_defs@))
}

pub open spec fn check_function_defs(m: CompiledModule) -> Option<Violation> {
    dup_check(IndexKind::FunctionDefinition, first_dup(m.function_defs@))
}

/// The function definition at `i` names some struct definition twice in its
/// acquires list.
pub open spec fn acquires_has_dup(m: CompiledModule, i: int) -> bool {
    first_dup(m.function_defs@[i].acquires_global_resources@) is Some
}

pub open spec fn check_acquires(m: CompiledModule) -> Option<Violation> {
    match first_index(m.function_defs@.len() as int, |i: int| acquires_has_dup(m, i)) {
        Some(i) => Some(
            Violation {
                kind: IndexKind::FunctionDefinition,
                index: i as usize,
                code: StatusCode::DuplicateAcquiresAnnotation,
            },
        ),
        None => None,
    }
}

/// The field-rule violation (if any) inside the struct definition at `i`:
/// a declared struct with no fields, or the first repeated field name.
/// Native structs declare no fields and are exempt.
pub open spec fn field_violation(m: CompiledModule, i: int) -> Option<Violation> {
    match m.struct_defs@[i].field_information {
        StructFieldInformation::Native => None,
        StructFieldInformation::Declared(fields) => if fields@.len() == 0 {
            Some(
                Violation {
                    kind: IndexKind::StructDefinition,
                    index: i as usize,
                    code: StatusCode::ZeroSizedStruct,
                },
            )
        } else {
            dup_check(IndexKind::FieldDefinition, first_dup(fields@))
        },
    }
}

pub open spec fn check_field_rules(m: CompiledModule) -> Option<Violation> {
    match first_index(m.struct_defs@.len() as int, |i: int| field_violation(m, i) is Some) {
        Some(i) => field_violation(m, i),
        None => None,
    }
}

/// The struct definition at `i` is owned by the module being checked: its
/// handle's owning module is the self handle.
pub open spec fn struct_def_self_owned(m: CompiledModule, i: int) -> bool {
    m.struct_handles@[m.struct_defs@[i].struct_handle as int].module == m.self_module_handle_idx
}

/// The function definition at `i` is owned by the module being checked.
pub open spec fn function_def_self_owned(m: CompiledModule, i: int) -> bool {
    m.function_handles@[m.function_defs@[i].function as int].module == m.self_module_handle_idx
}

pub open spec fn check_struct_owners(m: CompiledModule) -> Option<Violation> {
    match first_index(m.struct_defs@.len() as int, |i: int| !struct_def_self_owned(m, i)) {
        Some(i) => Some(
            Violation {
                kind: IndexKind::StructDefinition,
                index: i as usize,
                code: StatusCode::InvalidModuleOwner,
            },
        ),
        None => None,
    }
}

pub open spec fn check_function_owners(m: CompiledModule) -> Option<Violation> {
    match first_index(m.function_defs@.len() as int, |i: int| !function_def_self_owned(m, i)) {
        Some(i) => Some(
            Violation {
                kind: IndexKind::FunctionDefinition,
                index: i as usize,
                code: StatusCode::InvalidModuleOwner,
            },
        ),
        None => None,
    }
}

/// Some struct definition implements the struct handle at `h`.
pub open spec fn struct_handle_implemented(m: CompiledModule, h: int) -> bool {
    exists|d: int|
        0 <= d < m.struct_defs@.len() && (#[trigger] m.struct_defs@[d]).struct_handle as int == h
}

/// Some function definition implements the function handle at `h`.
pub open spec fn function_handle_implemented(m: CompiledModule, h: int) -> bool {
    exists|d: int|
        0 <= d < m.function_defs@.len() && (#[trigger] m.function_defs@[d]).function as int == h
}

/// The struct handle at `h` is owned by the module being checked but has no
/// definition.
pub open spec fn struct_handle_unimplemented(m: CompiledModule, h: int) -> bool {
    m.struct_handles@[h].module == m.self_module_handle_idx && !struct_handle_implemented(m, h)
}

/// The function handle at `h` is owned by the module being checked but has
/// no definition.
pub open spec fn function_handle_unimplemented(m: CompiledModule, h: int) -> bool {
    m.function_handles@[h].module == m.self_module_handle_idx && !function_handle_implemented(m, h)
}

pub open spec fn check_struct_totality(m: CompiledModule) -> Option<Violation> {
    match first_index(m.struct_handles@.len() as int, |h: int| struct_handle_unimplemented(m, h)) {
        Some(h) => Some(
            Violation {
                kind: IndexKind::StructHandle,
                index: h as usize,
                code: StatusCode::UnimplementedHandle,
            },
        ),
        None => None,
    }
}

pub open spec fn check_function_totality(m: CompiledModule) -> Option<Violation> {
    match first_index(
        m.function_handles@.len() as int,
        |h: int| function_handle_unimplemented(m, h),
    ) {
        Some(h) => Some(
            Violation {
                kind: IndexKind::FunctionHandle,
                index: h as usize,
                code: StatusCode::UnimplementedHandle,
            },
        ),
        None => None,
    }
}

/// The first violation in the fixed check order, if any.  Later checks are
/// not consulted once an earlier one fails.
pub open spec fn first_violation(m: CompiledModule) -> Option<Violation> {
    if check_identifiers(m) is Some {
        check_identifiers(m)
    } else if check_constants(m) is Some {
        check_constants(m)
    } else if check_signatures(m) is Some {
        check_signatures(m)
    } else if check_module_handles(m) is Some {
        check_module_handles(m)
    } else if check_struct_handles(m) is Some {
        check_struct_handles(m)
    } else if check_function_handles(m) is Some {
        check_function_handles(m)
    } else if check_field_handles(m) is Some {
        check_field_handles(m)
    } else if check_struct_instantiations(m) is Some {
        check_struct_instantiations(m)
    } else if check_function_instantiations(m) is Some {
        check_function_instantiations(m)
    } else if check_field_instantiations(m) is Some {
        check_field_instantiations(m)
    } else if check_struct_defs(m) is Some {
        check_struct_defs(m)
    } else if check_function_defs(m) is Some {
        check_function_defs(m)
    } else if check_acquires(m) is Some {
        check_acquires(m)
    } else if check_field_rules(m) is Some {
        check_field_rules(m)
    } else if check_struct_owners(m) is Some {
        check_struct_owners(m)
    } else if check_function_owners(m) is Some {
        check_function_owners(m)
    } else if check_struct_totality(m) is Some {
        check_struct_totality(m)
    } else if check_function_totality(m) is Some {
        check_function_totality(m)
    } else {
        None
    }
}

/// What the checker returns on `m`: success, or the first violation.
pub open spec fn spec_verify(m: CompiledModule) -> Result<(), Violation> {
    match first_violation(m) {
        Some(v) => Err(v),
        None => Ok(()),
    }
}

/// Every table is free of duplicates under its uniqueness key.
pub open spec fn tables_dup_free(m: CompiledModule) -> bool {
    &&& dup_free(m.identifiers@)
    &&& dup_free(m.constant_pool@)
    &&& dup_free(m.signatures@)
    &&& dup_free(m.module_handles@)
    &&& dup_free(m.struct_handles@)
    &&& dup_free(m.function_handles@)
    &&& dup_free(m.field_handles@)
    &&& dup_free(m.struct_instantiations@)
    &&& dup_free(m.function_instantiations@)
    &&& dup_free(m.field_instantiations@)
    &&& dup_free(m.struct_defs@)
    &&& dup_free(m.function_defs@)
}

/// No function definition repeats an entry in its own acquires list.
pub open spec fn acquires_ok(m: CompiledModule) -> bool {
    forall|i: int|
        0 <= i < m.function_defs@.len() ==> dup_free(
            (#[trigger] m.function_defs@[i]).acquires_global_resources@,
        )
}

/// The field rules hold of one struct definition: native, or at least one
/// field and no repeated field name.
pub open spec fn struct_def_fields_ok(def: StructDefinition) -> bool {
    match def.field_information {
        StructFieldInformation::Native => true,
        StructFieldInformation::Declared(fields) => fields@.len() > 0 && dup_free(fields@),
    }
}

/// The field rules hold of every struct definition.
pub open spec fn field_rules_ok(m: CompiledModule) -> bool {
    forall|i: int| 0 <= i < m.struct_defs@.len() ==> struct_def_fields_ok(#[trigger] m.struct_defs@[i])
}

/// Every definition's handle resolves to the module being checked.
pub open spec fn owners_ok(m: CompiledModule) -> bool {
    &&& forall|i: int| 0 <= i < m.struct_defs@.len() ==> #[trigger] struct_def_self_owned(m, i)
    &&& forall|i: int| 0 <= i < m.function_defs@.len() ==> #[trigger] function_def_self_owned(m, i)
}

/// Every handle owned by the module being checked has a definition.
pub open spec fn totality_ok(m: CompiledModule) -> bool {
    &&& forall|h: int|
        0 <= h < m.struct_handles@.len() ==> !#[trigger] struct_handle_unimplemented(m, h)
    &&& forall|h: int|
        0 <= h < m.function_handles@.len() ==> !#[trigger] function_handle_unimplemented(m, h)
}

/// The full invariant set: a module is structurally consistent exactly when
/// all of it holds.
pub open spec fn consistent(m: CompiledModule) -> bool {
    &&& tables_dup_free(m)
    &&& acquires_ok(m)
    &&& field_rules_ok(m)
    &&& owners_ok(m)
    &&& totality_ok(m)
}

/// The acquires check passes exactly when every function's own list is
/// duplicate-free.
pub proof fn lemma_check_acquires_none_iff(m: CompiledModule)
    ensures
        (check_acquires(m) is None) <==> acquires_ok(m),
{
    let pa = |i: int| acquires_has_dup(m, i);
    lemma_first_from_none(m.function_defs@.len() as int, pa, 0);
    if check_acquires(m) is None {
        assert forall|i: int| 0 <= i < m.function_defs@.len() implies dup_free(
            (#[trigger] m.function_defs@[i]).acquires_global_resources@,
        ) by {
            assert(!pa(i));
            lemma_first_dup_none_iff(m.function_defs@[i].acquires_global_resources@);
        }
    } else {
        let i = first_index(m.function_defs@.len() as int, pa)->Some_0;
        lemma_first_from_some(m.function_defs@.len() as int, pa, 0, i);
        assert(pa(i));
        lemma_first_dup_none_iff(m.function_defs@[i].acquires_global_resources@);
        assert(!dup_free(m.function_defs@[i].acquires_global_resources@));
    }
}

/// The field rules hold of the struct definition at `i` exactly when no
/// violation is found inside it.
pub proof fn lemma_field_violation_none_iff(m: CompiledModule, i: int)
    requires
        0 <= i < m.struct_defs@.len(),
    ensures
        (field_violation(m, i) is None) <==> struct_def_fields_ok(m.struct_defs@[i]),
{
    match m.struct_defs@[i].field_information {
        StructFieldInformation::Native => {},
        StructFieldInformation::Declared(fields) => {
            if fields@.len() > 0 {
                lemma_first_dup_none_iff(fields@);
            }
        },
    }
}

/// The field-rule check passes exactly when the field rules hold of every
/// struct definition.
pub proof fn lemma_check_field_rules_none_iff(m: CompiledModule)
    ensures
        (check_field_rules(m) is None) <==> field_rules_ok(m),
{
    let pf = |i: int| field_violation(m, i) is Some;
    lemma_first_from_none(m.struct_defs@.len() as int, pf, 0);
    if first_index(m.struct_defs@.len() as int, pf) is None {
        assert forall|i: int| 0 <= i < m.struct_defs@.len() implies struct_def_fields_ok(
            #[trigger] m.struct_defs@[i],
        ) by {
            assert(!pf(i));
            lemma_field_violation_none_iff(m, i);
        }
    } else {
        let i = first_index(m.struct_defs@.len() as int, pf)->Some_0;
        lemma_first_from_some(m.struct_defs@.len() as int, pf, 0, i);
        assert(pf(i));
        lemma_field_violation_none_iff(m, i);
        assert(!struct_def_fields_ok(m.struct_defs@[i]));
    }
}

/// The struct ownership check passes exactly when every struct definition
/// is owned by the module being checked.
pub proof fn lemma_check_struct_owners_none_iff(m: CompiledModule)
    ensures
        (check_struct_owners(m) is None) <==> (forall|i: int|
            0 <= i < m.struct_defs@.len() ==> #[trigger] struct_def_self_owned(m, i)),
{
    let po = |i: int| !struct_def_self_owned(m, i);
    lemma_first_from_none(m.struct_defs@.len() as int, po, 0);
    if check_struct_owners(m) is None {
        assert forall|i: int| 0 <= i < m.struct_defs@.len() implies #[trigger] struct_def_self_owned(
            m,
            i,
        ) by {
            assert(!po(i));
        }
    } else {
        let i = first_index(m.struct_defs@.len() as int, po)->Some_0;
        lemma_first_from_some(m.struct_defs@.len() as int, po, 0, i);
        assert(po(i));
    }
}

/// The function ownership check passes exactly when every function
/// definition is owned by the module being checked.
pub proof fn lemma_check_function_owners_none_iff(m: CompiledModule)
    ensures
        (check_function_owners(m) is None) <==> (forall|i: int|
            0 <= i < m.function_defs@.len() ==> #[trigger] function_def_self_owned(m, i)),
{
    let po = |i: int| !function_def_self_owned(m, i);
    lemma_first_from_none(m.function_defs@.len() as int, po, 0);
    if check_function_owners(m) is None {
        assert forall|i: int|
            0 <= i < m.function_defs@.len() implies #[trigger] function_def_self_owned(m, i) by {
            assert(!po(i));
        }
    } else {
        let i = first_index(m.function_defs@.len() as int, po)->Some_0;
        lemma_first_from_some(m.function_defs@.len() as int, po, 0, i);
        assert(po(i));
    }
}

/// The struct totality check passes exactly when every self-owned struct
/// handle has a definition.
pub proof fn lemma_check_struct_totality_none_iff(m: CompiledModule)
    ensures
        (check_struct_totality(m) is None) <==> (forall|h: int|
            0 <= h < m.struct_handles@.len() ==> !#[trigger] struct_handle_unimplemented(m, h)),
{
    let pt = |h: int| struct_handle_unimplemented(m, h);
    lemma_first_from_none(m.struct_handles@.len() as int, pt, 0);
    if check_struct_totality(m) is None {
        assert forall|h: int|
            0 <= h < m.struct_handles@.len() implies !#[trigger] struct_handle_unimplemented(
            m,
            h,
        ) by {
            assert(!pt(h));
        }
    } else {
        let h = first_index(m.struct_handles@.len() as int, pt)->Some_0;
        lemma_first_from_some(m.struct_handles@.len() as int, pt, 0, h);
        assert(pt(h));
    }
}

/// The function totality check passes exactly when every self-owned
/// function handle has a definition.
pub proof fn lemma_check_function_totality_none_iff(m: CompiledModule)
    ensures
        (check_function_totality(m) is None) <==> (forall|h: int|
            0 <= h < m.function_handles@.len() ==> !#[trigger] function_handle_unimplemented(m, h)),
{
    let pt = |h: int| function_handle_unimplemented(m, h);
    lemma_first_from_none(m.function_handles@.len() as int, pt, 0);
    if check_function_totality(m) is None {
        assert forall|h: int|
            0 <= h < m.function_handles@.len() implies !#[trigger] function_handle_unimplemented(
            m,
            h,
        ) by {
            assert(!pt(h));
        }
    } else {
        let h = first_index(m.function_handles@.len() as int, pt)->Some_0;
        lemma_first_from_some(m.function_handles@.len() as int, pt, 0, h);
        assert(pt(h));
    }
}

/// Whether some struct definition implements the struct handle at `h`.
fn struct_handle_has_def(m: &CompiledModule, h: usize) -> (r: bool)
    ensures
        r == struct_handle_implemented(*m, h as int),
{
    let n: usize = m.struct_defs.len();
    let mut d: usize = 0;
    while d < n
        invariant
            d <= n,
            n == m.struct_defs@.len(),
            forall|k: int|
                0 <= k < d ==> (#[trigger] m.struct_defs@[k]).struct_handle as int != h as int,
        decreases n - d,
    {
        if m.struct_defs[d].struct_handle as usize == h {
            assert(struct_handle_implemented(*m, h as int)) by {
                assert(m.struct_defs@[d as int].struct_handle as int == h as int);
            }
            return true;
        }
        d += 1;
    }
    false
}

/// Whether some function definition implements the function handle at `h`.
fn function_handle_has_def(m: &CompiledModule, h: usize) -> (r: bool)
    ensures
        r == function_handle_implemented(*m, h as int),
{
    let n: usize = m.function_defs.len();
    let mut d: usize = 0;
    while d < n
        invariant
            d <= n,
            n == m.function_defs@.len(),
            forall|k: int|
                0 <= k < d ==> (#[trigger] m.function_defs@[k]).function as int != h as int,
        decreases n - d,
    {
        if m.function_defs[d].function as usize == h {
            assert(function_handle_implemented(*m, h as int)) by {
                assert(m.function_defs@[d as int].function as int == h as int);
            }
            return true;
        }
        d += 1;
    }
    false
}

/// The checker.  It holds only a read-only borrow of the module for the
/// duration of one call of [`DuplicationChecker::verify`] and never mutates
/// or retains it.
pub struct DuplicationChecker<'a> {
    module: &'a CompiledModule,
}

impl<'a> DuplicationChecker<'a> {
    /// Decides structural consistency of `module`: `Ok(())` exactly when
    /// the full invariant set [`consistent`] holds, and otherwise the first
    /// violation in the fixed check order, located precisely — always
    /// [`spec_verify`] of the module, so a repeated run returns the
    /// identical result.
    ///
    /// Requires the shape guarantee [`CompiledModule::wf`] that the
    /// deserializer establishes before this check runs.
    #[verifier::loop_isolation(false)]
    pub fn verify(module: &'a CompiledModule) -> (r: Result<(), Violation>)
        requires
            module.wf(),
        ensures
            r == spec_verify(*module),
            r is Ok <==> consistent(*module),
    {
        proof {
            lemma_consistent_iff_no_violation(*module);
        }
        let checker = DuplicationChecker { module };
        let m = checker.module;
        let ghost gm = *module;
        // Identifiers
        if let Some(idx) = first_duplicate_element(&m.identifiers) {
            return Err(
                Violation {
                    kind: IndexKind::Identifier,
                    index: idx,
                    code: StatusCode::DuplicateElement,
                },
            );
        }
        // Constants
        if let Some(idx) = first_duplicate_element(&m.constant_pool) {
            return Err(
                Violation {
                    kind: IndexKind::ConstantPool,
                    index: idx,
                    code: StatusCode::DuplicateElement,
                },
            );
        }
        // Signatures
        if let Some(idx) = first_duplicate_element(&m.signatures) {
            return Err(
                Violation {
                    kind: IndexKind::Signature,
                    index: idx,
                    code: StatusCode::DuplicateElement,
                },
            );
        }
        // Module handles
        if let Some(idx) = first_duplicate_element(&m.module_handles) {
            return Err(
                Violation {
                    kind: IndexKind::ModuleHandle,
                    index: idx,
                    code: StatusCode::DuplicateElement,
                },
            );
        }
        // Struct handles: owning module and name define uniqueness
        if let Some(idx) = first_duplicate_element(&m.struct_handles) {
            return Err(
                Violation {
                    kind: IndexKind::StructHandle,
                    index: idx,
                    code: StatusCode::DuplicateElement,
                },
            );
        }
        // Function handles: owning module and name define uniqueness
        if let Some(idx) = first_duplicate_element(&m.function_handles) {
            return Err(
                Violation {
                    kind: IndexKind::FunctionHandle,
                    index: idx,
                    code: StatusCode::DuplicateElement,
                },
            );
        }
        // Field handles
        if let Some(idx) = first_duplicate_element(&m.field_handles) {
            return Err(
                Violation {
                    kind: IndexKind::FieldHandle,
                    index: idx,
                    code: StatusCode::DuplicateElement,
                },
            );
        }
        // Struct instantiations
        if let Some(idx) = first_duplicate_element(&m.struct_instantiations) {
            return Err(
                Violation {
                    kind: IndexKind::StructDefInstantiation,
                    index: idx,
                    code: StatusCode::DuplicateElement,
                },
            );
        }
        // Function instantiations
        if let Some(idx) = first_duplicate_element(&m.function_instantiations) {
            return Err(
                Violation {
                    kind: IndexKind::FunctionInstantiation,
                    index: idx,
                    code: StatusCode::DuplicateElement,
                },
            );
        }
        // Field instantiations
        if let Some(idx) = first_duplicate_element(&m.field_instantiations) {
            return Err(
                Violation {
                    kind: IndexKind::FieldInstantiation,
                    index: idx,
                    code: StatusCode::DuplicateElement,
                },
            );
        }
        // Struct definitions: the contained struct handle defines uniqueness
        if let Some(idx) = first_duplicate_element(&m.struct_defs) {
            return Err(
                Violation {
                    kind: IndexKind::StructDefinition,
                    index: idx,
                    code: StatusCode::DuplicateElement,
                },
            );
        }
        // Function definitions: the contained function handle defines uniqueness
        if let Some(idx) = first_duplicate_element(&m.function_defs) {
            return Err(
                Violation {
                    kind: IndexKind::FunctionDefinition,
                    index: idx,
                    code: StatusCode::DuplicateElement,
                },
            );
        }
        // Acquires lists contain each struct definition at most once
        let n_fd: usize = m.function_defs.len();
        let mut f: usize = 0;
        while f < n_fd
            invariant
                f <= n_fd,
                forall|k: int| 0 <= k < f ==> !(#[trigger] acquires_has_dup(gm, k)),
            decreases n_fd - f,
        {
            if first_duplicate_element(&m.function_defs[f].acquires_global_resources).is_some() {
                proof {
                    lemma_first_from_found(
                        gm.function_defs@.len() as int,
                        |k: int| acquires_has_dup(gm, k),
                        0,
                        f as int,
                    );
                }
                return Err(
                    Violation {
                        kind: IndexKind::FunctionDefinition,
                        index: f,
                        code: StatusCode::DuplicateAcquiresAnnotation,
                    },
                );
            }
            f += 1;
        }
        proof {
            lemma_first_from_none(
                gm.function_defs@.len() as int,
                |k: int| acquires_has_dup(gm, k),
                0,
            );
        }
        // Field rules: a declared struct has at least one field, and its
        // field names are unique within the struct
        let n_sd: usize = m.struct_defs.len();
        let mut s: usize = 0;
        while s < n_sd
            invariant
                s <= n_sd,
                forall|k: int| 0 <= k < s ==> (#[trigger] field_violation(gm, k)) is None,
            decreases n_sd - s,
        {
            match &m.struct_defs[s].field_information {
                StructFieldInformation::Native => {},
                StructFieldInformation::Declared(fields) => {
                    if fields.len() == 0 {
                        proof {
                            lemma_first_from_found(
                                gm.struct_defs@.len() as int,
                                |k: int| field_violation(gm, k) is Some,
                                0,
                                s as int,
                            );
                        }
                        return Err(
                            Violation {
                                kind: IndexKind::StructDefinition,
                                index: s,
                                code: StatusCode::ZeroSizedStruct,
                            },
                        );
                    }
                    if let Some(j) = first_duplicate_element(fields) {
                        proof {
                            lemma_first_from_found(
                                gm.struct_defs@.len() as int,
                                |k: int| field_violation(gm, k) is Some,
                                0,
                                s as int,
                            );
                        }
                        return Err(
                            Violation {
                                kind: IndexKind::FieldDefinition,
                                index: j,
                                code: StatusCode::DuplicateElement,
                            },
                        );
                    }
                },
            }
            s += 1;
        }
        proof {
            lemma_first_from_none(
                gm.struct_defs@.len() as int,
                |k: int| field_violation(gm, k) is Some,
                0,
            );
        }
        // Each struct definition points to the self module
        let mut s: usize = 0;
        while s < n_sd
            invariant
                s <= n_sd,
                forall|k: int| 0 <= k < s ==> #[trigger] struct_def_self_owned(gm, k),
            decreases n_sd - s,
        {
            let hidx: u16 = m.struct_defs[s].struct_handle;
            if m.struct_handles[hidx as usize].module != m.self_module_handle_idx {
                proof {
                    lemma_first_from_found(
                        gm.struct_defs@.len() as int,
                        |k: int| !struct_def_self_owned(gm, k),
                        0,
                        s as int,
                    );
                }
                return Err(
                    Violation {
                        kind: IndexKind::StructDefinition,
                        index: s,
                        code: StatusCode::InvalidModuleOwner,
                    },
                );
            }
            s += 1;
        }
        proof {
            lemma_first_from_none(
                gm.struct_defs@.len() as int,
                |k: int| !struct_def_self_owned(gm, k),
                0,
            );
        }
        // Each function definition points to the self module
        let mut f: usize = 0;
        while f < n_fd
            invariant
                f <= n_fd,
                forall|k: int| 0 <= k < f ==> #[trigger] function_def_self_owned(gm, k),
            decreases n_fd - f,
        {
            let hidx: u16 = m.function_defs[f].function;
            if m.function_handles[hidx as usize].module != m.self_module_handle_idx {
                proof {
                    lemma_first_from_found(
                        gm.function_defs@.len() as int,
                        |k: int| !function_def_self_owned(gm, k),
                        0,
                        f as int,
                    );
                }
                return Err(
                    Violation {
                        kind: IndexKind::FunctionDefinition,
                        index: f,
                        code: StatusCode::InvalidModuleOwner,
                    },
                );
            }
            f += 1;
        }
        proof {
            lemma_first_from_none(
                gm.function_defs@.len() as int,
                |k: int| !function_def_self_owned(gm, k),
                0,
            );
        }
        // Each struct handle owned by the self module has a definition
        let n_sh: usize = m.struct_handles.len();
        let mut h: usize = 0;
        while h < n_sh
            invariant
                h <= n_sh,
                forall|k: int| 0 <= k < h ==> !(#[trigger] struct_handle_unimplemented(gm, k)),
            decreases n_sh - h,
        {
            if m.struct_handles[h].module == m.self_module_handle_idx && !struct_handle_has_def(
                m,
                h,
            ) {
                proof {
                    lemma_first_from_found(
                        gm.struct_handles@.len() as int,
                        |k: int| struct_handle_unimplemented(gm, k),
                        0,
                        h as int,
                    );
                }
                return Err(
                    Violation {
                        kind: IndexKind::StructHandle,
                        index: h,
                        code: StatusCode::UnimplementedHandle,
                    },
                );
            }
            h += 1;
        }
        proof {
            lemma_first_from_none(
                gm.struct_handles@.len() as int,
                |k: int| struct_handle_unimplemented(gm, k),
                0,
            );
        }
        // Each function handle owned by the self module has a definition
        let n_fh: usize = m.function_handles.len();
        let mut h: usize = 0;
        while h < n_fh
            invariant
                h <= n_fh,
                forall|k: int| 0 <= k < h ==> !(#[trigger] function_handle_unimplemented(gm, k)),
            decreases n_fh - h,
        {
            if m.function_handles[h].module == m.self_module_handle_idx && !function_handle_has_def(
                m,
                h,
            ) {
                proof {
                    lemma_first_from_found(
                        gm.function_handles@.len() as int,
                        |k: int| function_handle_unimplemented(gm, k),
                        0,
                        h as int,
                    );
                }
                return Err(
                    Violation {
                        kind: IndexKind::FunctionHandle,
                        index: h,
                        code: StatusCode::UnimplementedHandle,
                    },
                );
            }
            h += 1;
        }
        proof {
            lemma_first_from_none(
                gm.function_handles@.len() as int,
                |k: int| function_handle_unimplemented(gm, k),
                0,
            );
        }
        Ok(())
    }
}

/// A module passes every check exactly when the full invariant set holds
/// of it.
pub proof fn lemma_consistent_iff_no_violation(m: CompiledModule)
    ensures
        consistent(m) <==> (first_violation(m) is None),
{
    lemma_first_dup_none_iff(m.identifiers@);
    lemma_first_dup_none_iff(m.constant_pool@);
    lemma_first_dup_none_iff(m.signatures@);
    lemma_first_dup_none_iff(m.module_handles@);
    lemma_first_dup_none_iff(m.struct_handles@);
    lemma_first_dup_none_iff(m.function_handles@);
    lemma_first_dup_none_iff(m.field_handles@);
    lemma_first_dup_none_iff(m.struct_instantiations@);
    lemma_first_dup_none_iff(m.function_instantiations@);
    lemma_first_dup_none_iff(m.field_instantiations@);
    lemma_first_dup_none_iff(m.struct_defs@);
    lemma_first_dup_none_iff(m.function_defs@);
    lemma_check_acquires_none_iff(m);
    lemma_check_field_rules_none_iff(m);
    lemma_check_struct_owners_none_iff(m);
    lemma_check_function_owners_none_iff(m);
    lemma_check_struct_totality_none_iff(m);
    lemma_check_function_totality_none_iff(m);
}


} // verus!
