//! Properties of the checker, proved once for every module.
//!
//! Each public proof function here states one guarantee of
//! [`crate::checker::spec_verify`], the function that
//! [`crate::checker::DuplicationChecker::verify`] is proved to compute:
//! which violation is reported when one table breaks its invariant while
//! the rest of the module is valid, and when a check is passed.

use vstd::prelude::*;

use crate::checker::acquires_ok;
use crate::checker::check_acquires;
use crate::checker::check_struct_totality;
use crate::checker::dup_violation;
use crate::checker::field_rules_ok;
use crate::checker::field_violation;
use crate::checker::function_def_self_owned;
use crate::checker::lemma_check_acquires_none_iff;
use crate::checker::lemma_check_field_rules_none_iff;
use crate::checker::lemma_check_function_owners_none_iff;
use crate::checker::lemma_check_struct_owners_none_iff;
use crate::checker::lemma_field_violation_none_iff;
use crate::checker::owners_ok;
use crate::checker::spec_verify;
use crate::checker::struct_def_fields_ok;
use crate::checker::struct_def_self_owned;
use crate::checker::struct_handle_implemented;
use crate::checker::struct_handle_unimplemented;
use crate::checker::tables_dup_free;
use crate::dup_scan::dup_free;
use crate::dup_scan::first_dup;
use crate::dup_scan::lemma_first_dup_none_iff;
use crate::dup_scan::lemma_first_from_found;
use crate::dup_scan::lemma_first_from_none;
use crate::errors::IndexKind;
use crate::errors::StatusCode;
use crate::errors::Violation;
use crate::file_format::CompiledModule;
use crate::file_format::StructDefinition;
use crate::file_format::StructFieldInformation;

verus! {

/// Relates each of the twelve table scans to duplicate-freedom of its
/// table, in both directions.
proof fn lemma_table_scan_iffs(m: CompiledModule)
    ensures
        (first_dup(m.identifiers@) is None) <==> dup_free(m.identifiers@),
        (first_dup(m.constant_pool@) is None) <==> dup_free(m.constant_pool@),
        (first_dup(m.signatures@) is None) <==> dup_free(m.signatures@),
        (first_dup(m.module_handles@) is None) <==> dup_free(m.module_handles@),
        (first_dup(m.struct_handles@) is None) <==> dup_free(m.struct_handles@),
        (first_dup(m.function_handles@) is None) <==> dup_free(m.function_handles@),
        (first_dup(m.field_handles@) is None) <==> dup_free(m.field_handles@),
        (first_dup(m.struct_instantiations@) is None) <==> dup_free(m.struct_instantiations@),
        (first_dup(m.function_instantiations@) is None) <==> dup_free(m.function_instantiations@),
        (first_dup(m.field_instantiations@) is None) <==> dup_free(m.field_instantiations@),
        (first_dup(m.struct_defs@) is None) <==> dup_free(m.struct_defs@),
        (first_dup(m.function_defs@) is None) <==> dup_free(m.function_defs@),
{
    lemma_first_dup_none_iff(m.identifiers@);
    lemma_first_dup_none_iff(m.constant_pool@);
    lemma_first_dup_none_iff(m.signatures@);
    lemma_first_dup_none_iff(m.module_handles@);
    lemma_first_dup_none_iff(m.struct_handles@);
    lemma_first_dup_none_iff(m.function_handles@);
    lemma_first_dup_none_iff(m.field_handles@);
    lemma_first_dup_none_iff(m.struct_instantiations@);
    lemma_first_dup_none_iff(m.function_instantiations@);
    lemma_first_dup_none_iff(m.field_instantiations@);
    lemma_first_dup_none_iff(m.struct_defs@);
    lemma_first_dup_none_iff(m.function_defs@);
}

/// A repeated identifier is reported at the position of its second
/// occurrence, whatever the rest of the module holds.
pub proof fn lemma_duplicate_identifier_reported(m: CompiledModule, i: int)
    requires
        first_dup(m.identifiers@) == Some(i),
    ensures
        spec_verify(m) == Err::<(), Violation>(dup_violation(IndexKind::Identifier, i)),
{
}

/// A repeated constant is reported at the position of its second
/// occurrence when every other table is duplicate-free.
pub proof fn lemma_duplicate_constant_reported(m: CompiledModule, i: int)
    requires
        dup_free(m.identifiers@),
        dup_free(m.signatures@),
        dup_free(m.module_handles@),
        dup_free(m.struct_handles@),
        dup_free(m.function_handles@),
        dup_free(m.field_handles@),
        dup_free(m.struct_instantiations@),
        dup_free(m.function_instantiations@),
        dup_free(m.field_instantiations@),
        dup_free(m.struct_defs@),
        dup_free(m.function_defs@),
        first_dup(m.constant_pool@) == Some(i),
    ensures
        spec_verify(m) == Err::<(), Violation>(dup_violation(IndexKind::ConstantPool, i)),
{
    lemma_table_scan_iffs(m);
}

/// A repeated signature is reported at the position of its second
/// occurrence when every other table is duplicate-free.
pub proof fn lemma_duplicate_signature_reported(m: CompiledModule, i: int)
    requires
        dup_free(m.identifiers@),
        dup_free(m.constant_pool@),
        dup_free(m.module_handles@),
        dup_free(m.struct_handles@),
        dup_free(m.function_handles@),
        dup_free(m.field_handles@),
        dup_free(m.struct_instantiations@),
        dup_free(m.function_instantiations@),
        dup_free(m.field_instantiations@),
        dup_free(m.struct_defs@),
        dup_free(m.function_defs@),
        first_dup(m.signatures@) == Some(i),
    ensures
        spec_verify(m) == Err::<(), Violation>(dup_violation(IndexKind::Signature, i)),
{
    lemma_table_scan_iffs(m);
}

/// A repeated module handle is reported at the position of its second
/// occurrence when every other table is duplicate-free.
pub proof fn lemma_duplicate_module_handle_reported(m: CompiledModule, i: int)
    requires
        dup_free(m.identifiers@),
        dup_free(m.constant_pool@),
        dup_free(m.signatures@),
        dup_free(m.struct_handles@),
        dup_free(m.function_handles@),
        dup_free(m.field_handles@),
        dup_free(m.struct_instantiations@),
        dup_free(m.function_instantiations@),
        dup_free(m.field_instantiations@),
        dup_free(m.struct_defs@),
        dup_free(m.function_defs@),
        first_dup(m.module_handles@) == Some(i),
    ensures
        spec_verify(m) == Err::<(), Violation>(dup_violation(IndexKind::ModuleHandle, i)),
{
    lemma_table_scan_iffs(m);
}

/// Two struct handles agreeing on owner and name — whatever their other
/// metadata — are reported at the second one's position when every other
/// table is duplicate-free.
pub proof fn lemma_duplicate_struct_handle_reported(m: CompiledModule, i: int)
    requires
        dup_free(m.identifiers@),
        dup_free(m.constant_pool@),
        dup_free(m.signatures@),
        dup_free(m.module_handles@),
        dup_free(m.function_handles@),
        dup_free(m.field_handles@),
        dup_free(m.struct_instantiations@),
        dup_free(m.function_instantiations@),
        dup_free(m.field_instantiations@),
        dup_free(m.struct_defs@),
        dup_free(m.function_defs@),
        first_dup(m.struct_handles@) == Some(i),
    ensures
        spec_verify(m) == Err::<(), Violation>(dup_violation(IndexKind::StructHandle, i)),
{
    lemma_table_scan_iffs(m);
}

/// Two function handles agreeing on owner and name are reported at the
/// second one's position when every other table is duplicate-free.
pub proof fn lemma_duplicate_function_handle_reported(m: CompiledModule, i: int)
    requires
        dup_free(m.identifiers@),
        dup_free(m.constant_pool@),
        dup_free(m.signatures@),
        dup_free(m.module_handles@),
        dup_free(m.struct_handles@),
        dup_free(m.field_handles@),
        dup_free(m.struct_instantiations@),
        dup_free(m.function_instantiations@),
        dup_free(m.field_instantiations@),
        dup_free(m.struct_defs@),
        dup_free(m.function_defs@),
        first_dup(m.function_handles@) == Some(i),
    ensures
        spec_verify(m) == Err::<(), Violation>(dup_violation(IndexKind::FunctionHandle, i)),
{
    lemma_table_scan_iffs(m);
}

/// A repeated field handle is reported at the position of its second
/// occurrence when every other table is duplicate-free.
pub proof fn lemma_duplicate_field_handle_reported(m: CompiledModule, i: int)
    requires
        dup_free(m.identifiers@),
        dup_free(m.constant_pool@),
        dup_free(m.signatures@),
        dup_free(m.module_handles@),
        dup_free(m.struct_handles@),
        dup_free(m.function_handles@),
        dup_free(m.struct_instantiations@),
        dup_free(m.function_instantiations@),
        dup_free(m.field_instantiations@),
        dup_free(m.struct_defs@),
        dup_free(m.function_defs@),
        first_dup(m.field_handles@) == Some(i),
    ensures
        spec_verify(m) == Err::<(), Violation>(dup_violation(IndexKind::FieldHandle, i)),
{
    lemma_table_scan_iffs(m);
}

/// A repeated struct instantiation is reported at the position of its
/// second occurrence when every other table is duplicate-free.
pub proof fn lemma_duplicate_struct_instantiation_reported(m: CompiledModule, i: int)
    requires
        dup_free(m.identifiers@),
        dup_free(m.constant_pool@),
        dup_free(m.signatures@),
        dup_free(m.module_handles@),
        dup_free(m.struct_handles@),
        dup_free(m.function_handles@),
        dup_free(m.field_handles@),
        dup_free(m.function_instantiations@),
        dup_free(m.field_instantiations@),
        dup_free(m.struct_defs@),
        dup_free(m.function_defs@),
        first_dup(m.struct_instantiations@) == Some(i),
    ensures
        spec_verify(m) == Err::<(), Violation>(dup_violation(IndexKind::StructDefInstantiation, i)),
{
    lemma_table_scan_iffs(m);
}

/// A repeated function instantiation is reported at the position of its
/// second occurrence when every other table is duplicate-free.
pub proof fn lemma_duplicate_function_instantiation_reported(m: CompiledModule, i: int)
    requires
        dup_free(m.identifiers@),
        dup_free(m.constant_pool@),
        dup_free(m.signatures@),
        dup_free(m.module_handles@),
        dup_free(m.struct_handles@),
        dup_free(m.function_handles@),
        dup_free(m.field_handles@),
        dup_free(m.struct_instantiations@),
        dup_free(m.field_instantiations@),
        dup_free(m.struct_defs@),
        dup_free(m.function_defs@),
        first_dup(m.function_instantiations@) == Some(i),
    ensures
        spec_verify(m) == Err::<(), Violation>(dup_violation(IndexKind::FunctionInstantiation, i)),
{
    lemma_table_scan_iffs(m);
}

/// A repeated field instantiation is reported at the position of its
/// second occurrence when every other table is duplicate-free.
pub proof fn lemma_duplicate_field_instantiation_reported(m: CompiledModule, i: int)
    requires
        dup_free(m.identifiers@),
        dup_free(m.constant_pool@),
        dup_free(m.signatures@),
        dup_free(m.module_handles@),
        dup_free(m.struct_handles@),
        dup_free(m.function_handles@),
        dup_free(m.field_handles@),
        dup_free(m.struct_instantiations@),
        dup_free(m.function_instantiations@),
        dup_free(m.struct_defs@),
        dup_free(m.function_defs@),
        first_dup(m.field_instantiations@) == Some(i),
    ensures
        spec_verify(m) == Err::<(), Violation>(dup_violation(IndexKind::FieldInstantiation, i)),
{
    lemma_table_scan_iffs(m);
}

/// Two struct definitions for the same handle are reported at the second
/// one's position when every other table is duplicate-free.
pub proof fn lemma_duplicate_struct_def_reported(m: CompiledModule, i: int)
    requires
        dup_free(m.identifiers@),
        dup_free(m.constant_pool@),
        dup_free(m.signatures@),
        dup_free(m.module_handles@),
        dup_free(m.struct_handles@),
        dup_free(m.function_handles@),
        dup_free(m.field_handles@),
        dup_free(m.struct_instantiations@),
        dup_free(m.function_instantiations@),
        dup_free(m.field_instantiations@),
        dup_free(m.function_defs@),
        first_dup(m.struct_defs@) == Some(i),
    ensures
        spec_verify(m) == Err::<(), Violation>(dup_violation(IndexKind::StructDefinition, i)),
{
    lemma_table_scan_iffs(m);
}

/// Two function definitions for the same handle are reported at the second
/// one's position when every other table is duplicate-free.
pub proof fn lemma_duplicate_function_def_reported(m: CompiledModule, i: int)
    requires
        dup_free(m.identifiers@),
        dup_free(m.constant_pool@),
        dup_free(m.signatures@),
        dup_free(m.module_handles@),
        dup_free(m.struct_handles@),
        dup_free(m.function_handles@),
        dup_free(m.field_handles@),
        dup_free(m.struct_instantiations@),
        dup_free(m.function_instantiations@),
        dup_free(m.field_instantiations@),
        dup_free(m.struct_defs@),
        first_dup(m.function_defs@) == Some(i),
    ensures
        spec_verify(m) == Err::<(), Violation>(dup_violation(IndexKind::FunctionDefinition, i)),
{
    lemma_table_scan_iffs(m);
}

/// The acquires rule is per-function: when every function's own acquires
/// list is duplicate-free, the acquires check passes — two different
/// functions may each acquire the same struct definition without conflict,
/// since nothing relates entries of different lists.
pub proof fn lemma_acquires_checked_per_function(m: CompiledModule)
    requires
        forall|i: int|
            0 <= i < m.function_defs@.len() ==> dup_free(
                (#[trigger] m.function_defs@[i]).acquires_global_resources@,
            ),
    ensures
        check_acquires(m) is None,
{
    lemma_check_acquires_none_iff(m);
}

/// A single function listing the same struct definition twice in its
/// acquires list is reported at that function's position, once the table
/// scans pass.
pub proof fn lemma_duplicate_acquires_rejected(m: CompiledModule, f: int)
    requires
        tables_dup_free(m),
        0 <= f < m.function_defs@.len(),
        first_dup(m.function_defs@[f].acquires_global_resources@) is Some,
        forall|k: int|
            0 <= k < f ==> dup_free((#[trigger] m.function_defs@[k]).acquires_global_resources@),
    ensures
        spec_verify(m) == Err::<(), Violation>(
            Violation {
                kind: IndexKind::FunctionDefinition,
                index: f as usize,
                code: StatusCode::DuplicateAcquiresAnnotation,
            },
        ),
{
    lemma_table_scan_iffs(m);
    let pa = |k: int| crate::checker::acquires_has_dup(m, k);
    assert forall|k: int| 0 <= k < f implies !(#[trigger] pa(k)) by {
        lemma_first_dup_none_iff(m.function_defs@[k].acquires_global_resources@);
    }
    lemma_first_from_found(m.function_defs@.len() as int, pa, 0, f);
}

/// The struct definition at `def` declares no fields and is not native.
pub open spec fn declares_no_fields(def: StructDefinition) -> bool {
    match def.field_information {
        StructFieldInformation::Native => false,
        StructFieldInformation::Declared(fields) => fields@.len() == 0,
    }
}

/// A declared struct with no fields is rejected as zero-sized, even with a
/// valid and unique handle, once the table scans and the acquires check
/// pass and every earlier struct definition obeys the field rules.
pub proof fn lemma_zero_sized_struct_rejected(m: CompiledModule, i: int)
    requires
        tables_dup_free(m),
        acquires_ok(m),
        0 <= i < m.struct_defs@.len(),
        declares_no_fields(m.struct_defs@[i]),
        forall|k: int| 0 <= k < i ==> struct_def_fields_ok(#[trigger] m.struct_defs@[k]),
    ensures
        spec_verify(m) == Err::<(), Violation>(
            Violation {
                kind: IndexKind::StructDefinition,
                index: i as usize,
                code: StatusCode::ZeroSizedStruct,
            },
        ),
{
    lemma_table_scan_iffs(m);
    lemma_check_acquires_none_iff(m);
    let pf = |k: int| field_violation(m, k) is Some;
    assert forall|k: int| 0 <= k < i implies !(#[trigger] pf(k)) by {
        lemma_field_violation_none_iff(m, k);
    }
    assert(pf(i));
    lemma_first_from_found(m.struct_defs@.len() as int, pf, 0, i);
}

/// A struct whose declared field names repeat is rejected at the repeated
/// field's position within the struct, once the table scans and the
/// acquires check pass and every earlier struct definition obeys the field
/// rules.
pub proof fn lemma_duplicate_field_name_rejected(m: CompiledModule, i: int, j: int)
    requires
        tables_dup_free(m),
        acquires_ok(m),
        0 <= i < m.struct_defs@.len(),
        m.struct_defs@[i].field_information matches StructFieldInformation::Declared(fields) && (
        fields@.len() > 0 && first_dup(fields@) == Some(j)),
        forall|k: int| 0 <= k < i ==> struct_def_fields_ok(#[trigger] m.struct_defs@[k]),
    ensures
        spec_verify(m) == Err::<(), Violation>(
            Violation {
                kind: IndexKind::FieldDefinition,
                index: j as usize,
                code: StatusCode::DuplicateElement,
            },
        ),
{
    lemma_table_scan_iffs(m);
    lemma_check_acquires_none_iff(m);
    let pf = |k: int| field_violation(m, k) is Some;
    assert forall|k: int| 0 <= k < i implies !(#[trigger] pf(k)) by {
        lemma_field_violation_none_iff(m, k);
    }
    assert(pf(i));
    lemma_first_from_found(m.struct_defs@.len() as int, pf, 0, i);
}

/// A struct definition whose handle is owned by a module other than the
/// self module is rejected with [`StatusCode::InvalidModuleOwner`] —
/// regardless of whether a definition for that handle exists anywhere —
/// once the table scans, the acquires check and the field rules pass.
pub proof fn lemma_foreign_struct_def_rejected(m: CompiledModule, i: int)
    requires
        tables_dup_free(m),
        acquires_ok(m),
        field_rules_ok(m),
        0 <= i < m.struct_defs@.len(),
        !struct_def_self_owned(m, i),
        forall|k: int| 0 <= k < i ==> #[trigger] struct_def_self_owned(m, k),
    ensures
        spec_verify(m) == Err::<(), Violation>(
            Violation {
                kind: IndexKind::StructDefinition,
                index: i as usize,
                code: StatusCode::InvalidModuleOwner,
            },
        ),
{
    lemma_table_scan_iffs(m);
    lemma_check_acquires_none_iff(m);
    lemma_check_field_rules_none_iff(m);
    let po = |k: int| !struct_def_self_owned(m, k);
    assert forall|k: int| 0 <= k < i implies !(#[trigger] po(k)) by {
        assert(struct_def_self_owned(m, k));
    }
    lemma_first_from_found(m.struct_defs@.len() as int, po, 0, i);
}

/// A function definition whose handle is owned by a module other than the
/// self module is rejected with [`StatusCode::InvalidModuleOwner`], once
/// everything checked before it passes.
pub proof fn lemma_foreign_function_def_rejected(m: CompiledModule, i: int)
    requires
        tables_dup_free(m),
        acquires_ok(m),
        field_rules_ok(m),
        forall|k: int| 0 <= k < m.struct_defs@.len() ==> #[trigger] struct_def_self_owned(m, k),
        0 <= i < m.function_defs@.len(),
        !function_def_self_owned(m, i),
        forall|k: int| 0 <= k < i ==> #[trigger] function_def_self_owned(m, k),
    ensures
        spec_verify(m) == Err::<(), Violation>(
            Violation {
                kind: IndexKind::FunctionDefinition,
                index: i as usize,
                code: StatusCode::InvalidModuleOwner,
            },
        ),
{
    lemma_table_scan_iffs(m);
    lemma_check_acquires_none_iff(m);
    lemma_check_field_rules_none_iff(m);
    lemma_check_struct_owners_none_iff(m);
    let po = |k: int| !function_def_self_owned(m, k);
    assert forall|k: int| 0 <= k < i implies !(#[trigger] po(k)) by {
        assert(function_def_self_owned(m, k));
    }
    lemma_first_from_found(m.function_defs@.len() as int, po, 0, i);
}

/// Totality: a struct handle owned by the self module with no definition
/// referencing it is reported as unimplemented at its own position, once
/// everything checked before it passes and no earlier handle is
/// unimplemented.
pub proof fn lemma_unimplemented_struct_handle_reported(m: CompiledModule, h: int)
    requires
        tables_dup_free(m),
        acquires_ok(m),
        field_rules_ok(m),
        owners_ok(m),
        0 <= h < m.struct_handles@.len(),
        m.struct_handles@[h].module == m.self_module_handle_idx,
        forall|d: int|
            0 <= d < m.struct_defs@.len() ==> (#[trigger] m.struct_defs@[d]).struct_handle as int
                != h,
        forall|k: int| 0 <= k < h ==> !(#[trigger] struct_handle_unimplemented(m, k)),
    ensures
        spec_verify(m) == Err::<(), Violation>(
            Violation {
                kind: IndexKind::StructHandle,
                index: h as usize,
                code: StatusCode::UnimplementedHandle,
            },
        ),
{
    lemma_table_scan_iffs(m);
    lemma_check_acquires_none_iff(m);
    lemma_check_field_rules_none_iff(m);
    lemma_check_struct_owners_none_iff(m);
    lemma_check_function_owners_none_iff(m);
    let pt = |k: int| struct_handle_unimplemented(m, k);
    assert(!struct_handle_implemented(m, h));
    assert(pt(h));
    lemma_first_from_found(m.struct_handles@.len() as int, pt, 0, h);
}

/// Totality, the other way: when every struct handle owned by the self
/// module has a definition — such as after adding exactly the missing one —
/// the struct totality check passes.
pub proof fn lemma_implemented_struct_handles_pass(m: CompiledModule)
    requires
        forall|h: int|
            0 <= h < m.struct_handles@.len() ==> ((#[trigger] m.struct_handles@[h]).module
                == m.self_module_handle_idx ==> struct_handle_implemented(m, h)),
    ensures
        check_struct_totality(m) is None,
{
    let pt = |k: int| struct_handle_unimplemented(m, k);
    assert forall|k: int| 0 <= k < m.struct_handles@.len() implies !(#[trigger] pt(k)) by {
        assert(m.struct_handles@[k].module == m.self_module_handle_idx
            ==> struct_handle_implemented(m, k));
    }
    lemma_first_from_none(m.struct_handles@.len() as int, pt, 0);
}

} // verus!
