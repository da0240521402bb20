//! One duplicate per table, all other tables valid: the checker reports
//! `DuplicateElement` in that table at the second occurrence's position.

use duplication_checker::checker::DuplicationChecker;
use duplication_checker::errors::{IndexKind, StatusCode, Violation};
use duplication_checker::file_format::{
    CompiledModule, Constant, FieldDefinition, FieldHandle, FieldInstantiation, FunctionDefinition,
    FunctionHandle, FunctionInstantiation, Identifier, ModuleHandle, Signature,
    StructDefInstantiation, StructDefinition, StructFieldInformation, StructHandle,
};

fn empty_module() -> CompiledModule {
    CompiledModule {
        identifiers: Vec::<Identifier>::new(),
        constant_pool: Vec::<Constant>::new(),
        signatures: Vec::<Signature>::new(),
        module_handles: Vec::<ModuleHandle>::new(),
        struct_handles: Vec::<StructHandle>::new(),
        function_handles: Vec::<FunctionHandle>::new(),
        field_handles: Vec::<FieldHandle>::new(),
        struct_instantiations: Vec::<StructDefInstantiation>::new(),
        function_instantiations: Vec::<FunctionInstantiation>::new(),
        field_instantiations: Vec::<FieldInstantiation>::new(),
        struct_defs: Vec::<StructDefinition>::new(),
        function_defs: Vec::<FunctionDefinition>::new(),
        self_module_handle_idx: 0,
    }
}

fn ident(s: &str) -> Identifier {
    Identifier { bytes: s.as_bytes().to_vec() }
}

fn duplicate(kind: IndexKind, index: usize) -> Result<(), Violation> {
    Err(Violation { kind, index, code: StatusCode::DuplicateElement })
}

#[test]
fn duplicate_identifier() {
    let mut m = empty_module();
    m.identifiers = vec![ident("a"), ident("a")];
    assert_eq!(DuplicationChecker::verify(&m), duplicate(IndexKind::Identifier, 1));
}

#[test]
fn duplicate_constant() {
    let mut m = empty_module();
    m.constant_pool = vec![
        Constant { type_desc: vec![2], data: vec![7] },
        Constant { type_desc: vec![2], data: vec![8] },
        Constant { type_desc: vec![2], data: vec![7] },
    ];
    assert_eq!(DuplicationChecker::verify(&m), duplicate(IndexKind::ConstantPool, 2));
}

#[test]
fn duplicate_signature() {
    let mut m = empty_module();
    m.signatures = vec![
        Signature { tokens: vec![] },
        Signature { tokens: vec![1, 2] },
        Signature { tokens: vec![1, 2] },
    ];
    assert_eq!(DuplicationChecker::verify(&m), duplicate(IndexKind::Signature, 2));
}

#[test]
fn duplicate_module_handle() {
    let mut m = empty_module();
    m.identifiers = vec![ident("m")];
    m.module_handles = vec![
        ModuleHandle { address: 0, name: 0 },
        ModuleHandle { address: 0, name: 0 },
    ];
    assert_eq!(DuplicationChecker::verify(&m), duplicate(IndexKind::ModuleHandle, 1));
}

#[test]
fn duplicate_struct_handle_despite_different_metadata() {
    let mut m = empty_module();
    m.identifiers = vec![ident("m"), ident("S")];
    m.module_handles = vec![ModuleHandle { address: 0, name: 0 }];
    // Same owner and name; the differing metadata does not take part in
    // the uniqueness key.
    m.struct_handles = vec![
        StructHandle { module: 0, name: 1, is_nominal_resource: false, type_parameter_count: 0 },
        StructHandle { module: 0, name: 1, is_nominal_resource: true, type_parameter_count: 3 },
    ];
    assert_eq!(DuplicationChecker::verify(&m), duplicate(IndexKind::StructHandle, 1));
}

#[test]
fn duplicate_function_handle_despite_different_metadata() {
    let mut m = empty_module();
    m.identifiers = vec![ident("m"), ident("f")];
    m.module_handles = vec![ModuleHandle { address: 0, name: 0 }];
    m.function_handles = vec![
        FunctionHandle { module: 0, name: 1, parameters: 0, return_sig: 0, type_parameter_count: 0 },
        FunctionHandle { module: 0, name: 1, parameters: 2, return_sig: 3, type_parameter_count: 1 },
    ];
    assert_eq!(DuplicationChecker::verify(&m), duplicate(IndexKind::FunctionHandle, 1));
}

#[test]
fn duplicate_field_handle() {
    let mut m = empty_module();
    m.field_handles = vec![
        FieldHandle { owner: 0, field: 0 },
        FieldHandle { owner: 0, field: 1 },
        FieldHandle { owner: 0, field: 0 },
    ];
    assert_eq!(DuplicationChecker::verify(&m), duplicate(IndexKind::FieldHandle, 2));
}

#[test]
fn duplicate_struct_instantiation() {
    let mut m = empty_module();
    m.struct_instantiations = vec![
        StructDefInstantiation { def: 0, type_parameters: 0 },
        StructDefInstantiation { def: 0, type_parameters: 0 },
    ];
    assert_eq!(
        DuplicationChecker::verify(&m),
        duplicate(IndexKind::StructDefInstantiation, 1),
    );
}

#[test]
fn duplicate_function_instantiation() {
    let mut m = empty_module();
    m.function_instantiations = vec![
        FunctionInstantiation { handle: 0, type_parameters: 0 },
        FunctionInstantiation { handle: 1, type_parameters: 0 },
        FunctionInstantiation { handle: 0, type_parameters: 0 },
    ];
    assert_eq!(
        DuplicationChecker::verify(&m),
        duplicate(IndexKind::FunctionInstantiation, 2),
    );
}

#[test]
fn duplicate_field_instantiation() {
    let mut m = empty_module();
    m.field_instantiations = vec![
        FieldInstantiation { handle: 0, type_parameters: 0 },
        FieldInstantiation { handle: 0, type_parameters: 0 },
    ];
    assert_eq!(DuplicationChecker::verify(&m), duplicate(IndexKind::FieldInstantiation, 1));
}

#[test]
fn duplicate_struct_definition_for_one_handle() {
    let mut m = empty_module();
    m.identifiers = vec![ident("m"), ident("S"), ident("x")];
    m.module_handles = vec![ModuleHandle { address: 0, name: 0 }];
    m.struct_handles = vec![
        StructHandle { module: 0, name: 1, is_nominal_resource: false, type_parameter_count: 0 },
    ];
    let def = || StructDefinition {
        struct_handle: 0,
        field_information: StructFieldInformation::Declared(vec![FieldDefinition {
            name: 2,
            type_desc: vec![1],
        }]),
    };
    m.struct_defs = vec![def(), def()];
    assert_eq!(DuplicationChecker::verify(&m), duplicate(IndexKind::StructDefinition, 1));
}

#[test]
fn duplicate_function_definition_for_one_handle() {
    let mut m = empty_module();
    m.identifiers = vec![ident("m"), ident("f")];
    m.module_handles = vec![ModuleHandle { address: 0, name: 0 }];
    m.function_handles = vec![
        FunctionHandle { module: 0, name: 1, parameters: 0, return_sig: 0, type_parameter_count: 0 },
    ];
    m.function_defs = vec![
        FunctionDefinition { function: 0, acquires_global_resources: vec![] },
        FunctionDefinition { function: 0, acquires_global_resources: vec![] },
    ];
    assert_eq!(DuplicationChecker::verify(&m), duplicate(IndexKind::FunctionDefinition, 1));
}

#[test]
fn scanner_reports_second_occurrence_of_first_repeat() {
    let items = vec![ident("a"), ident("b"), ident("a"), ident("b")];
    assert_eq!(duplication_checker::dup_scan::first_duplicate_element(&items), Some(2));
}

#[test]
fn scanner_finds_nothing_in_distinct_items() {
    let items = vec![ident("a"), ident("b"), ident("c")];
    assert_eq!(duplication_checker::dup_scan::first_duplicate_element(&items), None);
    let empty: Vec<Identifier> = Vec::new();
    assert_eq!(duplication_checker::dup_scan::first_duplicate_element(&empty), None);
}

#[test]
fn empty_identifiers_are_equal_too() {
    let mut m = empty_module();
    m.identifiers = vec![ident(""), ident("a"), ident("")];
    assert_eq!(DuplicationChecker::verify(&m), duplicate(IndexKind::Identifier, 2));
}

#[test]
fn first_failing_table_wins() {
    // Duplicates in two tables: the identifier table is checked first.
    let mut m = empty_module();
    m.identifiers = vec![ident("a"), ident("a")];
    m.signatures = vec![Signature { tokens: vec![] }, Signature { tokens: vec![] }];
    assert_eq!(DuplicationChecker::verify(&m), duplicate(IndexKind::Identifier, 1));
}
