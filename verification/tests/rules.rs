//! The acquires, field, ownership and zero-size rules, on concrete modules.

use duplication_checker::checker::DuplicationChecker;
use duplication_checker::errors::{IndexKind, StatusCode, Violation};
use duplication_checker::file_format::{
    CompiledModule, Constant, FieldDefinition, FieldHandle, FieldInstantiation, FunctionDefinition,
    FunctionHandle, FunctionInstantiation, Identifier, ModuleHandle, Signature,
    StructDefInstantiation, StructDefinition, StructFieldInformation, StructHandle,
};

fn empty_module() -> CompiledModule {
    CompiledModule {
        identifiers: Vec::<Identifier>::new(),
        constant_pool: Vec::<Constant>::new(),
        signatures: Vec::<Signature>::new(),
        module_handles: Vec::<ModuleHandle>::new(),
        struct_handles: Vec::<StructHandle>::new(),
        function_handles: Vec::<FunctionHandle>::new(),
        field_handles: Vec::<FieldHandle>::new(),
        struct_instantiations: Vec::<StructDefInstantiation>::new(),
        function_instantiations: Vec::<FunctionInstantiation>::new(),
        field_instantiations: Vec::<FieldInstantiation>::new(),
        struct_defs: Vec::<StructDefinition>::new(),
        function_defs: Vec::<FunctionDefinition>::new(),
        self_module_handle_idx: 0,
    }
}

fn ident(s: &str) -> Identifier {
    Identifier { bytes: s.as_bytes().to_vec() }
}

fn struct_handle(module: u16, name: u16) -> StructHandle {
    StructHandle { module, name, is_nominal_resource: false, type_parameter_count: 0 }
}

fn function_handle(module: u16, name: u16) -> FunctionHandle {
    FunctionHandle { module, name, parameters: 0, return_sig: 0, type_parameter_count: 0 }
}

fn field(name: u16) -> FieldDefinition {
    FieldDefinition { name, type_desc: vec![1] }
}

fn violation(kind: IndexKind, index: usize, code: StatusCode) -> Violation {
    Violation { kind, index, code }
}

/// A module with one self-owned struct (one field) and two self-owned
/// functions, whose acquires lists the test chooses.
fn module_with_acquires(first: Vec<u16>, second: Vec<u16>) -> CompiledModule {
    let mut m = empty_module();
    m.identifiers = vec![ident("m"), ident("S"), ident("f"), ident("g"), ident("x")];
    m.module_handles = vec![ModuleHandle { address: 0, name: 0 }];
    m.struct_handles = vec![struct_handle(0, 1)];
    m.function_handles = vec![function_handle(0, 2), function_handle(0, 3)];
    m.struct_defs = vec![StructDefinition {
        struct_handle: 0,
        field_information: StructFieldInformation::Declared(vec![field(4)]),
    }];
    m.function_defs = vec![
        FunctionDefinition { function: 0, acquires_global_resources: first },
        FunctionDefinition { function: 1, acquires_global_resources: second },
    ];
    m
}

#[test]
fn two_functions_may_acquire_the_same_struct() {
    let m = module_with_acquires(vec![0], vec![0]);
    assert_eq!(DuplicationChecker::verify(&m), Ok(()));
}

#[test]
fn one_function_acquiring_the_same_struct_twice_rejected() {
    let m = module_with_acquires(vec![0], vec![0, 0]);
    assert_eq!(
        DuplicationChecker::verify(&m),
        Err(violation(IndexKind::FunctionDefinition, 1, StatusCode::DuplicateAcquiresAnnotation)),
    );
}

#[test]
fn declared_struct_with_no_fields_rejected() {
    let mut m = empty_module();
    m.identifiers = vec![ident("m"), ident("S")];
    m.module_handles = vec![ModuleHandle { address: 0, name: 0 }];
    m.struct_handles = vec![struct_handle(0, 1)];
    m.struct_defs = vec![StructDefinition {
        struct_handle: 0,
        field_information: StructFieldInformation::Declared(vec![]),
    }];
    assert_eq!(
        DuplicationChecker::verify(&m),
        Err(violation(IndexKind::StructDefinition, 0, StatusCode::ZeroSizedStruct)),
    );
}

#[test]
fn struct_with_two_distinct_field_names_accepted() {
    let mut m = empty_module();
    m.identifiers = vec![ident("m"), ident("S"), ident("x"), ident("y")];
    m.module_handles = vec![ModuleHandle { address: 0, name: 0 }];
    m.struct_handles = vec![struct_handle(0, 1)];
    m.struct_defs = vec![StructDefinition {
        struct_handle: 0,
        field_information: StructFieldInformation::Declared(vec![field(2), field(3)]),
    }];
    assert_eq!(DuplicationChecker::verify(&m), Ok(()));
}

#[test]
fn struct_with_repeated_field_name_rejected() {
    let mut m = empty_module();
    m.identifiers = vec![ident("m"), ident("S"), ident("x")];
    m.module_handles = vec![ModuleHandle { address: 0, name: 0 }];
    m.struct_handles = vec![struct_handle(0, 1)];
    m.struct_defs = vec![StructDefinition {
        struct_handle: 0,
        field_information: StructFieldInformation::Declared(vec![field(2), field(2)]),
    }];
    assert_eq!(
        DuplicationChecker::verify(&m),
        Err(violation(IndexKind::FieldDefinition, 1, StatusCode::DuplicateElement)),
    );
}

#[test]
fn struct_definition_owned_by_another_module_rejected() {
    let mut m = empty_module();
    m.identifiers = vec![ident("m"), ident("other"), ident("S"), ident("x")];
    m.module_handles = vec![
        ModuleHandle { address: 0, name: 0 },
        ModuleHandle { address: 1, name: 1 },
    ];
    // The handle is owned by module handle 1, not the self handle 0, and a
    // definition for it exists: still rejected.
    m.struct_handles = vec![struct_handle(1, 2)];
    m.struct_defs = vec![StructDefinition {
        struct_handle: 0,
        field_information: StructFieldInformation::Declared(vec![field(3)]),
    }];
    assert_eq!(
        DuplicationChecker::verify(&m),
        Err(violation(IndexKind::StructDefinition, 0, StatusCode::InvalidModuleOwner)),
    );
}

#[test]
fn function_definition_owned_by_another_module_rejected() {
    let mut m = empty_module();
    m.identifiers = vec![ident("m"), ident("other"), ident("f")];
    m.module_handles = vec![
        ModuleHandle { address: 0, name: 0 },
        ModuleHandle { address: 1, name: 1 },
    ];
    m.function_handles = vec![function_handle(1, 2)];
    m.function_defs = vec![FunctionDefinition { function: 0, acquires_global_resources: vec![] }];
    assert_eq!(
        DuplicationChecker::verify(&m),
        Err(violation(IndexKind::FunctionDefinition, 0, StatusCode::InvalidModuleOwner)),
    );
}

#[test]
fn handle_owned_elsewhere_needs_no_definition() {
    // A struct handle owned by an imported module has no definition here;
    // the totality check does not apply to it.
    let mut m = empty_module();
    m.identifiers = vec![ident("m"), ident("other"), ident("S")];
    m.module_handles = vec![
        ModuleHandle { address: 0, name: 0 },
        ModuleHandle { address: 1, name: 1 },
    ];
    m.struct_handles = vec![struct_handle(1, 2)];
    assert_eq!(DuplicationChecker::verify(&m), Ok(()));
}
