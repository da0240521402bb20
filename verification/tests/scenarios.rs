use duplication_checker::checker::DuplicationChecker;
use duplication_checker::errors::{IndexKind, StatusCode, Violation};
use duplication_checker::file_format::{
    CompiledModule, Constant, FieldDefinition, FieldHandle, FieldInstantiation, FunctionDefinition,
    FunctionHandle, FunctionInstantiation, Identifier, ModuleHandle, Signature,
    StructDefInstantiation, StructDefinition, StructFieldInformation, StructHandle,
};

fn empty_module() -> CompiledModule {
    CompiledModule {
        identifiers: Vec::<Identifier>::new(),
        constant_pool: Vec::<Constant>::new(),
        signatures: Vec::<Signature>::new(),
        module_handles: Vec::<ModuleHandle>::new(),
        struct_handles: Vec::<StructHandle>::new(),
        function_handles: Vec::<FunctionHandle>::new(),
        field_handles: Vec::<FieldHandle>::new(),
        struct_instantiations: Vec::<StructDefInstantiation>::new(),
        function_instantiations: Vec::<FunctionInstantiation>::new(),
        field_instantiations: Vec::<FieldInstantiation>::new(),
        struct_defs: Vec::<StructDefinition>::new(),
        function_defs: Vec::<FunctionDefinition>::new(),
        self_module_handle_idx: 0,
    }
}

fn ident(s: &str) -> Identifier {
    Identifier { bytes: s.as_bytes().to_vec() }
}

fn struct_handle(module: u16, name: u16) -> StructHandle {
    StructHandle { module, name, is_nominal_resource: false, type_parameter_count: 0 }
}

fn function_handle(module: u16, name: u16) -> FunctionHandle {
    FunctionHandle { module, name, parameters: 0, return_sig: 0, type_parameter_count: 0 }
}

fn field(name: u16) -> FieldDefinition {
    FieldDefinition { name, type_desc: vec![1] }
}

fn violation(kind: IndexKind, index: usize, code: StatusCode) -> Violation {
    Violation { kind, index, code }
}

/// A fully well-formed minimal module: one self struct handle with a
/// matching one-field definition, one self function handle with a matching
/// definition, no acquires.
fn minimal_module() -> CompiledModule {
    let mut m = empty_module();
    m.identifiers = vec![ident("m"), ident("S"), ident("f"), ident("x")];
    m.module_handles = vec![ModuleHandle { address: 0, name: 0 }];
    m.struct_handles = vec![struct_handle(0, 1)];
    m.function_handles = vec![function_handle(0, 2)];
    m.struct_defs = vec![StructDefinition {
        struct_handle: 0,
        field_information: StructFieldInformation::Declared(vec![field(3)]),
    }];
    m.function_defs = vec![FunctionDefinition {
        function: 0,
        acquires_global_resources: vec![],
    }];
    m
}

#[test]
fn empty_module_is_consistent() {
    let m = empty_module();
    assert_eq!(DuplicationChecker::verify(&m), Ok(()));
}

#[test]
fn repeated_identifier_rejected_at_second_occurrence() {
    let mut m = empty_module();
    m.identifiers = vec![ident("a"), ident("b"), ident("a")];
    assert_eq!(
        DuplicationChecker::verify(&m),
        Err(violation(IndexKind::Identifier, 2, StatusCode::DuplicateElement)),
    );
}

#[test]
fn self_struct_handle_without_definition_rejected() {
    let mut m = empty_module();
    m.identifiers = vec![ident("m"), ident("S")];
    m.module_handles = vec![ModuleHandle { address: 0, name: 0 }];
    m.struct_handles = vec![struct_handle(0, 1)];
    assert_eq!(
        DuplicationChecker::verify(&m),
        Err(violation(IndexKind::StructHandle, 0, StatusCode::UnimplementedHandle)),
    );
}

#[test]
fn adding_the_missing_definition_makes_it_pass() {
    let mut m = empty_module();
    m.identifiers = vec![ident("m"), ident("S")];
    m.module_handles = vec![ModuleHandle { address: 0, name: 0 }];
    m.struct_handles = vec![struct_handle(0, 1)];
    m.struct_defs = vec![StructDefinition {
        struct_handle: 0,
        field_information: StructFieldInformation::Declared(vec![field(1)]),
    }];
    assert_eq!(DuplicationChecker::verify(&m), Ok(()));
}

#[test]
fn self_function_handle_without_definition_rejected() {
    let mut m = empty_module();
    m.identifiers = vec![ident("m"), ident("f")];
    m.module_handles = vec![ModuleHandle { address: 0, name: 0 }];
    m.function_handles = vec![function_handle(0, 1)];
    assert_eq!(
        DuplicationChecker::verify(&m),
        Err(violation(IndexKind::FunctionHandle, 0, StatusCode::UnimplementedHandle)),
    );
}

#[test]
fn native_struct_with_no_fields_accepted() {
    let mut m = empty_module();
    m.identifiers = vec![ident("m"), ident("S")];
    m.module_handles = vec![ModuleHandle { address: 0, name: 0 }];
    m.struct_handles = vec![struct_handle(0, 1)];
    m.struct_defs = vec![StructDefinition {
        struct_handle: 0,
        field_information: StructFieldInformation::Native,
    }];
    assert_eq!(DuplicationChecker::verify(&m), Ok(()));
}

#[test]
fn repeated_field_name_rejected_at_position_within_struct() {
    let mut m = empty_module();
    m.identifiers = vec![ident("m"), ident("S"), ident("x"), ident("y")];
    m.module_handles = vec![ModuleHandle { address: 0, name: 0 }];
    m.struct_handles = vec![struct_handle(0, 1)];
    m.struct_defs = vec![StructDefinition {
        struct_handle: 0,
        field_information: StructFieldInformation::Declared(vec![field(2), field(3), field(2)]),
    }];
    assert_eq!(
        DuplicationChecker::verify(&m),
        Err(violation(IndexKind::FieldDefinition, 2, StatusCode::DuplicateElement)),
    );
}

#[test]
fn minimal_well_formed_module_accepted() {
    let m = minimal_module();
    assert_eq!(DuplicationChecker::verify(&m), Ok(()));
}

#[test]
fn verifying_twice_yields_the_identical_result() {
    let ok = minimal_module();
    assert_eq!(DuplicationChecker::verify(&ok), DuplicationChecker::verify(&ok));

    let mut bad = empty_module();
    bad.identifiers = vec![ident("a"), ident("b"), ident("a")];
    let first = DuplicationChecker::verify(&bad);
    let second = DuplicationChecker::verify(&bad);
    assert_eq!(first, second);
    assert_eq!(
        first,
        Err(violation(IndexKind::Identifier, 2, StatusCode::DuplicateElement)),
    );
}
