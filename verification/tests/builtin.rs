use asm_builtins::builtin_catalog;
use asm_builtins::parse_builtin_keyword;
use asm_builtins::assembly_unsupported_builtin;
use asm_builtins::AssemblyBuiltInFunction;
use asm_builtins::BUILTIN_COUNT;

#[test]
fn test_builtin_indexes() {
    for item in &builtin_catalog() {
        let name = item.name;
        let ty = item.ty;

        let parsed_ty = parse_builtin_keyword(name).unwrap();
        assert_eq!(ty, parsed_ty);
        assert_eq!(name, parsed_ty.get_prototype_info().name);
    }
}

#[test]
fn resolve_add_prototype() {
    let ty = parse_builtin_keyword("add").unwrap();
    let proto = ty.get_prototype_info();
    assert_eq!(proto.name, "add");
    assert_eq!(proto.no_args, 2);
    assert_eq!(proto.no_returns, 1);
    assert!(!proto.stops_execution);
}

#[test]
fn resolve_stop_prototype() {
    let ty = parse_builtin_keyword("stop").unwrap();
    let proto = ty.get_prototype_info();
    assert_eq!(proto.name, "stop");
    assert_eq!(proto.no_args, 0);
    assert_eq!(proto.no_returns, 0);
    assert!(proto.stops_execution);
}

#[test]
fn resolve_call_prototype() {
    let ty = parse_builtin_keyword("call").unwrap();
    let proto = ty.get_prototype_info();
    assert_eq!(proto.name, "call");
    assert_eq!(proto.no_args, 7);
    assert_eq!(proto.no_returns, 1);
    assert!(!proto.stops_execution);
}

#[test]
fn datasize_is_unsupported_not_unknown() {
    assert!(parse_builtin_keyword("datasize").is_none());
    assert!(assembly_unsupported_builtin("datasize"));
}

#[test]
fn unknown_identifier_is_neither_supported_nor_unsupported() {
    assert!(parse_builtin_keyword("not_a_real_op").is_none());
    assert!(!assembly_unsupported_builtin("not_a_real_op"));
}

#[test]
fn lookup_is_case_sensitive() {
    assert!(parse_builtin_keyword("ADD").is_none());
    assert!(parse_builtin_keyword("Add").is_none());
    assert!(parse_builtin_keyword("STOP").is_none());
    assert!(!assembly_unsupported_builtin("DATASIZE"));
}

#[test]
fn empty_string_is_unknown() {
    assert!(parse_builtin_keyword("").is_none());
    assert!(!assembly_unsupported_builtin(""));
}

#[test]
fn every_unsupported_name_misses_the_catalog() {
    let unsupported = [
        "datasize",
        "dataoffset",
        "datacopy",
        "setimmutable",
        "loadimmutable",
        "linkersymbol",
        "memoryguard",
    ];
    for name in unsupported {
        assert!(assembly_unsupported_builtin(name), "{name}");
        assert!(parse_builtin_keyword(name).is_none(), "{name}");
    }
}

#[test]
fn catalog_names_are_never_unsupported() {
    for item in &builtin_catalog() {
        assert!(!assembly_unsupported_builtin(item.name), "{}", item.name);
    }
}

#[test]
fn catalog_is_ordered_by_discriminant() {
    let catalog = builtin_catalog();
    assert_eq!(catalog.len(), BUILTIN_COUNT);
    for (i, item) in catalog.iter().enumerate() {
        assert_eq!(item.ty.discriminant(), i);
        assert_eq!(AssemblyBuiltInFunction::from_discriminant(i), item.ty);
    }
}

#[test]
fn canonical_name_recovers_the_mnemonic() {
    assert_eq!(AssemblyBuiltInFunction::Add.canonical_name(), "add");
    assert_eq!(AssemblyBuiltInFunction::GasLimit.canonical_name(), "gaslimit");
    for item in &builtin_catalog() {
        assert_eq!(item.ty.canonical_name(), item.name);
    }
}

#[test]
fn prototype_docs_are_nonempty() {
    for item in &builtin_catalog() {
        assert!(!item.doc.is_empty(), "{}", item.name);
    }
}
