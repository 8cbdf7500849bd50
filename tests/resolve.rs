use c_front::derived::derived_type_;
use c_front::extract::{get_decl_info, get_fn_info, name_from_decl, name_from_ident};
use c_front::specifiers::{compress_type, d_type_, s_type_, type_};
use c_front::syntax::{
    ArraySize, Constant, Declaration, DeclarationSpecifier, Declarator, DeclaratorKind,
    DerivedDeclarator, Expression, FunctionDefinition, SpecifierQualifier, TypeSpecifier,
};
use c_front::{DeclInfo, ResolveError, Ty};

fn ts(t: TypeSpecifier) -> DeclarationSpecifier {
    DeclarationSpecifier::TypeSpecifier(t)
}

fn int32() -> Ty {
    Ty::Int(true, 32)
}

fn literal(digits: &str) -> DerivedDeclarator<u32> {
    DerivedDeclarator::Array(ArraySize::VariableExpression(Expression::Constant(
        Constant::Integer(digits.to_string()),
    )))
}

fn ident(name: &str) -> Declarator<u32> {
    Declarator { kind: DeclaratorKind::Identifier(name.to_string()), derived: vec![] }
}

#[test]
fn single_specifiers_resolve_to_their_types() {
    assert_eq!(d_type_(vec![ts(TypeSpecifier::Int)]), Ok(Some(Ty::Int(true, 32))));
    assert_eq!(d_type_(vec![ts(TypeSpecifier::Unsigned)]), Ok(Some(Ty::Int(false, 32))));
    assert_eq!(d_type_(vec![ts(TypeSpecifier::Bool)]), Ok(Some(Ty::Bool)));
    assert_eq!(d_type_(vec![ts(TypeSpecifier::Void)]), Ok(None));
}

#[test]
fn single_specifier_qualifiers_resolve_to_their_types() {
    let sq = |t| SpecifierQualifier::TypeSpecifier(t);
    assert_eq!(s_type_(vec![sq(TypeSpecifier::Int)]), Ok(Some(Ty::Int(true, 32))));
    assert_eq!(s_type_(vec![sq(TypeSpecifier::Unsigned)]), Ok(Some(Ty::Int(false, 32))));
    assert_eq!(s_type_(vec![sq(TypeSpecifier::Bool)]), Ok(Some(Ty::Bool)));
    assert_eq!(s_type_(vec![sq(TypeSpecifier::Void)]), Ok(None));
    assert_eq!(
        s_type_(vec![sq(TypeSpecifier::Int), SpecifierQualifier::TypeQualifier]),
        Err(ResolveError::UnsupportedSpecifier { index: 1 })
    );
}

#[test]
fn type_of_one_specifier() {
    assert_eq!(type_(&TypeSpecifier::Int), Some(Some(Ty::Int(true, 32))));
    assert_eq!(type_(&TypeSpecifier::Void), Some(None));
    assert_eq!(type_(&TypeSpecifier::Long), None);
}

#[test]
fn unsupported_specifiers_are_refused_with_their_position() {
    assert_eq!(
        d_type_(vec![ts(TypeSpecifier::Char)]),
        Err(ResolveError::UnsupportedSpecifier { index: 0 })
    );
    assert_eq!(
        d_type_(vec![DeclarationSpecifier::StorageClass, ts(TypeSpecifier::Int)]),
        Err(ResolveError::UnsupportedSpecifier { index: 0 })
    );
    // An unsupported specifier is reported before any composition fault.
    assert_eq!(
        d_type_(vec![ts(TypeSpecifier::Int), ts(TypeSpecifier::Unsigned), ts(TypeSpecifier::Other)]),
        Err(ResolveError::UnsupportedSpecifier { index: 2 })
    );
}

#[test]
fn unsigned_int_in_order() {
    assert_eq!(
        d_type_(vec![ts(TypeSpecifier::Unsigned), ts(TypeSpecifier::Int)]),
        Ok(Some(Ty::Int(false, 32)))
    );
}

#[test]
fn int_unsigned_reversed_is_refused() {
    assert_eq!(
        d_type_(vec![ts(TypeSpecifier::Int), ts(TypeSpecifier::Unsigned)]),
        Err(ResolveError::UnsignedNotFirst { index: 1 })
    );
}

#[test]
fn composite_rules() {
    // A plain int adds no width.
    assert_eq!(
        d_type_(vec![ts(TypeSpecifier::Int), ts(TypeSpecifier::Int)]),
        Ok(Some(Ty::Int(true, 0)))
    );
    assert_eq!(
        d_type_(vec![ts(TypeSpecifier::Bool), ts(TypeSpecifier::Int)]),
        Err(ResolveError::NotAnInteger { index: 0 })
    );
    assert_eq!(
        d_type_(vec![ts(TypeSpecifier::Unsigned), ts(TypeSpecifier::Void)]),
        Err(ResolveError::NotAnInteger { index: 1 })
    );
    assert_eq!(
        compress_type(&vec![Some(Ty::Int(false, 16)), Some(Ty::Int(true, 8))]),
        Ok(Some(Ty::Int(false, 16)))
    );
    assert_eq!(compress_type(&vec![Some(Ty::Bool)]), Ok(Some(Ty::Bool)));
    assert_eq!(compress_type(&vec![]), Ok(Some(Ty::Int(true, 0))));
}

#[test]
fn array_suffix_with_literal_size() {
    let r = derived_type_(int32(), vec![literal("10")]);
    assert_eq!(r, Ok(Ty::Array(Some(10), Box::new(int32()))));
    let r = derived_type_(Ty::Bool, vec![literal("+7")]);
    assert_eq!(r, Ok(Ty::Array(Some(7), Box::new(Ty::Bool))));
}

#[test]
fn array_suffix_without_constant_size() {
    let none = Ok(Ty::Array(None, Box::new(int32())));
    assert_eq!(derived_type_(int32(), vec![DerivedDeclarator::<u32>::Array(ArraySize::Unknown)]), none);
    assert_eq!(
        derived_type_(int32(), vec![DerivedDeclarator::<u32>::Array(ArraySize::VariableUnknown)]),
        none
    );
    let symbolic = ArraySize::VariableExpression(Expression::Identifier("n".to_string()));
    assert_eq!(derived_type_(int32(), vec![DerivedDeclarator::<u32>::Array(symbolic)]), none);
    let fixed = ArraySize::StaticExpression(Expression::Constant(Constant::Integer("5".to_string())));
    assert_eq!(derived_type_(int32(), vec![DerivedDeclarator::<u32>::Array(fixed)]), none);
    let other = ArraySize::VariableExpression(Expression::Constant(Constant::Other));
    assert_eq!(derived_type_(int32(), vec![DerivedDeclarator::<u32>::Array(other)]), none);
}

#[test]
fn malformed_array_sizes_are_refused() {
    assert_eq!(
        derived_type_(int32(), vec![literal("ff")]),
        Err(ResolveError::BadArrayLength { index: 0 })
    );
    assert_eq!(
        derived_type_(int32(), vec![literal("2"), literal("99999999999999999999999")]),
        Err(ResolveError::BadArrayLength { index: 1 })
    );
    assert_eq!(derived_type_(int32(), vec![literal("")]), Err(ResolveError::BadArrayLength { index: 0 }));
}

#[test]
fn two_stacked_array_suffixes() {
    let r = derived_type_(int32(), vec![literal("2"), literal("3")]);
    assert_eq!(r, Ok(Ty::Array(Some(2), Box::new(Ty::Array(Some(3), Box::new(int32()))))));
}

#[test]
fn three_stacked_array_suffixes_keep_outer_and_last() {
    let r = derived_type_(int32(), vec![literal("2"), literal("3"), literal("4")]);
    assert_eq!(r, Ok(Ty::Array(Some(2), Box::new(Ty::Array(Some(4), Box::new(int32()))))));
}

#[test]
fn array_base_keeps_its_length_outside() {
    let base = Ty::Array(Some(2), Box::new(int32()));
    let r = derived_type_(base.clone(), vec![literal("3")]);
    assert_eq!(r, Ok(Ty::Array(Some(2), Box::new(Ty::Array(Some(3), Box::new(base))))));
}

#[test]
fn empty_suffixes_leave_the_base() {
    assert_eq!(derived_type_(Ty::Bool, Vec::<DerivedDeclarator<u32>>::new()), Ok(Ty::Bool));
}

#[test]
fn pointer_and_other_suffixes_are_refused() {
    assert_eq!(
        derived_type_(int32(), vec![DerivedDeclarator::<u32>::Pointer]),
        Err(ResolveError::PointerUnsupported { index: 0 })
    );
    assert_eq!(
        derived_type_(int32(), vec![literal("4"), DerivedDeclarator::Function(vec![1u32])]),
        Err(ResolveError::UnsupportedDerived { index: 1 })
    );
    assert_eq!(
        derived_type_(int32(), vec![DerivedDeclarator::<u32>::Block]),
        Err(ResolveError::UnsupportedDerived { index: 0 })
    );
}

#[test]
fn resolving_twice_gives_equal_types() {
    let specs = vec![ts(TypeSpecifier::Unsigned), ts(TypeSpecifier::Int)];
    assert_eq!(d_type_(specs.clone()), d_type_(specs));
    let derived = vec![literal("2"), literal("3")];
    assert_eq!(derived_type_(int32(), derived.clone()), derived_type_(int32(), derived));
}

#[test]
fn ty_clone_is_equal() {
    let t = Ty::Array(None, Box::new(Ty::Array(Some(3), Box::new(Ty::Bool))));
    assert_eq!(t.duplicate(), t);
    assert_eq!(t.clone(), t);
}

#[test]
fn declaration_with_two_declarators_is_refused() {
    let decl = Declaration { specifiers: vec![ts(TypeSpecifier::Int)], declarators: vec![ident("a"), ident("b")] };
    assert_eq!(get_decl_info(decl), Err(ResolveError::DeclaratorCount { count: 2 }));
    let none: Declaration<u32> = Declaration { specifiers: vec![ts(TypeSpecifier::Int)], declarators: vec![] };
    assert_eq!(get_decl_info(none), Err(ResolveError::DeclaratorCount { count: 0 }));
}

#[test]
fn declaration_of_one_variable() {
    let decl = Declaration {
        specifiers: vec![ts(TypeSpecifier::Unsigned), ts(TypeSpecifier::Int)],
        declarators: vec![ident("x")],
    };
    assert_eq!(get_decl_info(decl), Ok(DeclInfo { name: "x".to_string(), ty: Ty::Int(false, 32) }));
    // Array suffixes are left to the caller.
    let mut arr = ident("a");
    arr.derived.push(literal("4"));
    let decl = Declaration { specifiers: vec![ts(TypeSpecifier::Bool)], declarators: vec![arr] };
    assert_eq!(get_decl_info(decl), Ok(DeclInfo { name: "a".to_string(), ty: Ty::Bool }));
}

#[test]
fn declaration_errors() {
    let decl = Declaration { specifiers: vec![ts(TypeSpecifier::Void)], declarators: vec![ident("v")] };
    assert_eq!(get_decl_info(decl), Err(ResolveError::VoidVariable));
    let nested: Declarator<u32> = Declarator { kind: DeclaratorKind::Nested, derived: vec![] };
    let decl = Declaration { specifiers: vec![ts(TypeSpecifier::Int)], declarators: vec![nested] };
    assert_eq!(get_decl_info(decl), Err(ResolveError::NotAnIdentifier));
    let decl = Declaration { specifiers: vec![ts(TypeSpecifier::Short)], declarators: vec![ident("s")] };
    assert_eq!(get_decl_info(decl), Err(ResolveError::UnsupportedSpecifier { index: 0 }));
}

#[test]
fn names_from_declarators() {
    assert_eq!(name_from_decl(&ident("x")), Ok("x".to_string()));
    let nested: Declarator<u32> = Declarator { kind: DeclaratorKind::Nested, derived: vec![] };
    assert_eq!(name_from_decl(&nested), Err(ResolveError::NotAnIdentifier));
    let abs: Declarator<u32> = Declarator { kind: DeclaratorKind::Abstract, derived: vec![] };
    assert_eq!(name_from_decl(&abs), Err(ResolveError::NotAnIdentifier));
}

#[test]
fn names_from_expressions() {
    assert_eq!(name_from_ident(&Expression::Identifier("i".to_string())), Ok("i".to_string()));
    assert_eq!(
        name_from_ident(&Expression::Constant(Constant::Integer("1".to_string()))),
        Err(ResolveError::NotAnIdentifier)
    );
}

#[test]
fn function_definition_signature() {
    let params = vec!["int a", "int b"];
    let declarator = Declarator {
        kind: DeclaratorKind::Identifier("f".to_string()),
        derived: vec![DerivedDeclarator::Function(params.clone())],
    };
    let def = FunctionDefinition {
        specifiers: vec![ts(TypeSpecifier::Void)],
        declarator,
        statement: "{ return; }",
    };
    let info = get_fn_info(def).unwrap();
    assert_eq!(info.name, "f");
    assert_eq!(info.ret_ty, None);
    assert_eq!(info.args, params);
    assert_eq!(info.args.len(), 2);
    assert_eq!(info.body, "{ return; }");
}

#[test]
fn function_definition_uses_first_parameter_list() {
    let declarator = Declarator {
        kind: DeclaratorKind::Identifier("g".to_string()),
        derived: vec![
            DerivedDeclarator::Pointer,
            DerivedDeclarator::Function(vec![1u32]),
            DerivedDeclarator::Function(vec![2u32, 3u32]),
        ],
    };
    let def = FunctionDefinition { specifiers: vec![ts(TypeSpecifier::Int)], declarator, statement: 7u8 };
    let info = get_fn_info(def).unwrap();
    assert_eq!(info.ret_ty, Some(int32()));
    assert_eq!(info.args, vec![1u32]);
    assert_eq!(info.body, 7u8);
}

#[test]
fn function_definition_errors() {
    let def = FunctionDefinition {
        specifiers: vec![ts(TypeSpecifier::Int)],
        declarator: ident("h"),
        statement: (),
    };
    assert_eq!(get_fn_info(def).unwrap_err(), ResolveError::NoParameterList);
    let def = FunctionDefinition {
        specifiers: vec![ts(TypeSpecifier::Int)],
        declarator: Declarator { kind: DeclaratorKind::Nested, derived: vec![DerivedDeclarator::<u32>::Function(vec![])] },
        statement: (),
    };
    assert_eq!(get_fn_info(def).unwrap_err(), ResolveError::NotAnIdentifier);
    let def = FunctionDefinition {
        specifiers: vec![ts(TypeSpecifier::Int), ts(TypeSpecifier::Unsigned)],
        declarator: Declarator {
            kind: DeclaratorKind::Identifier("k".to_string()),
            derived: vec![DerivedDeclarator::<u32>::Function(vec![])],
        },
        statement: (),
    };
    assert_eq!(get_fn_info(def).unwrap_err(), ResolveError::UnsignedNotFirst { index: 1 });
}
