use ritual_core::cpp_type::{
    CppBuiltInNumericType, CppFunctionPointerType, CppPath, CppPathItem, CppPointerLikeTypeKind,
    CppTemplateParameter, CppType,
};
use ritual_core::error::CppError;

fn item(name: &str, args: Option<Vec<CppType>>) -> CppPathItem {
    CppPathItem { name: name.to_string(), template_arguments: args }
}

fn param(name: &str, index: usize) -> CppTemplateParameter {
    CppTemplateParameter { nested_level: 0, index, name: name.to_string() }
}

fn int_type() -> CppType {
    CppType::BuiltInNumeric(CppBuiltInNumericType::Int)
}

#[test]
fn path_code_joins_segments_with_spaced_template_arguments() {
    let p = CppPath {
        items: vec![
            item("std", None),
            item("map", Some(vec![int_type(), CppType::new_pointer(true, CppType::BuiltInNumeric(CppBuiltInNumericType::Char))])),
        ],
    };
    assert_eq!(p.to_cpp_code().unwrap(), "std::map< int, const char* >");
    assert_eq!(p.to_cpp_pseudo_code(), "std::map<int, const char*>");
}

#[test]
fn type_code_of_pointer_like_types() {
    let t = CppType::PointerLike {
        kind: CppPointerLikeTypeKind::RValueReference,
        is_const: false,
        target: Box::new(CppType::BuiltInNumeric(CppBuiltInNumericType::ULongLong)),
    };
    assert_eq!(t.to_cpp_code(None).unwrap(), "unsigned long long&&");
    assert_eq!(CppType::new_reference(true, int_type()).to_cpp_code(None).unwrap(), "const int&");
    assert_eq!(CppType::Void.to_cpp_code(None).unwrap(), "void");
}

#[test]
fn type_code_fails_where_no_spelling_exists() {
    let t = CppType::TemplateParameter(param("T", 0));
    assert!(matches!(t.to_cpp_code(None), Err(CppError::NotExpressibleInCode)));
    assert_eq!(t.to_cpp_pseudo_code(), "T");
    let fp = CppType::FunctionPointer(CppFunctionPointerType {
        return_type: Box::new(int_type()),
        arguments: vec![],
        allows_variadic_arguments: false,
    });
    assert!(matches!(fp.to_cpp_code(None), Err(CppError::NotExpressibleInCode)));
    assert_eq!(fp.to_cpp_code(Some("f")).unwrap(), "int (*f)()");
    assert_eq!(fp.to_cpp_pseudo_code(), "int (*)()");
    let variadic = CppType::FunctionPointer(CppFunctionPointerType {
        return_type: Box::new(int_type()),
        arguments: vec![int_type()],
        allows_variadic_arguments: true,
    });
    assert!(matches!(variadic.to_cpp_code(Some("f")), Err(CppError::NotExpressibleInCode)));
    assert_eq!(variadic.to_cpp_pseudo_code(), "int (*)(int, ...)");
}

#[test]
fn deep_equality_of_types() {
    let a = CppType::Class(CppPath { items: vec![item("QList", Some(vec![int_type()]))] });
    let b = CppType::Class(CppPath { items: vec![item("QList", Some(vec![int_type()]))] });
    let c = CppType::Class(CppPath { items: vec![item("QList", Some(vec![CppType::Void]))] });
    let d = CppType::Class(CppPath { items: vec![item("QList", None)] });
    assert!(a == b);
    assert!(a != c);
    assert!(a != d);
    assert!(a.clone() == a);
    assert!(CppType::TemplateParameter(param("T", 0)) != CppType::TemplateParameter(param("T", 1)));
}

#[test]
fn contains_template_parameter_searches_nested_types() {
    let t = param("T", 0);
    let u = param("U", 1);
    let inner = CppType::Class(CppPath {
        items: vec![item("std", None), item("vector", Some(vec![CppType::TemplateParameter(t.clone())]))],
    });
    let wrapped = CppType::new_pointer(false, inner);
    assert!(wrapped.contains_template_parameter(&t));
    assert!(!wrapped.contains_template_parameter(&u));
    let fp = CppType::FunctionPointer(CppFunctionPointerType {
        return_type: Box::new(int_type()),
        arguments: vec![int_type(), CppType::TemplateParameter(u.clone())],
        allows_variadic_arguments: false,
    });
    assert!(fp.contains_template_parameter(&u));
    assert!(!int_type().contains_template_parameter(&t));
}

#[test]
fn path_parent_and_last() {
    let p = CppPath::from_items(vec![
        CppPathItem::from_name("a".to_string()),
        CppPathItem::from_name("b".to_string()),
        CppPathItem::from_name("c".to_string()),
    ]);
    assert_eq!(p.last().name, "c");
    let parent = p.parent().unwrap();
    assert_eq!(parent.to_cpp_pseudo_code(), "a::b");
    let single = CppPath::from_items(vec![CppPathItem::from_name("a".to_string())]);
    assert!(single.parent().is_none());
}

#[test]
fn builtin_numeric_spellings() {
    assert_eq!(CppBuiltInNumericType::UChar.to_cpp_code(), "unsigned char");
    assert_eq!(CppBuiltInNumericType::LongDouble.to_cpp_code(), "long double");
    assert_eq!(CppBuiltInNumericType::WChar.to_cpp_code(), "wchar_t");
}
