use ritual_core::cpp_function::{
    CppFunction, CppFunctionArgument, CppFunctionKind, CppFunctionMemberData, CppVisibility,
    RustQtReceiverType,
};
use ritual_core::cpp_operator::CppOperator;
use ritual_core::cpp_type::{
    CppBuiltInNumericType, CppFunctionPointerType, CppPath, CppPathItem, CppPointerLikeTypeKind,
    CppTemplateParameter, CppType,
};
use ritual_core::error::CppError;

fn item(name: &str) -> CppPathItem {
    CppPathItem { name: name.to_string(), template_arguments: None }
}

fn path(names: &[&str]) -> CppPath {
    CppPath { items: names.iter().map(|n| item(n)).collect() }
}

fn class(names: &[&str]) -> CppType {
    CppType::Class(path(names))
}

fn int_type() -> CppType {
    CppType::BuiltInNumeric(CppBuiltInNumericType::Int)
}

fn double() -> CppType {
    CppType::BuiltInNumeric(CppBuiltInNumericType::Double)
}

fn param(name: &str) -> CppTemplateParameter {
    CppTemplateParameter { nested_level: 0, index: 0, name: name.to_string() }
}

fn arg(name: &str, t: CppType) -> CppFunctionArgument {
    CppFunctionArgument { name: name.to_string(), argument_type: t, has_default_value: false }
}

fn member(kind: CppFunctionKind) -> CppFunctionMemberData {
    CppFunctionMemberData {
        kind,
        is_virtual: false,
        is_pure_virtual: false,
        is_const: false,
        is_static: false,
        visibility: CppVisibility::Public,
        is_signal: false,
        is_slot: false,
    }
}

fn function(p: CppPath, m: Option<CppFunctionMemberData>, ret: CppType, args: Vec<CppFunctionArgument>) -> CppFunction {
    CppFunction {
        path: p,
        member: m,
        operator: None,
        return_type: ret,
        arguments: args,
        allows_variadic_arguments: false,
        declaration_code: None,
    }
}

fn const_ref(t: CppType) -> CppType {
    CppType::new_reference(true, t)
}

#[test]
fn argument_types_equal_ignores_names_and_defaults() {
    let f = function(path(&["f"]), None, CppType::Void, vec![arg("a", int_type()), arg("b", double())]);
    let mut second = arg("y", double());
    second.has_default_value = true;
    let g = function(path(&["g"]), None, int_type(), vec![arg("x", int_type()), second]);
    assert!(f.argument_types_equal(&g));
    assert!(g.argument_types_equal(&f));
    assert!(f.argument_types_equal(&f));
}

#[test]
fn argument_types_equal_checks_count_order_and_variadic() {
    let f = function(path(&["f"]), None, CppType::Void, vec![arg("a", int_type()), arg("b", double())]);
    let swapped = function(path(&["f"]), None, CppType::Void, vec![arg("a", double()), arg("b", int_type())]);
    let shorter = function(path(&["f"]), None, CppType::Void, vec![arg("a", int_type())]);
    let mut variadic = function(path(&["f"]), None, CppType::Void, vec![arg("a", int_type()), arg("b", double())]);
    variadic.allows_variadic_arguments = true;
    assert!(!f.argument_types_equal(&swapped));
    assert!(!f.argument_types_equal(&shorter));
    assert!(!f.argument_types_equal(&variadic));
}

#[test]
fn is_same_ignores_virtual_visibility_and_receiver_flags() {
    let f = function(path(&["C", "f"]), Some(member(CppFunctionKind::Regular)), int_type(), vec![arg("a", int_type())]);
    let mut m = member(CppFunctionKind::Regular);
    m.is_virtual = true;
    m.visibility = CppVisibility::Private;
    m.is_signal = true;
    m.is_slot = true;
    let g = function(path(&["C", "f"]), Some(m), int_type(), vec![arg("other", int_type())]);
    assert!(f.is_same(&f));
    assert!(f.is_same(&g));
    assert!(g.is_same(&f));
}

#[test]
fn is_same_distinguishes_identity() {
    let f = function(path(&["C", "f"]), Some(member(CppFunctionKind::Regular)), int_type(), vec![]);
    let mut const_member = member(CppFunctionKind::Regular);
    const_member.is_const = true;
    let g = function(path(&["C", "f"]), Some(const_member), int_type(), vec![]);
    let free = function(path(&["C", "f"]), None, int_type(), vec![]);
    let other_path = function(path(&["C", "g"]), Some(member(CppFunctionKind::Regular)), int_type(), vec![]);
    let other_return = function(path(&["C", "f"]), Some(member(CppFunctionKind::Regular)), double(), vec![]);
    let mut operator = function(path(&["C", "f"]), Some(member(CppFunctionKind::Regular)), int_type(), vec![]);
    operator.operator = Some(CppOperator::Addition);
    assert!(!f.is_same(&g));
    assert!(!f.is_same(&free));
    assert!(!f.is_same(&other_path));
    assert!(!f.is_same(&other_return));
    assert!(!f.is_same(&operator));
    assert!(operator.is_operator());
    assert!(!f.is_operator());
}

#[test]
fn free_function_answers_false_to_member_queries() {
    let f = function(path(&["ns", "f"]), None, int_type(), vec![arg("a", int_type())]);
    assert!(!f.is_constructor());
    assert!(!f.is_destructor());
    assert!(!f.is_static_member());
    assert!(!f.is_virtual());
    assert!(!f.is_private());
    assert!(!f.is_signal());
    assert!(!f.is_slot());
    assert!(!f.is_copy_constructor());
    assert!(f.member().is_none());
    assert!(matches!(f.class_path(), Err(CppError::NotAMember)));
    assert!(matches!(f.class_path_parts(), Err(CppError::NotAMember)));
}

#[test]
fn member_queries_read_member_data() {
    let mut m = member(CppFunctionKind::Destructor);
    m.is_virtual = true;
    m.is_static = true;
    m.visibility = CppVisibility::Private;
    m.is_signal = true;
    let f = function(path(&["C", "~C"]), Some(m), CppType::Void, vec![]);
    assert!(f.is_destructor());
    assert!(!f.is_constructor());
    assert!(f.is_virtual());
    assert!(f.is_static_member());
    assert!(f.is_private());
    assert!(f.is_signal());
    assert!(!f.is_slot());
    assert_eq!(f.member().map(|m| m.kind), Some(CppFunctionKind::Destructor));
    assert!(CppFunctionKind::Regular.is_regular());
    assert!(CppFunctionKind::Constructor.is_constructor());
    assert!(CppFunctionKind::Destructor.is_destructor());
}

#[test]
fn class_path_is_parent_of_member_path() {
    let f = function(path(&["ns", "C", "f"]), Some(member(CppFunctionKind::Regular)), int_type(), vec![]);
    let p = f.class_path().unwrap();
    assert!(p == path(&["ns", "C"]));
    let parts = f.class_path_parts().unwrap();
    assert_eq!(parts.len(), 2);
    assert_eq!(parts[1].name, "C");
    let unnested = function(path(&["f"]), Some(member(CppFunctionKind::Regular)), int_type(), vec![]);
    assert!(matches!(unnested.class_path(), Err(CppError::NotAMember)));
}

#[test]
fn copy_constructor_takes_const_reference_to_own_class() {
    let ctor = function(
        path(&["C", "C"]),
        Some(member(CppFunctionKind::Constructor)),
        CppType::Void,
        vec![arg("other", const_ref(class(&["C"])))],
    );
    assert!(ctor.is_copy_constructor());
}

#[test]
fn copy_constructor_rejects_other_shapes() {
    let unrelated = function(
        path(&["C", "C"]),
        Some(member(CppFunctionKind::Constructor)),
        CppType::Void,
        vec![arg("other", const_ref(class(&["D"])))],
    );
    assert!(!unrelated.is_copy_constructor());
    let two = function(
        path(&["C", "C"]),
        Some(member(CppFunctionKind::Constructor)),
        CppType::Void,
        vec![arg("other", const_ref(class(&["C"]))), arg("x", int_type())],
    );
    assert!(!two.is_copy_constructor());
    let none = function(path(&["C", "C"]), Some(member(CppFunctionKind::Constructor)), CppType::Void, vec![]);
    assert!(!none.is_copy_constructor());
    let mutable = function(
        path(&["C", "C"]),
        Some(member(CppFunctionKind::Constructor)),
        CppType::Void,
        vec![arg("other", CppType::new_reference(false, class(&["C"])))],
    );
    assert!(!mutable.is_copy_constructor());
    let regular = function(
        path(&["C", "assign"]),
        Some(member(CppFunctionKind::Regular)),
        CppType::Void,
        vec![arg("other", const_ref(class(&["C"])))],
    );
    assert!(!regular.is_copy_constructor());
}

#[test]
fn involved_types_of_free_function() {
    let a = class(&["A"]);
    let b = class(&["B"]);
    let t = class(&["T"]);
    let f = function(path(&["f"]), None, t.clone(), vec![arg("a", a.clone()), arg("b", b.clone())]);
    let types = f.all_involved_types();
    assert_eq!(types.len(), 3);
    assert!(types[0] == a);
    assert!(types[1] == b);
    assert!(types[2] == t);
}

#[test]
fn involved_types_of_const_method() {
    let mut m = member(CppFunctionKind::Regular);
    m.is_const = true;
    let a = class(&["A"]);
    let t = class(&["T"]);
    let f = function(path(&["C", "f"]), Some(m), t.clone(), vec![arg("a", a.clone())]);
    let types = f.all_involved_types();
    assert_eq!(types.len(), 3);
    assert!(types[0] == CppType::new_pointer(true, class(&["C"])));
    assert!(types[1] == a);
    assert!(types[2] == t);
}

#[test]
fn involved_types_end_with_template_arguments() {
    let mut p = path(&["make"]);
    p.items[0].template_arguments = Some(vec![int_type(), double()]);
    let f = function(p, None, CppType::Void, vec![]);
    let types = f.all_involved_types();
    assert_eq!(types.len(), 3);
    assert!(types[0] == CppType::Void);
    assert!(types[1] == int_type());
    assert!(types[2] == double());
}

fn template_function(args: Vec<CppFunctionArgument>, ret: CppType) -> CppFunction {
    let mut p = path(&["find"]);
    p.items[0].template_arguments = Some(vec![CppType::TemplateParameter(param("T"))]);
    function(p, None, ret, args)
}

#[test]
fn cannot_infer_template_argument_without_arguments() {
    let f = template_function(vec![], CppType::TemplateParameter(param("T")));
    assert!(!f.can_infer_template_arguments());
}

#[test]
fn cannot_infer_template_argument_from_unrelated_argument() {
    let char_ptr = CppType::new_pointer(true, CppType::BuiltInNumeric(CppBuiltInNumericType::Char));
    let f = template_function(vec![arg("name", char_ptr)], CppType::TemplateParameter(param("T")));
    assert!(!f.can_infer_template_arguments());
}

#[test]
fn infers_template_argument_from_container_argument() {
    let mut container = item("Container");
    container.template_arguments = Some(vec![CppType::TemplateParameter(param("T"))]);
    let container_ref = CppType::new_reference(false, CppType::Class(CppPath { items: vec![container] }));
    let mut p = path(&["sort"]);
    p.items[0].template_arguments = Some(vec![CppType::TemplateParameter(param("T"))]);
    let f = function(p, None, CppType::Void, vec![arg("c", container_ref)]);
    assert!(f.can_infer_template_arguments());
}

#[test]
fn non_template_can_always_infer() {
    let f = function(path(&["f"]), None, CppType::Void, vec![]);
    assert!(f.can_infer_template_arguments());
}

fn qlist_of_model_index() -> CppType {
    let mut list = item("QList");
    list.template_arguments = Some(vec![class(&["QModelIndex"])]);
    CppType::Class(CppPath { items: vec![list] })
}

#[test]
fn receiver_id_from_data_patches_model_index_list() {
    let id = CppFunction::receiver_id_from_data(
        RustQtReceiverType::Slot,
        "valueChanged",
        &vec![int_type(), qlist_of_model_index()],
    )
    .unwrap();
    assert_eq!(id, "1valueChanged(int,QModelIndexList)");
}

#[test]
fn receiver_id_from_data_for_signal() {
    let id = CppFunction::receiver_id_from_data(RustQtReceiverType::Signal, "clicked", &vec![]).unwrap();
    assert_eq!(id, "2clicked()");
    let id = CppFunction::receiver_id_from_data(
        RustQtReceiverType::Slot,
        "foo",
        &vec![int_type(), double()],
    )
    .unwrap();
    assert_eq!(id, "1foo(int,double)");
}

#[test]
fn receiver_id_from_data_fails_on_template_parameter() {
    let r = CppFunction::receiver_id_from_data(
        RustQtReceiverType::Slot,
        "foo",
        &vec![CppType::TemplateParameter(param("T"))],
    );
    assert!(matches!(r, Err(CppError::NotExpressibleInCode)));
}

#[test]
fn receiver_id_rejects_plain_const_method() {
    let mut m = member(CppFunctionKind::Regular);
    m.is_const = true;
    let f = function(path(&["C", "value"]), Some(m), int_type(), vec![]);
    assert!(matches!(f.receiver_id(), Err(CppError::NotASignalOrSlot)));
    let free = function(path(&["value"]), None, int_type(), vec![]);
    assert!(matches!(free.receiver_id(), Err(CppError::NotASignalOrSlot)));
}

#[test]
fn receiver_id_prefers_slot() {
    let mut m = member(CppFunctionKind::Regular);
    m.is_signal = true;
    m.is_slot = true;
    let f = function(path(&["QWidget", "setValue"]), Some(m), CppType::Void, vec![arg("v", int_type())]);
    assert_eq!(f.receiver_id().unwrap(), "1setValue(int)");
    let mut s = member(CppFunctionKind::Regular);
    s.is_signal = true;
    let g = function(path(&["QWidget", "changed"]), Some(s), CppType::Void, vec![arg("v", double())]);
    assert_eq!(g.receiver_id().unwrap(), "2changed(double)");
}

#[test]
fn patch_receiver_argument_type_replaces_each_match() {
    assert_eq!(CppFunction::patch_receiver_argument_type("QList< QModelIndex >"), "QModelIndexList");
    assert_eq!(
        CppFunction::patch_receiver_argument_type("QMap< QList< QModelIndex >, QList< QModelIndex > >"),
        "QMap< QModelIndexList, QModelIndexList >"
    );
    assert_eq!(CppFunction::patch_receiver_argument_type("QList<QModelIndex>"), "QList<QModelIndex>");
}

#[test]
fn argument_code_names_the_argument() {
    let a = arg("count", int_type());
    assert_eq!(a.to_cpp_code().unwrap(), "int count");
    let fp = CppType::FunctionPointer(CppFunctionPointerType {
        return_type: Box::new(CppType::Void),
        arguments: vec![int_type(), double()],
        allows_variadic_arguments: false,
    });
    let cb = arg("callback", fp);
    assert_eq!(cb.to_cpp_code().unwrap(), "void (*callback)(int, double)");
    let t = arg("x", CppType::TemplateParameter(param("T")));
    assert!(matches!(t.to_cpp_code(), Err(CppError::NotExpressibleInCode)));
}

#[test]
fn pseudo_declaration_of_virtual_const_method() {
    let mut m = member(CppFunctionKind::Regular);
    m.is_virtual = true;
    m.is_const = true;
    m.visibility = CppVisibility::Protected;
    let mut f = function(
        path(&["ns", "C", "f"]),
        Some(m),
        CppType::new_pointer(false, class(&["ns", "C"])),
        vec![arg("a", int_type()), arg("t", CppType::TemplateParameter(param("T")))],
    );
    f.allows_variadic_arguments = true;
    assert_eq!(f.pseudo_declaration(), "virtual protected ns::C* ns::C::f(int a, T t, ...) const");
}

#[test]
fn pseudo_declaration_of_free_function() {
    let f = function(path(&["f"]), None, CppType::Void, vec![]);
    assert_eq!(f.pseudo_declaration(), "void f()");
}

#[test]
fn short_text_of_method() {
    let mut m = member(CppFunctionKind::Constructor);
    m.is_virtual = true;
    m.is_pure_virtual = true;
    m.is_static = true;
    m.visibility = CppVisibility::Private;
    m.is_signal = true;
    m.is_slot = true;
    m.is_const = true;
    let mut with_default = arg("b", double());
    with_default.has_default_value = true;
    let f = function(path(&["C", "C"]), Some(m), CppType::Void, vec![arg("a", int_type()), with_default]);
    assert_eq!(
        f.short_text(),
        "pure virtual static private [signal] [slot] [constructor] void C::C(int a, double b = …) const"
    );
}

#[test]
fn short_text_of_variadic_free_function() {
    let mut f = function(path(&["printf"]), None, int_type(), vec![arg("format", CppType::new_pointer(true, CppType::BuiltInNumeric(CppBuiltInNumericType::Char)))]);
    f.allows_variadic_arguments = true;
    assert_eq!(f.short_text(), "[var args] int printf(const char* format)");
}

#[test]
fn functions_compare_and_clone_deeply() {
    let f = function(path(&["C", "f"]), Some(member(CppFunctionKind::Regular)), int_type(), vec![arg("a", int_type())]);
    let g = f.clone();
    assert!(f == g);
    let mut h = f.clone();
    h.arguments[0].name = "b".to_string();
    assert!(f != h);
    assert!(f.is_same(&h));
    let mut k = f.clone();
    k.declaration_code = Some("int f(int a);".to_string());
    assert!(f != k);
    assert!(arg("a", int_type()) == arg("a", int_type()));
    assert!(arg("a", int_type()) != arg("a", double()));
}
