use ritual_core::cpp_function::{CppFunction, RustQtReceiverType};
use ritual_core::cpp_type::{CppBuiltInNumericType, CppPath, CppPathItem, CppType};
use ritual_core::doc_formatter::{
    enum_value_doc, field_accessor_doc, function_call_doc, namespace_module_doc,
    nested_types_module_doc, receiver_getter_doc, signal_arguments_doc, slot_wrapper_doc,
    special_module_doc, CppFieldAccessorType, RustSpecialModuleKind, SlotTarget,
};

fn path(names: &[&str]) -> CppPath {
    CppPath {
        items: names
            .iter()
            .map(|n| CppPathItem { name: n.to_string(), template_arguments: None })
            .collect(),
    }
}

const GREEN_OPEN: &str = "<span style='color: green;'>```";
const GREEN_CLOSE: &str = "```</span>";

#[test]
fn special_modules() {
    assert_eq!(special_module_doc(RustSpecialModuleKind::CrateRoot), "Crate root");
    assert_eq!(
        special_module_doc(RustSpecialModuleKind::Ffi),
        "Functions provided by the C++ wrapper library"
    );
    assert_eq!(
        special_module_doc(RustSpecialModuleKind::Ops),
        "Functions that provide access to C++ operators"
    );
    assert_eq!(
        special_module_doc(RustSpecialModuleKind::SizedTypes),
        "Types with the same size and alignment as corresponding C++ types"
    );
}

#[test]
fn namespace_and_nested_type_modules() {
    assert_eq!(
        namespace_module_doc(&path(&["Qt", "Core"])),
        format!("C++ namespace: {}Qt::Core{}", GREEN_OPEN, GREEN_CLOSE)
    );
    assert_eq!(
        nested_types_module_doc(&path(&["QWidget"])),
        format!("C++ type: {}QWidget{}", GREEN_OPEN, GREEN_CLOSE)
    );
}

#[test]
fn field_accessors() {
    assert_eq!(
        field_accessor_doc(CppFieldAccessorType::CopyGetter, "x"),
        format!("Returns the value of the {}x{} field.", GREEN_OPEN, GREEN_CLOSE)
    );
    assert_eq!(
        field_accessor_doc(CppFieldAccessorType::ConstRefGetter, "x"),
        format!("Returns a reference to the {}x{} field.", GREEN_OPEN, GREEN_CLOSE)
    );
    assert_eq!(
        field_accessor_doc(CppFieldAccessorType::MutRefGetter, "x"),
        format!("Returns a mutable reference to the {}x{} field.", GREEN_OPEN, GREEN_CLOSE)
    );
    assert_eq!(
        field_accessor_doc(CppFieldAccessorType::Setter, "x"),
        format!("Sets the value of the {}x{} field.", GREEN_OPEN, GREEN_CLOSE)
    );
}

#[test]
fn receiver_getters() {
    assert_eq!(
        receiver_getter_doc(RustQtReceiverType::Signal, &path(&["QPushButton", "clicked"])),
        "Returns a built-in Qt signal `QPushButton::clicked` that can be passed to `qt_core::Signal::connect`.\n\n"
    );
    assert_eq!(
        receiver_getter_doc(RustQtReceiverType::Slot, &path(&["QWidget", "show"])),
        "Returns a built-in Qt slot `QWidget::show` that can be passed to `qt_core::Signal::connect`.\n\n"
    );
}

#[test]
fn function_call() {
    let f = CppFunction {
        path: path(&["abs"]),
        member: None,
        operator: None,
        return_type: CppType::BuiltInNumeric(CppBuiltInNumericType::Int),
        arguments: vec![],
        allows_variadic_arguments: false,
        declaration_code: None,
    };
    assert_eq!(
        function_call_doc(&f),
        format!("Calls C++ function: {}int abs(){}.\n\n", GREEN_OPEN, GREEN_CLOSE)
    );
}

#[test]
fn signal_arguments_line() {
    assert_eq!(signal_arguments_doc(&vec![]), "");
    let args = vec![
        CppType::BuiltInNumeric(CppBuiltInNumericType::Int),
        CppType::new_reference(true, CppType::Class(path(&["QString"]))),
    ];
    assert_eq!(
        signal_arguments_doc(&args),
        format!("Corresponding C++ argument types: ({}int, const QString&{}).\n\n", GREEN_OPEN, GREEN_CLOSE)
    );
}

#[test]
fn enum_values() {
    assert_eq!(
        enum_value_doc("Red", -3, None),
        format!("C++ enum variant: {}Red = -3{}", GREEN_OPEN, GREEN_CLOSE)
    );
    assert_eq!(
        enum_value_doc("Blue", 42, Some("The blue one")),
        format!("The blue one (C++ enum variant: {}Blue = 42{})", GREEN_OPEN, GREEN_CLOSE)
    );
    assert_eq!(
        enum_value_doc("Min", i64::MIN, None),
        format!("C++ enum variant: {}Min = -9223372036854775808{}", GREEN_OPEN, GREEN_CLOSE)
    );
}

#[test]
fn slot_wrapper_for_closure() {
    let doc = slot_wrapper_doc(SlotTarget::Closure, &vec![], "", &vec![]);
    assert!(doc.starts_with("Binds a Qt signal with no arguments to a Rust closure.\n\nCreate an object using `new()` and bind your closure"));
    assert!(doc.ends_with("If `set()` was not called, slot invocation has no effect.\n\n"));
    assert!(doc.contains("destroyed. \n\nThe slot object takes ownership"));
}

#[test]
fn slot_wrapper_for_extern_function() {
    let doc = slot_wrapper_doc(
        SlotTarget::ExternFunction,
        &vec!["i32".to_string(), "bool".to_string()],
        "SlotOfIntBool",
        &vec![CppType::BuiltInNumeric(CppBuiltInNumericType::Int), CppType::BuiltInNumeric(CppBuiltInNumericType::Bool)],
    );
    let expected_start = format!(
        "Binds a Qt signal with arguments `i32,bool` to a Rust extern function.\n\nIt's recommended to use `SlotOfIntBool` instead because it provides a more high-level API.\n\nCorresponding C++ argument types: ({}int, bool{}).\n\nCreate an object using `new()` and bind your function and payload",
        GREEN_OPEN, GREEN_CLOSE
    );
    assert!(doc.starts_with(&expected_start));
    assert!(doc.ends_with("destroyed.\n\nIf `set()` was not called, slot invocation has no effect.\n\n"));
}
