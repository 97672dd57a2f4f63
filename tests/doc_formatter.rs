use ritual_core::doc_formatter::{
    first_phrase, format_doc_item, format_maybe_link, slot_wrapper_method_doc,
    wrap_cpp_doc_block, wrap_inline_cpp_code, DocItem,
};
use ritual_core::error::CppError;

#[test]
fn wraps_inline_code_and_blocks() {
    assert_eq!(wrap_inline_cpp_code("int x"), "<span style='color: green;'>```int x```</span>");
    assert_eq!(
        wrap_cpp_doc_block("<p>x</p>"),
        "<div style='border: 1px solid #5CFF95; background: #D6FFE4; padding: 16px;'><p>x</p></div>"
    );
}

#[test]
fn first_phrase_prefers_paragraph_then_sentence() {
    assert_eq!(first_phrase("<p>One. Two.</p><p>Three.</p>"), "<p>One. Two.</p>");
    assert_eq!(first_phrase("One. Two."), "One.");
    assert_eq!(first_phrase("No end"), "No end");
    assert_eq!(first_phrase(""), "");
    assert_eq!(first_phrase("Größe ist 3. Mehr."), "Größe ist 3.");
}

#[test]
fn maybe_link() {
    assert_eq!(format_maybe_link(&Some("http://x".to_string()), "doc"), "<a href=\"http://x\">doc</a>");
    assert_eq!(format_maybe_link(&None, "doc"), "doc");
}

#[test]
fn doc_item_with_and_without_mismatch() {
    let exact = DocItem { url: None, html: "body".to_string(), mismatched_declaration: None };
    assert_eq!(
        format_doc_item(&exact),
        "C++ documentation:<div style='border: 1px solid #5CFF95; background: #D6FFE4; padding: 16px;'>body</div>"
    );
    let near = DocItem {
        url: Some("u".to_string()),
        html: "b".to_string(),
        mismatched_declaration: Some("void f()".to_string()),
    };
    assert_eq!(
        format_doc_item(&near),
        "Warning: no exact match found in C++ documentation. Below is the <a href=\"u\">C++ documentation</a> for <span style='color: green;'>```void f()```</span>:<div style='border: 1px solid #5CFF95; background: #D6FFE4; padding: 16px;'>b</div>"
    );
}

#[test]
fn slot_wrapper_methods() {
    assert_eq!(slot_wrapper_method_doc("new").unwrap(), "Creates a new object.\n\n");
    assert_eq!(
        slot_wrapper_method_doc("custom_slot").unwrap(),
        "Calls the slot directly, invoking the assigned handler (if any).\n\n"
    );
    assert!(slot_wrapper_method_doc("set").unwrap().starts_with("Assigns `func` as the signal handler.\n\n`func` will"));
    assert_eq!(slot_wrapper_method_doc("tr").unwrap(), "");
    match slot_wrapper_method_doc("frobnicate") {
        Err(CppError::UnknownSlotMethod(name)) => assert_eq!(name, "frobnicate"),
        other => panic!("unexpected {:?}", other),
    }
}
