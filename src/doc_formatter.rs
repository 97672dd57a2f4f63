//! Markdown and HTML fragments for the documentation of generated code.

use crate::cpp_function::{CppFunction, RustQtReceiverType};
use crate::cpp_type::{lemma_types_view, types_view, CppPath, CppType, TypeView};
use crate::error::CppError;
use crate::render::{opt_text, path_pseudo, pseudo_type_list, types_pseudo};
use crate::text::{
    decimal_of, decimal_text, first_occurrence, join_texts, joined, text_before_first, text_of,
    texts, trimmed,
};
use vstd::prelude::*;

verus! {

/// A documentation record of a C++ item.
#[derive(Debug, Clone)]
pub struct DocItem {
    /// Address of the documentation page, if known.
    pub url: Option<String>,
    /// HTML body of the documentation.
    pub html: String,
    /// Set where no exact match was found: the declaration that the
    /// documentation is for instead.
    pub mismatched_declaration: Option<String>,
}

pub open spec fn inline_code_of(code: Seq<char>) -> Seq<char> {
    "<span style='color: green;'>```"@ + code + "```</span>"@
}

pub open spec fn doc_block_of(html: Seq<char>) -> Seq<char> {
    "<div style='border: 1px solid #5CFF95; background: #D6FFE4; padding: 16px;'>"@ + html
        + "</div>"@
}

/// The first paragraph of `html` if it has one, else its first sentence,
/// else all of it.
pub open spec fn first_phrase_of(html: Seq<char>) -> Seq<char> {
    let p = first_occurrence(html, "</p>"@);
    let d = first_occurrence(html, "."@);
    if p >= 0 {
        html.subrange(0, p) + "</p>"@
    } else if d >= 0 {
        html.subrange(0, d) + "."@
    } else {
        html
    }
}

pub open spec fn maybe_link_of(url: Option<String>, text: Seq<char>) -> Seq<char> {
    match url {
        Some(u) => "<a href=\""@ + u@ + "\">"@ + text + "</a>"@,
        None => text,
    }
}

pub open spec fn doc_item_text(d: DocItem) -> Seq<char> {
    let link = maybe_link_of(d.url, "C++ documentation"@);
    let head = match d.mismatched_declaration {
        Some(decl) => "Warning: no exact match found in C++ documentation. Below is the "@ + link
            + " for "@ + inline_code_of(decl@) + ":"@,
        None => link + ":"@,
    };
    head + doc_block_of(d.html@)
}

/// Documentation of a method of a slot wrapper, by the method's name; the
/// methods that every Qt class has get none. `None` for a name without a
/// rule.
pub open spec fn slot_wrapper_method_doc_of(name: Seq<char>) -> Option<Seq<char>> {
    if name == "custom_slot"@ {
        Some("Calls the slot directly, invoking the assigned handler (if any).\n\n"@)
    } else if name == "new"@ {
        Some("Creates a new object.\n\n"@)
    } else if name == "set"@ {
        Some(
            "Assigns `func` as the signal handler.\n\n"@
                + "`func` will be called each time a connected signal is emitted. Any previously assigned function will be deregistered. Passing `None` will deregister the handler without setting a new one.\n\n"@,
        )
    } else if name == "meta_object"@ || name == "qt_metacall"@ || name == "qt_metacast"@ || name
        == "static_meta_object"@ || name == "tr"@ || name == "tr_utf8"@ {
        Some(Seq::empty())
    } else {
        None
    }
}

/// `code` shown as inline C++ code.
pub fn wrap_inline_cpp_code(code: &str) -> (r: String)
    ensures
        r@ == inline_code_of(code@),
{
    let mut s = text_of("<span style='color: green;'>```");
    s.append(code);
    s.append("```</span>");
    s
}

/// `html` inside a framed block.
pub fn wrap_cpp_doc_block(html: &str) -> (r: String)
    ensures
        r@ == doc_block_of(html@),
{
    let mut s = text_of(
        "<div style='border: 1px solid #5CFF95; background: #D6FFE4; padding: 16px;'>",
    );
    s.append(html);
    s.append("</div>");
    s
}

/// The first paragraph of `html` (up to and including the first `</p>`),
/// else its first sentence (up to and including the first `.`), else all
/// of it.
pub fn first_phrase(html: &str) -> (r: String)
    ensures
        r@ == first_phrase_of(html@),
{
    match text_before_first(html, "</p>") {
        Some(before) => {
            let mut s = before;
            s.append("</p>");
            s
        },
        None => match text_before_first(html, ".") {
            Some(before) => {
                let mut s = before;
                s.append(".");
                s
            },
            None => text_of(html),
        },
    }
}

/// `text`, as a link to `url` if there is one.
pub fn format_maybe_link(url: &Option<String>, text: &str) -> (r: String)
    ensures
        r@ == maybe_link_of(*url, text@),
{
    match url {
        Some(u) => {
            let mut s = text_of("<a href=\"");
            s.append(u.as_str());
            s.append("\">");
            s.append(text);
            s.append("</a>");
            s
        },
        None => text_of(text),
    }
}

/// A documentation record as text: a link to the C++ documentation, with a
/// warning where it is for another declaration, then the framed body.
pub fn format_doc_item(cpp_doc: &DocItem) -> (r: String)
    ensures
        r@ == doc_item_text(*cpp_doc),
{
    let link = format_maybe_link(&cpp_doc.url, "C++ documentation");
    let mut output = match &cpp_doc.mismatched_declaration {
        Some(declaration) => {
            let mut s = text_of(
                "Warning: no exact match found in C++ documentation. Below is the ",
            );
            s.append(link.as_str());
            s.append(" for ");
            let code = wrap_inline_cpp_code(declaration.as_str());
            s.append(code.as_str());
            s.append(":");
            s
        },
        None => {
            let mut s = link;
            s.append(":");
            s
        },
    };
    let block = wrap_cpp_doc_block(cpp_doc.html.as_str());
    output.append(block.as_str());
    output
}

/// Documentation of a method of a slot wrapper, by the method's name.
/// Fails with `UnknownSlotMethod` for a name without a rule.
pub fn slot_wrapper_method_doc(name: &str) -> (r: Result<String, CppError>)
    ensures
        match slot_wrapper_method_doc_of(name@) {
            Some(d) => r is Ok && r->Ok_0@ == d,
            None => r is Err && r->Err_0 is UnknownSlotMethod && r->Err_0->UnknownSlotMethod_0@ == name@,
        },
{
    let n = text_of(name);
    if n == text_of("custom_slot") {
        Ok(text_of("Calls the slot directly, invoking the assigned handler (if any).\n\n"))
    } else if n == text_of("new") {
        Ok(text_of("Creates a new object.\n\n"))
    } else if n == text_of("set") {
        let mut s = text_of("Assigns `func` as the signal handler.\n\n");
        s.append(
            "`func` will be called each time a connected signal is emitted. Any previously assigned function will be deregistered. Passing `None` will deregister the handler without setting a new one.\n\n",
        );
        Ok(s)
    } else if n == text_of("meta_object") || n == text_of("qt_metacall") || n == text_of(
        "qt_metacast",
    ) || n == text_of("static_meta_object") || n == text_of("tr") || n == text_of("tr_utf8") {
        Ok(String::new())
    } else {
        Err(CppError::UnknownSlotMethod(n))
    }
}

/// Modules of a generated crate that correspond to no C++ item.
#[derive(Debug, Clone, Copy, PartialEq, Eq, Hash, Structural)]
pub enum RustSpecialModuleKind {
    CrateRoot,
    Ffi,
    Ops,
    SizedTypes,
}

/// What a generated accessor of a C++ class field does.
#[derive(Debug, Clone, Copy, PartialEq, Eq, Hash, Structural)]
pub enum CppFieldAccessorType {
    CopyGetter,
    ConstRefGetter,
    MutRefGetter,
    Setter,
}

pub open spec fn special_module_doc_of(kind: RustSpecialModuleKind) -> Seq<char> {
    match kind {
        RustSpecialModuleKind::CrateRoot => "Crate root"@,
        RustSpecialModuleKind::Ffi => "Functions provided by the C++ wrapper library"@,
        RustSpecialModuleKind::Ops => "Functions that provide access to C++ operators"@,
        RustSpecialModuleKind::SizedTypes => "Types with the same size and alignment as corresponding C++ types"@,
    }
}

pub open spec fn field_accessor_doc_of(kind: CppFieldAccessorType, field: Seq<char>) -> Seq<char> {
    let field_text = inline_code_of(field);
    match kind {
        CppFieldAccessorType::CopyGetter => "Returns the value of the "@ + field_text + " field."@,
        CppFieldAccessorType::ConstRefGetter => "Returns a reference to the "@ + field_text
            + " field."@,
        CppFieldAccessorType::MutRefGetter => "Returns a mutable reference to the "@ + field_text
            + " field."@,
        CppFieldAccessorType::Setter => "Sets the value of the "@ + field_text + " field."@,
    }
}

pub open spec fn receiver_getter_doc_of(t: RustQtReceiverType, path: Seq<char>) -> Seq<char> {
    "Returns a built-in Qt "@ + match t {
        RustQtReceiverType::Signal => "signal"@,
        RustQtReceiverType::Slot => "slot"@,
    } + " `"@ + path + "` that can be passed to `qt_core::Signal::connect`.\n\n"@
}

pub open spec fn enum_value_doc_of(name: Seq<char>, value: int, html: Option<Seq<char>>) -> Seq<char> {
    let doc = "C++ enum variant: "@ + inline_code_of(name + " = "@ + decimal_of(value));
    match html {
        Some(h) => h + " ("@ + doc + ")"@,
        None => doc,
    }
}

/// Documentation of a module that corresponds to no C++ item.
pub fn special_module_doc(kind: RustSpecialModuleKind) -> (r: String)
    ensures
        r@ == special_module_doc_of(kind),
{
    match kind {
        RustSpecialModuleKind::CrateRoot => text_of("Crate root"),
        RustSpecialModuleKind::Ffi => text_of("Functions provided by the C++ wrapper library"),
        RustSpecialModuleKind::Ops => text_of("Functions that provide access to C++ operators"),
        RustSpecialModuleKind::SizedTypes => text_of(
            "Types with the same size and alignment as corresponding C++ types",
        ),
    }
}

/// Documentation of a module that holds the items of a C++ namespace.
pub fn namespace_module_doc(namespace: &CppPath) -> (r: String)
    ensures
        r@ == "C++ namespace: "@ + inline_code_of(path_pseudo(namespace@)),
{
    let code = wrap_inline_cpp_code(namespace.to_cpp_pseudo_code().as_str());
    let mut s = text_of("C++ namespace: ");
    s.append(code.as_str());
    s
}

/// Documentation of a module that holds the types nested in a C++ type.
pub fn nested_types_module_doc(type_path: &CppPath) -> (r: String)
    ensures
        r@ == "C++ type: "@ + inline_code_of(path_pseudo(type_path@)),
{
    let code = wrap_inline_cpp_code(type_path.to_cpp_pseudo_code().as_str());
    let mut s = text_of("C++ type: ");
    s.append(code.as_str());
    s
}

/// Documentation of an accessor of the C++ field named `field`.
pub fn field_accessor_doc(accessor_type: CppFieldAccessorType, field: &str) -> (r: String)
    ensures
        r@ == field_accessor_doc_of(accessor_type, field@),
{
    let field_text = wrap_inline_cpp_code(field);
    let mut s = match accessor_type {
        CppFieldAccessorType::CopyGetter => text_of("Returns the value of the "),
        CppFieldAccessorType::ConstRefGetter => text_of("Returns a reference to the "),
        CppFieldAccessorType::MutRefGetter => text_of("Returns a mutable reference to the "),
        CppFieldAccessorType::Setter => text_of("Sets the value of the "),
    };
    s.append(field_text.as_str());
    s.append(" field.");
    s
}

/// Documentation of a getter of the built-in signal or slot at `path`.
pub fn receiver_getter_doc(receiver_type: RustQtReceiverType, path: &CppPath) -> (r: String)
    ensures
        r@ == receiver_getter_doc_of(receiver_type, path_pseudo(path@)),
{
    let mut s = text_of("Returns a built-in Qt ");
    match receiver_type {
        RustQtReceiverType::Signal => s.append("signal"),
        RustQtReceiverType::Slot => s.append("slot"),
    }
    s.append(" `");
    let path_text = path.to_cpp_pseudo_code();
    s.append(path_text.as_str());
    s.append("` that can be passed to `qt_core::Signal::connect`.\n\n");
    s
}

/// Documentation of a wrapper that calls the C++ function `function`.
pub fn function_call_doc(function: &CppFunction) -> (r: String)
    ensures
        r@ == "Calls C++ function: "@ + inline_code_of(trimmed(function.untrimmed_text()))
            + ".\n\n"@,
{
    let code = wrap_inline_cpp_code(function.short_text().as_str());
    let mut s = text_of("Calls C++ function: ");
    s.append(code.as_str());
    s.append(".\n\n");
    s
}

/// The line that lists the C++ argument types of a signal, or nothing where
/// it has none.
pub fn signal_arguments_doc(signal_arguments: &Vec<CppType>) -> (r: String)
    ensures
        signal_arguments.len() == 0 ==> r@ == Seq::<char>::empty(),
        signal_arguments.len() > 0 ==> r@ == "Corresponding C++ argument types: ("@
            + inline_code_of(joined(types_pseudo(types_view(signal_arguments@)), ", "@))
            + ").\n\n"@,
{
    if signal_arguments.len() == 0 {
        return String::new();
    }
    let texts = pseudo_type_list(signal_arguments);
    let joined_texts = join_texts(&texts, ", ");
    let code = wrap_inline_cpp_code(joined_texts.as_str());
    let mut s = text_of("Corresponding C++ argument types: (");
    s.append(code.as_str());
    s.append(").\n\n");
    s
}

/// Documentation of a variant of a C++ enum, after its own documentation
/// where there is some.
pub fn enum_value_doc(name: &str, value: i64, html: Option<&str>) -> (r: String)
    ensures
        r@ == enum_value_doc_of(name@, value as int, opt_text(html)),
{
    let mut code = text_of(name);
    code.append(" = ");
    let value_text = decimal_text(value);
    code.append(value_text.as_str());
    let inline = wrap_inline_cpp_code(code.as_str());
    let mut doc = text_of("C++ enum variant: ");
    doc.append(inline.as_str());
    match html {
        Some(h) => {
            let mut s = text_of(h);
            s.append(" (");
            s.append(doc.as_str());
            s.append(")");
            s
        },
        None => doc,
    }
}

/// What a slot wrapper binds a Qt signal to.
#[derive(Debug, Clone, Copy, PartialEq, Eq, Hash, Structural)]
pub enum SlotTarget {
    /// An extern function with a payload.
    ExternFunction,
    /// A closure.
    Closure,
}

pub open spec fn slot_arguments_of(rust_argument_types: Seq<Seq<char>>) -> Seq<char> {
    if rust_argument_types.len() == 0 {
        "no arguments"@
    } else {
        "arguments `"@ + joined(rust_argument_types, ","@) + "`"@
    }
}

pub open spec fn slot_usage_of(target: SlotTarget) -> Seq<char> {
    match target {
        SlotTarget::ExternFunction => "Create an object using `new()` and bind your function and payload using `set()`. The function will receive the payload as its first arguments, and the rest of arguments will be values passed through the Qt connection system. Use `connect()` method of a `qt_core::Signal` object to connect the signal to this slot. The callback function will be executed each time the slot is invoked until source signals are disconnected or the slot object is destroyed.\n\nIf `set()` was not called, slot invocation has no effect.\n\n"@,
        SlotTarget::Closure => "Create an object using `new()` and bind your closure using `set()`. The closure will be called with the signal's arguments when the slot is invoked. Use `connect()` method of a `qt_core::Signal` object to connect the signal to this slot. The closure will be executed each time the slot is invoked until source signals are disconnected or the slot object is destroyed. \n\nThe slot object takes ownership of the passed closure. If `set()` is called again, previously set closure is dropped. Make sure that the slot object does not outlive objects referenced by the closure. \n\nIf `set()` was not called, slot invocation has no effect.\n\n"@,
    }
}

/// Documentation of a slot wrapper type: what it binds, the wrapper to
/// prefer (for one that binds an extern function), the C++ argument types of
/// the signal, and how to use it.
pub open spec fn slot_wrapper_doc_of(
    target: SlotTarget,
    rust_argument_types: Seq<Seq<char>>,
    preferred_wrapper: Seq<char>,
    signal_arguments: Seq<TypeView>,
) -> Seq<char> {
    let intro = "Binds a Qt signal with "@ + slot_arguments_of(rust_argument_types) + match target {
        SlotTarget::ExternFunction => " to a Rust extern function.\n\n"@,
        SlotTarget::Closure => " to a Rust closure.\n\n"@,
    };
    let preferred = match target {
        SlotTarget::ExternFunction => "It's recommended to use `"@ + preferred_wrapper
            + "` instead because it provides a more high-level API.\n\n"@,
        SlotTarget::Closure => Seq::empty(),
    };
    let signal = if signal_arguments.len() == 0 {
        Seq::empty()
    } else {
        "Corresponding C++ argument types: ("@ + inline_code_of(
            joined(types_pseudo(signal_arguments), ", "@),
        ) + ").\n\n"@
    };
    intro + preferred + signal + slot_usage_of(target)
}

/// Documentation of a slot wrapper type. `rust_argument_types` are the Rust
/// types of the arguments, `preferred_wrapper` the name of the closure-based
/// wrapper to recommend instead of an extern-function one, and
/// `signal_arguments` the C++ argument types of the signal.
pub fn slot_wrapper_doc(
    target: SlotTarget,
    rust_argument_types: &Vec<String>,
    preferred_wrapper: &str,
    signal_arguments: &Vec<CppType>,
) -> (r: String)
    ensures
        r@ == slot_wrapper_doc_of(
            target,
            texts(rust_argument_types@),
            preferred_wrapper@,
            types_view(signal_arguments@),
        ),
{
    let mut s = text_of("Binds a Qt signal with ");
    if rust_argument_types.len() == 0 {
        s.append("no arguments");
    } else {
        let joined_types = join_texts(rust_argument_types, ",");
        let mut a = text_of("arguments `");
        a.append(joined_types.as_str());
        a.append("`");
        s.append(a.as_str());
    }
    match target {
        SlotTarget::ExternFunction => s.append(" to a Rust extern function.\n\n"),
        SlotTarget::Closure => s.append(" to a Rust closure.\n\n"),
    }
    let ghost intro = s@;
    let mut preferred = String::new();
    match target {
        SlotTarget::ExternFunction => {
            preferred.append("It's recommended to use `");
            preferred.append(preferred_wrapper);
            preferred.append("` instead because it provides a more high-level API.\n\n");
        },
        SlotTarget::Closure => {},
    }
    s.append(preferred.as_str());
    let signal = signal_arguments_doc(signal_arguments);
    s.append(signal.as_str());
    match target {
        SlotTarget::ExternFunction => s.append("Create an object using `new()` and bind your function and payload using `set()`. The function will receive the payload as its first arguments, and the rest of arguments will be values passed through the Qt connection system. Use `connect()` method of a `qt_core::Signal` object to connect the signal to this slot. The callback function will be executed each time the slot is invoked until source signals are disconnected or the slot object is destroyed.\n\nIf `set()` was not called, slot invocation has no effect.\n\n"),
        SlotTarget::Closure => s.append("Create an object using `new()` and bind your closure using `set()`. The closure will be called with the signal's arguments when the slot is invoked. Use `connect()` method of a `qt_core::Signal` object to connect the signal to this slot. The closure will be executed each time the slot is invoked until source signals are disconnected or the slot object is destroyed. \n\nThe slot object takes ownership of the passed closure. If `set()` is called again, previously set closure is dropped. Make sure that the slot object does not outlive objects referenced by the closure. \n\nIf `set()` was not called, slot invocation has no effect.\n\n"),
    }
    proof {
        lemma_types_view(signal_arguments@);
    }
    assert(s@ =~= slot_wrapper_doc_of(
        target,
        texts(rust_argument_types@),
        preferred_wrapper@,
        types_view(signal_arguments@),
    ));
    s
}

/// The module to document, as its source item describes it.
#[derive(Debug)]
pub enum ModuleDocSubject {
    /// A module that corresponds to no C++ item.
    Special(RustSpecialModuleKind),
    /// A module for the C++ namespace at the path.
    CppNamespace(CppPath),
    /// A module for the types nested in the C++ type at the path.
    CppNestedTypes(CppPath),
}

/// The struct to document, as its source items describe it.
#[derive(Debug)]
pub enum StructDocSubject {
    /// Wrapper of the C++ enum at the path.
    EnumWrapper(CppPath),
    /// Wrapper of the immovable C++ class at the path.
    ImmovableClassWrapper(CppPath),
    /// Wrapper of a movable C++ class.
    MovableClassWrapper,
    /// Wrapper of a C++ slot that calls an extern function.
    RawSlotWrapper {
        rust_argument_types: Vec<String>,
        closure_wrapper: String,
        signal_arguments: Vec<CppType>,
    },
    /// Wrapper of a C++ slot that calls a closure.
    QtSlotWrapper { rust_argument_types: Vec<String>, signal_arguments: Vec<CppType> },
    /// A type of the same size as a C++ type.
    SizedType,
}

/// The function to document, as its source items describe it.
#[derive(Debug)]
pub enum FunctionDocSubject {
    /// A method, with this name, of a slot wrapper type.
    SlotWrapperMethod(String),
    /// A wrapper that calls the C++ function.
    CppFunctionCall(CppFunction),
    /// An accessor of the C++ field with this name.
    FieldAccessor(CppFieldAccessorType, String),
    /// A getter of the built-in signal or slot at the path.
    ReceiverGetter(RustQtReceiverType, CppPath),
    /// A raw FFI function.
    FfiFunction,
}

/// The first phrase of the documentation, as a paragraph of its own.
pub open spec fn doc_intro_of(doc: Option<DocItem>) -> Seq<char> {
    match doc {
        Some(d) => if d.html@.len() > 0 {
            first_phrase_of(d.html@) + "\n\n"@
        } else {
            Seq::empty()
        },
        None => Seq::empty(),
    }
}

/// The documentation record at the end.
pub open spec fn doc_outro_of(doc: Option<DocItem>) -> Seq<char> {
    match doc {
        Some(d) => doc_item_text(d),
        None => Seq::empty(),
    }
}

pub open spec fn module_doc_of(module: ModuleDocSubject) -> Seq<char> {
    match module {
        ModuleDocSubject::Special(kind) => special_module_doc_of(kind),
        ModuleDocSubject::CppNamespace(p) => "C++ namespace: "@ + inline_code_of(path_pseudo(p@)),
        ModuleDocSubject::CppNestedTypes(p) => "C++ type: "@ + inline_code_of(path_pseudo(p@)),
    }
}

pub open spec fn struct_doc_of(subject: StructDocSubject, doc: Option<DocItem>) -> Seq<char> {
    let body = match subject {
        StructDocSubject::EnumWrapper(p) => doc_intro_of(doc) + "C++ enum: "@ + inline_code_of(
            path_pseudo(p@),
        ) + ".\n\n"@,
        StructDocSubject::ImmovableClassWrapper(p) => doc_intro_of(doc) + "C++ class: "@
            + inline_code_of(path_pseudo(p@)) + ".\n\n"@,
        StructDocSubject::RawSlotWrapper {
            rust_argument_types,
            closure_wrapper,
            signal_arguments,
        } => slot_wrapper_doc_of(
            SlotTarget::ExternFunction,
            texts(rust_argument_types@),
            closure_wrapper@,
            types_view(signal_arguments@),
        ),
        StructDocSubject::QtSlotWrapper { rust_argument_types, signal_arguments } => doc_intro_of(
            doc,
        ) + slot_wrapper_doc_of(
            SlotTarget::Closure,
            texts(rust_argument_types@),
            Seq::empty(),
            types_view(signal_arguments@),
        ),
        _ => doc_intro_of(doc),
    };
    body + doc_outro_of(doc)
}

pub open spec fn function_doc_of(subject: FunctionDocSubject, doc: Option<DocItem>) -> Option<
    Seq<char>,
> {
    match subject {
        FunctionDocSubject::SlotWrapperMethod(name) => slot_wrapper_method_doc_of(name@),
        FunctionDocSubject::CppFunctionCall(f) => Some(
            doc_intro_of(doc) + "Calls C++ function: "@ + inline_code_of(
                trimmed(f.untrimmed_text()),
            ) + ".\n\n"@ + doc_outro_of(doc),
        ),
        FunctionDocSubject::FieldAccessor(kind, field) => Some(
            doc_intro_of(doc) + field_accessor_doc_of(kind, field@) + doc_outro_of(doc),
        ),
        FunctionDocSubject::ReceiverGetter(t, p) => Some(
            doc_intro_of(doc) + receiver_getter_doc_of(t, path_pseudo(p@)) + doc_outro_of(doc),
        ),
        FunctionDocSubject::FfiFunction => Some(doc_intro_of(doc) + doc_outro_of(doc)),
    }
}

fn doc_intro(doc: Option<&DocItem>) -> (r: String)
    ensures
        r@ == doc_intro_of(
            match doc {
                Some(d) => Some(*d),
                None => None,
            },
        ),
{
    match doc {
        Some(d) => {
            if d.html.as_str().unicode_len() > 0 {
                let mut s = first_phrase(d.html.as_str());
                s.append("\n\n");
                s
            } else {
                String::new()
            }
        },
        None => String::new(),
    }
}

fn doc_outro(doc: Option<&DocItem>) -> (r: String)
    ensures
        r@ == doc_outro_of(
            match doc {
                Some(d) => Some(*d),
                None => None,
            },
        ),
{
    match doc {
        Some(d) => format_doc_item(d),
        None => String::new(),
    }
}

/// Documentation of a module of the generated crate.
pub fn module_doc(module: &ModuleDocSubject) -> (r: String)
    ensures
        r@ == module_doc_of(*module),
{
    match module {
        ModuleDocSubject::Special(kind) => special_module_doc(*kind),
        ModuleDocSubject::CppNamespace(p) => namespace_module_doc(p),
        ModuleDocSubject::CppNestedTypes(p) => nested_types_module_doc(p),
    }
}

/// Documentation of a struct of the generated crate: the first phrase of
/// its C++ documentation, what it wraps, and the C++ documentation record.
/// A slot wrapper that calls an extern function is described without the
/// first phrase.
pub fn struct_doc(subject: &StructDocSubject, doc: Option<&DocItem>) -> (r: String)
    ensures
        r@ == struct_doc_of(
            *subject,
            match doc {
                Some(d) => Some(*d),
                None => None,
            },
        ),
{
    let mut output = match subject {
        StructDocSubject::RawSlotWrapper { .. } => String::new(),
        _ => doc_intro(doc),
    };
    match subject {
        StructDocSubject::EnumWrapper(p) => {
            output.append("C++ enum: ");
            let code = wrap_inline_cpp_code(p.to_cpp_pseudo_code().as_str());
            output.append(code.as_str());
            output.append(".\n\n");
        },
        StructDocSubject::ImmovableClassWrapper(p) => {
            output.append("C++ class: ");
            let code = wrap_inline_cpp_code(p.to_cpp_pseudo_code().as_str());
            output.append(code.as_str());
            output.append(".\n\n");
        },
        StructDocSubject::RawSlotWrapper {
            rust_argument_types,
            closure_wrapper,
            signal_arguments,
        } => {
            let text = slot_wrapper_doc(
                SlotTarget::ExternFunction,
                rust_argument_types,
                closure_wrapper.as_str(),
                signal_arguments,
            );
            output.append(text.as_str());
        },
        StructDocSubject::QtSlotWrapper { rust_argument_types, signal_arguments } => {
            let text = slot_wrapper_doc(
                SlotTarget::Closure,
                rust_argument_types,
                "",
                signal_arguments,
            );
            proof {
                reveal_strlit("");
            }
            output.append(text.as_str());
        },
        _ => {},
    }
    let outro = doc_outro(doc);
    output.append(outro.as_str());
    output
}

/// Documentation of a function of the generated crate: for a method of a
/// slot wrapper, the text for its name (failing with `UnknownSlotMethod` for
/// a name without a rule); else the first phrase of its C++ documentation,
/// what it does, and the C++ documentation record.
pub fn function_doc(subject: &FunctionDocSubject, doc: Option<&DocItem>) -> (r: Result<
    String,
    CppError,
>)
    ensures
        ({
            let expected = function_doc_of(
                *subject,
                match doc {
                    Some(d) => Some(*d),
                    None => None,
                },
            );
            match expected {
                Some(t) => r is Ok && r->Ok_0@ == t,
                None => r is Err && r->Err_0 is UnknownSlotMethod,
            }
        }),
{
    let mut output = match subject {
        FunctionDocSubject::SlotWrapperMethod(name) => {
            return slot_wrapper_method_doc(name.as_str());
        },
        _ => doc_intro(doc),
    };
    match subject {
        FunctionDocSubject::CppFunctionCall(f) => {
            let text = function_call_doc(f);
            output.append(text.as_str());
        },
        FunctionDocSubject::FieldAccessor(kind, field) => {
            let text = field_accessor_doc(*kind, field.as_str());
            output.append(text.as_str());
        },
        FunctionDocSubject::ReceiverGetter(t, p) => {
            let text = receiver_getter_doc(*t, p);
            output.append(text.as_str());
        },
        _ => {},
    }
    let outro = doc_outro(doc);
    output.append(outro.as_str());
    Ok(output)
}

} // verus!
