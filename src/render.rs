//! Writing types and paths as C++ code, and as looser pseudo-code for
//! diagnostics.

use crate::cpp_type::{
    item_view, items_view, lemma_items_view, lemma_types_view, type_view, types_view, CppBuiltInNumericType, CppPath, CppPathItem, CppPointerLikeTypeKind,
    CppType, PathItemView, TypeView,
};
use crate::error::CppError;
use crate::text::{join_texts, joined, text_of, texts};
use vstd::prelude::*;

verus! {

pub open spec fn numeric_code(n: CppBuiltInNumericType) -> Seq<char> {
    match n {
        CppBuiltInNumericType::Bool => "bool"@,
        CppBuiltInNumericType::Char => "char"@,
        CppBuiltInNumericType::SChar => "signed char"@,
        CppBuiltInNumericType::UChar => "unsigned char"@,
        CppBuiltInNumericType::WChar => "wchar_t"@,
        CppBuiltInNumericType::Short => "short"@,
        CppBuiltInNumericType::UShort => "unsigned short"@,
        CppBuiltInNumericType::Int => "int"@,
        CppBuiltInNumericType::UInt => "unsigned int"@,
        CppBuiltInNumericType::Long => "long"@,
        CppBuiltInNumericType::ULong => "unsigned long"@,
        CppBuiltInNumericType::LongLong => "long long"@,
        CppBuiltInNumericType::ULongLong => "unsigned long long"@,
        CppBuiltInNumericType::Float => "float"@,
        CppBuiltInNumericType::Double => "double"@,
        CppBuiltInNumericType::LongDouble => "long double"@,
    }
}

pub open spec fn const_prefix(is_const: bool) -> Seq<char> {
    if is_const {
        "const "@
    } else {
        ""@
    }
}

pub open spec fn pointer_suffix(kind: CppPointerLikeTypeKind) -> Seq<char> {
    match kind {
        CppPointerLikeTypeKind::Pointer => "*"@,
        CppPointerLikeTypeKind::Reference => "&"@,
        CppPointerLikeTypeKind::RValueReference => "&&"@,
    }
}

pub open spec fn variadic_suffix(allows_variadic_arguments: bool) -> Seq<char> {
    if allows_variadic_arguments {
        ", ..."@
    } else {
        ""@
    }
}

pub open spec fn opt_text(o: Option<&str>) -> Option<Seq<char>> {
    match o {
        Some(s) => Some(s@),
        None => None,
    }
}

/// C++ code of a type; `inner` is the name that a function pointer
/// declares. `None` where the type has no C++ spelling: a template
/// parameter, a variadic function pointer, or a function pointer with no
/// name to declare.
pub open spec fn type_code(t: TypeView, inner: Option<Seq<char>>) -> Option<Seq<char>>
    decreases t,
{
    match t {
        TypeView::Void => Some("void"@),
        TypeView::BuiltInNumeric(n) => Some(numeric_code(n)),
        TypeView::Class(items) => match items_code(items) {
            Some(parts) => Some(joined(parts, "::"@)),
            None => None,
        },
        TypeView::TemplateParameter(_) => None,
        TypeView::FunctionPointer { return_type, arguments, allows_variadic_arguments } => {
            if allows_variadic_arguments {
                None
            } else {
                match (inner, type_code(*return_type, None), types_code(arguments)) {
                    (Some(name), Some(r), Some(a)) => Some(
                        r + " (*"@ + name + ")("@ + joined(a, ", "@) + ")"@,
                    ),
                    _ => None,
                }
            }
        },
        TypeView::PointerLike { kind, is_const, target } => match type_code(*target, inner) {
            Some(c) => Some(const_prefix(is_const) + c + pointer_suffix(kind)),
            None => None,
        },
    }
}

/// C++ code of each type of a list, or `None` if one has none.
pub open spec fn types_code(s: Seq<TypeView>) -> Option<Seq<Seq<char>>>
    decreases s,
{
    if s.len() == 0 {
        Some(Seq::empty())
    } else {
        match (types_code(s.subrange(0, s.len() - 1)), type_code(s[s.len() - 1], None)) {
            (Some(a), Some(c)) => Some(a.push(c)),
            _ => None,
        }
    }
}

/// C++ code of a path segment: `name< a, b >` with template arguments.
pub open spec fn item_code(item: PathItemView) -> Option<Seq<char>>
    decreases item,
{
    match item.template_arguments {
        None => Some(item.name),
        Some(args) => match types_code(args) {
            Some(a) => Some(item.name + "< "@ + joined(a, ", "@) + " >"@),
            None => None,
        },
    }
}

pub open spec fn items_code(s: Seq<PathItemView>) -> Option<Seq<Seq<char>>>
    decreases s,
{
    if s.len() == 0 {
        Some(Seq::empty())
    } else {
        match (items_code(s.subrange(0, s.len() - 1)), item_code(s[s.len() - 1])) {
            (Some(a), Some(c)) => Some(a.push(c)),
            _ => None,
        }
    }
}

/// C++ code of a path: its segments joined by `::`.
pub open spec fn path_code(s: Seq<PathItemView>) -> Option<Seq<char>> {
    match items_code(s) {
        Some(parts) => Some(joined(parts, "::"@)),
        None => None,
    }
}

/// Pseudo-code of a type: like its C++ code, but defined for every type.
pub open spec fn type_pseudo(t: TypeView) -> Seq<char>
    decreases t,
{
    match t {
        TypeView::Void => "void"@,
        TypeView::BuiltInNumeric(n) => numeric_code(n),
        TypeView::Class(items) => joined(items_pseudo(items), "::"@),
        TypeView::TemplateParameter(p) => p.name,
        TypeView::FunctionPointer { return_type, arguments, allows_variadic_arguments } => {
            type_pseudo(*return_type) + " (*)("@ + joined(types_pseudo(arguments), ", "@)
                + variadic_suffix(allows_variadic_arguments) + ")"@
        },
        TypeView::PointerLike { kind, is_const, target } => const_prefix(is_const) + type_pseudo(
            *target,
        ) + pointer_suffix(kind),
    }
}

pub open spec fn types_pseudo(s: Seq<TypeView>) -> Seq<Seq<char>>
    decreases s,
{
    if s.len() == 0 {
        Seq::empty()
    } else {
        types_pseudo(s.subrange(0, s.len() - 1)).push(type_pseudo(s[s.len() - 1]))
    }
}

/// Pseudo-code of a path segment: `name<a, b>` with template arguments.
pub open spec fn item_pseudo(item: PathItemView) -> Seq<char>
    decreases item,
{
    match item.template_arguments {
        None => item.name,
        Some(args) => item.name + "<"@ + joined(types_pseudo(args), ", "@) + ">"@,
    }
}

pub open spec fn items_pseudo(s: Seq<PathItemView>) -> Seq<Seq<char>>
    decreases s,
{
    if s.len() == 0 {
        Seq::empty()
    } else {
        items_pseudo(s.subrange(0, s.len() - 1)).push(item_pseudo(s[s.len() - 1]))
    }
}

/// Pseudo-code of a path: its segments joined by `::`.
pub open spec fn path_pseudo(s: Seq<PathItemView>) -> Seq<char> {
    joined(items_pseudo(s), "::"@)
}

pub proof fn lemma_types_code(s: Seq<TypeView>)
    ensures
        (types_code(s) is Some) == (forall|j: int|
            0 <= j < s.len() ==> (#[trigger] type_code(s[j], None)) is Some),
        types_code(s) is Some ==> types_code(s)->0.len() == s.len() && forall|j: int|
            0 <= j < s.len() ==> #[trigger] types_code(s)->0[j] == type_code(s[j], None)->0,
    decreases s.len(),
{
    if s.len() > 0 {
        let p = s.subrange(0, s.len() - 1);
        lemma_types_code(p);
        assert forall|j: int| 0 <= j < p.len() implies p[j] == s[j] by {}
        if forall|j: int| 0 <= j < s.len() ==> (#[trigger] type_code(s[j], None)) is Some {
            assert forall|j: int| 0 <= j < p.len() implies (#[trigger] type_code(p[j], None)) is Some by {
                assert(p[j] == s[j]);
                assert(type_code(s[j], None) is Some);
            }
            assert(type_code(s[s.len() - 1], None) is Some);
        }
        if types_code(s) is Some {
            assert forall|j: int| 0 <= j < s.len() implies (#[trigger] type_code(s[j], None)) is Some by {
                if j < p.len() {
                    assert(p[j] == s[j]);
                }
            }
        }
    }
}

pub proof fn lemma_items_code(s: Seq<PathItemView>)
    ensures
        (items_code(s) is Some) == (forall|j: int|
            0 <= j < s.len() ==> (#[trigger] item_code(s[j])) is Some),
        items_code(s) is Some ==> items_code(s)->0.len() == s.len() && forall|j: int|
            0 <= j < s.len() ==> #[trigger] items_code(s)->0[j] == item_code(s[j])->0,
    decreases s.len(),
{
    if s.len() > 0 {
        let p = s.subrange(0, s.len() - 1);
        lemma_items_code(p);
        assert forall|j: int| 0 <= j < p.len() implies p[j] == s[j] by {}
        if forall|j: int| 0 <= j < s.len() ==> (#[trigger] item_code(s[j])) is Some {
            assert forall|j: int| 0 <= j < p.len() implies (#[trigger] item_code(p[j])) is Some by {
                assert(p[j] == s[j]);
                assert(item_code(s[j]) is Some);
            }
            assert(item_code(s[s.len() - 1]) is Some);
        }
        if items_code(s) is Some {
            assert forall|j: int| 0 <= j < s.len() implies (#[trigger] item_code(s[j])) is Some by {
                if j < p.len() {
                    assert(p[j] == s[j]);
                }
            }
        }
    }
}

pub proof fn lemma_types_pseudo(s: Seq<TypeView>)
    ensures
        types_pseudo(s).len() == s.len(),
        forall|j: int| 0 <= j < s.len() ==> #[trigger] types_pseudo(s)[j] == type_pseudo(s[j]),
    decreases s.len(),
{
    if s.len() > 0 {
        lemma_types_pseudo(s.subrange(0, s.len() - 1));
    }
}

pub proof fn lemma_items_pseudo(s: Seq<PathItemView>)
    ensures
        items_pseudo(s).len() == s.len(),
        forall|j: int| 0 <= j < s.len() ==> #[trigger] items_pseudo(s)[j] == item_pseudo(s[j]),
    decreases s.len(),
{
    if s.len() > 0 {
        lemma_items_pseudo(s.subrange(0, s.len() - 1));
    }
}

impl CppBuiltInNumericType {
    /// C++ spelling of the type.
    pub fn to_cpp_code(&self) -> (r: &'static str)
        ensures
            r@ == numeric_code(*self),
    {
        match self {
            CppBuiltInNumericType::Bool => "bool",
            CppBuiltInNumericType::Char => "char",
            CppBuiltInNumericType::SChar => "signed char",
            CppBuiltInNumericType::UChar => "unsigned char",
            CppBuiltInNumericType::WChar => "wchar_t",
            CppBuiltInNumericType::Short => "short",
            CppBuiltInNumericType::UShort => "unsigned short",
            CppBuiltInNumericType::Int => "int",
            CppBuiltInNumericType::UInt => "unsigned int",
            CppBuiltInNumericType::Long => "long",
            CppBuiltInNumericType::ULong => "unsigned long",
            CppBuiltInNumericType::LongLong => "long long",
            CppBuiltInNumericType::ULongLong => "unsigned long long",
            CppBuiltInNumericType::Float => "float",
            CppBuiltInNumericType::Double => "double",
            CppBuiltInNumericType::LongDouble => "long double",
        }
    }
}

pub(crate) fn const_prefix_text(is_const: bool) -> (r: &'static str)
    ensures
        r@ == const_prefix(is_const),
{
    if is_const {
        "const "
    } else {
        ""
    }
}

fn pointer_suffix_text(kind: CppPointerLikeTypeKind) -> (r: &'static str)
    ensures
        r@ == pointer_suffix(kind),
{
    match kind {
        CppPointerLikeTypeKind::Pointer => "*",
        CppPointerLikeTypeKind::Reference => "&",
        CppPointerLikeTypeKind::RValueReference => "&&",
    }
}

pub(crate) fn variadic_suffix_text(allows_variadic_arguments: bool) -> (r: &'static str)
    ensures
        r@ == variadic_suffix(allows_variadic_arguments),
{
    if allows_variadic_arguments {
        ", ..."
    } else {
        ""
    }
}

fn render_type(t: &CppType, inner: Option<&str>) -> (r: Result<String, CppError>)
    ensures
        match r {
            Ok(c) => type_code(t@, opt_text(inner)) == Some(c@),
            Err(e) => type_code(t@, opt_text(inner)) is None && e is NotExpressibleInCode,
        },
    decreases t,
{
    match t {
        CppType::Void => Ok(text_of("void")),
        CppType::BuiltInNumeric(n) => Ok(text_of(n.to_cpp_code())),
        CppType::Class(p) => render_path(p),
        CppType::TemplateParameter(_) => Err(CppError::NotExpressibleInCode),
        CppType::FunctionPointer(f) => {
            if f.allows_variadic_arguments {
                return Err(CppError::NotExpressibleInCode);
            }
            let name = match inner {
                Some(name) => name,
                None => {
                    return Err(CppError::NotExpressibleInCode);
                },
            };
            let r = match render_type(&f.return_type, None) {
                Ok(r) => r,
                Err(e) => {
                    return Err(e);
                },
            };
            let a = match render_type_list(&f.arguments) {
                Ok(a) => a,
                Err(e) => {
                    return Err(e);
                },
            };
            let args = join_texts(&a, ", ");
            let mut s = r;
            s.append(" (*");
            s.append(name);
            s.append(")(");
            s.append(args.as_str());
            s.append(")");
            Ok(s)
        },
        CppType::PointerLike { kind, is_const, target } => {
            let c = match render_type(target, inner) {
                Ok(c) => c,
                Err(e) => {
                    return Err(e);
                },
            };
            let mut s = text_of(const_prefix_text(*is_const));
            s.append(c.as_str());
            s.append(pointer_suffix_text(*kind));
            Ok(s)
        },
    }
}

fn render_type_list(v: &Vec<CppType>) -> (r: Result<Vec<String>, CppError>)
    ensures
        match r {
            Ok(cs) => types_code(types_view(v@)) == Some(texts(cs@)),
            Err(e) => types_code(types_view(v@)) is None && e is NotExpressibleInCode,
        },
    decreases v,
{
    let mut out: Vec<String> = Vec::new();
    let mut i: usize = 0;
    while i < v.len()
        invariant
            0 <= i <= v.len(),
            out.len() == i,
            forall|j: int|
                0 <= j < i ==> type_code(type_view(v@[j]), None) == Some(#[trigger] out@[j]@),
        decreases v.len() - i,
    {
        match render_type(&v[i], None) {
            Ok(c) => {
                out.push(c);
            },
            Err(e) => {
                proof {
                    lemma_types_view(v@);
                    lemma_types_code(types_view(v@));
                    assert(type_code(types_view(v@)[i as int], None) is None);
                }
                return Err(e);
            },
        }
        i += 1;
    }
    proof {
        lemma_types_view(v@);
        lemma_types_code(types_view(v@));
        assert forall|j: int| 0 <= j < v.len() implies (#[trigger] type_code(
            types_view(v@)[j],
            None,
        )) is Some by {
            assert(out@[j]@ == out@[j]@);
        }
        assert(types_code(types_view(v@))->0 =~= texts(out@));
    }
    Ok(out)
}

fn render_item(item: &CppPathItem) -> (r: Result<String, CppError>)
    ensures
        match r {
            Ok(c) => item_code(item@) == Some(c@),
            Err(e) => item_code(item@) is None && e is NotExpressibleInCode,
        },
    decreases item,
{
    match &item.template_arguments {
        None => Ok(item.name.clone()),
        Some(args) => {
            let a = match render_type_list(args) {
                Ok(a) => a,
                Err(e) => {
                    return Err(e);
                },
            };
            let joined_args = join_texts(&a, ", ");
            let mut s = item.name.clone();
            s.append("< ");
            s.append(joined_args.as_str());
            s.append(" >");
            Ok(s)
        },
    }
}

fn render_path(p: &CppPath) -> (r: Result<String, CppError>)
    ensures
        match r {
            Ok(c) => path_code(p@) == Some(c@),
            Err(e) => path_code(p@) is None && e is NotExpressibleInCode,
        },
    decreases p,
{
    let mut out: Vec<String> = Vec::new();
    let mut i: usize = 0;
    while i < p.items.len()
        invariant
            0 <= i <= p.items.len(),
            out.len() == i,
            forall|j: int|
                0 <= j < i ==> item_code(item_view(p.items@[j])) == Some(#[trigger] out@[j]@),
        decreases p.items.len() - i,
    {
        match render_item(&p.items[i]) {
            Ok(c) => {
                out.push(c);
            },
            Err(e) => {
                proof {
                    lemma_items_view(p.items@);
                    lemma_items_code(items_view(p.items@));
                    assert(item_code(items_view(p.items@)[i as int]) is None);
                }
                return Err(e);
            },
        }
        i += 1;
    }
    proof {
        lemma_items_view(p.items@);
        lemma_items_code(items_view(p.items@));
        assert forall|j: int| 0 <= j < p.items.len() implies (#[trigger] item_code(
            items_view(p.items@)[j],
        )) is Some by {
            assert(out@[j]@ == out@[j]@);
        }
        assert(items_code(items_view(p.items@))->0 =~= texts(out@));
    }
    Ok(join_texts(&out, "::"))
}

fn pseudo_type(t: &CppType) -> (r: String)
    ensures
        r@ == type_pseudo(t@),
    decreases t,
{
    match t {
        CppType::Void => text_of("void"),
        CppType::BuiltInNumeric(n) => text_of(n.to_cpp_code()),
        CppType::Class(p) => pseudo_path(p),
        CppType::TemplateParameter(p) => p.name.clone(),
        CppType::FunctionPointer(f) => {
            let mut s = pseudo_type(&f.return_type);
            let a = pseudo_type_list(&f.arguments);
            let args = join_texts(&a, ", ");
            s.append(" (*)(");
            s.append(args.as_str());
            s.append(variadic_suffix_text(f.allows_variadic_arguments));
            s.append(")");
            s
        },
        CppType::PointerLike { kind, is_const, target } => {
            let c = pseudo_type(target);
            let mut s = text_of(const_prefix_text(*is_const));
            s.append(c.as_str());
            s.append(pointer_suffix_text(*kind));
            s
        },
    }
}

pub(crate) fn pseudo_type_list(v: &Vec<CppType>) -> (r: Vec<String>)
    ensures
        texts(r@) == types_pseudo(types_view(v@)),
    decreases v,
{
    let mut out: Vec<String> = Vec::new();
    let mut i: usize = 0;
    while i < v.len()
        invariant
            0 <= i <= v.len(),
            out.len() == i,
            forall|j: int| 0 <= j < i ==> type_pseudo(type_view(v@[j])) == #[trigger] out@[j]@,
        decreases v.len() - i,
    {
        out.push(pseudo_type(&v[i]));
        i += 1;
    }
    proof {
        lemma_types_view(v@);
        lemma_types_pseudo(types_view(v@));
        assert(types_pseudo(types_view(v@)) =~= texts(out@));
    }
    out
}

fn pseudo_item(item: &CppPathItem) -> (r: String)
    ensures
        r@ == item_pseudo(item@),
    decreases item,
{
    match &item.template_arguments {
        None => item.name.clone(),
        Some(args) => {
            let a = pseudo_type_list(args);
            let joined_args = join_texts(&a, ", ");
            let mut s = item.name.clone();
            s.append("<");
            s.append(joined_args.as_str());
            s.append(">");
            s
        },
    }
}

fn pseudo_path(p: &CppPath) -> (r: String)
    ensures
        r@ == path_pseudo(p@),
    decreases p,
{
    let mut out: Vec<String> = Vec::new();
    let mut i: usize = 0;
    while i < p.items.len()
        invariant
            0 <= i <= p.items.len(),
            out.len() == i,
            forall|j: int|
                0 <= j < i ==> item_pseudo(item_view(p.items@[j])) == #[trigger] out@[j]@,
        decreases p.items.len() - i,
    {
        out.push(pseudo_item(&p.items[i]));
        i += 1;
    }
    proof {
        lemma_items_view(p.items@);
        lemma_items_pseudo(items_view(p.items@));
        assert(items_pseudo(items_view(p.items@)) =~= texts(out@));
    }
    join_texts(&out, "::")
}

impl CppType {
    /// C++ code of the type. `function_pointer_inner_text` is the name that a
    /// function pointer type declares; a function pointer needs one.
    pub fn to_cpp_code(&self, function_pointer_inner_text: Option<&str>) -> (r: Result<
        String,
        CppError,
    >)
        ensures
            match r {
                Ok(c) => type_code(self@, opt_text(function_pointer_inner_text)) == Some(c@),
                Err(e) => type_code(self@, opt_text(function_pointer_inner_text)) is None
                    && e is NotExpressibleInCode,
            },
    {
        render_type(self, function_pointer_inner_text)
    }

    /// Readable text of the type, for diagnostics.
    pub fn to_cpp_pseudo_code(&self) -> (r: String)
        ensures
            r@ == type_pseudo(self@),
    {
        pseudo_type(self)
    }
}

impl CppPath {
    /// C++ code of the path.
    pub fn to_cpp_code(&self) -> (r: Result<String, CppError>)
        ensures
            match r {
                Ok(c) => path_code(self@) == Some(c@),
                Err(e) => path_code(self@) is None && e is NotExpressibleInCode,
            },
    {
        render_path(self)
    }

    /// Readable text of the path, for diagnostics.
    pub fn to_cpp_pseudo_code(&self) -> (r: String)
        ensures
            r@ == path_pseudo(self@),
    {
        pseudo_path(self)
    }
}

} // verus!
