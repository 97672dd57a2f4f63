//! C++ types and paths, with their mathematical views.

use vstd::prelude::*;

verus! {

/// Kind of a pointer-like type.
#[derive(Debug, Clone, Copy, PartialEq, Eq, Hash, Structural)]
pub enum CppPointerLikeTypeKind {
    /// `T*`
    Pointer,
    /// `T&`
    Reference,
    /// `T&&`
    RValueReference,
}

/// Built-in C++ arithmetic types.
#[derive(Debug, Clone, Copy, PartialEq, Eq, Hash, Structural)]
pub enum CppBuiltInNumericType {
    Bool,
    Char,
    SChar,
    UChar,
    WChar,
    Short,
    UShort,
    Int,
    UInt,
    Long,
    ULong,
    LongLong,
    ULongLong,
    Float,
    Double,
    LongDouble,
}

/// A template parameter: `index`-th parameter of the template at depth
/// `nested_level`, declared under `name`.
#[derive(Debug, Clone, Hash)]
pub struct CppTemplateParameter {
    pub nested_level: usize,
    pub index: usize,
    pub name: String,
}

/// One segment of a path, possibly with template arguments.
#[derive(Debug, Hash)]
pub struct CppPathItem {
    pub name: String,
    pub template_arguments: Option<Vec<CppType>>,
}

/// A qualified name such as `std::vector<int>::iterator`.
#[derive(Debug, Hash)]
pub struct CppPath {
    pub items: Vec<CppPathItem>,
}

/// Type of a pointer to a function.
#[derive(Debug, Hash)]
pub struct CppFunctionPointerType {
    pub return_type: Box<CppType>,
    pub arguments: Vec<CppType>,
    pub allows_variadic_arguments: bool,
}

/// A C++ type.
#[derive(Debug, Hash)]
pub enum CppType {
    Void,
    BuiltInNumeric(CppBuiltInNumericType),
    Class(CppPath),
    TemplateParameter(CppTemplateParameter),
    FunctionPointer(CppFunctionPointerType),
    PointerLike { kind: CppPointerLikeTypeKind, is_const: bool, target: Box<CppType> },
}

/// View of a template parameter.
pub struct TemplateParameterView {
    pub nested_level: nat,
    pub index: nat,
    pub name: Seq<char>,
}

/// View of a path segment.
pub struct PathItemView {
    pub name: Seq<char>,
    pub template_arguments: Option<Seq<TypeView>>,
}

/// View of a type: the same tree, with sequences for lists and text.
pub enum TypeView {
    Void,
    BuiltInNumeric(CppBuiltInNumericType),
    Class(Seq<PathItemView>),
    TemplateParameter(TemplateParameterView),
    FunctionPointer {
        return_type: Box<TypeView>,
        arguments: Seq<TypeView>,
        allows_variadic_arguments: bool,
    },
    PointerLike { kind: CppPointerLikeTypeKind, is_const: bool, target: Box<TypeView> },
}

pub open spec fn parameter_view(p: CppTemplateParameter) -> TemplateParameterView {
    TemplateParameterView {
        nested_level: p.nested_level as nat,
        index: p.index as nat,
        name: p.name@,
    }
}

pub open spec fn type_view(t: CppType) -> TypeView
    decreases t,
{
    match t {
        CppType::Void => TypeView::Void,
        CppType::BuiltInNumeric(n) => TypeView::BuiltInNumeric(n),
        CppType::Class(p) => TypeView::Class(items_view(p.items@)),
        CppType::TemplateParameter(p) => TypeView::TemplateParameter(parameter_view(p)),
        CppType::FunctionPointer(f) => TypeView::FunctionPointer {
            return_type: Box::new(type_view(*f.return_type)),
            arguments: types_view(f.arguments@),
            allows_variadic_arguments: f.allows_variadic_arguments,
        },
        CppType::PointerLike { kind, is_const, target } => TypeView::PointerLike {
            kind,
            is_const,
            target: Box::new(type_view(*target)),
        },
    }
}

pub open spec fn types_view(s: Seq<CppType>) -> Seq<TypeView>
    decreases s,
{
    if s.len() == 0 {
        Seq::empty()
    } else {
        types_view(s.subrange(0, s.len() - 1)).push(type_view(s[s.len() - 1]))
    }
}

pub open spec fn item_view(item: CppPathItem) -> PathItemView
    decreases item,
{
    PathItemView {
        name: item.name@,
        template_arguments: match item.template_arguments {
            Some(a) => Some(types_view(a@)),
            None => None,
        },
    }
}

pub open spec fn items_view(s: Seq<CppPathItem>) -> Seq<PathItemView>
    decreases s,
{
    if s.len() == 0 {
        Seq::empty()
    } else {
        items_view(s.subrange(0, s.len() - 1)).push(item_view(s[s.len() - 1]))
    }
}

impl View for CppTemplateParameter {
    type V = TemplateParameterView;

    open spec fn view(&self) -> TemplateParameterView {
        parameter_view(*self)
    }
}

impl View for CppType {
    type V = TypeView;

    open spec fn view(&self) -> TypeView {
        type_view(*self)
    }
}

impl View for CppPathItem {
    type V = PathItemView;

    open spec fn view(&self) -> PathItemView {
        item_view(*self)
    }
}

impl View for CppPath {
    type V = Seq<PathItemView>;

    open spec fn view(&self) -> Seq<PathItemView> {
        items_view(self.items@)
    }
}

pub proof fn lemma_types_view(s: Seq<CppType>)
    ensures
        types_view(s).len() == s.len(),
        forall|j: int| 0 <= j < s.len() ==> #[trigger] types_view(s)[j] == type_view(s[j]),
    decreases s.len(),
{
    if s.len() > 0 {
        lemma_types_view(s.subrange(0, s.len() - 1));
    }
}

pub proof fn lemma_items_view(s: Seq<CppPathItem>)
    ensures
        items_view(s).len() == s.len(),
        forall|j: int| 0 <= j < s.len() ==> #[trigger] items_view(s)[j] == item_view(s[j]),
    decreases s.len(),
{
    if s.len() > 0 {
        lemma_items_view(s.subrange(0, s.len() - 1));
    }
}

fn parameter_eq(a: &CppTemplateParameter, b: &CppTemplateParameter) -> (r: bool)
    ensures
        r == (a@ == b@),
{
    a.nested_level == b.nested_level && a.index == b.index && a.name == b.name
}

/// Deep equality of two types.
pub(crate) fn type_eq(a: &CppType, b: &CppType) -> (r: bool)
    ensures
        r == (a@ == b@),
    decreases a,
{
    match (a, b) {
        (CppType::Void, CppType::Void) => true,
        (CppType::BuiltInNumeric(x), CppType::BuiltInNumeric(y)) => *x == *y,
        (CppType::Class(p), CppType::Class(q)) => path_eq(p, q),
        (CppType::TemplateParameter(p), CppType::TemplateParameter(q)) => parameter_eq(p, q),
        (CppType::FunctionPointer(f), CppType::FunctionPointer(g)) => {
            f.allows_variadic_arguments == g.allows_variadic_arguments && type_eq(
                &f.return_type,
                &g.return_type,
            ) && type_list_eq(&f.arguments, &g.arguments)
        },
        (
            CppType::PointerLike { kind: k1, is_const: c1, target: t1 },
            CppType::PointerLike { kind: k2, is_const: c2, target: t2 },
        ) => *k1 == *k2 && *c1 == *c2 && type_eq(t1, t2),
        _ => false,
    }
}

/// Deep equality of two lists of types.
pub(crate) fn type_list_eq(a: &Vec<CppType>, b: &Vec<CppType>) -> (r: bool)
    ensures
        r == (types_view(a@) == types_view(b@)),
    decreases a,
{
    proof {
        lemma_types_view(a@);
        lemma_types_view(b@);
    }
    if a.len() != b.len() {
        return false;
    }
    let mut i: usize = 0;
    while i < a.len()
        invariant
            0 <= i <= a.len(),
            a.len() == b.len(),
            forall|j: int| 0 <= j < i ==> type_view(#[trigger] a@[j]) == type_view(b@[j]),
        decreases a.len() - i,
    {
        if !type_eq(&a[i], &b[i]) {
            proof {
                lemma_types_view(a@);
                lemma_types_view(b@);
            }
            assert(types_view(a@)[i as int] != types_view(b@)[i as int]);
            return false;
        }
        i += 1;
    }
    assert(types_view(a@) =~= types_view(b@));
    true
}

fn item_eq(a: &CppPathItem, b: &CppPathItem) -> (r: bool)
    ensures
        r == (a@ == b@),
    decreases a,
{
    if a.name != b.name {
        return false;
    }
    match (&a.template_arguments, &b.template_arguments) {
        (Some(x), Some(y)) => type_list_eq(x, y),
        (None, None) => true,
        _ => false,
    }
}

pub(crate) fn path_eq(a: &CppPath, b: &CppPath) -> (r: bool)
    ensures
        r == (a@ == b@),
    decreases a,
{
    proof {
        lemma_items_view(a.items@);
        lemma_items_view(b.items@);
    }
    if a.items.len() != b.items.len() {
        return false;
    }
    let mut i: usize = 0;
    while i < a.items.len()
        invariant
            0 <= i <= a.items.len(),
            a.items.len() == b.items.len(),
            forall|j: int| 0 <= j < i ==> item_view(#[trigger] a.items@[j]) == item_view(b.items@[j]),
        decreases a.items.len() - i,
    {
        if !item_eq(&a.items[i], &b.items[i]) {
            proof {
                lemma_items_view(a.items@);
                lemma_items_view(b.items@);
            }
            assert(items_view(a.items@)[i as int] != items_view(b.items@)[i as int]);
            return false;
        }
        i += 1;
    }
    assert(items_view(a.items@) =~= items_view(b.items@));
    true
}

/// A copy of a type, with the same view.
pub(crate) fn copy_type(t: &CppType) -> (r: CppType)
    ensures
        r@ == t@,
    decreases t,
{
    match t {
        CppType::Void => CppType::Void,
        CppType::BuiltInNumeric(n) => CppType::BuiltInNumeric(*n),
        CppType::Class(p) => CppType::Class(copy_path(p)),
        CppType::TemplateParameter(p) => CppType::TemplateParameter(
            CppTemplateParameter {
                nested_level: p.nested_level,
                index: p.index,
                name: p.name.clone(),
            },
        ),
        CppType::FunctionPointer(f) => CppType::FunctionPointer(
            CppFunctionPointerType {
                return_type: Box::new(copy_type(&f.return_type)),
                arguments: copy_type_list(&f.arguments),
                allows_variadic_arguments: f.allows_variadic_arguments,
            },
        ),
        CppType::PointerLike { kind, is_const, target } => CppType::PointerLike {
            kind: *kind,
            is_const: *is_const,
            target: Box::new(copy_type(target)),
        },
    }
}

/// A copy of a list of types, with the same view.
pub(crate) fn copy_type_list(v: &Vec<CppType>) -> (r: Vec<CppType>)
    ensures
        types_view(r@) == types_view(v@),
    decreases v,
{
    let mut out: Vec<CppType> = Vec::new();
    let mut i: usize = 0;
    while i < v.len()
        invariant
            0 <= i <= v.len(),
            out.len() == i,
            forall|j: int| 0 <= j < i ==> type_view(#[trigger] out@[j]) == type_view(v@[j]),
        decreases v.len() - i,
    {
        out.push(copy_type(&v[i]));
        i += 1;
    }
    proof {
        lemma_types_view(out@);
        lemma_types_view(v@);
        assert(types_view(out@) =~= types_view(v@));
    }
    out
}

fn copy_item(item: &CppPathItem) -> (r: CppPathItem)
    ensures
        r@ == item@,
    decreases item,
{
    CppPathItem {
        name: item.name.clone(),
        template_arguments: match &item.template_arguments {
            Some(a) => Some(copy_type_list(a)),
            None => None,
        },
    }
}

/// A copy of a path, with the same view.
pub(crate) fn copy_path(p: &CppPath) -> (r: CppPath)
    ensures
        r@ == p@,
    decreases p,
{
    let mut out: Vec<CppPathItem> = Vec::new();
    let mut i: usize = 0;
    while i < p.items.len()
        invariant
            0 <= i <= p.items.len(),
            out.len() == i,
            forall|j: int| 0 <= j < i ==> item_view(#[trigger] out@[j]) == item_view(p.items@[j]),
        decreases p.items.len() - i,
    {
        out.push(copy_item(&p.items[i]));
        i += 1;
    }
    proof {
        lemma_items_view(out@);
        lemma_items_view(p.items@);
        assert(items_view(out@) =~= items_view(p.items@));
    }
    CppPath { items: out }
}

impl PartialEq for CppTemplateParameter {
    fn eq(&self, other: &CppTemplateParameter) -> (r: bool) {
        parameter_eq(self, other)
    }
}

impl vstd::std_specs::cmp::PartialEqSpecImpl for CppTemplateParameter {
    open spec fn obeys_eq_spec() -> bool {
        true
    }

    open spec fn eq_spec(&self, other: &CppTemplateParameter) -> bool {
        self@ == other@
    }
}

impl Eq for CppTemplateParameter {

}

impl PartialEq for CppType {
    fn eq(&self, other: &CppType) -> (r: bool) {
        type_eq(self, other)
    }
}

impl vstd::std_specs::cmp::PartialEqSpecImpl for CppType {
    open spec fn obeys_eq_spec() -> bool {
        true
    }

    open spec fn eq_spec(&self, other: &CppType) -> bool {
        self@ == other@
    }
}

impl Eq for CppType {

}

impl PartialEq for CppPathItem {
    fn eq(&self, other: &CppPathItem) -> (r: bool) {
        item_eq(self, other)
    }
}

impl vstd::std_specs::cmp::PartialEqSpecImpl for CppPathItem {
    open spec fn obeys_eq_spec() -> bool {
        true
    }

    open spec fn eq_spec(&self, other: &CppPathItem) -> bool {
        self@ == other@
    }
}

impl Eq for CppPathItem {

}

impl PartialEq for CppPath {
    fn eq(&self, other: &CppPath) -> (r: bool) {
        path_eq(self, other)
    }
}

impl vstd::std_specs::cmp::PartialEqSpecImpl for CppPath {
    open spec fn obeys_eq_spec() -> bool {
        true
    }

    open spec fn eq_spec(&self, other: &CppPath) -> bool {
        self@ == other@
    }
}

impl Eq for CppPath {

}

impl Clone for CppType {
    fn clone(&self) -> (r: CppType) {
        copy_type(self)
    }
}

impl Clone for CppPathItem {
    fn clone(&self) -> (r: CppPathItem) {
        copy_item(self)
    }
}

impl Clone for CppPath {
    fn clone(&self) -> (r: CppPath) {
        copy_path(self)
    }
}

/// Whether the template parameter `p` occurs anywhere inside `t`.
pub open spec fn type_mentions(t: TypeView, p: TemplateParameterView) -> bool
    decreases t,
{
    match t {
        TypeView::TemplateParameter(q) => q == p,
        TypeView::Class(items) => items_mention(items, p),
        TypeView::FunctionPointer { return_type, arguments, .. } => type_mentions(*return_type, p)
            || types_mention(arguments, p),
        TypeView::PointerLike { target, .. } => type_mentions(*target, p),
        _ => false,
    }
}

pub open spec fn types_mention(s: Seq<TypeView>, p: TemplateParameterView) -> bool
    decreases s,
{
    s.len() > 0 && (types_mention(s.subrange(0, s.len() - 1), p) || type_mentions(
        s[s.len() - 1],
        p,
    ))
}

pub open spec fn item_mentions(item: PathItemView, p: TemplateParameterView) -> bool
    decreases item,
{
    match item.template_arguments {
        Some(args) => types_mention(args, p),
        None => false,
    }
}

pub open spec fn items_mention(s: Seq<PathItemView>, p: TemplateParameterView) -> bool
    decreases s,
{
    s.len() > 0 && (items_mention(s.subrange(0, s.len() - 1), p) || item_mentions(
        s[s.len() - 1],
        p,
    ))
}

pub proof fn lemma_types_mention(s: Seq<TypeView>, p: TemplateParameterView)
    ensures
        types_mention(s, p) == exists|j: int| 0 <= j < s.len() && #[trigger] type_mentions(s[j], p),
    decreases s.len(),
{
    if s.len() > 0 {
        let q = s.subrange(0, s.len() - 1);
        lemma_types_mention(q, p);
        if types_mention(q, p) {
            let j = choose|j: int| 0 <= j < q.len() && #[trigger] type_mentions(q[j], p);
            assert(q[j] == s[j]);
            assert(type_mentions(s[j], p));
        }
        if type_mentions(s[s.len() - 1], p) {
            assert(type_mentions(s[s.len() - 1], p));
        }
        if exists|j: int| 0 <= j < s.len() && #[trigger] type_mentions(s[j], p) {
            let j = choose|j: int| 0 <= j < s.len() && #[trigger] type_mentions(s[j], p);
            if j < q.len() {
                assert(q[j] == s[j]);
            }
        }
    }
}

pub proof fn lemma_items_mention(s: Seq<PathItemView>, p: TemplateParameterView)
    ensures
        items_mention(s, p) == exists|j: int| 0 <= j < s.len() && #[trigger] item_mentions(s[j], p),
    decreases s.len(),
{
    if s.len() > 0 {
        let q = s.subrange(0, s.len() - 1);
        lemma_items_mention(q, p);
        if items_mention(q, p) {
            let j = choose|j: int| 0 <= j < q.len() && #[trigger] item_mentions(q[j], p);
            assert(q[j] == s[j]);
            assert(item_mentions(s[j], p));
        }
        if item_mentions(s[s.len() - 1], p) {
            assert(item_mentions(s[s.len() - 1], p));
        }
        if exists|j: int| 0 <= j < s.len() && #[trigger] item_mentions(s[j], p) {
            let j = choose|j: int| 0 <= j < s.len() && #[trigger] item_mentions(s[j], p);
            if j < q.len() {
                assert(q[j] == s[j]);
            }
        }
    }
}

fn mention_type(t: &CppType, p: &CppTemplateParameter) -> (r: bool)
    ensures
        r == type_mentions(t@, p@),
    decreases t,
{
    match t {
        CppType::TemplateParameter(q) => parameter_eq(q, p),
        CppType::Class(path) => mention_path(path, p),
        CppType::FunctionPointer(f) => mention_type(&f.return_type, p) || mention_type_list(
            &f.arguments,
            p,
        ),
        CppType::PointerLike { target, .. } => mention_type(target, p),
        _ => false,
    }
}

pub(crate) fn mention_type_list(v: &Vec<CppType>, p: &CppTemplateParameter) -> (r: bool)
    ensures
        r == types_mention(types_view(v@), p@),
    decreases v,
{
    proof {
        lemma_types_view(v@);
        lemma_types_mention(types_view(v@), p@);
    }
    let mut i: usize = 0;
    while i < v.len()
        invariant
            0 <= i <= v.len(),
            forall|j: int| 0 <= j < i ==> !type_mentions(#[trigger] type_view(v@[j]), p@),
        decreases v.len() - i,
    {
        if mention_type(&v[i], p) {
            proof {
                lemma_types_view(v@);
                lemma_types_mention(types_view(v@), p@);
                assert(type_mentions(types_view(v@)[i as int], p@));
            }
            return true;
        }
        i += 1;
    }
    proof {
        lemma_types_view(v@);
        lemma_types_mention(types_view(v@), p@);
        assert forall|j: int| 0 <= j < v.len() implies !#[trigger] type_mentions(
            types_view(v@)[j],
            p@,
        ) by {
            assert(!type_mentions(type_view(v@[j]), p@));
        }
    }
    false
}

fn mention_item(item: &CppPathItem, p: &CppTemplateParameter) -> (r: bool)
    ensures
        r == item_mentions(item@, p@),
    decreases item,
{
    match &item.template_arguments {
        Some(args) => mention_type_list(args, p),
        None => false,
    }
}

fn mention_path(path: &CppPath, p: &CppTemplateParameter) -> (r: bool)
    ensures
        r == items_mention(path@, p@),
    decreases path,
{
    proof {
        lemma_items_view(path.items@);
        lemma_items_mention(path@, p@);
    }
    let mut i: usize = 0;
    while i < path.items.len()
        invariant
            0 <= i <= path.items.len(),
            forall|j: int| 0 <= j < i ==> !item_mentions(#[trigger] item_view(path.items@[j]), p@),
        decreases path.items.len() - i,
    {
        if mention_item(&path.items[i], p) {
            proof {
                lemma_items_view(path.items@);
                lemma_items_mention(path@, p@);
                assert(item_mentions(items_view(path.items@)[i as int], p@));
            }
            return true;
        }
        i += 1;
    }
    proof {
        lemma_items_view(path.items@);
        lemma_items_mention(path@, p@);
        assert forall|j: int| 0 <= j < path.items.len() implies !#[trigger] item_mentions(
            items_view(path.items@)[j],
            p@,
        ) by {
            assert(!item_mentions(item_view(path.items@[j]), p@));
        }
    }
    false
}

impl CppType {
    /// Whether the template parameter `param` occurs anywhere inside this
    /// type.
    pub fn contains_template_parameter(&self, param: &CppTemplateParameter) -> (r: bool)
        ensures
            r == type_mentions(self@, param@),
    {
        mention_type(self, param)
    }

    /// `const C&` for the class at `path`, or the like.
    pub fn new_reference(is_const: bool, target: CppType) -> (r: CppType)
        ensures
            r@ == (TypeView::PointerLike {
                kind: CppPointerLikeTypeKind::Reference,
                is_const,
                target: Box::new(target@),
            }),
    {
        CppType::PointerLike {
            kind: CppPointerLikeTypeKind::Reference,
            is_const,
            target: Box::new(target),
        }
    }

    /// `T*`, or `const T*` if `is_const`.
    pub fn new_pointer(is_const: bool, target: CppType) -> (r: CppType)
        ensures
            r@ == (TypeView::PointerLike {
                kind: CppPointerLikeTypeKind::Pointer,
                is_const,
                target: Box::new(target@),
            }),
    {
        CppType::PointerLike { kind: CppPointerLikeTypeKind::Pointer, is_const, target: Box::new(target) }
    }
}

impl CppPath {
    /// A path of the given segments.
    pub fn from_items(items: Vec<CppPathItem>) -> (r: CppPath)
        ensures
            r@ == items_view(items@),
    {
        CppPath { items }
    }

    /// The last segment.
    pub fn last(&self) -> (r: &CppPathItem)
        requires
            self.items.len() > 0,
        ensures
            *r == self.items@.last(),
    {
        &self.items[self.items.len() - 1]
    }

    /// The path without its last segment, if it has more than one.
    pub fn parent(&self) -> (r: Option<CppPath>)
        ensures
            r is Some <==> self.items.len() > 1,
            r is Some ==> r->0@ == self@.drop_last(),
    {
        if self.items.len() <= 1 {
            return None;
        }
        let mut out: Vec<CppPathItem> = Vec::new();
        let mut i: usize = 0;
        while i + 1 < self.items.len()
            invariant
                0 <= i < self.items.len(),
                out.len() == i,
                forall|j: int| 0 <= j < i ==> item_view(#[trigger] out@[j]) == item_view(self.items@[j]),
            decreases self.items.len() - i,
        {
            out.push(copy_item(&self.items[i]));
            i += 1;
        }
        proof {
            lemma_items_view(out@);
            lemma_items_view(self.items@);
            assert(items_view(out@) =~= items_view(self.items@).drop_last());
        }
        Some(CppPath { items: out })
    }
}

impl CppPathItem {
    /// A segment without template arguments.
    pub fn from_name(name: String) -> (r: CppPathItem)
        ensures
            r@ == (PathItemView { name: name@, template_arguments: None }),
    {
        CppPathItem { name, template_arguments: None }
    }
}

} // verus!
