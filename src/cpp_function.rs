//! C++ functions and methods: their data and the queries on it.

use crate::cpp_operator::CppOperator;
use crate::cpp_type::{
    copy_path, copy_type, lemma_types_view, path_eq, type_eq, type_mentions, type_view, types_view,
    CppPath, CppPathItem, CppPointerLikeTypeKind, CppTemplateParameter, CppType, TypeView,
};
use crate::error::CppError;
use crate::render::{
    lemma_types_code, path_pseudo, type_code, type_pseudo, types_code, variadic_suffix,
    variadic_suffix_text,
};
use crate::text::{join_texts, joined, replace_text, replaced, text_of, texts, trim_text, trimmed};
use vstd::prelude::*;
use vstd::slice::slice_subrange;

verus! {

/// Visibility of a class member.
#[derive(Debug, Clone, Copy, PartialEq, Eq, Hash, Structural)]
pub enum CppVisibility {
    Public,
    Protected,
    Private,
}

/// Which of the two receivers of a Qt connection a method is.
#[derive(Debug, Clone, Copy, PartialEq, Eq, Hash, Structural)]
pub enum RustQtReceiverType {
    Signal,
    Slot,
}

/// Information about an argument of a C++ method.
#[derive(Debug)]
pub struct CppFunctionArgument {
    /// Identifier. If the argument has no name in C++, a generated name
    /// "argX", X being the position of the argument.
    pub name: String,
    /// Argument type.
    pub argument_type: CppType,
    /// Whether the argument has a default value and can be omitted in a call.
    pub has_default_value: bool,
}

/// Special cases of C++ methods.
#[derive(Debug, Clone, Copy, PartialEq, Eq, Hash, Structural)]
pub enum CppFunctionKind {
    /// Just a class method.
    Regular,
    /// Constructor.
    Constructor,
    /// Destructor.
    Destructor,
}

/// Information about a C++ class member method.
#[derive(Debug, Clone, Copy, PartialEq, Eq, Hash, Structural)]
pub struct CppFunctionMemberData {
    /// Whether this method is a constructor, a destructor or neither.
    pub kind: CppFunctionKind,
    /// True if this is a virtual method.
    pub is_virtual: bool,
    /// True if this is a pure virtual method (then `is_virtual` is true).
    pub is_pure_virtual: bool,
    /// True if this is a const method: the `this` pointer it receives is const.
    pub is_const: bool,
    /// True if this is a static method, which receives no `this` pointer.
    pub is_static: bool,
    /// Method visibility.
    pub visibility: CppVisibility,
    /// True if the method is a Qt signal.
    pub is_signal: bool,
    /// True if the method is a Qt slot.
    pub is_slot: bool,
}

/// Information about a C++ function or method.
#[derive(Debug)]
pub struct CppFunction {
    /// Full path of the function. For a class method, the path of the class
    /// followed by the method's own name. The last segment holds the
    /// function's own template arguments, if it is a template.
    pub path: CppPath,
    /// Information about a class member function, `None` for free functions.
    pub member: Option<CppFunctionMemberData>,
    /// The operator that the function implements, if any.
    pub operator: Option<CppOperator>,
    /// Return type; `void` for constructors and destructors.
    pub return_type: CppType,
    /// The function's arguments.
    pub arguments: Vec<CppFunctionArgument>,
    /// Whether the argument list ends with "...".
    pub allows_variadic_arguments: bool,
    /// C++ code of the declaration, if it was declared explicitly.
    pub declaration_code: Option<String>,
}

/// Chosen allocation place of the value that a method returns.
#[derive(Debug, Clone, Copy, PartialEq, Eq, Hash, Structural)]
pub enum ReturnValueAllocationPlace {
    /// A class object returned by value (or built by a constructor), passed
    /// out through an output argument and placement new.
    Stack,
    /// A class object returned by value (or built by a constructor), passed
    /// out as a pointer to a plain `new`.
    Heap,
    /// The method does not return a class object by value.
    NotApplicable,
}

/// The views of the argument types, in order.
pub open spec fn argument_types(args: Seq<CppFunctionArgument>) -> Seq<TypeView> {
    args.map_values(|a: CppFunctionArgument| a.argument_type@)
}

impl CppFunctionKind {
    /// Returns true if this method is a constructor.
    pub fn is_constructor(&self) -> (r: bool)
        ensures
            r == (*self == CppFunctionKind::Constructor),
    {
        matches!(self, CppFunctionKind::Constructor)
    }

    /// Returns true if this method is a destructor.
    pub fn is_destructor(&self) -> (r: bool)
        ensures
            r == (*self == CppFunctionKind::Destructor),
    {
        matches!(self, CppFunctionKind::Destructor)
    }

    /// Returns true if this method is a regular method or a free function.
    pub fn is_regular(&self) -> (r: bool)
        ensures
            r == (*self == CppFunctionKind::Regular),
    {
        matches!(self, CppFunctionKind::Regular)
    }
}

impl CppFunctionMemberData {
    /// Whether the two agree on what identifies a member: its kind, and
    /// whether it is const and static.
    pub open spec fn spec_is_same(&self, other: &CppFunctionMemberData) -> bool {
        self.kind == other.kind && self.is_const == other.is_const && self.is_static
            == other.is_static
    }

    /// Whether the two agree on what identifies a member: its kind, and
    /// whether it is const and static.
    pub fn is_same(&self, other: &CppFunctionMemberData) -> (r: bool)
        ensures
            r == self.spec_is_same(other),
    {
        self.kind == other.kind && self.is_const == other.is_const && self.is_static
            == other.is_static
    }
}

/// `t` where `b` holds, else nothing.
pub open spec fn text_if(b: bool, t: Seq<char>) -> Seq<char> {
    if b {
        t
    } else {
        Seq::empty()
    }
}

/// Kind marker of a receiver identifier: "2" for a signal, "1" for a slot.
pub open spec fn receiver_marker(t: RustQtReceiverType) -> Seq<char> {
    match t {
        RustQtReceiverType::Signal => "2"@,
        RustQtReceiverType::Slot => "1"@,
    }
}

/// An argument type's spelling as the Qt runtime expects it.
pub open spec fn patched_receiver_argument(t: Seq<char>) -> Seq<char> {
    replaced(t, "QList< QModelIndex >"@, "QModelIndexList"@)
}

/// The identifier of a receiver: its marker, its name and its argument
/// types in parentheses, separated by commas; `None` where an argument type
/// has no C++ spelling.
pub open spec fn receiver_id_of(
    t: RustQtReceiverType,
    name: Seq<char>,
    types: Seq<TypeView>,
) -> Option<Seq<char>> {
    match types_code(types) {
        Some(cs) => Some(
            receiver_marker(t) + name + "("@ + joined(
                cs.map_values(|c: Seq<char>| patched_receiver_argument(c)),
                ","@,
            ) + ")"@,
        ),
        None => None,
    }
}

impl CppFunction {
    /// The path is not empty, and nests under a class for a member.
    pub open spec fn well_formed(&self) -> bool {
        self.path.items.len() > 0 && (self.member is Some ==> self.path.items.len() > 1)
    }

    pub open spec fn spec_argument_types_equal(&self, other: &CppFunction) -> bool {
        self.arguments.len() == other.arguments.len() && self.allows_variadic_arguments
            == other.allows_variadic_arguments && argument_types(self.arguments@)
            == argument_types(other.arguments@)
    }

    pub open spec fn members_same(&self, other: &CppFunction) -> bool {
        match (self.member, other.member) {
            (Some(a), Some(b)) => a.spec_is_same(&b),
            (None, None) => true,
            _ => false,
        }
    }

    pub open spec fn spec_is_same(&self, other: &CppFunction) -> bool {
        self.path@ == other.path@ && self.members_same(other) && self.operator == other.operator
            && self.return_type@ == other.return_type@ && self.spec_argument_types_equal(other)
    }

    pub open spec fn spec_is_constructor(&self) -> bool {
        match self.member {
            Some(m) => m.kind == CppFunctionKind::Constructor,
            None => false,
        }
    }

    pub open spec fn spec_is_destructor(&self) -> bool {
        match self.member {
            Some(m) => m.kind == CppFunctionKind::Destructor,
            None => false,
        }
    }

    pub open spec fn spec_is_static_member(&self) -> bool {
        match self.member {
            Some(m) => m.is_static,
            None => false,
        }
    }

    pub open spec fn spec_is_virtual(&self) -> bool {
        match self.member {
            Some(m) => m.is_virtual,
            None => false,
        }
    }

    pub open spec fn spec_is_private(&self) -> bool {
        match self.member {
            Some(m) => m.visibility == CppVisibility::Private,
            None => false,
        }
    }

    pub open spec fn spec_is_signal(&self) -> bool {
        match self.member {
            Some(m) => m.is_signal,
            None => false,
        }
    }

    pub open spec fn spec_is_slot(&self) -> bool {
        match self.member {
            Some(m) => m.is_slot,
            None => false,
        }
    }

    /// The type `const C&`, C being the class that owns the method.
    pub open spec fn own_class_const_reference(&self) -> TypeView {
        TypeView::PointerLike {
            kind: CppPointerLikeTypeKind::Reference,
            is_const: true,
            target: Box::new(TypeView::Class(self.path@.drop_last())),
        }
    }

    pub open spec fn spec_is_copy_constructor(&self) -> bool {
        self.spec_is_constructor() && self.arguments.len() == 1 && self.path.items.len() > 1
            && self.arguments@[0].argument_type@ == self.own_class_const_reference()
    }

    /// Which receiver the method is: slot first, then signal.
    pub open spec fn receiver_kind(&self) -> Option<RustQtReceiverType> {
        match self.member {
            Some(m) => if m.is_slot {
                Some(RustQtReceiverType::Slot)
            } else if m.is_signal {
                Some(RustQtReceiverType::Signal)
            } else {
                None
            },
            None => None,
        }
    }

    /// Checks if two methods have the same variadic flag and the same
    /// argument types, in order. Argument names and default values do not
    /// count.
    pub fn argument_types_equal(&self, other: &CppFunction) -> (r: bool)
        ensures
            r == self.spec_argument_types_equal(other),
    {
        if self.arguments.len() != other.arguments.len() {
            return false;
        }
        if self.allows_variadic_arguments != other.allows_variadic_arguments {
            return false;
        }
        let mut i: usize = 0;
        while i < self.arguments.len()
            invariant
                0 <= i <= self.arguments.len(),
                self.arguments.len() == other.arguments.len(),
                forall|j: int|
                    0 <= j < i ==> (#[trigger] self.arguments@[j]).argument_type@
                        == other.arguments@[j].argument_type@,
            decreases self.arguments.len() - i,
        {
            if !type_eq(&self.arguments[i].argument_type, &other.arguments[i].argument_type) {
                assert(argument_types(self.arguments@)[i as int] != argument_types(
                    other.arguments@,
                )[i as int]);
                return false;
            }
            i += 1;
        }
        assert(argument_types(self.arguments@) =~= argument_types(other.arguments@));
        true
    }

    /// Whether two declarations declare the same entity: same path, same
    /// member kind, constness and staticness, same operator, same return
    /// type and same argument types. Virtuality, visibility and the signal
    /// and slot flags do not count.
    pub fn is_same(&self, other: &CppFunction) -> (r: bool)
        ensures
            r == self.spec_is_same(other),
    {
        let member_is_same = match (&self.member, &other.member) {
            (Some(m1), Some(m2)) => m1.is_same(m2),
            (None, None) => true,
            _ => false,
        };
        let operator_is_same = match (self.operator, other.operator) {
            (Some(a), Some(b)) => a == b,
            (None, None) => true,
            _ => false,
        };
        path_eq(&self.path, &other.path) && member_is_same && operator_is_same && type_eq(
            &self.return_type,
            &other.return_type,
        ) && self.argument_types_equal(other)
    }

    /// The path of the class that owns the method.
    pub fn class_path(&self) -> (r: Result<CppPath, CppError>)
        ensures
            match r {
                Ok(p) => self.member is Some && self.path.items.len() > 1 && p@
                    == self.path@.drop_last(),
                Err(e) => (self.member is None || self.path.items.len() <= 1)
                    && e is NotAMember,
            },
    {
        if self.member.is_none() {
            return Err(CppError::NotAMember);
        }
        match self.path.parent() {
            Some(p) => Ok(p),
            None => Err(CppError::NotAMember),
        }
    }

    /// The segments of the path of the class that owns the method.
    pub fn class_path_parts(&self) -> (r: Result<&[CppPathItem], CppError>)
        ensures
            match r {
                Ok(parts) => self.member is Some && self.path.items.len() > 1 && parts@
                    == self.path.items@.drop_last(),
                Err(e) => (self.member is None || self.path.items.len() <= 1)
                    && e is NotAMember,
            },
    {
        if self.member.is_none() || self.path.items.len() <= 1 {
            return Err(CppError::NotAMember);
        }
        let parts = slice_subrange(self.path.items.as_slice(), 0, self.path.items.len() - 1);
        assert(parts@ =~= self.path.items@.drop_last());
        Ok(parts)
    }

    /// Returns true if this method is a constructor.
    pub fn is_constructor(&self) -> (r: bool)
        ensures
            r == self.spec_is_constructor(),
    {
        match &self.member {
            Some(info) => info.kind.is_constructor(),
            None => false,
        }
    }

    /// Returns true if this method is a constructor whose one argument is a
    /// const reference to its own class.
    pub fn is_copy_constructor(&self) -> (r: bool)
        ensures
            r == self.spec_is_copy_constructor(),
    {
        if !self.is_constructor() {
            return false;
        }
        if self.arguments.len() != 1 {
            return false;
        }
        match self.class_path() {
            Ok(p) => {
                let arg = CppType::new_reference(true, CppType::Class(p));
                type_eq(&arg, &self.arguments[0].argument_type)
            },
            Err(_) => false,
        }
    }

    /// Returns true if this method is a destructor.
    pub fn is_destructor(&self) -> (r: bool)
        ensures
            r == self.spec_is_destructor(),
    {
        match &self.member {
            Some(info) => info.kind.is_destructor(),
            None => false,
        }
    }

    /// Returns true if this method is static.
    pub fn is_static_member(&self) -> (r: bool)
        ensures
            r == self.spec_is_static_member(),
    {
        match &self.member {
            Some(info) => info.is_static,
            None => false,
        }
    }

    /// Returns true if this method is virtual.
    pub fn is_virtual(&self) -> (r: bool)
        ensures
            r == self.spec_is_virtual(),
    {
        match &self.member {
            Some(info) => info.is_virtual,
            None => false,
        }
    }

    /// Returns true if this method is private.
    pub fn is_private(&self) -> (r: bool)
        ensures
            r == self.spec_is_private(),
    {
        match &self.member {
            Some(info) => info.visibility == CppVisibility::Private,
            None => false,
        }
    }

    /// Returns true if this method is a Qt signal.
    pub fn is_signal(&self) -> (r: bool)
        ensures
            r == self.spec_is_signal(),
    {
        match &self.member {
            Some(info) => info.is_signal,
            None => false,
        }
    }

    /// Returns true if this method is a Qt slot.
    pub fn is_slot(&self) -> (r: bool)
        ensures
            r == self.spec_is_slot(),
    {
        match &self.member {
            Some(info) => info.is_slot,
            None => false,
        }
    }

    /// Rewrites `QList< QModelIndex >`, which the Qt runtime does not
    /// recognize, to `QModelIndexList`.
    pub fn patch_receiver_argument_type(type_text: &str) -> (r: String)
        ensures
            r@ == patched_receiver_argument(type_text@),
    {
        proof {
            reveal_strlit("QList< QModelIndex >");
        }
        replace_text(type_text, "QList< QModelIndex >", "QModelIndexList")
    }

    /// The identifier of a signal or slot with the given name and argument
    /// types, as `QObject::connect` expects it.
    pub fn receiver_id_from_data(
        receiver_type: RustQtReceiverType,
        name: &str,
        arguments: &Vec<CppType>,
    ) -> (r: Result<String, CppError>)
        ensures
            match r {
                Ok(s) => receiver_id_of(receiver_type, name@, types_view(arguments@)) == Some(s@),
                Err(e) => receiver_id_of(receiver_type, name@, types_view(arguments@)) is None
                    && e is NotExpressibleInCode,
            },
    {
        let type_num = match receiver_type {
            RustQtReceiverType::Signal => "2",
            RustQtReceiverType::Slot => "1",
        };
        let mut patched: Vec<String> = Vec::new();
        let mut i: usize = 0;
        while i < arguments.len()
            invariant
                0 <= i <= arguments.len(),
                patched.len() == i,
                forall|j: int|
                    0 <= j < i ==> type_code(type_view(#[trigger] arguments@[j]), None) is Some,
                forall|j: int|
                    0 <= j < i ==> (#[trigger] patched@[j])@ == patched_receiver_argument(
                        type_code(type_view(arguments@[j]), None)->0,
                    ),
            decreases arguments.len() - i,
        {
            match arguments[i].to_cpp_code(None) {
                Ok(c) => {
                    assert(type_code(type_view(arguments@[i as int]), None) == Some(c@));
                    patched.push(Self::patch_receiver_argument_type(c.as_str()));
                },
                Err(e) => {
                    proof {
                        lemma_types_view(arguments@);
                        lemma_types_code(types_view(arguments@));
                        assert(type_code(types_view(arguments@)[i as int], None) is None);
                    }
                    return Err(e);
                },
            }
            i += 1;
        }
        proof {
            lemma_types_view(arguments@);
            lemma_types_code(types_view(arguments@));
            assert forall|j: int| 0 <= j < arguments.len() implies (#[trigger] type_code(
                types_view(arguments@)[j],
                None,
            )) is Some by {
                assert(patched@[j]@ == patched@[j]@);
            }
            assert(types_code(types_view(arguments@))->0.map_values(
                |c: Seq<char>| patched_receiver_argument(c),
            ) =~= texts(patched@));
        }
        let joined_args = join_texts(&patched, ",");
        let mut s = text_of(type_num);
        s.append(name);
        s.append("(");
        s.append(joined_args.as_str());
        s.append(")");
        Ok(s)
    }

    /// Returns the identifier that `QObject::connect` uses for this signal
    /// or slot.
    pub fn receiver_id(&self) -> (r: Result<String, CppError>)
        requires
            self.path.items.len() > 0,
        ensures
            match self.receiver_kind() {
                None => r is Err && r->Err_0 is NotASignalOrSlot,
                Some(k) => match r {
                    Ok(s) => receiver_id_of(
                        k,
                        self.path.items@.last().name@,
                        argument_types(self.arguments@),
                    ) == Some(s@),
                    Err(e) => receiver_id_of(
                        k,
                        self.path.items@.last().name@,
                        argument_types(self.arguments@),
                    ) is None && e is NotExpressibleInCode,
                },
            },
    {
        let receiver_type = match &self.member {
            Some(info) => {
                if info.is_slot {
                    RustQtReceiverType::Slot
                } else if info.is_signal {
                    RustQtReceiverType::Signal
                } else {
                    return Err(CppError::NotASignalOrSlot);
                }
            },
            None => {
                return Err(CppError::NotASignalOrSlot);
            },
        };
        let mut types: Vec<CppType> = Vec::new();
        let mut i: usize = 0;
        while i < self.arguments.len()
            invariant
                0 <= i <= self.arguments.len(),
                types.len() == i,
                forall|j: int|
                    0 <= j < i ==> type_view(#[trigger] types@[j])
                        == self.arguments@[j].argument_type@,
            decreases self.arguments.len() - i,
        {
            types.push(copy_type(&self.arguments[i].argument_type));
            i += 1;
        }
        proof {
            lemma_types_view(types@);
            assert(types_view(types@) =~= argument_types(self.arguments@));
        }
        Self::receiver_id_from_data(receiver_type, self.path.last().name.as_str(), &types)
    }

    /// The member information, if this is a class member.
    pub fn member(&self) -> (r: Option<&CppFunctionMemberData>)
        ensures
            match r {
                Some(m) => self.member == Some(*m),
                None => self.member is None,
            },
    {
        match &self.member {
            Some(m) => Some(m),
            None => None,
        }
    }

    /// Returns true if this method is an operator.
    pub fn is_operator(&self) -> (r: bool)
        ensures
            r == self.operator is Some,
    {
        self.operator.is_some()
    }
}

/// Whether the template argument `t`, if it is a template parameter, occurs
/// in one of the argument types `args`.
pub open spec fn parameter_inferable(t: TypeView, args: Seq<TypeView>) -> bool {
    match t {
        TypeView::TemplateParameter(p) => exists|k: int|
            0 <= k < args.len() && type_mentions(#[trigger] args[k], p),
        _ => true,
    }
}

/// C++ code that declares the argument; `None` where its type has no C++
/// spelling.
pub open spec fn argument_code(a: CppFunctionArgument) -> Option<Seq<char>> {
    match a.argument_type@ {
        TypeView::FunctionPointer { .. } => type_code(a.argument_type@, Some(a.name@)),
        _ => match type_code(a.argument_type@, None) {
            Some(c) => Some(c + " "@ + a.name@),
            None => None,
        },
    }
}

/// The argument as a declaration writes it, with pseudo-code where C++ code
/// is lacking.
pub open spec fn argument_declaration(a: CppFunctionArgument) -> Seq<char> {
    match argument_code(a) {
        Some(c) => c,
        None => type_pseudo(a.argument_type@) + " "@ + a.name@,
    }
}

/// The argument as the short text writes it.
pub open spec fn argument_text(a: CppFunctionArgument) -> Seq<char> {
    type_pseudo(a.argument_type@) + " "@ + a.name@ + text_if(a.has_default_value, " = …"@)
}

/// Qualifiers that a declaration shows before the return type.
pub open spec fn declaration_qualifiers(m: CppFunctionMemberData) -> Seq<char> {
    text_if(m.is_virtual, " virtual"@) + text_if(m.is_static, " static"@) + text_if(
        m.visibility == CppVisibility::Protected,
        " protected"@,
    ) + text_if(m.visibility == CppVisibility::Private, " private"@)
}

/// Qualifiers that the short text shows before the return type.
pub open spec fn text_qualifiers(m: CppFunctionMemberData) -> Seq<char> {
    text_if(m.is_virtual, if m.is_pure_virtual {
        " pure virtual"@
    } else {
        " virtual"@
    }) + text_if(m.is_static, " static"@) + text_if(
        m.visibility == CppVisibility::Protected,
        " protected"@,
    ) + text_if(m.visibility == CppVisibility::Private, " private"@) + text_if(
        m.is_signal,
        " [signal]"@,
    ) + text_if(m.is_slot, " [slot]"@) + text_if(
        m.kind == CppFunctionKind::Constructor,
        " [constructor]"@,
    ) + text_if(m.kind == CppFunctionKind::Destructor, " [destructor]"@)
}

impl CppFunctionArgument {
    /// C++ code that declares the argument.
    pub fn to_cpp_code(&self) -> (r: Result<String, CppError>)
        ensures
            match r {
                Ok(c) => argument_code(*self) == Some(c@),
                Err(e) => argument_code(*self) is None && e is NotExpressibleInCode,
            },
    {
        match &self.argument_type {
            CppType::FunctionPointer(_) => self.argument_type.to_cpp_code(
                Some(self.name.as_str()),
            ),
            _ => {
                let mut s = match self.argument_type.to_cpp_code(None) {
                    Ok(c) => c,
                    Err(e) => {
                        return Err(e);
                    },
                };
                s.append(" ");
                s.append(self.name.as_str());
                Ok(s)
            },
        }
    }
}

fn append_if(s: &mut String, b: bool, t: &str)
    ensures
        final(s)@ == old(s)@ + text_if(b, t@),
{
    if b {
        s.append(t);
    } else {
        assert(old(s)@ + text_if(b, t@) =~= old(s)@);
    }
}

fn declaration_qualifiers_text(m: &CppFunctionMemberData) -> (r: String)
    ensures
        r@ == declaration_qualifiers(*m),
{
    let mut s = String::new();
    append_if(&mut s, m.is_virtual, " virtual");
    append_if(&mut s, m.is_static, " static");
    append_if(&mut s, m.visibility == CppVisibility::Protected, " protected");
    append_if(&mut s, m.visibility == CppVisibility::Private, " private");
    assert(s@ =~= declaration_qualifiers(*m));
    s
}

fn text_qualifiers_text(m: &CppFunctionMemberData) -> (r: String)
    ensures
        r@ == text_qualifiers(*m),
{
    let mut s = String::new();
    append_if(&mut s, m.is_virtual, if m.is_pure_virtual {
        " pure virtual"
    } else {
        " virtual"
    });
    append_if(&mut s, m.is_static, " static");
    append_if(&mut s, m.visibility == CppVisibility::Protected, " protected");
    append_if(&mut s, m.visibility == CppVisibility::Private, " private");
    append_if(&mut s, m.is_signal, " [signal]");
    append_if(&mut s, m.is_slot, " [slot]");
    append_if(&mut s, m.kind == CppFunctionKind::Constructor, " [constructor]");
    append_if(&mut s, m.kind == CppFunctionKind::Destructor, " [destructor]");
    assert(s@ =~= text_qualifiers(*m));
    s
}

fn argument_declaration_text(a: &CppFunctionArgument) -> (r: String)
    ensures
        r@ == argument_declaration(*a),
{
    match a.to_cpp_code() {
        Ok(c) => c,
        Err(_) => {
            let mut s = a.argument_type.to_cpp_pseudo_code();
            s.append(" ");
            s.append(a.name.as_str());
            s
        },
    }
}

fn argument_text_of(a: &CppFunctionArgument) -> (r: String)
    ensures
        r@ == argument_text(*a),
{
    let mut s = a.argument_type.to_cpp_pseudo_code();
    s.append(" ");
    s.append(a.name.as_str());
    append_if(&mut s, a.has_default_value, " = …");
    s
}

impl CppFunction {
    /// All types in the signature, in this order: the type of `this` (a
    /// pointer to the owning class, const for a const method) for a member,
    /// the argument types, the return type, and the function's own template
    /// arguments.
    pub open spec fn involved_types(&self) -> Seq<TypeView> {
        let receiver = match self.member {
            Some(m) => seq![
                TypeView::PointerLike {
                    kind: CppPointerLikeTypeKind::Pointer,
                    is_const: m.is_const,
                    target: Box::new(TypeView::Class(self.path@.drop_last())),
                },
            ],
            None => Seq::empty(),
        };
        let template_arguments = match self.path.items@.last().template_arguments {
            Some(a) => types_view(a@),
            None => Seq::empty(),
        };
        receiver + argument_types(self.arguments@) + seq![self.return_type@] + template_arguments
    }

    /// Every template parameter among the function's own template arguments
    /// occurs in some argument type.
    pub open spec fn spec_can_infer_template_arguments(&self) -> bool {
        match self.path.items@.last().template_arguments {
            None => true,
            Some(targs) => forall|j: int|
                0 <= j < targs.len() ==> parameter_inferable(
                    #[trigger] types_view(targs@)[j],
                    argument_types(self.arguments@),
                ),
        }
    }

    /// The declaration as text before surrounding white space is removed.
    pub open spec fn untrimmed_declaration(&self) -> Seq<char> {
        let qualifiers = match self.member {
            Some(m) => declaration_qualifiers(m),
            None => Seq::empty(),
        };
        let const_suffix = match self.member {
            Some(m) => text_if(m.is_const, " const"@),
            None => Seq::empty(),
        };
        qualifiers + " "@ + type_pseudo(self.return_type@) + " "@ + path_pseudo(self.path@) + "("@
            + joined(
            self.arguments@.map_values(|a: CppFunctionArgument| argument_declaration(a)),
            ", "@,
        ) + variadic_suffix(self.allows_variadic_arguments) + ")"@ + const_suffix
    }

    /// The short text before surrounding white space is removed.
    pub open spec fn untrimmed_text(&self) -> Seq<char> {
        let qualifiers = match self.member {
            Some(m) => text_qualifiers(m),
            None => Seq::empty(),
        };
        let const_suffix = match self.member {
            Some(m) => text_if(m.is_const, " const"@),
            None => Seq::empty(),
        };
        qualifiers + text_if(self.allows_variadic_arguments, " [var args]"@) + " "@ + type_pseudo(
            self.return_type@,
        ) + " "@ + path_pseudo(self.path@) + "("@ + joined(
            self.arguments@.map_values(|a: CppFunctionArgument| argument_text(a)),
            ", "@,
        ) + ")"@ + const_suffix
    }

    /// Returns all types found in the signature of this method: the type of
    /// the implicit `this` parameter, the argument types, the return type and
    /// the template arguments.
    pub fn all_involved_types(&self) -> (r: Vec<CppType>)
        requires
            self.well_formed(),
        ensures
            types_view(r@) == self.involved_types(),
    {
        let ghost target = self.involved_types();
        let mut result: Vec<CppType> = Vec::new();
        match &self.member {
            Some(m) => {
                match self.path.parent() {
                    Some(p) => {
                        result.push(CppType::new_pointer(m.is_const, CppType::Class(p)));
                    },
                    None => {},
                }
            },
            None => {},
        }
        let ghost start: int = result.len() as int;
        assert(forall|j: int| 0 <= j < start ==> type_view(#[trigger] result@[j]) == target[j]);
        let mut i: usize = 0;
        while i < self.arguments.len()
            invariant
                target == self.involved_types(),
                start == (if self.member is Some {
                    1int
                } else {
                    0int
                }),
                0 <= i <= self.arguments.len(),
                result.len() == start + i,
                forall|j: int| 0 <= j < result.len() ==> type_view(#[trigger] result@[j]) == target[j],
            decreases self.arguments.len() - i,
        {
            result.push(copy_type(&self.arguments[i].argument_type));
            i += 1;
        }
        result.push(copy_type(&self.return_type));
        match &self.path.last().template_arguments {
            Some(args) => {
                proof {
                    lemma_types_view(args@);
                }
                let ghost before = target.subrange(0, result.len() as int);
                assert(target =~= before + types_view(args@));
                let mut k: usize = 0;
                while k < args.len()
                    invariant
                        self.well_formed(),
                        target == before + types_view(args@),
                        before.len() == start + self.arguments.len() + 1,
                        self.path.items@.last().template_arguments == Some(*args),
                        types_view(args@).len() == args.len(),
                        forall|j: int|
                            0 <= j < args.len() ==> #[trigger] types_view(args@)[j] == type_view(
                                args@[j],
                            ),
                        0 <= k <= args.len(),
                        result.len() == start + self.arguments.len() + 1 + k,
                        forall|j: int|
                            0 <= j < result.len() ==> type_view(#[trigger] result@[j])
                                == target[j],
                    decreases args.len() - k,
                {
                    result.push(copy_type(&args[k]));
                    k += 1;
                }
            },
            None => {},
        }
        proof {
            lemma_types_view(result@);
            assert(types_view(result@) =~= target);
        }
        result
    }

    fn argument_mentions(&self, param: &CppTemplateParameter) -> (r: bool)
        ensures
            r == exists|k: int|
                0 <= k < self.arguments.len() && type_mentions(
                    #[trigger] argument_types(self.arguments@)[k],
                    param@,
                ),
    {
        let mut i: usize = 0;
        while i < self.arguments.len()
            invariant
                0 <= i <= self.arguments.len(),
                forall|k: int|
                    0 <= k < i ==> !type_mentions(
                        #[trigger] argument_types(self.arguments@)[k],
                        param@,
                    ),
            decreases self.arguments.len() - i,
        {
            if self.arguments[i].argument_type.contains_template_parameter(param) {
                assert(type_mentions(argument_types(self.arguments@)[i as int], param@));
                return true;
            }
            i += 1;
        }
        false
    }

    /// Whether the function's template arguments can be deduced from the
    /// types of the arguments of a call: each template parameter among them
    /// occurs in some argument type. True for a function that is no template.
    pub fn can_infer_template_arguments(&self) -> (r: bool)
        requires
            self.path.items.len() > 0,
        ensures
            r == self.spec_can_infer_template_arguments(),
    {
        match &self.path.last().template_arguments {
            None => true,
            Some(args) => {
                proof {
                    lemma_types_view(args@);
                }
                let mut i: usize = 0;
                while i < args.len()
                    invariant
                        self.path.items.len() > 0,
                        self.path.items@.last().template_arguments == Some(*args),
                        types_view(args@).len() == args.len(),
                        forall|j: int|
                            0 <= j < args.len() ==> #[trigger] types_view(args@)[j] == type_view(
                                args@[j],
                            ),
                        0 <= i <= args.len(),
                        forall|j: int|
                            0 <= j < i ==> parameter_inferable(
                                #[trigger] types_view(args@)[j],
                                argument_types(self.arguments@),
                            ),
                    decreases args.len() - i,
                {
                    match &args[i] {
                        CppType::TemplateParameter(param) => {
                            if !self.argument_mentions(param) {
                                let ghost targs = self.path.items@.last().template_arguments->0;
                                assert(targs@ == args@);
                                assert(!parameter_inferable(
                                    types_view(targs@)[i as int],
                                    argument_types(self.arguments@),
                                ));
                                return false;
                            }
                        },
                        _ => {},
                    }
                    assert(parameter_inferable(
                        types_view(args@)[i as int],
                        argument_types(self.arguments@),
                    ));
                    i += 1;
                }
                true
            },
        }
    }

    /// A readable declaration of the function, for diagnostics.
    pub fn pseudo_declaration(&self) -> (r: String)
        ensures
            r@ == trimmed(self.untrimmed_declaration()),
    {
        let mut s = match &self.member {
            Some(info) => declaration_qualifiers_text(info),
            None => String::new(),
        };
        let mut args: Vec<String> = Vec::new();
        let mut i: usize = 0;
        while i < self.arguments.len()
            invariant
                0 <= i <= self.arguments.len(),
                args.len() == i,
                forall|j: int|
                    0 <= j < i ==> (#[trigger] args@[j])@ == argument_declaration(
                        self.arguments@[j],
                    ),
            decreases self.arguments.len() - i,
        {
            args.push(argument_declaration_text(&self.arguments[i]));
            i += 1;
        }
        assert(texts(args@) =~= self.arguments@.map_values(
            |a: CppFunctionArgument| argument_declaration(a),
        ));
        let joined_args = join_texts(&args, ", ");
        let return_text = self.return_type.to_cpp_pseudo_code();
        let path_text = self.path.to_cpp_pseudo_code();
        s.append(" ");
        s.append(return_text.as_str());
        s.append(" ");
        s.append(path_text.as_str());
        s.append("(");
        s.append(joined_args.as_str());
        s.append(variadic_suffix_text(self.allows_variadic_arguments));
        s.append(")");
        match &self.member {
            Some(info) => append_if(&mut s, info.is_const, " const"),
            None => {},
        }
        assert(s@ =~= self.untrimmed_declaration());
        trim_text(s.as_str())
    }

    /// Returns short text representing values in this method, for
    /// diagnostics.
    pub fn short_text(&self) -> (r: String)
        ensures
            r@ == trimmed(self.untrimmed_text()),
    {
        let mut s = match &self.member {
            Some(info) => text_qualifiers_text(info),
            None => String::new(),
        };
        append_if(&mut s, self.allows_variadic_arguments, " [var args]");
        let mut args: Vec<String> = Vec::new();
        let mut i: usize = 0;
        while i < self.arguments.len()
            invariant
                0 <= i <= self.arguments.len(),
                args.len() == i,
                forall|j: int|
                    0 <= j < i ==> (#[trigger] args@[j])@ == argument_text(self.arguments@[j]),
            decreases self.arguments.len() - i,
        {
            args.push(argument_text_of(&self.arguments[i]));
            i += 1;
        }
        assert(texts(args@) =~= self.arguments@.map_values(
            |a: CppFunctionArgument| argument_text(a),
        ));
        let joined_args = join_texts(&args, ", ");
        let return_text = self.return_type.to_cpp_pseudo_code();
        let path_text = self.path.to_cpp_pseudo_code();
        s.append(" ");
        s.append(return_text.as_str());
        s.append(" ");
        s.append(path_text.as_str());
        s.append("(");
        s.append(joined_args.as_str());
        s.append(")");
        match &self.member {
            Some(info) => append_if(&mut s, info.is_const, " const"),
            None => {},
        }
        assert(s@ =~= self.untrimmed_text());
        trim_text(s.as_str())
    }
}

/// Equality of argument types is reflexive.
pub proof fn lemma_argument_types_equal_reflexive(f: &CppFunction)
    ensures
        f.spec_argument_types_equal(f),
{
}

/// Equality of argument types is symmetric.
pub proof fn lemma_argument_types_equal_symmetric(f: &CppFunction, g: &CppFunction)
    ensures
        f.spec_argument_types_equal(g) == g.spec_argument_types_equal(f),
{
}

/// Every declaration is the same entity as itself.
pub proof fn lemma_is_same_reflexive(f: &CppFunction)
    ensures
        f.spec_is_same(f),
{
}

/// Sameness of declarations is symmetric.
pub proof fn lemma_is_same_symmetric(f: &CppFunction, g: &CppFunction)
    ensures
        f.spec_is_same(g) == g.spec_is_same(f),
{
}

/// Two declarations that agree in everything but virtuality, visibility and
/// the signal and slot flags are the same entity, and each is the same
/// entity as exactly the declarations that the other is.
pub proof fn lemma_is_same_ignores_qualifiers(f: &CppFunction, g: &CppFunction, h: &CppFunction)
    requires
        f.path == g.path,
        f.operator == g.operator,
        f.return_type == g.return_type,
        f.arguments == g.arguments,
        f.allows_variadic_arguments == g.allows_variadic_arguments,
        f.member is Some <==> g.member is Some,
        f.member is Some ==> f.member->0.kind == g.member->0.kind && f.member->0.is_const
            == g.member->0.is_const && f.member->0.is_static == g.member->0.is_static
            && f.member->0.is_pure_virtual == g.member->0.is_pure_virtual,
    ensures
        f.spec_is_same(g),
        f.spec_is_same(h) == g.spec_is_same(h),
        h.spec_is_same(f) == h.spec_is_same(g),
{
}

/// A free function answers false to every member-only query.
pub proof fn lemma_free_function_member_queries(f: &CppFunction)
    requires
        f.member is None,
    ensures
        !f.spec_is_constructor(),
        !f.spec_is_destructor(),
        !f.spec_is_static_member(),
        !f.spec_is_virtual(),
        !f.spec_is_private(),
        !f.spec_is_signal(),
        !f.spec_is_slot(),
        !f.spec_is_copy_constructor(),
        f.receiver_kind() is None,
{
}

/// The types that a free function which is no template involves are its
/// argument types followed by its return type.
pub proof fn lemma_involved_types_of_free_function(f: &CppFunction)
    requires
        f.well_formed(),
        f.member is None,
        f.path.items@.last().template_arguments is None,
    ensures
        f.involved_types() == argument_types(f.arguments@).push(f.return_type@),
{
    assert(f.involved_types() =~= argument_types(f.arguments@).push(f.return_type@));
}

/// The types that a method which is no template involves are a pointer to
/// its class (const for a const method), its argument types and its return
/// type.
pub proof fn lemma_involved_types_of_method(f: &CppFunction)
    requires
        f.well_formed(),
        f.member is Some,
        f.path.items@.last().template_arguments is None,
    ensures
        f.involved_types() == seq![
            TypeView::PointerLike {
                kind: CppPointerLikeTypeKind::Pointer,
                is_const: f.member->0.is_const,
                target: Box::new(TypeView::Class(f.path@.drop_last())),
            },
        ] + argument_types(f.arguments@).push(f.return_type@),
{
    assert(f.involved_types() =~= seq![
        TypeView::PointerLike {
            kind: CppPointerLikeTypeKind::Pointer,
            is_const: f.member->0.is_const,
            target: Box::new(TypeView::Class(f.path@.drop_last())),
        },
    ] + argument_types(f.arguments@).push(f.return_type@));
}

/// A receiver identifier starts with its kind marker, '2' for a signal and
/// '1' for a slot, followed by the name and '(', and ends with ')'.
pub proof fn lemma_receiver_id_shape(t: RustQtReceiverType, name: Seq<char>, types: Seq<TypeView>)
    requires
        receiver_id_of(t, name, types) is Some,
    ensures
        ({
            let id = receiver_id_of(t, name, types)->0;
            &&& id.len() >= name.len() + 3
            &&& id[0] == (match t {
                RustQtReceiverType::Signal => '2',
                RustQtReceiverType::Slot => '1',
            })
            &&& id.subrange(1, name.len() + 1int) == name
            &&& id[name.len() + 1int] == '('
            &&& id.last() == ')'
        }),
{
    reveal_strlit("1");
    reveal_strlit("2");
    reveal_strlit("(");
    reveal_strlit(")");
    let id = receiver_id_of(t, name, types)->0;
    let cs = types_code(types)->0;
    let body = joined(cs.map_values(|c: Seq<char>| patched_receiver_argument(c)), ","@);
    assert(id == receiver_marker(t) + name + "("@ + body + ")"@);
    assert(id.subrange(1, name.len() + 1int) =~= name);
}

impl View for CppFunctionArgument {
    type V = (Seq<char>, TypeView, bool);

    open spec fn view(&self) -> (Seq<char>, TypeView, bool) {
        (self.name@, self.argument_type@, self.has_default_value)
    }
}

/// The views of a list of arguments.
pub open spec fn arguments_view(args: Seq<CppFunctionArgument>) -> Seq<(Seq<char>, TypeView, bool)> {
    args.map_values(|a: CppFunctionArgument| a@)
}

pub open spec fn optional_text(o: Option<String>) -> Option<Seq<char>> {
    match o {
        Some(s) => Some(s@),
        None => None,
    }
}

impl CppFunction {
    /// Equality of every field, by views.
    pub open spec fn same_fields(&self, other: &CppFunction) -> bool {
        self.path@ == other.path@ && self.member == other.member && self.operator
            == other.operator && self.return_type@ == other.return_type@ && arguments_view(
            self.arguments@,
        ) == arguments_view(other.arguments@) && self.allows_variadic_arguments
            == other.allows_variadic_arguments && optional_text(self.declaration_code)
            == optional_text(other.declaration_code)
    }
}

fn argument_eq(a: &CppFunctionArgument, b: &CppFunctionArgument) -> (r: bool)
    ensures
        r == (a@ == b@),
{
    a.name == b.name && type_eq(&a.argument_type, &b.argument_type) && a.has_default_value
        == b.has_default_value
}

fn copy_argument(a: &CppFunctionArgument) -> (r: CppFunctionArgument)
    ensures
        r@ == a@,
{
    CppFunctionArgument {
        name: a.name.clone(),
        argument_type: copy_type(&a.argument_type),
        has_default_value: a.has_default_value,
    }
}

fn function_eq(f: &CppFunction, g: &CppFunction) -> (r: bool)
    ensures
        r == f.same_fields(g),
{
    if f.arguments.len() != g.arguments.len() {
        assert(arguments_view(f.arguments@).len() != arguments_view(g.arguments@).len());
        return false;
    }
    let mut i: usize = 0;
    while i < f.arguments.len()
        invariant
            0 <= i <= f.arguments.len(),
            f.arguments.len() == g.arguments.len(),
            forall|j: int| 0 <= j < i ==> (#[trigger] f.arguments@[j])@ == g.arguments@[j]@,
        decreases f.arguments.len() - i,
    {
        if !argument_eq(&f.arguments[i], &g.arguments[i]) {
            assert(arguments_view(f.arguments@)[i as int] != arguments_view(g.arguments@)[i as int]);
            return false;
        }
        i += 1;
    }
    assert(arguments_view(f.arguments@) =~= arguments_view(g.arguments@));
    let code_same = match (&f.declaration_code, &g.declaration_code) {
        (Some(a), Some(b)) => *a == *b,
        (None, None) => true,
        _ => false,
    };
    let operator_same = match (f.operator, g.operator) {
        (Some(a), Some(b)) => a == b,
        (None, None) => true,
        _ => false,
    };
    let member_same = match (f.member, g.member) {
        (Some(a), Some(b)) => a == b,
        (None, None) => true,
        _ => false,
    };
    path_eq(&f.path, &g.path) && member_same && operator_same && type_eq(
        &f.return_type,
        &g.return_type,
    ) && f.allows_variadic_arguments == g.allows_variadic_arguments && code_same
}

fn copy_function(f: &CppFunction) -> (r: CppFunction)
    ensures
        r.same_fields(f),
{
    let mut arguments: Vec<CppFunctionArgument> = Vec::new();
    let mut i: usize = 0;
    while i < f.arguments.len()
        invariant
            0 <= i <= f.arguments.len(),
            arguments.len() == i,
            forall|j: int| 0 <= j < i ==> (#[trigger] arguments@[j])@ == f.arguments@[j]@,
        decreases f.arguments.len() - i,
    {
        arguments.push(copy_argument(&f.arguments[i]));
        i += 1;
    }
    assert(arguments_view(arguments@) =~= arguments_view(f.arguments@));
    let declaration_code = match &f.declaration_code {
        Some(c) => Some(c.clone()),
        None => None,
    };
    CppFunction {
        path: copy_path(&f.path),
        member: f.member,
        operator: f.operator,
        return_type: copy_type(&f.return_type),
        arguments,
        allows_variadic_arguments: f.allows_variadic_arguments,
        declaration_code,
    }
}

impl PartialEq for CppFunctionArgument {
    fn eq(&self, other: &CppFunctionArgument) -> (r: bool) {
        argument_eq(self, other)
    }
}

impl vstd::std_specs::cmp::PartialEqSpecImpl for CppFunctionArgument {
    open spec fn obeys_eq_spec() -> bool {
        true
    }

    open spec fn eq_spec(&self, other: &CppFunctionArgument) -> bool {
        self@ == other@
    }
}

impl Eq for CppFunctionArgument {

}

impl Clone for CppFunctionArgument {
    fn clone(&self) -> (r: CppFunctionArgument) {
        copy_argument(self)
    }
}

impl PartialEq for CppFunction {
    fn eq(&self, other: &CppFunction) -> (r: bool) {
        function_eq(self, other)
    }
}

impl vstd::std_specs::cmp::PartialEqSpecImpl for CppFunction {
    open spec fn obeys_eq_spec() -> bool {
        true
    }

    open spec fn eq_spec(&self, other: &CppFunction) -> bool {
        self.same_fields(other)
    }
}

impl Eq for CppFunction {

}

impl Clone for CppFunction {
    fn clone(&self) -> (r: CppFunction) {
        copy_function(self)
    }
}

} // verus!
