//! C++ operators that a function may implement.

use vstd::prelude::*;

verus! {

/// The operator that a C++ function implements.
#[derive(Debug, Clone, Copy, PartialEq, Eq, Hash, Structural)]
pub enum CppOperator {
    Assignment,
    Addition,
    Subtraction,
    UnaryPlus,
    UnaryMinus,
    Multiplication,
    Division,
    Modulo,
    PrefixIncrement,
    PostfixIncrement,
    PrefixDecrement,
    PostfixDecrement,
    EqualTo,
    NotEqualTo,
    GreaterThan,
    LessThan,
    GreaterThanOrEqualTo,
    LessThanOrEqualTo,
    LogicalNot,
    LogicalAnd,
    LogicalOr,
    BitwiseNot,
    BitwiseAnd,
    BitwiseOr,
    BitwiseXor,
    BitwiseLeftShift,
    BitwiseRightShift,
    AdditionAssignment,
    SubtractionAssignment,
    MultiplicationAssignment,
    DivisionAssignment,
    ModuloAssignment,
    BitwiseAndAssignment,
    BitwiseOrAssignment,
    BitwiseXorAssignment,
    BitwiseLeftShiftAssignment,
    BitwiseRightShiftAssignment,
    Subscript,
    Indirection,
    AddressOf,
    StructureDereference,
    PointerToMember,
    FunctionCall,
    Comma,
    New,
    NewArray,
    Delete,
    DeleteArray,
}

} // verus!
