//! Failures reported by the declaration model.

use vstd::prelude::*;

verus! {

/// A local, recoverable failure of a query on the declaration model.
#[derive(Debug, Clone)]
pub enum CppError {
    /// A class-only query was made on a free function, or on a member whose
    /// path does not nest under a class.
    NotAMember,
    /// A receiver identifier was asked of something that is neither a signal
    /// nor a slot.
    NotASignalOrSlot,
    /// The type cannot be written as C++ code (a template parameter, a
    /// variadic function pointer, or a function pointer without a name).
    NotExpressibleInCode,
    /// A method of a slot wrapper has no documentation rule.
    UnknownSlotMethod(String),
}

} // verus!
