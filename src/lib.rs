//! Declaration model of C++ callables for a binding generator: types, paths,
//! functions, their equivalence and the identifiers of Qt signals and slots.

pub mod cpp_function;
pub mod cpp_operator;
pub mod cpp_type;
pub mod doc_formatter;
pub mod error;
pub mod render;
pub mod text;
