//! Host functions and their types: a builder for function types, and the
//! host function record that pairs an engine's handle with its type and names.
pub mod function;
pub mod types;

pub use function::{Func, FuncRef, FuncTypeBuilder};
pub use types::{FuncType, FuncTypeView, ValType};
