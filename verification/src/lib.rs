//! Typed views over the value handles of an LLVM-style code generation engine.
//!
//! The engine owns every object and hands out addresses. This library puts a
//! type on each address, says which call on the engine each operation of
//! that type is, and reads what the engine answers. It does not hold the
//! engine: an operation that changes something returns the call to make, and
//! an operation that reads takes the answer as an argument.

pub mod attribute;
pub mod attribute_set;
pub mod engine;
pub mod handle;
pub mod name;
pub mod value;

pub use attribute::Attribute;
pub use attribute_set::AttributeSet;
pub use engine::{Call, CallView};
pub use handle::{BasicBlock, Context, FunctionType, Handle, Type};
pub use name::NameBuffer;
pub use value::{Arg, Function, ParamLookup, Value};
