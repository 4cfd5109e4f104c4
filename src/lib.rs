//! Typed intermediate representation of a circuit-description language:
//! types and signatures, expressions and statements with their static types,
//! functions, modules and programs, cross-module symbol resolution, and a
//! deterministic textual rendering of every node.

pub mod text;
pub mod field;
pub mod types;
pub mod expr;
pub mod expr_text;
pub mod statement;
pub mod program;
pub mod program_text;
pub mod folder;
pub mod calls;

pub use crate::expr::{
    BooleanExpression, FieldElementArrayExpression, FieldElementExpression, MultiTyped, Typed,
    TypedExpression, TypedExpressionList,
};
pub use crate::field::{Field, FieldPrime};
pub use crate::folder::Folder;
pub use crate::program::{
    FlatFunction, Import, ResolveError, TypedFunction, TypedFunctionSymbol, TypedFunctionSymbols,
    TypedModule, TypedModuleId, TypedModules, TypedProgram,
};
pub use crate::statement::{TypedAssignee, TypedStatement};
pub use crate::types::{FunctionKey, Parameter, Signature, Type, Variable};

