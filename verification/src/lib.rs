//! Lowering of slang's elaborated SystemVerilog AST, dumped as JSON, into a
//! compact IR for later analysis passes.

pub mod ast;
pub mod error;
pub mod ir;
pub mod json;
pub mod lower;
pub mod slang;
mod copy;
pub mod text;

pub use error::{Error, Result};
pub use ir::{
    AssertionKind, BinaryOp, Design, Edge, EventControl, Expr, Module, Parameter, Port,
    PortDirection, ProcedureBlock, ProcedureKind, Signal, SignalKind, SourceLoc, SourceSpan,
    Stmt, SymbolRef, UnaryOp,
};
pub use json::{from_first_brace, parse_slang_json, JsonNumber, JsonValue};
pub use lower::{lower_slang_ast, lower_slang_ast_str};
pub use slang::Slang;
pub mod laws;
pub mod names;
