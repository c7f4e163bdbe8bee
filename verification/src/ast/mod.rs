mod copy;
pub mod design;
pub mod expr;
pub mod laws;
pub mod module;
pub mod statement;
pub mod types;

pub use design::{lower_slang_ast, lower_slang_ast_str, Design};
pub use expr::{lower_binary_op, lower_expr, lower_unary_op, BinaryOp, Expr, UnaryOp};
pub use module::{lower_module_instance, Module, Parameter, Port, ProcedureBlock, Signal};
pub use statement::{lower_stmt, EventControl, Stmt};
pub use types::{
    lower_data_type, lower_floating_kind, lower_optional_type, lower_predefined_integer_kind,
    lower_required_type, lower_scalar_kind, lower_type_decl, parse_type_range, parse_type_text,
    predefined_integer_type, DataType, EnumValue, FloatingKind, FloatingType,
    PredefinedIntegerKind, PredefinedIntegerType, ScalarKind, ScalarType, TypeDecl, TypeField,
    TypeRange,
};
pub use crate::ir::{
    AssertionKind, Edge, PortDirection, ProcedureKind, SignalKind, SourceLoc, SourceSpan,
    SymbolRef,
};
