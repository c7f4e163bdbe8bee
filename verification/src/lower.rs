use vstd::prelude::*;

use crate::error::{missing, res_view, Error, Result, SpecError, SpecResult};
use crate::ir::{
    opt_loc, opt_span, AssertionKind, BinaryOp, Edge, PortDirection, ProcedureKind, SourceLoc,
    SourceSpan, SpecAssertionKind, SpecExpr, Expr, SymbolRef, symbol_ref_of, SpecBinaryOp, SpecEdge, SpecPortDirection, SpecProcedureKind,
    SpecSourceLoc, SpecSourceSpan, SpecStmt, SpecEventControl, SpecParameter, SpecPort, SpecSignal, SpecProcedureBlock, SpecModule, SpecDesign, SignalKind, Parameter, Port, Signal, ProcedureBlock, Module, Design, exprs_model, stmts_model, Stmt, EventControl, SpecUnaryOp, UnaryOp,
};
use crate::json::{
    bool_field, field_flag, field_str, field_u64, json_get, kind, kind_is, spec_expect_kind, expect_kind, array, lemma_get_decreases, lemma_array_decreases, field_array, member,
    node_kind, opt_str, opt_string, opt_u64, str_field, JsonValue,
};
use crate::json::{parse_slang_json, slang_document};
use crate::text::text_eq;

verus! {

broadcast use vstd::std_specs::vec::group_vec_axioms;

// ---------------------------------------------------------------- source locations

/// The declaration site recorded on a node, when all three of its fields are there.
pub open spec fn source_loc_of(j: JsonValue) -> Option<SpecSourceLoc> {
    match (field_str(j, "source_file"@), field_u64(j, "source_line"@), field_u64(j, "source_column"@)) {
        (Some(file), Some(line), Some(column)) => Some(SpecSourceLoc { file, line, column }),
        _ => None,
    }
}

/// The span recorded on a node, when all five of its fields are there.
pub open spec fn source_span_of(j: JsonValue) -> Option<SpecSourceSpan> {
    match (
        field_str(j, "source_file_start"@),
        field_u64(j, "source_line_start"@),
        field_u64(j, "source_column_start"@),
        field_u64(j, "source_line_end"@),
        field_u64(j, "source_column_end"@),
    ) {
        (Some(file), Some(line_start), Some(column_start), Some(line_end), Some(column_end)) => Some(
            SpecSourceSpan { file, line_start, column_start, line_end, column_end },
        ),
        _ => None,
    }
}

pub fn source_loc(value: &JsonValue) -> (r: Option<SourceLoc>)
    ensures
        opt_loc(r) == source_loc_of(*value),
{
    let file = match opt_str(value, "source_file") {
        Some(f) => f,
        None => return None,
    };
    let line = match opt_u64(value, "source_line") {
        Some(l) => l,
        None => return None,
    };
    let column = match opt_u64(value, "source_column") {
        Some(c) => c,
        None => return None,
    };
    Some(SourceLoc { file: file.to_owned(), line, column })
}

pub fn source_span(value: &JsonValue) -> (r: Option<SourceSpan>)
    ensures
        opt_span(r) == source_span_of(*value),
{
    let file = match opt_str(value, "source_file_start") {
        Some(f) => f,
        None => return None,
    };
    let line_start = match opt_u64(value, "source_line_start") {
        Some(l) => l,
        None => return None,
    };
    let column_start = match opt_u64(value, "source_column_start") {
        Some(c) => c,
        None => return None,
    };
    let line_end = match opt_u64(value, "source_line_end") {
        Some(l) => l,
        None => return None,
    };
    let column_end = match opt_u64(value, "source_column_end") {
        Some(c) => c,
        None => return None,
    };
    Some(SourceSpan { file: file.to_owned(), line_start, column_start, line_end, column_end })
}

// ---------------------------------------------------------------- enumerations

/// The text `s`, or `"<missing>"` when there is none.
pub open spec fn or_missing(s: Option<Seq<char>>) -> Seq<char> {
    match s {
        Some(t) => t,
        None => "<missing>"@,
    }
}

pub open spec fn port_direction_of(s: Option<Seq<char>>) -> SpecPortDirection {
    if s == Some("In"@) {
        SpecPortDirection::In
    } else if s == Some("Out"@) {
        SpecPortDirection::Out
    } else if s == Some("InOut"@) {
        SpecPortDirection::InOut
    } else if s == Some("Ref"@) {
        SpecPortDirection::Ref
    } else {
        SpecPortDirection::Unknown(or_missing(s))
    }
}

/// `"<missing>"` as an owned string.
fn missing_text() -> (r: String)
    ensures
        r@ == "<missing>"@,
{
    String::from_str("<missing>")
}

/// `s` as an owned string, or `"<missing>"`.
pub fn text_or_missing(s: Option<&str>) -> (r: String)
    ensures
        r@ == or_missing(match s {
            Some(t) => Some(t@),
            None => None,
        }),
{
    match s {
        Some(t) => t.to_owned(),
        None => missing_text(),
    }
}

/// The view of an optional borrowed string.
pub open spec fn opt_str_view(s: Option<&str>) -> Option<Seq<char>> {
    match s {
        Some(t) => Some(t@),
        None => None,
    }
}

/// Whether `s` is the text `t`.
pub fn is_text(s: Option<&str>, t: &str) -> (r: bool)
    ensures
        r == (opt_str_view(s) == Some(t@)),
{
    match s {
        Some(x) => text_eq(x, t),
        None => false,
    }
}

pub fn lower_port_direction(value: Option<&str>) -> (r: PortDirection)
    ensures
        r@ == port_direction_of(opt_str_view(value)),
{
    if is_text(value, "In") {
        PortDirection::In
    } else if is_text(value, "Out") {
        PortDirection::Out
    } else if is_text(value, "InOut") {
        PortDirection::InOut
    } else if is_text(value, "Ref") {
        PortDirection::Ref
    } else {
        PortDirection::Unknown(text_or_missing(value))
    }
}

pub open spec fn procedure_kind_of(s: Option<Seq<char>>) -> SpecProcedureKind {
    if s == Some("Always"@) {
        SpecProcedureKind::Always
    } else if s == Some("Initial"@) {
        SpecProcedureKind::Initial
    } else if s == Some("Final"@) {
        SpecProcedureKind::Final
    } else {
        SpecProcedureKind::Unknown(or_missing(s))
    }
}

pub fn lower_procedure_kind(value: Option<&str>) -> (r: ProcedureKind)
    ensures
        r@ == procedure_kind_of(opt_str_view(value)),
{
    if is_text(value, "Always") {
        ProcedureKind::Always
    } else if is_text(value, "Initial") {
        ProcedureKind::Initial
    } else if is_text(value, "Final") {
        ProcedureKind::Final
    } else {
        ProcedureKind::Unknown(text_or_missing(value))
    }
}

pub open spec fn assertion_kind_of(s: Option<Seq<char>>) -> SpecAssertionKind {
    if s == Some("Assert"@) {
        SpecAssertionKind::Assert
    } else if s == Some("Assume"@) {
        SpecAssertionKind::Assume
    } else if s == Some("Cover"@) {
        SpecAssertionKind::Cover
    } else {
        SpecAssertionKind::Unknown(or_missing(s))
    }
}

pub fn lower_assertion_kind(value: Option<&str>) -> (r: AssertionKind)
    ensures
        r@ == assertion_kind_of(opt_str_view(value)),
{
    if is_text(value, "Assert") {
        AssertionKind::Assert
    } else if is_text(value, "Assume") {
        AssertionKind::Assume
    } else if is_text(value, "Cover") {
        AssertionKind::Cover
    } else {
        AssertionKind::Unknown(text_or_missing(value))
    }
}

pub open spec fn edge_of(s: Option<Seq<char>>) -> SpecEdge {
    if s == Some("PosEdge"@) {
        SpecEdge::Pos
    } else if s == Some("NegEdge"@) {
        SpecEdge::Neg
    } else if s == Some("None"@) {
        SpecEdge::Any
    } else {
        SpecEdge::Unknown(or_missing(s))
    }
}

pub fn lower_edge(value: Option<&str>) -> (r: Edge)
    ensures
        r@ == edge_of(opt_str_view(value)),
{
    if is_text(value, "PosEdge") {
        Edge::Pos
    } else if is_text(value, "NegEdge") {
        Edge::Neg
    } else if is_text(value, "None") {
        Edge::Any
    } else {
        Edge::Unknown(text_or_missing(value))
    }
}

pub open spec fn unary_op_of(s: Option<Seq<char>>) -> SpecUnaryOp {
    if s == Some("LogicalNot"@) {
        SpecUnaryOp::LogicalNot
    } else if s == Some("BitwiseNot"@) {
        SpecUnaryOp::BitwiseNot
    } else if s == Some("Plus"@) {
        SpecUnaryOp::Plus
    } else if s == Some("Minus"@) {
        SpecUnaryOp::Minus
    } else {
        SpecUnaryOp::Unknown(or_missing(s))
    }
}

pub fn lower_unary_op(value: Option<&str>) -> (r: UnaryOp)
    ensures
        r@ == unary_op_of(opt_str_view(value)),
{
    if is_text(value, "LogicalNot") {
        UnaryOp::LogicalNot
    } else if is_text(value, "BitwiseNot") {
        UnaryOp::BitwiseNot
    } else if is_text(value, "Plus") {
        UnaryOp::Plus
    } else if is_text(value, "Minus") {
        UnaryOp::Minus
    } else {
        UnaryOp::Unknown(text_or_missing(value))
    }
}

pub open spec fn binary_op_of(s: Option<Seq<char>>) -> SpecBinaryOp {
    if s == Some("Add"@) {
        SpecBinaryOp::Add
    } else if s == Some("Subtract"@) {
        SpecBinaryOp::Subtract
    } else if s == Some("Multiply"@) {
        SpecBinaryOp::Multiply
    } else if s == Some("Divide"@) {
        SpecBinaryOp::Divide
    } else if s == Some("Mod"@) {
        SpecBinaryOp::Mod
    } else if s == Some("LogicalAnd"@) {
        SpecBinaryOp::LogicalAnd
    } else if s == Some("LogicalOr"@) {
        SpecBinaryOp::LogicalOr
    } else if s == Some("BinaryAnd"@) || s == Some("BitwiseAnd"@) {
        SpecBinaryOp::BitwiseAnd
    } else if s == Some("BinaryOr"@) || s == Some("BitwiseOr"@) {
        SpecBinaryOp::BitwiseOr
    } else if s == Some("BinaryXor"@) || s == Some("BitwiseXor"@) {
        SpecBinaryOp::BitwiseXor
    } else if s == Some("Equality"@) {
        SpecBinaryOp::Equality
    } else if s == Some("Inequality"@) {
        SpecBinaryOp::Inequality
    } else if s == Some("LessThan"@) {
        SpecBinaryOp::LessThan
    } else if s == Some("LessThanEqual"@) {
        SpecBinaryOp::LessThanEqual
    } else if s == Some("GreaterThan"@) {
        SpecBinaryOp::GreaterThan
    } else if s == Some("GreaterThanEqual"@) {
        SpecBinaryOp::GreaterThanEqual
    } else if s == Some("LogicalShiftLeft"@) || s == Some("ShiftLeft"@) {
        SpecBinaryOp::ShiftLeft
    } else if s == Some("LogicalShiftRight"@) || s == Some("ShiftRight"@) {
        SpecBinaryOp::ShiftRight
    } else {
        SpecBinaryOp::Unknown(or_missing(s))
    }
}

pub fn lower_binary_op(value: Option<&str>) -> (r: BinaryOp)
    ensures
        r@ == binary_op_of(opt_str_view(value)),
{
    if is_text(value, "Add") {
        BinaryOp::Add
    } else if is_text(value, "Subtract") {
        BinaryOp::Subtract
    } else if is_text(value, "Multiply") {
        BinaryOp::Multiply
    } else if is_text(value, "Divide") {
        BinaryOp::Divide
    } else if is_text(value, "Mod") {
        BinaryOp::Mod
    } else if is_text(value, "LogicalAnd") {
        BinaryOp::LogicalAnd
    } else if is_text(value, "LogicalOr") {
        BinaryOp::LogicalOr
    } else if is_text(value, "BinaryAnd") || is_text(value, "BitwiseAnd") {
        BinaryOp::BitwiseAnd
    } else if is_text(value, "BinaryOr") || is_text(value, "BitwiseOr") {
        BinaryOp::BitwiseOr
    } else if is_text(value, "BinaryXor") || is_text(value, "BitwiseXor") {
        BinaryOp::BitwiseXor
    } else if is_text(value, "Equality") {
        BinaryOp::Equality
    } else if is_text(value, "Inequality") {
        BinaryOp::Inequality
    } else if is_text(value, "LessThan") {
        BinaryOp::LessThan
    } else if is_text(value, "LessThanEqual") {
        BinaryOp::LessThanEqual
    } else if is_text(value, "GreaterThan") {
        BinaryOp::GreaterThan
    } else if is_text(value, "GreaterThanEqual") {
        BinaryOp::GreaterThanEqual
    } else if is_text(value, "LogicalShiftLeft") || is_text(value, "ShiftLeft") {
        BinaryOp::ShiftLeft
    } else if is_text(value, "LogicalShiftRight") || is_text(value, "ShiftRight") {
        BinaryOp::ShiftRight
    } else {
        BinaryOp::Unknown(text_or_missing(value))
    }
}

// ---------------------------------------------------------------- expressions

/// The text `s`, or the empty text.
pub open spec fn or_empty(s: Option<Seq<char>>) -> Seq<char> {
    match s {
        Some(t) => t,
        None => Seq::empty(),
    }
}

/// What lowering an expression node gives.
pub open spec fn lower_expr_spec(j: JsonValue) -> SpecResult<SpecExpr>
    decreases j,
{
    let source = source_span_of(j);
    let ty = field_str(j, "type"@);
    let constant = field_str(j, "constant"@);
    match node_kind(j) {
        None => Ok(SpecExpr::Unknown { kind: "<missing>"@, ty, source }),
        Some(k) => if k == "NamedValue"@ {
            match field_str(j, "symbol"@) {
                None => Err(SpecError::MissingField { field: "symbol"@, context: "named value"@ }),
                Some(sym) => Ok(
                    SpecExpr::NamedValue { symbol: symbol_ref_of(sym), ty, constant, source },
                ),
            }
        } else if k == "IntegerLiteral"@ {
            Ok(
                SpecExpr::IntegerLiteral {
                    value: or_empty(field_str(j, "value"@)),
                    ty,
                    constant,
                    source,
                },
            )
        } else if k == "UnaryOp"@ {
            match json_get(j, "operand"@) {
                None => Err(
                    SpecError::MissingField { field: "operand"@, context: "unary expression"@ },
                ),
                Some(operand) => {
                    proof {
                        lemma_get_decreases(j, "operand"@);
                    }
                    match lower_expr_spec(operand) {
                        Err(e) => Err(e),
                        Ok(x) => Ok(
                            SpecExpr::Unary {
                                op: unary_op_of(field_str(j, "op"@)),
                                expr: Box::new(x),
                                ty,
                                constant,
                                source,
                            },
                        ),
                    }
                },
            }
        } else if k == "BinaryOp"@ {
            match (json_get(j, "left"@), json_get(j, "right"@)) {
                (None, _) => Err(
                    SpecError::MissingField { field: "left"@, context: "binary expression"@ },
                ),
                (Some(_), None) => Err(
                    SpecError::MissingField { field: "right"@, context: "binary expression"@ },
                ),
                (Some(left), Some(right)) => {
                    proof {
                        lemma_get_decreases(j, "left"@);
                        lemma_get_decreases(j, "right"@);
                    }
                    match (lower_expr_spec(left), lower_expr_spec(right)) {
                        (Err(e), _) => Err(e),
                        (Ok(_), Err(e)) => Err(e),
                        (Ok(l), Ok(r)) => Ok(
                            SpecExpr::Binary {
                                op: binary_op_of(field_str(j, "op"@)),
                                left: Box::new(l),
                                right: Box::new(r),
                                ty,
                                constant,
                                source,
                            },
                        ),
                    }
                },
            }
        } else if k == "Conversion"@ {
            match json_get(j, "operand"@) {
                None => Err(
                    SpecError::MissingField {
                        field: "operand"@,
                        context: "conversion expression"@,
                    },
                ),
                Some(operand) => {
                    proof {
                        lemma_get_decreases(j, "operand"@);
                    }
                    match lower_expr_spec(operand) {
                        Err(e) => Err(e),
                        Ok(x) => Ok(
                            SpecExpr::Conversion { ty, expr: Box::new(x), constant, source },
                        ),
                    }
                },
            }
        } else if k == "Assignment"@ {
            match (json_get(j, "left"@), json_get(j, "right"@)) {
                (None, _) => Err(
                    SpecError::MissingField { field: "left"@, context: "assignment expression"@ },
                ),
                (Some(_), None) => Err(
                    SpecError::MissingField {
                        field: "right"@,
                        context: "assignment expression"@,
                    },
                ),
                (Some(left), Some(right)) => {
                    proof {
                        lemma_get_decreases(j, "left"@);
                        lemma_get_decreases(j, "right"@);
                    }
                    match (lower_expr_spec(left), lower_expr_spec(right)) {
                        (Err(e), _) => Err(e),
                        (Ok(_), Err(e)) => Err(e),
                        (Ok(l), Ok(r)) => Ok(
                            SpecExpr::Assignment {
                                left: Box::new(l),
                                right: Box::new(r),
                                nonblocking: field_flag(j, "isNonBlocking"@),
                                ty,
                                source,
                            },
                        ),
                    }
                },
            }
        } else {
            Ok(SpecExpr::Unknown { kind: k, ty, source })
        },
    }
}

/// Lowers an expression node.
pub fn lower_expr(value: &JsonValue) -> (r: Result<Expr>)
    ensures
        res_view(r) == lower_expr_spec(*value),
    decreases *value,
{
    let source = source_span(value);
    let ty = opt_string(value, "type");
    let constant = opt_string(value, "constant");
    let k = match kind(value) {
        Some(k) => k,
        None => return Ok(Expr::Unknown { kind: missing_text(), ty, source }),
    };
    if text_eq(k, "NamedValue") {
        let symbol = match str_field(value, "symbol", "named value") {
            Ok(s) => s,
            Err(e) => return Err(e),
        };
        Ok(Expr::NamedValue { symbol: SymbolRef::parse(symbol), ty, constant, source })
    } else if text_eq(k, "IntegerLiteral") {
        let literal = match opt_string(value, "value") {
            Some(v) => v,
            None => String::new(),
        };
        Ok(Expr::IntegerLiteral { value: literal, ty, constant, source })
    } else if text_eq(k, "UnaryOp") {
        let operand = match member(value, "operand", "unary expression") {
            Ok(o) => o,
            Err(e) => return Err(e),
        };
        proof {
            lemma_get_decreases(*value, "operand"@);
        }
        let op = lower_unary_op(opt_str(value, "op"));
        let x = match lower_expr(operand) {
            Ok(x) => x,
            Err(e) => return Err(e),
        };
        Ok(Expr::Unary { op, expr: Box::new(x), ty, constant, source })
    } else if text_eq(k, "BinaryOp") {
        let left = match member(value, "left", "binary expression") {
            Ok(o) => o,
            Err(e) => return Err(e),
        };
        let right = match member(value, "right", "binary expression") {
            Ok(o) => o,
            Err(e) => return Err(e),
        };
        proof {
            lemma_get_decreases(*value, "left"@);
            lemma_get_decreases(*value, "right"@);
        }
        let op = lower_binary_op(opt_str(value, "op"));
        let l = match lower_expr(left) {
            Ok(x) => x,
            Err(e) => return Err(e),
        };
        let r = match lower_expr(right) {
            Ok(x) => x,
            Err(e) => return Err(e),
        };
        Ok(Expr::Binary { op, left: Box::new(l), right: Box::new(r), ty, constant, source })
    } else if text_eq(k, "Conversion") {
        let operand = match member(value, "operand", "conversion expression") {
            Ok(o) => o,
            Err(e) => return Err(e),
        };
        proof {
            lemma_get_decreases(*value, "operand"@);
        }
        let x = match lower_expr(operand) {
            Ok(x) => x,
            Err(e) => return Err(e),
        };
        Ok(Expr::Conversion { ty, expr: Box::new(x), constant, source })
    } else if text_eq(k, "Assignment") {
        let left = match member(value, "left", "assignment expression") {
            Ok(o) => o,
            Err(e) => return Err(e),
        };
        let right = match member(value, "right", "assignment expression") {
            Ok(o) => o,
            Err(e) => return Err(e),
        };
        proof {
            lemma_get_decreases(*value, "left"@);
            lemma_get_decreases(*value, "right"@);
        }
        let l = match lower_expr(left) {
            Ok(x) => x,
            Err(e) => return Err(e),
        };
        let r = match lower_expr(right) {
            Ok(x) => x,
            Err(e) => return Err(e),
        };
        Ok(
            Expr::Assignment {
                left: Box::new(l),
                right: Box::new(r),
                nonblocking: bool_field(value, "isNonBlocking"),
                ty,
                source,
            },
        )
    } else {
        Ok(Expr::Unknown { kind: k.to_owned(), ty, source })
    }
}

// ---------------------------------------------------------------- statements

/// `pre` followed by the sequence that `r` holds, or the error of `r`.
pub open spec fn concat_ok<T>(pre: Seq<T>, r: SpecResult<Seq<T>>) -> SpecResult<Seq<T>> {
    match r {
        Ok(rest) => Ok(pre + rest),
        Err(e) => Err(e),
    }
}

/// An optional statement in a box.
pub open spec fn boxed(s: Option<SpecStmt>) -> Option<Box<SpecStmt>> {
    match s {
        Some(x) => Some(Box::new(x)),
        None => None,
    }
}

/// What lowering the conditions of a conditional statement gives.
pub open spec fn lower_conditions_spec(conds: Seq<JsonValue>) -> SpecResult<Seq<SpecExpr>>
    decreases conds.len(),
{
    if conds.len() == 0 {
        Ok(seq![])
    } else {
        match json_get(conds[0], "expr"@) {
            None => Err(
                SpecError::MissingField { field: "expr"@, context: "conditional condition"@ },
            ),
            Some(e) => match lower_expr_spec(e) {
                Err(err) => Err(err),
                Ok(x) => concat_ok(seq![x], lower_conditions_spec(conds.drop_first())),
            },
        }
    }
}

/// What lowering an assignment used as a statement gives.
pub open spec fn lower_assignment_stmt_spec(j: JsonValue, source: Option<SpecSourceSpan>) -> SpecResult<SpecStmt> {
    match (json_get(j, "left"@), json_get(j, "right"@)) {
        (None, _) => Err(SpecError::MissingField { field: "left"@, context: "assignment"@ }),
        (Some(_), None) => Err(SpecError::MissingField { field: "right"@, context: "assignment"@ }),
        (Some(left), Some(right)) => match (lower_expr_spec(left), lower_expr_spec(right)) {
            (Err(e), _) => Err(e),
            (Ok(_), Err(e)) => Err(e),
            (Ok(l), Ok(r)) => Ok(
                SpecStmt::Assign {
                    left: l,
                    right: r,
                    nonblocking: field_flag(j, "isNonBlocking"@),
                    ty: field_str(j, "type"@),
                    source,
                },
            ),
        },
    }
}

/// What lowering an event control gives.
pub open spec fn lower_event_control_spec(j: JsonValue) -> SpecResult<SpecEventControl> {
    let source = source_span_of(j);
    match node_kind(j) {
        Some(k) => if k == "SignalEvent"@ {
            match json_get(j, "expr"@) {
                None => Err(SpecError::MissingField { field: "expr"@, context: "signal event"@ }),
                Some(e) => match lower_expr_spec(e) {
                    Err(err) => Err(err),
                    Ok(x) => Ok(
                        SpecEventControl::Signal { edge: edge_of(field_str(j, "edge"@)), expr: x, source },
                    ),
                },
            }
        } else {
            Ok(SpecEventControl::Unknown { kind: k, source })
        },
        None => Ok(SpecEventControl::Unknown { kind: "<missing>"@, source }),
    }
}

/// What lowering a statement node gives.
pub open spec fn lower_stmt_spec(j: JsonValue) -> SpecResult<SpecStmt>
    decreases j, 1int,
{
    let source = source_span_of(j);
    match node_kind(j) {
        None => Ok(SpecStmt::Unknown { kind: "<missing>"@, source }),
        Some(k) => if k == "Empty"@ {
            Ok(SpecStmt::Empty { source })
        } else if k == "Timed"@ {
            match (json_get(j, "timing"@), json_get(j, "stmt"@)) {
                (None, _) => Err(
                    SpecError::MissingField { field: "timing"@, context: "timed statement"@ },
                ),
                (Some(_), None) => Err(
                    SpecError::MissingField { field: "stmt"@, context: "timed statement"@ },
                ),
                (Some(t), Some(b)) => {
                    proof {
                        lemma_get_decreases(j, "stmt"@);
                    }
                    match lower_event_control_spec(t) {
                        Err(e) => Err(e),
                        Ok(ev) => match lower_stmt_spec(b) {
                            Err(e) => Err(e),
                            Ok(x) => Ok(SpecStmt::Timed { event: ev, stmt: Box::new(x), source }),
                        },
                    }
                },
            }
        } else if k == "Block"@ {
            let block_kind = field_str(j, "blockKind"@);
            match json_get(j, "body"@) {
                None => Ok(SpecStmt::Block { kind: block_kind, statements: seq![], source }),
                Some(b) => {
                    proof {
                        lemma_get_decreases(j, "body"@);
                    }
                    match lower_block_body_spec(b) {
                        Err(e) => Err(e),
                        Ok(ss) => Ok(SpecStmt::Block { kind: block_kind, statements: ss, source }),
                    }
                },
            }
        } else if k == "List"@ {
            match field_array(j, "list"@) {
                None => Err(SpecError::MissingField { field: "list"@, context: "statement list"@ }),
                Some(items) => {
                    proof {
                        lemma_array_decreases(j, "list"@);
                    }
                    match lower_stmt_list_spec(items) {
                        Err(e) => Err(e),
                        Ok(ss) => Ok(
                            SpecStmt::Block { kind: Some("List"@), statements: ss, source },
                        ),
                    }
                },
            }
        } else if k == "Conditional"@ {
            lower_conditional_spec(j, source)
        } else if k == "ExpressionStatement"@ {
            match json_get(j, "expr"@) {
                None => Err(
                    SpecError::MissingField { field: "expr"@, context: "expression statement"@ },
                ),
                Some(e) => if node_kind(e) == Some("Assignment"@) {
                    lower_assignment_stmt_spec(e, source)
                } else {
                    match lower_expr_spec(e) {
                        Err(err) => Err(err),
                        Ok(x) => Ok(SpecStmt::Expr { expr: x, source }),
                    }
                },
            }
        } else if k == "ImmediateAssertion"@ {
            match json_get(j, "cond"@) {
                None => Err(
                    SpecError::MissingField { field: "cond"@, context: "immediate assertion"@ },
                ),
                Some(c) => {
                    proof {
                        lemma_get_decreases(j, "ifTrue"@);
                    }
                    let action = match json_get(j, "ifTrue"@) {
                        None => Ok(None),
                        Some(a) => match lower_stmt_spec(a) {
                            Err(e) => Err(e),
                            Ok(x) => Ok(Some(x)),
                        },
                    };
                    match action {
                        Err(e) => Err(e),
                        Ok(act) => match lower_expr_spec(c) {
                            Err(e) => Err(e),
                            Ok(cx) => Ok(
                                SpecStmt::Assert {
                                    kind: assertion_kind_of(field_str(j, "assertionKind"@)),
                                    condition: cx,
                                    action: boxed(act),
                                    source,
                                },
                            ),
                        },
                    }
                },
            }
        } else {
            Ok(SpecStmt::Unknown { kind: k, source })
        },
    }
}

/// What lowering the body of a block gives: the items of a list, or the one
/// statement that the body is.
pub open spec fn lower_block_body_spec(j: JsonValue) -> SpecResult<Seq<SpecStmt>>
    decreases j, 2int,
{
    if node_kind(j) == Some("List"@) {
        match field_array(j, "list"@) {
            None => Err(SpecError::MissingField { field: "list"@, context: "statement list"@ }),
            Some(items) => {
                proof {
                    lemma_array_decreases(j, "list"@);
                }
                lower_stmt_list_spec(items)
            },
        }
    } else {
        match lower_stmt_spec(j) {
            Err(e) => Err(e),
            Ok(s) => Ok(seq![s]),
        }
    }
}

/// What lowering a conditional statement gives.
pub open spec fn lower_conditional_spec(j: JsonValue, source: Option<SpecSourceSpan>) -> SpecResult<SpecStmt>
    decreases j, 0int,
{
    match field_array(j, "conditions"@) {
        None => Err(
            SpecError::MissingField { field: "conditions"@, context: "conditional statement"@ },
        ),
        Some(conds) => match lower_conditions_spec(conds) {
            Err(e) => Err(e),
            Ok(cs) => match json_get(j, "ifTrue"@) {
                None => Err(
                    SpecError::MissingField { field: "ifTrue"@, context: "conditional statement"@ },
                ),
                Some(t) => {
                    proof {
                        lemma_get_decreases(j, "ifTrue"@);
                        lemma_get_decreases(j, "ifFalse"@);
                    }
                    let else_branch = match json_get(j, "ifFalse"@) {
                        None => Ok(None),
                        Some(f) => match lower_stmt_spec(f) {
                            Err(e) => Err(e),
                            Ok(x) => Ok(Some(x)),
                        },
                    };
                    match else_branch {
                        Err(e) => Err(e),
                        Ok(eb) => match lower_stmt_spec(t) {
                            Err(e) => Err(e),
                            Ok(tb) => Ok(
                                SpecStmt::If {
                                    conditions: cs,
                                    then_branch: Box::new(tb),
                                    else_branch: boxed(eb),
                                    source,
                                },
                            ),
                        },
                    }
                },
            },
        },
    }
}

/// What lowering a sequence of statement nodes gives: all of them, or the
/// first error.
pub open spec fn lower_stmt_list_spec(items: Seq<JsonValue>) -> SpecResult<Seq<SpecStmt>>
    decreases items, 0int,
{
    if items.len() == 0 {
        Ok(seq![])
    } else {
        proof {
            assert(decreases_to!(items => items[0]));
            assert(decreases_to!(items => items.subrange(1, items.len() as int)));
        }
        match lower_stmt_spec(items[0]) {
            Err(e) => Err(e),
            Ok(s) => concat_ok(seq![s], lower_stmt_list_spec(items.drop_first())),
        }
    }
}

/// Lowers the conditions of a conditional statement.
fn lower_conditions(conds: &Vec<JsonValue>) -> (r: Result<Vec<Expr>>)
    ensures
        match r {
            Ok(v) => lower_conditions_spec(conds@) == Ok::<Seq<SpecExpr>, SpecError>(exprs_model(v@)),
            Err(e) => lower_conditions_spec(conds@) == Err::<Seq<SpecExpr>, SpecError>(e@),
        },
{
    let mut out: Vec<Expr> = Vec::new();
    let mut i: usize = 0;
    assert(conds@.skip(0) =~= conds@);
    while i < conds.len()
        invariant
            i <= conds@.len(),
            lower_conditions_spec(conds@) == concat_ok(exprs_model(out@), lower_conditions_spec(conds@.skip(i as int))),
        decreases conds.len() - i,
    {
        let ghost rest = conds@.skip(i as int);
        assert(rest[0] == conds@[i as int]);
        assert(rest.drop_first() =~= conds@.skip(i + 1));
        let e = match member(&conds[i], "expr", "conditional condition") {
            Ok(e) => e,
            Err(err) => return Err(err),
        };
        let x = match lower_expr(e) {
            Ok(x) => x,
            Err(err) => return Err(err),
        };
        let ghost before = out@;
        out.push(x);
        proof {
            assert(exprs_model(out@) =~= exprs_model(before).push(x@));
            match lower_conditions_spec(conds@.skip(i + 1)) {
                Ok(tail) => {
                    assert(exprs_model(before) + (seq![x@] + tail) =~= exprs_model(out@) + tail);
                },
                Err(_) => {},
            }
        }
        i += 1;
    }
    assert(conds@.skip(i as int) =~= Seq::<JsonValue>::empty());
    assert(exprs_model(out@) + Seq::<SpecExpr>::empty() =~= exprs_model(out@));
    Ok(out)
}

fn lower_assignment_stmt(value: &JsonValue, source: Option<SourceSpan>) -> (r: Result<Stmt>)
    ensures
        res_view(r) == lower_assignment_stmt_spec(*value, opt_span(source)),
{
    let left = match member(value, "left", "assignment") {
        Ok(o) => o,
        Err(e) => return Err(e),
    };
    let right = match member(value, "right", "assignment") {
        Ok(o) => o,
        Err(e) => return Err(e),
    };
    let l = match lower_expr(left) {
        Ok(x) => x,
        Err(e) => return Err(e),
    };
    let r = match lower_expr(right) {
        Ok(x) => x,
        Err(e) => return Err(e),
    };
    Ok(
        Stmt::Assign {
            left: l,
            right: r,
            nonblocking: bool_field(value, "isNonBlocking"),
            ty: opt_string(value, "type"),
            source,
        },
    )
}

fn lower_event_control(value: &JsonValue) -> (r: Result<EventControl>)
    ensures
        res_view(r) == lower_event_control_spec(*value),
{
    let source = source_span(value);
    match kind(value) {
        Some(k) => {
            if text_eq(k, "SignalEvent") {
                let e = match member(value, "expr", "signal event") {
                    Ok(e) => e,
                    Err(err) => return Err(err),
                };
                let edge = lower_edge(opt_str(value, "edge"));
                let x = match lower_expr(e) {
                    Ok(x) => x,
                    Err(err) => return Err(err),
                };
                Ok(EventControl::Signal { edge, expr: x, source })
            } else {
                Ok(EventControl::Unknown { kind: k.to_owned(), source })
            }
        },
        None => Ok(EventControl::Unknown { kind: missing_text(), source }),
    }
}

/// Lowers a statement node.
#[verifier::rlimit(60)]
pub fn lower_stmt(value: &JsonValue) -> (r: Result<Stmt>)
    ensures
        res_view(r) == lower_stmt_spec(*value),
    decreases *value, 1int,
{
    let source = source_span(value);
    let k = match kind(value) {
        Some(k) => k,
        None => return Ok(Stmt::Unknown { kind: missing_text(), source }),
    };
    if text_eq(k, "Empty") {
        Ok(Stmt::Empty { source })
    } else if text_eq(k, "Timed") {
        let timing = match member(value, "timing", "timed statement") {
            Ok(t) => t,
            Err(e) => return Err(e),
        };
        let body = match member(value, "stmt", "timed statement") {
            Ok(b) => b,
            Err(e) => return Err(e),
        };
        proof {
            lemma_get_decreases(*value, "stmt"@);
        }
        let event = match lower_event_control(timing) {
            Ok(ev) => ev,
            Err(e) => return Err(e),
        };
        let x = match lower_stmt(body) {
            Ok(x) => x,
            Err(e) => return Err(e),
        };
        Ok(Stmt::Timed { event, stmt: Box::new(x), source })
    } else if text_eq(k, "Block") {
        let block_kind = opt_string(value, "blockKind");
        let statements = match value.get("body") {
            None => {
                assert(stmts_model(Seq::<Stmt>::empty()) =~= Seq::<SpecStmt>::empty());
                Vec::new()
            },
            Some(b) => {
                proof {
                    lemma_get_decreases(*value, "body"@);
                }
                match lower_block_body(b) {
                    Ok(ss) => ss,
                    Err(e) => return Err(e),
                }
            },
        };
        Ok(Stmt::Block { kind: block_kind, statements, source })
    } else if text_eq(k, "List") {
        let items = match array(value, "list", "statement list") {
            Ok(a) => a,
            Err(e) => return Err(e),
        };
        proof {
            lemma_array_decreases(*value, "list"@);
        }
        let statements = match lower_stmt_list(items) {
            Ok(ss) => ss,
            Err(e) => return Err(e),
        };
        Ok(Stmt::Block { kind: Some(String::from_str("List")), statements, source })
    } else if text_eq(k, "Conditional") {
        lower_conditional(value, source)
    } else if text_eq(k, "ExpressionStatement") {
        let e = match member(value, "expr", "expression statement") {
            Ok(e) => e,
            Err(err) => return Err(err),
        };
        if kind_is(e, "Assignment") {
            lower_assignment_stmt(e, source)
        } else {
            match lower_expr(e) {
                Ok(x) => Ok(Stmt::Expr { expr: x, source }),
                Err(err) => Err(err),
            }
        }
    } else if text_eq(k, "ImmediateAssertion") {
        let cond = match member(value, "cond", "immediate assertion") {
            Ok(c) => c,
            Err(e) => return Err(e),
        };
        proof {
            lemma_get_decreases(*value, "ifTrue"@);
        }
        let action = match value.get("ifTrue") {
            None => None,
            Some(a) => match lower_stmt(a) {
                Ok(x) => Some(Box::new(x)),
                Err(e) => return Err(e),
            },
        };
        let kind = lower_assertion_kind(opt_str(value, "assertionKind"));
        let condition = match lower_expr(cond) {
            Ok(c) => c,
            Err(e) => return Err(e),
        };
        Ok(Stmt::Assert { kind, condition, action, source })
    } else {
        Ok(Stmt::Unknown { kind: k.to_owned(), source })
    }
}

/// Lowers the body of a block: the items of a list, or the one statement that
/// the body is.
fn lower_block_body(value: &JsonValue) -> (r: Result<Vec<Stmt>>)
    ensures
        match r {
            Ok(v) => lower_block_body_spec(*value) == Ok::<Seq<SpecStmt>, SpecError>(stmts_model(v@)),
            Err(e) => lower_block_body_spec(*value) == Err::<Seq<SpecStmt>, SpecError>(e@),
        },
    decreases *value, 2int,
{
    if kind_is(value, "List") {
        let items = match array(value, "list", "statement list") {
            Ok(a) => a,
            Err(e) => return Err(e),
        };
        proof {
            lemma_array_decreases(*value, "list"@);
        }
        lower_stmt_list(items)
    } else {
        match lower_stmt(value) {
            Ok(s) => {
                let mut v: Vec<Stmt> = Vec::new();
                v.push(s);
                assert(v@.drop_last() =~= Seq::<Stmt>::empty());
                assert(stmts_model(Seq::<Stmt>::empty()) =~= Seq::<SpecStmt>::empty());
                assert(stmts_model(v@) =~= seq![s@]);
                Ok(v)
            },
            Err(e) => Err(e),
        }
    }
}

fn lower_conditional(value: &JsonValue, source: Option<SourceSpan>) -> (r: Result<Stmt>)
    ensures
        res_view(r) == lower_conditional_spec(*value, opt_span(source)),
    decreases *value, 0int,
{
    let conds = match array(value, "conditions", "conditional statement") {
        Ok(a) => a,
        Err(e) => return Err(e),
    };
    let conditions = match lower_conditions(conds) {
        Ok(c) => c,
        Err(e) => return Err(e),
    };
    let if_true = match member(value, "ifTrue", "conditional statement") {
        Ok(t) => t,
        Err(e) => return Err(e),
    };
    proof {
        lemma_get_decreases(*value, "ifTrue"@);
        lemma_get_decreases(*value, "ifFalse"@);
    }
    let else_branch = match value.get("ifFalse") {
        None => None,
        Some(f) => match lower_stmt(f) {
            Ok(x) => Some(Box::new(x)),
            Err(e) => return Err(e),
        },
    };
    let then_branch = match lower_stmt(if_true) {
        Ok(x) => x,
        Err(e) => return Err(e),
    };
    Ok(Stmt::If { conditions, then_branch: Box::new(then_branch), else_branch, source })
}

/// Lowers a sequence of statement nodes.
fn lower_stmt_list(items: &Vec<JsonValue>) -> (r: Result<Vec<Stmt>>)
    ensures
        match r {
            Ok(v) => lower_stmt_list_spec(items@) == Ok::<Seq<SpecStmt>, SpecError>(stmts_model(v@)),
            Err(e) => lower_stmt_list_spec(items@) == Err::<Seq<SpecStmt>, SpecError>(e@),
        },
    decreases items@, 0int,
{
    let mut out: Vec<Stmt> = Vec::new();
    let mut i: usize = 0;
    assert(items@.skip(0) =~= items@);
    while i < items.len()
        invariant
            i <= items@.len(),
            lower_stmt_list_spec(items@) == concat_ok(stmts_model(out@), lower_stmt_list_spec(items@.skip(i as int))),
        decreases items.len() - i,
    {
        let ghost rest = items@.skip(i as int);
        assert(rest[0] == items@[i as int]);
        assert(rest.drop_first() =~= items@.skip(i + 1));
        assert(decreases_to!(items@ => items@[i as int]));
        let x = match lower_stmt(&items[i]) {
            Ok(x) => x,
            Err(err) => return Err(err),
        };
        let ghost before = out@;
        out.push(x);
        proof {
            assert(out@.drop_last() =~= before);
            assert(stmts_model(out@) =~= stmts_model(before).push(x@));
            match lower_stmt_list_spec(items@.skip(i + 1)) {
                Ok(tail) => {
                    assert(stmts_model(before) + (seq![x@] + tail) =~= stmts_model(out@) + tail);
                },
                Err(_) => {},
            }
        }
        i += 1;
    }
    assert(items@.skip(i as int) =~= Seq::<JsonValue>::empty());
    assert(stmts_model(out@) + Seq::<SpecStmt>::empty() =~= stmts_model(out@));
    Ok(out)
}

// ---------------------------------------------------------------- module members

/// What lowering a parameter declaration gives.
pub open spec fn lower_parameter_spec(j: JsonValue) -> SpecResult<SpecParameter> {
    match field_str(j, "name"@) {
        None => Err(SpecError::MissingField { field: "name"@, context: "parameter"@ }),
        Some(name) => {
            let init = match json_get(j, "initializer"@) {
                None => Ok(None),
                Some(e) => match lower_expr_spec(e) {
                    Err(err) => Err(err),
                    Ok(x) => Ok(Some(x)),
                },
            };
            match init {
                Err(e) => Err(e),
                Ok(initializer) => Ok(
                    SpecParameter {
                        name,
                        ty: or_empty(field_str(j, "type"@)),
                        value: field_str(j, "value"@),
                        initializer,
                        source: source_loc_of(j),
                    },
                ),
            }
        },
    }
}

/// What lowering a port declaration gives.
pub open spec fn lower_port_spec(j: JsonValue) -> SpecResult<SpecPort> {
    match field_str(j, "name"@) {
        None => Err(SpecError::MissingField { field: "name"@, context: "port"@ }),
        Some(name) => Ok(
            SpecPort {
                name,
                direction: port_direction_of(field_str(j, "direction"@)),
                ty: or_empty(field_str(j, "type"@)),
                internal_symbol: match field_str(j, "internalSymbol"@) {
                    Some(s) => Some(symbol_ref_of(s)),
                    None => None,
                },
                source: source_loc_of(j),
            },
        ),
    }
}

/// What lowering a net or variable declaration gives.
pub open spec fn lower_signal_spec(j: JsonValue, kind: SignalKind) -> SpecResult<SpecSignal> {
    match field_str(j, "name"@) {
        None => Err(SpecError::MissingField { field: "name"@, context: "signal"@ }),
        Some(name) => Ok(
            SpecSignal {
                name,
                kind,
                ty: or_empty(field_str(j, "type"@)),
                source: source_loc_of(j),
            },
        ),
    }
}

/// What lowering a procedural block gives.
pub open spec fn lower_procedure_spec(j: JsonValue) -> SpecResult<SpecProcedureBlock> {
    match json_get(j, "body"@) {
        None => Err(SpecError::MissingField { field: "body"@, context: "procedural block"@ }),
        Some(b) => match lower_stmt_spec(b) {
            Err(e) => Err(e),
            Ok(body) => Ok(
                SpecProcedureBlock {
                    kind: procedure_kind_of(field_str(j, "procedureKind"@)),
                    body,
                    source: source_loc_of(j),
                },
            ),
        },
    }
}

fn lower_parameter(value: &JsonValue) -> (r: Result<Parameter>)
    ensures
        res_view(r) == lower_parameter_spec(*value),
{
    let name = match str_field(value, "name", "parameter") {
        Ok(n) => n,
        Err(e) => return Err(e),
    };
    let ty = match opt_string(value, "type") {
        Some(t) => t,
        None => String::new(),
    };
    let v = opt_string(value, "value");
    let initializer = match value.get("initializer") {
        None => None,
        Some(e) => match lower_expr(e) {
            Ok(x) => Some(x),
            Err(err) => return Err(err),
        },
    };
    Ok(Parameter { name: name.to_owned(), ty, value: v, initializer, source: source_loc(value) })
}

fn lower_port(value: &JsonValue) -> (r: Result<Port>)
    ensures
        res_view(r) == lower_port_spec(*value),
{
    let name = match str_field(value, "name", "port") {
        Ok(n) => n,
        Err(e) => return Err(e),
    };
    let ty = match opt_string(value, "type") {
        Some(t) => t,
        None => String::new(),
    };
    let internal_symbol = match opt_str(value, "internalSymbol") {
        Some(s) => Some(SymbolRef::parse(s)),
        None => None,
    };
    Ok(
        Port {
            name: name.to_owned(),
            direction: lower_port_direction(opt_str(value, "direction")),
            ty,
            internal_symbol,
            source: source_loc(value),
        },
    )
}

fn lower_signal(value: &JsonValue, kind: SignalKind) -> (r: Result<Signal>)
    ensures
        res_view(r) == lower_signal_spec(*value, kind),
{
    let name = match str_field(value, "name", "signal") {
        Ok(n) => n,
        Err(e) => return Err(e),
    };
    let ty = match opt_string(value, "type") {
        Some(t) => t,
        None => String::new(),
    };
    Ok(Signal { name: name.to_owned(), kind, ty, source: source_loc(value) })
}

fn lower_procedure(value: &JsonValue) -> (r: Result<ProcedureBlock>)
    ensures
        res_view(r) == lower_procedure_spec(*value),
{
    let body = match member(value, "body", "procedural block") {
        Ok(b) => b,
        Err(e) => return Err(e),
    };
    let kind = lower_procedure_kind(opt_str(value, "procedureKind"));
    let body = match lower_stmt(body) {
        Ok(b) => b,
        Err(e) => return Err(e),
    };
    Ok(ProcedureBlock { kind, body, source: source_loc(value) })
}

// ---------------------------------------------------------------- modules and designs

/// `m` with one more lowered member, when `member` is of a kind that a module keeps.
pub open spec fn add_member_spec(m: SpecModule, member: JsonValue) -> SpecResult<SpecModule> {
    let k = node_kind(member);
    if k == Some("Parameter"@) {
        match lower_parameter_spec(member) {
            Err(e) => Err(e),
            Ok(p) => Ok(SpecModule { parameters: m.parameters.push(p), ..m }),
        }
    } else if k == Some("Port"@) {
        match lower_port_spec(member) {
            Err(e) => Err(e),
            Ok(p) => Ok(SpecModule { ports: m.ports.push(p), ..m }),
        }
    } else if k == Some("Net"@) {
        match lower_signal_spec(member, SignalKind::Net) {
            Err(e) => Err(e),
            Ok(n) => Ok(SpecModule { nets: m.nets.push(n), ..m }),
        }
    } else if k == Some("Variable"@) {
        match lower_signal_spec(member, SignalKind::Variable) {
            Err(e) => Err(e),
            Ok(v) => Ok(SpecModule { variables: m.variables.push(v), ..m }),
        }
    } else if k == Some("ProceduralBlock"@) {
        match lower_procedure_spec(member) {
            Err(e) => Err(e),
            Ok(p) => Ok(SpecModule { procedures: m.procedures.push(p), ..m }),
        }
    } else {
        Ok(m)
    }
}

/// `m` with all `members` added, in order, or the first error.
pub open spec fn fill_module_spec(m: SpecModule, members: Seq<JsonValue>) -> SpecResult<SpecModule>
    decreases members.len(),
{
    if members.len() == 0 {
        Ok(m)
    } else {
        match add_member_spec(m, members[0]) {
            Err(e) => Err(e),
            Ok(m2) => fill_module_spec(m2, members.drop_first()),
        }
    }
}

/// What lowering a module instance gives.
pub open spec fn lower_module_instance_spec(j: JsonValue) -> SpecResult<SpecModule> {
    match json_get(j, "body"@) {
        None => Err(SpecError::MissingField { field: "body"@, context: "module instance"@ }),
        Some(body) => match spec_expect_kind(body, "InstanceBody"@) {
            Err(e) => Err(e),
            Ok(_) => match field_str(body, "name"@) {
                None => Err(SpecError::MissingField { field: "name"@, context: "module body"@ }),
                Some(name) => match field_array(body, "members"@) {
                    None => Err(
                        SpecError::MissingField { field: "members"@, context: "module body"@ },
                    ),
                    Some(members) => fill_module_spec(
                        SpecModule {
                            name,
                            source: source_loc_of(body),
                            parameters: seq![],
                            ports: seq![],
                            nets: seq![],
                            variables: seq![],
                            procedures: seq![],
                        },
                        members,
                    ),
                },
            },
        },
    }
}

/// Adds the lowering of `member` to `module`, when it is of a kind that a module keeps.
fn add_member(module: &mut Module, member: &JsonValue) -> (r: Result<()>)
    ensures
        match r {
            Ok(()) => add_member_spec(old(module)@, *member) == Ok::<SpecModule, SpecError>(final(module)@),
            Err(e) => add_member_spec(old(module)@, *member) == Err::<SpecModule, SpecError>(e@),
        },
{
    let ghost before = module@;
    let k = kind(member);
    if is_text(k, "Parameter") {
        match lower_parameter(member) {
            Ok(p) => {
                module.parameters.push(p);
                assert(module@.parameters =~= before.parameters.push(p@));
            },
            Err(e) => return Err(e),
        }
    } else if is_text(k, "Port") {
        match lower_port(member) {
            Ok(p) => {
                module.ports.push(p);
                assert(module@.ports =~= before.ports.push(p@));
            },
            Err(e) => return Err(e),
        }
    } else if is_text(k, "Net") {
        match lower_signal(member, SignalKind::Net) {
            Ok(n) => {
                module.nets.push(n);
                assert(module@.nets =~= before.nets.push(n@));
            },
            Err(e) => return Err(e),
        }
    } else if is_text(k, "Variable") {
        match lower_signal(member, SignalKind::Variable) {
            Ok(v) => {
                module.variables.push(v);
                assert(module@.variables =~= before.variables.push(v@));
            },
            Err(e) => return Err(e),
        }
    } else if is_text(k, "ProceduralBlock") {
        match lower_procedure(member) {
            Ok(p) => {
                module.procedures.push(p);
                assert(module@.procedures =~= before.procedures.push(p@));
            },
            Err(e) => return Err(e),
        }
    }
    Ok(())
}

#[verifier::rlimit(60)]
fn lower_module_instance(value: &JsonValue) -> (r: Result<Module>)
    ensures
        res_view(r) == lower_module_instance_spec(*value),
{
    let body = match member(value, "body", "module instance") {
        Ok(b) => b,
        Err(e) => return Err(e),
    };
    match expect_kind(body, "InstanceBody") {
        Ok(()) => {},
        Err(e) => return Err(e),
    }
    let name = match str_field(body, "name", "module body") {
        Ok(n) => n,
        Err(e) => return Err(e),
    };
    let source = source_loc(body);
    let members = match array(body, "members", "module body") {
        Ok(a) => a,
        Err(e) => return Err(e),
    };
    let mut module = Module {
        name: name.to_owned(),
        source,
        parameters: Vec::new(),
        ports: Vec::new(),
        nets: Vec::new(),
        variables: Vec::new(),
        procedures: Vec::new(),
    };
    let ghost init = module@;
    assert(init.parameters =~= Seq::<SpecParameter>::empty());
    assert(init.ports =~= Seq::<SpecPort>::empty());
    assert(init.nets =~= Seq::<SpecSignal>::empty());
    assert(init.variables =~= Seq::<SpecSignal>::empty());
    assert(init.procedures =~= Seq::<SpecProcedureBlock>::empty());
    assert(init == (SpecModule {
        name: name@,
        source: source_loc_of(*body),
        parameters: seq![],
        ports: seq![],
        nets: seq![],
        variables: seq![],
        procedures: seq![],
    }));
    assert(members@.skip(0) =~= members@);
    let mut i: usize = 0;
    while i < members.len()
        invariant
            i <= members@.len(),
            lower_module_instance_spec(*value) == fill_module_spec(init, members@),
            fill_module_spec(init, members@) == fill_module_spec(module@, members@.skip(i as int)),
        decreases members.len() - i,
    {
        let ghost rest = members@.skip(i as int);
        assert(rest[0] == members@[i as int]);
        assert(rest.drop_first() =~= members@.skip(i + 1));
        match add_member(&mut module, &members[i]) {
            Ok(()) => {},
            Err(e) => return Err(e),
        }
        i += 1;
    }
    assert(members@.skip(i as int) =~= Seq::<JsonValue>::empty());
    Ok(module)
}

/// What lowering the members of the root gives: the module instances among them.
pub open spec fn lower_instances_spec(members: Seq<JsonValue>) -> SpecResult<Seq<SpecModule>>
    decreases members.len(),
{
    if members.len() == 0 {
        Ok(seq![])
    } else if node_kind(members[0]) == Some("Instance"@) {
        match lower_module_instance_spec(members[0]) {
            Err(e) => Err(e),
            Ok(m) => concat_ok(seq![m], lower_instances_spec(members.drop_first())),
        }
    } else {
        lower_instances_spec(members.drop_first())
    }
}

/// What lowering a whole AST document gives.
pub open spec fn lower_design_spec(j: JsonValue) -> SpecResult<SpecDesign> {
    match json_get(j, "design"@) {
        None => Err(SpecError::MissingField { field: "design"@, context: "root AST JSON"@ }),
        Some(d) => match spec_expect_kind(d, "Root"@) {
            Err(e) => Err(e),
            Ok(_) => match field_array(d, "members"@) {
                None => Err(SpecError::MissingField { field: "members"@, context: "root design"@ }),
                Some(members) => match lower_instances_spec(members) {
                    Err(e) => Err(e),
                    Ok(modules) => Ok(SpecDesign { modules }),
                },
            },
        },
    }
}

/// Lowers slang's AST document into a design: the lowered module instances
/// among the members of its root, in order.
#[verifier::rlimit(50)]
pub fn lower_slang_ast(value: &JsonValue) -> (r: Result<Design>)
    ensures
        res_view(r) == lower_design_spec(*value),
{
    let design = match member(value, "design", "root AST JSON") {
        Ok(d) => d,
        Err(e) => return Err(e),
    };
    match expect_kind(design, "Root") {
        Ok(()) => {},
        Err(e) => return Err(e),
    }
    let members = match array(design, "members", "root design") {
        Ok(a) => a,
        Err(e) => return Err(e),
    };
    let mut modules: Vec<Module> = Vec::new();
    assert(members@.skip(0) =~= members@);
    let mut i: usize = 0;
    while i < members.len()
        invariant
            i <= members@.len(),
            lower_design_spec(*value) == match lower_instances_spec(members@) {
                Err(e) => Err(e),
                Ok(modules) => Ok(SpecDesign { modules }),
            },
            lower_instances_spec(members@) == concat_ok(
                modules@.map_values(|m: Module| m@),
                lower_instances_spec(members@.skip(i as int)),
            ),
        decreases members.len() - i,
    {
        let ghost rest = members@.skip(i as int);
        assert(rest[0] == members@[i as int]);
        assert(rest.drop_first() =~= members@.skip(i + 1));
        if kind_is(&members[i], "Instance") {
            let m = match lower_module_instance(&members[i]) {
                Ok(m) => m,
                Err(e) => return Err(e),
            };
            let ghost before = modules@.map_values(|m: Module| m@);
            modules.push(m);
            proof {
                assert(modules@.map_values(|m: Module| m@) =~= before.push(m@));
                match lower_instances_spec(members@.skip(i + 1)) {
                    Ok(tail) => {
                        assert(before + (seq![m@] + tail) =~= before.push(m@) + tail);
                    },
                    Err(_) => {},
                }
            }
        }
        i += 1;
    }
    assert(members@.skip(i as int) =~= Seq::<JsonValue>::empty());
    assert(modules@.map_values(|m: Module| m@) + Seq::<SpecModule>::empty() =~= modules@.map_values(|m: Module| m@));
    Ok(Design { modules })
}

/// Reads the JSON document that slang printed and lowers it: the whole text
/// where it parses, else the part from its first `{`; where neither parses,
/// the parser's error.
pub fn lower_slang_ast_str(json: &str) -> (r: Result<Design>)
    ensures
        res_view(r) == match slang_document(json@) {
            Ok(v) => lower_design_spec(v),
            Err(m) => Err::<SpecDesign, SpecError>(SpecError::Json(m)),
        },
{
    match parse_slang_json(json) {
        Ok(v) => lower_slang_ast(&v),
        Err(e) => Err(e),
    }
}

} // verus!
