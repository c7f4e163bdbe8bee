use vstd::prelude::*;

use super::types::{
    lower_optional_type, lower_optional_type_spec, opt_type, DataType, SpecDataType,
};
use crate::error::{res_view, Error, Result, SpecError, SpecResult};
use crate::ir::{
    opt_span, opt_text, symbol_ref_of, SourceSpan, SpecSourceSpan, SpecSymbolRef, SymbolRef,
};
use crate::json::{
    array, bool_field, field_array, field_flag, field_str, json_get, kind,
    lemma_array_decreases, lemma_get_decreases, member, node_kind, opt_string, str_field,
    JsonValue,
};
use crate::lower::{concat_ok, or_empty, source_span, source_span_of, text_or_missing};
use crate::text::text_eq;

verus! {

broadcast use vstd::std_specs::vec::group_vec_axioms;

/// An expression, with its type as a lowered data type.
#[derive(Debug, PartialEq, Eq)]
pub enum Expr {
    NamedValue {
        symbol: SymbolRef,
        ty: Option<DataType>,
        constant: Option<String>,
        source: Option<SourceSpan>,
    },
    IntegerLiteral {
        value: String,
        ty: Option<DataType>,
        constant: Option<String>,
        source: Option<SourceSpan>,
    },
    Unary {
        op: UnaryOp,
        expr: Box<Expr>,
        ty: Option<DataType>,
        constant: Option<String>,
        source: Option<SourceSpan>,
    },
    Binary {
        op: BinaryOp,
        left: Box<Expr>,
        right: Box<Expr>,
        ty: Option<DataType>,
        constant: Option<String>,
        source: Option<SourceSpan>,
    },
    Concatenation {
        operands: Vec<Expr>,
        ty: Option<DataType>,
        constant: Option<String>,
        source: Option<SourceSpan>,
    },
    Replication {
        count: Box<Expr>,
        concat: Box<Expr>,
        ty: Option<DataType>,
        constant: Option<String>,
        source: Option<SourceSpan>,
    },
    Conversion {
        ty: Option<DataType>,
        expr: Box<Expr>,
        constant: Option<String>,
        source: Option<SourceSpan>,
    },
    Assignment {
        left: Box<Expr>,
        right: Box<Expr>,
        nonblocking: bool,
        ty: Option<DataType>,
        source: Option<SourceSpan>,
    },
    Unknown { kind: String, ty: Option<DataType>, source: Option<SourceSpan> },
}

/// A unary operator, named as slang names it.
#[derive(PartialEq, Eq, Structural, Clone, Copy, Debug)]
pub enum UnaryOp {
    Plus,
    Minus,
    BitwiseNot,
    BitwiseAnd,
    BitwiseOr,
    BitwiseXor,
    BitwiseNand,
    BitwiseNor,
    BitwiseXnor,
    LogicalNot,
    Preincrement,
    Predecrement,
    Postincrement,
    Postdecrement,
}

/// A binary operator, named as slang names it.
#[derive(PartialEq, Eq, Structural, Clone, Copy, Debug)]
pub enum BinaryOp {
    Add,
    Subtract,
    Multiply,
    Divide,
    Mod,
    BinaryAnd,
    BinaryOr,
    BinaryXor,
    BinaryXnor,
    Equality,
    Inequality,
    CaseEquality,
    CaseInequality,
    GreaterThanEqual,
    GreaterThan,
    LessThanEqual,
    LessThan,
    WildcardEquality,
    WildcardInequality,
    LogicalAnd,
    LogicalOr,
    LogicalImplication,
    LogicalEquivalence,
    LogicalShiftLeft,
    LogicalShiftRight,
    ArithmeticShiftLeft,
    ArithmeticShiftRight,
    Power,
}

pub enum SpecExpr {
    NamedValue {
        symbol: SpecSymbolRef,
        ty: Option<SpecDataType>,
        constant: Option<Seq<char>>,
        source: Option<SpecSourceSpan>,
    },
    IntegerLiteral {
        value: Seq<char>,
        ty: Option<SpecDataType>,
        constant: Option<Seq<char>>,
        source: Option<SpecSourceSpan>,
    },
    Unary {
        op: UnaryOp,
        expr: Box<SpecExpr>,
        ty: Option<SpecDataType>,
        constant: Option<Seq<char>>,
        source: Option<SpecSourceSpan>,
    },
    Binary {
        op: BinaryOp,
        left: Box<SpecExpr>,
        right: Box<SpecExpr>,
        ty: Option<SpecDataType>,
        constant: Option<Seq<char>>,
        source: Option<SpecSourceSpan>,
    },
    Concatenation {
        operands: Seq<SpecExpr>,
        ty: Option<SpecDataType>,
        constant: Option<Seq<char>>,
        source: Option<SpecSourceSpan>,
    },
    Replication {
        count: Box<SpecExpr>,
        concat: Box<SpecExpr>,
        ty: Option<SpecDataType>,
        constant: Option<Seq<char>>,
        source: Option<SpecSourceSpan>,
    },
    Conversion {
        ty: Option<SpecDataType>,
        expr: Box<SpecExpr>,
        constant: Option<Seq<char>>,
        source: Option<SpecSourceSpan>,
    },
    Assignment {
        left: Box<SpecExpr>,
        right: Box<SpecExpr>,
        nonblocking: bool,
        ty: Option<SpecDataType>,
        source: Option<SpecSourceSpan>,
    },
    Unknown { kind: Seq<char>, ty: Option<SpecDataType>, source: Option<SpecSourceSpan> },
}

/// The model of an expression.
pub open spec fn expr_model(e: Expr) -> SpecExpr
    decreases e,
{
    match e {
        Expr::NamedValue { symbol, ty, constant, source } => SpecExpr::NamedValue {
            symbol: symbol@,
            ty: opt_type(ty),
            constant: opt_text(constant),
            source: opt_span(source),
        },
        Expr::IntegerLiteral { value, ty, constant, source } => SpecExpr::IntegerLiteral {
            value: value@,
            ty: opt_type(ty),
            constant: opt_text(constant),
            source: opt_span(source),
        },
        Expr::Unary { op, expr, ty, constant, source } => SpecExpr::Unary {
            op,
            expr: Box::new(expr_model(*expr)),
            ty: opt_type(ty),
            constant: opt_text(constant),
            source: opt_span(source),
        },
        Expr::Binary { op, left, right, ty, constant, source } => SpecExpr::Binary {
            op,
            left: Box::new(expr_model(*left)),
            right: Box::new(expr_model(*right)),
            ty: opt_type(ty),
            constant: opt_text(constant),
            source: opt_span(source),
        },
        Expr::Concatenation { operands, ty, constant, source } => SpecExpr::Concatenation {
            operands: exprs_model(operands@),
            ty: opt_type(ty),
            constant: opt_text(constant),
            source: opt_span(source),
        },
        Expr::Replication { count, concat, ty, constant, source } => SpecExpr::Replication {
            count: Box::new(expr_model(*count)),
            concat: Box::new(expr_model(*concat)),
            ty: opt_type(ty),
            constant: opt_text(constant),
            source: opt_span(source),
        },
        Expr::Conversion { ty, expr, constant, source } => SpecExpr::Conversion {
            ty: opt_type(ty),
            expr: Box::new(expr_model(*expr)),
            constant: opt_text(constant),
            source: opt_span(source),
        },
        Expr::Assignment { left, right, nonblocking, ty, source } => SpecExpr::Assignment {
            left: Box::new(expr_model(*left)),
            right: Box::new(expr_model(*right)),
            nonblocking,
            ty: opt_type(ty),
            source: opt_span(source),
        },
        Expr::Unknown { kind, ty, source } => SpecExpr::Unknown {
            kind: kind@,
            ty: opt_type(ty),
            source: opt_span(source),
        },
    }
}

/// The models of a sequence of expressions.
pub open spec fn exprs_model(v: Seq<Expr>) -> Seq<SpecExpr>
    decreases v,
{
    if v.len() == 0 {
        seq![]
    } else {
        exprs_model(v.drop_last()).push(expr_model(v.last()))
    }
}

impl View for Expr {
    type V = SpecExpr;

    open spec fn view(&self) -> SpecExpr {
        expr_model(*self)
    }
}

pub open spec fn opt_expr(o: Option<Expr>) -> Option<SpecExpr> {
    match o {
        Some(e) => Some(e@),
        None => None,
    }
}

/// The source span of an expression, whatever its variant.
pub open spec fn expr_source(e: Expr) -> Option<SourceSpan> {
    match e {
        Expr::NamedValue { source, .. } => source,
        Expr::IntegerLiteral { source, .. } => source,
        Expr::Unary { source, .. } => source,
        Expr::Binary { source, .. } => source,
        Expr::Concatenation { source, .. } => source,
        Expr::Replication { source, .. } => source,
        Expr::Conversion { source, .. } => source,
        Expr::Assignment { source, .. } => source,
        Expr::Unknown { source, .. } => source,
    }
}

/// The type of an expression, whatever its variant.
pub open spec fn expr_type(e: Expr) -> Option<DataType> {
    match e {
        Expr::NamedValue { ty, .. } => ty,
        Expr::IntegerLiteral { ty, .. } => ty,
        Expr::Unary { ty, .. } => ty,
        Expr::Binary { ty, .. } => ty,
        Expr::Concatenation { ty, .. } => ty,
        Expr::Replication { ty, .. } => ty,
        Expr::Conversion { ty, .. } => ty,
        Expr::Assignment { ty, .. } => ty,
        Expr::Unknown { ty, .. } => ty,
    }
}

impl Expr {
    /// The source span of this expression.
    pub fn source(&self) -> (r: Option<&SourceSpan>)
        ensures
            match r {
                Some(s) => expr_source(*self) == Some(*s),
                None => expr_source(*self) is None,
            },
    {
        match self {
            Expr::NamedValue { source, .. } => source.as_ref(),
            Expr::IntegerLiteral { source, .. } => source.as_ref(),
            Expr::Unary { source, .. } => source.as_ref(),
            Expr::Binary { source, .. } => source.as_ref(),
            Expr::Concatenation { source, .. } => source.as_ref(),
            Expr::Replication { source, .. } => source.as_ref(),
            Expr::Conversion { source, .. } => source.as_ref(),
            Expr::Assignment { source, .. } => source.as_ref(),
            Expr::Unknown { source, .. } => source.as_ref(),
        }
    }

    /// The type of this expression.
    pub fn ty(&self) -> (r: Option<&DataType>)
        ensures
            match r {
                Some(t) => expr_type(*self) == Some(*t),
                None => expr_type(*self) is None,
            },
    {
        match self {
            Expr::NamedValue { ty, .. } => ty.as_ref(),
            Expr::IntegerLiteral { ty, .. } => ty.as_ref(),
            Expr::Unary { ty, .. } => ty.as_ref(),
            Expr::Binary { ty, .. } => ty.as_ref(),
            Expr::Concatenation { ty, .. } => ty.as_ref(),
            Expr::Replication { ty, .. } => ty.as_ref(),
            Expr::Conversion { ty, .. } => ty.as_ref(),
            Expr::Assignment { ty, .. } => ty.as_ref(),
            Expr::Unknown { ty, .. } => ty.as_ref(),
        }
    }
}

// ---------------------------------------------------------------- operators

/// The unary operator that slang names `s`.
pub open spec fn unary_op_named(s: Seq<char>) -> Option<UnaryOp> {
    if s == "Plus"@ {
        Some(UnaryOp::Plus)
    } else if s == "Minus"@ {
        Some(UnaryOp::Minus)
    } else if s == "BitwiseNot"@ {
        Some(UnaryOp::BitwiseNot)
    } else if s == "BitwiseAnd"@ {
        Some(UnaryOp::BitwiseAnd)
    } else if s == "BitwiseOr"@ {
        Some(UnaryOp::BitwiseOr)
    } else if s == "BitwiseXor"@ {
        Some(UnaryOp::BitwiseXor)
    } else if s == "BitwiseNand"@ {
        Some(UnaryOp::BitwiseNand)
    } else if s == "BitwiseNor"@ {
        Some(UnaryOp::BitwiseNor)
    } else if s == "BitwiseXnor"@ {
        Some(UnaryOp::BitwiseXnor)
    } else if s == "LogicalNot"@ {
        Some(UnaryOp::LogicalNot)
    } else if s == "Preincrement"@ {
        Some(UnaryOp::Preincrement)
    } else if s == "Predecrement"@ {
        Some(UnaryOp::Predecrement)
    } else if s == "Postincrement"@ {
        Some(UnaryOp::Postincrement)
    } else if s == "Postdecrement"@ {
        Some(UnaryOp::Postdecrement)
    } else {
        None
    }
}

/// What reading a unary operator name gives: the operator, or a message.
pub open spec fn unary_op_of(s: Seq<char>) -> SpecResult<UnaryOp> {
    match unary_op_named(s) {
        Some(op) => Ok(op),
        None => Err(SpecError::Message("unknown unary operator `"@ + s + "`"@)),
    }
}

/// `prefix`, then `name`, then a closing backquote.
fn quoted_message(prefix: &str, name: &str) -> (r: String)
    ensures
        r@ == prefix@ + name@ + "`"@,
{
    let mut m = String::from_str(prefix);
    m.append(name);
    m.append("`");
    m
}

/// Reads a unary operator name.
pub fn lower_unary_op(value: &str) -> (r: Result<UnaryOp>)
    ensures
        match r {
            Ok(op) => unary_op_of(value@) == Ok::<UnaryOp, SpecError>(op),
            Err(e) => unary_op_of(value@) == Err::<UnaryOp, SpecError>(e@),
        },
{
    if text_eq(value, "Plus") {
        Ok(UnaryOp::Plus)
    } else if text_eq(value, "Minus") {
        Ok(UnaryOp::Minus)
    } else if text_eq(value, "BitwiseNot") {
        Ok(UnaryOp::BitwiseNot)
    } else if text_eq(value, "BitwiseAnd") {
        Ok(UnaryOp::BitwiseAnd)
    } else if text_eq(value, "BitwiseOr") {
        Ok(UnaryOp::BitwiseOr)
    } else if text_eq(value, "BitwiseXor") {
        Ok(UnaryOp::BitwiseXor)
    } else if text_eq(value, "BitwiseNand") {
        Ok(UnaryOp::BitwiseNand)
    } else if text_eq(value, "BitwiseNor") {
        Ok(UnaryOp::BitwiseNor)
    } else if text_eq(value, "BitwiseXnor") {
        Ok(UnaryOp::BitwiseXnor)
    } else if text_eq(value, "LogicalNot") {
        Ok(UnaryOp::LogicalNot)
    } else if text_eq(value, "Preincrement") {
        Ok(UnaryOp::Preincrement)
    } else if text_eq(value, "Predecrement") {
        Ok(UnaryOp::Predecrement)
    } else if text_eq(value, "Postincrement") {
        Ok(UnaryOp::Postincrement)
    } else if text_eq(value, "Postdecrement") {
        Ok(UnaryOp::Postdecrement)
    } else {
        let m = quoted_message("unknown unary operator `", value);
        Err(Error::Message(m))
    }
}

/// The binary operator that slang names `s`.
pub open spec fn binary_op_named(s: Seq<char>) -> Option<BinaryOp> {
    if s == "Add"@ {
        Some(BinaryOp::Add)
    } else if s == "Subtract"@ {
        Some(BinaryOp::Subtract)
    } else if s == "Multiply"@ {
        Some(BinaryOp::Multiply)
    } else if s == "Divide"@ {
        Some(BinaryOp::Divide)
    } else if s == "Mod"@ {
        Some(BinaryOp::Mod)
    } else if s == "BinaryAnd"@ {
        Some(BinaryOp::BinaryAnd)
    } else if s == "BinaryOr"@ {
        Some(BinaryOp::BinaryOr)
    } else if s == "BinaryXor"@ {
        Some(BinaryOp::BinaryXor)
    } else if s == "BinaryXnor"@ {
        Some(BinaryOp::BinaryXnor)
    } else if s == "Equality"@ {
        Some(BinaryOp::Equality)
    } else if s == "Inequality"@ {
        Some(BinaryOp::Inequality)
    } else if s == "CaseEquality"@ {
        Some(BinaryOp::CaseEquality)
    } else if s == "CaseInequality"@ {
        Some(BinaryOp::CaseInequality)
    } else if s == "GreaterThanEqual"@ {
        Some(BinaryOp::GreaterThanEqual)
    } else if s == "GreaterThan"@ {
        Some(BinaryOp::GreaterThan)
    } else if s == "LessThanEqual"@ {
        Some(BinaryOp::LessThanEqual)
    } else if s == "LessThan"@ {
        Some(BinaryOp::LessThan)
    } else if s == "WildcardEquality"@ {
        Some(BinaryOp::WildcardEquality)
    } else if s == "WildcardInequality"@ {
        Some(BinaryOp::WildcardInequality)
    } else if s == "LogicalAnd"@ {
        Some(BinaryOp::LogicalAnd)
    } else if s == "LogicalOr"@ {
        Some(BinaryOp::LogicalOr)
    } else if s == "LogicalImplication"@ {
        Some(BinaryOp::LogicalImplication)
    } else if s == "LogicalEquivalence"@ {
        Some(BinaryOp::LogicalEquivalence)
    } else if s == "LogicalShiftLeft"@ {
        Some(BinaryOp::LogicalShiftLeft)
    } else if s == "LogicalShiftRight"@ {
        Some(BinaryOp::LogicalShiftRight)
    } else if s == "ArithmeticShiftLeft"@ {
        Some(BinaryOp::ArithmeticShiftLeft)
    } else if s == "ArithmeticShiftRight"@ {
        Some(BinaryOp::ArithmeticShiftRight)
    } else if s == "Power"@ {
        Some(BinaryOp::Power)
    } else {
        None
    }
}

/// What reading a binary operator name gives: the operator, or a message.
pub open spec fn binary_op_of(s: Seq<char>) -> SpecResult<BinaryOp> {
    match binary_op_named(s) {
        Some(op) => Ok(op),
        None => Err(SpecError::Message("unknown binary operator `"@ + s + "`"@)),
    }
}

/// Reads a binary operator name.
pub fn lower_binary_op(value: &str) -> (r: Result<BinaryOp>)
    ensures
        match r {
            Ok(op) => binary_op_of(value@) == Ok::<BinaryOp, SpecError>(op),
            Err(e) => binary_op_of(value@) == Err::<BinaryOp, SpecError>(e@),
        },
{
    if text_eq(value, "Add") {
        Ok(BinaryOp::Add)
    } else if text_eq(value, "Subtract") {
        Ok(BinaryOp::Subtract)
    } else if text_eq(value, "Multiply") {
        Ok(BinaryOp::Multiply)
    } else if text_eq(value, "Divide") {
        Ok(BinaryOp::Divide)
    } else if text_eq(value, "Mod") {
        Ok(BinaryOp::Mod)
    } else if text_eq(value, "BinaryAnd") {
        Ok(BinaryOp::BinaryAnd)
    } else if text_eq(value, "BinaryOr") {
        Ok(BinaryOp::BinaryOr)
    } else if text_eq(value, "BinaryXor") {
        Ok(BinaryOp::BinaryXor)
    } else if text_eq(value, "BinaryXnor") {
        Ok(BinaryOp::BinaryXnor)
    } else if text_eq(value, "Equality") {
        Ok(BinaryOp::Equality)
    } else if text_eq(value, "Inequality") {
        Ok(BinaryOp::Inequality)
    } else if text_eq(value, "CaseEquality") {
        Ok(BinaryOp::CaseEquality)
    } else if text_eq(value, "CaseInequality") {
        Ok(BinaryOp::CaseInequality)
    } else if text_eq(value, "GreaterThanEqual") {
        Ok(BinaryOp::GreaterThanEqual)
    } else if text_eq(value, "GreaterThan") {
        Ok(BinaryOp::GreaterThan)
    } else if text_eq(value, "LessThanEqual") {
        Ok(BinaryOp::LessThanEqual)
    } else if text_eq(value, "LessThan") {
        Ok(BinaryOp::LessThan)
    } else if text_eq(value, "WildcardEquality") {
        Ok(BinaryOp::WildcardEquality)
    } else if text_eq(value, "WildcardInequality") {
        Ok(BinaryOp::WildcardInequality)
    } else if text_eq(value, "LogicalAnd") {
        Ok(BinaryOp::LogicalAnd)
    } else if text_eq(value, "LogicalOr") {
        Ok(BinaryOp::LogicalOr)
    } else if text_eq(value, "LogicalImplication") {
        Ok(BinaryOp::LogicalImplication)
    } else if text_eq(value, "LogicalEquivalence") {
        Ok(BinaryOp::LogicalEquivalence)
    } else if text_eq(value, "LogicalShiftLeft") {
        Ok(BinaryOp::LogicalShiftLeft)
    } else if text_eq(value, "LogicalShiftRight") {
        Ok(BinaryOp::LogicalShiftRight)
    } else if text_eq(value, "ArithmeticShiftLeft") {
        Ok(BinaryOp::ArithmeticShiftLeft)
    } else if text_eq(value, "ArithmeticShiftRight") {
        Ok(BinaryOp::ArithmeticShiftRight)
    } else if text_eq(value, "Power") {
        Ok(BinaryOp::Power)
    } else {
        let m = quoted_message("unknown binary operator `", value);
        Err(Error::Message(m))
    }
}

// ---------------------------------------------------------------- lowering

/// What lowering an expression node gives.
pub open spec fn lower_expr_spec(j: JsonValue) -> SpecResult<SpecExpr>
    decreases j, 1int,
{
    let source = source_span_of(j);
    match lower_optional_type_spec(j) {
        Err(e) => Err(e),
        Ok(ty) => {
            let constant = field_str(j, "constant"@);
            proof {
                lemma_get_decreases(j, "operand"@);
                lemma_get_decreases(j, "left"@);
                lemma_get_decreases(j, "right"@);
                lemma_get_decreases(j, "count"@);
                lemma_get_decreases(j, "concat"@);
                lemma_array_decreases(j, "operands"@);
            }
            match node_kind(j) {
                None => Ok(SpecExpr::Unknown { kind: "<missing>"@, ty, source }),
                Some(k) => if k == "NamedValue"@ {
                    match field_str(j, "symbol"@) {
                        None => Err(SpecError::MissingField { field: "symbol"@, context: "named value"@ }),
                        Some(sym) => Ok(
                            SpecExpr::NamedValue { symbol: symbol_ref_of(sym), ty, constant, source },
                        ),
                    }
                } else if k == "IntegerLiteral"@ {
                    Ok(
                        SpecExpr::IntegerLiteral {
                            value: or_empty(field_str(j, "value"@)),
                            ty,
                            constant,
                            source,
                        },
                    )
                } else if k == "UnaryOp"@ {
                    match json_get(j, "operand"@) {
                        None => Err(
                            SpecError::MissingField { field: "operand"@, context: "unary expression"@ },
                        ),
                        Some(operand) => match field_str(j, "op"@) {
                            None => Err(
                                SpecError::MissingField { field: "op"@, context: "unary expression"@ },
                            ),
                            Some(name) => match unary_op_of(name) {
                                Err(e) => Err(e),
                                Ok(op) => match lower_expr_spec(operand) {
                                    Err(e) => Err(e),
                                    Ok(x) => Ok(
                                        SpecExpr::Unary { op, expr: Box::new(x), ty, constant, source },
                                    ),
                                },
                            },
                        },
                    }
                } else if k == "BinaryOp"@ {
                    match (json_get(j, "left"@), json_get(j, "right"@)) {
                        (None, _) => Err(
                            SpecError::MissingField { field: "left"@, context: "binary expression"@ },
                        ),
                        (Some(_), None) => Err(
                            SpecError::MissingField { field: "right"@, context: "binary expression"@ },
                        ),
                        (Some(left), Some(right)) => match field_str(j, "op"@) {
                            None => Err(
                                SpecError::MissingField { field: "op"@, context: "binary expression"@ },
                            ),
                            Some(name) => match binary_op_of(name) {
                                Err(e) => Err(e),
                                Ok(op) => match (lower_expr_spec(left), lower_expr_spec(right)) {
                                    (Err(e), _) => Err(e),
                                    (Ok(_), Err(e)) => Err(e),
                                    (Ok(l), Ok(r)) => Ok(
                                        SpecExpr::Binary {
                                            op,
                                            left: Box::new(l),
                                            right: Box::new(r),
                                            ty,
                                            constant,
                                            source,
                                        },
                                    ),
                                },
                            },
                        },
                    }
                } else if k == "Concatenation"@ {
                    match field_array(j, "operands"@) {
                        None => Err(
                            SpecError::MissingField {
                                field: "operands"@,
                                context: "concatenation expression"@,
                            },
                        ),
                        Some(items) => match lower_operands_spec(items) {
                            Err(e) => Err(e),
                            Ok(operands) => Ok(
                                SpecExpr::Concatenation { operands, ty, constant, source },
                            ),
                        },
                    }
                } else if k == "Replication"@ {
                    match (json_get(j, "count"@), json_get(j, "concat"@)) {
                        (None, _) => Err(
                            SpecError::MissingField {
                                field: "count"@,
                                context: "replication expression"@,
                            },
                        ),
                        (Some(_), None) => Err(
                            SpecError::MissingField {
                                field: "concat"@,
                                context: "replication expression"@,
                            },
                        ),
                        (Some(count), Some(concat)) => match (
                            lower_expr_spec(count),
                            lower_expr_spec(concat),
                        ) {
                            (Err(e), _) => Err(e),
                            (Ok(_), Err(e)) => Err(e),
                            (Ok(c), Ok(x)) => Ok(
                                SpecExpr::Replication {
                                    count: Box::new(c),
                                    concat: Box::new(x),
                                    ty,
                                    constant,
                                    source,
                                },
                            ),
                        },
                    }
                } else if k == "Conversion"@ {
                    match json_get(j, "operand"@) {
                        None => Err(
                            SpecError::MissingField {
                                field: "operand"@,
                                context: "conversion expression"@,
                            },
                        ),
                        Some(operand) => match lower_expr_spec(operand) {
                            Err(e) => Err(e),
                            Ok(x) => Ok(SpecExpr::Conversion { ty, expr: Box::new(x), constant, source }),
                        },
                    }
                } else if k == "Assignment"@ {
                    match (json_get(j, "left"@), json_get(j, "right"@)) {
                        (None, _) => Err(
                            SpecError::MissingField {
                                field: "left"@,
                                context: "assignment expression"@,
                            },
                        ),
                        (Some(_), None) => Err(
                            SpecError::MissingField {
                                field: "right"@,
                                context: "assignment expression"@,
                            },
                        ),
                        (Some(left), Some(right)) => match (lower_expr_spec(left), lower_expr_spec(right)) {
                            (Err(e), _) => Err(e),
                            (Ok(_), Err(e)) => Err(e),
                            (Ok(l), Ok(r)) => Ok(
                                SpecExpr::Assignment {
                                    left: Box::new(l),
                                    right: Box::new(r),
                                    nonblocking: field_flag(j, "isNonBlocking"@),
                                    ty,
                                    source,
                                },
                            ),
                        },
                    }
                } else {
                    Ok(SpecExpr::Unknown { kind: k, ty, source })
                },
            }
        },
    }
}

/// What lowering the operands of a concatenation gives.
pub open spec fn lower_operands_spec(items: Seq<JsonValue>) -> SpecResult<Seq<SpecExpr>>
    decreases items, 0int,
{
    if items.len() == 0 {
        Ok(seq![])
    } else {
        proof {
            assert(decreases_to!(items => items[0]));
            assert(decreases_to!(items => items.subrange(1, items.len() as int)));
        }
        match lower_expr_spec(items[0]) {
            Err(e) => Err(e),
            Ok(x) => concat_ok(seq![x], lower_operands_spec(items.drop_first())),
        }
    }
}

/// Lowers an expression node.
#[verifier::rlimit(60)]
pub fn lower_expr(value: &JsonValue) -> (r: Result<Expr>)
    ensures
        res_view(r) == lower_expr_spec(*value),
    decreases *value, 1int,
{
    let source = source_span(value);
    let ty = match lower_optional_type(value) {
        Ok(t) => t,
        Err(e) => return Err(e),
    };
    let constant = opt_string(value, "constant");
    proof {
        lemma_get_decreases(*value, "operand"@);
        lemma_get_decreases(*value, "left"@);
        lemma_get_decreases(*value, "right"@);
        lemma_get_decreases(*value, "count"@);
        lemma_get_decreases(*value, "concat"@);
        lemma_array_decreases(*value, "operands"@);
    }
    let k = match kind(value) {
        Some(k) => k,
        None => return Ok(Expr::Unknown { kind: text_or_missing(None), ty, source }),
    };
    if text_eq(k, "NamedValue") {
        let symbol = match str_field(value, "symbol", "named value") {
            Ok(s) => s,
            Err(e) => return Err(e),
        };
        Ok(Expr::NamedValue { symbol: SymbolRef::parse(symbol), ty, constant, source })
    } else if text_eq(k, "IntegerLiteral") {
        let literal = match opt_string(value, "value") {
            Some(v) => v,
            None => String::new(),
        };
        Ok(Expr::IntegerLiteral { value: literal, ty, constant, source })
    } else if text_eq(k, "UnaryOp") {
        let operand = match member(value, "operand", "unary expression") {
            Ok(o) => o,
            Err(e) => return Err(e),
        };
        let name = match str_field(value, "op", "unary expression") {
            Ok(n) => n,
            Err(e) => return Err(e),
        };
        let op = match lower_unary_op(name) {
            Ok(op) => op,
            Err(e) => return Err(e),
        };
        let x = match lower_expr(operand) {
            Ok(x) => x,
            Err(e) => return Err(e),
        };
        Ok(Expr::Unary { op, expr: Box::new(x), ty, constant, source })
    } else if text_eq(k, "BinaryOp") {
        let left = match member(value, "left", "binary expression") {
            Ok(o) => o,
            Err(e) => return Err(e),
        };
        let right = match member(value, "right", "binary expression") {
            Ok(o) => o,
            Err(e) => return Err(e),
        };
        let name = match str_field(value, "op", "binary expression") {
            Ok(n) => n,
            Err(e) => return Err(e),
        };
        let op = match lower_binary_op(name) {
            Ok(op) => op,
            Err(e) => return Err(e),
        };
        let l = match lower_expr(left) {
            Ok(x) => x,
            Err(e) => return Err(e),
        };
        let r = match lower_expr(right) {
            Ok(x) => x,
            Err(e) => return Err(e),
        };
        Ok(Expr::Binary { op, left: Box::new(l), right: Box::new(r), ty, constant, source })
    } else if text_eq(k, "Concatenation") {
        let items = match array(value, "operands", "concatenation expression") {
            Ok(a) => a,
            Err(e) => return Err(e),
        };
        let operands = match lower_operands(items) {
            Ok(v) => v,
            Err(e) => return Err(e),
        };
        Ok(Expr::Concatenation { operands, ty, constant, source })
    } else if text_eq(k, "Replication") {
        let count = match member(value, "count", "replication expression") {
            Ok(o) => o,
            Err(e) => return Err(e),
        };
        let concat = match member(value, "concat", "replication expression") {
            Ok(o) => o,
            Err(e) => return Err(e),
        };
        let c = match lower_expr(count) {
            Ok(x) => x,
            Err(e) => return Err(e),
        };
        let x = match lower_expr(concat) {
            Ok(x) => x,
            Err(e) => return Err(e),
        };
        Ok(Expr::Replication { count: Box::new(c), concat: Box::new(x), ty, constant, source })
    } else if text_eq(k, "Conversion") {
        let operand = match member(value, "operand", "conversion expression") {
            Ok(o) => o,
            Err(e) => return Err(e),
        };
        let x = match lower_expr(operand) {
            Ok(x) => x,
            Err(e) => return Err(e),
        };
        Ok(Expr::Conversion { ty, expr: Box::new(x), constant, source })
    } else if text_eq(k, "Assignment") {
        let left = match member(value, "left", "assignment expression") {
            Ok(o) => o,
            Err(e) => return Err(e),
        };
        let right = match member(value, "right", "assignment expression") {
            Ok(o) => o,
            Err(e) => return Err(e),
        };
        let l = match lower_expr(left) {
            Ok(x) => x,
            Err(e) => return Err(e),
        };
        let r = match lower_expr(right) {
            Ok(x) => x,
            Err(e) => return Err(e),
        };
        Ok(
            Expr::Assignment {
                left: Box::new(l),
                right: Box::new(r),
                nonblocking: bool_field(value, "isNonBlocking"),
                ty,
                source,
            },
        )
    } else {
        Ok(Expr::Unknown { kind: k.to_owned(), ty, source })
    }
}

/// Lowers the operands of a concatenation.
fn lower_operands(items: &Vec<JsonValue>) -> (r: Result<Vec<Expr>>)
    ensures
        match r {
            Ok(v) => lower_operands_spec(items@) == Ok::<Seq<SpecExpr>, SpecError>(exprs_model(v@)),
            Err(e) => lower_operands_spec(items@) == Err::<Seq<SpecExpr>, SpecError>(e@),
        },
    decreases items@, 0int,
{
    let mut out: Vec<Expr> = Vec::new();
    let mut i: usize = 0;
    assert(items@.skip(0) =~= items@);
    assert(exprs_model(Seq::<Expr>::empty()) =~= Seq::<SpecExpr>::empty());
    while i < items.len()
        invariant
            i <= items@.len(),
            lower_operands_spec(items@) == concat_ok(exprs_model(out@), lower_operands_spec(items@.skip(i as int))),
        decreases items.len() - i,
    {
        let ghost rest = items@.skip(i as int);
        assert(rest[0] == items@[i as int]);
        assert(rest.drop_first() =~= items@.skip(i + 1));
        assert(decreases_to!(items@ => items@[i as int]));
        let x = match lower_expr(&items[i]) {
            Ok(x) => x,
            Err(err) => return Err(err),
        };
        let ghost before = out@;
        out.push(x);
        proof {
            assert(out@.drop_last() =~= before);
            assert(exprs_model(out@) =~= exprs_model(before).push(x@));
            match lower_operands_spec(items@.skip(i + 1)) {
                Ok(tail) => {
                    assert(exprs_model(before) + (seq![x@] + tail) =~= exprs_model(out@) + tail);
                },
                Err(_) => {},
            }
        }
        i += 1;
    }
    assert(items@.skip(i as int) =~= Seq::<JsonValue>::empty());
    assert(exprs_model(out@) + Seq::<SpecExpr>::empty() =~= exprs_model(out@));
    Ok(out)
}

} // verus!
