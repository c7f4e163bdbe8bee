//! What the names in slang's AST dump mean: each table that turns a name
//! into an enumeration is stated here by its inverse, the name of each
//! variant, and shown to read every name back as its own variant.
use vstd::prelude::*;

use crate::ast::expr::{BinaryOp, UnaryOp};
use crate::ast::types::{
    base_type_of, SpecDataType, SpecPredefinedIntegerType, SpecScalarType, floating_kind_of, predefined_integer_kind_of, scalar_kind_of, SpecFloatingKind,
    SpecPredefinedIntegerKind, SpecScalarKind,
};
use crate::error::SpecError;
use crate::ir::{
    SpecAssertionKind, SpecBinaryOp, SpecEdge, SpecPortDirection, SpecProcedureKind, SpecUnaryOp,
};
use crate::lower::{assertion_kind_of, edge_of, port_direction_of, procedure_kind_of};

verus! {

proof fn lemma_port_direction_names()
    ensures
        "In"@.len() == 2,
        "InOut"@.len() == 5,
        "Out"@.len() == 3,
        "Out"@[0] == 'O',
        "Out"@[1] == 'u',
        "Out"@[2] == 't',
        "Ref"@.len() == 3,
        "Ref"@[0] == 'R',
        "Ref"@[1] == 'e',
        "Ref"@[2] == 'f',
{
    reveal_strlit("In");
    reveal_strlit("InOut");
    reveal_strlit("Out");
    reveal_strlit("Ref");
}

/// The name that slang gives each port direction.
pub open spec fn port_direction_name(k: SpecPortDirection) -> Seq<char> {
    match k {
        SpecPortDirection::In => "In"@,
        SpecPortDirection::Out => "Out"@,
        SpecPortDirection::InOut => "InOut"@,
        SpecPortDirection::Ref => "Ref"@,
        SpecPortDirection::Unknown(t) => t,
    }
}

/// Reading the name of a port direction gives that direction back, so `In`,
/// `Out`, `InOut` and `Ref` lower to four different directions; any other text
/// is kept as `Unknown` of that text, and a missing one as `Unknown("<missing>")`.
pub proof fn law_port_directions(k: SpecPortDirection, s: Seq<char>)
    ensures
        !(k is Unknown) ==> port_direction_of(Some(port_direction_name(k))) == k,
        (port_direction_name(SpecPortDirection::In) != s && port_direction_name(SpecPortDirection::Out) != s && port_direction_name(SpecPortDirection::InOut) != s && port_direction_name(SpecPortDirection::Ref) != s) ==> port_direction_of(Some(s)) == SpecPortDirection::Unknown(s),
        port_direction_of(None) == SpecPortDirection::Unknown("<missing>"@),
{
    lemma_port_direction_names();
}

proof fn lemma_procedure_kind_names()
    ensures
        "Always"@.len() == 6,
        "Final"@.len() == 5,
        "Initial"@.len() == 7,
{
    reveal_strlit("Always");
    reveal_strlit("Final");
    reveal_strlit("Initial");
}

/// The name that slang gives each kind of procedural block.
pub open spec fn procedure_kind_name(k: SpecProcedureKind) -> Seq<char> {
    match k {
        SpecProcedureKind::Always => "Always"@,
        SpecProcedureKind::Initial => "Initial"@,
        SpecProcedureKind::Final => "Final"@,
        SpecProcedureKind::Unknown(t) => t,
    }
}

/// Reading the name of a kind of procedural block gives that kind back; any
/// other text is kept as `Unknown` of that text, a missing one as
/// `Unknown("<missing>")`.
pub proof fn law_procedure_kinds(k: SpecProcedureKind, s: Seq<char>)
    ensures
        !(k is Unknown) ==> procedure_kind_of(Some(procedure_kind_name(k))) == k,
        (procedure_kind_name(SpecProcedureKind::Always) != s && procedure_kind_name(SpecProcedureKind::Initial) != s && procedure_kind_name(SpecProcedureKind::Final) != s) ==> procedure_kind_of(Some(s)) == SpecProcedureKind::Unknown(s),
        procedure_kind_of(None) == SpecProcedureKind::Unknown("<missing>"@),
{
    lemma_procedure_kind_names();
}

proof fn lemma_assertion_kind_names()
    ensures
        "Assert"@.len() == 6,
        "Assert"@[0] == 'A',
        "Assert"@[1] == 's',
        "Assert"@[2] == 's',
        "Assert"@[3] == 'e',
        "Assert"@[4] == 'r',
        "Assert"@[5] == 't',
        "Assume"@.len() == 6,
        "Assume"@[0] == 'A',
        "Assume"@[1] == 's',
        "Assume"@[2] == 's',
        "Assume"@[3] == 'u',
        "Assume"@[4] == 'm',
        "Assume"@[5] == 'e',
        "Cover"@.len() == 5,
{
    reveal_strlit("Assert");
    reveal_strlit("Assume");
    reveal_strlit("Cover");
}

/// The name that slang gives each kind of assertion.
pub open spec fn assertion_kind_name(k: SpecAssertionKind) -> Seq<char> {
    match k {
        SpecAssertionKind::Assert => "Assert"@,
        SpecAssertionKind::Assume => "Assume"@,
        SpecAssertionKind::Cover => "Cover"@,
        SpecAssertionKind::Unknown(t) => t,
    }
}

/// Reading the name of a kind of assertion gives that kind back; any other
/// text is kept as `Unknown` of that text, a missing one as
/// `Unknown("<missing>")`.
pub proof fn law_assertion_kinds(k: SpecAssertionKind, s: Seq<char>)
    ensures
        !(k is Unknown) ==> assertion_kind_of(Some(assertion_kind_name(k))) == k,
        (assertion_kind_name(SpecAssertionKind::Assert) != s && assertion_kind_name(SpecAssertionKind::Assume) != s && assertion_kind_name(SpecAssertionKind::Cover) != s) ==> assertion_kind_of(Some(s)) == SpecAssertionKind::Unknown(s),
        assertion_kind_of(None) == SpecAssertionKind::Unknown("<missing>"@),
{
    lemma_assertion_kind_names();
}

proof fn lemma_edge_names()
    ensures
        "NegEdge"@.len() == 7,
        "NegEdge"@[0] == 'N',
        "NegEdge"@[1] == 'e',
        "NegEdge"@[2] == 'g',
        "NegEdge"@[3] == 'E',
        "NegEdge"@[4] == 'd',
        "NegEdge"@[5] == 'g',
        "NegEdge"@[6] == 'e',
        "None"@.len() == 4,
        "PosEdge"@.len() == 7,
        "PosEdge"@[0] == 'P',
        "PosEdge"@[1] == 'o',
        "PosEdge"@[2] == 's',
        "PosEdge"@[3] == 'E',
        "PosEdge"@[4] == 'd',
        "PosEdge"@[5] == 'g',
        "PosEdge"@[6] == 'e',
{
    reveal_strlit("NegEdge");
    reveal_strlit("None");
    reveal_strlit("PosEdge");
}

/// The name that slang gives each edge of a signal event.
pub open spec fn edge_name(k: SpecEdge) -> Seq<char> {
    match k {
        SpecEdge::Pos => "PosEdge"@,
        SpecEdge::Neg => "NegEdge"@,
        SpecEdge::Any => "None"@,
        SpecEdge::Unknown(t) => t,
    }
}

/// Reading the name of an edge gives that edge back: `PosEdge`, `NegEdge` and
/// `None` lower to three different edges; any other text is kept as
/// `Unknown` of that text, a missing one as `Unknown("<missing>")`.
pub proof fn law_edges(k: SpecEdge, s: Seq<char>)
    ensures
        !(k is Unknown) ==> edge_of(Some(edge_name(k))) == k,
        (edge_name(SpecEdge::Pos) != s && edge_name(SpecEdge::Neg) != s && edge_name(SpecEdge::Any) != s) ==> edge_of(Some(s)) == SpecEdge::Unknown(s),
        edge_of(None) == SpecEdge::Unknown("<missing>"@),
{
    lemma_edge_names();
}

proof fn lemma_unary_op_names()
    ensures
        "BitwiseNot"@.len() == 10,
        "BitwiseNot"@[0] == 'B',
        "BitwiseNot"@[1] == 'i',
        "BitwiseNot"@[2] == 't',
        "BitwiseNot"@[3] == 'w',
        "BitwiseNot"@[4] == 'i',
        "BitwiseNot"@[5] == 's',
        "BitwiseNot"@[6] == 'e',
        "BitwiseNot"@[7] == 'N',
        "BitwiseNot"@[8] == 'o',
        "BitwiseNot"@[9] == 't',
        "LogicalNot"@.len() == 10,
        "LogicalNot"@[0] == 'L',
        "LogicalNot"@[1] == 'o',
        "LogicalNot"@[2] == 'g',
        "LogicalNot"@[3] == 'i',
        "LogicalNot"@[4] == 'c',
        "LogicalNot"@[5] == 'a',
        "LogicalNot"@[6] == 'l',
        "LogicalNot"@[7] == 'N',
        "LogicalNot"@[8] == 'o',
        "LogicalNot"@[9] == 't',
        "Minus"@.len() == 5,
        "Plus"@.len() == 4,
{
    reveal_strlit("BitwiseNot");
    reveal_strlit("LogicalNot");
    reveal_strlit("Minus");
    reveal_strlit("Plus");
}

/// The name that slang gives each unary operator of the IR.
pub open spec fn unary_op_name(k: SpecUnaryOp) -> Seq<char> {
    match k {
        SpecUnaryOp::LogicalNot => "LogicalNot"@,
        SpecUnaryOp::BitwiseNot => "BitwiseNot"@,
        SpecUnaryOp::Plus => "Plus"@,
        SpecUnaryOp::Minus => "Minus"@,
        SpecUnaryOp::Unknown(t) => t,
    }
}

/// Reading the name of a unary operator gives that operator back, so different
/// operators never lower to the same one; any other text is kept as `Unknown`
/// of that text, a missing one as `Unknown("<missing>")`.
pub proof fn law_unary_ops(k: SpecUnaryOp, s: Seq<char>)
    ensures
        !(k is Unknown) ==> crate::lower::unary_op_of(Some(unary_op_name(k))) == k,
        (unary_op_name(SpecUnaryOp::LogicalNot) != s && unary_op_name(SpecUnaryOp::BitwiseNot) != s && unary_op_name(SpecUnaryOp::Plus) != s && unary_op_name(SpecUnaryOp::Minus) != s) ==> crate::lower::unary_op_of(Some(s)) == SpecUnaryOp::Unknown(s),
        crate::lower::unary_op_of(None) == SpecUnaryOp::Unknown("<missing>"@),
{
    lemma_unary_op_names();
}

proof fn lemma_binary_op_names()
    ensures
        "Add"@.len() == 3,
        "Add"@[0] == 'A',
        "Add"@[1] == 'd',
        "Add"@[2] == 'd',
        "BinaryAnd"@.len() == 9,
        "BinaryAnd"@[0] == 'B',
        "BinaryAnd"@[1] == 'i',
        "BinaryAnd"@[2] == 'n',
        "BinaryAnd"@[3] == 'a',
        "BinaryAnd"@[4] == 'r',
        "BinaryAnd"@[5] == 'y',
        "BinaryAnd"@[6] == 'A',
        "BinaryAnd"@[7] == 'n',
        "BinaryAnd"@[8] == 'd',
        "BinaryOr"@.len() == 8,
        "BinaryOr"@[0] == 'B',
        "BinaryOr"@[1] == 'i',
        "BinaryOr"@[2] == 'n',
        "BinaryOr"@[3] == 'a',
        "BinaryOr"@[4] == 'r',
        "BinaryOr"@[5] == 'y',
        "BinaryOr"@[6] == 'O',
        "BinaryOr"@[7] == 'r',
        "BinaryXor"@.len() == 9,
        "BinaryXor"@[0] == 'B',
        "BinaryXor"@[1] == 'i',
        "BinaryXor"@[2] == 'n',
        "BinaryXor"@[3] == 'a',
        "BinaryXor"@[4] == 'r',
        "BinaryXor"@[5] == 'y',
        "BinaryXor"@[6] == 'X',
        "BinaryXor"@[7] == 'o',
        "BinaryXor"@[8] == 'r',
        "BitwiseAnd"@.len() == 10,
        "BitwiseAnd"@[0] == 'B',
        "BitwiseAnd"@[1] == 'i',
        "BitwiseAnd"@[2] == 't',
        "BitwiseAnd"@[3] == 'w',
        "BitwiseAnd"@[4] == 'i',
        "BitwiseAnd"@[5] == 's',
        "BitwiseAnd"@[6] == 'e',
        "BitwiseAnd"@[7] == 'A',
        "BitwiseAnd"@[8] == 'n',
        "BitwiseAnd"@[9] == 'd',
        "BitwiseOr"@.len() == 9,
        "BitwiseOr"@[0] == 'B',
        "BitwiseOr"@[1] == 'i',
        "BitwiseOr"@[2] == 't',
        "BitwiseOr"@[3] == 'w',
        "BitwiseOr"@[4] == 'i',
        "BitwiseOr"@[5] == 's',
        "BitwiseOr"@[6] == 'e',
        "BitwiseOr"@[7] == 'O',
        "BitwiseOr"@[8] == 'r',
        "BitwiseXor"@.len() == 10,
        "BitwiseXor"@[0] == 'B',
        "BitwiseXor"@[1] == 'i',
        "BitwiseXor"@[2] == 't',
        "BitwiseXor"@[3] == 'w',
        "BitwiseXor"@[4] == 'i',
        "BitwiseXor"@[5] == 's',
        "BitwiseXor"@[6] == 'e',
        "BitwiseXor"@[7] == 'X',
        "BitwiseXor"@[8] == 'o',
        "BitwiseXor"@[9] == 'r',
        "Divide"@.len() == 6,
        "Equality"@.len() == 8,
        "Equality"@[0] == 'E',
        "Equality"@[1] == 'q',
        "Equality"@[2] == 'u',
        "Equality"@[3] == 'a',
        "Equality"@[4] == 'l',
        "Equality"@[5] == 'i',
        "Equality"@[6] == 't',
        "Equality"@[7] == 'y',
        "GreaterThan"@.len() == 11,
        "GreaterThanEqual"@.len() == 16,
        "GreaterThanEqual"@[0] == 'G',
        "GreaterThanEqual"@[1] == 'r',
        "GreaterThanEqual"@[2] == 'e',
        "GreaterThanEqual"@[3] == 'a',
        "GreaterThanEqual"@[4] == 't',
        "GreaterThanEqual"@[5] == 'e',
        "GreaterThanEqual"@[6] == 'r',
        "GreaterThanEqual"@[7] == 'T',
        "GreaterThanEqual"@[8] == 'h',
        "GreaterThanEqual"@[9] == 'a',
        "GreaterThanEqual"@[10] == 'n',
        "GreaterThanEqual"@[11] == 'E',
        "GreaterThanEqual"@[12] == 'q',
        "GreaterThanEqual"@[13] == 'u',
        "GreaterThanEqual"@[14] == 'a',
        "GreaterThanEqual"@[15] == 'l',
        "Inequality"@.len() == 10,
        "Inequality"@[0] == 'I',
        "Inequality"@[1] == 'n',
        "Inequality"@[2] == 'e',
        "Inequality"@[3] == 'q',
        "Inequality"@[4] == 'u',
        "Inequality"@[5] == 'a',
        "Inequality"@[6] == 'l',
        "Inequality"@[7] == 'i',
        "Inequality"@[8] == 't',
        "Inequality"@[9] == 'y',
        "LessThan"@.len() == 8,
        "LessThan"@[0] == 'L',
        "LessThan"@[1] == 'e',
        "LessThan"@[2] == 's',
        "LessThan"@[3] == 's',
        "LessThan"@[4] == 'T',
        "LessThan"@[5] == 'h',
        "LessThan"@[6] == 'a',
        "LessThan"@[7] == 'n',
        "LessThanEqual"@.len() == 13,
        "LogicalAnd"@.len() == 10,
        "LogicalAnd"@[0] == 'L',
        "LogicalAnd"@[1] == 'o',
        "LogicalAnd"@[2] == 'g',
        "LogicalAnd"@[3] == 'i',
        "LogicalAnd"@[4] == 'c',
        "LogicalAnd"@[5] == 'a',
        "LogicalAnd"@[6] == 'l',
        "LogicalAnd"@[7] == 'A',
        "LogicalAnd"@[8] == 'n',
        "LogicalAnd"@[9] == 'd',
        "LogicalOr"@.len() == 9,
        "LogicalOr"@[0] == 'L',
        "LogicalOr"@[1] == 'o',
        "LogicalOr"@[2] == 'g',
        "LogicalOr"@[3] == 'i',
        "LogicalOr"@[4] == 'c',
        "LogicalOr"@[5] == 'a',
        "LogicalOr"@[6] == 'l',
        "LogicalOr"@[7] == 'O',
        "LogicalOr"@[8] == 'r',
        "LogicalShiftLeft"@.len() == 16,
        "LogicalShiftLeft"@[0] == 'L',
        "LogicalShiftLeft"@[1] == 'o',
        "LogicalShiftLeft"@[2] == 'g',
        "LogicalShiftLeft"@[3] == 'i',
        "LogicalShiftLeft"@[4] == 'c',
        "LogicalShiftLeft"@[5] == 'a',
        "LogicalShiftLeft"@[6] == 'l',
        "LogicalShiftLeft"@[7] == 'S',
        "LogicalShiftLeft"@[8] == 'h',
        "LogicalShiftLeft"@[9] == 'i',
        "LogicalShiftLeft"@[10] == 'f',
        "LogicalShiftLeft"@[11] == 't',
        "LogicalShiftLeft"@[12] == 'L',
        "LogicalShiftLeft"@[13] == 'e',
        "LogicalShiftLeft"@[14] == 'f',
        "LogicalShiftLeft"@[15] == 't',
        "LogicalShiftRight"@.len() == 17,
        "Mod"@.len() == 3,
        "Mod"@[0] == 'M',
        "Mod"@[1] == 'o',
        "Mod"@[2] == 'd',
        "Multiply"@.len() == 8,
        "Multiply"@[0] == 'M',
        "Multiply"@[1] == 'u',
        "Multiply"@[2] == 'l',
        "Multiply"@[3] == 't',
        "Multiply"@[4] == 'i',
        "Multiply"@[5] == 'p',
        "Multiply"@[6] == 'l',
        "Multiply"@[7] == 'y',
        "ShiftLeft"@.len() == 9,
        "ShiftLeft"@[0] == 'S',
        "ShiftLeft"@[1] == 'h',
        "ShiftLeft"@[2] == 'i',
        "ShiftLeft"@[3] == 'f',
        "ShiftLeft"@[4] == 't',
        "ShiftLeft"@[5] == 'L',
        "ShiftLeft"@[6] == 'e',
        "ShiftLeft"@[7] == 'f',
        "ShiftLeft"@[8] == 't',
        "ShiftRight"@.len() == 10,
        "ShiftRight"@[0] == 'S',
        "ShiftRight"@[1] == 'h',
        "ShiftRight"@[2] == 'i',
        "ShiftRight"@[3] == 'f',
        "ShiftRight"@[4] == 't',
        "ShiftRight"@[5] == 'R',
        "ShiftRight"@[6] == 'i',
        "ShiftRight"@[7] == 'g',
        "ShiftRight"@[8] == 'h',
        "ShiftRight"@[9] == 't',
        "Subtract"@.len() == 8,
        "Subtract"@[0] == 'S',
        "Subtract"@[1] == 'u',
        "Subtract"@[2] == 'b',
        "Subtract"@[3] == 't',
        "Subtract"@[4] == 'r',
        "Subtract"@[5] == 'a',
        "Subtract"@[6] == 'c',
        "Subtract"@[7] == 't',
{
    reveal_strlit("Add");
    reveal_strlit("BinaryAnd");
    reveal_strlit("BinaryOr");
    reveal_strlit("BinaryXor");
    reveal_strlit("BitwiseAnd");
    reveal_strlit("BitwiseOr");
    reveal_strlit("BitwiseXor");
    reveal_strlit("Divide");
    reveal_strlit("Equality");
    reveal_strlit("GreaterThan");
    reveal_strlit("GreaterThanEqual");
    reveal_strlit("Inequality");
    reveal_strlit("LessThan");
    reveal_strlit("LessThanEqual");
    reveal_strlit("LogicalAnd");
    reveal_strlit("LogicalOr");
    reveal_strlit("LogicalShiftLeft");
    reveal_strlit("LogicalShiftRight");
    reveal_strlit("Mod");
    reveal_strlit("Multiply");
    reveal_strlit("ShiftLeft");
    reveal_strlit("ShiftRight");
    reveal_strlit("Subtract");
}

/// The name that slang gives each binary operator of the IR.
pub open spec fn binary_op_name(k: SpecBinaryOp) -> Seq<char> {
    match k {
        SpecBinaryOp::Add => "Add"@,
        SpecBinaryOp::Subtract => "Subtract"@,
        SpecBinaryOp::Multiply => "Multiply"@,
        SpecBinaryOp::Divide => "Divide"@,
        SpecBinaryOp::Mod => "Mod"@,
        SpecBinaryOp::LogicalAnd => "LogicalAnd"@,
        SpecBinaryOp::LogicalOr => "LogicalOr"@,
        SpecBinaryOp::BitwiseAnd => "BinaryAnd"@,
        SpecBinaryOp::BitwiseOr => "BinaryOr"@,
        SpecBinaryOp::BitwiseXor => "BinaryXor"@,
        SpecBinaryOp::Equality => "Equality"@,
        SpecBinaryOp::Inequality => "Inequality"@,
        SpecBinaryOp::LessThan => "LessThan"@,
        SpecBinaryOp::LessThanEqual => "LessThanEqual"@,
        SpecBinaryOp::GreaterThan => "GreaterThan"@,
        SpecBinaryOp::GreaterThanEqual => "GreaterThanEqual"@,
        SpecBinaryOp::ShiftLeft => "LogicalShiftLeft"@,
        SpecBinaryOp::ShiftRight => "LogicalShiftRight"@,
        SpecBinaryOp::Unknown(t) => t,
    }
}

/// Reading the name of a binary operator gives that operator back, so the
/// eighteen operators lower to eighteen different ones (`Subtract` is not
/// `Add`); the other spellings of the bitwise and shift operators read as
/// those operators; any other text is kept as `Unknown` of that text, a
/// missing one as `Unknown("<missing>")`.
pub proof fn law_binary_ops(k: SpecBinaryOp, s: Seq<char>)
    ensures
        !(k is Unknown) ==> crate::lower::binary_op_of(Some(binary_op_name(k))) == k,
        crate::lower::binary_op_of(Some("BitwiseAnd"@)) == SpecBinaryOp::BitwiseAnd,
        crate::lower::binary_op_of(Some("BitwiseOr"@)) == SpecBinaryOp::BitwiseOr,
        crate::lower::binary_op_of(Some("BitwiseXor"@)) == SpecBinaryOp::BitwiseXor,
        crate::lower::binary_op_of(Some("ShiftLeft"@)) == SpecBinaryOp::ShiftLeft,
        crate::lower::binary_op_of(Some("ShiftRight"@)) == SpecBinaryOp::ShiftRight,
        (binary_op_name(SpecBinaryOp::Add) != s && binary_op_name(SpecBinaryOp::Subtract) != s && binary_op_name(SpecBinaryOp::Multiply) != s && binary_op_name(SpecBinaryOp::Divide) != s && binary_op_name(SpecBinaryOp::Mod) != s && binary_op_name(SpecBinaryOp::LogicalAnd) != s && binary_op_name(SpecBinaryOp::LogicalOr) != s && binary_op_name(SpecBinaryOp::BitwiseAnd) != s && binary_op_name(SpecBinaryOp::BitwiseOr) != s && binary_op_name(SpecBinaryOp::BitwiseXor) != s && binary_op_name(SpecBinaryOp::Equality) != s && binary_op_name(SpecBinaryOp::Inequality) != s && binary_op_name(SpecBinaryOp::LessThan) != s && binary_op_name(SpecBinaryOp::LessThanEqual) != s && binary_op_name(SpecBinaryOp::GreaterThan) != s && binary_op_name(SpecBinaryOp::GreaterThanEqual) != s && binary_op_name(SpecBinaryOp::ShiftLeft) != s && binary_op_name(SpecBinaryOp::ShiftRight) != s && s != "BitwiseAnd"@ && s != "BitwiseOr"@ && s != "BitwiseXor"@ && s != "ShiftLeft"@ && s != "ShiftRight"@) ==> crate::lower::binary_op_of(Some(s)) == SpecBinaryOp::Unknown(s),
        crate::lower::binary_op_of(None) == SpecBinaryOp::Unknown("<missing>"@),
{
    lemma_binary_op_names();
}

proof fn lemma_typed_unary_op_names()
    ensures
        "BitwiseAnd"@.len() == 10,
        "BitwiseAnd"@[0] == 'B',
        "BitwiseAnd"@[1] == 'i',
        "BitwiseAnd"@[2] == 't',
        "BitwiseAnd"@[3] == 'w',
        "BitwiseAnd"@[4] == 'i',
        "BitwiseAnd"@[5] == 's',
        "BitwiseAnd"@[6] == 'e',
        "BitwiseAnd"@[7] == 'A',
        "BitwiseAnd"@[8] == 'n',
        "BitwiseAnd"@[9] == 'd',
        "BitwiseNand"@.len() == 11,
        "BitwiseNand"@[0] == 'B',
        "BitwiseNand"@[1] == 'i',
        "BitwiseNand"@[2] == 't',
        "BitwiseNand"@[3] == 'w',
        "BitwiseNand"@[4] == 'i',
        "BitwiseNand"@[5] == 's',
        "BitwiseNand"@[6] == 'e',
        "BitwiseNand"@[7] == 'N',
        "BitwiseNand"@[8] == 'a',
        "BitwiseNand"@[9] == 'n',
        "BitwiseNand"@[10] == 'd',
        "BitwiseNor"@.len() == 10,
        "BitwiseNor"@[0] == 'B',
        "BitwiseNor"@[1] == 'i',
        "BitwiseNor"@[2] == 't',
        "BitwiseNor"@[3] == 'w',
        "BitwiseNor"@[4] == 'i',
        "BitwiseNor"@[5] == 's',
        "BitwiseNor"@[6] == 'e',
        "BitwiseNor"@[7] == 'N',
        "BitwiseNor"@[8] == 'o',
        "BitwiseNor"@[9] == 'r',
        "BitwiseNot"@.len() == 10,
        "BitwiseNot"@[0] == 'B',
        "BitwiseNot"@[1] == 'i',
        "BitwiseNot"@[2] == 't',
        "BitwiseNot"@[3] == 'w',
        "BitwiseNot"@[4] == 'i',
        "BitwiseNot"@[5] == 's',
        "BitwiseNot"@[6] == 'e',
        "BitwiseNot"@[7] == 'N',
        "BitwiseNot"@[8] == 'o',
        "BitwiseNot"@[9] == 't',
        "BitwiseOr"@.len() == 9,
        "BitwiseXnor"@.len() == 11,
        "BitwiseXnor"@[0] == 'B',
        "BitwiseXnor"@[1] == 'i',
        "BitwiseXnor"@[2] == 't',
        "BitwiseXnor"@[3] == 'w',
        "BitwiseXnor"@[4] == 'i',
        "BitwiseXnor"@[5] == 's',
        "BitwiseXnor"@[6] == 'e',
        "BitwiseXnor"@[7] == 'X',
        "BitwiseXnor"@[8] == 'n',
        "BitwiseXnor"@[9] == 'o',
        "BitwiseXnor"@[10] == 'r',
        "BitwiseXor"@.len() == 10,
        "BitwiseXor"@[0] == 'B',
        "BitwiseXor"@[1] == 'i',
        "BitwiseXor"@[2] == 't',
        "BitwiseXor"@[3] == 'w',
        "BitwiseXor"@[4] == 'i',
        "BitwiseXor"@[5] == 's',
        "BitwiseXor"@[6] == 'e',
        "BitwiseXor"@[7] == 'X',
        "BitwiseXor"@[8] == 'o',
        "BitwiseXor"@[9] == 'r',
        "LogicalNot"@.len() == 10,
        "LogicalNot"@[0] == 'L',
        "LogicalNot"@[1] == 'o',
        "LogicalNot"@[2] == 'g',
        "LogicalNot"@[3] == 'i',
        "LogicalNot"@[4] == 'c',
        "LogicalNot"@[5] == 'a',
        "LogicalNot"@[6] == 'l',
        "LogicalNot"@[7] == 'N',
        "LogicalNot"@[8] == 'o',
        "LogicalNot"@[9] == 't',
        "Minus"@.len() == 5,
        "Plus"@.len() == 4,
        "Postdecrement"@.len() == 13,
        "Postdecrement"@[0] == 'P',
        "Postdecrement"@[1] == 'o',
        "Postdecrement"@[2] == 's',
        "Postdecrement"@[3] == 't',
        "Postdecrement"@[4] == 'd',
        "Postdecrement"@[5] == 'e',
        "Postdecrement"@[6] == 'c',
        "Postdecrement"@[7] == 'r',
        "Postdecrement"@[8] == 'e',
        "Postdecrement"@[9] == 'm',
        "Postdecrement"@[10] == 'e',
        "Postdecrement"@[11] == 'n',
        "Postdecrement"@[12] == 't',
        "Postincrement"@.len() == 13,
        "Postincrement"@[0] == 'P',
        "Postincrement"@[1] == 'o',
        "Postincrement"@[2] == 's',
        "Postincrement"@[3] == 't',
        "Postincrement"@[4] == 'i',
        "Postincrement"@[5] == 'n',
        "Postincrement"@[6] == 'c',
        "Postincrement"@[7] == 'r',
        "Postincrement"@[8] == 'e',
        "Postincrement"@[9] == 'm',
        "Postincrement"@[10] == 'e',
        "Postincrement"@[11] == 'n',
        "Postincrement"@[12] == 't',
        "Predecrement"@.len() == 12,
        "Predecrement"@[0] == 'P',
        "Predecrement"@[1] == 'r',
        "Predecrement"@[2] == 'e',
        "Predecrement"@[3] == 'd',
        "Predecrement"@[4] == 'e',
        "Predecrement"@[5] == 'c',
        "Predecrement"@[6] == 'r',
        "Predecrement"@[7] == 'e',
        "Predecrement"@[8] == 'm',
        "Predecrement"@[9] == 'e',
        "Predecrement"@[10] == 'n',
        "Predecrement"@[11] == 't',
        "Preincrement"@.len() == 12,
        "Preincrement"@[0] == 'P',
        "Preincrement"@[1] == 'r',
        "Preincrement"@[2] == 'e',
        "Preincrement"@[3] == 'i',
        "Preincrement"@[4] == 'n',
        "Preincrement"@[5] == 'c',
        "Preincrement"@[6] == 'r',
        "Preincrement"@[7] == 'e',
        "Preincrement"@[8] == 'm',
        "Preincrement"@[9] == 'e',
        "Preincrement"@[10] == 'n',
        "Preincrement"@[11] == 't',
{
    reveal_strlit("BitwiseAnd");
    reveal_strlit("BitwiseNand");
    reveal_strlit("BitwiseNor");
    reveal_strlit("BitwiseNot");
    reveal_strlit("BitwiseOr");
    reveal_strlit("BitwiseXnor");
    reveal_strlit("BitwiseXor");
    reveal_strlit("LogicalNot");
    reveal_strlit("Minus");
    reveal_strlit("Plus");
    reveal_strlit("Postdecrement");
    reveal_strlit("Postincrement");
    reveal_strlit("Predecrement");
    reveal_strlit("Preincrement");
}

/// The name that slang gives each unary operator of the typed AST: the variant's own name.
pub open spec fn typed_unary_op_name(op: UnaryOp) -> Seq<char> {
    match op {
        UnaryOp::Plus => "Plus"@,
        UnaryOp::Minus => "Minus"@,
        UnaryOp::BitwiseNot => "BitwiseNot"@,
        UnaryOp::BitwiseAnd => "BitwiseAnd"@,
        UnaryOp::BitwiseOr => "BitwiseOr"@,
        UnaryOp::BitwiseXor => "BitwiseXor"@,
        UnaryOp::BitwiseNand => "BitwiseNand"@,
        UnaryOp::BitwiseNor => "BitwiseNor"@,
        UnaryOp::BitwiseXnor => "BitwiseXnor"@,
        UnaryOp::LogicalNot => "LogicalNot"@,
        UnaryOp::Preincrement => "Preincrement"@,
        UnaryOp::Predecrement => "Predecrement"@,
        UnaryOp::Postincrement => "Postincrement"@,
        UnaryOp::Postdecrement => "Postdecrement"@,
    }
}

/// Reading the name of a unary operator of the typed AST gives that operator back, so different
/// operators never lower to the same one; any other text is refused with a
/// message that quotes it.
pub proof fn law_typed_unary_ops(op: UnaryOp, s: Seq<char>)
    ensures
        crate::ast::expr::unary_op_of(typed_unary_op_name(op)) == Ok::<UnaryOp, SpecError>(op),
        (typed_unary_op_name(UnaryOp::Plus) != s && typed_unary_op_name(UnaryOp::Minus) != s && typed_unary_op_name(UnaryOp::BitwiseNot) != s && typed_unary_op_name(UnaryOp::BitwiseAnd) != s && typed_unary_op_name(UnaryOp::BitwiseOr) != s && typed_unary_op_name(UnaryOp::BitwiseXor) != s && typed_unary_op_name(UnaryOp::BitwiseNand) != s && typed_unary_op_name(UnaryOp::BitwiseNor) != s && typed_unary_op_name(UnaryOp::BitwiseXnor) != s && typed_unary_op_name(UnaryOp::LogicalNot) != s && typed_unary_op_name(UnaryOp::Preincrement) != s && typed_unary_op_name(UnaryOp::Predecrement) != s && typed_unary_op_name(UnaryOp::Postincrement) != s && typed_unary_op_name(UnaryOp::Postdecrement) != s) ==> crate::ast::expr::unary_op_of(s) == Err::<UnaryOp, SpecError>(SpecError::Message("unknown unary operator `"@ + s + "`"@)),
{
    lemma_typed_unary_op_names();
}

proof fn lemma_typed_binary_op_names()
    ensures
        "Add"@.len() == 3,
        "Add"@[0] == 'A',
        "Add"@[1] == 'd',
        "Add"@[2] == 'd',
        "ArithmeticShiftLeft"@.len() == 19,
        "ArithmeticShiftRight"@.len() == 20,
        "BinaryAnd"@.len() == 9,
        "BinaryAnd"@[0] == 'B',
        "BinaryAnd"@[1] == 'i',
        "BinaryAnd"@[2] == 'n',
        "BinaryAnd"@[3] == 'a',
        "BinaryAnd"@[4] == 'r',
        "BinaryAnd"@[5] == 'y',
        "BinaryAnd"@[6] == 'A',
        "BinaryAnd"@[7] == 'n',
        "BinaryAnd"@[8] == 'd',
        "BinaryOr"@.len() == 8,
        "BinaryOr"@[0] == 'B',
        "BinaryOr"@[1] == 'i',
        "BinaryOr"@[2] == 'n',
        "BinaryOr"@[3] == 'a',
        "BinaryOr"@[4] == 'r',
        "BinaryOr"@[5] == 'y',
        "BinaryOr"@[6] == 'O',
        "BinaryOr"@[7] == 'r',
        "BinaryXnor"@.len() == 10,
        "BinaryXnor"@[0] == 'B',
        "BinaryXnor"@[1] == 'i',
        "BinaryXnor"@[2] == 'n',
        "BinaryXnor"@[3] == 'a',
        "BinaryXnor"@[4] == 'r',
        "BinaryXnor"@[5] == 'y',
        "BinaryXnor"@[6] == 'X',
        "BinaryXnor"@[7] == 'n',
        "BinaryXnor"@[8] == 'o',
        "BinaryXnor"@[9] == 'r',
        "BinaryXor"@.len() == 9,
        "BinaryXor"@[0] == 'B',
        "BinaryXor"@[1] == 'i',
        "BinaryXor"@[2] == 'n',
        "BinaryXor"@[3] == 'a',
        "BinaryXor"@[4] == 'r',
        "BinaryXor"@[5] == 'y',
        "BinaryXor"@[6] == 'X',
        "BinaryXor"@[7] == 'o',
        "BinaryXor"@[8] == 'r',
        "CaseEquality"@.len() == 12,
        "CaseInequality"@.len() == 14,
        "Divide"@.len() == 6,
        "Equality"@.len() == 8,
        "Equality"@[0] == 'E',
        "Equality"@[1] == 'q',
        "Equality"@[2] == 'u',
        "Equality"@[3] == 'a',
        "Equality"@[4] == 'l',
        "Equality"@[5] == 'i',
        "Equality"@[6] == 't',
        "Equality"@[7] == 'y',
        "GreaterThan"@.len() == 11,
        "GreaterThanEqual"@.len() == 16,
        "GreaterThanEqual"@[0] == 'G',
        "GreaterThanEqual"@[1] == 'r',
        "GreaterThanEqual"@[2] == 'e',
        "GreaterThanEqual"@[3] == 'a',
        "GreaterThanEqual"@[4] == 't',
        "GreaterThanEqual"@[5] == 'e',
        "GreaterThanEqual"@[6] == 'r',
        "GreaterThanEqual"@[7] == 'T',
        "GreaterThanEqual"@[8] == 'h',
        "GreaterThanEqual"@[9] == 'a',
        "GreaterThanEqual"@[10] == 'n',
        "GreaterThanEqual"@[11] == 'E',
        "GreaterThanEqual"@[12] == 'q',
        "GreaterThanEqual"@[13] == 'u',
        "GreaterThanEqual"@[14] == 'a',
        "GreaterThanEqual"@[15] == 'l',
        "Inequality"@.len() == 10,
        "Inequality"@[0] == 'I',
        "Inequality"@[1] == 'n',
        "Inequality"@[2] == 'e',
        "Inequality"@[3] == 'q',
        "Inequality"@[4] == 'u',
        "Inequality"@[5] == 'a',
        "Inequality"@[6] == 'l',
        "Inequality"@[7] == 'i',
        "Inequality"@[8] == 't',
        "Inequality"@[9] == 'y',
        "LessThan"@.len() == 8,
        "LessThan"@[0] == 'L',
        "LessThan"@[1] == 'e',
        "LessThan"@[2] == 's',
        "LessThan"@[3] == 's',
        "LessThan"@[4] == 'T',
        "LessThan"@[5] == 'h',
        "LessThan"@[6] == 'a',
        "LessThan"@[7] == 'n',
        "LessThanEqual"@.len() == 13,
        "LogicalAnd"@.len() == 10,
        "LogicalAnd"@[0] == 'L',
        "LogicalAnd"@[1] == 'o',
        "LogicalAnd"@[2] == 'g',
        "LogicalAnd"@[3] == 'i',
        "LogicalAnd"@[4] == 'c',
        "LogicalAnd"@[5] == 'a',
        "LogicalAnd"@[6] == 'l',
        "LogicalAnd"@[7] == 'A',
        "LogicalAnd"@[8] == 'n',
        "LogicalAnd"@[9] == 'd',
        "LogicalEquivalence"@.len() == 18,
        "LogicalEquivalence"@[0] == 'L',
        "LogicalEquivalence"@[1] == 'o',
        "LogicalEquivalence"@[2] == 'g',
        "LogicalEquivalence"@[3] == 'i',
        "LogicalEquivalence"@[4] == 'c',
        "LogicalEquivalence"@[5] == 'a',
        "LogicalEquivalence"@[6] == 'l',
        "LogicalEquivalence"@[7] == 'E',
        "LogicalEquivalence"@[8] == 'q',
        "LogicalEquivalence"@[9] == 'u',
        "LogicalEquivalence"@[10] == 'i',
        "LogicalEquivalence"@[11] == 'v',
        "LogicalEquivalence"@[12] == 'a',
        "LogicalEquivalence"@[13] == 'l',
        "LogicalEquivalence"@[14] == 'e',
        "LogicalEquivalence"@[15] == 'n',
        "LogicalEquivalence"@[16] == 'c',
        "LogicalEquivalence"@[17] == 'e',
        "LogicalImplication"@.len() == 18,
        "LogicalImplication"@[0] == 'L',
        "LogicalImplication"@[1] == 'o',
        "LogicalImplication"@[2] == 'g',
        "LogicalImplication"@[3] == 'i',
        "LogicalImplication"@[4] == 'c',
        "LogicalImplication"@[5] == 'a',
        "LogicalImplication"@[6] == 'l',
        "LogicalImplication"@[7] == 'I',
        "LogicalImplication"@[8] == 'm',
        "LogicalImplication"@[9] == 'p',
        "LogicalImplication"@[10] == 'l',
        "LogicalImplication"@[11] == 'i',
        "LogicalImplication"@[12] == 'c',
        "LogicalImplication"@[13] == 'a',
        "LogicalImplication"@[14] == 't',
        "LogicalImplication"@[15] == 'i',
        "LogicalImplication"@[16] == 'o',
        "LogicalImplication"@[17] == 'n',
        "LogicalOr"@.len() == 9,
        "LogicalOr"@[0] == 'L',
        "LogicalOr"@[1] == 'o',
        "LogicalOr"@[2] == 'g',
        "LogicalOr"@[3] == 'i',
        "LogicalOr"@[4] == 'c',
        "LogicalOr"@[5] == 'a',
        "LogicalOr"@[6] == 'l',
        "LogicalOr"@[7] == 'O',
        "LogicalOr"@[8] == 'r',
        "LogicalShiftLeft"@.len() == 16,
        "LogicalShiftLeft"@[0] == 'L',
        "LogicalShiftLeft"@[1] == 'o',
        "LogicalShiftLeft"@[2] == 'g',
        "LogicalShiftLeft"@[3] == 'i',
        "LogicalShiftLeft"@[4] == 'c',
        "LogicalShiftLeft"@[5] == 'a',
        "LogicalShiftLeft"@[6] == 'l',
        "LogicalShiftLeft"@[7] == 'S',
        "LogicalShiftLeft"@[8] == 'h',
        "LogicalShiftLeft"@[9] == 'i',
        "LogicalShiftLeft"@[10] == 'f',
        "LogicalShiftLeft"@[11] == 't',
        "LogicalShiftLeft"@[12] == 'L',
        "LogicalShiftLeft"@[13] == 'e',
        "LogicalShiftLeft"@[14] == 'f',
        "LogicalShiftLeft"@[15] == 't',
        "LogicalShiftRight"@.len() == 17,
        "Mod"@.len() == 3,
        "Mod"@[0] == 'M',
        "Mod"@[1] == 'o',
        "Mod"@[2] == 'd',
        "Multiply"@.len() == 8,
        "Multiply"@[0] == 'M',
        "Multiply"@[1] == 'u',
        "Multiply"@[2] == 'l',
        "Multiply"@[3] == 't',
        "Multiply"@[4] == 'i',
        "Multiply"@[5] == 'p',
        "Multiply"@[6] == 'l',
        "Multiply"@[7] == 'y',
        "Power"@.len() == 5,
        "Subtract"@.len() == 8,
        "Subtract"@[0] == 'S',
        "Subtract"@[1] == 'u',
        "Subtract"@[2] == 'b',
        "Subtract"@[3] == 't',
        "Subtract"@[4] == 'r',
        "Subtract"@[5] == 'a',
        "Subtract"@[6] == 'c',
        "Subtract"@[7] == 't',
        "WildcardEquality"@.len() == 16,
        "WildcardEquality"@[0] == 'W',
        "WildcardEquality"@[1] == 'i',
        "WildcardEquality"@[2] == 'l',
        "WildcardEquality"@[3] == 'd',
        "WildcardEquality"@[4] == 'c',
        "WildcardEquality"@[5] == 'a',
        "WildcardEquality"@[6] == 'r',
        "WildcardEquality"@[7] == 'd',
        "WildcardEquality"@[8] == 'E',
        "WildcardEquality"@[9] == 'q',
        "WildcardEquality"@[10] == 'u',
        "WildcardEquality"@[11] == 'a',
        "WildcardEquality"@[12] == 'l',
        "WildcardEquality"@[13] == 'i',
        "WildcardEquality"@[14] == 't',
        "WildcardEquality"@[15] == 'y',
        "WildcardInequality"@.len() == 18,
        "WildcardInequality"@[0] == 'W',
        "WildcardInequality"@[1] == 'i',
        "WildcardInequality"@[2] == 'l',
        "WildcardInequality"@[3] == 'd',
        "WildcardInequality"@[4] == 'c',
        "WildcardInequality"@[5] == 'a',
        "WildcardInequality"@[6] == 'r',
        "WildcardInequality"@[7] == 'd',
        "WildcardInequality"@[8] == 'I',
        "WildcardInequality"@[9] == 'n',
        "WildcardInequality"@[10] == 'e',
        "WildcardInequality"@[11] == 'q',
        "WildcardInequality"@[12] == 'u',
        "WildcardInequality"@[13] == 'a',
        "WildcardInequality"@[14] == 'l',
        "WildcardInequality"@[15] == 'i',
        "WildcardInequality"@[16] == 't',
        "WildcardInequality"@[17] == 'y',
{
    reveal_strlit("Add");
    reveal_strlit("ArithmeticShiftLeft");
    reveal_strlit("ArithmeticShiftRight");
    reveal_strlit("BinaryAnd");
    reveal_strlit("BinaryOr");
    reveal_strlit("BinaryXnor");
    reveal_strlit("BinaryXor");
    reveal_strlit("CaseEquality");
    reveal_strlit("CaseInequality");
    reveal_strlit("Divide");
    reveal_strlit("Equality");
    reveal_strlit("GreaterThan");
    reveal_strlit("GreaterThanEqual");
    reveal_strlit("Inequality");
    reveal_strlit("LessThan");
    reveal_strlit("LessThanEqual");
    reveal_strlit("LogicalAnd");
    reveal_strlit("LogicalEquivalence");
    reveal_strlit("LogicalImplication");
    reveal_strlit("LogicalOr");
    reveal_strlit("LogicalShiftLeft");
    reveal_strlit("LogicalShiftRight");
    reveal_strlit("Mod");
    reveal_strlit("Multiply");
    reveal_strlit("Power");
    reveal_strlit("Subtract");
    reveal_strlit("WildcardEquality");
    reveal_strlit("WildcardInequality");
}

/// The name that slang gives each binary operator of the typed AST: the variant's own name.
pub open spec fn typed_binary_op_name(op: BinaryOp) -> Seq<char> {
    match op {
        BinaryOp::Add => "Add"@,
        BinaryOp::Subtract => "Subtract"@,
        BinaryOp::Multiply => "Multiply"@,
        BinaryOp::Divide => "Divide"@,
        BinaryOp::Mod => "Mod"@,
        BinaryOp::BinaryAnd => "BinaryAnd"@,
        BinaryOp::BinaryOr => "BinaryOr"@,
        BinaryOp::BinaryXor => "BinaryXor"@,
        BinaryOp::BinaryXnor => "BinaryXnor"@,
        BinaryOp::Equality => "Equality"@,
        BinaryOp::Inequality => "Inequality"@,
        BinaryOp::CaseEquality => "CaseEquality"@,
        BinaryOp::CaseInequality => "CaseInequality"@,
        BinaryOp::GreaterThanEqual => "GreaterThanEqual"@,
        BinaryOp::GreaterThan => "GreaterThan"@,
        BinaryOp::LessThanEqual => "LessThanEqual"@,
        BinaryOp::LessThan => "LessThan"@,
        BinaryOp::WildcardEquality => "WildcardEquality"@,
        BinaryOp::WildcardInequality => "WildcardInequality"@,
        BinaryOp::LogicalAnd => "LogicalAnd"@,
        BinaryOp::LogicalOr => "LogicalOr"@,
        BinaryOp::LogicalImplication => "LogicalImplication"@,
        BinaryOp::LogicalEquivalence => "LogicalEquivalence"@,
        BinaryOp::LogicalShiftLeft => "LogicalShiftLeft"@,
        BinaryOp::LogicalShiftRight => "LogicalShiftRight"@,
        BinaryOp::ArithmeticShiftLeft => "ArithmeticShiftLeft"@,
        BinaryOp::ArithmeticShiftRight => "ArithmeticShiftRight"@,
        BinaryOp::Power => "Power"@,
    }
}

/// Reading the name of a binary operator of the typed AST gives that operator back, so different
/// operators never lower to the same one; any other text is refused with a
/// message that quotes it.
pub proof fn law_typed_binary_ops(op: BinaryOp, s: Seq<char>)
    ensures
        crate::ast::expr::binary_op_of(typed_binary_op_name(op)) == Ok::<BinaryOp, SpecError>(op),
        (typed_binary_op_name(BinaryOp::Add) != s && typed_binary_op_name(BinaryOp::Subtract) != s && typed_binary_op_name(BinaryOp::Multiply) != s && typed_binary_op_name(BinaryOp::Divide) != s && typed_binary_op_name(BinaryOp::Mod) != s && typed_binary_op_name(BinaryOp::BinaryAnd) != s && typed_binary_op_name(BinaryOp::BinaryOr) != s && typed_binary_op_name(BinaryOp::BinaryXor) != s && typed_binary_op_name(BinaryOp::BinaryXnor) != s && typed_binary_op_name(BinaryOp::Equality) != s && typed_binary_op_name(BinaryOp::Inequality) != s && typed_binary_op_name(BinaryOp::CaseEquality) != s && typed_binary_op_name(BinaryOp::CaseInequality) != s && typed_binary_op_name(BinaryOp::GreaterThanEqual) != s && typed_binary_op_name(BinaryOp::GreaterThan) != s && typed_binary_op_name(BinaryOp::LessThanEqual) != s && typed_binary_op_name(BinaryOp::LessThan) != s && typed_binary_op_name(BinaryOp::WildcardEquality) != s && typed_binary_op_name(BinaryOp::WildcardInequality) != s && typed_binary_op_name(BinaryOp::LogicalAnd) != s && typed_binary_op_name(BinaryOp::LogicalOr) != s && typed_binary_op_name(BinaryOp::LogicalImplication) != s && typed_binary_op_name(BinaryOp::LogicalEquivalence) != s && typed_binary_op_name(BinaryOp::LogicalShiftLeft) != s && typed_binary_op_name(BinaryOp::LogicalShiftRight) != s && typed_binary_op_name(BinaryOp::ArithmeticShiftLeft) != s && typed_binary_op_name(BinaryOp::ArithmeticShiftRight) != s && typed_binary_op_name(BinaryOp::Power) != s) ==> crate::ast::expr::binary_op_of(s) == Err::<BinaryOp, SpecError>(SpecError::Message("unknown binary operator `"@ + s + "`"@)),
{
    lemma_typed_binary_op_names();
}

proof fn lemma_scalar_kind_names()
    ensures
        "Bit"@.len() == 3,
        "Bit"@[0] == 'B',
        "Bit"@[1] == 'i',
        "Bit"@[2] == 't',
        "Logic"@.len() == 5,
        "Logic"@[0] == 'L',
        "Logic"@[1] == 'o',
        "Logic"@[2] == 'g',
        "Logic"@[3] == 'i',
        "Logic"@[4] == 'c',
        "Reg"@.len() == 3,
        "Reg"@[0] == 'R',
        "Reg"@[1] == 'e',
        "Reg"@[2] == 'g',
        "bit"@.len() == 3,
        "bit"@[0] == 'b',
        "bit"@[1] == 'i',
        "bit"@[2] == 't',
        "logic"@.len() == 5,
        "logic"@[0] == 'l',
        "logic"@[1] == 'o',
        "logic"@[2] == 'g',
        "logic"@[3] == 'i',
        "logic"@[4] == 'c',
        "reg"@.len() == 3,
        "reg"@[0] == 'r',
        "reg"@[1] == 'e',
        "reg"@[2] == 'g',
{
    reveal_strlit("Bit");
    reveal_strlit("Logic");
    reveal_strlit("Reg");
    reveal_strlit("bit");
    reveal_strlit("logic");
    reveal_strlit("reg");
}

/// The SystemVerilog keyword of each scalar kind.
pub open spec fn scalar_keyword(k: SpecScalarKind) -> Seq<char> {
    match k {
        SpecScalarKind::Bit => "bit"@,
        SpecScalarKind::Logic => "logic"@,
        SpecScalarKind::Reg => "reg"@,
        SpecScalarKind::Unknown(t) => t,
    }
}

/// The name of each scalar kind as slang's enumeration spells it.
pub open spec fn scalar_kind_name(k: SpecScalarKind) -> Seq<char> {
    match k {
        SpecScalarKind::Bit => "Bit"@,
        SpecScalarKind::Logic => "Logic"@,
        SpecScalarKind::Reg => "Reg"@,
        SpecScalarKind::Unknown(t) => t,
    }
}

/// Both spellings of a scalar kind read back as that kind, so different kinds
/// never lower to the same one; any other text is kept as `Unknown` of that
/// text, and a missing one as `Unknown("<missing>")`.
pub proof fn law_scalar_kinds(k: SpecScalarKind, s: Seq<char>)
    ensures
        !(k is Unknown) ==> scalar_kind_of(Some(scalar_keyword(k))) == k,
        !(k is Unknown) ==> scalar_kind_of(Some(scalar_kind_name(k))) == k,
        (scalar_keyword(SpecScalarKind::Bit) != s && scalar_keyword(SpecScalarKind::Logic) != s && scalar_keyword(SpecScalarKind::Reg) != s && scalar_kind_name(SpecScalarKind::Bit) != s && scalar_kind_name(SpecScalarKind::Logic) != s && scalar_kind_name(SpecScalarKind::Reg) != s) ==> scalar_kind_of(Some(s)) == SpecScalarKind::Unknown(s),
        scalar_kind_of(None) == SpecScalarKind::Unknown("<missing>"@),
{
    lemma_scalar_kind_names();
}

proof fn lemma_integer_kind_names()
    ensures
        "Byte"@.len() == 4,
        "Byte"@[0] == 'B',
        "Byte"@[1] == 'y',
        "Byte"@[2] == 't',
        "Byte"@[3] == 'e',
        "Int"@.len() == 3,
        "Int"@[0] == 'I',
        "Int"@[1] == 'n',
        "Int"@[2] == 't',
        "Integer"@.len() == 7,
        "Integer"@[0] == 'I',
        "Integer"@[1] == 'n',
        "Integer"@[2] == 't',
        "Integer"@[3] == 'e',
        "Integer"@[4] == 'g',
        "Integer"@[5] == 'e',
        "Integer"@[6] == 'r',
        "LongInt"@.len() == 7,
        "LongInt"@[0] == 'L',
        "LongInt"@[1] == 'o',
        "LongInt"@[2] == 'n',
        "LongInt"@[3] == 'g',
        "LongInt"@[4] == 'I',
        "LongInt"@[5] == 'n',
        "LongInt"@[6] == 't',
        "ShortInt"@.len() == 8,
        "ShortInt"@[0] == 'S',
        "ShortInt"@[1] == 'h',
        "ShortInt"@[2] == 'o',
        "ShortInt"@[3] == 'r',
        "ShortInt"@[4] == 't',
        "ShortInt"@[5] == 'I',
        "ShortInt"@[6] == 'n',
        "ShortInt"@[7] == 't',
        "Time"@.len() == 4,
        "Time"@[0] == 'T',
        "Time"@[1] == 'i',
        "Time"@[2] == 'm',
        "Time"@[3] == 'e',
        "byte"@.len() == 4,
        "byte"@[0] == 'b',
        "byte"@[1] == 'y',
        "byte"@[2] == 't',
        "byte"@[3] == 'e',
        "int"@.len() == 3,
        "int"@[0] == 'i',
        "int"@[1] == 'n',
        "int"@[2] == 't',
        "integer"@.len() == 7,
        "integer"@[0] == 'i',
        "integer"@[1] == 'n',
        "integer"@[2] == 't',
        "integer"@[3] == 'e',
        "integer"@[4] == 'g',
        "integer"@[5] == 'e',
        "integer"@[6] == 'r',
        "longint"@.len() == 7,
        "longint"@[0] == 'l',
        "longint"@[1] == 'o',
        "longint"@[2] == 'n',
        "longint"@[3] == 'g',
        "longint"@[4] == 'i',
        "longint"@[5] == 'n',
        "longint"@[6] == 't',
        "shortint"@.len() == 8,
        "shortint"@[0] == 's',
        "shortint"@[1] == 'h',
        "shortint"@[2] == 'o',
        "shortint"@[3] == 'r',
        "shortint"@[4] == 't',
        "shortint"@[5] == 'i',
        "shortint"@[6] == 'n',
        "shortint"@[7] == 't',
        "time"@.len() == 4,
        "time"@[0] == 't',
        "time"@[1] == 'i',
        "time"@[2] == 'm',
        "time"@[3] == 'e',
{
    reveal_strlit("Byte");
    reveal_strlit("Int");
    reveal_strlit("Integer");
    reveal_strlit("LongInt");
    reveal_strlit("ShortInt");
    reveal_strlit("Time");
    reveal_strlit("byte");
    reveal_strlit("int");
    reveal_strlit("integer");
    reveal_strlit("longint");
    reveal_strlit("shortint");
    reveal_strlit("time");
}

/// The SystemVerilog keyword of each predefined integer kind.
pub open spec fn integer_keyword(k: SpecPredefinedIntegerKind) -> Seq<char> {
    match k {
        SpecPredefinedIntegerKind::ShortInt => "shortint"@,
        SpecPredefinedIntegerKind::Int => "int"@,
        SpecPredefinedIntegerKind::LongInt => "longint"@,
        SpecPredefinedIntegerKind::Byte => "byte"@,
        SpecPredefinedIntegerKind::Integer => "integer"@,
        SpecPredefinedIntegerKind::Time => "time"@,
        SpecPredefinedIntegerKind::Unknown(t) => t,
    }
}

/// The name of each predefined integer kind as slang's enumeration spells it.
pub open spec fn integer_kind_name(k: SpecPredefinedIntegerKind) -> Seq<char> {
    match k {
        SpecPredefinedIntegerKind::ShortInt => "ShortInt"@,
        SpecPredefinedIntegerKind::Int => "Int"@,
        SpecPredefinedIntegerKind::LongInt => "LongInt"@,
        SpecPredefinedIntegerKind::Byte => "Byte"@,
        SpecPredefinedIntegerKind::Integer => "Integer"@,
        SpecPredefinedIntegerKind::Time => "Time"@,
        SpecPredefinedIntegerKind::Unknown(t) => t,
    }
}

/// Both spellings of a predefined integer kind read back as that kind, so different kinds
/// never lower to the same one; any other text is kept as `Unknown` of that
/// text, and a missing one as `Unknown("<missing>")`.
pub proof fn law_integer_kinds(k: SpecPredefinedIntegerKind, s: Seq<char>)
    ensures
        !(k is Unknown) ==> predefined_integer_kind_of(Some(integer_keyword(k))) == k,
        !(k is Unknown) ==> predefined_integer_kind_of(Some(integer_kind_name(k))) == k,
        (integer_keyword(SpecPredefinedIntegerKind::ShortInt) != s && integer_keyword(SpecPredefinedIntegerKind::Int) != s && integer_keyword(SpecPredefinedIntegerKind::LongInt) != s && integer_keyword(SpecPredefinedIntegerKind::Byte) != s && integer_keyword(SpecPredefinedIntegerKind::Integer) != s && integer_keyword(SpecPredefinedIntegerKind::Time) != s && integer_kind_name(SpecPredefinedIntegerKind::ShortInt) != s && integer_kind_name(SpecPredefinedIntegerKind::Int) != s && integer_kind_name(SpecPredefinedIntegerKind::LongInt) != s && integer_kind_name(SpecPredefinedIntegerKind::Byte) != s && integer_kind_name(SpecPredefinedIntegerKind::Integer) != s && integer_kind_name(SpecPredefinedIntegerKind::Time) != s) ==> predefined_integer_kind_of(Some(s)) == SpecPredefinedIntegerKind::Unknown(s),
        predefined_integer_kind_of(None) == SpecPredefinedIntegerKind::Unknown("<missing>"@),
{
    lemma_integer_kind_names();
}

proof fn lemma_floating_kind_names()
    ensures
        "Real"@.len() == 4,
        "Real"@[0] == 'R',
        "Real"@[1] == 'e',
        "Real"@[2] == 'a',
        "Real"@[3] == 'l',
        "RealTime"@.len() == 8,
        "RealTime"@[0] == 'R',
        "RealTime"@[1] == 'e',
        "RealTime"@[2] == 'a',
        "RealTime"@[3] == 'l',
        "RealTime"@[4] == 'T',
        "RealTime"@[5] == 'i',
        "RealTime"@[6] == 'm',
        "RealTime"@[7] == 'e',
        "ShortReal"@.len() == 9,
        "ShortReal"@[0] == 'S',
        "ShortReal"@[1] == 'h',
        "ShortReal"@[2] == 'o',
        "ShortReal"@[3] == 'r',
        "ShortReal"@[4] == 't',
        "ShortReal"@[5] == 'R',
        "ShortReal"@[6] == 'e',
        "ShortReal"@[7] == 'a',
        "ShortReal"@[8] == 'l',
        "real"@.len() == 4,
        "real"@[0] == 'r',
        "real"@[1] == 'e',
        "real"@[2] == 'a',
        "real"@[3] == 'l',
        "realtime"@.len() == 8,
        "realtime"@[0] == 'r',
        "realtime"@[1] == 'e',
        "realtime"@[2] == 'a',
        "realtime"@[3] == 'l',
        "realtime"@[4] == 't',
        "realtime"@[5] == 'i',
        "realtime"@[6] == 'm',
        "realtime"@[7] == 'e',
        "shortreal"@.len() == 9,
        "shortreal"@[0] == 's',
        "shortreal"@[1] == 'h',
        "shortreal"@[2] == 'o',
        "shortreal"@[3] == 'r',
        "shortreal"@[4] == 't',
        "shortreal"@[5] == 'r',
        "shortreal"@[6] == 'e',
        "shortreal"@[7] == 'a',
        "shortreal"@[8] == 'l',
{
    reveal_strlit("Real");
    reveal_strlit("RealTime");
    reveal_strlit("ShortReal");
    reveal_strlit("real");
    reveal_strlit("realtime");
    reveal_strlit("shortreal");
}

/// The SystemVerilog keyword of each floating kind.
pub open spec fn floating_keyword(k: SpecFloatingKind) -> Seq<char> {
    match k {
        SpecFloatingKind::Real => "real"@,
        SpecFloatingKind::ShortReal => "shortreal"@,
        SpecFloatingKind::RealTime => "realtime"@,
        SpecFloatingKind::Unknown(t) => t,
    }
}

/// The name of each floating kind as slang's enumeration spells it.
pub open spec fn floating_kind_name(k: SpecFloatingKind) -> Seq<char> {
    match k {
        SpecFloatingKind::Real => "Real"@,
        SpecFloatingKind::ShortReal => "ShortReal"@,
        SpecFloatingKind::RealTime => "RealTime"@,
        SpecFloatingKind::Unknown(t) => t,
    }
}

/// Both spellings of a floating kind read back as that kind, so different kinds
/// never lower to the same one; any other text is kept as `Unknown` of that
/// text, and a missing one as `Unknown("<missing>")`.
pub proof fn law_floating_kinds(k: SpecFloatingKind, s: Seq<char>)
    ensures
        !(k is Unknown) ==> floating_kind_of(Some(floating_keyword(k))) == k,
        !(k is Unknown) ==> floating_kind_of(Some(floating_kind_name(k))) == k,
        (floating_keyword(SpecFloatingKind::Real) != s && floating_keyword(SpecFloatingKind::ShortReal) != s && floating_keyword(SpecFloatingKind::RealTime) != s && floating_kind_name(SpecFloatingKind::Real) != s && floating_kind_name(SpecFloatingKind::ShortReal) != s && floating_kind_name(SpecFloatingKind::RealTime) != s) ==> floating_kind_of(Some(s)) == SpecFloatingKind::Unknown(s),
        floating_kind_of(None) == SpecFloatingKind::Unknown("<missing>"@),
{
    lemma_floating_kind_names();
}

proof fn lemma_type_keywords()
    ensures
        "$"@.len() == 1,
        "bit"@.len() == 3,
        "bit"@[0] == 'b',
        "bit"@[1] == 'i',
        "bit"@[2] == 't',
        "byte"@.len() == 4,
        "byte"@[0] == 'b',
        "byte"@[1] == 'y',
        "byte"@[2] == 't',
        "byte"@[3] == 'e',
        "chandle"@.len() == 7,
        "chandle"@[0] == 'c',
        "chandle"@[1] == 'h',
        "chandle"@[2] == 'a',
        "chandle"@[3] == 'n',
        "chandle"@[4] == 'd',
        "chandle"@[5] == 'l',
        "chandle"@[6] == 'e',
        "event"@.len() == 5,
        "event"@[0] == 'e',
        "event"@[1] == 'v',
        "event"@[2] == 'e',
        "event"@[3] == 'n',
        "event"@[4] == 't',
        "int"@.len() == 3,
        "int"@[0] == 'i',
        "int"@[1] == 'n',
        "int"@[2] == 't',
        "integer"@.len() == 7,
        "integer"@[0] == 'i',
        "integer"@[1] == 'n',
        "integer"@[2] == 't',
        "integer"@[3] == 'e',
        "integer"@[4] == 'g',
        "integer"@[5] == 'e',
        "integer"@[6] == 'r',
        "logic"@.len() == 5,
        "logic"@[0] == 'l',
        "logic"@[1] == 'o',
        "logic"@[2] == 'g',
        "logic"@[3] == 'i',
        "logic"@[4] == 'c',
        "longint"@.len() == 7,
        "longint"@[0] == 'l',
        "longint"@[1] == 'o',
        "longint"@[2] == 'n',
        "longint"@[3] == 'g',
        "longint"@[4] == 'i',
        "longint"@[5] == 'n',
        "longint"@[6] == 't',
        "null"@.len() == 4,
        "null"@[0] == 'n',
        "null"@[1] == 'u',
        "null"@[2] == 'l',
        "null"@[3] == 'l',
        "property"@.len() == 8,
        "property"@[0] == 'p',
        "property"@[1] == 'r',
        "property"@[2] == 'o',
        "property"@[3] == 'p',
        "property"@[4] == 'e',
        "property"@[5] == 'r',
        "property"@[6] == 't',
        "property"@[7] == 'y',
        "real"@.len() == 4,
        "real"@[0] == 'r',
        "real"@[1] == 'e',
        "real"@[2] == 'a',
        "real"@[3] == 'l',
        "realtime"@.len() == 8,
        "realtime"@[0] == 'r',
        "realtime"@[1] == 'e',
        "realtime"@[2] == 'a',
        "realtime"@[3] == 'l',
        "realtime"@[4] == 't',
        "realtime"@[5] == 'i',
        "realtime"@[6] == 'm',
        "realtime"@[7] == 'e',
        "reg"@.len() == 3,
        "reg"@[0] == 'r',
        "reg"@[1] == 'e',
        "reg"@[2] == 'g',
        "sequence"@.len() == 8,
        "sequence"@[0] == 's',
        "sequence"@[1] == 'e',
        "sequence"@[2] == 'q',
        "sequence"@[3] == 'u',
        "sequence"@[4] == 'e',
        "sequence"@[5] == 'n',
        "sequence"@[6] == 'c',
        "sequence"@[7] == 'e',
        "shortint"@.len() == 8,
        "shortint"@[0] == 's',
        "shortint"@[1] == 'h',
        "shortint"@[2] == 'o',
        "shortint"@[3] == 'r',
        "shortint"@[4] == 't',
        "shortint"@[5] == 'i',
        "shortint"@[6] == 'n',
        "shortint"@[7] == 't',
        "shortreal"@.len() == 9,
        "string"@.len() == 6,
        "time"@.len() == 4,
        "time"@[0] == 't',
        "time"@[1] == 'i',
        "time"@[2] == 'm',
        "time"@[3] == 'e',
        "type reference"@.len() == 14,
        "untyped"@.len() == 7,
        "untyped"@[0] == 'u',
        "untyped"@[1] == 'n',
        "untyped"@[2] == 't',
        "untyped"@[3] == 'y',
        "untyped"@[4] == 'p',
        "untyped"@[5] == 'e',
        "untyped"@[6] == 'd',
        "void"@.len() == 4,
        "void"@[0] == 'v',
        "void"@[1] == 'o',
        "void"@[2] == 'i',
        "void"@[3] == 'd',
{
    reveal_strlit("$");
    reveal_strlit("bit");
    reveal_strlit("byte");
    reveal_strlit("chandle");
    reveal_strlit("event");
    reveal_strlit("int");
    reveal_strlit("integer");
    reveal_strlit("logic");
    reveal_strlit("longint");
    reveal_strlit("null");
    reveal_strlit("property");
    reveal_strlit("real");
    reveal_strlit("realtime");
    reveal_strlit("reg");
    reveal_strlit("sequence");
    reveal_strlit("shortint");
    reveal_strlit("shortreal");
    reveal_strlit("string");
    reveal_strlit("time");
    reveal_strlit("type reference");
    reveal_strlit("untyped");
    reveal_strlit("void");
}

/// The keyword that type text uses for each type it names without a
/// parameter.
pub open spec fn plain_type_keyword(t: SpecDataType) -> Option<Seq<char>> {
    match t {
        SpecDataType::Floating(SpecFloatingKind::Real) => Some("real"@),
        SpecDataType::Floating(SpecFloatingKind::ShortReal) => Some("shortreal"@),
        SpecDataType::Floating(SpecFloatingKind::RealTime) => Some("realtime"@),
        SpecDataType::Void => Some("void"@),
        SpecDataType::Null => Some("null"@),
        SpecDataType::CHandle => Some("chandle"@),
        SpecDataType::String => Some("string"@),
        SpecDataType::Event => Some("event"@),
        SpecDataType::Unbounded => Some("$"@),
        SpecDataType::TypeRef => Some("type reference"@),
        SpecDataType::Untyped => Some("untyped"@),
        SpecDataType::Sequence => Some("sequence"@),
        SpecDataType::Property => Some("property"@),
        _ => None,
    }
}

/// In type text, a scalar keyword names that scalar kind, unsigned unless a
/// sign word says otherwise; an integer keyword names that integer kind,
/// signed by default except `time`; each other keyword names its own type;
/// any other words name an unknown type that keeps the whole text.
pub proof fn law_type_keywords(
    sk: SpecScalarKind,
    ik: SpecPredefinedIntegerKind,
    t: SpecDataType,
    signed: Option<bool>,
    name: Seq<char>,
    text: Seq<char>,
)
    ensures
        !(sk is Unknown) ==> base_type_of(scalar_keyword(sk), signed, text) == (SpecDataType::Scalar(
            SpecScalarType {
                kind: sk,
                signed: match signed {
                    Some(b) => b,
                    None => false,
                },
            },
        )),
        !(ik is Unknown) ==> base_type_of(integer_keyword(ik), signed, text)
            == (SpecDataType::PredefinedInteger(SpecPredefinedIntegerType {
            kind: ik,
            signed: match signed {
                Some(b) => b,
                None => ik != SpecPredefinedIntegerKind::Time,
            },
        })),
        plain_type_keyword(t) is Some ==> base_type_of(plain_type_keyword(t).unwrap(), signed, text) == t,
        name != "bit"@ && name != "logic"@ && name != "reg"@ && name != "shortint"@ && name != "int"@ && name != "longint"@ && name != "byte"@ && name != "integer"@ && name != "time"@ && name != "real"@ && name != "shortreal"@ && name != "realtime"@ && name != "void"@ && name != "null"@ && name != "chandle"@ && name != "string"@ && name != "event"@ && name != "$"@ && name != "type reference"@ && name != "untyped"@ && name != "sequence"@ && name != "property"@ ==> base_type_of(name, signed, text) == (SpecDataType::Unknown {
            kind: "StringType"@,
            name: Some(text),
        }),
{
    lemma_type_keywords();
}

} // verus!
