//! `Clone` for the IR types. The IR is recursive, so each clone is written
//! out and proved to give back an equal value.
use vstd::prelude::*;

use crate::ir::{
    stmts_model, AssertionKind, BinaryOp, Design, Edge, EventControl, Expr, Module, Parameter,
    Port, PortDirection, ProcedureBlock, ProcedureKind, Signal, SourceLoc, SourceSpan, Stmt,
    SymbolRef, UnaryOp,
};

verus! {

broadcast use vstd::std_specs::vec::group_vec_axioms;

impl Clone for SourceLoc {
    fn clone(&self) -> (r: Self)
        ensures
            r == *self,
    {
        SourceLoc { file: self.file.clone(), line: self.line, column: self.column }
    }
}

impl Clone for SourceSpan {
    fn clone(&self) -> (r: Self)
        ensures
            r == *self,
    {
        SourceSpan {
            file: self.file.clone(),
            line_start: self.line_start,
            column_start: self.column_start,
            line_end: self.line_end,
            column_end: self.column_end,
        }
    }
}

impl Clone for SymbolRef {
    fn clone(&self) -> (r: Self)
        ensures
            r == *self,
    {
        SymbolRef { id: self.id, name: self.name.clone() }
    }
}

impl Clone for UnaryOp {
    fn clone(&self) -> (r: Self)
        ensures
            r == *self,
    {
        match self {
            UnaryOp::LogicalNot => UnaryOp::LogicalNot,
            UnaryOp::BitwiseNot => UnaryOp::BitwiseNot,
            UnaryOp::Plus => UnaryOp::Plus,
            UnaryOp::Minus => UnaryOp::Minus,
            UnaryOp::Unknown(s) => UnaryOp::Unknown(s.clone()),
        }
    }
}

impl Clone for BinaryOp {
    fn clone(&self) -> (r: Self)
        ensures
            r == *self,
    {
        match self {
            BinaryOp::Add => BinaryOp::Add,
            BinaryOp::Subtract => BinaryOp::Subtract,
            BinaryOp::Multiply => BinaryOp::Multiply,
            BinaryOp::Divide => BinaryOp::Divide,
            BinaryOp::Mod => BinaryOp::Mod,
            BinaryOp::LogicalAnd => BinaryOp::LogicalAnd,
            BinaryOp::LogicalOr => BinaryOp::LogicalOr,
            BinaryOp::BitwiseAnd => BinaryOp::BitwiseAnd,
            BinaryOp::BitwiseOr => BinaryOp::BitwiseOr,
            BinaryOp::BitwiseXor => BinaryOp::BitwiseXor,
            BinaryOp::Equality => BinaryOp::Equality,
            BinaryOp::Inequality => BinaryOp::Inequality,
            BinaryOp::LessThan => BinaryOp::LessThan,
            BinaryOp::LessThanEqual => BinaryOp::LessThanEqual,
            BinaryOp::GreaterThan => BinaryOp::GreaterThan,
            BinaryOp::GreaterThanEqual => BinaryOp::GreaterThanEqual,
            BinaryOp::ShiftLeft => BinaryOp::ShiftLeft,
            BinaryOp::ShiftRight => BinaryOp::ShiftRight,
            BinaryOp::Unknown(s) => BinaryOp::Unknown(s.clone()),
        }
    }
}

impl Clone for Expr {
    fn clone(&self) -> (r: Self)
        ensures
            r == *self,
        decreases self,
    {
        match self {
            Expr::NamedValue { symbol, ty, constant, source } => Expr::NamedValue {
                symbol: symbol.clone(),
                ty: ty.clone(),
                constant: constant.clone(),
                source: source.clone(),
            },
            Expr::IntegerLiteral { value, ty, constant, source } => Expr::IntegerLiteral {
                value: value.clone(),
                ty: ty.clone(),
                constant: constant.clone(),
                source: source.clone(),
            },
            Expr::Unary { op, expr, ty, constant, source } => Expr::Unary {
                op: op.clone(),
                expr: Box::new((**expr).clone()),
                ty: ty.clone(),
                constant: constant.clone(),
                source: source.clone(),
            },
            Expr::Binary { op, left, right, ty, constant, source } => Expr::Binary {
                op: op.clone(),
                left: Box::new((**left).clone()),
                right: Box::new((**right).clone()),
                ty: ty.clone(),
                constant: constant.clone(),
                source: source.clone(),
            },
            Expr::Conversion { ty, expr, constant, source } => Expr::Conversion {
                ty: ty.clone(),
                expr: Box::new((**expr).clone()),
                constant: constant.clone(),
                source: source.clone(),
            },
            Expr::Assignment { left, right, nonblocking, ty, source } => Expr::Assignment {
                left: Box::new((**left).clone()),
                right: Box::new((**right).clone()),
                nonblocking: *nonblocking,
                ty: ty.clone(),
                source: source.clone(),
            },
            Expr::Unknown { kind, ty, source } => Expr::Unknown {
                kind: kind.clone(),
                ty: ty.clone(),
                source: source.clone(),
            },
        }
    }
}

impl Clone for PortDirection {
    fn clone(&self) -> (r: Self)
        ensures
            r == *self,
    {
        match self {
            PortDirection::In => PortDirection::In,
            PortDirection::Out => PortDirection::Out,
            PortDirection::InOut => PortDirection::InOut,
            PortDirection::Ref => PortDirection::Ref,
            PortDirection::Unknown(s) => PortDirection::Unknown(s.clone()),
        }
    }
}

impl Clone for ProcedureKind {
    fn clone(&self) -> (r: Self)
        ensures
            r == *self,
    {
        match self {
            ProcedureKind::Always => ProcedureKind::Always,
            ProcedureKind::Initial => ProcedureKind::Initial,
            ProcedureKind::Final => ProcedureKind::Final,
            ProcedureKind::Unknown(s) => ProcedureKind::Unknown(s.clone()),
        }
    }
}

impl Clone for AssertionKind {
    fn clone(&self) -> (r: Self)
        ensures
            r == *self,
    {
        match self {
            AssertionKind::Assert => AssertionKind::Assert,
            AssertionKind::Assume => AssertionKind::Assume,
            AssertionKind::Cover => AssertionKind::Cover,
            AssertionKind::Unknown(s) => AssertionKind::Unknown(s.clone()),
        }
    }
}

impl Clone for Edge {
    fn clone(&self) -> (r: Self)
        ensures
            r == *self,
    {
        match self {
            Edge::Pos => Edge::Pos,
            Edge::Neg => Edge::Neg,
            Edge::Any => Edge::Any,
            Edge::Unknown(s) => Edge::Unknown(s.clone()),
        }
    }
}

impl Clone for Port {
    fn clone(&self) -> (r: Self)
        ensures
            r == *self,
    {
        Port {
            name: self.name.clone(),
            direction: self.direction.clone(),
            ty: self.ty.clone(),
            internal_symbol: self.internal_symbol.clone(),
            source: self.source.clone(),
        }
    }
}

impl Clone for Signal {
    fn clone(&self) -> (r: Self)
        ensures
            r == *self,
    {
        Signal {
            name: self.name.clone(),
            kind: self.kind,
            ty: self.ty.clone(),
            source: self.source.clone(),
        }
    }
}

impl Clone for Parameter {
    fn clone(&self) -> (r: Self)
        ensures
            r == *self,
    {
        Parameter {
            name: self.name.clone(),
            ty: self.ty.clone(),
            value: self.value.clone(),
            initializer: self.initializer.clone(),
            source: self.source.clone(),
        }
    }
}

impl Clone for EventControl {
    fn clone(&self) -> (r: Self)
        ensures
            r == *self,
    {
        match self {
            EventControl::Signal { edge, expr, source } => EventControl::Signal {
                edge: edge.clone(),
                expr: expr.clone(),
                source: source.clone(),
            },
            EventControl::Unknown { kind, source } => EventControl::Unknown {
                kind: kind.clone(),
                source: source.clone(),
            },
        }
    }
}

proof fn lemma_stmts_model_push(s: Seq<Stmt>, x: Stmt)
    ensures
        stmts_model(s.push(x)) == stmts_model(s).push(x@),
{
    assert(s.push(x).drop_last() =~= s);
}

impl Clone for Stmt {
    /// A statement with the same model; a block's statements are cloned one
    /// by one.
    #[verifier::loop_isolation(false)]
    fn clone(&self) -> (r: Self)
        ensures
            r@ == self@,
        decreases self,
    {
        match self {
            Stmt::Empty { source } => Stmt::Empty { source: source.clone() },
            Stmt::Block { kind, statements, source } => {
                let mut out: Vec<Stmt> = Vec::new();
                let mut i: usize = 0;
                while i < statements.len()
                    invariant
                        i <= statements@.len(),
                        stmts_model(out@) == stmts_model(statements@.take(i as int)),
                    decreases statements.len() - i,
                {
                    proof {
                        assert(decreases_to!(*statements => statements@[i as int]));
                    }
                    let c = statements[i].clone();
                    proof {
                        lemma_stmts_model_push(out@, c);
                        lemma_stmts_model_push(statements@.take(i as int), statements@[i as int]);
                        assert(statements@.take(i + 1) =~= statements@.take(i as int).push(
                            statements@[i as int],
                        ));
                    }
                    out.push(c);
                    i += 1;
                }
                assert(statements@.take(i as int) =~= statements@);
                Stmt::Block { kind: kind.clone(), statements: out, source: source.clone() }
            },
            Stmt::Timed { event, stmt, source } => Stmt::Timed {
                event: event.clone(),
                stmt: Box::new((**stmt).clone()),
                source: source.clone(),
            },
            Stmt::If { conditions, then_branch, else_branch, source } => {
                let cs = conditions.clone();
                assert(cs@ =~= conditions@);
                let e = match else_branch {
                    Some(b) => Some(Box::new((**b).clone())),
                    None => None,
                };
                Stmt::If {
                    conditions: cs,
                    then_branch: Box::new((**then_branch).clone()),
                    else_branch: e,
                    source: source.clone(),
                }
            },
            Stmt::Assign { left, right, nonblocking, ty, source } => Stmt::Assign {
                left: left.clone(),
                right: right.clone(),
                nonblocking: *nonblocking,
                ty: ty.clone(),
                source: source.clone(),
            },
            Stmt::Expr { expr, source } => Stmt::Expr { expr: expr.clone(), source: source.clone() },
            Stmt::Assert { kind, condition, action, source } => {
                let a = match action {
                    Some(b) => Some(Box::new((**b).clone())),
                    None => None,
                };
                Stmt::Assert {
                    kind: kind.clone(),
                    condition: condition.clone(),
                    action: a,
                    source: source.clone(),
                }
            },
            Stmt::Unknown { kind, source } => Stmt::Unknown {
                kind: kind.clone(),
                source: source.clone(),
            },
        }
    }
}

impl Clone for ProcedureBlock {
    fn clone(&self) -> (r: Self)
        ensures
            r@ == self@,
    {
        ProcedureBlock {
            kind: self.kind.clone(),
            body: self.body.clone(),
            source: self.source.clone(),
        }
    }
}

impl Clone for Module {
    fn clone(&self) -> (r: Self)
        ensures
            r@ == self@,
    {
        let parameters = self.parameters.clone();
        let ports = self.ports.clone();
        let nets = self.nets.clone();
        let variables = self.variables.clone();
        let procedures = self.procedures.clone();
        assert(parameters@ =~= self.parameters@);
        assert(ports@ =~= self.ports@);
        assert(nets@ =~= self.nets@);
        assert(variables@ =~= self.variables@);
        assert(procedures@.map_values(|p: ProcedureBlock| p@) =~= self.procedures@.map_values(
            |p: ProcedureBlock| p@,
        ));
        Module {
            name: self.name.clone(),
            source: self.source.clone(),
            parameters,
            ports,
            nets,
            variables,
            procedures,
        }
    }
}

impl Clone for Design {
    fn clone(&self) -> (r: Self)
        ensures
            r@ == self@,
    {
        let modules = self.modules.clone();
        assert(modules@.map_values(|m: Module| m@) =~= self.modules@.map_values(|m: Module| m@));
        Design { modules }
    }
}

} // verus!
