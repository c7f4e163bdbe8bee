//! `Clone` for the typed AST. Types, expressions and statements are
//! recursive, so each clone is written out and proved to keep the model.
use vstd::prelude::*;

use super::design::Design;
use super::expr::{exprs_model, Expr};
use super::module::{Module, Parameter, Port, ProcedureBlock, Signal};
use super::statement::{stmts_model, EventControl, Stmt};
use super::types::{
    fields_model, opt_type, DataType, EnumValue, FloatingKind, FloatingType,
    PredefinedIntegerKind, PredefinedIntegerType, ScalarKind, ScalarType, TypeDecl, TypeField,
    TypeRange,
};

verus! {

broadcast use vstd::std_specs::vec::group_vec_axioms;

impl Clone for ScalarKind {
    fn clone(&self) -> (r: Self)
        ensures
            r == *self,
    {
        match self {
            ScalarKind::Bit => ScalarKind::Bit,
            ScalarKind::Logic => ScalarKind::Logic,
            ScalarKind::Reg => ScalarKind::Reg,
            ScalarKind::Unknown(s) => ScalarKind::Unknown(s.clone()),
        }
    }
}

impl Clone for PredefinedIntegerKind {
    fn clone(&self) -> (r: Self)
        ensures
            r == *self,
    {
        match self {
            PredefinedIntegerKind::ShortInt => PredefinedIntegerKind::ShortInt,
            PredefinedIntegerKind::Int => PredefinedIntegerKind::Int,
            PredefinedIntegerKind::LongInt => PredefinedIntegerKind::LongInt,
            PredefinedIntegerKind::Byte => PredefinedIntegerKind::Byte,
            PredefinedIntegerKind::Integer => PredefinedIntegerKind::Integer,
            PredefinedIntegerKind::Time => PredefinedIntegerKind::Time,
            PredefinedIntegerKind::Unknown(s) => PredefinedIntegerKind::Unknown(s.clone()),
        }
    }
}

impl Clone for FloatingKind {
    fn clone(&self) -> (r: Self)
        ensures
            r == *self,
    {
        match self {
            FloatingKind::Real => FloatingKind::Real,
            FloatingKind::ShortReal => FloatingKind::ShortReal,
            FloatingKind::RealTime => FloatingKind::RealTime,
            FloatingKind::Unknown(s) => FloatingKind::Unknown(s.clone()),
        }
    }
}

impl Clone for ScalarType {
    fn clone(&self) -> (r: Self)
        ensures
            r == *self,
    {
        ScalarType { kind: self.kind.clone(), signed: self.signed }
    }
}

impl Clone for PredefinedIntegerType {
    fn clone(&self) -> (r: Self)
        ensures
            r == *self,
    {
        PredefinedIntegerType { kind: self.kind.clone(), signed: self.signed }
    }
}

impl Clone for FloatingType {
    fn clone(&self) -> (r: Self)
        ensures
            r == *self,
    {
        FloatingType { kind: self.kind.clone() }
    }
}

impl Clone for TypeRange {
    fn clone(&self) -> (r: Self)
        ensures
            r == *self,
    {
        match self {
            TypeRange::Range { left, right } => TypeRange::Range { left: *left, right: *right },
            TypeRange::Unknown(s) => TypeRange::Unknown(s.clone()),
        }
    }
}

impl Clone for EnumValue {
    fn clone(&self) -> (r: Self)
        ensures
            r == *self,
    {
        EnumValue { name: self.name.clone(), value: self.value.clone(), source: self.source.clone() }
    }
}

proof fn lemma_fields_model_push(s: Seq<TypeField>, x: TypeField)
    ensures
        fields_model(s.push(x)) == fields_model(s).push(x@),
{
    assert(s.push(x).drop_last() =~= s);
}

/// A copy of an optional type, with the same model.
fn clone_opt_type(t: &Option<DataType>) -> (r: Option<DataType>)
    ensures
        opt_type(r) == opt_type(*t),
{
    match t {
        Some(x) => Some(x.clone()),
        None => None,
    }
}

impl Clone for DataType {
    /// A type with the same model; the fields of a struct or union are cloned
    /// one by one.
    #[verifier::loop_isolation(false)]
    fn clone(&self) -> (r: Self)
        ensures
            r@ == self@,
        decreases self, 1int,
    {
        match self {
            DataType::Scalar(s) => DataType::Scalar(s.clone()),
            DataType::PredefinedInteger(p) => DataType::PredefinedInteger(p.clone()),
            DataType::Floating(f) => DataType::Floating(f.clone()),
            DataType::PackedArray { element, range } => DataType::PackedArray {
                element: Box::new((**element).clone()),
                range: range.clone(),
            },
            DataType::FixedSizeUnpackedArray { element, range } => DataType::FixedSizeUnpackedArray {
                element: Box::new((**element).clone()),
                range: range.clone(),
            },
            DataType::DynamicArray { element } => DataType::DynamicArray {
                element: Box::new((**element).clone()),
            },
            DataType::DpiOpenArray { element, packed } => DataType::DpiOpenArray {
                element: Box::new((**element).clone()),
                packed: *packed,
            },
            DataType::AssociativeArray { element, index } => {
                let i = match index {
                    Some(x) => Some(Box::new((**x).clone())),
                    None => None,
                };
                DataType::AssociativeArray { element: Box::new((**element).clone()), index: i }
            },
            DataType::Queue { element, max_bound } => DataType::Queue {
                element: Box::new((**element).clone()),
                max_bound: *max_bound,
            },
            DataType::Enum { name, base, values } => {
                let vs = values.clone();
                assert(vs@ =~= values@);
                DataType::Enum { name: name.clone(), base: Box::new((**base).clone()), values: vs }
            },
            DataType::PackedStruct { name, signed, fields } => DataType::PackedStruct {
                name: name.clone(),
                signed: *signed,
                fields: clone_fields(self, fields),
            },
            DataType::UnpackedStruct { name, fields } => DataType::UnpackedStruct {
                name: name.clone(),
                fields: clone_fields(self, fields),
            },
            DataType::PackedUnion { name, signed, tagged, fields } => DataType::PackedUnion {
                name: name.clone(),
                signed: *signed,
                tagged: *tagged,
                fields: clone_fields(self, fields),
            },
            DataType::UnpackedUnion { name, tagged, fields } => DataType::UnpackedUnion {
                name: name.clone(),
                tagged: *tagged,
                fields: clone_fields(self, fields),
            },
            DataType::Void => DataType::Void,
            DataType::Null => DataType::Null,
            DataType::CHandle => DataType::CHandle,
            DataType::String => DataType::String,
            DataType::Event => DataType::Event,
            DataType::Unbounded => DataType::Unbounded,
            DataType::TypeRef => DataType::TypeRef,
            DataType::Untyped => DataType::Untyped,
            DataType::Sequence => DataType::Sequence,
            DataType::Property => DataType::Property,
            DataType::VirtualInterface { name, iface, modport, real_iface } => DataType::VirtualInterface {
                name: name.clone(),
                iface: iface.clone(),
                modport: modport.clone(),
                real_iface: *real_iface,
            },
            DataType::Alias { name, target } => DataType::Alias {
                name: name.clone(),
                target: target.clone(),
            },
            DataType::Error => DataType::Error,
            DataType::Unknown { kind, name } => DataType::Unknown {
                kind: kind.clone(),
                name: name.clone(),
            },
        }
    }
}

/// Copies the fields `fields` of the struct or union type `owner`.
#[verifier::loop_isolation(false)]
fn clone_fields(owner: &DataType, fields: &Vec<TypeField>) -> (r: Vec<TypeField>)
    requires
        match *owner {
            DataType::PackedStruct { fields: f, .. } => f == *fields,
            DataType::UnpackedStruct { fields: f, .. } => f == *fields,
            DataType::PackedUnion { fields: f, .. } => f == *fields,
            DataType::UnpackedUnion { fields: f, .. } => f == *fields,
            _ => false,
        },
    ensures
        fields_model(r@) == fields_model(fields@),
    decreases owner, 0int,
{
    let mut out: Vec<TypeField> = Vec::new();
    let mut i: usize = 0;
    while i < fields.len()
        invariant
            i <= fields@.len(),
            fields_model(out@) == fields_model(fields@.take(i as int)),
        decreases fields.len() - i,
    {
        let f = &fields[i];
        proof {
            assert(decreases_to!(*fields => fields@[i as int]));
            assert(decreases_to!(fields@[i as int] => fields@[i as int].ty));
        }
        let c = TypeField { name: f.name.clone(), ty: f.ty.clone(), source: f.source.clone() };
        proof {
            lemma_fields_model_push(out@, c);
            lemma_fields_model_push(fields@.take(i as int), fields@[i as int]);
            assert(fields@.take(i + 1) =~= fields@.take(i as int).push(fields@[i as int]));
        }
        out.push(c);
        i += 1;
    }
    assert(fields@.take(i as int) =~= fields@);
    out
}

impl Clone for TypeField {
    fn clone(&self) -> (r: Self)
        ensures
            r@ == self@,
    {
        TypeField { name: self.name.clone(), ty: self.ty.clone(), source: self.source.clone() }
    }
}

impl Clone for TypeDecl {
    fn clone(&self) -> (r: Self)
        ensures
            r@ == self@,
    {
        TypeDecl { name: self.name.clone(), ty: self.ty.clone(), source: self.source.clone() }
    }
}

proof fn lemma_exprs_model_push(s: Seq<Expr>, x: Expr)
    ensures
        exprs_model(s.push(x)) == exprs_model(s).push(x@),
{
    assert(s.push(x).drop_last() =~= s);
}

impl Clone for Expr {
    /// An expression with the same model; the operands of a concatenation
    /// are cloned one by one.
    #[verifier::loop_isolation(false)]
    fn clone(&self) -> (r: Self)
        ensures
            r@ == self@,
        decreases self,
    {
        match self {
            Expr::NamedValue { symbol, ty, constant, source } => Expr::NamedValue {
                symbol: symbol.clone(),
                ty: clone_opt_type(ty),
                constant: constant.clone(),
                source: source.clone(),
            },
            Expr::IntegerLiteral { value, ty, constant, source } => Expr::IntegerLiteral {
                value: value.clone(),
                ty: clone_opt_type(ty),
                constant: constant.clone(),
                source: source.clone(),
            },
            Expr::Unary { op, expr, ty, constant, source } => Expr::Unary {
                op: *op,
                expr: Box::new((**expr).clone()),
                ty: clone_opt_type(ty),
                constant: constant.clone(),
                source: source.clone(),
            },
            Expr::Binary { op, left, right, ty, constant, source } => Expr::Binary {
                op: *op,
                left: Box::new((**left).clone()),
                right: Box::new((**right).clone()),
                ty: clone_opt_type(ty),
                constant: constant.clone(),
                source: source.clone(),
            },
            Expr::Concatenation { operands, ty, constant, source } => {
                let mut out: Vec<Expr> = Vec::new();
                let mut i: usize = 0;
                while i < operands.len()
                    invariant
                        i <= operands@.len(),
                        exprs_model(out@) == exprs_model(operands@.take(i as int)),
                    decreases operands.len() - i,
                {
                    proof {
                        assert(decreases_to!(*operands => operands@[i as int]));
                    }
                    let c = operands[i].clone();
                    proof {
                        lemma_exprs_model_push(out@, c);
                        lemma_exprs_model_push(operands@.take(i as int), operands@[i as int]);
                        assert(operands@.take(i + 1) =~= operands@.take(i as int).push(
                            operands@[i as int],
                        ));
                    }
                    out.push(c);
                    i += 1;
                }
                assert(operands@.take(i as int) =~= operands@);
                Expr::Concatenation {
                    operands: out,
                    ty: clone_opt_type(ty),
                    constant: constant.clone(),
                    source: source.clone(),
                }
            },
            Expr::Replication { count, concat, ty, constant, source } => Expr::Replication {
                count: Box::new((**count).clone()),
                concat: Box::new((**concat).clone()),
                ty: clone_opt_type(ty),
                constant: constant.clone(),
                source: source.clone(),
            },
            Expr::Conversion { ty, expr, constant, source } => Expr::Conversion {
                ty: clone_opt_type(ty),
                expr: Box::new((**expr).clone()),
                constant: constant.clone(),
                source: source.clone(),
            },
            Expr::Assignment { left, right, nonblocking, ty, source } => Expr::Assignment {
                left: Box::new((**left).clone()),
                right: Box::new((**right).clone()),
                nonblocking: *nonblocking,
                ty: clone_opt_type(ty),
                source: source.clone(),
            },
            Expr::Unknown { kind, ty, source } => Expr::Unknown {
                kind: kind.clone(),
                ty: clone_opt_type(ty),
                source: source.clone(),
            },
        }
    }
}

impl Clone for EventControl {
    fn clone(&self) -> (r: Self)
        ensures
            r@ == self@,
    {
        match self {
            EventControl::Signal { edge, expr, source } => EventControl::Signal {
                edge: edge.clone(),
                expr: expr.clone(),
                source: source.clone(),
            },
            EventControl::Unknown { kind, source } => EventControl::Unknown {
                kind: kind.clone(),
                source: source.clone(),
            },
        }
    }
}

proof fn lemma_stmts_model_push(s: Seq<Stmt>, x: Stmt)
    ensures
        stmts_model(s.push(x)) == stmts_model(s).push(x@),
{
    assert(s.push(x).drop_last() =~= s);
}

/// A copy of a sequence of expressions, with the same models.
fn clone_exprs(v: &Vec<Expr>) -> (r: Vec<Expr>)
    ensures
        exprs_model(r@) == exprs_model(v@),
{
    let mut out: Vec<Expr> = Vec::new();
    let mut i: usize = 0;
    while i < v.len()
        invariant
            i <= v@.len(),
            exprs_model(out@) == exprs_model(v@.take(i as int)),
        decreases v.len() - i,
    {
        let c = v[i].clone();
        proof {
            lemma_exprs_model_push(out@, c);
            lemma_exprs_model_push(v@.take(i as int), v@[i as int]);
            assert(v@.take(i + 1) =~= v@.take(i as int).push(v@[i as int]));
        }
        out.push(c);
        i += 1;
    }
    assert(v@.take(i as int) =~= v@);
    out
}

impl Clone for Stmt {
    /// A statement with the same model; a block's statements are cloned one
    /// by one.
    #[verifier::loop_isolation(false)]
    fn clone(&self) -> (r: Self)
        ensures
            r@ == self@,
        decreases self,
    {
        match self {
            Stmt::Empty { source } => Stmt::Empty { source: source.clone() },
            Stmt::Block { kind, statements, source } => {
                let mut out: Vec<Stmt> = Vec::new();
                let mut i: usize = 0;
                while i < statements.len()
                    invariant
                        i <= statements@.len(),
                        stmts_model(out@) == stmts_model(statements@.take(i as int)),
                    decreases statements.len() - i,
                {
                    proof {
                        assert(decreases_to!(*statements => statements@[i as int]));
                    }
                    let c = statements[i].clone();
                    proof {
                        lemma_stmts_model_push(out@, c);
                        lemma_stmts_model_push(statements@.take(i as int), statements@[i as int]);
                        assert(statements@.take(i + 1) =~= statements@.take(i as int).push(
                            statements@[i as int],
                        ));
                    }
                    out.push(c);
                    i += 1;
                }
                assert(statements@.take(i as int) =~= statements@);
                Stmt::Block { kind: kind.clone(), statements: out, source: source.clone() }
            },
            Stmt::Timed { event, stmt, source } => Stmt::Timed {
                event: event.clone(),
                stmt: Box::new((**stmt).clone()),
                source: source.clone(),
            },
            Stmt::If { conditions, then_branch, else_branch, source } => {
                let e = match else_branch {
                    Some(b) => Some(Box::new((**b).clone())),
                    None => None,
                };
                Stmt::If {
                    conditions: clone_exprs(conditions),
                    then_branch: Box::new((**then_branch).clone()),
                    else_branch: e,
                    source: source.clone(),
                }
            },
            Stmt::Assign { left, right, nonblocking, ty, source } => Stmt::Assign {
                left: left.clone(),
                right: right.clone(),
                nonblocking: *nonblocking,
                ty: clone_opt_type(ty),
                source: source.clone(),
            },
            Stmt::Expr { expr, source } => Stmt::Expr { expr: expr.clone(), source: source.clone() },
            Stmt::Assert { kind, condition, action, source } => {
                let a = match action {
                    Some(b) => Some(Box::new((**b).clone())),
                    None => None,
                };
                Stmt::Assert {
                    kind: kind.clone(),
                    condition: condition.clone(),
                    action: a,
                    source: source.clone(),
                }
            },
            Stmt::Unknown { kind, source } => Stmt::Unknown {
                kind: kind.clone(),
                source: source.clone(),
            },
        }
    }
}

impl Clone for Parameter {
    fn clone(&self) -> (r: Self)
        ensures
            r@ == self@,
    {
        let initializer = match &self.initializer {
            Some(e) => Some(e.clone()),
            None => None,
        };
        Parameter {
            name: self.name.clone(),
            ty: self.ty.clone(),
            value: self.value.clone(),
            initializer,
            source: self.source.clone(),
        }
    }
}

impl Clone for Port {
    fn clone(&self) -> (r: Self)
        ensures
            r@ == self@,
    {
        Port {
            name: self.name.clone(),
            direction: self.direction.clone(),
            ty: self.ty.clone(),
            internal_symbol: self.internal_symbol.clone(),
            source: self.source.clone(),
        }
    }
}

impl Clone for Signal {
    fn clone(&self) -> (r: Self)
        ensures
            r@ == self@,
    {
        Signal { name: self.name.clone(), kind: self.kind, ty: self.ty.clone(), source: self.source.clone() }
    }
}

impl Clone for ProcedureBlock {
    fn clone(&self) -> (r: Self)
        ensures
            r@ == self@,
    {
        ProcedureBlock { kind: self.kind.clone(), body: self.body.clone(), source: self.source.clone() }
    }
}

impl Clone for Module {
    fn clone(&self) -> (r: Self)
        ensures
            r@ == self@,
    {
        let types = self.types.clone();
        let parameters = self.parameters.clone();
        let ports = self.ports.clone();
        let nets = self.nets.clone();
        let variables = self.variables.clone();
        let procedures = self.procedures.clone();
        assert(types@.map_values(|t: TypeDecl| t@) =~= self.types@.map_values(|t: TypeDecl| t@));
        assert(parameters@.map_values(|p: Parameter| p@) =~= self.parameters@.map_values(
            |p: Parameter| p@,
        ));
        assert(ports@.map_values(|p: Port| p@) =~= self.ports@.map_values(|p: Port| p@));
        assert(nets@.map_values(|s: Signal| s@) =~= self.nets@.map_values(|s: Signal| s@));
        assert(variables@.map_values(|s: Signal| s@) =~= self.variables@.map_values(
            |s: Signal| s@,
        ));
        assert(procedures@.map_values(|p: ProcedureBlock| p@) =~= self.procedures@.map_values(
            |p: ProcedureBlock| p@,
        ));
        Module {
            name: self.name.clone(),
            source: self.source.clone(),
            types,
            parameters,
            ports,
            nets,
            variables,
            procedures,
        }
    }
}

impl Clone for Design {
    fn clone(&self) -> (r: Self)
        ensures
            r@ == self@,
    {
        let modules = self.modules.clone();
        assert(modules@.map_values(|m: Module| m@) =~= self.modules@.map_values(|m: Module| m@));
        Design { modules }
    }
}

} // verus!
