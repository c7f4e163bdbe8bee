use vstd::prelude::*;

use crate::text::{parse_u64, parse_u64_spec, split_whitespace, split_ws, text_eq};

verus! {

broadcast use vstd::std_specs::vec::group_vec_axioms;

// ---------------------------------------------------------------- types

/// A lowered design: its top-level module instances.
#[derive(Debug, PartialEq, Eq)]
pub struct Design {
    pub modules: Vec<Module>,
}

/// A lowered module instance body.
#[derive(Debug, PartialEq, Eq)]
pub struct Module {
    pub name: String,
    pub source: Option<SourceLoc>,
    pub parameters: Vec<Parameter>,
    pub ports: Vec<Port>,
    pub nets: Vec<Signal>,
    pub variables: Vec<Signal>,
    pub procedures: Vec<ProcedureBlock>,
}

/// Where a symbol is declared.
#[derive(Debug, PartialEq, Eq)]
pub struct SourceLoc {
    pub file: String,
    pub line: u64,
    pub column: u64,
}

/// The text range that a statement or expression spans.
#[derive(Debug, PartialEq, Eq)]
pub struct SourceSpan {
    pub file: String,
    pub line_start: u64,
    pub column_start: u64,
    pub line_end: u64,
    pub column_end: u64,
}

#[derive(Debug, PartialEq, Eq)]
pub struct Parameter {
    pub name: String,
    pub ty: String,
    pub value: Option<String>,
    pub initializer: Option<Expr>,
    pub source: Option<SourceLoc>,
}

#[derive(Debug, PartialEq, Eq)]
pub struct Port {
    pub name: String,
    pub direction: PortDirection,
    pub ty: String,
    pub internal_symbol: Option<SymbolRef>,
    pub source: Option<SourceLoc>,
}

#[derive(Debug, PartialEq, Eq)]
pub enum PortDirection {
    In,
    Out,
    InOut,
    Ref,
    Unknown(String),
}

#[derive(Debug, PartialEq, Eq)]
pub struct Signal {
    pub name: String,
    pub kind: SignalKind,
    pub ty: String,
    pub source: Option<SourceLoc>,
}

#[derive(PartialEq, Eq, Structural, Clone, Copy, Debug)]
pub enum SignalKind {
    Net,
    Variable,
}

#[derive(Debug, PartialEq, Eq)]
pub struct ProcedureBlock {
    pub kind: ProcedureKind,
    pub body: Stmt,
    pub source: Option<SourceLoc>,
}

#[derive(Debug, PartialEq, Eq)]
pub enum ProcedureKind {
    Always,
    Initial,
    Final,
    Unknown(String),
}

#[derive(Debug, PartialEq, Eq)]
pub enum Stmt {
    Empty { source: Option<SourceSpan> },
    Block { kind: Option<String>, statements: Vec<Stmt>, source: Option<SourceSpan> },
    Timed { event: EventControl, stmt: Box<Stmt>, source: Option<SourceSpan> },
    If {
        conditions: Vec<Expr>,
        then_branch: Box<Stmt>,
        else_branch: Option<Box<Stmt>>,
        source: Option<SourceSpan>,
    },
    Assign {
        left: Expr,
        right: Expr,
        nonblocking: bool,
        ty: Option<String>,
        source: Option<SourceSpan>,
    },
    Expr { expr: Expr, source: Option<SourceSpan> },
    Assert {
        kind: AssertionKind,
        condition: Expr,
        action: Option<Box<Stmt>>,
        source: Option<SourceSpan>,
    },
    Unknown { kind: String, source: Option<SourceSpan> },
}

#[derive(Debug, PartialEq, Eq)]
pub enum AssertionKind {
    Assert,
    Assume,
    Cover,
    Unknown(String),
}

#[derive(Debug, PartialEq, Eq)]
pub enum EventControl {
    Signal { edge: Edge, expr: Expr, source: Option<SourceSpan> },
    Unknown { kind: String, source: Option<SourceSpan> },
}

#[derive(Debug, PartialEq, Eq)]
pub enum Edge {
    Pos,
    Neg,
    Any,
    Unknown(String),
}

#[derive(Debug, PartialEq, Eq)]
pub enum Expr {
    NamedValue {
        symbol: SymbolRef,
        ty: Option<String>,
        constant: Option<String>,
        source: Option<SourceSpan>,
    },
    IntegerLiteral {
        value: String,
        ty: Option<String>,
        constant: Option<String>,
        source: Option<SourceSpan>,
    },
    Unary {
        op: UnaryOp,
        expr: Box<Expr>,
        ty: Option<String>,
        constant: Option<String>,
        source: Option<SourceSpan>,
    },
    Binary {
        op: BinaryOp,
        left: Box<Expr>,
        right: Box<Expr>,
        ty: Option<String>,
        constant: Option<String>,
        source: Option<SourceSpan>,
    },
    Conversion {
        ty: Option<String>,
        expr: Box<Expr>,
        constant: Option<String>,
        source: Option<SourceSpan>,
    },
    Assignment {
        left: Box<Expr>,
        right: Box<Expr>,
        nonblocking: bool,
        ty: Option<String>,
        source: Option<SourceSpan>,
    },
    Unknown { kind: String, ty: Option<String>, source: Option<SourceSpan> },
}

/// A reference to a symbol, as slang writes it: `"<id> <name>"`.
#[derive(Debug, PartialEq, Eq)]
pub struct SymbolRef {
    pub id: Option<u64>,
    pub name: String,
}

#[derive(Debug, PartialEq, Eq)]
pub enum UnaryOp {
    LogicalNot,
    BitwiseNot,
    Plus,
    Minus,
    Unknown(String),
}

#[derive(Debug, PartialEq, Eq)]
pub enum BinaryOp {
    Add,
    Subtract,
    Multiply,
    Divide,
    Mod,
    LogicalAnd,
    LogicalOr,
    BitwiseAnd,
    BitwiseOr,
    BitwiseXor,
    Equality,
    Inequality,
    LessThan,
    LessThanEqual,
    GreaterThan,
    GreaterThanEqual,
    ShiftLeft,
    ShiftRight,
    Unknown(String),
}

// ---------------------------------------------------------------- models

pub struct SpecDesign {
    pub modules: Seq<SpecModule>,
}

pub struct SpecModule {
    pub name: Seq<char>,
    pub source: Option<SpecSourceLoc>,
    pub parameters: Seq<SpecParameter>,
    pub ports: Seq<SpecPort>,
    pub nets: Seq<SpecSignal>,
    pub variables: Seq<SpecSignal>,
    pub procedures: Seq<SpecProcedureBlock>,
}

pub struct SpecSourceLoc {
    pub file: Seq<char>,
    pub line: u64,
    pub column: u64,
}

pub struct SpecSourceSpan {
    pub file: Seq<char>,
    pub line_start: u64,
    pub column_start: u64,
    pub line_end: u64,
    pub column_end: u64,
}

pub struct SpecParameter {
    pub name: Seq<char>,
    pub ty: Seq<char>,
    pub value: Option<Seq<char>>,
    pub initializer: Option<SpecExpr>,
    pub source: Option<SpecSourceLoc>,
}

pub struct SpecPort {
    pub name: Seq<char>,
    pub direction: SpecPortDirection,
    pub ty: Seq<char>,
    pub internal_symbol: Option<SpecSymbolRef>,
    pub source: Option<SpecSourceLoc>,
}

pub enum SpecPortDirection {
    In,
    Out,
    InOut,
    Ref,
    Unknown(Seq<char>),
}

pub struct SpecSignal {
    pub name: Seq<char>,
    pub kind: SignalKind,
    pub ty: Seq<char>,
    pub source: Option<SpecSourceLoc>,
}

pub struct SpecProcedureBlock {
    pub kind: SpecProcedureKind,
    pub body: SpecStmt,
    pub source: Option<SpecSourceLoc>,
}

pub enum SpecProcedureKind {
    Always,
    Initial,
    Final,
    Unknown(Seq<char>),
}

pub enum SpecStmt {
    Empty { source: Option<SpecSourceSpan> },
    Block {
        kind: Option<Seq<char>>,
        statements: Seq<SpecStmt>,
        source: Option<SpecSourceSpan>,
    },
    Timed { event: SpecEventControl, stmt: Box<SpecStmt>, source: Option<SpecSourceSpan> },
    If {
        conditions: Seq<SpecExpr>,
        then_branch: Box<SpecStmt>,
        else_branch: Option<Box<SpecStmt>>,
        source: Option<SpecSourceSpan>,
    },
    Assign {
        left: SpecExpr,
        right: SpecExpr,
        nonblocking: bool,
        ty: Option<Seq<char>>,
        source: Option<SpecSourceSpan>,
    },
    Expr { expr: SpecExpr, source: Option<SpecSourceSpan> },
    Assert {
        kind: SpecAssertionKind,
        condition: SpecExpr,
        action: Option<Box<SpecStmt>>,
        source: Option<SpecSourceSpan>,
    },
    Unknown { kind: Seq<char>, source: Option<SpecSourceSpan> },
}

pub enum SpecAssertionKind {
    Assert,
    Assume,
    Cover,
    Unknown(Seq<char>),
}

pub enum SpecEventControl {
    Signal { edge: SpecEdge, expr: SpecExpr, source: Option<SpecSourceSpan> },
    Unknown { kind: Seq<char>, source: Option<SpecSourceSpan> },
}

pub enum SpecEdge {
    Pos,
    Neg,
    Any,
    Unknown(Seq<char>),
}

pub enum SpecExpr {
    NamedValue {
        symbol: SpecSymbolRef,
        ty: Option<Seq<char>>,
        constant: Option<Seq<char>>,
        source: Option<SpecSourceSpan>,
    },
    IntegerLiteral {
        value: Seq<char>,
        ty: Option<Seq<char>>,
        constant: Option<Seq<char>>,
        source: Option<SpecSourceSpan>,
    },
    Unary {
        op: SpecUnaryOp,
        expr: Box<SpecExpr>,
        ty: Option<Seq<char>>,
        constant: Option<Seq<char>>,
        source: Option<SpecSourceSpan>,
    },
    Binary {
        op: SpecBinaryOp,
        left: Box<SpecExpr>,
        right: Box<SpecExpr>,
        ty: Option<Seq<char>>,
        constant: Option<Seq<char>>,
        source: Option<SpecSourceSpan>,
    },
    Conversion {
        ty: Option<Seq<char>>,
        expr: Box<SpecExpr>,
        constant: Option<Seq<char>>,
        source: Option<SpecSourceSpan>,
    },
    Assignment {
        left: Box<SpecExpr>,
        right: Box<SpecExpr>,
        nonblocking: bool,
        ty: Option<Seq<char>>,
        source: Option<SpecSourceSpan>,
    },
    Unknown { kind: Seq<char>, ty: Option<Seq<char>>, source: Option<SpecSourceSpan> },
}

pub struct SpecSymbolRef {
    pub id: Option<u64>,
    pub name: Seq<char>,
}

pub enum SpecUnaryOp {
    LogicalNot,
    BitwiseNot,
    Plus,
    Minus,
    Unknown(Seq<char>),
}

pub enum SpecBinaryOp {
    Add,
    Subtract,
    Multiply,
    Divide,
    Mod,
    LogicalAnd,
    LogicalOr,
    BitwiseAnd,
    BitwiseOr,
    BitwiseXor,
    Equality,
    Inequality,
    LessThan,
    LessThanEqual,
    GreaterThan,
    GreaterThanEqual,
    ShiftLeft,
    ShiftRight,
    Unknown(Seq<char>),
}

// ---------------------------------------------------------------- views

/// The texts of an optional string.
pub open spec fn opt_text(o: Option<String>) -> Option<Seq<char>> {
    match o {
        Some(s) => Some(s@),
        None => None,
    }
}

impl View for SourceLoc {
    type V = SpecSourceLoc;

    open spec fn view(&self) -> SpecSourceLoc {
        SpecSourceLoc { file: self.file@, line: self.line, column: self.column }
    }
}

impl View for SourceSpan {
    type V = SpecSourceSpan;

    open spec fn view(&self) -> SpecSourceSpan {
        SpecSourceSpan {
            file: self.file@,
            line_start: self.line_start,
            column_start: self.column_start,
            line_end: self.line_end,
            column_end: self.column_end,
        }
    }
}

pub open spec fn opt_loc(o: Option<SourceLoc>) -> Option<SpecSourceLoc> {
    match o {
        Some(s) => Some(s@),
        None => None,
    }
}

pub open spec fn opt_span(o: Option<SourceSpan>) -> Option<SpecSourceSpan> {
    match o {
        Some(s) => Some(s@),
        None => None,
    }
}

impl View for SymbolRef {
    type V = SpecSymbolRef;

    open spec fn view(&self) -> SpecSymbolRef {
        SpecSymbolRef { id: self.id, name: self.name@ }
    }
}

impl View for PortDirection {
    type V = SpecPortDirection;

    open spec fn view(&self) -> SpecPortDirection {
        match self {
            PortDirection::In => SpecPortDirection::In,
            PortDirection::Out => SpecPortDirection::Out,
            PortDirection::InOut => SpecPortDirection::InOut,
            PortDirection::Ref => SpecPortDirection::Ref,
            PortDirection::Unknown(s) => SpecPortDirection::Unknown(s@),
        }
    }
}

impl View for ProcedureKind {
    type V = SpecProcedureKind;

    open spec fn view(&self) -> SpecProcedureKind {
        match self {
            ProcedureKind::Always => SpecProcedureKind::Always,
            ProcedureKind::Initial => SpecProcedureKind::Initial,
            ProcedureKind::Final => SpecProcedureKind::Final,
            ProcedureKind::Unknown(s) => SpecProcedureKind::Unknown(s@),
        }
    }
}

impl View for AssertionKind {
    type V = SpecAssertionKind;

    open spec fn view(&self) -> SpecAssertionKind {
        match self {
            AssertionKind::Assert => SpecAssertionKind::Assert,
            AssertionKind::Assume => SpecAssertionKind::Assume,
            AssertionKind::Cover => SpecAssertionKind::Cover,
            AssertionKind::Unknown(s) => SpecAssertionKind::Unknown(s@),
        }
    }
}

impl View for Edge {
    type V = SpecEdge;

    open spec fn view(&self) -> SpecEdge {
        match self {
            Edge::Pos => SpecEdge::Pos,
            Edge::Neg => SpecEdge::Neg,
            Edge::Any => SpecEdge::Any,
            Edge::Unknown(s) => SpecEdge::Unknown(s@),
        }
    }
}

impl View for UnaryOp {
    type V = SpecUnaryOp;

    open spec fn view(&self) -> SpecUnaryOp {
        match self {
            UnaryOp::LogicalNot => SpecUnaryOp::LogicalNot,
            UnaryOp::BitwiseNot => SpecUnaryOp::BitwiseNot,
            UnaryOp::Plus => SpecUnaryOp::Plus,
            UnaryOp::Minus => SpecUnaryOp::Minus,
            UnaryOp::Unknown(s) => SpecUnaryOp::Unknown(s@),
        }
    }
}

impl View for BinaryOp {
    type V = SpecBinaryOp;

    open spec fn view(&self) -> SpecBinaryOp {
        match self {
            BinaryOp::Add => SpecBinaryOp::Add,
            BinaryOp::Subtract => SpecBinaryOp::Subtract,
            BinaryOp::Multiply => SpecBinaryOp::Multiply,
            BinaryOp::Divide => SpecBinaryOp::Divide,
            BinaryOp::Mod => SpecBinaryOp::Mod,
            BinaryOp::LogicalAnd => SpecBinaryOp::LogicalAnd,
            BinaryOp::LogicalOr => SpecBinaryOp::LogicalOr,
            BinaryOp::BitwiseAnd => SpecBinaryOp::BitwiseAnd,
            BinaryOp::BitwiseOr => SpecBinaryOp::BitwiseOr,
            BinaryOp::BitwiseXor => SpecBinaryOp::BitwiseXor,
            BinaryOp::Equality => SpecBinaryOp::Equality,
            BinaryOp::Inequality => SpecBinaryOp::Inequality,
            BinaryOp::LessThan => SpecBinaryOp::LessThan,
            BinaryOp::LessThanEqual => SpecBinaryOp::LessThanEqual,
            BinaryOp::GreaterThan => SpecBinaryOp::GreaterThan,
            BinaryOp::GreaterThanEqual => SpecBinaryOp::GreaterThanEqual,
            BinaryOp::ShiftLeft => SpecBinaryOp::ShiftLeft,
            BinaryOp::ShiftRight => SpecBinaryOp::ShiftRight,
            BinaryOp::Unknown(s) => SpecBinaryOp::Unknown(s@),
        }
    }
}

/// The model of an expression.
pub open spec fn expr_model(e: Expr) -> SpecExpr
    decreases e,
{
    match e {
        Expr::NamedValue { symbol, ty, constant, source } => SpecExpr::NamedValue {
            symbol: symbol@,
            ty: opt_text(ty),
            constant: opt_text(constant),
            source: opt_span(source),
        },
        Expr::IntegerLiteral { value, ty, constant, source } => SpecExpr::IntegerLiteral {
            value: value@,
            ty: opt_text(ty),
            constant: opt_text(constant),
            source: opt_span(source),
        },
        Expr::Unary { op, expr, ty, constant, source } => SpecExpr::Unary {
            op: op@,
            expr: Box::new(expr_model(*expr)),
            ty: opt_text(ty),
            constant: opt_text(constant),
            source: opt_span(source),
        },
        Expr::Binary { op, left, right, ty, constant, source } => SpecExpr::Binary {
            op: op@,
            left: Box::new(expr_model(*left)),
            right: Box::new(expr_model(*right)),
            ty: opt_text(ty),
            constant: opt_text(constant),
            source: opt_span(source),
        },
        Expr::Conversion { ty, expr, constant, source } => SpecExpr::Conversion {
            ty: opt_text(ty),
            expr: Box::new(expr_model(*expr)),
            constant: opt_text(constant),
            source: opt_span(source),
        },
        Expr::Assignment { left, right, nonblocking, ty, source } => SpecExpr::Assignment {
            left: Box::new(expr_model(*left)),
            right: Box::new(expr_model(*right)),
            nonblocking,
            ty: opt_text(ty),
            source: opt_span(source),
        },
        Expr::Unknown { kind, ty, source } => SpecExpr::Unknown {
            kind: kind@,
            ty: opt_text(ty),
            source: opt_span(source),
        },
    }
}

impl View for Expr {
    type V = SpecExpr;

    open spec fn view(&self) -> SpecExpr {
        expr_model(*self)
    }
}

pub open spec fn opt_expr(o: Option<Expr>) -> Option<SpecExpr> {
    match o {
        Some(e) => Some(e@),
        None => None,
    }
}

pub open spec fn exprs_model(v: Seq<Expr>) -> Seq<SpecExpr> {
    v.map_values(|e: Expr| e@)
}

impl View for EventControl {
    type V = SpecEventControl;

    open spec fn view(&self) -> SpecEventControl {
        match self {
            EventControl::Signal { edge, expr, source } => SpecEventControl::Signal {
                edge: edge@,
                expr: expr@,
                source: opt_span(*source),
            },
            EventControl::Unknown { kind, source } => SpecEventControl::Unknown {
                kind: kind@,
                source: opt_span(*source),
            },
        }
    }
}

/// The model of a statement.
pub open spec fn stmt_model(s: Stmt) -> SpecStmt
    decreases s,
{
    match s {
        Stmt::Empty { source } => SpecStmt::Empty { source: opt_span(source) },
        Stmt::Block { kind, statements, source } => SpecStmt::Block {
            kind: opt_text(kind),
            statements: stmts_model(statements@),
            source: opt_span(source),
        },
        Stmt::Timed { event, stmt, source } => SpecStmt::Timed {
            event: event@,
            stmt: Box::new(stmt_model(*stmt)),
            source: opt_span(source),
        },
        Stmt::If { conditions, then_branch, else_branch, source } => SpecStmt::If {
            conditions: exprs_model(conditions@),
            then_branch: Box::new(stmt_model(*then_branch)),
            else_branch: match else_branch {
                Some(e) => Some(Box::new(stmt_model(*e))),
                None => None,
            },
            source: opt_span(source),
        },
        Stmt::Assign { left, right, nonblocking, ty, source } => SpecStmt::Assign {
            left: left@,
            right: right@,
            nonblocking,
            ty: opt_text(ty),
            source: opt_span(source),
        },
        Stmt::Expr { expr, source } => SpecStmt::Expr { expr: expr@, source: opt_span(source) },
        Stmt::Assert { kind, condition, action, source } => SpecStmt::Assert {
            kind: kind@,
            condition: condition@,
            action: match action {
                Some(a) => Some(Box::new(stmt_model(*a))),
                None => None,
            },
            source: opt_span(source),
        },
        Stmt::Unknown { kind, source } => SpecStmt::Unknown {
            kind: kind@,
            source: opt_span(source),
        },
    }
}

/// The models of a sequence of statements.
pub open spec fn stmts_model(v: Seq<Stmt>) -> Seq<SpecStmt>
    decreases v,
{
    if v.len() == 0 {
        seq![]
    } else {
        stmts_model(v.drop_last()).push(stmt_model(v.last()))
    }
}

impl View for Stmt {
    type V = SpecStmt;

    open spec fn view(&self) -> SpecStmt {
        stmt_model(*self)
    }
}

impl View for Parameter {
    type V = SpecParameter;

    open spec fn view(&self) -> SpecParameter {
        SpecParameter {
            name: self.name@,
            ty: self.ty@,
            value: opt_text(self.value),
            initializer: opt_expr(self.initializer),
            source: opt_loc(self.source),
        }
    }
}

impl View for Port {
    type V = SpecPort;

    open spec fn view(&self) -> SpecPort {
        SpecPort {
            name: self.name@,
            direction: self.direction@,
            ty: self.ty@,
            internal_symbol: match self.internal_symbol {
                Some(s) => Some(s@),
                None => None,
            },
            source: opt_loc(self.source),
        }
    }
}

impl View for Signal {
    type V = SpecSignal;

    open spec fn view(&self) -> SpecSignal {
        SpecSignal { name: self.name@, kind: self.kind, ty: self.ty@, source: opt_loc(self.source) }
    }
}

impl View for ProcedureBlock {
    type V = SpecProcedureBlock;

    open spec fn view(&self) -> SpecProcedureBlock {
        SpecProcedureBlock { kind: self.kind@, body: self.body@, source: opt_loc(self.source) }
    }
}

impl View for Module {
    type V = SpecModule;

    open spec fn view(&self) -> SpecModule {
        SpecModule {
            name: self.name@,
            source: opt_loc(self.source),
            parameters: self.parameters@.map_values(|p: Parameter| p@),
            ports: self.ports@.map_values(|p: Port| p@),
            nets: self.nets@.map_values(|s: Signal| s@),
            variables: self.variables@.map_values(|s: Signal| s@),
            procedures: self.procedures@.map_values(|p: ProcedureBlock| p@),
        }
    }
}

impl View for Design {
    type V = SpecDesign;

    open spec fn view(&self) -> SpecDesign {
        SpecDesign { modules: self.modules@.map_values(|m: Module| m@) }
    }
}


// ---------------------------------------------------------------- lookups

impl Default for Design {
    /// A design without modules.
    fn default() -> (r: Self)
        ensures
            r.modules@.len() == 0,
    {
        Design { modules: Vec::new() }
    }
}

impl Design {
    /// The first module named `name`.
    pub fn module(&self, name: &str) -> (r: Option<&Module>)
        ensures
            match r {
                Some(m) => exists|i: int|
                    0 <= i < self.modules@.len() && self.modules@[i] == *m && m.name@ == name@
                        && forall|k: int| 0 <= k < i ==> self.modules@[k].name@ != name@,
                None => forall|i: int|
                    0 <= i < self.modules@.len() ==> self.modules@[i].name@ != name@,
            },
    {
        let mut i: usize = 0;
        while i < self.modules.len()
            invariant
                i <= self.modules@.len(),
                forall|k: int| 0 <= k < i ==> self.modules@[k].name@ != name@,
            decreases self.modules.len() - i,
        {
            if text_eq(self.modules[i].name.as_str(), name) {
                return Some(&self.modules[i]);
            }
            i += 1;
        }
        None
    }
}

impl Module {
    /// The first port named `name`.
    pub fn port(&self, name: &str) -> (r: Option<&Port>)
        ensures
            match r {
                Some(p) => exists|i: int|
                    0 <= i < self.ports@.len() && self.ports@[i] == *p && p.name@ == name@
                        && forall|k: int| 0 <= k < i ==> self.ports@[k].name@ != name@,
                None => forall|i: int|
                    0 <= i < self.ports@.len() ==> self.ports@[i].name@ != name@,
            },
    {
        let mut i: usize = 0;
        while i < self.ports.len()
            invariant
                i <= self.ports@.len(),
                forall|k: int| 0 <= k < i ==> self.ports@[k].name@ != name@,
            decreases self.ports.len() - i,
        {
            if text_eq(self.ports[i].name.as_str(), name) {
                return Some(&self.ports[i]);
            }
            i += 1;
        }
        None
    }

    /// The first variable named `name`.
    pub fn variable(&self, name: &str) -> (r: Option<&Signal>)
        ensures
            match r {
                Some(v) => exists|i: int|
                    0 <= i < self.variables@.len() && self.variables@[i] == *v && v.name@ == name@
                        && forall|k: int| 0 <= k < i ==> self.variables@[k].name@ != name@,
                None => forall|i: int|
                    0 <= i < self.variables@.len() ==> self.variables@[i].name@ != name@,
            },
    {
        let mut i: usize = 0;
        while i < self.variables.len()
            invariant
                i <= self.variables@.len(),
                forall|k: int| 0 <= k < i ==> self.variables@[k].name@ != name@,
            decreases self.variables.len() - i,
        {
            if text_eq(self.variables[i].name.as_str(), name) {
                return Some(&self.variables[i]);
            }
            i += 1;
        }
        None
    }
}

// ---------------------------------------------------------------- statements

/// The source span of a statement, whatever its variant.
pub open spec fn stmt_source(s: Stmt) -> Option<SourceSpan> {
    match s {
        Stmt::Empty { source } => source,
        Stmt::Block { source, .. } => source,
        Stmt::Timed { source, .. } => source,
        Stmt::If { source, .. } => source,
        Stmt::Assign { source, .. } => source,
        Stmt::Expr { source, .. } => source,
        Stmt::Assert { source, .. } => source,
        Stmt::Unknown { source, .. } => source,
    }
}

/// A statement followed by all statements nested in it, depth first, in
/// source order: the order in which `for_each` visits them.
pub open spec fn stmt_preorder(s: Stmt) -> Seq<Stmt>
    decreases s,
{
    seq![s] + match s {
        Stmt::Block { statements, .. } => stmts_preorder(statements@),
        Stmt::Timed { stmt, .. } => stmt_preorder(*stmt),
        Stmt::If { then_branch, else_branch, .. } => stmt_preorder(*then_branch) + match else_branch {
            Some(e) => stmt_preorder(*e),
            None => seq![],
        },
        Stmt::Assert { action, .. } => match action {
            Some(a) => stmt_preorder(*a),
            None => seq![],
        },
        _ => seq![],
    }
}

/// The preorders of a sequence of statements, one after the other.
pub open spec fn stmts_preorder(v: Seq<Stmt>) -> Seq<Stmt>
    decreases v,
{
    if v.len() == 0 {
        seq![]
    } else {
        stmts_preorder(v.drop_last()) + stmt_preorder(v.last())
    }
}

/// `out` holds references to the statements `pre`, in order.
pub open spec fn refs_to<'a>(out: Seq<&'a Stmt>, pre: Seq<Stmt>) -> bool {
    &&& out.len() == pre.len()
    &&& forall|i: int| 0 <= i < out.len() ==> *out[i] == pre[i]
}

impl Stmt {
    /// The source span of this statement.
    pub fn source(&self) -> (r: Option<&SourceSpan>)
        ensures
            match r {
                Some(s) => stmt_source(*self) == Some(*s),
                None => stmt_source(*self) is None,
            },
    {
        match self {
            Stmt::Empty { source } => source.as_ref(),
            Stmt::Block { source, .. } => source.as_ref(),
            Stmt::Timed { source, .. } => source.as_ref(),
            Stmt::If { source, .. } => source.as_ref(),
            Stmt::Assign { source, .. } => source.as_ref(),
            Stmt::Expr { source, .. } => source.as_ref(),
            Stmt::Assert { source, .. } => source.as_ref(),
            Stmt::Unknown { source, .. } => source.as_ref(),
        }
    }

    fn collect_preorder<'a>(&'a self, out: &mut Vec<&'a Stmt>)
        ensures
            final(out)@.len() == old(out)@.len() + stmt_preorder(*self).len(),
            forall|i: int| 0 <= i < old(out)@.len() ==> final(out)@[i] == old(out)@[i],
            forall|i: int|
                0 <= i < stmt_preorder(*self).len() ==> *final(out)@[old(out)@.len() + i]
                    == stmt_preorder(*self)[i],
        decreases *self,
    {
        let ghost start = out@.len();
        out.push(self);
        match self {
            Stmt::Block { statements, .. } => {
                let mut i: usize = 0;
                while i < statements.len()
                    invariant
                        i <= statements@.len(),
                        decreases_to!(*self => *statements),
                        out@.len() == start + 1 + stmts_preorder(statements@.take(i as int)).len(),
                        forall|k: int| 0 <= k < start ==> out@[k] == old(out)@[k],
                        old(out)@.len() == start,
                        *out@[start as int] == *self,
                        forall|k: int|
                            0 <= k < stmts_preorder(statements@.take(i as int)).len() ==> *out@[start + 1 + k]
                                == stmts_preorder(statements@.take(i as int))[k],
                    decreases statements.len() - i,
                {
                    assert(statements@.take(i + 1).drop_last() =~= statements@.take(i as int));
                    assert(decreases_to!(*statements => statements@[i as int]));
                    let ghost before = out@;
                    statements[i].collect_preorder(out);
                    i += 1;
                }
                assert(statements@.take(statements.len() as int) =~= statements@);
            },
            Stmt::Timed { stmt, .. } => {
                stmt.collect_preorder(out);
            },
            Stmt::If { then_branch, else_branch, .. } => {
                then_branch.collect_preorder(out);
                match else_branch {
                    Some(e) => e.collect_preorder(out),
                    None => {},
                }
            },
            Stmt::Assert { action, .. } => {
                match action {
                    Some(a) => a.collect_preorder(out),
                    None => {},
                }
            },
            _ => {},
        }
    }

    /// This statement and all statements nested in it, in the order that
    /// `for_each` visits them.
    pub fn preorder(&self) -> (r: Vec<&Stmt>)
        ensures
            refs_to(r@, stmt_preorder(*self)),
    {
        let mut out: Vec<&Stmt> = Vec::new();
        self.collect_preorder(&mut out);
        out
    }

    /// Calls `visit` on this statement and on every statement nested in it,
    /// in the order of `preorder`, once each. The contract states that
    /// `visit`'s postcondition holds of every statement of the preorder; the
    /// order and the number of calls come from `preorder()` (the body calls
    /// `visit` on its items, one after the other) and are not in the contract,
    /// which cannot tell one call of a closure from two.
    pub fn for_each<'a, F: FnMut(&'a Stmt)>(&'a self, visit: &mut F)
        requires
            forall|x: &'a Stmt| call_requires(*old(visit), (x,)),
        ensures
            forall|i: int|
                0 <= i < stmt_preorder(*self).len() ==> call_ensures(
                    *old(visit),
                    (&stmt_preorder(*self)[i],),
                    (),
                ),
    {
        let nodes = self.preorder();
        let ghost start = *visit;
        let mut i: usize = 0;
        while i < nodes.len()
            invariant
                i <= nodes@.len(),
                refs_to(nodes@, stmt_preorder(*self)),
                *visit == start,
                forall|x: &'a Stmt| call_requires(start, (x,)),
                forall|k: int| 0 <= k < i ==> call_ensures(start, (nodes@[k],), ()),
            decreases nodes.len() - i,
        {
            visit(nodes[i]);
            i += 1;
        }
        assert forall|k: int| 0 <= k < stmt_preorder(*self).len() implies call_ensures(
            start,
            (&stmt_preorder(*self)[k],),
            (),
        ) by {
            assert(*nodes@[k] == stmt_preorder(*self)[k]);
        }
    }
}

// ---------------------------------------------------------------- expressions

/// The source span of an expression, whatever its variant.
pub open spec fn expr_source(e: Expr) -> Option<SourceSpan> {
    match e {
        Expr::NamedValue { source, .. } => source,
        Expr::IntegerLiteral { source, .. } => source,
        Expr::Unary { source, .. } => source,
        Expr::Binary { source, .. } => source,
        Expr::Conversion { source, .. } => source,
        Expr::Assignment { source, .. } => source,
        Expr::Unknown { source, .. } => source,
    }
}

/// The type of an expression, whatever its variant.
pub open spec fn expr_type(e: Expr) -> Option<String> {
    match e {
        Expr::NamedValue { ty, .. } => ty,
        Expr::IntegerLiteral { ty, .. } => ty,
        Expr::Unary { ty, .. } => ty,
        Expr::Binary { ty, .. } => ty,
        Expr::Conversion { ty, .. } => ty,
        Expr::Assignment { ty, .. } => ty,
        Expr::Unknown { ty, .. } => ty,
    }
}

impl Expr {
    /// The source span of this expression.
    pub fn source(&self) -> (r: Option<&SourceSpan>)
        ensures
            match r {
                Some(s) => expr_source(*self) == Some(*s),
                None => expr_source(*self) is None,
            },
    {
        match self {
            Expr::NamedValue { source, .. } => source.as_ref(),
            Expr::IntegerLiteral { source, .. } => source.as_ref(),
            Expr::Unary { source, .. } => source.as_ref(),
            Expr::Binary { source, .. } => source.as_ref(),
            Expr::Conversion { source, .. } => source.as_ref(),
            Expr::Assignment { source, .. } => source.as_ref(),
            Expr::Unknown { source, .. } => source.as_ref(),
        }
    }

    /// The type of this expression, as slang printed it.
    pub fn ty(&self) -> (r: Option<&str>)
        ensures
            match r {
                Some(t) => opt_text(expr_type(*self)) == Some(t@),
                None => expr_type(*self) is None,
            },
    {
        let t = match self {
            Expr::NamedValue { ty, .. } => ty,
            Expr::IntegerLiteral { ty, .. } => ty,
            Expr::Unary { ty, .. } => ty,
            Expr::Binary { ty, .. } => ty,
            Expr::Conversion { ty, .. } => ty,
            Expr::Assignment { ty, .. } => ty,
            Expr::Unknown { ty, .. } => ty,
        };
        match t {
            Some(s) => Some(s.as_str()),
            None => None,
        }
    }
}

// ---------------------------------------------------------------- symbols

/// What `SymbolRef::parse` makes of `raw`: with at least two words, the first
/// parsed as the id and the second as the name; otherwise no id and all of
/// `raw` as the name.
pub open spec fn symbol_ref_of(raw: Seq<char>) -> SpecSymbolRef {
    let words = split_ws(raw);
    if words.len() >= 2 {
        SpecSymbolRef { id: parse_u64_spec(words[0]), name: words[1] }
    } else {
        SpecSymbolRef { id: None, name: raw }
    }
}

impl SymbolRef {
    /// Reads a symbol reference written as `"<id> <name>"`.
    pub fn parse(raw: &str) -> (r: SymbolRef)
        ensures
            r@ == symbol_ref_of(raw@),
    {
        let words = split_whitespace(raw);
        proof {
            assert(words@.map_values(|x: &str| x@).len() == words@.len());
        }
        if words.len() >= 2 {
            proof {
                assert(words@.map_values(|x: &str| x@)[0] == words@[0]@);
                assert(words@.map_values(|x: &str| x@)[1] == words@[1]@);
            }
            SymbolRef { id: parse_u64(words[0]), name: words[1].to_owned() }
        } else {
            SymbolRef { id: None, name: raw.to_owned() }
        }
    }
}

} // verus!
