use vstd::prelude::*;

use super::expr::{exprs_model, lower_expr, lower_expr_spec, Expr, SpecExpr};
use super::types::{
    lower_optional_type, lower_optional_type_spec, opt_type, DataType, SpecDataType,
};
use crate::error::{res_view, Error, Result, SpecError, SpecResult};
use crate::ir::{opt_span, opt_text, AssertionKind, Edge, SourceSpan, SpecAssertionKind, SpecEdge, SpecSourceSpan};
use crate::json::{
    array, bool_field, field_array, field_flag, field_str, json_get, kind, kind_is,
    lemma_array_decreases, lemma_get_decreases, member, node_kind, opt_str, opt_string,
    JsonValue,
};
use crate::lower::{
    assertion_kind_of, concat_ok, edge_of, lower_assertion_kind, lower_edge, source_span,
    source_span_of, text_or_missing,
};
use crate::text::text_eq;

verus! {

broadcast use vstd::std_specs::vec::group_vec_axioms;

/// A statement of a procedural block, with types as lowered data types.
#[derive(Debug, PartialEq, Eq)]
pub enum Stmt {
    Empty { source: Option<SourceSpan> },
    Block { kind: Option<String>, statements: Vec<Stmt>, source: Option<SourceSpan> },
    Timed { event: EventControl, stmt: Box<Stmt>, source: Option<SourceSpan> },
    If {
        conditions: Vec<Expr>,
        then_branch: Box<Stmt>,
        else_branch: Option<Box<Stmt>>,
        source: Option<SourceSpan>,
    },
    Assign {
        left: Expr,
        right: Expr,
        nonblocking: bool,
        ty: Option<DataType>,
        source: Option<SourceSpan>,
    },
    Expr { expr: Expr, source: Option<SourceSpan> },
    Assert {
        kind: AssertionKind,
        condition: Expr,
        action: Option<Box<Stmt>>,
        source: Option<SourceSpan>,
    },
    Unknown { kind: String, source: Option<SourceSpan> },
}

#[derive(Debug, PartialEq, Eq)]
pub enum EventControl {
    Signal { edge: Edge, expr: Expr, source: Option<SourceSpan> },
    Unknown { kind: String, source: Option<SourceSpan> },
}

pub enum SpecStmt {
    Empty { source: Option<SpecSourceSpan> },
    Block {
        kind: Option<Seq<char>>,
        statements: Seq<SpecStmt>,
        source: Option<SpecSourceSpan>,
    },
    Timed { event: SpecEventControl, stmt: Box<SpecStmt>, source: Option<SpecSourceSpan> },
    If {
        conditions: Seq<SpecExpr>,
        then_branch: Box<SpecStmt>,
        else_branch: Option<Box<SpecStmt>>,
        source: Option<SpecSourceSpan>,
    },
    Assign {
        left: SpecExpr,
        right: SpecExpr,
        nonblocking: bool,
        ty: Option<SpecDataType>,
        source: Option<SpecSourceSpan>,
    },
    Expr { expr: SpecExpr, source: Option<SpecSourceSpan> },
    Assert {
        kind: SpecAssertionKind,
        condition: SpecExpr,
        action: Option<Box<SpecStmt>>,
        source: Option<SpecSourceSpan>,
    },
    Unknown { kind: Seq<char>, source: Option<SpecSourceSpan> },
}

pub enum SpecEventControl {
    Signal { edge: SpecEdge, expr: SpecExpr, source: Option<SpecSourceSpan> },
    Unknown { kind: Seq<char>, source: Option<SpecSourceSpan> },
}

impl View for EventControl {
    type V = SpecEventControl;

    open spec fn view(&self) -> SpecEventControl {
        match self {
            EventControl::Signal { edge, expr, source } => SpecEventControl::Signal {
                edge: edge@,
                expr: expr@,
                source: opt_span(*source),
            },
            EventControl::Unknown { kind, source } => SpecEventControl::Unknown {
                kind: kind@,
                source: opt_span(*source),
            },
        }
    }
}

/// The model of a statement.
pub open spec fn stmt_model(s: Stmt) -> SpecStmt
    decreases s,
{
    match s {
        Stmt::Empty { source } => SpecStmt::Empty { source: opt_span(source) },
        Stmt::Block { kind, statements, source } => SpecStmt::Block {
            kind: opt_text(kind),
            statements: stmts_model(statements@),
            source: opt_span(source),
        },
        Stmt::Timed { event, stmt, source } => SpecStmt::Timed {
            event: event@,
            stmt: Box::new(stmt_model(*stmt)),
            source: opt_span(source),
        },
        Stmt::If { conditions, then_branch, else_branch, source } => SpecStmt::If {
            conditions: exprs_model(conditions@),
            then_branch: Box::new(stmt_model(*then_branch)),
            else_branch: match else_branch {
                Some(e) => Some(Box::new(stmt_model(*e))),
                None => None,
            },
            source: opt_span(source),
        },
        Stmt::Assign { left, right, nonblocking, ty, source } => SpecStmt::Assign {
            left: left@,
            right: right@,
            nonblocking,
            ty: opt_type(ty),
            source: opt_span(source),
        },
        Stmt::Expr { expr, source } => SpecStmt::Expr { expr: expr@, source: opt_span(source) },
        Stmt::Assert { kind, condition, action, source } => SpecStmt::Assert {
            kind: kind@,
            condition: condition@,
            action: match action {
                Some(a) => Some(Box::new(stmt_model(*a))),
                None => None,
            },
            source: opt_span(source),
        },
        Stmt::Unknown { kind, source } => SpecStmt::Unknown {
            kind: kind@,
            source: opt_span(source),
        },
    }
}

/// The models of a sequence of statements.
pub open spec fn stmts_model(v: Seq<Stmt>) -> Seq<SpecStmt>
    decreases v,
{
    if v.len() == 0 {
        seq![]
    } else {
        stmts_model(v.drop_last()).push(stmt_model(v.last()))
    }
}

impl View for Stmt {
    type V = SpecStmt;

    open spec fn view(&self) -> SpecStmt {
        stmt_model(*self)
    }
}

/// The source span of a statement, whatever its variant.
pub open spec fn stmt_source(s: Stmt) -> Option<SourceSpan> {
    match s {
        Stmt::Empty { source } => source,
        Stmt::Block { source, .. } => source,
        Stmt::Timed { source, .. } => source,
        Stmt::If { source, .. } => source,
        Stmt::Assign { source, .. } => source,
        Stmt::Expr { source, .. } => source,
        Stmt::Assert { source, .. } => source,
        Stmt::Unknown { source, .. } => source,
    }
}

/// A statement followed by all statements nested in it, depth first, in
/// source order: the order in which `for_each` visits them.
pub open spec fn stmt_preorder(s: Stmt) -> Seq<Stmt>
    decreases s,
{
    seq![s] + match s {
        Stmt::Block { statements, .. } => stmts_preorder(statements@),
        Stmt::Timed { stmt, .. } => stmt_preorder(*stmt),
        Stmt::If { then_branch, else_branch, .. } => stmt_preorder(*then_branch) + match else_branch {
            Some(e) => stmt_preorder(*e),
            None => seq![],
        },
        Stmt::Assert { action, .. } => match action {
            Some(a) => stmt_preorder(*a),
            None => seq![],
        },
        _ => seq![],
    }
}

/// The preorders of a sequence of statements, one after the other.
pub open spec fn stmts_preorder(v: Seq<Stmt>) -> Seq<Stmt>
    decreases v,
{
    if v.len() == 0 {
        seq![]
    } else {
        stmts_preorder(v.drop_last()) + stmt_preorder(v.last())
    }
}

/// `out` holds references to the statements `pre`, in order.
pub open spec fn refs_to<'a>(out: Seq<&'a Stmt>, pre: Seq<Stmt>) -> bool {
    &&& out.len() == pre.len()
    &&& forall|i: int| 0 <= i < out.len() ==> *out[i] == pre[i]
}

impl Stmt {
    /// The source span of this statement.
    pub fn source(&self) -> (r: Option<&SourceSpan>)
        ensures
            match r {
                Some(s) => stmt_source(*self) == Some(*s),
                None => stmt_source(*self) is None,
            },
    {
        match self {
            Stmt::Empty { source } => source.as_ref(),
            Stmt::Block { source, .. } => source.as_ref(),
            Stmt::Timed { source, .. } => source.as_ref(),
            Stmt::If { source, .. } => source.as_ref(),
            Stmt::Assign { source, .. } => source.as_ref(),
            Stmt::Expr { source, .. } => source.as_ref(),
            Stmt::Assert { source, .. } => source.as_ref(),
            Stmt::Unknown { source, .. } => source.as_ref(),
        }
    }

    fn collect_preorder<'a>(&'a self, out: &mut Vec<&'a Stmt>)
        ensures
            final(out)@.len() == old(out)@.len() + stmt_preorder(*self).len(),
            forall|i: int| 0 <= i < old(out)@.len() ==> final(out)@[i] == old(out)@[i],
            forall|i: int|
                0 <= i < stmt_preorder(*self).len() ==> *final(out)@[old(out)@.len() + i]
                    == stmt_preorder(*self)[i],
        decreases *self,
    {
        let ghost start = out@.len();
        out.push(self);
        match self {
            Stmt::Block { statements, .. } => {
                let mut i: usize = 0;
                while i < statements.len()
                    invariant
                        i <= statements@.len(),
                        decreases_to!(*self => *statements),
                        out@.len() == start + 1 + stmts_preorder(statements@.take(i as int)).len(),
                        forall|k: int| 0 <= k < start ==> out@[k] == old(out)@[k],
                        old(out)@.len() == start,
                        *out@[start as int] == *self,
                        forall|k: int|
                            0 <= k < stmts_preorder(statements@.take(i as int)).len() ==> *out@[start + 1 + k]
                                == stmts_preorder(statements@.take(i as int))[k],
                    decreases statements.len() - i,
                {
                    assert(statements@.take(i + 1).drop_last() =~= statements@.take(i as int));
                    assert(decreases_to!(*statements => statements@[i as int]));
                    let ghost before = out@;
                    statements[i].collect_preorder(out);
                    i += 1;
                }
                assert(statements@.take(statements.len() as int) =~= statements@);
            },
            Stmt::Timed { stmt, .. } => {
                stmt.collect_preorder(out);
            },
            Stmt::If { then_branch, else_branch, .. } => {
                then_branch.collect_preorder(out);
                match else_branch {
                    Some(e) => e.collect_preorder(out),
                    None => {},
                }
            },
            Stmt::Assert { action, .. } => {
                match action {
                    Some(a) => a.collect_preorder(out),
                    None => {},
                }
            },
            _ => {},
        }
    }

    /// This statement and all statements nested in it, in the order that
    /// `for_each` visits them.
    pub fn preorder(&self) -> (r: Vec<&Stmt>)
        ensures
            refs_to(r@, stmt_preorder(*self)),
    {
        let mut out: Vec<&Stmt> = Vec::new();
        self.collect_preorder(&mut out);
        out
    }

    /// Calls `visit` on this statement and on every statement nested in it,
    /// in the order of `preorder`, once each. The contract states that
    /// `visit`'s postcondition holds of every statement of the preorder; the
    /// order and the number of calls come from `preorder()` (the body calls
    /// `visit` on its items, one after the other) and are not in the contract,
    /// which cannot tell one call of a closure from two.
    pub fn for_each<'a, F: FnMut(&'a Stmt)>(&'a self, visit: &mut F)
        requires
            forall|x: &'a Stmt| call_requires(*old(visit), (x,)),
        ensures
            forall|i: int|
                0 <= i < stmt_preorder(*self).len() ==> call_ensures(
                    *old(visit),
                    (&stmt_preorder(*self)[i],),
                    (),
                ),
    {
        let nodes = self.preorder();
        let ghost start = *visit;
        let mut i: usize = 0;
        while i < nodes.len()
            invariant
                i <= nodes@.len(),
                refs_to(nodes@, stmt_preorder(*self)),
                *visit == start,
                forall|x: &'a Stmt| call_requires(start, (x,)),
                forall|k: int| 0 <= k < i ==> call_ensures(start, (nodes@[k],), ()),
            decreases nodes.len() - i,
        {
            visit(nodes[i]);
            i += 1;
        }
        assert forall|k: int| 0 <= k < stmt_preorder(*self).len() implies call_ensures(
            start,
            (&stmt_preorder(*self)[k],),
            (),
        ) by {
            assert(*nodes@[k] == stmt_preorder(*self)[k]);
        }
    }
}

/// An optional statement in a box.
pub open spec fn boxed(s: Option<SpecStmt>) -> Option<Box<SpecStmt>> {
    match s {
        Some(x) => Some(Box::new(x)),
        None => None,
    }
}

/// What lowering the conditions of a conditional statement gives.
pub open spec fn lower_conditions_spec(conds: Seq<JsonValue>) -> SpecResult<Seq<SpecExpr>>
    decreases conds.len(),
{
    if conds.len() == 0 {
        Ok(seq![])
    } else {
        match json_get(conds[0], "expr"@) {
            None => Err(
                SpecError::MissingField { field: "expr"@, context: "conditional condition"@ },
            ),
            Some(e) => match lower_expr_spec(e) {
                Err(err) => Err(err),
                Ok(x) => concat_ok(seq![x], lower_conditions_spec(conds.drop_first())),
            },
        }
    }
}

/// What lowering an assignment used as a statement gives.
pub open spec fn lower_assignment_stmt_spec(j: JsonValue, source: Option<SpecSourceSpan>) -> SpecResult<SpecStmt> {
    match (json_get(j, "left"@), json_get(j, "right"@)) {
        (None, _) => Err(SpecError::MissingField { field: "left"@, context: "assignment"@ }),
        (Some(_), None) => Err(SpecError::MissingField { field: "right"@, context: "assignment"@ }),
        (Some(left), Some(right)) => match (lower_expr_spec(left), lower_expr_spec(right)) {
            (Err(e), _) => Err(e),
            (Ok(_), Err(e)) => Err(e),
            (Ok(l), Ok(r)) => match lower_optional_type_spec(j) {
                Err(e) => Err(e),
                Ok(ty) => Ok(
                    SpecStmt::Assign {
                        left: l,
                        right: r,
                        nonblocking: field_flag(j, "isNonBlocking"@),
                        ty,
                        source,
                    },
                ),
            },
        },
    }
}

/// What lowering an event control gives.
pub open spec fn lower_event_control_spec(j: JsonValue) -> SpecResult<SpecEventControl> {
    let source = source_span_of(j);
    match node_kind(j) {
        Some(k) => if k == "SignalEvent"@ {
            match json_get(j, "expr"@) {
                None => Err(SpecError::MissingField { field: "expr"@, context: "signal event"@ }),
                Some(e) => match lower_expr_spec(e) {
                    Err(err) => Err(err),
                    Ok(x) => Ok(
                        SpecEventControl::Signal { edge: edge_of(field_str(j, "edge"@)), expr: x, source },
                    ),
                },
            }
        } else {
            Ok(SpecEventControl::Unknown { kind: k, source })
        },
        None => Ok(SpecEventControl::Unknown { kind: "<missing>"@, source }),
    }
}

/// What lowering a statement node gives.
pub open spec fn lower_stmt_spec(j: JsonValue) -> SpecResult<SpecStmt>
    decreases j, 1int,
{
    let source = source_span_of(j);
    match node_kind(j) {
        None => Ok(SpecStmt::Unknown { kind: "<missing>"@, source }),
        Some(k) => if k == "Empty"@ {
            Ok(SpecStmt::Empty { source })
        } else if k == "Timed"@ {
            match (json_get(j, "timing"@), json_get(j, "stmt"@)) {
                (None, _) => Err(
                    SpecError::MissingField { field: "timing"@, context: "timed statement"@ },
                ),
                (Some(_), None) => Err(
                    SpecError::MissingField { field: "stmt"@, context: "timed statement"@ },
                ),
                (Some(t), Some(b)) => {
                    proof {
                        lemma_get_decreases(j, "stmt"@);
                    }
                    match lower_event_control_spec(t) {
                        Err(e) => Err(e),
                        Ok(ev) => match lower_stmt_spec(b) {
                            Err(e) => Err(e),
                            Ok(x) => Ok(SpecStmt::Timed { event: ev, stmt: Box::new(x), source }),
                        },
                    }
                },
            }
        } else if k == "Block"@ {
            let block_kind = field_str(j, "blockKind"@);
            match json_get(j, "body"@) {
                None => Ok(SpecStmt::Block { kind: block_kind, statements: seq![], source }),
                Some(b) => {
                    proof {
                        lemma_get_decreases(j, "body"@);
                    }
                    match lower_block_body_spec(b) {
                        Err(e) => Err(e),
                        Ok(ss) => Ok(SpecStmt::Block { kind: block_kind, statements: ss, source }),
                    }
                },
            }
        } else if k == "List"@ {
            match field_array(j, "list"@) {
                None => Err(SpecError::MissingField { field: "list"@, context: "statement list"@ }),
                Some(items) => {
                    proof {
                        lemma_array_decreases(j, "list"@);
                    }
                    match lower_stmt_list_spec(items) {
                        Err(e) => Err(e),
                        Ok(ss) => Ok(
                            SpecStmt::Block { kind: Some("List"@), statements: ss, source },
                        ),
                    }
                },
            }
        } else if k == "Conditional"@ {
            lower_conditional_spec(j, source)
        } else if k == "ExpressionStatement"@ {
            match json_get(j, "expr"@) {
                None => Err(
                    SpecError::MissingField { field: "expr"@, context: "expression statement"@ },
                ),
                Some(e) => if node_kind(e) == Some("Assignment"@) {
                    lower_assignment_stmt_spec(e, source)
                } else {
                    match lower_expr_spec(e) {
                        Err(err) => Err(err),
                        Ok(x) => Ok(SpecStmt::Expr { expr: x, source }),
                    }
                },
            }
        } else if k == "ImmediateAssertion"@ {
            match json_get(j, "cond"@) {
                None => Err(
                    SpecError::MissingField { field: "cond"@, context: "immediate assertion"@ },
                ),
                Some(c) => {
                    proof {
                        lemma_get_decreases(j, "ifTrue"@);
                    }
                    let action = match json_get(j, "ifTrue"@) {
                        None => Ok(None),
                        Some(a) => match lower_stmt_spec(a) {
                            Err(e) => Err(e),
                            Ok(x) => Ok(Some(x)),
                        },
                    };
                    match action {
                        Err(e) => Err(e),
                        Ok(act) => match lower_expr_spec(c) {
                            Err(e) => Err(e),
                            Ok(cx) => Ok(
                                SpecStmt::Assert {
                                    kind: assertion_kind_of(field_str(j, "assertionKind"@)),
                                    condition: cx,
                                    action: boxed(act),
                                    source,
                                },
                            ),
                        },
                    }
                },
            }
        } else {
            Ok(SpecStmt::Unknown { kind: k, source })
        },
    }
}

/// What lowering the body of a block gives: the items of a list, or the one
/// statement that the body is.
pub open spec fn lower_block_body_spec(j: JsonValue) -> SpecResult<Seq<SpecStmt>>
    decreases j, 2int,
{
    if node_kind(j) == Some("List"@) {
        match field_array(j, "list"@) {
            None => Err(SpecError::MissingField { field: "list"@, context: "statement list"@ }),
            Some(items) => {
                proof {
                    lemma_array_decreases(j, "list"@);
                }
                lower_stmt_list_spec(items)
            },
        }
    } else {
        match lower_stmt_spec(j) {
            Err(e) => Err(e),
            Ok(s) => Ok(seq![s]),
        }
    }
}

/// What lowering a conditional statement gives.
pub open spec fn lower_conditional_spec(j: JsonValue, source: Option<SpecSourceSpan>) -> SpecResult<SpecStmt>
    decreases j, 0int,
{
    match field_array(j, "conditions"@) {
        None => Err(
            SpecError::MissingField { field: "conditions"@, context: "conditional statement"@ },
        ),
        Some(conds) => match lower_conditions_spec(conds) {
            Err(e) => Err(e),
            Ok(cs) => match json_get(j, "ifTrue"@) {
                None => Err(
                    SpecError::MissingField { field: "ifTrue"@, context: "conditional statement"@ },
                ),
                Some(t) => {
                    proof {
                        lemma_get_decreases(j, "ifTrue"@);
                        lemma_get_decreases(j, "ifFalse"@);
                    }
                    let else_branch = match json_get(j, "ifFalse"@) {
                        None => Ok(None),
                        Some(f) => match lower_stmt_spec(f) {
                            Err(e) => Err(e),
                            Ok(x) => Ok(Some(x)),
                        },
                    };
                    match else_branch {
                        Err(e) => Err(e),
                        Ok(eb) => match lower_stmt_spec(t) {
                            Err(e) => Err(e),
                            Ok(tb) => Ok(
                                SpecStmt::If {
                                    conditions: cs,
                                    then_branch: Box::new(tb),
                                    else_branch: boxed(eb),
                                    source,
                                },
                            ),
                        },
                    }
                },
            },
        },
    }
}

/// What lowering a sequence of statement nodes gives: all of them, or the
/// first error.
pub open spec fn lower_stmt_list_spec(items: Seq<JsonValue>) -> SpecResult<Seq<SpecStmt>>
    decreases items, 0int,
{
    if items.len() == 0 {
        Ok(seq![])
    } else {
        proof {
            assert(decreases_to!(items => items[0]));
            assert(decreases_to!(items => items.subrange(1, items.len() as int)));
        }
        match lower_stmt_spec(items[0]) {
            Err(e) => Err(e),
            Ok(s) => concat_ok(seq![s], lower_stmt_list_spec(items.drop_first())),
        }
    }
}

/// Lowers the conditions of a conditional statement.
fn lower_conditions(conds: &Vec<JsonValue>) -> (r: Result<Vec<Expr>>)
    ensures
        match r {
            Ok(v) => lower_conditions_spec(conds@) == Ok::<Seq<SpecExpr>, SpecError>(exprs_model(v@)),
            Err(e) => lower_conditions_spec(conds@) == Err::<Seq<SpecExpr>, SpecError>(e@),
        },
{
    let mut out: Vec<Expr> = Vec::new();
    let mut i: usize = 0;
    assert(conds@.skip(0) =~= conds@);
    assert(exprs_model(Seq::<Expr>::empty()) =~= Seq::<SpecExpr>::empty());
    while i < conds.len()
        invariant
            i <= conds@.len(),
            lower_conditions_spec(conds@) == concat_ok(exprs_model(out@), lower_conditions_spec(conds@.skip(i as int))),
        decreases conds.len() - i,
    {
        let ghost rest = conds@.skip(i as int);
        assert(rest[0] == conds@[i as int]);
        assert(rest.drop_first() =~= conds@.skip(i + 1));
        let e = match member(&conds[i], "expr", "conditional condition") {
            Ok(e) => e,
            Err(err) => return Err(err),
        };
        let x = match lower_expr(e) {
            Ok(x) => x,
            Err(err) => return Err(err),
        };
        let ghost before = out@;
        out.push(x);
        proof {
            assert(out@.drop_last() =~= before);
            assert(exprs_model(out@) =~= exprs_model(before).push(x@));
            match lower_conditions_spec(conds@.skip(i + 1)) {
                Ok(tail) => {
                    assert(exprs_model(before) + (seq![x@] + tail) =~= exprs_model(out@) + tail);
                },
                Err(_) => {},
            }
        }
        i += 1;
    }
    assert(conds@.skip(i as int) =~= Seq::<JsonValue>::empty());
    assert(exprs_model(out@) + Seq::<SpecExpr>::empty() =~= exprs_model(out@));
    Ok(out)
}

fn lower_assignment_stmt(value: &JsonValue, source: Option<SourceSpan>) -> (r: Result<Stmt>)
    ensures
        res_view(r) == lower_assignment_stmt_spec(*value, opt_span(source)),
{
    let left = match member(value, "left", "assignment") {
        Ok(o) => o,
        Err(e) => return Err(e),
    };
    let right = match member(value, "right", "assignment") {
        Ok(o) => o,
        Err(e) => return Err(e),
    };
    let l = match lower_expr(left) {
        Ok(x) => x,
        Err(e) => return Err(e),
    };
    let r = match lower_expr(right) {
        Ok(x) => x,
        Err(e) => return Err(e),
    };
    let nonblocking = bool_field(value, "isNonBlocking");
    let ty = match lower_optional_type(value) {
        Ok(t) => t,
        Err(e) => return Err(e),
    };
    Ok(Stmt::Assign { left: l, right: r, nonblocking, ty, source })
}

fn lower_event_control(value: &JsonValue) -> (r: Result<EventControl>)
    ensures
        res_view(r) == lower_event_control_spec(*value),
{
    let source = source_span(value);
    match kind(value) {
        Some(k) => {
            if text_eq(k, "SignalEvent") {
                let e = match member(value, "expr", "signal event") {
                    Ok(e) => e,
                    Err(err) => return Err(err),
                };
                let edge = lower_edge(opt_str(value, "edge"));
                let x = match lower_expr(e) {
                    Ok(x) => x,
                    Err(err) => return Err(err),
                };
                Ok(EventControl::Signal { edge, expr: x, source })
            } else {
                Ok(EventControl::Unknown { kind: k.to_owned(), source })
            }
        },
        None => Ok(EventControl::Unknown { kind: text_or_missing(None), source }),
    }
}

/// Lowers a statement node.
#[verifier::rlimit(60)]
pub fn lower_stmt(value: &JsonValue) -> (r: Result<Stmt>)
    ensures
        res_view(r) == lower_stmt_spec(*value),
    decreases *value, 1int,
{
    let source = source_span(value);
    let k = match kind(value) {
        Some(k) => k,
        None => return Ok(Stmt::Unknown { kind: text_or_missing(None), source }),
    };
    if text_eq(k, "Empty") {
        Ok(Stmt::Empty { source })
    } else if text_eq(k, "Timed") {
        let timing = match member(value, "timing", "timed statement") {
            Ok(t) => t,
            Err(e) => return Err(e),
        };
        let body = match member(value, "stmt", "timed statement") {
            Ok(b) => b,
            Err(e) => return Err(e),
        };
        proof {
            lemma_get_decreases(*value, "stmt"@);
        }
        let event = match lower_event_control(timing) {
            Ok(ev) => ev,
            Err(e) => return Err(e),
        };
        let x = match lower_stmt(body) {
            Ok(x) => x,
            Err(e) => return Err(e),
        };
        Ok(Stmt::Timed { event, stmt: Box::new(x), source })
    } else if text_eq(k, "Block") {
        let block_kind = opt_string(value, "blockKind");
        let statements = match value.get("body") {
            None => {
                assert(stmts_model(Seq::<Stmt>::empty()) =~= Seq::<SpecStmt>::empty());
                Vec::new()
            },
            Some(b) => {
                proof {
                    lemma_get_decreases(*value, "body"@);
                }
                match lower_block_body(b) {
                    Ok(ss) => ss,
                    Err(e) => return Err(e),
                }
            },
        };
        Ok(Stmt::Block { kind: block_kind, statements, source })
    } else if text_eq(k, "List") {
        let items = match array(value, "list", "statement list") {
            Ok(a) => a,
            Err(e) => return Err(e),
        };
        proof {
            lemma_array_decreases(*value, "list"@);
        }
        let statements = match lower_stmt_list(items) {
            Ok(ss) => ss,
            Err(e) => return Err(e),
        };
        Ok(Stmt::Block { kind: Some(String::from_str("List")), statements, source })
    } else if text_eq(k, "Conditional") {
        lower_conditional(value, source)
    } else if text_eq(k, "ExpressionStatement") {
        let e = match member(value, "expr", "expression statement") {
            Ok(e) => e,
            Err(err) => return Err(err),
        };
        if kind_is(e, "Assignment") {
            lower_assignment_stmt(e, source)
        } else {
            match lower_expr(e) {
                Ok(x) => Ok(Stmt::Expr { expr: x, source }),
                Err(err) => Err(err),
            }
        }
    } else if text_eq(k, "ImmediateAssertion") {
        let cond = match member(value, "cond", "immediate assertion") {
            Ok(c) => c,
            Err(e) => return Err(e),
        };
        proof {
            lemma_get_decreases(*value, "ifTrue"@);
        }
        let action = match value.get("ifTrue") {
            None => None,
            Some(a) => match lower_stmt(a) {
                Ok(x) => Some(Box::new(x)),
                Err(e) => return Err(e),
            },
        };
        let kind = lower_assertion_kind(opt_str(value, "assertionKind"));
        let condition = match lower_expr(cond) {
            Ok(c) => c,
            Err(e) => return Err(e),
        };
        Ok(Stmt::Assert { kind, condition, action, source })
    } else {
        Ok(Stmt::Unknown { kind: k.to_owned(), source })
    }
}

/// Lowers the body of a block: the items of a list, or the one statement that
/// the body is.
fn lower_block_body(value: &JsonValue) -> (r: Result<Vec<Stmt>>)
    ensures
        match r {
            Ok(v) => lower_block_body_spec(*value) == Ok::<Seq<SpecStmt>, SpecError>(stmts_model(v@)),
            Err(e) => lower_block_body_spec(*value) == Err::<Seq<SpecStmt>, SpecError>(e@),
        },
    decreases *value, 2int,
{
    if kind_is(value, "List") {
        let items = match array(value, "list", "statement list") {
            Ok(a) => a,
            Err(e) => return Err(e),
        };
        proof {
            lemma_array_decreases(*value, "list"@);
        }
        lower_stmt_list(items)
    } else {
        match lower_stmt(value) {
            Ok(s) => {
                let mut v: Vec<Stmt> = Vec::new();
                v.push(s);
                assert(v@.drop_last() =~= Seq::<Stmt>::empty());
                assert(stmts_model(Seq::<Stmt>::empty()) =~= Seq::<SpecStmt>::empty());
                assert(stmts_model(v@) =~= seq![s@]);
                Ok(v)
            },
            Err(e) => Err(e),
        }
    }
}

fn lower_conditional(value: &JsonValue, source: Option<SourceSpan>) -> (r: Result<Stmt>)
    ensures
        res_view(r) == lower_conditional_spec(*value, opt_span(source)),
    decreases *value, 0int,
{
    let conds = match array(value, "conditions", "conditional statement") {
        Ok(a) => a,
        Err(e) => return Err(e),
    };
    let conditions = match lower_conditions(conds) {
        Ok(c) => c,
        Err(e) => return Err(e),
    };
    let if_true = match member(value, "ifTrue", "conditional statement") {
        Ok(t) => t,
        Err(e) => return Err(e),
    };
    proof {
        lemma_get_decreases(*value, "ifTrue"@);
        lemma_get_decreases(*value, "ifFalse"@);
    }
    let else_branch = match value.get("ifFalse") {
        None => None,
        Some(f) => match lower_stmt(f) {
            Ok(x) => Some(Box::new(x)),
            Err(e) => return Err(e),
        },
    };
    let then_branch = match lower_stmt(if_true) {
        Ok(x) => x,
        Err(e) => return Err(e),
    };
    Ok(Stmt::If { conditions, then_branch: Box::new(then_branch), else_branch, source })
}

/// Lowers a sequence of statement nodes.
fn lower_stmt_list(items: &Vec<JsonValue>) -> (r: Result<Vec<Stmt>>)
    ensures
        match r {
            Ok(v) => lower_stmt_list_spec(items@) == Ok::<Seq<SpecStmt>, SpecError>(stmts_model(v@)),
            Err(e) => lower_stmt_list_spec(items@) == Err::<Seq<SpecStmt>, SpecError>(e@),
        },
    decreases items@, 0int,
{
    let mut out: Vec<Stmt> = Vec::new();
    let mut i: usize = 0;
    assert(items@.skip(0) =~= items@);
    while i < items.len()
        invariant
            i <= items@.len(),
            lower_stmt_list_spec(items@) == concat_ok(stmts_model(out@), lower_stmt_list_spec(items@.skip(i as int))),
        decreases items.len() - i,
    {
        let ghost rest = items@.skip(i as int);
        assert(rest[0] == items@[i as int]);
        assert(rest.drop_first() =~= items@.skip(i + 1));
        assert(decreases_to!(items@ => items@[i as int]));
        let x = match lower_stmt(&items[i]) {
            Ok(x) => x,
            Err(err) => return Err(err),
        };
        let ghost before = out@;
        out.push(x);
        proof {
            assert(out@.drop_last() =~= before);
            assert(stmts_model(out@) =~= stmts_model(before).push(x@));
            match lower_stmt_list_spec(items@.skip(i + 1)) {
                Ok(tail) => {
                    assert(stmts_model(before) + (seq![x@] + tail) =~= stmts_model(out@) + tail);
                },
                Err(_) => {},
            }
        }
        i += 1;
    }
    assert(items@.skip(i as int) =~= Seq::<JsonValue>::empty());
    assert(stmts_model(out@) + Seq::<SpecStmt>::empty() =~= stmts_model(out@));
    Ok(out)
}


} // verus!
