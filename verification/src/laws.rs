use vstd::prelude::*;

use crate::ir::{stmt_preorder, stmts_preorder, SpecExpr, SpecSourceSpan, SpecStmt, Stmt};
use crate::json::{field_str, node_kind, JsonValue};
use crate::json::json_get;
use crate::lower::{
    concat_ok, edge_of, lower_assignment_stmt_spec, lower_block_body_spec, lower_conditional_spec,
    lower_event_control_spec, lower_expr_spec, lower_instances_spec, lower_stmt_list_spec,
    lower_stmt_spec, source_span_of,
};
use crate::lower::{assertion_kind_of, lower_conditions_spec, port_direction_of, procedure_kind_of};
use crate::json::{field_array, spec_expect_kind};
use crate::ir::{SignalKind, SpecDesign, SpecModule};
use crate::lower::{
    add_member_spec, fill_module_spec, lower_design_spec, lower_module_instance_spec, lower_parameter_spec,
    lower_port_spec, lower_procedure_spec, lower_signal_spec, source_loc_of,
};
use crate::error::SpecError;
use crate::ir::SpecSourceLoc;
use crate::json::field_u64;
use crate::ir::{symbol_ref_of, SpecEventControl, SpecSymbolRef};
use crate::text::{
    decimal, find_char, is_digit, is_first_index, is_ws, lemma_decimal, lemma_token_len,
    parse_u64_spec, split_ws,
};

verus! {

/// The kinds of statement node that lowering understands.
pub open spec fn known_stmt_kind(k: Seq<char>) -> bool {
    ||| k == "Empty"@
    ||| k == "Timed"@
    ||| k == "Block"@
    ||| k == "List"@
    ||| k == "Conditional"@
    ||| k == "ExpressionStatement"@
    ||| k == "ImmediateAssertion"@
}

/// The kinds of expression node that lowering understands.
pub open spec fn known_expr_kind(k: Seq<char>) -> bool {
    ||| k == "NamedValue"@
    ||| k == "IntegerLiteral"@
    ||| k == "UnaryOp"@
    ||| k == "BinaryOp"@
    ||| k == "Conversion"@
    ||| k == "Assignment"@
}

/// A statement node of a kind that lowering does not understand is kept as an
/// `Unknown` statement with that kind and the node's span, whatever else the
/// node holds; a node without a kind becomes an `Unknown` of kind `<missing>`.
pub proof fn law_unknown_statements_are_kept(j: JsonValue)
    ensures
        forall|k: Seq<char>|
            node_kind(j) == Some(k) && !known_stmt_kind(k) ==> lower_stmt_spec(j) == Ok::<
                SpecStmt,
                crate::error::SpecError,
            >(SpecStmt::Unknown { kind: k, source: source_span_of(j) }),
        node_kind(j) is None ==> lower_stmt_spec(j) == Ok::<SpecStmt, crate::error::SpecError>(
            SpecStmt::Unknown { kind: "<missing>"@, source: source_span_of(j) },
        ),
{
}

/// An expression node of a kind that lowering does not understand is kept as
/// an `Unknown` expression with that kind, the node's type text and its span;
/// a node without a kind becomes an `Unknown` of kind `<missing>`.
pub proof fn law_unknown_expressions_are_kept(j: JsonValue)
    ensures
        forall|k: Seq<char>|
            node_kind(j) == Some(k) && !known_expr_kind(k) ==> lower_expr_spec(j) == Ok::<
                SpecExpr,
                crate::error::SpecError,
            >(SpecExpr::Unknown { kind: k, ty: field_str(j, "type"@), source: source_span_of(j) }),
        node_kind(j) is None ==> lower_expr_spec(j) == Ok::<SpecExpr, crate::error::SpecError>(
            SpecExpr::Unknown {
                kind: "<missing>"@,
                ty: field_str(j, "type"@),
                source: source_span_of(j),
            },
        ),
{
}

/// A timing control other than a signal event is kept as an `Unknown` event
/// control with its kind and span.
pub proof fn law_unknown_events_are_kept(j: JsonValue)
    ensures
        forall|k: Seq<char>|
            node_kind(j) == Some(k) && k != "SignalEvent"@ ==> lower_event_control_spec(j) == Ok::<
                SpecEventControl,
                crate::error::SpecError,
            >(SpecEventControl::Unknown { kind: k, source: source_span_of(j) }),
{
}

/// The span of a statement model, whatever its variant.
pub open spec fn spec_stmt_span(s: SpecStmt) -> Option<SpecSourceSpan> {
    match s {
        SpecStmt::Empty { source } => source,
        SpecStmt::Block { source, .. } => source,
        SpecStmt::Timed { source, .. } => source,
        SpecStmt::If { source, .. } => source,
        SpecStmt::Assign { source, .. } => source,
        SpecStmt::Expr { source, .. } => source,
        SpecStmt::Assert { source, .. } => source,
        SpecStmt::Unknown { source, .. } => source,
    }
}

/// The span of an expression model, whatever its variant.
pub open spec fn spec_expr_span(e: SpecExpr) -> Option<SpecSourceSpan> {
    match e {
        SpecExpr::NamedValue { source, .. } => source,
        SpecExpr::IntegerLiteral { source, .. } => source,
        SpecExpr::Unary { source, .. } => source,
        SpecExpr::Binary { source, .. } => source,
        SpecExpr::Conversion { source, .. } => source,
        SpecExpr::Assignment { source, .. } => source,
        SpecExpr::Unknown { source, .. } => source,
    }
}

/// A lowered statement carries the span recorded on its node: the source
/// location survives lowering whenever slang reported it.
#[verifier::rlimit(100)]
pub proof fn law_statements_keep_their_span(j: JsonValue)
    ensures
        lower_stmt_spec(j) matches Ok(s) ==> spec_stmt_span(s) == source_span_of(j),
{
    let source = source_span_of(j);
    lemma_conditional_span(j, source);
    if let Some(e) = json_get(j, "expr"@) {
        lemma_assignment_span(e, source);
    }
    match node_kind(j) {
        None => {},
        Some(k) => {
            if k == "Empty"@ || k == "Timed"@ || k == "Block"@ || k == "List"@ {
            } else if k == "Conditional"@ {
                assert(lower_stmt_spec(j) == lower_conditional_spec(j, source));
            } else if k == "ExpressionStatement"@ {
            } else {
            }
        },
    }
}

proof fn lemma_conditional_span(j: JsonValue, source: Option<SpecSourceSpan>)
    ensures
        lower_conditional_spec(j, source) matches Ok(s) ==> spec_stmt_span(s) == source,
{
}

proof fn lemma_assignment_span(j: JsonValue, source: Option<SpecSourceSpan>)
    ensures
        lower_assignment_stmt_spec(j, source) matches Ok(s) ==> spec_stmt_span(s) == source,
{
}

/// A lowered expression carries the span recorded on its node.
pub proof fn law_expressions_keep_their_span(j: JsonValue)
    ensures
        lower_expr_spec(j) matches Ok(e) ==> spec_expr_span(e) == source_span_of(j),
{
}

/// Members of the root that are not module instances do not change the
/// lowered modules.
pub proof fn law_non_instances_are_skipped(x: JsonValue, rest: Seq<JsonValue>)
    requires
        node_kind(x) != Some("Instance"@),
    ensures
        lower_instances_spec(seq![x] + rest) == lower_instances_spec(rest),
{
    assert((seq![x] + rest)[0] == x);
    assert((seq![x] + rest).drop_first() =~= rest);
}

/// The statements directly nested in `s`.
pub open spec fn child_stmts(s: Stmt) -> Seq<Stmt> {
    match s {
        Stmt::Block { statements, .. } => statements@,
        Stmt::Timed { stmt, .. } => seq![*stmt],
        Stmt::If { then_branch, else_branch, .. } => match else_branch {
            Some(e) => seq![*then_branch, *e],
            None => seq![*then_branch],
        },
        Stmt::Assert { action, .. } => match action {
            Some(a) => seq![*a],
            None => seq![],
        },
        _ => seq![],
    }
}

proof fn lemma_stmts_preorder_contains(v: Seq<Stmt>, i: int)
    requires
        0 <= i < v.len(),
    ensures
        exists|k: int| 0 <= k < stmts_preorder(v).len() && stmts_preorder(v)[k] == v[i],
    decreases v.len(),
{
    let init = stmts_preorder(v.drop_last());
    let last = stmt_preorder(v.last());
    assert(stmts_preorder(v) == init + last);
    if i == v.len() - 1 {
        assert(last[0] == v.last());
        assert((init + last)[init.len() as int] == v[i]);
    } else {
        lemma_stmts_preorder_contains(v.drop_last(), i);
        let k = choose|k: int| 0 <= k < init.len() && init[k] == v.drop_last()[i];
        assert((init + last)[k] == v[i]);
    }
}

/// `for_each` visits a statement first, and visits every statement directly
/// nested in it after it.
pub proof fn law_for_each_visits_parent_then_children(s: Stmt)
    ensures
        stmt_preorder(s).len() >= 1,
        stmt_preorder(s)[0] == s,
        forall|i: int|
            0 <= i < child_stmts(s).len() ==> exists|k: int|
                1 <= k < stmt_preorder(s).len() && stmt_preorder(s)[k] == #[trigger] child_stmts(s)[i],
{
    let pre = stmt_preorder(s);
    assert(pre[0] == s);
    assert forall|i: int| 0 <= i < child_stmts(s).len() implies exists|k: int|
        1 <= k < pre.len() && pre[k] == #[trigger] child_stmts(s)[i] by {
        match s {
            Stmt::Block { statements, .. } => {
                lemma_stmts_preorder_contains(statements@, i);
                let rest = stmts_preorder(statements@);
                let k = choose|k: int| 0 <= k < rest.len() && rest[k] == statements@[i];
                assert(pre == seq![s] + rest);
                assert(pre[k + 1] == rest[k]);
            },
            Stmt::Timed { stmt, .. } => {
                assert(pre == seq![s] + stmt_preorder(*stmt));
                assert(pre[1] == *stmt);
            },
            Stmt::If { then_branch, else_branch, .. } => {
                let t = stmt_preorder(*then_branch);
                match else_branch {
                    Some(e) => {
                        let f = stmt_preorder(*e);
                        assert(pre == seq![s] + (t + f));
                        if i == 0 {
                            assert(pre[1] == *then_branch);
                        } else {
                            assert(pre[1 + t.len() as int] == f[0]);
                        }
                    },
                    None => {
                        assert(pre == seq![s] + (t + Seq::<Stmt>::empty()));
                        assert(pre[1] == *then_branch);
                    },
                }
            },
            Stmt::Assert { action, .. } => {
                match action {
                    Some(a) => {
                        assert(pre == seq![s] + stmt_preorder(*a));
                        assert(pre[1] == *a);
                    },
                    None => {},
                }
            },
            _ => {},
        }
    }
}

/// When text without a `{` is printed before a JSON document, the part from
/// the first `{` on is exactly the document.
pub proof fn law_first_brace_skips_leading_noise(noise: Seq<char>, doc: Seq<char>)
    requires
        !noise.contains('{'),
        doc.len() > 0,
        doc[0] == '{',
    ensures
        find_char(noise + doc, '{') == Some(noise.len() as int),
        (noise + doc).skip(noise.len() as int) == doc,
{
    let t = noise + doc;
    assert(t[noise.len() as int] == '{');
    assert forall|k: int| 0 <= k < noise.len() implies t[k] != '{' by {
        assert(t[k] == noise[k]);
        if t[k] == '{' {
            assert(noise.contains('{'));
        }
    }
    assert(is_first_index(t, '{', noise.len() as int));
    let j = choose|j: int| is_first_index(t, '{', j);
    assert(j == noise.len());
    assert(t.skip(noise.len() as int) =~= doc);
}

proof fn lemma_two_words(t: Seq<char>, u: Seq<char>)
    requires
        t.len() > 0,
        u.len() > 0,
        forall|i: int| 0 <= i < t.len() ==> !is_ws(#[trigger] t[i]),
        forall|i: int| 0 <= i < u.len() ==> !is_ws(#[trigger] u[i]),
    ensures
        split_ws(t + seq![' '] + u) == seq![t, u],
{
    let w = t + seq![' '] + u;
    assert forall|m: int| 0 <= m < t.len() implies !is_ws(#[trigger] w[m]) by {
        assert(w[m] == t[m]);
    }
    assert(w[t.len() as int] == ' ');
    lemma_token_len(w, t.len() as int);
    assert(w.take(t.len() as int) =~= t);
    let rest = w.skip(t.len() as int);
    assert(rest =~= seq![' '] + u);
    assert(rest.drop_first() =~= u);
    lemma_token_len(u, u.len() as int);
    assert(u.take(u.len() as int) =~= u);
    assert(u.skip(u.len() as int) =~= Seq::<char>::empty());
    assert(split_ws(u) == seq![u] + split_ws(Seq::<char>::empty()));
    assert(split_ws(u) =~= seq![u]);
    assert(split_ws(rest) == split_ws(u));
    assert(split_ws(w) =~= seq![t] + seq![u]);
}

/// A symbol reference written as `"<id> <name>"`, with the id in decimal and a
/// name without whitespace, reads back as that id and that name.
pub proof fn law_symbol_ref_reads_id_and_name(id: u64, name: Seq<char>)
    requires
        name.len() > 0,
        forall|i: int| 0 <= i < name.len() ==> !is_ws(#[trigger] name[i]),
    ensures
        symbol_ref_of(decimal(id as nat) + seq![' '] + name) == (SpecSymbolRef {
            id: Some(id),
            name,
        }),
{
    let d = decimal(id as nat);
    lemma_decimal(id as nat);
    assert forall|i: int| 0 <= i < d.len() implies !is_ws(#[trigger] d[i]) by {
        assert(is_digit(d[i]));
    }
    lemma_two_words(d, name);
    assert(is_digit(d[0]));
    assert(parse_u64_spec(d) == Some(id));
}

/// A signal event lowers to its edge, its lowered expression and its span, and
/// fails only where the expression is missing or fails; any other timing
/// control is kept as `Unknown` with its kind, `<missing>` where it has none.
pub proof fn law_event_controls(j: JsonValue)
    ensures
        node_kind(j) == Some("SignalEvent"@) ==> lower_event_control_spec(j) == match json_get(j, "expr"@) {
            None => Err(SpecError::MissingField { field: "expr"@, context: "signal event"@ }),
            Some(e) => match lower_expr_spec(e) {
                Ok(x) => Ok(SpecEventControl::Signal {
                    edge: edge_of(field_str(j, "edge"@)),
                    expr: x,
                    source: source_span_of(j),
                }),
                Err(err) => Err(err),
            },
        },
        forall|k: Seq<char>|
            node_kind(j) == Some(k) && k != "SignalEvent"@ ==> lower_event_control_spec(j) == Ok::<
                SpecEventControl,
                SpecError,
            >(SpecEventControl::Unknown { kind: k, source: source_span_of(j) }),
        node_kind(j) is None ==> lower_event_control_spec(j) == Ok::<SpecEventControl, SpecError>(
            SpecEventControl::Unknown { kind: "<missing>"@, source: source_span_of(j) },
        ),
{
}

/// Every node of `items` lowers without error.
pub open spec fn all_lower(items: Seq<JsonValue>) -> bool {
    forall|i: int| 0 <= i < items.len() ==> (#[trigger] lower_stmt_spec(items[i])) is Ok
}

/// The statements that the nodes `items` lower to, one for each, in order.
pub open spec fn lowered_stmts(items: Seq<JsonValue>) -> Seq<SpecStmt> {
    Seq::new(items.len(), |i: int| lower_stmt_spec(items[i])->Ok_0)
}

#[verifier::spinoff_prover]
#[verifier::rlimit(100)]
proof fn lemma_stmt_list(items: Seq<JsonValue>)
    requires
        all_lower(items),
    ensures
        lower_stmt_list_spec(items) == Ok::<Seq<SpecStmt>, SpecError>(lowered_stmts(items)),
    decreases items.len(),
{
    if items.len() > 0 {
        let rest = items.drop_first();
        assert forall|i: int| 0 <= i < rest.len() implies (#[trigger] lower_stmt_spec(rest[i])) is Ok by {
            assert(rest[i] == items[i + 1]);
        }
        lemma_stmt_list(rest);
        let first = lower_stmt_spec(items[0]);
        assert(first is Ok);
        assert(lower_stmt_list_spec(items) == concat_ok(seq![first->Ok_0], lower_stmt_list_spec(rest)));
        assert(seq![first->Ok_0] + lowered_stmts(rest) =~= lowered_stmts(items));
    } else {
        assert(lowered_stmts(items) =~= Seq::<SpecStmt>::empty());
    }
}

/// What the body of a block lowers to, when its statements lower.
#[verifier::spinoff_prover]
#[verifier::rlimit(100)]
proof fn lemma_block_body(b: JsonValue)
    ensures
        node_kind(b) == Some("List"@) && field_array(b, "list"@) is Some && all_lower(
            field_array(b, "list"@).unwrap(),
        ) ==> lower_block_body_spec(b) == Ok::<Seq<SpecStmt>, SpecError>(
            lowered_stmts(field_array(b, "list"@).unwrap()),
        ),
        node_kind(b) != Some("List"@) && lower_stmt_spec(b) is Ok ==> lower_block_body_spec(b)
            == Ok::<Seq<SpecStmt>, SpecError>(seq![lower_stmt_spec(b)->Ok_0]),
{
    reveal_strlit("List");
    if let Some(items) = field_array(b, "list"@) {
        if all_lower(items) {
            lemma_stmt_list(items);
        }
    }
}

/// The kinds that lowering tests before `List` differ from `Block` and `List`.
proof fn lemma_kinds_before_list_differ()
    ensures
        "Block"@ != "Empty"@,
        "Block"@ != "Timed"@,
        "List"@ != "Empty"@,
        "List"@ != "Timed"@,
        "List"@ != "Block"@,
{
    reveal_strlit("Empty");
    reveal_strlit("Timed");
    reveal_strlit("Block");
    reveal_strlit("List");
    assert("Empty"@[0] == 'E');
    assert("Timed"@[0] == 'T');
    assert("Block"@[0] == 'B');
    assert("List"@[0] == 'L');
}

/// A `List` node, and a `Block` whose body is a `List`, lower to a block of
/// the list's items lowered in order; a `Block` whose body is one other
/// statement holds that statement alone, and one without a body holds none.
/// The block kind of a `Block` is its `blockKind`, that of a `List` is `List`.
#[verifier::spinoff_prover]
#[verifier::rlimit(100)]
pub proof fn law_lists_and_blocks(j: JsonValue)
    ensures
        node_kind(j) == Some("List"@) && field_array(j, "list"@) is Some && all_lower(
            field_array(j, "list"@).unwrap(),
        ) ==> lower_stmt_spec(j) == Ok::<SpecStmt, SpecError>(SpecStmt::Block {
            kind: Some("List"@),
            statements: lowered_stmts(field_array(j, "list"@).unwrap()),
            source: source_span_of(j),
        }),
        node_kind(j) == Some("Block"@) && json_get(j, "body"@) is None ==> lower_stmt_spec(j)
            == Ok::<SpecStmt, SpecError>(SpecStmt::Block {
            kind: field_str(j, "blockKind"@),
            statements: seq![],
            source: source_span_of(j),
        }),
        node_kind(j) == Some("Block"@) && json_get(j, "body"@) is Some && node_kind(
            json_get(j, "body"@).unwrap(),
        ) == Some("List"@) && field_array(json_get(j, "body"@).unwrap(), "list"@) is Some
            && all_lower(field_array(json_get(j, "body"@).unwrap(), "list"@).unwrap())
            ==> lower_stmt_spec(j) == Ok::<SpecStmt, SpecError>(SpecStmt::Block {
            kind: field_str(j, "blockKind"@),
            statements: lowered_stmts(field_array(json_get(j, "body"@).unwrap(), "list"@).unwrap()),
            source: source_span_of(j),
        }),
        node_kind(j) == Some("Block"@) && json_get(j, "body"@) is Some && node_kind(
            json_get(j, "body"@).unwrap(),
        ) != Some("List"@) && lower_stmt_spec(json_get(j, "body"@).unwrap()) is Ok
            ==> lower_stmt_spec(j) == Ok::<SpecStmt, SpecError>(SpecStmt::Block {
            kind: field_str(j, "blockKind"@),
            statements: seq![lower_stmt_spec(json_get(j, "body"@).unwrap())->Ok_0],
            source: source_span_of(j),
        }),
{
    lemma_kinds_before_list_differ();
    if let Some(items) = field_array(j, "list"@) {
        if all_lower(items) {
            lemma_stmt_list(items);
        }
    }
    if node_kind(j) == Some("Block"@) {
        if let Some(b) = json_get(j, "body"@) {
            lemma_block_body(b);
        }
    }
}

/// The members of kind `k` among `members`, each lowered by `lower`, in order.
pub open spec fn lowered_of_kind<T>(
    members: Seq<JsonValue>,
    k: Seq<char>,
    lower: spec_fn(JsonValue) -> core::result::Result<T, SpecError>,
) -> Seq<T>
    decreases members.len(),
{
    if members.len() == 0 {
        seq![]
    } else {
        let rest = lowered_of_kind(members.drop_first(), k, lower);
        if node_kind(members[0]) == Some(k) {
            seq![lower(members[0])->Ok_0] + rest
        } else {
            rest
        }
    }
}

/// What lowering a `Net` member gives.
pub open spec fn lower_net(j: JsonValue) -> core::result::Result<crate::ir::SpecSignal, SpecError> {
    lower_signal_spec(j, SignalKind::Net)
}

/// What lowering a `Variable` member gives.
pub open spec fn lower_variable(j: JsonValue) -> core::result::Result<crate::ir::SpecSignal, SpecError> {
    lower_signal_spec(j, SignalKind::Variable)
}

/// Every member of a kind that a module keeps lowers without error.
pub open spec fn members_lower(members: Seq<JsonValue>) -> bool {
    forall|i: int|
        0 <= i < members.len() ==> {
            let x = #[trigger] members[i];
            &&& node_kind(x) == Some("Parameter"@) ==> lower_parameter_spec(x) is Ok
            &&& node_kind(x) == Some("Port"@) ==> lower_port_spec(x) is Ok
            &&& node_kind(x) == Some("Net"@) ==> lower_net(x) is Ok
            &&& node_kind(x) == Some("Variable"@) ==> lower_variable(x) is Ok
            &&& node_kind(x) == Some("ProceduralBlock"@) ==> lower_procedure_spec(x) is Ok
        }
}

/// `m` with the kept members of `members` added to each of its lists.
pub open spec fn with_members(m: SpecModule, members: Seq<JsonValue>) -> SpecModule {
    SpecModule {
        parameters: m.parameters + lowered_of_kind(members, "Parameter"@, |x: JsonValue| lower_parameter_spec(x)),
        ports: m.ports + lowered_of_kind(members, "Port"@, |x: JsonValue| lower_port_spec(x)),
        nets: m.nets + lowered_of_kind(members, "Net"@, |x: JsonValue| lower_net(x)),
        variables: m.variables + lowered_of_kind(members, "Variable"@, |x: JsonValue| lower_variable(x)),
        procedures: m.procedures + lowered_of_kind(
            members,
            "ProceduralBlock"@,
            |x: JsonValue| lower_procedure_spec(x),
        ),
        ..m
    }
}

/// The kinds of member that a module keeps differ from each other.
proof fn lemma_member_kinds_differ()
    ensures
        "Parameter"@ != "Port"@,
        "Parameter"@ != "Net"@,
        "Parameter"@ != "Variable"@,
        "Parameter"@ != "ProceduralBlock"@,
        "Port"@ != "Net"@,
        "Port"@ != "Variable"@,
        "Port"@ != "ProceduralBlock"@,
        "Net"@ != "Variable"@,
        "Net"@ != "ProceduralBlock"@,
        "Variable"@ != "ProceduralBlock"@,
{
    reveal_strlit("Parameter");
    reveal_strlit("Port");
    reveal_strlit("Net");
    reveal_strlit("Variable");
    reveal_strlit("ProceduralBlock");
    assert("Parameter"@[1] == 'a');
    assert("Port"@[1] == 'o');
    assert("ProceduralBlock"@[1] == 'r');
    assert("Net"@[0] == 'N');
    assert("Variable"@[0] == 'V');
    assert("Parameter"@[0] == 'P');
    assert("Port"@[0] == 'P');
    assert("ProceduralBlock"@[0] == 'P');
}

#[verifier::spinoff_prover]
#[verifier::rlimit(100)]
proof fn lemma_fill_module(m: SpecModule, members: Seq<JsonValue>)
    requires
        members_lower(members),
    ensures
        fill_module_spec(m, members) == Ok::<SpecModule, SpecError>(with_members(m, members)),
    decreases members.len(),
{
    lemma_member_kinds_differ();
    if members.len() == 0 {
        assert(with_members(m, members) =~= m) by {
            assert(m.parameters + Seq::<crate::ir::SpecParameter>::empty() =~= m.parameters);
            assert(m.ports + Seq::<crate::ir::SpecPort>::empty() =~= m.ports);
            assert(m.nets + Seq::<crate::ir::SpecSignal>::empty() =~= m.nets);
            assert(m.variables + Seq::<crate::ir::SpecSignal>::empty() =~= m.variables);
            assert(m.procedures + Seq::<crate::ir::SpecProcedureBlock>::empty() =~= m.procedures);
        }
    } else {
        let x = members[0];
        let rest = members.drop_first();
        assert(members_lower(rest)) by {
            assert forall|i: int| 0 <= i < rest.len() implies #[trigger] rest[i] == members[i + 1] by {}
        }
        assert(node_kind(x) == Some("Parameter"@) ==> lower_parameter_spec(x) is Ok);
        assert(node_kind(x) == Some("Port"@) ==> lower_port_spec(x) is Ok);
        assert(node_kind(x) == Some("Net"@) ==> lower_net(x) is Ok);
        assert(node_kind(x) == Some("Variable"@) ==> lower_variable(x) is Ok);
        assert(node_kind(x) == Some("ProceduralBlock"@) ==> lower_procedure_spec(x) is Ok);
        let m2 = add_member_spec(m, x)->Ok_0;
        assert(add_member_spec(m, x) is Ok);
        lemma_fill_module(m2, rest);
        assert(with_members(m2, rest) =~= with_members(m, members)) by {
            assert(m2.parameters + lowered_of_kind(rest, "Parameter"@, |x: JsonValue| lower_parameter_spec(x))
                =~= m.parameters + lowered_of_kind(members, "Parameter"@, |x: JsonValue| lower_parameter_spec(x)));
            assert(m2.ports + lowered_of_kind(rest, "Port"@, |x: JsonValue| lower_port_spec(x))
                =~= m.ports + lowered_of_kind(members, "Port"@, |x: JsonValue| lower_port_spec(x)));
            assert(m2.nets + lowered_of_kind(rest, "Net"@, |x: JsonValue| lower_net(x))
                =~= m.nets + lowered_of_kind(members, "Net"@, |x: JsonValue| lower_net(x)));
            assert(m2.variables + lowered_of_kind(rest, "Variable"@, |x: JsonValue| lower_variable(x))
                =~= m.variables + lowered_of_kind(members, "Variable"@, |x: JsonValue| lower_variable(x)));
            assert(m2.procedures + lowered_of_kind(rest, "ProceduralBlock"@, |x: JsonValue| lower_procedure_spec(x))
                =~= m.procedures + lowered_of_kind(members, "ProceduralBlock"@, |x: JsonValue| lower_procedure_spec(x)));
        }
    }
}

/// A module instance whose body is an `InstanceBody` with a name and a members
/// array, and whose kept members all lower, lowers to the module with that
/// name and the body's location, holding the lowered `Parameter`, `Port`,
/// `Net`, `Variable` and `ProceduralBlock` members in their own lists, each in
/// member order; members of any other kind are dropped.
pub proof fn law_module_members_by_kind(j: JsonValue)
    requires
        json_get(j, "body"@) is Some,
        node_kind(json_get(j, "body"@).unwrap()) == Some("InstanceBody"@),
        field_str(json_get(j, "body"@).unwrap(), "name"@) is Some,
        field_array(json_get(j, "body"@).unwrap(), "members"@) is Some,
        members_lower(field_array(json_get(j, "body"@).unwrap(), "members"@).unwrap()),
    ensures
        lower_module_instance_spec(j) == Ok::<SpecModule, SpecError>(with_members(
            SpecModule {
                name: field_str(json_get(j, "body"@).unwrap(), "name"@).unwrap(),
                source: source_loc_of(json_get(j, "body"@).unwrap()),
                parameters: seq![],
                ports: seq![],
                nets: seq![],
                variables: seq![],
                procedures: seq![],
            },
            field_array(json_get(j, "body"@).unwrap(), "members"@).unwrap(),
        )),
{
    let body = json_get(j, "body"@).unwrap();
    assert(spec_expect_kind(body, "InstanceBody"@) is Ok);
    lemma_fill_module(
        SpecModule {
            name: field_str(body, "name"@).unwrap(),
            source: source_loc_of(body),
            parameters: seq![],
            ports: seq![],
            nets: seq![],
            variables: seq![],
            procedures: seq![],
        },
        field_array(body, "members"@).unwrap(),
    );
}

/// The members of the root that are module instances, lowered, in order.
pub open spec fn lowered_instances(ms: Seq<JsonValue>) -> Seq<SpecModule> {
    lowered_of_kind(ms, "Instance"@, |x: JsonValue| lower_module_instance_spec(x))
}

/// Member `i` of `ms` is an instance that fails to lower, and every instance
/// before it lowers.
pub open spec fn first_failing_instance(ms: Seq<JsonValue>, i: int) -> bool {
    &&& 0 <= i < ms.len()
    &&& node_kind(ms[i]) == Some("Instance"@)
    &&& lower_module_instance_spec(ms[i]) is Err
    &&& forall|k: int|
        0 <= k < i && node_kind(#[trigger] ms[k]) == Some("Instance"@)
            ==> lower_module_instance_spec(ms[k]) is Ok
}

proof fn lemma_instances_ok(ms: Seq<JsonValue>)
    requires
        forall|i: int|
            0 <= i < ms.len() && node_kind(#[trigger] ms[i]) == Some("Instance"@)
                ==> lower_module_instance_spec(ms[i]) is Ok,
    ensures
        lower_instances_spec(ms) == Ok::<Seq<SpecModule>, SpecError>(lowered_instances(ms)),
    decreases ms.len(),
{
    if ms.len() > 0 {
        let rest = ms.drop_first();
        assert forall|i: int|
            0 <= i < rest.len() && node_kind(#[trigger] rest[i]) == Some("Instance"@)
            implies lower_module_instance_spec(rest[i]) is Ok by {
            assert(rest[i] == ms[i + 1]);
        }
        lemma_instances_ok(rest);
        if node_kind(ms[0]) == Some("Instance"@) {
            assert(lower_module_instance_spec(ms[0]) is Ok);
        }
    }
}

proof fn lemma_instances_err(ms: Seq<JsonValue>, i: int)
    requires
        first_failing_instance(ms, i),
    ensures
        lower_instances_spec(ms) == Err::<Seq<SpecModule>, SpecError>(
            lower_module_instance_spec(ms[i])->Err_0,
        ),
    decreases i,
{
    if i > 0 {
        let rest = ms.drop_first();
        assert forall|k: int|
            0 <= k < i - 1 && node_kind(#[trigger] rest[k]) == Some("Instance"@)
            implies lower_module_instance_spec(rest[k]) is Ok by {
            assert(rest[k] == ms[k + 1]);
        }
        assert(rest[i - 1] == ms[i]);
        lemma_instances_err(rest, i - 1);
        if node_kind(ms[0]) == Some("Instance"@) {
            assert(lower_module_instance_spec(ms[0]) is Ok);
        }
    }
}

/// A document whose `design` is a `Root` with a members array lowers to the
/// design of its module instances, lowered in member order, where every
/// instance lowers; members of other kinds add nothing. Otherwise the error
/// of the first instance that fails is the result.
pub proof fn law_root_instances_in_order(j: JsonValue)
    requires
        json_get(j, "design"@) is Some,
        node_kind(json_get(j, "design"@).unwrap()) == Some("Root"@),
        field_array(json_get(j, "design"@).unwrap(), "members"@) is Some,
    ensures
        (forall|i: int|
            0 <= i < field_array(json_get(j, "design"@).unwrap(), "members"@).unwrap().len()
                && node_kind(#[trigger] field_array(json_get(j, "design"@).unwrap(), "members"@).unwrap()[i])
                == Some("Instance"@) ==> lower_module_instance_spec(
                field_array(json_get(j, "design"@).unwrap(), "members"@).unwrap()[i],
            ) is Ok) ==> lower_design_spec(j) == Ok::<SpecDesign, SpecError>(SpecDesign {
            modules: lowered_instances(field_array(json_get(j, "design"@).unwrap(), "members"@).unwrap()),
        }),
        forall|i: int|
            first_failing_instance(field_array(json_get(j, "design"@).unwrap(), "members"@).unwrap(), i)
                ==> lower_design_spec(j) == Err::<SpecDesign, SpecError>(
                lower_module_instance_spec(
                    #[trigger] field_array(json_get(j, "design"@).unwrap(), "members"@).unwrap()[i],
                )->Err_0,
            ),
{
    let d = json_get(j, "design"@).unwrap();
    let ms = field_array(d, "members"@).unwrap();
    assert(spec_expect_kind(d, "Root"@) is Ok);
    if forall|i: int|
        0 <= i < ms.len() && node_kind(#[trigger] ms[i]) == Some("Instance"@)
            ==> lower_module_instance_spec(ms[i]) is Ok {
        lemma_instances_ok(ms);
    }
    assert forall|i: int| first_failing_instance(ms, i) implies lower_design_spec(j) == Err::<
        SpecDesign,
        SpecError,
    >(lower_module_instance_spec(#[trigger] ms[i])->Err_0) by {
        lemma_instances_err(ms, i);
    }
}

proof fn lemma_expr_kind_names()
    ensures
        "Assignment"@.len() == 10,
        "Assignment"@[0] == 'A',
        "Assignment"@[1] == 's',
        "Assignment"@[2] == 's',
        "Assignment"@[3] == 'i',
        "Assignment"@[4] == 'g',
        "Assignment"@[5] == 'n',
        "Assignment"@[6] == 'm',
        "Assignment"@[7] == 'e',
        "Assignment"@[8] == 'n',
        "Assignment"@[9] == 't',
        "BinaryOp"@.len() == 8,
        "Conversion"@.len() == 10,
        "Conversion"@[0] == 'C',
        "Conversion"@[1] == 'o',
        "Conversion"@[2] == 'n',
        "Conversion"@[3] == 'v',
        "Conversion"@[4] == 'e',
        "Conversion"@[5] == 'r',
        "Conversion"@[6] == 's',
        "Conversion"@[7] == 'i',
        "Conversion"@[8] == 'o',
        "Conversion"@[9] == 'n',
        "IntegerLiteral"@.len() == 14,
        "NamedValue"@.len() == 10,
        "NamedValue"@[0] == 'N',
        "NamedValue"@[1] == 'a',
        "NamedValue"@[2] == 'm',
        "NamedValue"@[3] == 'e',
        "NamedValue"@[4] == 'd',
        "NamedValue"@[5] == 'V',
        "NamedValue"@[6] == 'a',
        "NamedValue"@[7] == 'l',
        "NamedValue"@[8] == 'u',
        "NamedValue"@[9] == 'e',
        "UnaryOp"@.len() == 7,
{
    reveal_strlit("Assignment");
    reveal_strlit("BinaryOp");
    reveal_strlit("Conversion");
    reveal_strlit("IntegerLiteral");
    reveal_strlit("NamedValue");
    reveal_strlit("UnaryOp");
}

/// An expression node lowers to the expression its kind names, with its
/// operands lowered and kept in their places: a named value keeps the symbol
/// read from `symbol`; a unary or binary operation keeps the operator read
/// from `op` and its operands (left stays left); a conversion keeps its
/// operand; an assignment keeps both sides and whether `isNonBlocking` is
/// `true`. Each keeps the node's `type` and `constant` texts and its span.
pub proof fn law_expression_nodes(j: JsonValue, a: SpecExpr, b: SpecExpr)
    ensures
        node_kind(j) == Some("NamedValue"@) && field_str(j, "symbol"@) is Some ==> lower_expr_spec(j)
            == Ok::<SpecExpr, SpecError>(SpecExpr::NamedValue {
            symbol: symbol_ref_of(field_str(j, "symbol"@).unwrap()),
            ty: field_str(j, "type"@),
            constant: field_str(j, "constant"@),
            source: source_span_of(j),
        }),
        node_kind(j) == Some("UnaryOp"@) && json_get(j, "operand"@) is Some && lower_expr_spec(
            json_get(j, "operand"@).unwrap(),
        ) == Ok::<SpecExpr, SpecError>(a) ==> lower_expr_spec(j) == Ok::<SpecExpr, SpecError>(
            SpecExpr::Unary {
                op: crate::lower::unary_op_of(field_str(j, "op"@)),
                expr: Box::new(a),
                ty: field_str(j, "type"@),
                constant: field_str(j, "constant"@),
                source: source_span_of(j),
            },
        ),
        node_kind(j) == Some("BinaryOp"@) && json_get(j, "left"@) is Some && json_get(j, "right"@) is Some
            && lower_expr_spec(json_get(j, "left"@).unwrap()) == Ok::<SpecExpr, SpecError>(a)
            && lower_expr_spec(json_get(j, "right"@).unwrap()) == Ok::<SpecExpr, SpecError>(b)
            ==> lower_expr_spec(j) == Ok::<SpecExpr, SpecError>(SpecExpr::Binary {
            op: crate::lower::binary_op_of(field_str(j, "op"@)),
            left: Box::new(a),
            right: Box::new(b),
            ty: field_str(j, "type"@),
            constant: field_str(j, "constant"@),
            source: source_span_of(j),
        }),
        node_kind(j) == Some("Conversion"@) && json_get(j, "operand"@) is Some && lower_expr_spec(
            json_get(j, "operand"@).unwrap(),
        ) == Ok::<SpecExpr, SpecError>(a) ==> lower_expr_spec(j) == Ok::<SpecExpr, SpecError>(
            SpecExpr::Conversion {
                ty: field_str(j, "type"@),
                expr: Box::new(a),
                constant: field_str(j, "constant"@),
                source: source_span_of(j),
            },
        ),
        node_kind(j) == Some("Assignment"@) && json_get(j, "left"@) is Some && json_get(j, "right"@) is Some
            && lower_expr_spec(json_get(j, "left"@).unwrap()) == Ok::<SpecExpr, SpecError>(a)
            && lower_expr_spec(json_get(j, "right"@).unwrap()) == Ok::<SpecExpr, SpecError>(b)
            ==> lower_expr_spec(j) == Ok::<SpecExpr, SpecError>(SpecExpr::Assignment {
            left: Box::new(a),
            right: Box::new(b),
            nonblocking: json_get(j, "isNonBlocking"@) == Some(JsonValue::Bool(true)),
            ty: field_str(j, "type"@),
            source: source_span_of(j),
        }),
{
    lemma_expr_kind_names();
}

proof fn lemma_stmt_kind_names()
    ensures
        "Assignment"@.len() == 10,
        "Block"@.len() == 5,
        "Block"@[0] == 'B',
        "Block"@[1] == 'l',
        "Block"@[2] == 'o',
        "Block"@[3] == 'c',
        "Block"@[4] == 'k',
        "Conditional"@.len() == 11,
        "Empty"@.len() == 5,
        "Empty"@[0] == 'E',
        "Empty"@[1] == 'm',
        "Empty"@[2] == 'p',
        "Empty"@[3] == 't',
        "Empty"@[4] == 'y',
        "ExpressionStatement"@.len() == 19,
        "ImmediateAssertion"@.len() == 18,
        "List"@.len() == 4,
        "Timed"@.len() == 5,
        "Timed"@[0] == 'T',
        "Timed"@[1] == 'i',
        "Timed"@[2] == 'm',
        "Timed"@[3] == 'e',
        "Timed"@[4] == 'd',
{
    reveal_strlit("Assignment");
    reveal_strlit("Block");
    reveal_strlit("Conditional");
    reveal_strlit("Empty");
    reveal_strlit("ExpressionStatement");
    reveal_strlit("ImmediateAssertion");
    reveal_strlit("List");
    reveal_strlit("Timed");
}

#[verifier::spinoff_prover]
#[verifier::rlimit(100)]
proof fn lemma_timed_node(j: JsonValue, ev: SpecEventControl, s: SpecStmt, t: SpecStmt, a: SpecExpr, b: SpecExpr, cs: Seq<SpecExpr>)
    requires
        node_kind(j) == Some("Timed"@),
    ensures
        node_kind(j) == Some("Timed"@) && json_get(j, "timing"@) is Some && json_get(j, "stmt"@) is Some
            && lower_event_control_spec(json_get(j, "timing"@).unwrap()) == Ok::<SpecEventControl, SpecError>(ev)
            && lower_stmt_spec(json_get(j, "stmt"@).unwrap()) == Ok::<SpecStmt, SpecError>(s)
            ==> lower_stmt_spec(j) == Ok::<SpecStmt, SpecError>(SpecStmt::Timed {
            event: ev,
            stmt: Box::new(s),
            source: source_span_of(j),
        }),
{
    lemma_stmt_kind_names();
}

#[verifier::spinoff_prover]
#[verifier::rlimit(100)]
proof fn lemma_expression_statement_node(j: JsonValue, ev: SpecEventControl, s: SpecStmt, t: SpecStmt, a: SpecExpr, b: SpecExpr, cs: Seq<SpecExpr>)
    requires
        node_kind(j) == Some("ExpressionStatement"@),
    ensures
        node_kind(j) == Some("ExpressionStatement"@) && json_get(j, "expr"@) is Some
            && node_kind(json_get(j, "expr"@).unwrap()) == Some("Assignment"@)
            && json_get(json_get(j, "expr"@).unwrap(), "left"@) is Some
            && json_get(json_get(j, "expr"@).unwrap(), "right"@) is Some
            && lower_expr_spec(json_get(json_get(j, "expr"@).unwrap(), "left"@).unwrap()) == Ok::<SpecExpr, SpecError>(a)
            && lower_expr_spec(json_get(json_get(j, "expr"@).unwrap(), "right"@).unwrap()) == Ok::<SpecExpr, SpecError>(b)
            ==> lower_stmt_spec(j) == Ok::<SpecStmt, SpecError>(SpecStmt::Assign {
            left: a,
            right: b,
            nonblocking: json_get(json_get(j, "expr"@).unwrap(), "isNonBlocking"@) == Some(JsonValue::Bool(true)),
            ty: field_str(json_get(j, "expr"@).unwrap(), "type"@),
            source: source_span_of(j),
        }),
        node_kind(j) == Some("ExpressionStatement"@) && json_get(j, "expr"@) is Some
            && node_kind(json_get(j, "expr"@).unwrap()) != Some("Assignment"@)
            && lower_expr_spec(json_get(j, "expr"@).unwrap()) == Ok::<SpecExpr, SpecError>(a)
            ==> lower_stmt_spec(j) == Ok::<SpecStmt, SpecError>(SpecStmt::Expr { expr: a, source: source_span_of(j) }),
{
    lemma_stmt_kind_names();
}

#[verifier::spinoff_prover]
#[verifier::rlimit(100)]
proof fn lemma_immediate_assertion_node(j: JsonValue, ev: SpecEventControl, s: SpecStmt, t: SpecStmt, a: SpecExpr, b: SpecExpr, cs: Seq<SpecExpr>)
    requires
        node_kind(j) == Some("ImmediateAssertion"@),
    ensures
        node_kind(j) == Some("ImmediateAssertion"@) && json_get(j, "cond"@) is Some
            && lower_expr_spec(json_get(j, "cond"@).unwrap()) == Ok::<SpecExpr, SpecError>(a)
            && json_get(j, "ifTrue"@) is None
            ==> lower_stmt_spec(j) == Ok::<SpecStmt, SpecError>(SpecStmt::Assert {
            kind: assertion_kind_of(field_str(j, "assertionKind"@)),
            condition: a,
            action: None,
            source: source_span_of(j),
        }),
        node_kind(j) == Some("ImmediateAssertion"@) && json_get(j, "cond"@) is Some
            && lower_expr_spec(json_get(j, "cond"@).unwrap()) == Ok::<SpecExpr, SpecError>(a)
            && json_get(j, "ifTrue"@) is Some
            && lower_stmt_spec(json_get(j, "ifTrue"@).unwrap()) == Ok::<SpecStmt, SpecError>(s)
            ==> lower_stmt_spec(j) == Ok::<SpecStmt, SpecError>(SpecStmt::Assert {
            kind: assertion_kind_of(field_str(j, "assertionKind"@)),
            condition: a,
            action: Some(Box::new(s)),
            source: source_span_of(j),
        }),
{
    lemma_stmt_kind_names();
}

#[verifier::spinoff_prover]
#[verifier::rlimit(100)]
proof fn lemma_conditional_node(j: JsonValue, ev: SpecEventControl, s: SpecStmt, t: SpecStmt, a: SpecExpr, b: SpecExpr, cs: Seq<SpecExpr>)
    requires
        node_kind(j) == Some("Conditional"@),
    ensures
        node_kind(j) == Some("Conditional"@) && field_array(j, "conditions"@) is Some
            && lower_conditions_spec(field_array(j, "conditions"@).unwrap()) == Ok::<Seq<SpecExpr>, SpecError>(cs)
            && json_get(j, "ifTrue"@) is Some
            && lower_stmt_spec(json_get(j, "ifTrue"@).unwrap()) == Ok::<SpecStmt, SpecError>(s)
            && json_get(j, "ifFalse"@) is Some
            && lower_stmt_spec(json_get(j, "ifFalse"@).unwrap()) == Ok::<SpecStmt, SpecError>(t)
            ==> lower_stmt_spec(j) == Ok::<SpecStmt, SpecError>(SpecStmt::If {
            conditions: cs,
            then_branch: Box::new(s),
            else_branch: Some(Box::new(t)),
            source: source_span_of(j),
        }),
        node_kind(j) == Some("Conditional"@) && field_array(j, "conditions"@) is Some
            && lower_conditions_spec(field_array(j, "conditions"@).unwrap()) == Ok::<Seq<SpecExpr>, SpecError>(cs)
            && json_get(j, "ifTrue"@) is Some
            && lower_stmt_spec(json_get(j, "ifTrue"@).unwrap()) == Ok::<SpecStmt, SpecError>(s)
            && json_get(j, "ifFalse"@) is None
            ==> lower_stmt_spec(j) == Ok::<SpecStmt, SpecError>(SpecStmt::If {
            conditions: cs,
            then_branch: Box::new(s),
            else_branch: None,
            source: source_span_of(j),
        }),{
    lemma_stmt_kind_names();
    assert(lower_stmt_spec(j) == lower_conditional_spec(j, source_span_of(j)));
}

/// A statement node lowers to the statement its kind names, with its parts
/// lowered and kept in their places: a timed statement keeps its event and
/// its statement; an expression statement whose expression is an assignment
/// becomes an assignment that keeps both sides (left stays left), whether
/// `isNonBlocking` is `true` and the assignment's `type` text, and one with
/// any other expression keeps that expression; an immediate assertion keeps
/// the kind named in `assertionKind`, its condition and its action; a
/// conditional keeps its conditions, its `ifTrue` branch as the then branch
/// and its `ifFalse` branch as the else branch. Each keeps the node's span.
pub proof fn law_statement_nodes(j: JsonValue, ev: SpecEventControl, s: SpecStmt, t: SpecStmt, a: SpecExpr, b: SpecExpr, cs: Seq<SpecExpr>)
    ensures
        node_kind(j) == Some("Timed"@) && json_get(j, "timing"@) is Some && json_get(j, "stmt"@) is Some
            && lower_event_control_spec(json_get(j, "timing"@).unwrap()) == Ok::<SpecEventControl, SpecError>(ev)
            && lower_stmt_spec(json_get(j, "stmt"@).unwrap()) == Ok::<SpecStmt, SpecError>(s)
            ==> lower_stmt_spec(j) == Ok::<SpecStmt, SpecError>(SpecStmt::Timed {
            event: ev,
            stmt: Box::new(s),
            source: source_span_of(j),
        }),
        node_kind(j) == Some("ExpressionStatement"@) && json_get(j, "expr"@) is Some
            && node_kind(json_get(j, "expr"@).unwrap()) == Some("Assignment"@)
            && json_get(json_get(j, "expr"@).unwrap(), "left"@) is Some
            && json_get(json_get(j, "expr"@).unwrap(), "right"@) is Some
            && lower_expr_spec(json_get(json_get(j, "expr"@).unwrap(), "left"@).unwrap()) == Ok::<SpecExpr, SpecError>(a)
            && lower_expr_spec(json_get(json_get(j, "expr"@).unwrap(), "right"@).unwrap()) == Ok::<SpecExpr, SpecError>(b)
            ==> lower_stmt_spec(j) == Ok::<SpecStmt, SpecError>(SpecStmt::Assign {
            left: a,
            right: b,
            nonblocking: json_get(json_get(j, "expr"@).unwrap(), "isNonBlocking"@) == Some(JsonValue::Bool(true)),
            ty: field_str(json_get(j, "expr"@).unwrap(), "type"@),
            source: source_span_of(j),
        }),
        node_kind(j) == Some("ExpressionStatement"@) && json_get(j, "expr"@) is Some
            && node_kind(json_get(j, "expr"@).unwrap()) != Some("Assignment"@)
            && lower_expr_spec(json_get(j, "expr"@).unwrap()) == Ok::<SpecExpr, SpecError>(a)
            ==> lower_stmt_spec(j) == Ok::<SpecStmt, SpecError>(SpecStmt::Expr { expr: a, source: source_span_of(j) }),
        node_kind(j) == Some("ImmediateAssertion"@) && json_get(j, "cond"@) is Some
            && lower_expr_spec(json_get(j, "cond"@).unwrap()) == Ok::<SpecExpr, SpecError>(a)
            && json_get(j, "ifTrue"@) is None
            ==> lower_stmt_spec(j) == Ok::<SpecStmt, SpecError>(SpecStmt::Assert {
            kind: assertion_kind_of(field_str(j, "assertionKind"@)),
            condition: a,
            action: None,
            source: source_span_of(j),
        }),
        node_kind(j) == Some("ImmediateAssertion"@) && json_get(j, "cond"@) is Some
            && lower_expr_spec(json_get(j, "cond"@).unwrap()) == Ok::<SpecExpr, SpecError>(a)
            && json_get(j, "ifTrue"@) is Some
            && lower_stmt_spec(json_get(j, "ifTrue"@).unwrap()) == Ok::<SpecStmt, SpecError>(s)
            ==> lower_stmt_spec(j) == Ok::<SpecStmt, SpecError>(SpecStmt::Assert {
            kind: assertion_kind_of(field_str(j, "assertionKind"@)),
            condition: a,
            action: Some(Box::new(s)),
            source: source_span_of(j),
        }),
        node_kind(j) == Some("Conditional"@) && field_array(j, "conditions"@) is Some
            && lower_conditions_spec(field_array(j, "conditions"@).unwrap()) == Ok::<Seq<SpecExpr>, SpecError>(cs)
            && json_get(j, "ifTrue"@) is Some
            && lower_stmt_spec(json_get(j, "ifTrue"@).unwrap()) == Ok::<SpecStmt, SpecError>(s)
            && json_get(j, "ifFalse"@) is Some
            && lower_stmt_spec(json_get(j, "ifFalse"@).unwrap()) == Ok::<SpecStmt, SpecError>(t)
            ==> lower_stmt_spec(j) == Ok::<SpecStmt, SpecError>(SpecStmt::If {
            conditions: cs,
            then_branch: Box::new(s),
            else_branch: Some(Box::new(t)),
            source: source_span_of(j),
        }),
        node_kind(j) == Some("Conditional"@) && field_array(j, "conditions"@) is Some
            && lower_conditions_spec(field_array(j, "conditions"@).unwrap()) == Ok::<Seq<SpecExpr>, SpecError>(cs)
            && json_get(j, "ifTrue"@) is Some
            && lower_stmt_spec(json_get(j, "ifTrue"@).unwrap()) == Ok::<SpecStmt, SpecError>(s)
            && json_get(j, "ifFalse"@) is None
            ==> lower_stmt_spec(j) == Ok::<SpecStmt, SpecError>(SpecStmt::If {
            conditions: cs,
            then_branch: Box::new(s),
            else_branch: None,
            source: source_span_of(j),
        }),
{
    lemma_stmt_kind_names();
    if node_kind(j) == Some("Timed"@) {
        lemma_timed_node(j, ev, s, t, a, b, cs);
    }
    if node_kind(j) == Some("ExpressionStatement"@) {
        lemma_expression_statement_node(j, ev, s, t, a, b, cs);
    }
    if node_kind(j) == Some("ImmediateAssertion"@) {
        lemma_immediate_assertion_node(j, ev, s, t, a, b, cs);
    }
    if node_kind(j) == Some("Conditional"@) {
        lemma_conditional_node(j, ev, s, t, a, b, cs);
    }
}


/// The members of a module keep what their nodes say: a parameter its name,
/// type text, value text, lowered initializer and location; a port its name,
/// the direction named in `direction`, its type text, the symbol read from
/// `internalSymbol` and its location; a net or variable its name, its type
/// text and the kind it was read as; a procedural block the kind named in
/// `procedureKind` and its lowered body.
pub proof fn law_module_member_nodes(j: JsonValue, n: Seq<char>, t: Seq<char>, e: SpecExpr, body: SpecStmt, kind: SignalKind)
    ensures
        field_str(j, "name"@) == Some(n) && field_str(j, "type"@) == Some(t) && json_get(j, "initializer"@) is None
            ==> lower_parameter_spec(j) == Ok::<crate::ir::SpecParameter, SpecError>(crate::ir::SpecParameter {
            name: n,
            ty: t,
            value: field_str(j, "value"@),
            initializer: None,
            source: source_loc_of(j),
        }),
        field_str(j, "name"@) == Some(n) && field_str(j, "type"@) == Some(t) && json_get(j, "initializer"@) is Some
            && lower_expr_spec(json_get(j, "initializer"@).unwrap()) == Ok::<SpecExpr, SpecError>(e)
            ==> lower_parameter_spec(j) == Ok::<crate::ir::SpecParameter, SpecError>(crate::ir::SpecParameter {
            name: n,
            ty: t,
            value: field_str(j, "value"@),
            initializer: Some(e),
            source: source_loc_of(j),
        }),
        field_str(j, "name"@) == Some(n) && field_str(j, "type"@) == Some(t)
            ==> lower_port_spec(j) == Ok::<crate::ir::SpecPort, SpecError>(crate::ir::SpecPort {
            name: n,
            direction: port_direction_of(field_str(j, "direction"@)),
            ty: t,
            internal_symbol: match field_str(j, "internalSymbol"@) {
                Some(x) => Some(symbol_ref_of(x)),
                None => None,
            },
            source: source_loc_of(j),
        }),
        field_str(j, "name"@) == Some(n) && field_str(j, "type"@) == Some(t)
            ==> lower_signal_spec(j, kind) == Ok::<crate::ir::SpecSignal, SpecError>(crate::ir::SpecSignal {
            name: n,
            kind,
            ty: t,
            source: source_loc_of(j),
        }),
        json_get(j, "body"@) is Some && lower_stmt_spec(json_get(j, "body"@).unwrap()) == Ok::<SpecStmt, SpecError>(body)
            ==> lower_procedure_spec(j) == Ok::<crate::ir::SpecProcedureBlock, SpecError>(crate::ir::SpecProcedureBlock {
            kind: procedure_kind_of(field_str(j, "procedureKind"@)),
            body,
            source: source_loc_of(j),
        }),
{
}


/// A location is read from `source_file`, `source_line` and `source_column`,
/// each into its own place, and only where all three are there; a span is
/// read from the file and the start and end lines and columns in the same way.
pub proof fn law_source_positions(j: JsonValue, file: Seq<char>, a: u64, b: u64, c: u64, d: u64)
    ensures
        field_str(j, "source_file"@) == Some(file) && field_u64(j, "source_line"@) == Some(a)
            && field_u64(j, "source_column"@) == Some(b)
            ==> source_loc_of(j) == Some(SpecSourceLoc { file, line: a, column: b }),
        field_str(j, "source_file"@) is None || field_u64(j, "source_line"@) is None
            || field_u64(j, "source_column"@) is None ==> source_loc_of(j) is None,
        field_str(j, "source_file_start"@) == Some(file) && field_u64(j, "source_line_start"@) == Some(a)
            && field_u64(j, "source_column_start"@) == Some(b) && field_u64(j, "source_line_end"@) == Some(c)
            && field_u64(j, "source_column_end"@) == Some(d)
            ==> source_span_of(j) == Some(SpecSourceSpan {
            file,
            line_start: a,
            column_start: b,
            line_end: c,
            column_end: d,
        }),
        field_str(j, "source_file_start"@) is None || field_u64(j, "source_line_start"@) is None
            || field_u64(j, "source_column_start"@) is None || field_u64(j, "source_line_end"@) is None
            || field_u64(j, "source_column_end"@) is None ==> source_span_of(j) is None,
{
}

} // verus!
