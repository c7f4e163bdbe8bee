use vstd::prelude::*;

use super::expr::{lower_expr_spec, SpecExpr};
use super::statement::{
    lower_assignment_stmt_spec, lower_conditional_spec, lower_stmt_spec, stmt_preorder,
    stmts_preorder, SpecStmt, Stmt,
};
use super::types::{
    declared_name_of, lower_data_type_spec, lower_optional_type_spec, type_range_of,
    SpecDataType, SpecTypeRange,
};
use super::types::{
    field_members_of, lower_field_members_spec, lower_type_fields_spec, SpecTypeField,
};
use super::types::{strip_ranges, type_text_of, wrap_ranges};
use crate::error::SpecError;
use super::design::{lower_design_spec, lower_instances_spec, SpecDesign};
use super::module::{add_member_spec, fill_module_spec, lower_module_instance_spec, SpecModule};
use super::types::{lower_type_decl_spec, SpecTypeDecl};
use crate::json::spec_expect_kind;
use super::module::{
    lower_parameter_spec, lower_port_spec, lower_procedure_spec, lower_signal_spec,
    SpecParameter, SpecPort, SpecProcedureBlock, SpecSignal,
};
use crate::ir::SignalKind;
use crate::lower::{port_direction_of, procedure_kind_of};
use super::types::{
    floating_kind_of, lower_enum_members_spec, predefined_integer_kind_of, scalar_kind_of,
    SpecEnumValue, SpecPredefinedIntegerType, SpecScalarType,
};
use crate::ir::symbol_ref_of;
use super::statement::{lower_conditions_spec, lower_event_control_spec, SpecEventControl};
use crate::lower::assertion_kind_of;
use crate::json::{field_array, JsonNumber};
use crate::text::{is_last_index, rfind_char};
use crate::json::field_str;
use crate::lower::source_loc_of;
use crate::ir::SpecSourceSpan;
use crate::json::{json_as_str, json_get, node_kind, JsonValue};
use crate::laws::{known_expr_kind, known_stmt_kind};
use crate::lower::source_span_of;
use crate::text::{
    decimal, find_char, is_digit, is_first_index, is_ws, lemma_decimal, parse_i64_spec, trim,
    trim_end, trim_start,
};

verus! {

/// The kinds of expression node that the typed lowering understands: those of
/// the IR and the two kinds of concatenation.
pub open spec fn known_typed_expr_kind(k: Seq<char>) -> bool {
    ||| known_expr_kind(k)
    ||| k == "Concatenation"@
    ||| k == "Replication"@
}

/// The kinds of type node that lowering understands.
pub open spec fn known_type_kind(k: Seq<char>) -> bool {
    ||| k == "ScalarType"@
    ||| k == "PredefinedIntegerType"@
    ||| k == "FloatingType"@
    ||| k == "PackedArrayType"@
    ||| k == "FixedSizeUnpackedArrayType"@
    ||| k == "DynamicArrayType"@
    ||| k == "DPIOpenArrayType"@
    ||| k == "AssociativeArrayType"@
    ||| k == "QueueType"@
    ||| k == "EnumType"@
    ||| k == "PackedStructType"@
    ||| k == "UnpackedStructType"@
    ||| k == "PackedUnionType"@
    ||| k == "UnpackedUnionType"@
    ||| k == "VoidType"@
    ||| k == "NullType"@
    ||| k == "CHandleType"@
    ||| k == "StringType"@
    ||| k == "EventType"@
    ||| k == "UnboundedType"@
    ||| k == "TypeRefType"@
    ||| k == "UntypedType"@
    ||| k == "SequenceType"@
    ||| k == "PropertyType"@
    ||| k == "VirtualInterfaceType"@
    ||| k == "TypeAlias"@
    ||| k == "ErrorType"@
}

/// A statement node of a kind that the typed lowering does not understand is
/// kept as an `Unknown` statement with that kind and the node's span.
pub proof fn law_unknown_statements_are_kept(j: JsonValue)
    ensures
        forall|k: Seq<char>|
            node_kind(j) == Some(k) && !known_stmt_kind(k) ==> lower_stmt_spec(j) == Ok::<
                SpecStmt,
                SpecError,
            >(SpecStmt::Unknown { kind: k, source: source_span_of(j) }),
        node_kind(j) is None ==> lower_stmt_spec(j) == Ok::<SpecStmt, SpecError>(
            SpecStmt::Unknown { kind: "<missing>"@, source: source_span_of(j) },
        ),
{
}

/// An expression node of a kind that the typed lowering does not understand is
/// kept as an `Unknown` expression with that kind, its lowered type and its
/// span; only a type that fails to lower makes the node fail.
pub proof fn law_unknown_expressions_are_kept(j: JsonValue)
    ensures
        forall|k: Seq<char>|
            node_kind(j) == Some(k) && !known_typed_expr_kind(k) ==> lower_expr_spec(j) == match lower_optional_type_spec(j) {
                Ok(ty) => Ok::<SpecExpr, SpecError>(SpecExpr::Unknown { kind: k, ty, source: source_span_of(j) }),
                Err(e) => Err(e),
            },
        node_kind(j) is None ==> lower_expr_spec(j) == match lower_optional_type_spec(j) {
            Ok(ty) => Ok::<SpecExpr, SpecError>(
                SpecExpr::Unknown { kind: "<missing>"@, ty, source: source_span_of(j) },
            ),
            Err(e) => Err(e),
        },
{
}

/// A type node of a kind that lowering does not understand is kept as an
/// `Unknown` type with that kind and the node's name; it never fails.
pub proof fn law_unknown_types_are_kept(j: JsonValue)
    requires
        json_as_str(j) is None,
    ensures
        forall|k: Seq<char>|
            node_kind(j) == Some(k) && !known_type_kind(k) ==> lower_data_type_spec(j) == Ok::<
                SpecDataType,
                SpecError,
            >(SpecDataType::Unknown { kind: k, name: declared_name_of(j) }),
        node_kind(j) is None ==> lower_data_type_spec(j) == Ok::<SpecDataType, SpecError>(
            SpecDataType::Unknown { kind: "<missing>"@, name: declared_name_of(j) },
        ),
{
}

/// The span of a typed statement model, whatever its variant.
pub open spec fn spec_stmt_span(s: SpecStmt) -> Option<SpecSourceSpan> {
    match s {
        SpecStmt::Empty { source } => source,
        SpecStmt::Block { source, .. } => source,
        SpecStmt::Timed { source, .. } => source,
        SpecStmt::If { source, .. } => source,
        SpecStmt::Assign { source, .. } => source,
        SpecStmt::Expr { source, .. } => source,
        SpecStmt::Assert { source, .. } => source,
        SpecStmt::Unknown { source, .. } => source,
    }
}

/// The span of a typed expression model, whatever its variant.
pub open spec fn spec_expr_span(e: SpecExpr) -> Option<SpecSourceSpan> {
    match e {
        SpecExpr::NamedValue { source, .. } => source,
        SpecExpr::IntegerLiteral { source, .. } => source,
        SpecExpr::Unary { source, .. } => source,
        SpecExpr::Binary { source, .. } => source,
        SpecExpr::Concatenation { source, .. } => source,
        SpecExpr::Replication { source, .. } => source,
        SpecExpr::Conversion { source, .. } => source,
        SpecExpr::Assignment { source, .. } => source,
        SpecExpr::Unknown { source, .. } => source,
    }
}

/// A statement lowered with types carries the span recorded on its node.
#[verifier::rlimit(100)]
pub proof fn law_statements_keep_their_span(j: JsonValue)
    ensures
        lower_stmt_spec(j) matches Ok(s) ==> spec_stmt_span(s) == source_span_of(j),
{
    let source = source_span_of(j);
    lemma_conditional_span(j, source);
    if let Some(e) = json_get(j, "expr"@) {
        lemma_assignment_span(e, source);
    }
    match node_kind(j) {
        None => {},
        Some(k) => {
            if k == "Empty"@ || k == "Timed"@ || k == "Block"@ || k == "List"@ {
            } else if k == "Conditional"@ {
                assert(lower_stmt_spec(j) == lower_conditional_spec(j, source));
            } else if k == "ExpressionStatement"@ {
            } else {
            }
        },
    }
}

proof fn lemma_conditional_span(j: JsonValue, source: Option<SpecSourceSpan>)
    ensures
        lower_conditional_spec(j, source) matches Ok(s) ==> spec_stmt_span(s) == source,
{
}

proof fn lemma_assignment_span(j: JsonValue, source: Option<SpecSourceSpan>)
    ensures
        lower_assignment_stmt_spec(j, source) matches Ok(s) ==> spec_stmt_span(s) == source,
{
}

/// An expression lowered with types carries the span recorded on its node.
#[verifier::rlimit(100)]
pub proof fn law_expressions_keep_their_span(j: JsonValue)
    ensures
        lower_expr_spec(j) matches Ok(e) ==> spec_expr_span(e) == source_span_of(j),
{
}

/// The statements directly nested in `s`.
pub open spec fn child_stmts(s: Stmt) -> Seq<Stmt> {
    match s {
        Stmt::Block { statements, .. } => statements@,
        Stmt::Timed { stmt, .. } => seq![*stmt],
        Stmt::If { then_branch, else_branch, .. } => match else_branch {
            Some(e) => seq![*then_branch, *e],
            None => seq![*then_branch],
        },
        Stmt::Assert { action, .. } => match action {
            Some(a) => seq![*a],
            None => seq![],
        },
        _ => seq![],
    }
}

proof fn lemma_stmts_preorder_contains(v: Seq<Stmt>, i: int)
    requires
        0 <= i < v.len(),
    ensures
        exists|k: int| 0 <= k < stmts_preorder(v).len() && stmts_preorder(v)[k] == v[i],
    decreases v.len(),
{
    let init = stmts_preorder(v.drop_last());
    let last = stmt_preorder(v.last());
    assert(stmts_preorder(v) == init + last);
    if i == v.len() - 1 {
        assert(last[0] == v.last());
        assert((init + last)[init.len() as int] == v[i]);
    } else {
        lemma_stmts_preorder_contains(v.drop_last(), i);
        let k = choose|k: int| 0 <= k < init.len() && init[k] == v.drop_last()[i];
        assert((init + last)[k] == v[i]);
    }
}

/// `for_each` on a typed statement visits it first, and visits every statement directly
/// nested in it after it.
pub proof fn law_for_each_visits_parent_then_children(s: Stmt)
    ensures
        stmt_preorder(s).len() >= 1,
        stmt_preorder(s)[0] == s,
        forall|i: int|
            0 <= i < child_stmts(s).len() ==> exists|k: int|
                1 <= k < stmt_preorder(s).len() && stmt_preorder(s)[k] == #[trigger] child_stmts(s)[i],
{
    let pre = stmt_preorder(s);
    assert(pre[0] == s);
    assert forall|i: int| 0 <= i < child_stmts(s).len() implies exists|k: int|
        1 <= k < pre.len() && pre[k] == #[trigger] child_stmts(s)[i] by {
        match s {
            Stmt::Block { statements, .. } => {
                lemma_stmts_preorder_contains(statements@, i);
                let rest = stmts_preorder(statements@);
                let k = choose|k: int| 0 <= k < rest.len() && rest[k] == statements@[i];
                assert(pre == seq![s] + rest);
                assert(pre[k + 1] == rest[k]);
            },
            Stmt::Timed { stmt, .. } => {
                assert(pre == seq![s] + stmt_preorder(*stmt));
                assert(pre[1] == *stmt);
            },
            Stmt::If { then_branch, else_branch, .. } => {
                let t = stmt_preorder(*then_branch);
                match else_branch {
                    Some(e) => {
                        let f = stmt_preorder(*e);
                        assert(pre == seq![s] + (t + f));
                        if i == 0 {
                            assert(pre[1] == *then_branch);
                        } else {
                            assert(pre[1 + t.len() as int] == f[0]);
                        }
                    },
                    None => {
                        assert(pre == seq![s] + (t + Seq::<Stmt>::empty()));
                        assert(pre[1] == *then_branch);
                    },
                }
            },
            Stmt::Assert { action, .. } => {
                match action {
                    Some(a) => {
                        assert(pre == seq![s] + stmt_preorder(*a));
                        assert(pre[1] == *a);
                    },
                    None => {},
                }
            },
            _ => {},
        }
    }
}

/// `n` in decimal, with a `-` before it when it is negative.
pub open spec fn signed_decimal(n: int) -> Seq<char> {
    if n < 0 {
        seq!['-'] + decimal((-n) as nat)
    } else {
        decimal(n as nat)
    }
}

proof fn lemma_signed_decimal(n: i64)
    ensures
        signed_decimal(n as int).len() > 0,
        forall|i: int|
            0 <= i < signed_decimal(n as int).len() ==> {
                let c = #[trigger] signed_decimal(n as int)[i];
                c == '-' || is_digit(c)
            },
        parse_i64_spec(signed_decimal(n as int)) == Some(n),
{
    let s = signed_decimal(n as int);
    if n < 0 {
        let d = decimal((-n) as nat);
        lemma_decimal((-n) as nat);
        assert(s.drop_first() =~= d);
        assert forall|i: int| 0 <= i < s.len() implies s[i] == '-' || is_digit(#[trigger] s[i]) by {
            if i > 0 {
                assert(s[i] == d[i - 1]);
            }
        }
    } else {
        lemma_decimal(n as nat);
        assert(is_digit(s[0]));
    }
}

/// Text that neither starts nor ends with whitespace is its own trim.
proof fn lemma_trim_unchanged(s: Seq<char>)
    requires
        s.len() > 0,
        !is_ws(s[0]),
        !is_ws(s.last()),
    ensures
        trim(s) == s,
{
    assert(trim_start(s) == s);
    assert(trim_end(s) == s);
}

/// A range written as `[left:right]` with both bounds in decimal reads back as
/// those bounds.
pub proof fn law_type_range_reads_its_bounds(left: i64, right: i64)
    ensures
        type_range_of(seq!['['] + signed_decimal(left as int) + seq![':'] + signed_decimal(
            right as int,
        ) + seq![']']) == (SpecTypeRange::Range { left, right }),
{
    let a = signed_decimal(left as int);
    let b = signed_decimal(right as int);
    lemma_signed_decimal(left);
    lemma_signed_decimal(right);
    let t = seq!['['] + a + seq![':'] + b + seq![']'];
    assert(t[0] == '[');
    assert(t.last() == ']');
    lemma_trim_unchanged(t);
    let body = t.subrange(1, t.len() - 1);
    assert(body =~= a + seq![':'] + b);
    let i = a.len() as int;
    assert(body[i] == ':');
    assert forall|k: int| 0 <= k < i implies body[k] != ':' by {
        assert(body[k] == a[k]);
        assert(a[k] == '-' || is_digit(a[k]));
    }
    assert(is_first_index(body, ':', i));
    let c = choose|c: int| is_first_index(body, ':', c);
    assert(c == i);
    assert(find_char(body, ':') == Some(i));
    assert(body.take(i) =~= a);
    assert(body.skip(i + 1) =~= b);
    assert(a[0] == '-' || is_digit(a[0]));
    assert(a[a.len() - 1] == '-' || is_digit(a[a.len() - 1]));
    assert(b[0] == '-' || is_digit(b[0]));
    assert(b[b.len() - 1] == '-' || is_digit(b[b.len() - 1]));
    lemma_trim_unchanged(a);
    lemma_trim_unchanged(b);
}

/// A member of a struct or union that is read as a field: one of kind
/// `Field`, or one with a `type`.
pub open spec fn is_field_member(m: JsonValue) -> bool {
    node_kind(m) == Some("Field"@) || json_get(m, "type"@) is Some
}

/// What one field member lowers to: its name, its lowered type and its
/// location; an error where the name or the type is missing, or the type
/// fails to lower.
pub open spec fn field_of(m: JsonValue) -> core::result::Result<SpecTypeField, SpecError> {
    match field_str(m, "name"@) {
        None => Err(SpecError::MissingField { field: "name"@, context: "type field"@ }),
        Some(name) => match json_get(m, "type"@) {
            None => Err(SpecError::MissingField { field: "type"@, context: "type field"@ }),
            Some(t) => match lower_data_type_spec(t) {
                Err(e) => Err(e),
                Ok(ty) => Ok(SpecTypeField { name, ty, source: source_loc_of(m) }),
            },
        },
    }
}

/// Every field member of `ms` lowers without error.
pub open spec fn fields_lower(ms: Seq<JsonValue>) -> bool {
    forall|i: int| 0 <= i < ms.len() && is_field_member(#[trigger] ms[i]) ==> field_of(ms[i]) is Ok
}

/// The field members of `ms`, lowered, in order; other members are skipped.
pub open spec fn lowered_fields(ms: Seq<JsonValue>) -> Seq<SpecTypeField>
    decreases ms.len(),
{
    if ms.len() == 0 {
        seq![]
    } else if is_field_member(ms[0]) {
        seq![field_of(ms[0])->Ok_0] + lowered_fields(ms.drop_first())
    } else {
        lowered_fields(ms.drop_first())
    }
}

proof fn lemma_field_members_ok(ms: Seq<JsonValue>)
    requires
        fields_lower(ms),
    ensures
        lower_field_members_spec(ms) == Ok::<Seq<SpecTypeField>, SpecError>(lowered_fields(ms)),
    decreases ms.len(),
{
    if ms.len() > 0 {
        let rest = ms.drop_first();
        assert forall|i: int| 0 <= i < rest.len() && is_field_member(#[trigger] rest[i]) implies field_of(
            rest[i],
        ) is Ok by {
            assert(rest[i] == ms[i + 1]);
        }
        lemma_field_members_ok(rest);
        if is_field_member(ms[0]) {
            assert(field_of(ms[0]) is Ok);
        }
    }
}

proof fn lemma_field_members_err(ms: Seq<JsonValue>, i: int)
    requires
        0 <= i < ms.len(),
        is_field_member(ms[i]),
        field_of(ms[i]) is Err,
        forall|k: int| 0 <= k < i && is_field_member(#[trigger] ms[k]) ==> field_of(ms[k]) is Ok,
    ensures
        lower_field_members_spec(ms) == Err::<Seq<SpecTypeField>, SpecError>(field_of(ms[i])->Err_0),
    decreases i,
{
    let rest = ms.drop_first();
    if i > 0 {
        assert forall|k: int| 0 <= k < i - 1 && is_field_member(#[trigger] rest[k]) implies field_of(
            rest[k],
        ) is Ok by {
            assert(rest[k] == ms[k + 1]);
        }
        assert(rest[i - 1] == ms[i]);
        lemma_field_members_err(rest, i - 1);
        if is_field_member(ms[0]) {
            assert(field_of(ms[0]) is Ok);
        }
    }
}

/// The fields of a struct or union type: its `members`, or else its `fields`;
/// none where neither is an array. Each member of kind `Field` or with a
/// `type` becomes a field, in order, and the others are skipped; the first
/// such member without a name, without a type or with a type that fails
/// makes the whole fail with that member's error.
pub proof fn law_type_fields(j: JsonValue)
    ensures
        field_members_of(j) is None ==> lower_type_fields_spec(j) == Ok::<Seq<SpecTypeField>, SpecError>(
            seq![],
        ),
        field_members_of(j) is Some && fields_lower(field_members_of(j).unwrap())
            ==> lower_type_fields_spec(j) == Ok::<Seq<SpecTypeField>, SpecError>(
            lowered_fields(field_members_of(j).unwrap()),
        ),
        forall|i: int|
            field_members_of(j) is Some && 0 <= i < field_members_of(j).unwrap().len()
                && is_field_member(#[trigger] field_members_of(j).unwrap()[i]) && field_of(
                field_members_of(j).unwrap()[i],
            ) is Err && (forall|k: int|
                0 <= k < i && is_field_member(#[trigger] field_members_of(j).unwrap()[k])
                    ==> field_of(field_members_of(j).unwrap()[k]) is Ok)
                ==> lower_type_fields_spec(j) == Err::<Seq<SpecTypeField>, SpecError>(
                field_of(field_members_of(j).unwrap()[i])->Err_0,
            ),
{
    if let Some(ms) = field_members_of(j) {
        if fields_lower(ms) {
            lemma_field_members_ok(ms);
        }
        assert forall|i: int|
            0 <= i < ms.len() && is_field_member(#[trigger] ms[i]) && field_of(ms[i]) is Err && (forall|k: int|
                0 <= k < i && is_field_member(#[trigger] ms[k]) ==> field_of(ms[k]) is Ok)
            implies lower_type_fields_spec(j) == Err::<Seq<SpecTypeField>, SpecError>(
            field_of(ms[i])->Err_0,
        ) by {
            lemma_field_members_err(ms, i);
        }
    }
}

/// `g` is one packed dimension written `[...]`, with no bracket inside.
pub open spec fn range_group(g: Seq<char>) -> bool {
    &&& g.len() >= 2
    &&& g[0] == '['
    &&& g[g.len() - 1] == ']'
    &&& forall|i: int| 1 <= i < g.len() - 1 ==> #[trigger] g[i] != '[' && g[i] != ']'
}

/// `b` holds no bracket.
pub open spec fn no_brackets(b: Seq<char>) -> bool {
    forall|i: int| 0 <= i < b.len() ==> #[trigger] b[i] != '[' && b[i] != ']'
}

/// The dimensions `gs` written one after the other.
pub open spec fn groups_text(gs: Seq<Seq<char>>) -> Seq<char>
    decreases gs.len(),
{
    if gs.len() == 0 {
        seq![]
    } else {
        groups_text(gs.drop_last()) + gs.last()
    }
}

/// `ty` inside the packed dimensions `gs`: the first innermost, the last
/// outermost.
pub open spec fn nested_ranges(ty: SpecDataType, gs: Seq<Seq<char>>) -> SpecDataType
    decreases gs.len(),
{
    if gs.len() == 0 {
        ty
    } else {
        SpecDataType::PackedArray {
            element: Box::new(nested_ranges(ty, gs.drop_last())),
            range: type_range_of(gs.last()),
        }
    }
}

/// The dimensions `gs`, last first.
pub open spec fn rev_groups(gs: Seq<Seq<char>>) -> Seq<Seq<char>>
    decreases gs.len(),
{
    if gs.len() == 0 {
        seq![]
    } else {
        seq![gs.last()] + rev_groups(gs.drop_last())
    }
}

proof fn lemma_trim_end_idem(s: Seq<char>)
    ensures
        trim_end(trim_end(s)) == trim_end(s),
        trim_end(s).len() > 0 ==> !is_ws(trim_end(s).last()),
    decreases s.len(),
{
    if s.len() > 0 && is_ws(s.last()) {
        lemma_trim_end_idem(s.drop_last());
    }
}

proof fn lemma_trim_end_keeps_first(s: Seq<char>)
    requires
        s.len() > 0,
        !is_ws(s[0]),
    ensures
        trim_end(s).len() > 0,
    decreases s.len(),
{
    if s.len() > 1 && is_ws(s.last()) {
        assert(s.drop_last()[0] == s[0]);
        lemma_trim_end_keeps_first(s.drop_last());
    }
}

proof fn lemma_groups_end(gs: Seq<Seq<char>>)
    requires
        gs.len() > 0,
        forall|i: int| 0 <= i < gs.len() ==> range_group(#[trigger] gs[i]),
    ensures
        groups_text(gs).len() > 0,
        groups_text(gs)[groups_text(gs).len() - 1] == ']',
{
    let g = gs.last();
    assert(range_group(gs[gs.len() - 1]));
    let t = groups_text(gs.drop_last()) + g;
    assert(t[t.len() - 1] == g[g.len() - 1]);
}

proof fn lemma_groups_brackets(gs: Seq<Seq<char>>)
    requires
        forall|i: int| 0 <= i < gs.len() ==> range_group(#[trigger] gs[i]),
    ensures
        groups_text(gs).len() == 0 || groups_text(gs)[groups_text(gs).len() - 1] == ']',
{
    if gs.len() > 0 {
        lemma_groups_end(gs);
    }
}

#[verifier::rlimit(100)]
proof fn lemma_strip(b: Seq<char>, gs: Seq<Seq<char>>)
    requires
        no_brackets(b),
        forall|i: int| 0 <= i < gs.len() ==> range_group(#[trigger] gs[i]),
    ensures
        strip_ranges(b + groups_text(gs)) == (
            if gs.len() == 0 {
                b
            } else {
                trim_end(b)
            },
            rev_groups(gs),
        ),
    decreases gs.len(),
{
    if gs.len() == 0 {
        assert(b + groups_text(gs) =~= b);
        if b.len() > 0 {
            assert(b[b.len() - 1] != ']');
        }
    } else {
        let p = gs.drop_last();
        let g = gs.last();
        assert(range_group(gs[gs.len() - 1]));
        assert forall|i: int| 0 <= i < p.len() implies range_group(#[trigger] p[i]) by {
            assert(p[i] == gs[i]);
        }
        let x = b + groups_text(p);
        let t = b + groups_text(gs);
        assert(t =~= x + g);
        assert(t.last() == ']') by {
            assert(t[t.len() - 1] == g[g.len() - 1]);
        }
        let d = t.drop_last();
        let n = x.len() as int;
        assert(d[n] == '[') by {
            assert(d[n] == g[0]);
        }
        assert forall|k: int| n < k < d.len() implies d[k] != '[' by {
            assert(d[k] == g[k - n]);
        }
        assert(is_last_index(d, '[', n));
        let c = choose|c: int| is_last_index(d, '[', c);
        assert(c == n);
        assert(rfind_char(d, '[') == Some(n));
        assert(d.take(n) =~= x);
        assert(t.skip(n) =~= g);
        lemma_groups_brackets(p);
        if p.len() == 0 {
            assert(x =~= b);
            crate::text::lemma_trim_end_prefix(b);
            let tb = trim_end(b);
            if tb.len() > 0 {
                assert(tb[tb.len() - 1] == b[tb.len() - 1]);
            }
            assert(strip_ranges(tb) == (tb, Seq::<Seq<char>>::empty()));
            assert(rev_groups(gs) =~= seq![g] + rev_groups(p));
        } else {
            lemma_groups_end(p);
            assert(x[x.len() - 1] == ']') by {
                assert(x[x.len() - 1] == groups_text(p)[groups_text(p).len() - 1]);
            }
            assert(trim_end(x) == x);
            lemma_strip(b, p);
        }
    }
}

proof fn lemma_wrap(ty: SpecDataType, gs: Seq<Seq<char>>)
    ensures
        wrap_ranges(ty, rev_groups(gs).map_values(|x: Seq<char>| type_range_of(x)))
            == nested_ranges(ty, gs),
    decreases gs.len(),
{
    if gs.len() > 0 {
        let p = gs.drop_last();
        lemma_wrap(ty, p);
        let m = rev_groups(gs).map_values(|x: Seq<char>| type_range_of(x));
        assert(m.drop_first() =~= rev_groups(p).map_values(|x: Seq<char>| type_range_of(x)));
    } else {
        assert(rev_groups(gs).map_values(|x: Seq<char>| type_range_of(x)) =~= Seq::<
            SpecTypeRange,
        >::empty());
    }
}

/// A type written as a built-in type name (with any `signed` or `unsigned`
/// words) followed by packed dimensions `[...]` reads as that type inside one
/// packed array per dimension: the first dimension innermost, each range read
/// from its own text, each used once.
pub proof fn law_type_text_with_packed_ranges(raw: Seq<char>, b: Seq<char>, gs: Seq<Seq<char>>)
    requires
        trim(raw) == b + groups_text(gs),
        b.len() > 0,
        !is_ws(b[0]),
        no_brackets(b),
        forall|i: int| 0 <= i < gs.len() ==> range_group(#[trigger] gs[i]),
        !(type_text_of(b) is Unknown),
    ensures
        type_text_of(raw) == nested_ranges(type_text_of(b), gs),
{
    let t = trim(raw);
    lemma_strip(b, gs);
    lemma_trim_end_idem(trim_start(raw));
    assert(trim_start(b) == b);
    lemma_trim_end_keeps_first(b);
    let tb = trim_end(b);
    crate::text::lemma_trim_end_prefix(b);
    if tb.len() > 0 {
        assert(tb[tb.len() - 1] == b[tb.len() - 1]);
    }
    assert(strip_ranges(tb) == (tb, Seq::<Seq<char>>::empty()));
    if gs.len() == 0 {
        assert(t =~= b);
    }
    assert(Seq::<Seq<char>>::empty().map_values(|x: Seq<char>| type_range_of(x)) =~= Seq::<
        SpecTypeRange,
    >::empty());
    lemma_wrap(
        crate::ast::types::base_type_of(
            crate::text::join_words(crate::ast::types::sign_words(crate::text::split_ws(tb)).1),
            crate::ast::types::sign_words(crate::text::split_ws(tb)).0,
            t,
        ),
        gs,
    );
}

proof fn lemma_type_kind_names()
    ensures
        "AssociativeArrayType"@.len() == 20,
        "AssociativeArrayType"@[0] == 'A',
        "AssociativeArrayType"@[1] == 's',
        "AssociativeArrayType"@[2] == 's',
        "AssociativeArrayType"@[3] == 'o',
        "AssociativeArrayType"@[4] == 'c',
        "AssociativeArrayType"@[5] == 'i',
        "AssociativeArrayType"@[6] == 'a',
        "AssociativeArrayType"@[7] == 't',
        "AssociativeArrayType"@[8] == 'i',
        "AssociativeArrayType"@[9] == 'v',
        "AssociativeArrayType"@[10] == 'e',
        "AssociativeArrayType"@[11] == 'A',
        "AssociativeArrayType"@[12] == 'r',
        "AssociativeArrayType"@[13] == 'r',
        "AssociativeArrayType"@[14] == 'a',
        "AssociativeArrayType"@[15] == 'y',
        "AssociativeArrayType"@[16] == 'T',
        "AssociativeArrayType"@[17] == 'y',
        "AssociativeArrayType"@[18] == 'p',
        "AssociativeArrayType"@[19] == 'e',
        "CHandleType"@.len() == 11,
        "CHandleType"@[0] == 'C',
        "CHandleType"@[1] == 'H',
        "CHandleType"@[2] == 'a',
        "CHandleType"@[3] == 'n',
        "CHandleType"@[4] == 'd',
        "CHandleType"@[5] == 'l',
        "CHandleType"@[6] == 'e',
        "CHandleType"@[7] == 'T',
        "CHandleType"@[8] == 'y',
        "CHandleType"@[9] == 'p',
        "CHandleType"@[10] == 'e',
        "DPIOpenArrayType"@.len() == 16,
        "DPIOpenArrayType"@[0] == 'D',
        "DPIOpenArrayType"@[1] == 'P',
        "DPIOpenArrayType"@[2] == 'I',
        "DPIOpenArrayType"@[3] == 'O',
        "DPIOpenArrayType"@[4] == 'p',
        "DPIOpenArrayType"@[5] == 'e',
        "DPIOpenArrayType"@[6] == 'n',
        "DPIOpenArrayType"@[7] == 'A',
        "DPIOpenArrayType"@[8] == 'r',
        "DPIOpenArrayType"@[9] == 'r',
        "DPIOpenArrayType"@[10] == 'a',
        "DPIOpenArrayType"@[11] == 'y',
        "DPIOpenArrayType"@[12] == 'T',
        "DPIOpenArrayType"@[13] == 'y',
        "DPIOpenArrayType"@[14] == 'p',
        "DPIOpenArrayType"@[15] == 'e',
        "DynamicArrayType"@.len() == 16,
        "DynamicArrayType"@[0] == 'D',
        "DynamicArrayType"@[1] == 'y',
        "DynamicArrayType"@[2] == 'n',
        "DynamicArrayType"@[3] == 'a',
        "DynamicArrayType"@[4] == 'm',
        "DynamicArrayType"@[5] == 'i',
        "DynamicArrayType"@[6] == 'c',
        "DynamicArrayType"@[7] == 'A',
        "DynamicArrayType"@[8] == 'r',
        "DynamicArrayType"@[9] == 'r',
        "DynamicArrayType"@[10] == 'a',
        "DynamicArrayType"@[11] == 'y',
        "DynamicArrayType"@[12] == 'T',
        "DynamicArrayType"@[13] == 'y',
        "DynamicArrayType"@[14] == 'p',
        "DynamicArrayType"@[15] == 'e',
        "EnumType"@.len() == 8,
        "EnumType"@[0] == 'E',
        "EnumType"@[1] == 'n',
        "EnumType"@[2] == 'u',
        "EnumType"@[3] == 'm',
        "EnumType"@[4] == 'T',
        "EnumType"@[5] == 'y',
        "EnumType"@[6] == 'p',
        "EnumType"@[7] == 'e',
        "ErrorType"@.len() == 9,
        "ErrorType"@[0] == 'E',
        "ErrorType"@[1] == 'r',
        "ErrorType"@[2] == 'r',
        "ErrorType"@[3] == 'o',
        "ErrorType"@[4] == 'r',
        "ErrorType"@[5] == 'T',
        "ErrorType"@[6] == 'y',
        "ErrorType"@[7] == 'p',
        "ErrorType"@[8] == 'e',
        "EventType"@.len() == 9,
        "EventType"@[0] == 'E',
        "EventType"@[1] == 'v',
        "EventType"@[2] == 'e',
        "EventType"@[3] == 'n',
        "EventType"@[4] == 't',
        "EventType"@[5] == 'T',
        "EventType"@[6] == 'y',
        "EventType"@[7] == 'p',
        "EventType"@[8] == 'e',
        "FixedSizeUnpackedArrayType"@.len() == 26,
        "FloatingType"@.len() == 12,
        "FloatingType"@[0] == 'F',
        "FloatingType"@[1] == 'l',
        "FloatingType"@[2] == 'o',
        "FloatingType"@[3] == 'a',
        "FloatingType"@[4] == 't',
        "FloatingType"@[5] == 'i',
        "FloatingType"@[6] == 'n',
        "FloatingType"@[7] == 'g',
        "FloatingType"@[8] == 'T',
        "FloatingType"@[9] == 'y',
        "FloatingType"@[10] == 'p',
        "FloatingType"@[11] == 'e',
        "NullType"@.len() == 8,
        "NullType"@[0] == 'N',
        "NullType"@[1] == 'u',
        "NullType"@[2] == 'l',
        "NullType"@[3] == 'l',
        "NullType"@[4] == 'T',
        "NullType"@[5] == 'y',
        "NullType"@[6] == 'p',
        "NullType"@[7] == 'e',
        "PackedArrayType"@.len() == 15,
        "PackedArrayType"@[0] == 'P',
        "PackedArrayType"@[1] == 'a',
        "PackedArrayType"@[2] == 'c',
        "PackedArrayType"@[3] == 'k',
        "PackedArrayType"@[4] == 'e',
        "PackedArrayType"@[5] == 'd',
        "PackedArrayType"@[6] == 'A',
        "PackedArrayType"@[7] == 'r',
        "PackedArrayType"@[8] == 'r',
        "PackedArrayType"@[9] == 'a',
        "PackedArrayType"@[10] == 'y',
        "PackedArrayType"@[11] == 'T',
        "PackedArrayType"@[12] == 'y',
        "PackedArrayType"@[13] == 'p',
        "PackedArrayType"@[14] == 'e',
        "PackedStructType"@.len() == 16,
        "PackedStructType"@[0] == 'P',
        "PackedStructType"@[1] == 'a',
        "PackedStructType"@[2] == 'c',
        "PackedStructType"@[3] == 'k',
        "PackedStructType"@[4] == 'e',
        "PackedStructType"@[5] == 'd',
        "PackedStructType"@[6] == 'S',
        "PackedStructType"@[7] == 't',
        "PackedStructType"@[8] == 'r',
        "PackedStructType"@[9] == 'u',
        "PackedStructType"@[10] == 'c',
        "PackedStructType"@[11] == 't',
        "PackedStructType"@[12] == 'T',
        "PackedStructType"@[13] == 'y',
        "PackedStructType"@[14] == 'p',
        "PackedStructType"@[15] == 'e',
        "PackedUnionType"@.len() == 15,
        "PackedUnionType"@[0] == 'P',
        "PackedUnionType"@[1] == 'a',
        "PackedUnionType"@[2] == 'c',
        "PackedUnionType"@[3] == 'k',
        "PackedUnionType"@[4] == 'e',
        "PackedUnionType"@[5] == 'd',
        "PackedUnionType"@[6] == 'U',
        "PackedUnionType"@[7] == 'n',
        "PackedUnionType"@[8] == 'i',
        "PackedUnionType"@[9] == 'o',
        "PackedUnionType"@[10] == 'n',
        "PackedUnionType"@[11] == 'T',
        "PackedUnionType"@[12] == 'y',
        "PackedUnionType"@[13] == 'p',
        "PackedUnionType"@[14] == 'e',
        "PredefinedIntegerType"@.len() == 21,
        "PropertyType"@.len() == 12,
        "PropertyType"@[0] == 'P',
        "PropertyType"@[1] == 'r',
        "PropertyType"@[2] == 'o',
        "PropertyType"@[3] == 'p',
        "PropertyType"@[4] == 'e',
        "PropertyType"@[5] == 'r',
        "PropertyType"@[6] == 't',
        "PropertyType"@[7] == 'y',
        "PropertyType"@[8] == 'T',
        "PropertyType"@[9] == 'y',
        "PropertyType"@[10] == 'p',
        "PropertyType"@[11] == 'e',
        "QueueType"@.len() == 9,
        "QueueType"@[0] == 'Q',
        "QueueType"@[1] == 'u',
        "QueueType"@[2] == 'e',
        "QueueType"@[3] == 'u',
        "QueueType"@[4] == 'e',
        "QueueType"@[5] == 'T',
        "QueueType"@[6] == 'y',
        "QueueType"@[7] == 'p',
        "QueueType"@[8] == 'e',
        "ScalarType"@.len() == 10,
        "ScalarType"@[0] == 'S',
        "ScalarType"@[1] == 'c',
        "ScalarType"@[2] == 'a',
        "ScalarType"@[3] == 'l',
        "ScalarType"@[4] == 'a',
        "ScalarType"@[5] == 'r',
        "ScalarType"@[6] == 'T',
        "ScalarType"@[7] == 'y',
        "ScalarType"@[8] == 'p',
        "ScalarType"@[9] == 'e',
        "SequenceType"@.len() == 12,
        "SequenceType"@[0] == 'S',
        "SequenceType"@[1] == 'e',
        "SequenceType"@[2] == 'q',
        "SequenceType"@[3] == 'u',
        "SequenceType"@[4] == 'e',
        "SequenceType"@[5] == 'n',
        "SequenceType"@[6] == 'c',
        "SequenceType"@[7] == 'e',
        "SequenceType"@[8] == 'T',
        "SequenceType"@[9] == 'y',
        "SequenceType"@[10] == 'p',
        "SequenceType"@[11] == 'e',
        "StringType"@.len() == 10,
        "StringType"@[0] == 'S',
        "StringType"@[1] == 't',
        "StringType"@[2] == 'r',
        "StringType"@[3] == 'i',
        "StringType"@[4] == 'n',
        "StringType"@[5] == 'g',
        "StringType"@[6] == 'T',
        "StringType"@[7] == 'y',
        "StringType"@[8] == 'p',
        "StringType"@[9] == 'e',
        "TypeAlias"@.len() == 9,
        "TypeAlias"@[0] == 'T',
        "TypeAlias"@[1] == 'y',
        "TypeAlias"@[2] == 'p',
        "TypeAlias"@[3] == 'e',
        "TypeAlias"@[4] == 'A',
        "TypeAlias"@[5] == 'l',
        "TypeAlias"@[6] == 'i',
        "TypeAlias"@[7] == 'a',
        "TypeAlias"@[8] == 's',
        "TypeRefType"@.len() == 11,
        "TypeRefType"@[0] == 'T',
        "TypeRefType"@[1] == 'y',
        "TypeRefType"@[2] == 'p',
        "TypeRefType"@[3] == 'e',
        "TypeRefType"@[4] == 'R',
        "TypeRefType"@[5] == 'e',
        "TypeRefType"@[6] == 'f',
        "TypeRefType"@[7] == 'T',
        "TypeRefType"@[8] == 'y',
        "TypeRefType"@[9] == 'p',
        "TypeRefType"@[10] == 'e',
        "UnboundedType"@.len() == 13,
        "UnpackedStructType"@.len() == 18,
        "UnpackedUnionType"@.len() == 17,
        "UntypedType"@.len() == 11,
        "UntypedType"@[0] == 'U',
        "UntypedType"@[1] == 'n',
        "UntypedType"@[2] == 't',
        "UntypedType"@[3] == 'y',
        "UntypedType"@[4] == 'p',
        "UntypedType"@[5] == 'e',
        "UntypedType"@[6] == 'd',
        "UntypedType"@[7] == 'T',
        "UntypedType"@[8] == 'y',
        "UntypedType"@[9] == 'p',
        "UntypedType"@[10] == 'e',
        "VirtualInterfaceType"@.len() == 20,
        "VirtualInterfaceType"@[0] == 'V',
        "VirtualInterfaceType"@[1] == 'i',
        "VirtualInterfaceType"@[2] == 'r',
        "VirtualInterfaceType"@[3] == 't',
        "VirtualInterfaceType"@[4] == 'u',
        "VirtualInterfaceType"@[5] == 'a',
        "VirtualInterfaceType"@[6] == 'l',
        "VirtualInterfaceType"@[7] == 'I',
        "VirtualInterfaceType"@[8] == 'n',
        "VirtualInterfaceType"@[9] == 't',
        "VirtualInterfaceType"@[10] == 'e',
        "VirtualInterfaceType"@[11] == 'r',
        "VirtualInterfaceType"@[12] == 'f',
        "VirtualInterfaceType"@[13] == 'a',
        "VirtualInterfaceType"@[14] == 'c',
        "VirtualInterfaceType"@[15] == 'e',
        "VirtualInterfaceType"@[16] == 'T',
        "VirtualInterfaceType"@[17] == 'y',
        "VirtualInterfaceType"@[18] == 'p',
        "VirtualInterfaceType"@[19] == 'e',
        "VoidType"@.len() == 8,
        "VoidType"@[0] == 'V',
        "VoidType"@[1] == 'o',
        "VoidType"@[2] == 'i',
        "VoidType"@[3] == 'd',
        "VoidType"@[4] == 'T',
        "VoidType"@[5] == 'y',
        "VoidType"@[6] == 'p',
        "VoidType"@[7] == 'e',
{
    reveal_strlit("AssociativeArrayType");
    reveal_strlit("CHandleType");
    reveal_strlit("DPIOpenArrayType");
    reveal_strlit("DynamicArrayType");
    reveal_strlit("EnumType");
    reveal_strlit("ErrorType");
    reveal_strlit("EventType");
    reveal_strlit("FixedSizeUnpackedArrayType");
    reveal_strlit("FloatingType");
    reveal_strlit("NullType");
    reveal_strlit("PackedArrayType");
    reveal_strlit("PackedStructType");
    reveal_strlit("PackedUnionType");
    reveal_strlit("PredefinedIntegerType");
    reveal_strlit("PropertyType");
    reveal_strlit("QueueType");
    reveal_strlit("ScalarType");
    reveal_strlit("SequenceType");
    reveal_strlit("StringType");
    reveal_strlit("TypeAlias");
    reveal_strlit("TypeRefType");
    reveal_strlit("UnboundedType");
    reveal_strlit("UnpackedStructType");
    reveal_strlit("UnpackedUnionType");
    reveal_strlit("UntypedType");
    reveal_strlit("VirtualInterfaceType");
    reveal_strlit("VoidType");
}

/// The kind of type node that slang writes for each type without fields.
pub open spec fn simple_type_kind(t: SpecDataType) -> Option<Seq<char>> {
    match t {
        SpecDataType::Void => Some("VoidType"@),
        SpecDataType::Null => Some("NullType"@),
        SpecDataType::CHandle => Some("CHandleType"@),
        SpecDataType::String => Some("StringType"@),
        SpecDataType::Event => Some("EventType"@),
        SpecDataType::Unbounded => Some("UnboundedType"@),
        SpecDataType::TypeRef => Some("TypeRefType"@),
        SpecDataType::Untyped => Some("UntypedType"@),
        SpecDataType::Sequence => Some("SequenceType"@),
        SpecDataType::Property => Some("PropertyType"@),
        SpecDataType::Error => Some("ErrorType"@),
        _ => None,
    }
}

/// A type node whose kind names a type without fields lowers to that type,
/// whatever else the node holds, so the eleven kinds lower to eleven
/// different types.
pub proof fn law_types_without_fields(j: JsonValue, t: SpecDataType)
    requires
        json_as_str(j) is None,
        simple_type_kind(t) is Some,
        node_kind(j) == simple_type_kind(t),
    ensures
        lower_data_type_spec(j) == Ok::<SpecDataType, SpecError>(t),
{
    lemma_type_kind_names();
}

/// The range written in member `range` of `j`: the range its text reads as,
/// or an unknown range `<missing>` where the node has none.
pub open spec fn written_range(j: JsonValue) -> SpecTypeRange {
    match field_str(j, "range"@) {
        Some(r) => type_range_of(r),
        None => SpecTypeRange::Unknown("<missing>"@),
    }
}

/// The bound in member `maxBound` of `j`, where it is an integer that fits in
/// a `u32`.
pub open spec fn written_bound(j: JsonValue) -> Option<u32> {
    match json_get(j, "maxBound"@) {
        Some(JsonValue::Number(JsonNumber::Unsigned(n))) => if n <= u32::MAX {
            Some(n as u32)
        } else {
            None
        },
        _ => None,
    }
}

/// An array or queue node whose `elementType` lowers to `el` lowers to the
/// array of `el` that its kind names: packed and fixed-size unpacked arrays
/// keep the range written in `range` (read from its text; `<missing>` only
/// where there is none), an open array keeps `isPacked`, a queue keeps a
/// `maxBound` that fits in a `u32`.
pub proof fn law_array_types(j: JsonValue, el: SpecDataType)
    requires
        json_as_str(j) is None,
        json_get(j, "elementType"@) is Some,
        lower_data_type_spec(json_get(j, "elementType"@).unwrap()) == Ok::<SpecDataType, SpecError>(el),
    ensures
        node_kind(j) == Some("PackedArrayType"@) ==> lower_data_type_spec(j) == Ok::<SpecDataType, SpecError>(
            SpecDataType::PackedArray { element: Box::new(el), range: written_range(j) },
        ),
        node_kind(j) == Some("FixedSizeUnpackedArrayType"@) ==> lower_data_type_spec(j) == Ok::<SpecDataType, SpecError>(
            SpecDataType::FixedSizeUnpackedArray { element: Box::new(el), range: written_range(j) },
        ),
        node_kind(j) == Some("DynamicArrayType"@) ==> lower_data_type_spec(j) == Ok::<SpecDataType, SpecError>(
            SpecDataType::DynamicArray { element: Box::new(el) },
        ),
        node_kind(j) == Some("DPIOpenArrayType"@) ==> lower_data_type_spec(j) == Ok::<SpecDataType, SpecError>(
            SpecDataType::DpiOpenArray { element: Box::new(el), packed: json_get(j, "isPacked"@) == Some(JsonValue::Bool(true)) },
        ),
        node_kind(j) == Some("QueueType"@) ==> lower_data_type_spec(j) == Ok::<SpecDataType, SpecError>(
            SpecDataType::Queue { element: Box::new(el), max_bound: written_bound(j) },
        ),
{
    lemma_type_kind_names();
    assert(written_range(j) == crate::ast::types::lower_type_range_of(j, "range"@));
    if node_kind(j) == Some("PackedArrayType"@) {
        assert(crate::ast::types::lower_type_field_spec(j, "elementType"@, "packed array type"@) == Ok::<SpecDataType, SpecError>(el));
    }
    if node_kind(j) == Some("DynamicArrayType"@) {
        assert(crate::ast::types::lower_type_field_spec(j, "elementType"@, "dynamic array type"@) == Ok::<SpecDataType, SpecError>(el));
    }
    if node_kind(j) == Some("DPIOpenArrayType"@) {
        assert(crate::ast::types::lower_type_field_spec(j, "elementType"@, "DPI open array type"@) == Ok::<SpecDataType, SpecError>(el));
    }
    if node_kind(j) == Some("QueueType"@) {
        assert(crate::ast::types::lower_type_field_spec(j, "elementType"@, "queue type"@) == Ok::<SpecDataType, SpecError>(el));
    }
    if node_kind(j) == Some("FixedSizeUnpackedArrayType"@) {
        assert(crate::ast::types::lower_type_field_spec(j, "elementType"@, "fixed size unpacked array type"@) == Ok::<SpecDataType, SpecError>(el));
    }
}

proof fn lemma_typed_expr_kind_names()
    ensures
        "Assignment"@.len() == 10,
        "Assignment"@[0] == 'A',
        "Assignment"@[1] == 's',
        "Assignment"@[2] == 's',
        "Assignment"@[3] == 'i',
        "Assignment"@[4] == 'g',
        "Assignment"@[5] == 'n',
        "Assignment"@[6] == 'm',
        "Assignment"@[7] == 'e',
        "Assignment"@[8] == 'n',
        "Assignment"@[9] == 't',
        "BinaryOp"@.len() == 8,
        "Concatenation"@.len() == 13,
        "Conversion"@.len() == 10,
        "Conversion"@[0] == 'C',
        "Conversion"@[1] == 'o',
        "Conversion"@[2] == 'n',
        "Conversion"@[3] == 'v',
        "Conversion"@[4] == 'e',
        "Conversion"@[5] == 'r',
        "Conversion"@[6] == 's',
        "Conversion"@[7] == 'i',
        "Conversion"@[8] == 'o',
        "Conversion"@[9] == 'n',
        "IntegerLiteral"@.len() == 14,
        "NamedValue"@.len() == 10,
        "NamedValue"@[0] == 'N',
        "NamedValue"@[1] == 'a',
        "NamedValue"@[2] == 'm',
        "NamedValue"@[3] == 'e',
        "NamedValue"@[4] == 'd',
        "NamedValue"@[5] == 'V',
        "NamedValue"@[6] == 'a',
        "NamedValue"@[7] == 'l',
        "NamedValue"@[8] == 'u',
        "NamedValue"@[9] == 'e',
        "Replication"@.len() == 11,
        "UnaryOp"@.len() == 7,
{
    reveal_strlit("Assignment");
    reveal_strlit("BinaryOp");
    reveal_strlit("Concatenation");
    reveal_strlit("Conversion");
    reveal_strlit("IntegerLiteral");
    reveal_strlit("NamedValue");
    reveal_strlit("Replication");
    reveal_strlit("UnaryOp");
}

/// A typed expression node whose type lowers to `ty` lowers to the expression
/// its kind names, with its operands lowered and kept in their places: a unary
/// or binary operation keeps the operator whose name is in `op` and its
/// operands (left stays left); a replication keeps its count and its
/// concatenation apart; a conversion keeps its operand; an assignment keeps
/// both sides and whether `isNonBlocking` is `true`. Each keeps `ty`, the
/// node's `constant` text and its span.
pub proof fn law_typed_expression_nodes(
    j: JsonValue,
    ty: Option<SpecDataType>,
    a: SpecExpr,
    b: SpecExpr,
    uop: crate::ast::expr::UnaryOp,
    bop: crate::ast::expr::BinaryOp,
)
    requires
        lower_optional_type_spec(j) == Ok::<Option<SpecDataType>, SpecError>(ty),
    ensures
        node_kind(j) == Some("UnaryOp"@) && json_get(j, "operand"@) is Some && lower_expr_spec(
            json_get(j, "operand"@).unwrap(),
        ) == Ok::<SpecExpr, SpecError>(a) && field_str(j, "op"@) is Some
            && crate::ast::expr::unary_op_of(field_str(j, "op"@).unwrap()) == Ok::<crate::ast::expr::UnaryOp, SpecError>(uop)
            ==> lower_expr_spec(j) == Ok::<SpecExpr, SpecError>(SpecExpr::Unary {
            op: uop,
            expr: Box::new(a),
            ty,
            constant: field_str(j, "constant"@),
            source: source_span_of(j),
        }),
        node_kind(j) == Some("BinaryOp"@) && json_get(j, "left"@) is Some && json_get(j, "right"@) is Some
            && lower_expr_spec(json_get(j, "left"@).unwrap()) == Ok::<SpecExpr, SpecError>(a)
            && lower_expr_spec(json_get(j, "right"@).unwrap()) == Ok::<SpecExpr, SpecError>(b)
            && field_str(j, "op"@) is Some
            && crate::ast::expr::binary_op_of(field_str(j, "op"@).unwrap()) == Ok::<crate::ast::expr::BinaryOp, SpecError>(bop)
            ==> lower_expr_spec(j) == Ok::<SpecExpr, SpecError>(SpecExpr::Binary {
            op: bop,
            left: Box::new(a),
            right: Box::new(b),
            ty,
            constant: field_str(j, "constant"@),
            source: source_span_of(j),
        }),
        node_kind(j) == Some("Replication"@) && json_get(j, "count"@) is Some && json_get(j, "concat"@) is Some
            && lower_expr_spec(json_get(j, "count"@).unwrap()) == Ok::<SpecExpr, SpecError>(a)
            && lower_expr_spec(json_get(j, "concat"@).unwrap()) == Ok::<SpecExpr, SpecError>(b)
            ==> lower_expr_spec(j) == Ok::<SpecExpr, SpecError>(SpecExpr::Replication {
            count: Box::new(a),
            concat: Box::new(b),
            ty,
            constant: field_str(j, "constant"@),
            source: source_span_of(j),
        }),
        node_kind(j) == Some("Conversion"@) && json_get(j, "operand"@) is Some && lower_expr_spec(
            json_get(j, "operand"@).unwrap(),
        ) == Ok::<SpecExpr, SpecError>(a) ==> lower_expr_spec(j) == Ok::<SpecExpr, SpecError>(
            SpecExpr::Conversion {
                ty,
                expr: Box::new(a),
                constant: field_str(j, "constant"@),
                source: source_span_of(j),
            },
        ),
        node_kind(j) == Some("Assignment"@) && json_get(j, "left"@) is Some && json_get(j, "right"@) is Some
            && lower_expr_spec(json_get(j, "left"@).unwrap()) == Ok::<SpecExpr, SpecError>(a)
            && lower_expr_spec(json_get(j, "right"@).unwrap()) == Ok::<SpecExpr, SpecError>(b)
            ==> lower_expr_spec(j) == Ok::<SpecExpr, SpecError>(SpecExpr::Assignment {
            left: Box::new(a),
            right: Box::new(b),
            nonblocking: json_get(j, "isNonBlocking"@) == Some(JsonValue::Bool(true)),
            ty,
            source: source_span_of(j),
        }),
{
    lemma_typed_expr_kind_names();
}

proof fn lemma_typed_stmt_kind_names()
    ensures
        "Assignment"@.len() == 10,
        "Block"@.len() == 5,
        "Block"@[0] == 'B',
        "Block"@[1] == 'l',
        "Block"@[2] == 'o',
        "Block"@[3] == 'c',
        "Block"@[4] == 'k',
        "Conditional"@.len() == 11,
        "Empty"@.len() == 5,
        "Empty"@[0] == 'E',
        "Empty"@[1] == 'm',
        "Empty"@[2] == 'p',
        "Empty"@[3] == 't',
        "Empty"@[4] == 'y',
        "ExpressionStatement"@.len() == 19,
        "ImmediateAssertion"@.len() == 18,
        "List"@.len() == 4,
        "Timed"@.len() == 5,
        "Timed"@[0] == 'T',
        "Timed"@[1] == 'i',
        "Timed"@[2] == 'm',
        "Timed"@[3] == 'e',
        "Timed"@[4] == 'd',
{
    reveal_strlit("Assignment");
    reveal_strlit("Block");
    reveal_strlit("Conditional");
    reveal_strlit("Empty");
    reveal_strlit("ExpressionStatement");
    reveal_strlit("ImmediateAssertion");
    reveal_strlit("List");
    reveal_strlit("Timed");
}

#[verifier::spinoff_prover]
#[verifier::rlimit(100)]
proof fn lemma_typed_timed_node(j: JsonValue, ev: SpecEventControl, s: SpecStmt, t: SpecStmt, a: SpecExpr, b: SpecExpr, cs: Seq<SpecExpr>)
    requires
        node_kind(j) == Some("Timed"@),
    ensures
        node_kind(j) == Some("Timed"@) && json_get(j, "timing"@) is Some && json_get(j, "stmt"@) is Some
            && lower_event_control_spec(json_get(j, "timing"@).unwrap()) == Ok::<SpecEventControl, SpecError>(ev)
            && lower_stmt_spec(json_get(j, "stmt"@).unwrap()) == Ok::<SpecStmt, SpecError>(s)
            ==> lower_stmt_spec(j) == Ok::<SpecStmt, SpecError>(SpecStmt::Timed {
            event: ev,
            stmt: Box::new(s),
            source: source_span_of(j),
        }),
{
    lemma_typed_stmt_kind_names();
}

#[verifier::spinoff_prover]
#[verifier::rlimit(100)]
proof fn lemma_typed_expression_statement_node(j: JsonValue, ev: SpecEventControl, s: SpecStmt, t: SpecStmt, a: SpecExpr, b: SpecExpr, cs: Seq<SpecExpr>)
    requires
        node_kind(j) == Some("ExpressionStatement"@),
    ensures
        node_kind(j) == Some("ExpressionStatement"@) && json_get(j, "expr"@) is Some
            && node_kind(json_get(j, "expr"@).unwrap()) == Some("Assignment"@)
            && json_get(json_get(j, "expr"@).unwrap(), "left"@) is Some
            && json_get(json_get(j, "expr"@).unwrap(), "right"@) is Some
            && lower_expr_spec(json_get(json_get(j, "expr"@).unwrap(), "left"@).unwrap()) == Ok::<SpecExpr, SpecError>(a)
            && lower_expr_spec(json_get(json_get(j, "expr"@).unwrap(), "right"@).unwrap()) == Ok::<SpecExpr, SpecError>(b)
            && lower_optional_type_spec(json_get(j, "expr"@).unwrap()) is Ok
            ==> lower_stmt_spec(j) == Ok::<SpecStmt, SpecError>(SpecStmt::Assign {
            left: a,
            right: b,
            nonblocking: json_get(json_get(j, "expr"@).unwrap(), "isNonBlocking"@) == Some(JsonValue::Bool(true)),
            ty: lower_optional_type_spec(json_get(j, "expr"@).unwrap())->Ok_0,
            source: source_span_of(j),
        }),
        node_kind(j) == Some("ExpressionStatement"@) && json_get(j, "expr"@) is Some
            && node_kind(json_get(j, "expr"@).unwrap()) != Some("Assignment"@)
            && lower_expr_spec(json_get(j, "expr"@).unwrap()) == Ok::<SpecExpr, SpecError>(a)
            ==> lower_stmt_spec(j) == Ok::<SpecStmt, SpecError>(SpecStmt::Expr { expr: a, source: source_span_of(j) }),
{
    lemma_typed_stmt_kind_names();
}

#[verifier::spinoff_prover]
#[verifier::rlimit(100)]
proof fn lemma_typed_immediate_assertion_node(j: JsonValue, ev: SpecEventControl, s: SpecStmt, t: SpecStmt, a: SpecExpr, b: SpecExpr, cs: Seq<SpecExpr>)
    requires
        node_kind(j) == Some("ImmediateAssertion"@),
    ensures
        node_kind(j) == Some("ImmediateAssertion"@) && json_get(j, "cond"@) is Some
            && lower_expr_spec(json_get(j, "cond"@).unwrap()) == Ok::<SpecExpr, SpecError>(a)
            && json_get(j, "ifTrue"@) is None
            ==> lower_stmt_spec(j) == Ok::<SpecStmt, SpecError>(SpecStmt::Assert {
            kind: assertion_kind_of(field_str(j, "assertionKind"@)),
            condition: a,
            action: None,
            source: source_span_of(j),
        }),
        node_kind(j) == Some("ImmediateAssertion"@) && json_get(j, "cond"@) is Some
            && lower_expr_spec(json_get(j, "cond"@).unwrap()) == Ok::<SpecExpr, SpecError>(a)
            && json_get(j, "ifTrue"@) is Some
            && lower_stmt_spec(json_get(j, "ifTrue"@).unwrap()) == Ok::<SpecStmt, SpecError>(s)
            ==> lower_stmt_spec(j) == Ok::<SpecStmt, SpecError>(SpecStmt::Assert {
            kind: assertion_kind_of(field_str(j, "assertionKind"@)),
            condition: a,
            action: Some(Box::new(s)),
            source: source_span_of(j),
        }),
{
    lemma_typed_stmt_kind_names();
}

#[verifier::spinoff_prover]
#[verifier::rlimit(100)]
proof fn lemma_typed_conditional_node(j: JsonValue, ev: SpecEventControl, s: SpecStmt, t: SpecStmt, a: SpecExpr, b: SpecExpr, cs: Seq<SpecExpr>)
    requires
        node_kind(j) == Some("Conditional"@),
    ensures
        node_kind(j) == Some("Conditional"@) && field_array(j, "conditions"@) is Some
            && lower_conditions_spec(field_array(j, "conditions"@).unwrap()) == Ok::<Seq<SpecExpr>, SpecError>(cs)
            && json_get(j, "ifTrue"@) is Some
            && lower_stmt_spec(json_get(j, "ifTrue"@).unwrap()) == Ok::<SpecStmt, SpecError>(s)
            && json_get(j, "ifFalse"@) is Some
            && lower_stmt_spec(json_get(j, "ifFalse"@).unwrap()) == Ok::<SpecStmt, SpecError>(t)
            ==> lower_stmt_spec(j) == Ok::<SpecStmt, SpecError>(SpecStmt::If {
            conditions: cs,
            then_branch: Box::new(s),
            else_branch: Some(Box::new(t)),
            source: source_span_of(j),
        }),
        node_kind(j) == Some("Conditional"@) && field_array(j, "conditions"@) is Some
            && lower_conditions_spec(field_array(j, "conditions"@).unwrap()) == Ok::<Seq<SpecExpr>, SpecError>(cs)
            && json_get(j, "ifTrue"@) is Some
            && lower_stmt_spec(json_get(j, "ifTrue"@).unwrap()) == Ok::<SpecStmt, SpecError>(s)
            && json_get(j, "ifFalse"@) is None
            ==> lower_stmt_spec(j) == Ok::<SpecStmt, SpecError>(SpecStmt::If {
            conditions: cs,
            then_branch: Box::new(s),
            else_branch: None,
            source: source_span_of(j),
        }),{
    lemma_typed_stmt_kind_names();
    assert(lower_stmt_spec(j) == lower_conditional_spec(j, source_span_of(j)));
}

/// A typed statement node lowers to the statement its kind names, with its parts
/// lowered and kept in their places: a timed statement keeps its event and
/// its statement; an expression statement whose expression is an assignment
/// becomes an assignment that keeps both sides (left stays left), whether
/// `isNonBlocking` is `true` and the assignment's lowered type, and one with
/// any other expression keeps that expression; an immediate assertion keeps
/// the kind named in `assertionKind`, its condition and its action; a
/// conditional keeps its conditions, its `ifTrue` branch as the then branch
/// and its `ifFalse` branch as the else branch. Each keeps the node's span.
pub proof fn law_typed_statement_nodes(j: JsonValue, ev: SpecEventControl, s: SpecStmt, t: SpecStmt, a: SpecExpr, b: SpecExpr, cs: Seq<SpecExpr>)
    ensures
        node_kind(j) == Some("Timed"@) && json_get(j, "timing"@) is Some && json_get(j, "stmt"@) is Some
            && lower_event_control_spec(json_get(j, "timing"@).unwrap()) == Ok::<SpecEventControl, SpecError>(ev)
            && lower_stmt_spec(json_get(j, "stmt"@).unwrap()) == Ok::<SpecStmt, SpecError>(s)
            ==> lower_stmt_spec(j) == Ok::<SpecStmt, SpecError>(SpecStmt::Timed {
            event: ev,
            stmt: Box::new(s),
            source: source_span_of(j),
        }),
        node_kind(j) == Some("ExpressionStatement"@) && json_get(j, "expr"@) is Some
            && node_kind(json_get(j, "expr"@).unwrap()) == Some("Assignment"@)
            && json_get(json_get(j, "expr"@).unwrap(), "left"@) is Some
            && json_get(json_get(j, "expr"@).unwrap(), "right"@) is Some
            && lower_expr_spec(json_get(json_get(j, "expr"@).unwrap(), "left"@).unwrap()) == Ok::<SpecExpr, SpecError>(a)
            && lower_expr_spec(json_get(json_get(j, "expr"@).unwrap(), "right"@).unwrap()) == Ok::<SpecExpr, SpecError>(b)
            && lower_optional_type_spec(json_get(j, "expr"@).unwrap()) is Ok
            ==> lower_stmt_spec(j) == Ok::<SpecStmt, SpecError>(SpecStmt::Assign {
            left: a,
            right: b,
            nonblocking: json_get(json_get(j, "expr"@).unwrap(), "isNonBlocking"@) == Some(JsonValue::Bool(true)),
            ty: lower_optional_type_spec(json_get(j, "expr"@).unwrap())->Ok_0,
            source: source_span_of(j),
        }),
        node_kind(j) == Some("ExpressionStatement"@) && json_get(j, "expr"@) is Some
            && node_kind(json_get(j, "expr"@).unwrap()) != Some("Assignment"@)
            && lower_expr_spec(json_get(j, "expr"@).unwrap()) == Ok::<SpecExpr, SpecError>(a)
            ==> lower_stmt_spec(j) == Ok::<SpecStmt, SpecError>(SpecStmt::Expr { expr: a, source: source_span_of(j) }),
        node_kind(j) == Some("ImmediateAssertion"@) && json_get(j, "cond"@) is Some
            && lower_expr_spec(json_get(j, "cond"@).unwrap()) == Ok::<SpecExpr, SpecError>(a)
            && json_get(j, "ifTrue"@) is None
            ==> lower_stmt_spec(j) == Ok::<SpecStmt, SpecError>(SpecStmt::Assert {
            kind: assertion_kind_of(field_str(j, "assertionKind"@)),
            condition: a,
            action: None,
            source: source_span_of(j),
        }),
        node_kind(j) == Some("ImmediateAssertion"@) && json_get(j, "cond"@) is Some
            && lower_expr_spec(json_get(j, "cond"@).unwrap()) == Ok::<SpecExpr, SpecError>(a)
            && json_get(j, "ifTrue"@) is Some
            && lower_stmt_spec(json_get(j, "ifTrue"@).unwrap()) == Ok::<SpecStmt, SpecError>(s)
            ==> lower_stmt_spec(j) == Ok::<SpecStmt, SpecError>(SpecStmt::Assert {
            kind: assertion_kind_of(field_str(j, "assertionKind"@)),
            condition: a,
            action: Some(Box::new(s)),
            source: source_span_of(j),
        }),
        node_kind(j) == Some("Conditional"@) && field_array(j, "conditions"@) is Some
            && lower_conditions_spec(field_array(j, "conditions"@).unwrap()) == Ok::<Seq<SpecExpr>, SpecError>(cs)
            && json_get(j, "ifTrue"@) is Some
            && lower_stmt_spec(json_get(j, "ifTrue"@).unwrap()) == Ok::<SpecStmt, SpecError>(s)
            && json_get(j, "ifFalse"@) is Some
            && lower_stmt_spec(json_get(j, "ifFalse"@).unwrap()) == Ok::<SpecStmt, SpecError>(t)
            ==> lower_stmt_spec(j) == Ok::<SpecStmt, SpecError>(SpecStmt::If {
            conditions: cs,
            then_branch: Box::new(s),
            else_branch: Some(Box::new(t)),
            source: source_span_of(j),
        }),
        node_kind(j) == Some("Conditional"@) && field_array(j, "conditions"@) is Some
            && lower_conditions_spec(field_array(j, "conditions"@).unwrap()) == Ok::<Seq<SpecExpr>, SpecError>(cs)
            && json_get(j, "ifTrue"@) is Some
            && lower_stmt_spec(json_get(j, "ifTrue"@).unwrap()) == Ok::<SpecStmt, SpecError>(s)
            && json_get(j, "ifFalse"@) is None
            ==> lower_stmt_spec(j) == Ok::<SpecStmt, SpecError>(SpecStmt::If {
            conditions: cs,
            then_branch: Box::new(s),
            else_branch: None,
            source: source_span_of(j),
        }),
{
    lemma_typed_stmt_kind_names();
    if node_kind(j) == Some("Timed"@) {
        lemma_typed_timed_node(j, ev, s, t, a, b, cs);
    }
    if node_kind(j) == Some("ExpressionStatement"@) {
        lemma_typed_expression_statement_node(j, ev, s, t, a, b, cs);
    }
    if node_kind(j) == Some("ImmediateAssertion"@) {
        lemma_typed_immediate_assertion_node(j, ev, s, t, a, b, cs);
    }
    if node_kind(j) == Some("Conditional"@) {
        lemma_typed_conditional_node(j, ev, s, t, a, b, cs);
    }
}


/// The values of an enum's members, where every member of kind `EnumValue`
/// has a name: one value per such member, in order, with its name, its
/// `value` text and its location; members of other kinds are skipped.
pub open spec fn enum_values_of(ms: Seq<JsonValue>) -> Seq<SpecEnumValue>
    decreases ms.len(),
{
    if ms.len() == 0 {
        seq![]
    } else if node_kind(ms[0]) == Some("EnumValue"@) {
        seq![SpecEnumValue {
            name: field_str(ms[0], "name"@).unwrap(),
            value: field_str(ms[0], "value"@),
            source: source_loc_of(ms[0]),
        }] + enum_values_of(ms.drop_first())
    } else {
        enum_values_of(ms.drop_first())
    }
}

/// Every member of kind `EnumValue` among `ms` has a name.
pub open spec fn enum_values_named(ms: Seq<JsonValue>) -> bool {
    forall|i: int|
        0 <= i < ms.len() && node_kind(#[trigger] ms[i]) == Some("EnumValue"@) ==> field_str(ms[i], "name"@) is Some
}

proof fn lemma_enum_members(ms: Seq<JsonValue>)
    requires
        enum_values_named(ms),
    ensures
        lower_enum_members_spec(ms) == Ok::<Seq<SpecEnumValue>, SpecError>(enum_values_of(ms)),
    decreases ms.len(),
{
    if ms.len() > 0 {
        let rest = ms.drop_first();
        assert forall|i: int| 0 <= i < rest.len() && node_kind(#[trigger] rest[i]) == Some("EnumValue"@)
            implies field_str(rest[i], "name"@) is Some by {
            assert(rest[i] == ms[i + 1]);
        }
        lemma_enum_members(rest);
        if node_kind(ms[0]) == Some("EnumValue"@) {
            assert(field_str(ms[0], "name"@) is Some);
        }
    }
}

/// A type node with fields lowers to the type its kind names and keeps what
/// the node says: a scalar the kind named in `name` and whether `isSigned` is
/// `true`; a predefined integer the kind named in `name`, signed as
/// `isSigned` says or, without it, unless the kind is `time` or unknown; a
/// floating type the kind named in `name`; an alias its name and the symbol
/// read from `target`; a virtual interface the symbols read from `iface` (or
/// else `interface`) and `modport`; an enum its lowered base (the type
/// `<missing>` where there is none) and its values in order; a struct or union
/// its lowered fields and its sign and tag flags; an associative array its
/// lowered element and index. Names come from `name` where it is not empty.
pub proof fn law_types_with_fields(
    j: JsonValue,
    el: SpecDataType,
    ix: SpecDataType,
    fs: Seq<SpecTypeField>,
)
    requires
        json_as_str(j) is None,
    ensures
        node_kind(j) == Some("ScalarType"@) ==> lower_data_type_spec(j) == Ok::<SpecDataType, SpecError>(
            SpecDataType::Scalar(SpecScalarType {
                kind: scalar_kind_of(field_str(j, "name"@)),
                signed: json_get(j, "isSigned"@) == Some(JsonValue::Bool(true)),
            }),
        ),
        node_kind(j) == Some("PredefinedIntegerType"@) ==> lower_data_type_spec(j) == Ok::<SpecDataType, SpecError>(
            SpecDataType::PredefinedInteger(SpecPredefinedIntegerType {
                kind: predefined_integer_kind_of(field_str(j, "name"@)),
                signed: match json_get(j, "isSigned"@) {
                    Some(JsonValue::Bool(b)) => b,
                    _ => !(predefined_integer_kind_of(field_str(j, "name"@)) is Time)
                        && !(predefined_integer_kind_of(field_str(j, "name"@)) is Unknown),
                },
            }),
        ),
        node_kind(j) == Some("FloatingType"@) ==> lower_data_type_spec(j) == Ok::<SpecDataType, SpecError>(
            SpecDataType::Floating(floating_kind_of(field_str(j, "name"@))),
        ),
        node_kind(j) == Some("TypeAlias"@) ==> lower_data_type_spec(j) == Ok::<SpecDataType, SpecError>(
            SpecDataType::Alias {
                name: match field_str(j, "name"@) {
                    Some(n) => n,
                    None => seq![],
                },
                target: match field_str(j, "target"@) {
                    Some(t) => Some(symbol_ref_of(t)),
                    None => None,
                },
            },
        ),
        node_kind(j) == Some("VirtualInterfaceType"@) ==> lower_data_type_spec(j) == Ok::<SpecDataType, SpecError>(
            SpecDataType::VirtualInterface {
                name: declared_name_of(j),
                iface: match field_str(j, "iface"@) {
                    Some(t) => Some(symbol_ref_of(t)),
                    None => match field_str(j, "interface"@) {
                        Some(t) => Some(symbol_ref_of(t)),
                        None => None,
                    },
                },
                modport: match field_str(j, "modport"@) {
                    Some(t) => Some(symbol_ref_of(t)),
                    None => None,
                },
                real_iface: json_get(j, "isRealIface"@) == Some(JsonValue::Bool(true)),
            },
        ),
        node_kind(j) == Some("EnumType"@) && json_get(j, "baseType"@) is None && field_array(j, "members"@) is Some
            && enum_values_named(field_array(j, "members"@).unwrap())
            ==> lower_data_type_spec(j) == Ok::<SpecDataType, SpecError>(SpecDataType::Enum {
            name: declared_name_of(j),
            base: Box::new(SpecDataType::Unknown { kind: "<missing>"@, name: None }),
            values: enum_values_of(field_array(j, "members"@).unwrap()),
        }),
        node_kind(j) == Some("EnumType"@) && json_get(j, "baseType"@) is Some
            && lower_data_type_spec(json_get(j, "baseType"@).unwrap()) == Ok::<SpecDataType, SpecError>(el)
            && field_array(j, "members"@) is Some && enum_values_named(field_array(j, "members"@).unwrap())
            ==> lower_data_type_spec(j) == Ok::<SpecDataType, SpecError>(SpecDataType::Enum {
            name: declared_name_of(j),
            base: Box::new(el),
            values: enum_values_of(field_array(j, "members"@).unwrap()),
        }),
        node_kind(j) == Some("PackedStructType"@) && lower_type_fields_spec(j) == Ok::<Seq<SpecTypeField>, SpecError>(fs)
            ==> lower_data_type_spec(j) == Ok::<SpecDataType, SpecError>(SpecDataType::PackedStruct {
            name: declared_name_of(j),
            signed: json_get(j, "isSigned"@) == Some(JsonValue::Bool(true)),
            fields: fs,
        }),
        node_kind(j) == Some("UnpackedStructType"@) && lower_type_fields_spec(j) == Ok::<Seq<SpecTypeField>, SpecError>(fs)
            ==> lower_data_type_spec(j) == Ok::<SpecDataType, SpecError>(SpecDataType::UnpackedStruct {
            name: declared_name_of(j),
            fields: fs,
        }),
        node_kind(j) == Some("PackedUnionType"@) && lower_type_fields_spec(j) == Ok::<Seq<SpecTypeField>, SpecError>(fs)
            ==> lower_data_type_spec(j) == Ok::<SpecDataType, SpecError>(SpecDataType::PackedUnion {
            name: declared_name_of(j),
            signed: json_get(j, "isSigned"@) == Some(JsonValue::Bool(true)),
            tagged: json_get(j, "isTagged"@) == Some(JsonValue::Bool(true)),
            fields: fs,
        }),
        node_kind(j) == Some("UnpackedUnionType"@) && lower_type_fields_spec(j) == Ok::<Seq<SpecTypeField>, SpecError>(fs)
            ==> lower_data_type_spec(j) == Ok::<SpecDataType, SpecError>(SpecDataType::UnpackedUnion {
            name: declared_name_of(j),
            tagged: json_get(j, "isTagged"@) == Some(JsonValue::Bool(true)),
            fields: fs,
        }),
        node_kind(j) == Some("AssociativeArrayType"@) && json_get(j, "elementType"@) is Some
            && lower_data_type_spec(json_get(j, "elementType"@).unwrap()) == Ok::<SpecDataType, SpecError>(el)
            && json_get(j, "indexType"@) is Some
            && lower_data_type_spec(json_get(j, "indexType"@).unwrap()) == Ok::<SpecDataType, SpecError>(ix)
            ==> lower_data_type_spec(j) == Ok::<SpecDataType, SpecError>(SpecDataType::AssociativeArray {
            element: Box::new(el),
            index: Some(Box::new(ix)),
        }),
        node_kind(j) == Some("AssociativeArrayType"@) && json_get(j, "elementType"@) is Some
            && lower_data_type_spec(json_get(j, "elementType"@).unwrap()) == Ok::<SpecDataType, SpecError>(el)
            && json_get(j, "indexType"@) is None
            ==> lower_data_type_spec(j) == Ok::<SpecDataType, SpecError>(SpecDataType::AssociativeArray {
            element: Box::new(el),
            index: None,
        }),
{
    lemma_type_kind_names();
    if let Some(ms) = field_array(j, "members"@) {
        if enum_values_named(ms) {
            lemma_enum_members(ms);
        }
    }
    if node_kind(j) == Some("AssociativeArrayType"@) && json_get(j, "elementType"@) is Some {
        assert(crate::ast::types::lower_type_field_spec(j, "elementType"@, "associative array type"@)
            == lower_data_type_spec(json_get(j, "elementType"@).unwrap()));
    }
}


/// The members of a typed module keep what their nodes say: a parameter its
/// name, its lowered `type`, its value text, its lowered initializer and its
/// location; a port its name, the direction named in `direction`, its lowered
/// `type`, the symbol read from `internalSymbol` and its location; a net or
/// variable its name, its lowered `type` and the kind it was read as; a
/// procedural block the kind named in `procedureKind` and its lowered body.
pub proof fn law_typed_module_member_nodes(
    j: JsonValue,
    n: Seq<char>,
    t: SpecDataType,
    e: SpecExpr,
    body: SpecStmt,
    kind: SignalKind,
)
    requires
        field_str(j, "name"@) == Some(n),
        json_get(j, "type"@) is Some,
        lower_data_type_spec(json_get(j, "type"@).unwrap()) == Ok::<SpecDataType, SpecError>(t),
    ensures
        json_get(j, "initializer"@) is None ==> lower_parameter_spec(j) == Ok::<SpecParameter, SpecError>(
            SpecParameter { name: n, ty: t, value: field_str(j, "value"@), initializer: None, source: source_loc_of(j) },
        ),
        json_get(j, "initializer"@) is Some && lower_expr_spec(json_get(j, "initializer"@).unwrap())
            == Ok::<SpecExpr, SpecError>(e) ==> lower_parameter_spec(j) == Ok::<SpecParameter, SpecError>(
            SpecParameter { name: n, ty: t, value: field_str(j, "value"@), initializer: Some(e), source: source_loc_of(j) },
        ),
        lower_port_spec(j) == Ok::<SpecPort, SpecError>(SpecPort {
            name: n,
            direction: port_direction_of(field_str(j, "direction"@)),
            ty: t,
            internal_symbol: match field_str(j, "internalSymbol"@) {
                Some(x) => Some(symbol_ref_of(x)),
                None => None,
            },
            source: source_loc_of(j),
        }),
        lower_signal_spec(j, kind) == Ok::<SpecSignal, SpecError>(
            SpecSignal { name: n, kind, ty: t, source: source_loc_of(j) },
        ),
{
}

/// A typed procedural block keeps the kind named in `procedureKind` and its
/// lowered body.
pub proof fn law_typed_procedure_nodes(j: JsonValue, body: SpecStmt)
    requires
        json_get(j, "body"@) is Some,
        lower_stmt_spec(json_get(j, "body"@).unwrap()) == Ok::<SpecStmt, SpecError>(body),
    ensures
        lower_procedure_spec(j) == Ok::<SpecProcedureBlock, SpecError>(SpecProcedureBlock {
            kind: procedure_kind_of(field_str(j, "procedureKind"@)),
            body,
            source: source_loc_of(j),
        }),
{
}

/// The type declarations among `members` (nodes of kind `EnumType` or
/// `TypeAlias`), each lowered, in order.
pub open spec fn type_decls_of(members: Seq<JsonValue>) -> Seq<SpecTypeDecl>
    decreases members.len(),
{
    if members.len() == 0 {
        seq![]
    } else {
        let rest = type_decls_of(members.drop_first());
        if node_kind(members[0]) == Some("EnumType"@) || node_kind(members[0]) == Some("TypeAlias"@) {
            seq![lower_type_decl_spec(members[0])->Ok_0] + rest
        } else {
            rest
        }
    }
}

/// The members of kind `k` among `members`, each lowered by `lower`, in order.
pub open spec fn typed_lowered_of_kind<T>(
    members: Seq<JsonValue>,
    k: Seq<char>,
    lower: spec_fn(JsonValue) -> core::result::Result<T, SpecError>,
) -> Seq<T>
    decreases members.len(),
{
    if members.len() == 0 {
        seq![]
    } else {
        let rest = typed_lowered_of_kind(members.drop_first(), k, lower);
        if node_kind(members[0]) == Some(k) {
            seq![lower(members[0])->Ok_0] + rest
        } else {
            rest
        }
    }
}

/// What lowering a `Net` member gives.
pub open spec fn lower_typed_net(j: JsonValue) -> core::result::Result<SpecSignal, SpecError> {
    lower_signal_spec(j, SignalKind::Net)
}

/// What lowering a `Variable` member gives.
pub open spec fn lower_typed_variable(j: JsonValue) -> core::result::Result<SpecSignal, SpecError> {
    lower_signal_spec(j, SignalKind::Variable)
}

/// Every member of a kind that a module keeps lowers without error.
pub open spec fn typed_members_lower(members: Seq<JsonValue>) -> bool {
    forall|i: int|
        0 <= i < members.len() ==> {
            let x = #[trigger] members[i];
            &&& (node_kind(x) == Some("EnumType"@) || node_kind(x) == Some("TypeAlias"@)) ==> lower_type_decl_spec(x) is Ok
            &&& node_kind(x) == Some("Parameter"@) ==> lower_parameter_spec(x) is Ok
            &&& node_kind(x) == Some("Port"@) ==> lower_port_spec(x) is Ok
            &&& node_kind(x) == Some("Net"@) ==> lower_typed_net(x) is Ok
            &&& node_kind(x) == Some("Variable"@) ==> lower_typed_variable(x) is Ok
            &&& node_kind(x) == Some("ProceduralBlock"@) ==> lower_procedure_spec(x) is Ok
        }
}

/// `m` with the kept members of `members` added to each of its lists.
pub open spec fn with_typed_members(m: SpecModule, members: Seq<JsonValue>) -> SpecModule {
    SpecModule {
        types: m.types + type_decls_of(members),
        parameters: m.parameters + typed_lowered_of_kind(members, "Parameter"@, |x: JsonValue| lower_parameter_spec(x)),
        ports: m.ports + typed_lowered_of_kind(members, "Port"@, |x: JsonValue| lower_port_spec(x)),
        nets: m.nets + typed_lowered_of_kind(members, "Net"@, |x: JsonValue| lower_typed_net(x)),
        variables: m.variables + typed_lowered_of_kind(members, "Variable"@, |x: JsonValue| lower_typed_variable(x)),
        procedures: m.procedures + typed_lowered_of_kind(
            members,
            "ProceduralBlock"@,
            |x: JsonValue| lower_procedure_spec(x),
        ),
        ..m
    }
}

proof fn lemma_typed_member_kind_names()
    ensures
        "EnumType"@.len() == 8,
        "EnumType"@[0] == 'E',
        "EnumType"@[1] == 'n',
        "EnumType"@[2] == 'u',
        "EnumType"@[3] == 'm',
        "EnumType"@[4] == 'T',
        "EnumType"@[5] == 'y',
        "EnumType"@[6] == 'p',
        "EnumType"@[7] == 'e',
        "InstanceBody"@.len() == 12,
        "Net"@.len() == 3,
        "Parameter"@.len() == 9,
        "Parameter"@[0] == 'P',
        "Parameter"@[1] == 'a',
        "Parameter"@[2] == 'r',
        "Parameter"@[3] == 'a',
        "Parameter"@[4] == 'm',
        "Parameter"@[5] == 'e',
        "Parameter"@[6] == 't',
        "Parameter"@[7] == 'e',
        "Parameter"@[8] == 'r',
        "Port"@.len() == 4,
        "ProceduralBlock"@.len() == 15,
        "TypeAlias"@.len() == 9,
        "TypeAlias"@[0] == 'T',
        "TypeAlias"@[1] == 'y',
        "TypeAlias"@[2] == 'p',
        "TypeAlias"@[3] == 'e',
        "TypeAlias"@[4] == 'A',
        "TypeAlias"@[5] == 'l',
        "TypeAlias"@[6] == 'i',
        "TypeAlias"@[7] == 'a',
        "TypeAlias"@[8] == 's',
        "Variable"@.len() == 8,
        "Variable"@[0] == 'V',
        "Variable"@[1] == 'a',
        "Variable"@[2] == 'r',
        "Variable"@[3] == 'i',
        "Variable"@[4] == 'a',
        "Variable"@[5] == 'b',
        "Variable"@[6] == 'l',
        "Variable"@[7] == 'e',
{
    reveal_strlit("EnumType");
    reveal_strlit("InstanceBody");
    reveal_strlit("Net");
    reveal_strlit("Parameter");
    reveal_strlit("Port");
    reveal_strlit("ProceduralBlock");
    reveal_strlit("TypeAlias");
    reveal_strlit("Variable");
}

#[verifier::spinoff_prover]
#[verifier::rlimit(100)]
proof fn lemma_fill_typed_module(m: SpecModule, members: Seq<JsonValue>)
    requires
        typed_members_lower(members),
    ensures
        fill_module_spec(m, members) == Ok::<SpecModule, SpecError>(with_typed_members(m, members)),
    decreases members.len(),
{
    lemma_typed_member_kind_names();
    if members.len() == 0 {
        assert(with_typed_members(m, members) =~= m) by {
            assert(m.types + Seq::<SpecTypeDecl>::empty() =~= m.types);
            assert(m.parameters + Seq::<SpecParameter>::empty() =~= m.parameters);
            assert(m.ports + Seq::<SpecPort>::empty() =~= m.ports);
            assert(m.nets + Seq::<SpecSignal>::empty() =~= m.nets);
            assert(m.variables + Seq::<SpecSignal>::empty() =~= m.variables);
            assert(m.procedures + Seq::<SpecProcedureBlock>::empty() =~= m.procedures);
        }
    } else {
        let x = members[0];
        let rest = members.drop_first();
        assert(typed_members_lower(rest)) by {
            assert forall|i: int| 0 <= i < rest.len() implies #[trigger] rest[i] == members[i + 1] by {}
        }
        assert((node_kind(x) == Some("EnumType"@) || node_kind(x) == Some("TypeAlias"@)) ==> lower_type_decl_spec(x) is Ok);
        assert(node_kind(x) == Some("Parameter"@) ==> lower_parameter_spec(x) is Ok);
        assert(node_kind(x) == Some("Port"@) ==> lower_port_spec(x) is Ok);
        assert(node_kind(x) == Some("Net"@) ==> lower_typed_net(x) is Ok);
        assert(node_kind(x) == Some("Variable"@) ==> lower_typed_variable(x) is Ok);
        assert(node_kind(x) == Some("ProceduralBlock"@) ==> lower_procedure_spec(x) is Ok);
        let m2 = add_member_spec(m, x)->Ok_0;
        assert(add_member_spec(m, x) is Ok);
        lemma_fill_typed_module(m2, rest);
        assert(with_typed_members(m2, rest) =~= with_typed_members(m, members)) by {
            assert(m2.types + type_decls_of(rest) =~= m.types + type_decls_of(members));
            assert(m2.parameters + typed_lowered_of_kind(rest, "Parameter"@, |x: JsonValue| lower_parameter_spec(x))
                =~= m.parameters + typed_lowered_of_kind(members, "Parameter"@, |x: JsonValue| lower_parameter_spec(x)));
            assert(m2.ports + typed_lowered_of_kind(rest, "Port"@, |x: JsonValue| lower_port_spec(x))
                =~= m.ports + typed_lowered_of_kind(members, "Port"@, |x: JsonValue| lower_port_spec(x)));
            assert(m2.nets + typed_lowered_of_kind(rest, "Net"@, |x: JsonValue| lower_typed_net(x))
                =~= m.nets + typed_lowered_of_kind(members, "Net"@, |x: JsonValue| lower_typed_net(x)));
            assert(m2.variables + typed_lowered_of_kind(rest, "Variable"@, |x: JsonValue| lower_typed_variable(x))
                =~= m.variables + typed_lowered_of_kind(members, "Variable"@, |x: JsonValue| lower_typed_variable(x)));
            assert(m2.procedures + typed_lowered_of_kind(rest, "ProceduralBlock"@, |x: JsonValue| lower_procedure_spec(x))
                =~= m.procedures + typed_lowered_of_kind(members, "ProceduralBlock"@, |x: JsonValue| lower_procedure_spec(x)));
        }
    }
}

/// A module instance whose body is an `InstanceBody` with a name and a members
/// array, and whose kept members all lower, lowers to the module with that
/// name and the body's location, holding the lowered `EnumType` and
/// `TypeAlias` declarations, and the lowered `Parameter`, `Port`, `Net`,
/// `Variable` and `ProceduralBlock` members, each in its own list in member
/// order; members of any other kind are dropped.
pub proof fn law_typed_module_members_by_kind(j: JsonValue)
    requires
        json_get(j, "body"@) is Some,
        node_kind(json_get(j, "body"@).unwrap()) == Some("InstanceBody"@),
        field_str(json_get(j, "body"@).unwrap(), "name"@) is Some,
        field_array(json_get(j, "body"@).unwrap(), "members"@) is Some,
        typed_members_lower(field_array(json_get(j, "body"@).unwrap(), "members"@).unwrap()),
    ensures
        lower_module_instance_spec(j) == Ok::<SpecModule, SpecError>(with_typed_members(
            SpecModule {
                name: field_str(json_get(j, "body"@).unwrap(), "name"@).unwrap(),
                source: source_loc_of(json_get(j, "body"@).unwrap()),
                types: seq![],
                parameters: seq![],
                ports: seq![],
                nets: seq![],
                variables: seq![],
                procedures: seq![],
            },
            field_array(json_get(j, "body"@).unwrap(), "members"@).unwrap(),
        )),
{
    let body = json_get(j, "body"@).unwrap();
    assert(spec_expect_kind(body, "InstanceBody"@) is Ok);
    lemma_fill_typed_module(
        SpecModule {
            name: field_str(body, "name"@).unwrap(),
            source: source_loc_of(body),
            types: seq![],
            parameters: seq![],
            ports: seq![],
            nets: seq![],
            variables: seq![],
            procedures: seq![],
        },
        field_array(body, "members"@).unwrap(),
    );
}


/// The members of the root that are module instances, lowered with types, in order.
pub open spec fn typed_lowered_instances(ms: Seq<JsonValue>) -> Seq<SpecModule> {
    typed_lowered_of_kind(ms, "Instance"@, |x: JsonValue| lower_module_instance_spec(x))
}

/// Member `i` of `ms` is an instance that fails to lower, and every instance
/// before it lowers.
pub open spec fn first_failing_typed_instance(ms: Seq<JsonValue>, i: int) -> bool {
    &&& 0 <= i < ms.len()
    &&& node_kind(ms[i]) == Some("Instance"@)
    &&& lower_module_instance_spec(ms[i]) is Err
    &&& forall|k: int|
        0 <= k < i && node_kind(#[trigger] ms[k]) == Some("Instance"@)
            ==> lower_module_instance_spec(ms[k]) is Ok
}

proof fn lemma_typed_instances_ok(ms: Seq<JsonValue>)
    requires
        forall|i: int|
            0 <= i < ms.len() && node_kind(#[trigger] ms[i]) == Some("Instance"@)
                ==> lower_module_instance_spec(ms[i]) is Ok,
    ensures
        lower_instances_spec(ms) == Ok::<Seq<SpecModule>, SpecError>(typed_lowered_instances(ms)),
    decreases ms.len(),
{
    if ms.len() > 0 {
        let rest = ms.drop_first();
        assert forall|i: int|
            0 <= i < rest.len() && node_kind(#[trigger] rest[i]) == Some("Instance"@)
            implies lower_module_instance_spec(rest[i]) is Ok by {
            assert(rest[i] == ms[i + 1]);
        }
        lemma_typed_instances_ok(rest);
        if node_kind(ms[0]) == Some("Instance"@) {
            assert(lower_module_instance_spec(ms[0]) is Ok);
        }
    }
}

proof fn lemma_typed_instances_err(ms: Seq<JsonValue>, i: int)
    requires
        first_failing_typed_instance(ms, i),
    ensures
        lower_instances_spec(ms) == Err::<Seq<SpecModule>, SpecError>(
            lower_module_instance_spec(ms[i])->Err_0,
        ),
    decreases i,
{
    if i > 0 {
        let rest = ms.drop_first();
        assert forall|k: int|
            0 <= k < i - 1 && node_kind(#[trigger] rest[k]) == Some("Instance"@)
            implies lower_module_instance_spec(rest[k]) is Ok by {
            assert(rest[k] == ms[k + 1]);
        }
        assert(rest[i - 1] == ms[i]);
        lemma_typed_instances_err(rest, i - 1);
        if node_kind(ms[0]) == Some("Instance"@) {
            assert(lower_module_instance_spec(ms[0]) is Ok);
        }
    }
}

/// A document whose `design` is a `Root` with a members array lowers to the
/// design of its module instances, lowered in member order, where every
/// instance lowers; members of other kinds add nothing. Otherwise the error
/// of the first instance that fails is the result.
pub proof fn law_typed_root_instances_in_order(j: JsonValue)
    requires
        json_get(j, "design"@) is Some,
        node_kind(json_get(j, "design"@).unwrap()) == Some("Root"@),
        field_array(json_get(j, "design"@).unwrap(), "members"@) is Some,
    ensures
        (forall|i: int|
            0 <= i < field_array(json_get(j, "design"@).unwrap(), "members"@).unwrap().len()
                && node_kind(#[trigger] field_array(json_get(j, "design"@).unwrap(), "members"@).unwrap()[i])
                == Some("Instance"@) ==> lower_module_instance_spec(
                field_array(json_get(j, "design"@).unwrap(), "members"@).unwrap()[i],
            ) is Ok) ==> lower_design_spec(j) == Ok::<SpecDesign, SpecError>(SpecDesign {
            modules: typed_lowered_instances(field_array(json_get(j, "design"@).unwrap(), "members"@).unwrap()),
        }),
        forall|i: int|
            first_failing_typed_instance(field_array(json_get(j, "design"@).unwrap(), "members"@).unwrap(), i)
                ==> lower_design_spec(j) == Err::<SpecDesign, SpecError>(
                lower_module_instance_spec(
                    #[trigger] field_array(json_get(j, "design"@).unwrap(), "members"@).unwrap()[i],
                )->Err_0,
            ),
{
    let d = json_get(j, "design"@).unwrap();
    let ms = field_array(d, "members"@).unwrap();
    assert(spec_expect_kind(d, "Root"@) is Ok);
    if forall|i: int|
        0 <= i < ms.len() && node_kind(#[trigger] ms[i]) == Some("Instance"@)
            ==> lower_module_instance_spec(ms[i]) is Ok {
        lemma_typed_instances_ok(ms);
    }
    assert forall|i: int| first_failing_typed_instance(ms, i) implies lower_design_spec(j) == Err::<
        SpecDesign,
        SpecError,
    >(lower_module_instance_spec(#[trigger] ms[i])->Err_0) by {
        lemma_typed_instances_err(ms, i);
    }
}

} // verus!
