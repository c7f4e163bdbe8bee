use rslang::{
    from_first_brace, lower_slang_ast, BinaryOp, Design, Edge, Error, EventControl, Expr,
    JsonNumber, JsonValue, PortDirection, ProcedureKind, SignalKind, Stmt, SymbolRef,
};

fn to_library(value: &serde_json::Value) -> JsonValue {
    match value {
        serde_json::Value::Null => JsonValue::Null,
        serde_json::Value::Bool(b) => JsonValue::Bool(*b),
        serde_json::Value::Number(n) => match (n.as_u64(), n.as_i64()) {
            (Some(u), _) => JsonValue::Number(JsonNumber::Unsigned(u)),
            (None, Some(i)) => JsonValue::Number(JsonNumber::Negative(i)),
            (None, None) => JsonValue::Number(JsonNumber::Real),
        },
        serde_json::Value::String(s) => JsonValue::String(s.clone()),
        serde_json::Value::Array(items) => JsonValue::Array(items.iter().map(to_library).collect()),
        serde_json::Value::Object(members) => JsonValue::Object(
            members
                .iter()
                .map(|(k, v)| (k.clone(), to_library(v)))
                .collect(),
        ),
    }
}

fn json(text: &str) -> JsonValue {
    to_library(&serde_json::from_str(text).expect("valid JSON"))
}

fn lower(text: &str) -> rslang::Result<Design> {
    lower_slang_ast(&json(text))
}

/// A document with one module `m` whose members are `members`.
fn module_doc(members: &str) -> String {
    format!(
        r#"{{"design": {{"kind": "Root", "members": [
            {{"kind": "CompilationUnit"}},
            {{"kind": "Instance", "body": {{"kind": "InstanceBody", "name": "m", "members": [{members}]}}}}
        ]}}}}"#
    )
}

/// A document with one always block whose body is `body`.
fn procedure_doc(body: &str) -> String {
    module_doc(&format!(
        r#"{{"kind": "ProceduralBlock", "procedureKind": "Always", "body": {body}}}"#
    ))
}

fn procedure_body(body: &str) -> Stmt {
    let design = lower(&procedure_doc(body)).expect("lowers");
    let mut module = design.modules.into_iter().next().expect("one module");
    module.procedures.remove(0).body
}

#[test]
fn missing_design_is_reported() {
    let err = lower(r#"{"other": 1}"#).unwrap_err();
    assert_eq!(
        err,
        Error::MissingField { field: "design", context: "root AST JSON".to_string() }
    );
    assert_eq!(err.message(), "missing field `design` while lowering root AST JSON");
}

#[test]
fn wrong_root_kind_is_reported() {
    let err = lower(r#"{"design": {"kind": "Other", "members": []}}"#).unwrap_err();
    assert_eq!(
        err,
        Error::UnexpectedKind { expected: "Root", actual: Some("Other".to_string()) }
    );
    assert_eq!(err.message(), "expected kind `Root`, got Some(\"Other\")");
    let err = lower(r#"{"design": {"members": []}}"#).unwrap_err();
    assert_eq!(err, Error::UnexpectedKind { expected: "Root", actual: None });
    assert_eq!(err.message(), "expected kind `Root`, got None");
}

#[test]
fn debug_escapes_in_messages() {
    let err = lower(r#"{"design": {"kind": "a\"b", "members": []}}"#).unwrap_err();
    assert_eq!(err.message(), "expected kind `Root`, got Some(\"a\\\"b\")");
}

#[test]
fn message_error_text_is_the_message() {
    assert_eq!(Error::Message("plain".to_string()).message(), "plain");
}

#[test]
fn missing_members_and_bodies_are_reported() {
    let err = lower(r#"{"design": {"kind": "Root"}}"#).unwrap_err();
    assert_eq!(
        err,
        Error::MissingField { field: "members", context: "root design".to_string() }
    );
    let err = lower(r#"{"design": {"kind": "Root", "members": [{"kind": "Instance"}]}}"#)
        .unwrap_err();
    assert_eq!(
        err,
        Error::MissingField { field: "body", context: "module instance".to_string() }
    );
    let err = lower(
        r#"{"design": {"kind": "Root", "members": [{"kind": "Instance", "body": {"kind": "Body"}}]}}"#,
    )
    .unwrap_err();
    assert_eq!(
        err,
        Error::UnexpectedKind { expected: "InstanceBody", actual: Some("Body".to_string()) }
    );
    let err = lower(&module_doc(r#"{"kind": "Port"}"#)).unwrap_err();
    assert_eq!(err, Error::MissingField { field: "name", context: "port".to_string() });
}

#[test]
fn non_instance_members_are_skipped() {
    let design = lower(
        r#"{"design": {"kind": "Root", "members": [
            {"kind": "Package", "name": "p"},
            {"kind": "Instance", "body": {"kind": "InstanceBody", "name": "a", "members": []}},
            {"kind": "Definition", "name": "d"},
            {"kind": "Instance", "body": {"kind": "InstanceBody", "name": "b", "members": []}}
        ]}}"#,
    )
    .unwrap();
    let names: Vec<_> = design.modules.iter().map(|m| m.name.as_str()).collect();
    assert_eq!(names, ["a", "b"]);
}

#[test]
fn module_members_are_sorted_by_kind_in_order() {
    let design = lower(&module_doc(
        r#"{"kind": "Parameter", "name": "P", "type": "int", "value": "3",
            "initializer": {"kind": "IntegerLiteral", "value": "3"}},
           {"kind": "Port", "name": "a", "direction": "Out", "type": "logic", "internalSymbol": "12 a"},
           {"kind": "Port", "name": "b", "direction": "Sideways"},
           {"kind": "Net", "name": "a", "type": "logic"},
           {"kind": "Variable", "name": "v", "type": "logic[3:0]",
            "source_file": "m.sv", "source_line": 4, "source_column": 9},
           {"kind": "Variable", "name": "w"},
           {"kind": "Genvar", "name": "g"}"#,
    ))
    .unwrap();
    let m = &design.modules[0];
    assert_eq!(m.name, "m");
    assert_eq!(m.parameters.len(), 1);
    assert_eq!(m.parameters[0].ty, "int");
    assert_eq!(m.parameters[0].value.as_deref(), Some("3"));
    assert!(matches!(
        &m.parameters[0].initializer,
        Some(Expr::IntegerLiteral { value, .. }) if value == "3"
    ));
    assert_eq!(m.ports.len(), 2);
    assert_eq!(m.ports[0].direction, PortDirection::Out);
    assert_eq!(
        m.ports[0].internal_symbol,
        Some(SymbolRef { id: Some(12), name: "a".to_string() })
    );
    assert_eq!(m.ports[1].direction, PortDirection::Unknown("Sideways".to_string()));
    assert_eq!(m.ports[1].ty, "");
    assert_eq!(m.nets.len(), 1);
    assert_eq!(m.nets[0].kind, SignalKind::Net);
    assert_eq!(m.variables.len(), 2);
    assert_eq!(m.variables[0].source.as_ref().map(|s| (s.file.as_str(), s.line, s.column)), Some(("m.sv", 4, 9)));
    assert_eq!(m.variables[1].source, None);
    assert_eq!(m.variable("w").map(|v| v.kind), Some(SignalKind::Variable));
    assert!(m.variable("a").is_none());
    assert!(m.port("zz").is_none());
}

#[test]
fn module_lookup_finds_the_first_match() {
    let design = lower(
        r#"{"design": {"kind": "Root", "members": [
            {"kind": "Instance", "body": {"kind": "InstanceBody", "name": "a", "members": [],
             "source_file": "one.sv", "source_line": 1, "source_column": 1}},
            {"kind": "Instance", "body": {"kind": "InstanceBody", "name": "a", "members": []}}
        ]}}"#,
    )
    .unwrap();
    assert!(design.module("a").unwrap().source.is_some());
    assert!(design.module("b").is_none());
    assert!(Design::default().modules.is_empty());
}

#[test]
fn unknown_statements_are_kept() {
    let body = procedure_body(
        r#"{"kind": "ForeverLoop", "source_file_start": "f.sv", "source_line_start": 3,
            "source_column_start": 5, "source_line_end": 4, "source_column_end": 8}"#,
    );
    let Stmt::Unknown { kind, source } = &body else { panic!("unknown statement") };
    assert_eq!(kind, "ForeverLoop");
    let span = source.as_ref().unwrap();
    assert_eq!((span.line_start, span.column_start, span.line_end, span.column_end), (3, 5, 4, 8));
    assert_eq!(body.source(), source.as_ref());
    assert_eq!(procedure_body(r#"{"stmt": 1}"#), Stmt::Unknown { kind: "<missing>".to_string(), source: None });
}

#[test]
fn partial_spans_are_dropped() {
    let body = procedure_body(
        r#"{"kind": "Empty", "source_file_start": "f.sv", "source_line_start": 3,
            "source_column_start": 5, "source_line_end": 4}"#,
    );
    assert_eq!(body, Stmt::Empty { source: None });
}

#[test]
fn unknown_expressions_and_events_are_kept() {
    let body = procedure_body(
        r#"{"kind": "Timed", "timing": {"kind": "Delay"},
            "stmt": {"kind": "ExpressionStatement", "expr": {"kind": "Call", "type": "void"}}}"#,
    );
    let Stmt::Timed { event, stmt, .. } = body else { panic!("timed") };
    assert_eq!(event, EventControl::Unknown { kind: "Delay".to_string(), source: None });
    let Stmt::Expr { expr, .. } = *stmt else { panic!("expression statement") };
    assert_eq!(expr.ty(), Some("void"));
    assert_eq!(
        expr,
        Expr::Unknown { kind: "Call".to_string(), ty: Some("void".to_string()), source: None }
    );
}

#[test]
fn blocks_conditions_and_assertions_lower() {
    let body = procedure_body(
        r#"{"kind": "Block", "blockKind": "Sequential", "body": {"kind": "List", "list": [
            {"kind": "Conditional", "conditions": [{"expr": {"kind": "NamedValue", "symbol": "5 en"}}],
             "ifTrue": {"kind": "Empty"},
             "ifFalse": {"kind": "ExpressionStatement", "expr": {"kind": "Assignment",
                "left": {"kind": "NamedValue", "symbol": "6 q"},
                "right": {"kind": "UnaryOp", "op": "BitwiseNot", "operand": {"kind": "NamedValue", "symbol": "6 q"}},
                "isNonBlocking": true, "type": "logic"}}},
            {"kind": "ImmediateAssertion", "assertionKind": "Cover",
             "cond": {"kind": "BinaryOp", "op": "BinaryAnd",
                      "left": {"kind": "IntegerLiteral", "value": "1"},
                      "right": {"kind": "Conversion", "operand": {"kind": "IntegerLiteral"}}},
             "ifTrue": {"kind": "Empty"}}
        ]}}"#,
    );
    let Stmt::Block { kind, statements, .. } = &body else { panic!("block") };
    assert_eq!(kind.as_deref(), Some("Sequential"));
    assert_eq!(statements.len(), 2);
    let Stmt::If { conditions, then_branch, else_branch, .. } = &statements[0] else { panic!("if") };
    assert!(matches!(&conditions[0], Expr::NamedValue { symbol, .. } if symbol.id == Some(5) && symbol.name == "en"));
    assert_eq!(**then_branch, Stmt::Empty { source: None });
    let Some(else_branch) = else_branch else { panic!("else") };
    let Stmt::Assign { nonblocking, ty, right, .. } = else_branch.as_ref() else { panic!("assign") };
    assert!(*nonblocking);
    assert_eq!(ty.as_deref(), Some("logic"));
    assert!(matches!(right, Expr::Unary { op: rslang::UnaryOp::BitwiseNot, .. }));
    let Stmt::Assert { kind, condition, action, .. } = &statements[1] else { panic!("assert") };
    assert_eq!(*kind, rslang::AssertionKind::Cover);
    assert!(action.is_some());
    let Expr::Binary { op, right, .. } = condition else { panic!("binary") };
    assert_eq!(*op, BinaryOp::BitwiseAnd);
    assert!(matches!(right.as_ref(), Expr::Conversion { expr, .. }
        if matches!(expr.as_ref(), Expr::IntegerLiteral { value, .. } if value.is_empty())));
}

#[test]
fn block_with_a_single_body_and_without_a_body() {
    let body = procedure_body(r#"{"kind": "Block", "body": {"kind": "Empty"}}"#);
    assert_eq!(
        body,
        Stmt::Block { kind: None, statements: vec![Stmt::Empty { source: None }], source: None }
    );
    let body = procedure_body(r#"{"kind": "Block"}"#);
    assert_eq!(body, Stmt::Block { kind: None, statements: vec![], source: None });
    let body = procedure_body(r#"{"kind": "List", "list": []}"#);
    assert_eq!(
        body,
        Stmt::Block { kind: Some("List".to_string()), statements: vec![], source: None }
    );
}

#[test]
fn statement_errors_name_the_missing_field() {
    let cases = [
        (r#"{"kind": "Timed", "stmt": {"kind": "Empty"}}"#, "timing", "timed statement"),
        (r#"{"kind": "Timed", "timing": {"kind": "Delay"}}"#, "stmt", "timed statement"),
        (r#"{"kind": "List"}"#, "list", "statement list"),
        (r#"{"kind": "Conditional", "ifTrue": {"kind": "Empty"}}"#, "conditions", "conditional statement"),
        (r#"{"kind": "Conditional", "conditions": [{}], "ifTrue": {"kind": "Empty"}}"#, "expr", "conditional condition"),
        (r#"{"kind": "Conditional", "conditions": []}"#, "ifTrue", "conditional statement"),
        (r#"{"kind": "ExpressionStatement"}"#, "expr", "expression statement"),
        (r#"{"kind": "ImmediateAssertion"}"#, "cond", "immediate assertion"),
        (r#"{"kind": "ExpressionStatement", "expr": {"kind": "Assignment"}}"#, "left", "assignment"),
        (r#"{"kind": "ExpressionStatement", "expr": {"kind": "NamedValue"}}"#, "symbol", "named value"),
        (r#"{"kind": "ExpressionStatement", "expr": {"kind": "BinaryOp", "left": {}}}"#, "right", "binary expression"),
        (r#"{"kind": "ExpressionStatement", "expr": {"kind": "UnaryOp"}}"#, "operand", "unary expression"),
        (r#"{"kind": "Timed", "timing": {"kind": "SignalEvent"}, "stmt": {}}"#, "expr", "signal event"),
    ];
    for (body, field, context) in cases {
        let err = lower(&procedure_doc(body)).unwrap_err();
        assert_eq!(err, Error::MissingField { field, context: context.to_string() }, "{body}");
    }
    let err = lower(&module_doc(r#"{"kind": "ProceduralBlock"}"#)).unwrap_err();
    assert_eq!(err, Error::MissingField { field: "body", context: "procedural block".to_string() });
}

#[test]
fn else_branch_errors_come_before_then_branch_errors() {
    let err = lower(&procedure_doc(
        r#"{"kind": "Conditional", "conditions": [],
            "ifTrue": {"kind": "ExpressionStatement"},
            "ifFalse": {"kind": "ImmediateAssertion"}}"#,
    ))
    .unwrap_err();
    assert_eq!(err, Error::MissingField { field: "cond", context: "immediate assertion".to_string() });
}

#[test]
fn enumerations_lower_by_name() {
    let body = procedure_body(
        r#"{"kind": "Timed", "timing": {"kind": "SignalEvent", "edge": "None",
            "expr": {"kind": "BinaryOp", "op": "LogicalShiftLeft",
                     "left": {"kind": "IntegerLiteral"}, "right": {"kind": "IntegerLiteral"}}},
            "stmt": {"kind": "Empty"}}"#,
    );
    let Stmt::Timed { event: EventControl::Signal { edge, expr, .. }, .. } = body else { panic!("signal") };
    assert_eq!(edge, Edge::Any);
    assert!(matches!(expr, Expr::Binary { op: BinaryOp::ShiftLeft, .. }));
    let body = procedure_body(
        r#"{"kind": "ExpressionStatement", "expr": {"kind": "BinaryOp", "op": "Power",
            "left": {"kind": "IntegerLiteral"}, "right": {"kind": "IntegerLiteral"}}}"#,
    );
    let Stmt::Expr { expr: Expr::Binary { op, .. }, .. } = body else { panic!("binary") };
    assert_eq!(op, BinaryOp::Unknown("Power".to_string()));
    let design = lower(&module_doc(r#"{"kind": "ProceduralBlock", "procedureKind": "AlwaysFF", "body": {"kind": "Empty"}},
                                      {"kind": "ProceduralBlock", "body": {"kind": "Empty"}}"#)).unwrap();
    assert_eq!(design.modules[0].procedures[0].kind, ProcedureKind::Unknown("AlwaysFF".to_string()));
    assert_eq!(design.modules[0].procedures[1].kind, ProcedureKind::Unknown("<missing>".to_string()));
}

#[test]
fn for_each_visits_a_statement_before_its_children() {
    let body = procedure_body(
        r#"{"kind": "Block", "blockKind": "outer", "body": {"kind": "List", "list": [
            {"kind": "Block", "blockKind": "inner", "body": {"kind": "List", "list": [{"kind": "Empty"}]}},
            {"kind": "Conditional", "conditions": [], "ifTrue": {"kind": "A"}, "ifFalse": {"kind": "B"}},
            {"kind": "ImmediateAssertion", "cond": {"kind": "IntegerLiteral"}, "ifTrue": {"kind": "C"}}
        ]}}"#,
    );
    let mut names = Vec::new();
    body.for_each(&mut |s| {
        names.push(match s {
            Stmt::Block { kind, .. } => kind.clone().unwrap_or_default(),
            Stmt::Empty { .. } => "empty".to_string(),
            Stmt::If { .. } => "if".to_string(),
            Stmt::Assert { .. } => "assert".to_string(),
            Stmt::Unknown { kind, .. } => kind.clone(),
            _ => "other".to_string(),
        })
    });
    assert_eq!(names, ["outer", "inner", "empty", "if", "A", "B", "assert", "C"]);
    assert_eq!(body.preorder().len(), 8);
}

#[test]
fn first_brace_skips_leading_noise() {
    assert_eq!(from_first_brace("warning: x\n{\"a\": 1}"), Some("{\"a\": 1}"));
    assert_eq!(from_first_brace("{}"), Some("{}"));
    assert_eq!(from_first_brace("no document"), None);
    assert_eq!(from_first_brace("é{x}"), Some("{x}"));
}

#[test]
fn designs_clone_into_equal_values() {
    let design = lower(&procedure_doc(
        r#"{"kind": "Timed", "timing": {"kind": "SignalEvent", "edge": "PosEdge",
             "expr": {"kind": "NamedValue", "symbol": "1 clk"}},
            "stmt": {"kind": "Block", "body": {"kind": "List", "list": [
                {"kind": "ExpressionStatement", "expr": {"kind": "Assignment", "isNonBlocking": true,
                 "left": {"kind": "NamedValue", "symbol": "2 q"},
                 "right": {"kind": "BinaryOp", "op": "Add",
                           "left": {"kind": "NamedValue", "symbol": "3 d"},
                           "right": {"kind": "IntegerLiteral", "value": "1"}}}},
                {"kind": "ImmediateAssertion", "assertionKind": "Assert",
                 "cond": {"kind": "UnaryOp", "op": "LogicalNot", "operand": {"kind": "NamedValue", "symbol": "r"}},
                 "ifTrue": {"kind": "Empty"}}]}}}"#,
    ))
    .unwrap();
    let copy = design.clone();
    assert_eq!(copy, design);
    let module = &design.modules[0];
    assert_eq!(module.clone(), *module);
    assert_eq!(module.procedures[0].body.clone(), module.procedures[0].body);
}

#[test]
fn text_is_parsed_whole_or_from_its_first_brace() {
    let doc = module_doc("");
    let whole = rslang::lower_slang_ast_str(&doc).expect("whole text parses");
    assert_eq!(whole.modules.len(), 1);
    assert_eq!(whole.modules[0].name, "m");
    let noisy = format!("slang: warning printed first\n{doc}");
    assert_eq!(rslang::lower_slang_ast_str(&noisy).expect("parses from the brace"), whole);
    assert_eq!(
        rslang::parse_slang_json(r#"{"a": [1, -2, 2.5, true, null, "s"]}"#).unwrap(),
        JsonValue::Object(vec![(
            "a".to_string(),
            JsonValue::Array(vec![
                JsonValue::Number(JsonNumber::Unsigned(1)),
                JsonValue::Number(JsonNumber::Negative(-2)),
                JsonValue::Number(JsonNumber::Real),
                JsonValue::Bool(true),
                JsonValue::Null,
                JsonValue::String("s".to_string()),
            ]),
        )])
    );
}

#[test]
fn unparsable_text_gives_the_parser_error() {
    let err = rslang::lower_slang_ast_str("no document here").unwrap_err();
    let first = serde_json::from_str::<serde_json::Value>("no document here").unwrap_err();
    assert_eq!(err, Error::Json(first.to_string()));
    assert_eq!(err.message(), format!("JSON error: {first}"));
    let err = rslang::lower_slang_ast_str("noise {\"design\": ").unwrap_err();
    let second = serde_json::from_str::<serde_json::Value>("{\"design\": ").unwrap_err();
    assert_eq!(err, Error::Json(second.to_string()));
    let err = rslang::lower_slang_ast_str(r#"{"other": 1}"#).unwrap_err();
    assert_eq!(err, Error::MissingField { field: "design", context: "root AST JSON".to_string() });
}

#[test]
fn document_text_is_the_part_that_parses() {
    let doc = r#"{"design": 1}"#;
    assert_eq!(rslang::json::document_text(doc).unwrap(), doc);
    let noisy = format!("Build succeeded\n{doc}");
    assert_eq!(rslang::json::document_text(&noisy).unwrap(), doc);
    assert!(matches!(rslang::json::document_text("no brace"), Err(Error::Json(_))));
    assert!(matches!(rslang::json::document_text("x {broken"), Err(Error::Json(_))));
}
