use rslang::ast::{
    lower_expr, lower_module_instance, lower_slang_ast, lower_stmt, BinaryOp, DataType,
    Design, Expr, PredefinedIntegerKind, PredefinedIntegerType, ScalarKind, ScalarType, Stmt,
    TypeDecl, UnaryOp,
};
use rslang::{Error, JsonNumber, JsonValue, PortDirection, ProcedureKind, SignalKind, SourceSpan, SymbolRef};

fn to_library(value: &serde_json::Value) -> JsonValue {
    match value {
        serde_json::Value::Null => JsonValue::Null,
        serde_json::Value::Bool(b) => JsonValue::Bool(*b),
        serde_json::Value::Number(n) => match (n.as_u64(), n.as_i64()) {
            (Some(u), _) => JsonValue::Number(JsonNumber::Unsigned(u)),
            (None, Some(i)) => JsonValue::Number(JsonNumber::Negative(i)),
            (None, None) => JsonValue::Number(JsonNumber::Real),
        },
        serde_json::Value::String(s) => JsonValue::String(s.clone()),
        serde_json::Value::Array(items) => JsonValue::Array(items.iter().map(to_library).collect()),
        serde_json::Value::Object(members) => JsonValue::Object(
            members
                .iter()
                .map(|(k, v)| (k.clone(), to_library(v)))
                .collect(),
        ),
    }
}

fn json(text: &str) -> JsonValue {
    to_library(&serde_json::from_str(text).expect("valid JSON"))
}

fn expr(text: &str) -> rslang::Result<Expr> {
    lower_expr(&json(text))
}

fn named(name: &str) -> Expr {
    Expr::NamedValue {
        symbol: SymbolRef { id: None, name: name.to_string() },
        ty: None,
        constant: None,
        source: None,
    }
}

fn int_type() -> DataType {
    DataType::PredefinedInteger(PredefinedIntegerType { kind: PredefinedIntegerKind::Int, signed: true })
}

fn logic() -> DataType {
    DataType::Scalar(ScalarType { kind: ScalarKind::Logic, signed: false })
}

#[test]
fn expressions_carry_lowered_types() {
    let e = expr(
        r#"{"kind": "NamedValue", "symbol": "4 a", "type": "int", "constant": "3",
            "source_file_start": "m.sv", "source_line_start": 2, "source_column_start": 1,
            "source_line_end": 2, "source_column_end": 2}"#,
    )
    .unwrap();
    let span = SourceSpan {
        file: "m.sv".to_string(),
        line_start: 2,
        column_start: 1,
        line_end: 2,
        column_end: 2,
    };
    assert_eq!(
        e,
        Expr::NamedValue {
            symbol: SymbolRef { id: Some(4), name: "a".to_string() },
            ty: Some(int_type()),
            constant: Some("3".to_string()),
            source: Some(span.clone()),
        }
    );
    assert_eq!(e.ty(), Some(&int_type()));
    assert_eq!(e.source(), Some(&span));
}

#[test]
fn concatenation_and_replication() {
    let e = expr(
        r#"{"kind": "Replication", "type": "logic",
            "count": {"kind": "IntegerLiteral", "value": "2"},
            "concat": {"kind": "Concatenation", "operands": [
                {"kind": "NamedValue", "symbol": "a"},
                {"kind": "NamedValue", "symbol": "b"}
            ]}}"#,
    )
    .unwrap();
    assert_eq!(
        e,
        Expr::Replication {
            count: Box::new(Expr::IntegerLiteral {
                value: "2".to_string(),
                ty: None,
                constant: None,
                source: None,
            }),
            concat: Box::new(Expr::Concatenation {
                operands: vec![named("a"), named("b")],
                ty: None,
                constant: None,
                source: None,
            }),
            ty: Some(logic()),
            constant: None,
            source: None,
        }
    );
    assert_eq!(
        expr(r#"{"kind": "Concatenation"}"#).unwrap_err(),
        Error::MissingField { field: "operands", context: "concatenation expression".to_string() }
    );
    assert_eq!(
        expr(r#"{"kind": "Replication", "concat": {"kind": "Concatenation", "operands": []}}"#)
            .unwrap_err(),
        Error::MissingField { field: "count", context: "replication expression".to_string() }
    );
    assert_eq!(
        expr(r#"{"kind": "Replication", "count": {"kind": "IntegerLiteral"}}"#).unwrap_err(),
        Error::MissingField { field: "concat", context: "replication expression".to_string() }
    );
}

#[test]
fn operators_conversions_and_assignments() {
    assert_eq!(
        expr(r#"{"kind": "UnaryOp", "op": "BitwiseNot", "operand": {"kind": "NamedValue", "symbol": "x"}}"#)
            .unwrap(),
        Expr::Unary {
            op: UnaryOp::BitwiseNot,
            expr: Box::new(named("x")),
            ty: None,
            constant: None,
            source: None,
        }
    );
    assert_eq!(
        expr(r#"{"kind": "BinaryOp", "op": "LogicalShiftLeft",
                 "left": {"kind": "NamedValue", "symbol": "x"},
                 "right": {"kind": "NamedValue", "symbol": "y"}}"#)
        .unwrap(),
        Expr::Binary {
            op: BinaryOp::LogicalShiftLeft,
            left: Box::new(named("x")),
            right: Box::new(named("y")),
            ty: None,
            constant: None,
            source: None,
        }
    );
    assert_eq!(
        expr(r#"{"kind": "Conversion", "type": "int", "operand": {"kind": "NamedValue", "symbol": "x"}}"#)
            .unwrap(),
        Expr::Conversion { ty: Some(int_type()), expr: Box::new(named("x")), constant: None, source: None }
    );
    assert_eq!(
        expr(r#"{"kind": "Assignment", "isNonBlocking": true,
                 "left": {"kind": "NamedValue", "symbol": "q"},
                 "right": {"kind": "NamedValue", "symbol": "d"}}"#)
        .unwrap(),
        Expr::Assignment {
            left: Box::new(named("q")),
            right: Box::new(named("d")),
            nonblocking: true,
            ty: None,
            source: None,
        }
    );
    assert_eq!(
        expr(r#"{"kind": "Streaming", "type": "int"}"#).unwrap(),
        Expr::Unknown { kind: "Streaming".to_string(), ty: Some(int_type()), source: None }
    );
    assert_eq!(
        expr(r#"{"type": "int"}"#).unwrap(),
        Expr::Unknown { kind: "<missing>".to_string(), ty: Some(int_type()), source: None }
    );
}

#[test]
fn expression_errors_come_in_reading_order() {
    // The type is read before anything else.
    assert_eq!(
        expr(r#"{"kind": "UnaryOp", "type": {"kind": "QueueType"}}"#).unwrap_err(),
        Error::MissingField { field: "elementType", context: "queue type".to_string() }
    );
    // The operand must be there before the operator is looked at.
    assert_eq!(
        expr(r#"{"kind": "UnaryOp", "op": "Nope"}"#).unwrap_err(),
        Error::MissingField { field: "operand", context: "unary expression".to_string() }
    );
    assert_eq!(
        expr(r#"{"kind": "UnaryOp", "op": "Nope", "operand": {"kind": "Concatenation"}}"#).unwrap_err(),
        Error::Message("unknown unary operator `Nope`".to_string())
    );
    assert_eq!(
        expr(r#"{"kind": "BinaryOp", "left": {}, "op": "Add"}"#).unwrap_err(),
        Error::MissingField { field: "right", context: "binary expression".to_string() }
    );
    assert_eq!(
        expr(r#"{"kind": "BinaryOp", "left": {}, "right": {}}"#).unwrap_err(),
        Error::MissingField { field: "op", context: "binary expression".to_string() }
    );
    assert_eq!(
        expr(r#"{"kind": "NamedValue"}"#).unwrap_err(),
        Error::MissingField { field: "symbol", context: "named value".to_string() }
    );
}

#[test]
fn assignment_statements_keep_their_type() {
    let s = lower_stmt(&json(
        r#"{"kind": "ExpressionStatement", "expr": {"kind": "Assignment", "type": "logic",
            "left": {"kind": "NamedValue", "symbol": "q"},
            "right": {"kind": "NamedValue", "symbol": "d"}}}"#,
    ))
    .unwrap();
    assert_eq!(
        s,
        Stmt::Assign {
            left: named("q"),
            right: named("d"),
            nonblocking: false,
            ty: Some(logic()),
            source: None,
        }
    );
}

#[test]
fn statements_are_visited_parent_first() {
    let s = lower_stmt(&json(
        r#"{"kind": "Block", "blockKind": "Sequential", "body": {"kind": "List", "list": [
            {"kind": "Empty"},
            {"kind": "Conditional", "conditions": [{"expr": {"kind": "NamedValue", "symbol": "c"}}],
             "ifTrue": {"kind": "Empty"}, "ifFalse": {"kind": "Wait"}}
        ]}}"#,
    ))
    .unwrap();
    let mut kinds = Vec::new();
    s.for_each(&mut |stmt: &Stmt| {
        kinds.push(match stmt {
            Stmt::Block { .. } => "block",
            Stmt::Empty { .. } => "empty",
            Stmt::If { .. } => "if",
            Stmt::Unknown { .. } => "unknown",
            _ => "other",
        })
    });
    assert_eq!(kinds, vec!["block", "empty", "if", "empty", "unknown"]);
    assert_eq!(s.preorder().len(), 5);
}

#[test]
fn module_members_include_type_declarations() {
    let m = lower_module_instance(&json(
        r#"{"kind": "Instance", "body": {"kind": "InstanceBody", "name": "top", "members": [
            {"kind": "TypeAlias", "name": "word_t", "target": "9 word"},
            {"kind": "EnumType", "name": "state_t", "members": []},
            {"kind": "Parameter", "name": "W", "type": "int", "value": "8",
             "initializer": {"kind": "IntegerLiteral", "value": "8"}},
            {"kind": "Port", "name": "clk", "direction": "In", "type": "logic", "internalSymbol": "3 clk"},
            {"kind": "Net", "name": "n", "type": "logic"},
            {"kind": "Variable", "name": "v", "type": {"kind": "ScalarType", "name": "bit"}},
            {"kind": "ProceduralBlock", "procedureKind": "Initial", "body": {"kind": "Empty"}},
            {"kind": "Genvar", "name": "g"}
        ]}}"#,
    ))
    .unwrap();
    assert_eq!(m.name, "top");
    assert_eq!(
        m.types,
        vec![
            TypeDecl {
                name: "word_t".to_string(),
                ty: DataType::Alias {
                    name: "word_t".to_string(),
                    target: Some(SymbolRef { id: Some(9), name: "word".to_string() }),
                },
                source: None,
            },
            TypeDecl {
                name: "state_t".to_string(),
                ty: DataType::Enum {
                    name: Some("state_t".to_string()),
                    base: Box::new(DataType::Unknown { kind: "<missing>".to_string(), name: None }),
                    values: vec![],
                },
                source: None,
            },
        ]
    );
    assert_eq!(m.type_decl("state_t").map(|t| t.name.as_str()), Some("state_t"));
    assert!(m.type_decl("other").is_none());
    assert_eq!(m.parameters[0].ty, int_type());
    assert_eq!(m.parameters[0].value.as_deref(), Some("8"));
    assert_eq!(
        m.parameters[0].initializer,
        Some(Expr::IntegerLiteral { value: "8".to_string(), ty: None, constant: None, source: None })
    );
    let clk = m.port("clk").expect("clk port");
    assert_eq!(clk.direction, PortDirection::In);
    assert_eq!(clk.ty, logic());
    assert_eq!(clk.internal_symbol, Some(SymbolRef { id: Some(3), name: "clk".to_string() }));
    assert_eq!(m.nets[0].kind, SignalKind::Net);
    let v = m.variable("v").expect("variable v");
    assert_eq!(v.kind, SignalKind::Variable);
    assert_eq!(v.ty, DataType::Scalar(ScalarType { kind: ScalarKind::Bit, signed: false }));
    assert_eq!(m.procedures[0].kind, ProcedureKind::Initial);
    assert_eq!(m.procedures[0].body, Stmt::Empty { source: None });
}

#[test]
fn module_members_need_their_types() {
    let err = lower_module_instance(&json(
        r#"{"body": {"kind": "InstanceBody", "name": "top", "members": [
            {"kind": "Port", "name": "clk", "direction": "In"}
        ]}}"#,
    ))
    .unwrap_err();
    assert_eq!(err, Error::MissingField { field: "type", context: "port".to_string() });
    let err = lower_module_instance(&json(
        r#"{"body": {"kind": "InstanceBody", "name": "top", "members": [
            {"kind": "Variable", "name": "v"}
        ]}}"#,
    ))
    .unwrap_err();
    assert_eq!(err, Error::MissingField { field: "type", context: "signal".to_string() });
}

#[test]
fn designs_keep_instances_in_order() {
    let d: Design = lower_slang_ast(&json(
        r#"{"design": {"kind": "Root", "members": [
            {"kind": "Instance", "body": {"kind": "InstanceBody", "name": "a", "members": []}},
            {"kind": "Package", "name": "p"},
            {"kind": "Instance", "body": {"kind": "InstanceBody", "name": "b", "members": []}},
            {"kind": "Instance", "body": {"kind": "InstanceBody", "name": "a", "members": [
                {"kind": "Net", "name": "second", "type": "logic"}]}}
        ]}}"#,
    ))
    .unwrap();
    let names: Vec<&str> = d.modules.iter().map(|m| m.name.as_str()).collect();
    assert_eq!(names, vec!["a", "b", "a"]);
    assert!(d.module("a").expect("module a").nets.is_empty());
    assert!(d.module("c").is_none());
    assert_eq!(
        lower_slang_ast(&json(r#"{"design": {"kind": "Root"}}"#)).unwrap_err(),
        Error::MissingField { field: "members", context: "root design".to_string() }
    );
}

#[test]
fn typed_designs_clone_into_equal_values() {
    let d = lower_slang_ast(&json(
        r#"{"design": {"kind": "Root", "members": [
            {"kind": "Instance", "body": {"kind": "InstanceBody", "name": "a", "members": [
                {"kind": "EnumType", "name": "e", "baseType": "logic[1:0]",
                 "members": [{"kind": "EnumValue", "name": "A", "value": "0"}]},
                {"kind": "Variable", "name": "s", "type": {"kind": "PackedStructType", "members": [
                    {"name": "f", "type": {"kind": "QueueType", "elementType": "int", "maxBound": 3}}]}},
                {"kind": "ProceduralBlock", "procedureKind": "Always", "body": {"kind": "Block",
                 "body": {"kind": "List", "list": [
                    {"kind": "ExpressionStatement", "expr": {"kind": "Concatenation", "operands": [
                        {"kind": "NamedValue", "symbol": "1 s", "type": "int"},
                        {"kind": "Replication", "count": {"kind": "IntegerLiteral", "value": "2"},
                         "concat": {"kind": "Concatenation", "operands": []}}]}},
                    {"kind": "Conditional", "conditions": [{"expr": {"kind": "NamedValue", "symbol": "c"}}],
                     "ifTrue": {"kind": "Empty"}}]}}}
            ]}}
        ]}}"#,
    ))
    .unwrap();
    let copy = d.clone();
    assert_eq!(copy, d);
    assert_eq!(copy.modules[0].procedures[0].body.clone(), d.modules[0].procedures[0].body);
}

#[test]
fn typed_text_is_parsed_whole_or_from_its_first_brace() {
    let doc = r#"{"design": {"kind": "Root", "members": [
        {"kind": "Instance", "body": {"kind": "InstanceBody", "name": "t", "members": [
            {"kind": "Net", "name": "w", "type": "logic"}]}}]}}"#;
    let whole = rslang::ast::lower_slang_ast_str(doc).expect("whole text parses");
    assert_eq!(whole.modules[0].nets[0].ty, logic());
    let noisy = format!("Top level design units:\n    t\n\n{doc}");
    assert_eq!(rslang::ast::lower_slang_ast_str(&noisy).expect("parses from the brace"), whole);
    assert!(matches!(rslang::ast::lower_slang_ast_str("[1, 2"), Err(Error::Json(_))));
}
