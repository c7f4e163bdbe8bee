use rslang::ast::{
    lower_binary_op, lower_data_type, lower_floating_kind, lower_optional_type,
    lower_predefined_integer_kind, lower_required_type, lower_scalar_kind, lower_type_decl,
    lower_unary_op, parse_type_range, parse_type_text, predefined_integer_type, BinaryOp,
    DataType, EnumValue, FloatingKind, FloatingType, PredefinedIntegerKind,
    PredefinedIntegerType, ScalarKind, ScalarType, TypeField, TypeRange, UnaryOp,
};
use rslang::{Error, JsonNumber, JsonValue, SourceLoc, SymbolRef};

fn to_library(value: &serde_json::Value) -> JsonValue {
    match value {
        serde_json::Value::Null => JsonValue::Null,
        serde_json::Value::Bool(b) => JsonValue::Bool(*b),
        serde_json::Value::Number(n) => match (n.as_u64(), n.as_i64()) {
            (Some(u), _) => JsonValue::Number(JsonNumber::Unsigned(u)),
            (None, Some(i)) => JsonValue::Number(JsonNumber::Negative(i)),
            (None, None) => JsonValue::Number(JsonNumber::Real),
        },
        serde_json::Value::String(s) => JsonValue::String(s.clone()),
        serde_json::Value::Array(items) => JsonValue::Array(items.iter().map(to_library).collect()),
        serde_json::Value::Object(members) => JsonValue::Object(
            members
                .iter()
                .map(|(k, v)| (k.clone(), to_library(v)))
                .collect(),
        ),
    }
}

fn json(text: &str) -> JsonValue {
    to_library(&serde_json::from_str(text).expect("valid JSON"))
}

fn ty(text: &str) -> DataType {
    lower_data_type(&json(text)).expect("type lowers")
}

fn scalar(kind: ScalarKind, signed: bool) -> DataType {
    DataType::Scalar(ScalarType { kind, signed })
}

fn integer(kind: PredefinedIntegerKind, signed: bool) -> DataType {
    DataType::PredefinedInteger(PredefinedIntegerType { kind, signed })
}

fn packed(element: DataType, left: i64, right: i64) -> DataType {
    DataType::PackedArray { element: Box::new(element), range: TypeRange::Range { left, right } }
}

fn missing_type() -> DataType {
    DataType::Unknown { kind: "<missing>".to_string(), name: None }
}

#[test]
fn type_text_with_one_packed_range() {
    assert_eq!(parse_type_text("logic[7:0]"), packed(scalar(ScalarKind::Logic, false), 7, 0));
    assert_eq!(parse_type_text("  bit [ 3 : 0 ]  "), packed(scalar(ScalarKind::Bit, false), 3, 0));
}

#[test]
fn type_text_ranges_nest_leftmost_innermost() {
    assert_eq!(
        parse_type_text("logic signed [3:0][1:0]"),
        packed(packed(scalar(ScalarKind::Logic, true), 3, 0), 1, 0)
    );
}

#[test]
fn type_text_signedness_words() {
    assert_eq!(parse_type_text("int"), integer(PredefinedIntegerKind::Int, true));
    assert_eq!(parse_type_text("int unsigned"), integer(PredefinedIntegerKind::Int, false));
    assert_eq!(parse_type_text("unsigned  int"), integer(PredefinedIntegerKind::Int, false));
    assert_eq!(parse_type_text("time"), integer(PredefinedIntegerKind::Time, false));
    assert_eq!(parse_type_text("time signed"), integer(PredefinedIntegerKind::Time, true));
    assert_eq!(parse_type_text("reg signed"), scalar(ScalarKind::Reg, true));
    assert_eq!(parse_type_text("byte"), integer(PredefinedIntegerKind::Byte, true));
    assert_eq!(parse_type_text("shortint"), integer(PredefinedIntegerKind::ShortInt, true));
    assert_eq!(parse_type_text("longint"), integer(PredefinedIntegerKind::LongInt, true));
    assert_eq!(parse_type_text("integer"), integer(PredefinedIntegerKind::Integer, true));
    // The last signedness word wins.
    assert_eq!(parse_type_text("bit signed unsigned"), scalar(ScalarKind::Bit, false));
}

#[test]
fn type_text_keywords() {
    assert_eq!(parse_type_text("real"), DataType::Floating(FloatingType { kind: FloatingKind::Real }));
    assert_eq!(
        parse_type_text("shortreal"),
        DataType::Floating(FloatingType { kind: FloatingKind::ShortReal })
    );
    assert_eq!(
        parse_type_text("realtime"),
        DataType::Floating(FloatingType { kind: FloatingKind::RealTime })
    );
    assert_eq!(parse_type_text("void"), DataType::Void);
    assert_eq!(parse_type_text("null"), DataType::Null);
    assert_eq!(parse_type_text("chandle"), DataType::CHandle);
    assert_eq!(parse_type_text("  string "), DataType::String);
    assert_eq!(parse_type_text("event"), DataType::Event);
    assert_eq!(parse_type_text("$"), DataType::Unbounded);
    assert_eq!(parse_type_text("type  reference"), DataType::TypeRef);
    assert_eq!(parse_type_text("untyped"), DataType::Untyped);
    assert_eq!(parse_type_text("sequence"), DataType::Sequence);
    assert_eq!(parse_type_text("property"), DataType::Property);
}

#[test]
fn empty_type_text_is_missing() {
    assert_eq!(parse_type_text(""), missing_type());
    assert_eq!(parse_type_text(" \t\n"), missing_type());
}

#[test]
fn unknown_type_text_keeps_the_whole_text() {
    assert_eq!(
        parse_type_text(" foo "),
        DataType::Unknown { kind: "StringType".to_string(), name: Some("foo".to_string()) }
    );
    assert_eq!(
        parse_type_text("foo [1:0]"),
        packed(
            DataType::Unknown { kind: "StringType".to_string(), name: Some("foo [1:0]".to_string()) },
            1,
            0
        )
    );
    assert_eq!(
        parse_type_text("logic ]"),
        DataType::Unknown { kind: "StringType".to_string(), name: Some("logic ]".to_string()) }
    );
}

#[test]
fn type_text_with_an_unreadable_range() {
    assert_eq!(
        parse_type_text("bit [a:0]"),
        DataType::PackedArray {
            element: Box::new(scalar(ScalarKind::Bit, false)),
            range: TypeRange::Unknown("[a:0]".to_string()),
        }
    );
}

#[test]
fn type_ranges() {
    assert_eq!(parse_type_range("[7:0]"), TypeRange::Range { left: 7, right: 0 });
    assert_eq!(parse_type_range(" [ -3 : +4 ] "), TypeRange::Range { left: -3, right: 4 });
    assert_eq!(
        parse_type_range("[-9223372036854775808:9223372036854775807]"),
        TypeRange::Range { left: i64::MIN, right: i64::MAX }
    );
    assert_eq!(parse_type_range(" 7:0 "), TypeRange::Unknown("7:0".to_string()));
    assert_eq!(parse_type_range("[7]"), TypeRange::Unknown("[7]".to_string()));
    assert_eq!(parse_type_range("[1:2:3]"), TypeRange::Unknown("[1:2:3]".to_string()));
    assert_eq!(
        parse_type_range("[9223372036854775808:0]"),
        TypeRange::Unknown("[9223372036854775808:0]".to_string())
    );
    assert_eq!(parse_type_range("[:0]"), TypeRange::Unknown("[:0]".to_string()));
    assert_eq!(parse_type_range(""), TypeRange::Unknown(String::new()));
}

#[test]
fn default_signedness_of_predefined_integers() {
    assert!(PredefinedIntegerKind::Int.default_signed());
    assert!(PredefinedIntegerKind::Byte.default_signed());
    assert!(!PredefinedIntegerKind::Time.default_signed());
    assert!(!PredefinedIntegerKind::Unknown("x".to_string()).default_signed());
    assert_eq!(
        predefined_integer_type(PredefinedIntegerKind::Time, None),
        integer(PredefinedIntegerKind::Time, false)
    );
    assert_eq!(
        predefined_integer_type(PredefinedIntegerKind::Int, Some(false)),
        integer(PredefinedIntegerKind::Int, false)
    );
}

#[test]
fn kind_names_are_read_in_both_spellings() {
    assert_eq!(lower_scalar_kind(Some("bit")), ScalarKind::Bit);
    assert_eq!(lower_scalar_kind(Some("Logic")), ScalarKind::Logic);
    assert_eq!(lower_scalar_kind(Some("reg")), ScalarKind::Reg);
    assert_eq!(lower_scalar_kind(Some("LOGIC")), ScalarKind::Unknown("LOGIC".to_string()));
    assert_eq!(lower_scalar_kind(None), ScalarKind::Unknown("<missing>".to_string()));
    assert_eq!(lower_predefined_integer_kind(Some("ShortInt")), PredefinedIntegerKind::ShortInt);
    assert_eq!(lower_predefined_integer_kind(Some("time")), PredefinedIntegerKind::Time);
    assert_eq!(
        lower_predefined_integer_kind(Some("uint")),
        PredefinedIntegerKind::Unknown("uint".to_string())
    );
    assert_eq!(
        lower_predefined_integer_kind(None),
        PredefinedIntegerKind::Unknown("<missing>".to_string())
    );
    assert_eq!(lower_floating_kind(Some("RealTime")), FloatingKind::RealTime);
    assert_eq!(lower_floating_kind(Some("shortreal")), FloatingKind::ShortReal);
    assert_eq!(lower_floating_kind(Some("float")), FloatingKind::Unknown("float".to_string()));
    assert_eq!(lower_floating_kind(None), FloatingKind::Unknown("<missing>".to_string()));
}

#[test]
fn string_types_are_parsed_as_text() {
    assert_eq!(ty(r#""logic [1:0]""#), packed(scalar(ScalarKind::Logic, false), 1, 0));
}

#[test]
fn types_without_a_kind_are_missing() {
    assert_eq!(ty("{}"), missing_type());
    assert_eq!(ty(r#"{"name": ""}"#), missing_type());
    assert_eq!(
        ty(r#"{"name": "t"}"#),
        DataType::Unknown { kind: "<missing>".to_string(), name: Some("t".to_string()) }
    );
    assert_eq!(ty("17"), missing_type());
}

#[test]
fn scalar_and_integer_types() {
    assert_eq!(
        ty(r#"{"kind": "ScalarType", "name": "logic", "isSigned": true}"#),
        scalar(ScalarKind::Logic, true)
    );
    assert_eq!(ty(r#"{"kind": "ScalarType"}"#), scalar(ScalarKind::Unknown("<missing>".to_string()), false));
    assert_eq!(
        ty(r#"{"kind": "PredefinedIntegerType", "name": "int"}"#),
        integer(PredefinedIntegerKind::Int, true)
    );
    assert_eq!(
        ty(r#"{"kind": "PredefinedIntegerType", "name": "int", "isSigned": false}"#),
        integer(PredefinedIntegerKind::Int, false)
    );
    assert_eq!(
        ty(r#"{"kind": "PredefinedIntegerType", "name": "time"}"#),
        integer(PredefinedIntegerKind::Time, false)
    );
    assert_eq!(
        ty(r#"{"kind": "FloatingType", "name": "real"}"#),
        DataType::Floating(FloatingType { kind: FloatingKind::Real })
    );
}

#[test]
fn array_types() {
    assert_eq!(
        ty(r#"{"kind": "PackedArrayType", "elementType": "bit", "range": "[3:0]"}"#),
        packed(scalar(ScalarKind::Bit, false), 3, 0)
    );
    assert_eq!(
        ty(r#"{"kind": "FixedSizeUnpackedArrayType", "elementType": "int"}"#),
        DataType::FixedSizeUnpackedArray {
            element: Box::new(integer(PredefinedIntegerKind::Int, true)),
            range: TypeRange::Unknown("<missing>".to_string()),
        }
    );
    assert_eq!(
        ty(r#"{"kind": "DynamicArrayType", "elementType": "byte"}"#),
        DataType::DynamicArray { element: Box::new(integer(PredefinedIntegerKind::Byte, true)) }
    );
    assert_eq!(
        ty(r#"{"kind": "DPIOpenArrayType", "elementType": "bit", "isPacked": true}"#),
        DataType::DpiOpenArray { element: Box::new(scalar(ScalarKind::Bit, false)), packed: true }
    );
    assert_eq!(
        ty(r#"{"kind": "AssociativeArrayType", "elementType": "int", "indexType": "string"}"#),
        DataType::AssociativeArray {
            element: Box::new(integer(PredefinedIntegerKind::Int, true)),
            index: Some(Box::new(DataType::String)),
        }
    );
    assert_eq!(
        ty(r#"{"kind": "AssociativeArrayType", "elementType": "int"}"#),
        DataType::AssociativeArray {
            element: Box::new(integer(PredefinedIntegerKind::Int, true)),
            index: None,
        }
    );
}

#[test]
fn queue_bounds_must_fit_in_u32() {
    let queue = |bound: Option<u32>| DataType::Queue { element: Box::new(DataType::String), max_bound: bound };
    assert_eq!(ty(r#"{"kind": "QueueType", "elementType": "string", "maxBound": 5}"#), queue(Some(5)));
    assert_eq!(
        ty(r#"{"kind": "QueueType", "elementType": "string", "maxBound": 4294967295}"#),
        queue(Some(u32::MAX))
    );
    assert_eq!(
        ty(r#"{"kind": "QueueType", "elementType": "string", "maxBound": 4294967296}"#),
        queue(None)
    );
    assert_eq!(ty(r#"{"kind": "QueueType", "elementType": "string", "maxBound": -1}"#), queue(None));
    assert_eq!(ty(r#"{"kind": "QueueType", "elementType": "string", "maxBound": "5"}"#), queue(None));
    assert_eq!(ty(r#"{"kind": "QueueType", "elementType": "string"}"#), queue(None));
}

#[test]
fn element_types_are_required() {
    let err = lower_data_type(&json(r#"{"kind": "PackedArrayType", "range": "[1:0]"}"#)).unwrap_err();
    assert_eq!(
        err,
        Error::MissingField { field: "elementType", context: "packed array type".to_string() }
    );
    assert_eq!(err.message(), "missing field `elementType` while lowering packed array type");
    let err = lower_data_type(&json(r#"{"kind": "QueueType"}"#)).unwrap_err();
    assert_eq!(err, Error::MissingField { field: "elementType", context: "queue type".to_string() });
    let err = lower_data_type(&json(r#"{"kind": "DPIOpenArrayType"}"#)).unwrap_err();
    assert_eq!(
        err,
        Error::MissingField { field: "elementType", context: "DPI open array type".to_string() }
    );
}

#[test]
fn enum_types_keep_their_values_in_order() {
    let t = ty(r#"{"kind": "EnumType", "name": "state_t", "baseType": "logic[1:0]", "members": [
        {"kind": "EnumValue", "name": "IDLE", "value": "2'b00",
         "source_file": "s.sv", "source_line": 3, "source_column": 5},
        {"kind": "Other", "name": "skip"},
        {"kind": "EnumValue", "name": "RUN"}
    ]}"#);
    assert_eq!(
        t,
        DataType::Enum {
            name: Some("state_t".to_string()),
            base: Box::new(packed(scalar(ScalarKind::Logic, false), 1, 0)),
            values: vec![
                EnumValue {
                    name: "IDLE".to_string(),
                    value: Some("2'b00".to_string()),
                    source: Some(SourceLoc { file: "s.sv".to_string(), line: 3, column: 5 }),
                },
                EnumValue { name: "RUN".to_string(), value: None, source: None },
            ],
        }
    );
    assert_eq!(
        ty(r#"{"kind": "EnumType"}"#),
        DataType::Enum { name: None, base: Box::new(missing_type()), values: vec![] }
    );
    let err = lower_data_type(&json(r#"{"kind": "EnumType", "members": [{"kind": "EnumValue"}]}"#))
        .unwrap_err();
    assert_eq!(err, Error::MissingField { field: "name", context: "enum value".to_string() });
}

#[test]
fn struct_and_union_fields() {
    assert_eq!(
        ty(r#"{"kind": "PackedStructType", "name": "pair", "isSigned": true, "members": [
            {"kind": "Field", "name": "a", "type": "bit"},
            {"kind": "Parameter", "name": "ignored"},
            {"name": "b", "type": "int"}
        ]}"#),
        DataType::PackedStruct {
            name: Some("pair".to_string()),
            signed: true,
            fields: vec![
                TypeField { name: "a".to_string(), ty: scalar(ScalarKind::Bit, false), source: None },
                TypeField {
                    name: "b".to_string(),
                    ty: integer(PredefinedIntegerKind::Int, true),
                    source: None,
                },
            ],
        }
    );
    assert_eq!(
        ty(r#"{"kind": "UnpackedStructType", "fields": [{"name": "x", "type": "string"}]}"#),
        DataType::UnpackedStruct {
            name: None,
            fields: vec![TypeField { name: "x".to_string(), ty: DataType::String, source: None }],
        }
    );
    assert_eq!(
        ty(r#"{"kind": "PackedUnionType", "isTagged": true}"#),
        DataType::PackedUnion { name: None, signed: false, tagged: true, fields: vec![] }
    );
    assert_eq!(
        ty(r#"{"kind": "UnpackedUnionType", "name": "u", "members": []}"#),
        DataType::UnpackedUnion { name: Some("u".to_string()), tagged: false, fields: vec![] }
    );
    let err = lower_data_type(&json(
        r#"{"kind": "UnpackedStructType", "members": [{"kind": "Field", "name": "x"}]}"#,
    ))
    .unwrap_err();
    assert_eq!(err, Error::MissingField { field: "type", context: "type field".to_string() });
    let err = lower_data_type(&json(r#"{"kind": "UnpackedStructType", "members": [{"type": "int"}]}"#))
        .unwrap_err();
    assert_eq!(err, Error::MissingField { field: "name", context: "type field".to_string() });
}

#[test]
fn interfaces_aliases_and_unknown_kinds() {
    assert_eq!(
        ty(r#"{"kind": "VirtualInterfaceType", "name": "vif", "iface": "12 bus", "modport": "mp",
              "isRealIface": true}"#),
        DataType::VirtualInterface {
            name: Some("vif".to_string()),
            iface: Some(SymbolRef { id: Some(12), name: "bus".to_string() }),
            modport: Some(SymbolRef { id: None, name: "mp".to_string() }),
            real_iface: true,
        }
    );
    assert_eq!(
        ty(r#"{"kind": "VirtualInterfaceType", "interface": "bus"}"#),
        DataType::VirtualInterface {
            name: None,
            iface: Some(SymbolRef { id: None, name: "bus".to_string() }),
            modport: None,
            real_iface: false,
        }
    );
    assert_eq!(
        ty(r#"{"kind": "TypeAlias", "name": "word", "target": "7 word_t"}"#),
        DataType::Alias {
            name: "word".to_string(),
            target: Some(SymbolRef { id: Some(7), name: "word_t".to_string() }),
        }
    );
    assert_eq!(ty(r#"{"kind": "TypeAlias"}"#), DataType::Alias { name: String::new(), target: None });
    assert_eq!(
        ty(r#"{"kind": "WeirdType", "name": "w"}"#),
        DataType::Unknown { kind: "WeirdType".to_string(), name: Some("w".to_string()) }
    );
    for (kind, expected) in [
        ("VoidType", DataType::Void),
        ("NullType", DataType::Null),
        ("CHandleType", DataType::CHandle),
        ("StringType", DataType::String),
        ("EventType", DataType::Event),
        ("UnboundedType", DataType::Unbounded),
        ("TypeRefType", DataType::TypeRef),
        ("UntypedType", DataType::Untyped),
        ("SequenceType", DataType::Sequence),
        ("PropertyType", DataType::Property),
        ("ErrorType", DataType::Error),
    ] {
        assert_eq!(ty(&format!(r#"{{"kind": "{kind}"}}"#)), expected);
    }
}

#[test]
fn type_declarations_need_a_name() {
    let decl = lower_type_decl(&json(
        r#"{"kind": "TypeAliasType", "name": "byte_t", "source_file": "t.sv", "source_line": 1,
            "source_column": 9}"#,
    ))
    .expect("declaration lowers");
    assert_eq!(decl.name, "byte_t");
    assert_eq!(
        decl.ty,
        DataType::Unknown { kind: "TypeAliasType".to_string(), name: Some("byte_t".to_string()) }
    );
    assert_eq!(decl.source, Some(SourceLoc { file: "t.sv".to_string(), line: 1, column: 9 }));
    let err = lower_type_decl(&json(r#"{"kind": "EnumType"}"#)).unwrap_err();
    assert_eq!(err, Error::MissingField { field: "name", context: "type declaration".to_string() });
}

#[test]
fn required_and_optional_types() {
    let err = lower_required_type(&json(r#"{"name": "p"}"#), "parameter").unwrap_err();
    assert_eq!(err, Error::MissingField { field: "type", context: "parameter".to_string() });
    assert_eq!(
        lower_required_type(&json(r#"{"type": "bit"}"#), "parameter").unwrap(),
        scalar(ScalarKind::Bit, false)
    );
    assert_eq!(lower_optional_type(&json(r#"{"name": "p"}"#)).unwrap(), None);
    assert_eq!(lower_optional_type(&json(r#"{"type": "event"}"#)).unwrap(), Some(DataType::Event));
}

#[test]
fn operator_names_are_exact() {
    assert_eq!(lower_unary_op("Minus").unwrap(), UnaryOp::Minus);
    assert_eq!(lower_binary_op("Add").unwrap(), BinaryOp::Add);
    let err = lower_unary_op("minus").unwrap_err();
    assert_eq!(err, Error::Message("unknown unary operator `minus`".to_string()));
    assert_eq!(err.message(), "unknown unary operator `minus`");
    let err = lower_binary_op("Plus").unwrap_err();
    assert_eq!(err, Error::Message("unknown binary operator `Plus`".to_string()));
    let err = lower_binary_op("").unwrap_err();
    assert_eq!(err, Error::Message("unknown binary operator ``".to_string()));
}

#[test]
fn symbol_references_split_id_and_name() {
    assert_eq!(SymbolRef::parse("123 clk"), SymbolRef { id: Some(123), name: "clk".to_string() });
    assert_eq!(SymbolRef::parse("+5 n"), SymbolRef { id: Some(5), name: "n".to_string() });
    assert_eq!(SymbolRef::parse("-5 n"), SymbolRef { id: None, name: "n".to_string() });
    assert_eq!(
        SymbolRef::parse("18446744073709551616 big"),
        SymbolRef { id: None, name: "big".to_string() }
    );
    assert_eq!(SymbolRef::parse("  7   a  extra"), SymbolRef { id: Some(7), name: "a".to_string() });
    assert_eq!(SymbolRef::parse("clk"), SymbolRef { id: None, name: "clk".to_string() });
    assert_eq!(SymbolRef::parse(" clk "), SymbolRef { id: None, name: " clk ".to_string() });
    assert_eq!(SymbolRef::parse(""), SymbolRef { id: None, name: String::new() });
}
