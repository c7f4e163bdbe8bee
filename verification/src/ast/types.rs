use vstd::prelude::*;

use crate::ir::{opt_loc, opt_text, SourceLoc, SpecSourceLoc, SpecSymbolRef, SymbolRef};
use crate::error::{missing, res_view, Error, Result, SpecError, SpecResult};
use crate::ir::symbol_ref_of;
use crate::json::{
    array, bool_field, field_array, field_bool, field_flag, field_str, field_u64, json_as_array,
    json_as_str, json_get, kind, kind_is, lemma_array_decreases, lemma_get_decreases, member,
    node_kind, opt_bool, opt_str, opt_string, opt_u64, str_field, JsonValue,
};
use crate::lower::{
    concat_ok, opt_str_view, or_empty, or_missing, source_loc, source_loc_of, text_or_missing,
};
use crate::text::{
    chars_of, find_char, find_in, join_spaced, join_words, lemma_find_char, lemma_rfind_char,
    lemma_trim_end_prefix, parse_i64, parse_i64_spec, rfind_char, rfind_in, split_whitespace,
    split_ws, text_eq, trim, trim_end, trim_end_str, trim_str,
};

verus! {

broadcast use vstd::std_specs::vec::group_vec_axioms;

// ---------------------------------------------------------------- types

/// A named type declared in a module: an enum or a type alias.
#[derive(Debug, PartialEq, Eq)]
pub struct TypeDecl {
    pub name: String,
    pub ty: DataType,
    pub source: Option<SourceLoc>,
}

/// A SystemVerilog data type.
#[derive(Debug, PartialEq, Eq)]
pub enum DataType {
    Scalar(ScalarType),
    PredefinedInteger(PredefinedIntegerType),
    Floating(FloatingType),
    PackedArray { element: Box<DataType>, range: TypeRange },
    FixedSizeUnpackedArray { element: Box<DataType>, range: TypeRange },
    DynamicArray { element: Box<DataType> },
    DpiOpenArray { element: Box<DataType>, packed: bool },
    AssociativeArray { element: Box<DataType>, index: Option<Box<DataType>> },
    Queue { element: Box<DataType>, max_bound: Option<u32> },
    Enum { name: Option<String>, base: Box<DataType>, values: Vec<EnumValue> },
    PackedStruct { name: Option<String>, signed: bool, fields: Vec<TypeField> },
    UnpackedStruct { name: Option<String>, fields: Vec<TypeField> },
    PackedUnion { name: Option<String>, signed: bool, tagged: bool, fields: Vec<TypeField> },
    UnpackedUnion { name: Option<String>, tagged: bool, fields: Vec<TypeField> },
    Void,
    Null,
    CHandle,
    String,
    Event,
    Unbounded,
    TypeRef,
    Untyped,
    Sequence,
    Property,
    VirtualInterface {
        name: Option<String>,
        iface: Option<SymbolRef>,
        modport: Option<SymbolRef>,
        real_iface: bool,
    },
    Alias { name: String, target: Option<SymbolRef> },
    Error,
    Unknown { kind: String, name: Option<String> },
}

#[derive(Debug, PartialEq, Eq)]
pub struct ScalarType {
    pub kind: ScalarKind,
    pub signed: bool,
}

#[derive(Debug, PartialEq, Eq)]
pub enum ScalarKind {
    Bit,
    Logic,
    Reg,
    Unknown(String),
}

#[derive(Debug, PartialEq, Eq)]
pub struct PredefinedIntegerType {
    pub kind: PredefinedIntegerKind,
    pub signed: bool,
}

#[derive(Debug, PartialEq, Eq)]
pub enum PredefinedIntegerKind {
    ShortInt,
    Int,
    LongInt,
    Byte,
    Integer,
    Time,
    Unknown(String),
}

#[derive(Debug, PartialEq, Eq)]
pub struct FloatingType {
    pub kind: FloatingKind,
}

#[derive(Debug, PartialEq, Eq)]
pub enum FloatingKind {
    Real,
    ShortReal,
    RealTime,
    Unknown(String),
}

/// The bounds of a packed or unpacked dimension, `[left:right]`.
#[derive(Debug, PartialEq, Eq)]
pub enum TypeRange {
    Range { left: i64, right: i64 },
    Unknown(String),
}

#[derive(Debug, PartialEq, Eq)]
pub struct EnumValue {
    pub name: String,
    pub value: Option<String>,
    pub source: Option<SourceLoc>,
}

#[derive(Debug, PartialEq, Eq)]
pub struct TypeField {
    pub name: String,
    pub ty: DataType,
    pub source: Option<SourceLoc>,
}

// ---------------------------------------------------------------- models

pub struct SpecTypeDecl {
    pub name: Seq<char>,
    pub ty: SpecDataType,
    pub source: Option<SpecSourceLoc>,
}

pub enum SpecDataType {
    Scalar(SpecScalarType),
    PredefinedInteger(SpecPredefinedIntegerType),
    Floating(SpecFloatingKind),
    PackedArray { element: Box<SpecDataType>, range: SpecTypeRange },
    FixedSizeUnpackedArray { element: Box<SpecDataType>, range: SpecTypeRange },
    DynamicArray { element: Box<SpecDataType> },
    DpiOpenArray { element: Box<SpecDataType>, packed: bool },
    AssociativeArray { element: Box<SpecDataType>, index: Option<Box<SpecDataType>> },
    Queue { element: Box<SpecDataType>, max_bound: Option<u32> },
    Enum { name: Option<Seq<char>>, base: Box<SpecDataType>, values: Seq<SpecEnumValue> },
    PackedStruct { name: Option<Seq<char>>, signed: bool, fields: Seq<SpecTypeField> },
    UnpackedStruct { name: Option<Seq<char>>, fields: Seq<SpecTypeField> },
    PackedUnion {
        name: Option<Seq<char>>,
        signed: bool,
        tagged: bool,
        fields: Seq<SpecTypeField>,
    },
    UnpackedUnion { name: Option<Seq<char>>, tagged: bool, fields: Seq<SpecTypeField> },
    Void,
    Null,
    CHandle,
    String,
    Event,
    Unbounded,
    TypeRef,
    Untyped,
    Sequence,
    Property,
    VirtualInterface {
        name: Option<Seq<char>>,
        iface: Option<SpecSymbolRef>,
        modport: Option<SpecSymbolRef>,
        real_iface: bool,
    },
    Alias { name: Seq<char>, target: Option<SpecSymbolRef> },
    Error,
    Unknown { kind: Seq<char>, name: Option<Seq<char>> },
}

pub struct SpecScalarType {
    pub kind: SpecScalarKind,
    pub signed: bool,
}

pub enum SpecScalarKind {
    Bit,
    Logic,
    Reg,
    Unknown(Seq<char>),
}

pub struct SpecPredefinedIntegerType {
    pub kind: SpecPredefinedIntegerKind,
    pub signed: bool,
}

pub enum SpecPredefinedIntegerKind {
    ShortInt,
    Int,
    LongInt,
    Byte,
    Integer,
    Time,
    Unknown(Seq<char>),
}

pub enum SpecFloatingKind {
    Real,
    ShortReal,
    RealTime,
    Unknown(Seq<char>),
}

pub enum SpecTypeRange {
    Range { left: i64, right: i64 },
    Unknown(Seq<char>),
}

pub struct SpecEnumValue {
    pub name: Seq<char>,
    pub value: Option<Seq<char>>,
    pub source: Option<SpecSourceLoc>,
}

pub struct SpecTypeField {
    pub name: Seq<char>,
    pub ty: SpecDataType,
    pub source: Option<SpecSourceLoc>,
}

// ---------------------------------------------------------------- views

impl View for ScalarKind {
    type V = SpecScalarKind;

    open spec fn view(&self) -> SpecScalarKind {
        match self {
            ScalarKind::Bit => SpecScalarKind::Bit,
            ScalarKind::Logic => SpecScalarKind::Logic,
            ScalarKind::Reg => SpecScalarKind::Reg,
            ScalarKind::Unknown(s) => SpecScalarKind::Unknown(s@),
        }
    }
}

impl View for ScalarType {
    type V = SpecScalarType;

    open spec fn view(&self) -> SpecScalarType {
        SpecScalarType { kind: self.kind@, signed: self.signed }
    }
}

impl View for PredefinedIntegerKind {
    type V = SpecPredefinedIntegerKind;

    open spec fn view(&self) -> SpecPredefinedIntegerKind {
        match self {
            PredefinedIntegerKind::ShortInt => SpecPredefinedIntegerKind::ShortInt,
            PredefinedIntegerKind::Int => SpecPredefinedIntegerKind::Int,
            PredefinedIntegerKind::LongInt => SpecPredefinedIntegerKind::LongInt,
            PredefinedIntegerKind::Byte => SpecPredefinedIntegerKind::Byte,
            PredefinedIntegerKind::Integer => SpecPredefinedIntegerKind::Integer,
            PredefinedIntegerKind::Time => SpecPredefinedIntegerKind::Time,
            PredefinedIntegerKind::Unknown(s) => SpecPredefinedIntegerKind::Unknown(s@),
        }
    }
}

impl View for PredefinedIntegerType {
    type V = SpecPredefinedIntegerType;

    open spec fn view(&self) -> SpecPredefinedIntegerType {
        SpecPredefinedIntegerType { kind: self.kind@, signed: self.signed }
    }
}

impl View for FloatingKind {
    type V = SpecFloatingKind;

    open spec fn view(&self) -> SpecFloatingKind {
        match self {
            FloatingKind::Real => SpecFloatingKind::Real,
            FloatingKind::ShortReal => SpecFloatingKind::ShortReal,
            FloatingKind::RealTime => SpecFloatingKind::RealTime,
            FloatingKind::Unknown(s) => SpecFloatingKind::Unknown(s@),
        }
    }
}

impl View for FloatingType {
    type V = SpecFloatingKind;

    open spec fn view(&self) -> SpecFloatingKind {
        self.kind@
    }
}

impl View for TypeRange {
    type V = SpecTypeRange;

    open spec fn view(&self) -> SpecTypeRange {
        match self {
            TypeRange::Range { left, right } => SpecTypeRange::Range { left: *left, right: *right },
            TypeRange::Unknown(s) => SpecTypeRange::Unknown(s@),
        }
    }
}

impl View for EnumValue {
    type V = SpecEnumValue;

    open spec fn view(&self) -> SpecEnumValue {
        SpecEnumValue { name: self.name@, value: opt_text(self.value), source: opt_loc(self.source) }
    }
}

pub open spec fn opt_symbol(s: Option<SymbolRef>) -> Option<SpecSymbolRef> {
    match s {
        Some(x) => Some(x@),
        None => None,
    }
}

/// The model of a data type.
pub open spec fn type_model(t: DataType) -> SpecDataType
    decreases t,
{
    match t {
        DataType::Scalar(s) => SpecDataType::Scalar(s@),
        DataType::PredefinedInteger(p) => SpecDataType::PredefinedInteger(p@),
        DataType::Floating(f) => SpecDataType::Floating(f@),
        DataType::PackedArray { element, range } => SpecDataType::PackedArray {
            element: Box::new(type_model(*element)),
            range: range@,
        },
        DataType::FixedSizeUnpackedArray { element, range } => SpecDataType::FixedSizeUnpackedArray {
            element: Box::new(type_model(*element)),
            range: range@,
        },
        DataType::DynamicArray { element } => SpecDataType::DynamicArray {
            element: Box::new(type_model(*element)),
        },
        DataType::DpiOpenArray { element, packed } => SpecDataType::DpiOpenArray {
            element: Box::new(type_model(*element)),
            packed,
        },
        DataType::AssociativeArray { element, index } => SpecDataType::AssociativeArray {
            element: Box::new(type_model(*element)),
            index: match index {
                Some(i) => Some(Box::new(type_model(*i))),
                None => None,
            },
        },
        DataType::Queue { element, max_bound } => SpecDataType::Queue {
            element: Box::new(type_model(*element)),
            max_bound,
        },
        DataType::Enum { name, base, values } => SpecDataType::Enum {
            name: opt_text(name),
            base: Box::new(type_model(*base)),
            values: values@.map_values(|v: EnumValue| v@),
        },
        DataType::PackedStruct { name, signed, fields } => SpecDataType::PackedStruct {
            name: opt_text(name),
            signed,
            fields: fields_model(fields@),
        },
        DataType::UnpackedStruct { name, fields } => SpecDataType::UnpackedStruct {
            name: opt_text(name),
            fields: fields_model(fields@),
        },
        DataType::PackedUnion { name, signed, tagged, fields } => SpecDataType::PackedUnion {
            name: opt_text(name),
            signed,
            tagged,
            fields: fields_model(fields@),
        },
        DataType::UnpackedUnion { name, tagged, fields } => SpecDataType::UnpackedUnion {
            name: opt_text(name),
            tagged,
            fields: fields_model(fields@),
        },
        DataType::Void => SpecDataType::Void,
        DataType::Null => SpecDataType::Null,
        DataType::CHandle => SpecDataType::CHandle,
        DataType::String => SpecDataType::String,
        DataType::Event => SpecDataType::Event,
        DataType::Unbounded => SpecDataType::Unbounded,
        DataType::TypeRef => SpecDataType::TypeRef,
        DataType::Untyped => SpecDataType::Untyped,
        DataType::Sequence => SpecDataType::Sequence,
        DataType::Property => SpecDataType::Property,
        DataType::VirtualInterface { name, iface, modport, real_iface } => SpecDataType::VirtualInterface {
            name: opt_text(name),
            iface: opt_symbol(iface),
            modport: opt_symbol(modport),
            real_iface,
        },
        DataType::Alias { name, target } => SpecDataType::Alias {
            name: name@,
            target: opt_symbol(target),
        },
        DataType::Error => SpecDataType::Error,
        DataType::Unknown { kind, name } => SpecDataType::Unknown {
            kind: kind@,
            name: opt_text(name),
        },
    }
}

/// The models of a sequence of fields.
pub open spec fn fields_model(v: Seq<TypeField>) -> Seq<SpecTypeField>
    decreases v,
{
    if v.len() == 0 {
        seq![]
    } else {
        fields_model(v.drop_last()).push(
            SpecTypeField {
                name: v.last().name@,
                ty: type_model(v.last().ty),
                source: opt_loc(v.last().source),
            },
        )
    }
}

impl View for DataType {
    type V = SpecDataType;

    open spec fn view(&self) -> SpecDataType {
        type_model(*self)
    }
}

impl View for TypeField {
    type V = SpecTypeField;

    open spec fn view(&self) -> SpecTypeField {
        SpecTypeField { name: self.name@, ty: self.ty@, source: opt_loc(self.source) }
    }
}

impl View for TypeDecl {
    type V = SpecTypeDecl;

    open spec fn view(&self) -> SpecTypeDecl {
        SpecTypeDecl { name: self.name@, ty: self.ty@, source: opt_loc(self.source) }
    }
}

pub open spec fn opt_type(t: Option<DataType>) -> Option<SpecDataType> {
    match t {
        Some(x) => Some(x@),
        None => None,
    }
}

/// The type that stands where none is known.
pub open spec fn default_type() -> SpecDataType {
    SpecDataType::Unknown { kind: "<missing>"@, name: None }
}

impl Default for DataType {
    fn default() -> (r: Self)
        ensures
            r@ == default_type(),
    {
        DataType::Unknown { kind: String::from_str("<missing>"), name: None }
    }
}

/// Whether an integer type of this kind is signed when nothing says otherwise.
pub open spec fn kind_default_signed(k: SpecPredefinedIntegerKind) -> bool {
    !(k is Time || k is Unknown)
}

impl PredefinedIntegerKind {
    /// Whether an integer type of this kind is signed when nothing says otherwise:
    /// all but `time` (and unknown kinds) are.
    pub fn default_signed(&self) -> (r: bool)
        ensures
            r == kind_default_signed(self@),
    {
        match self {
            PredefinedIntegerKind::Time | PredefinedIntegerKind::Unknown(_) => false,
            _ => true,
        }
    }
}

// ---------------------------------------------------------------- names of kinds

/// `s` is `a` or `b`.
pub open spec fn is_either(s: Option<Seq<char>>, a: Seq<char>, b: Seq<char>) -> bool {
    s == Some(a) || s == Some(b)
}

/// Whether `s` is `a` or `b`.
fn either(s: Option<&str>, a: &str, b: &str) -> (r: bool)
    ensures
        r == is_either(opt_str_view(s), a@, b@),
{
    match s {
        Some(x) => text_eq(x, a) || text_eq(x, b),
        None => false,
    }
}

pub open spec fn scalar_kind_of(s: Option<Seq<char>>) -> SpecScalarKind {
    if is_either(s, "bit"@, "Bit"@) {
        SpecScalarKind::Bit
    } else if is_either(s, "logic"@, "Logic"@) {
        SpecScalarKind::Logic
    } else if is_either(s, "reg"@, "Reg"@) {
        SpecScalarKind::Reg
    } else {
        SpecScalarKind::Unknown(or_missing(s))
    }
}

pub fn lower_scalar_kind(value: Option<&str>) -> (r: ScalarKind)
    ensures
        r@ == scalar_kind_of(opt_str_view(value)),
{
    if either(value, "bit", "Bit") {
        ScalarKind::Bit
    } else if either(value, "logic", "Logic") {
        ScalarKind::Logic
    } else if either(value, "reg", "Reg") {
        ScalarKind::Reg
    } else {
        ScalarKind::Unknown(text_or_missing(value))
    }
}

pub open spec fn predefined_integer_kind_of(s: Option<Seq<char>>) -> SpecPredefinedIntegerKind {
    if is_either(s, "shortint"@, "ShortInt"@) {
        SpecPredefinedIntegerKind::ShortInt
    } else if is_either(s, "int"@, "Int"@) {
        SpecPredefinedIntegerKind::Int
    } else if is_either(s, "longint"@, "LongInt"@) {
        SpecPredefinedIntegerKind::LongInt
    } else if is_either(s, "byte"@, "Byte"@) {
        SpecPredefinedIntegerKind::Byte
    } else if is_either(s, "integer"@, "Integer"@) {
        SpecPredefinedIntegerKind::Integer
    } else if is_either(s, "time"@, "Time"@) {
        SpecPredefinedIntegerKind::Time
    } else {
        SpecPredefinedIntegerKind::Unknown(or_missing(s))
    }
}

pub fn lower_predefined_integer_kind(value: Option<&str>) -> (r: PredefinedIntegerKind)
    ensures
        r@ == predefined_integer_kind_of(opt_str_view(value)),
{
    if either(value, "shortint", "ShortInt") {
        PredefinedIntegerKind::ShortInt
    } else if either(value, "int", "Int") {
        PredefinedIntegerKind::Int
    } else if either(value, "longint", "LongInt") {
        PredefinedIntegerKind::LongInt
    } else if either(value, "byte", "Byte") {
        PredefinedIntegerKind::Byte
    } else if either(value, "integer", "Integer") {
        PredefinedIntegerKind::Integer
    } else if either(value, "time", "Time") {
        PredefinedIntegerKind::Time
    } else {
        PredefinedIntegerKind::Unknown(text_or_missing(value))
    }
}

pub open spec fn floating_kind_of(s: Option<Seq<char>>) -> SpecFloatingKind {
    if is_either(s, "real"@, "Real"@) {
        SpecFloatingKind::Real
    } else if is_either(s, "shortreal"@, "ShortReal"@) {
        SpecFloatingKind::ShortReal
    } else if is_either(s, "realtime"@, "RealTime"@) {
        SpecFloatingKind::RealTime
    } else {
        SpecFloatingKind::Unknown(or_missing(s))
    }
}

pub fn lower_floating_kind(value: Option<&str>) -> (r: FloatingKind)
    ensures
        r@ == floating_kind_of(opt_str_view(value)),
{
    if either(value, "real", "Real") {
        FloatingKind::Real
    } else if either(value, "shortreal", "ShortReal") {
        FloatingKind::ShortReal
    } else if either(value, "realtime", "RealTime") {
        FloatingKind::RealTime
    } else {
        FloatingKind::Unknown(text_or_missing(value))
    }
}

// ---------------------------------------------------------------- type text

/// What `[left:right]` text denotes: both bounds when they are integers,
/// otherwise the trimmed text as an unknown range.
pub open spec fn type_range_of(raw: Seq<char>) -> SpecTypeRange {
    let t = trim(raw);
    if t.len() >= 2 && t[0] == '[' && t.last() == ']' {
        let body = t.subrange(1, t.len() - 1);
        match find_char(body, ':') {
            Some(i) => match (
                parse_i64_spec(trim(body.take(i))),
                parse_i64_spec(trim(body.skip(i + 1))),
            ) {
                (Some(left), Some(right)) => SpecTypeRange::Range { left, right },
                _ => SpecTypeRange::Unknown(t),
            },
            None => SpecTypeRange::Unknown(t),
        }
    } else {
        SpecTypeRange::Unknown(t)
    }
}

/// Reads a range written as `[left:right]`.
pub fn parse_type_range(raw: &str) -> (r: TypeRange)
    ensures
        r@ == type_range_of(raw@),
{
    let trimmed = trim_str(raw);
    let v = chars_of(trimmed);
    let n = v.len();
    if n >= 2 && v[0] == '[' && v[n - 1] == ']' {
        let body = trimmed.substring_char(1, n - 1);
        let bv = chars_of(body);
        match find_in(&bv, ':') {
            Some(i) => {
                proof {
                    lemma_find_char(body@, ':');
                }
                let left = trim_str(body.substring_char(0, i));
                let right = trim_str(body.substring_char(i + 1, bv.len()));
                assert(body@.subrange(0, i as int) =~= body@.take(i as int));
                assert(body@.subrange(i + 1, bv.len() as int) =~= body@.skip(i + 1));
                match (parse_i64(left), parse_i64(right)) {
                    (Some(l), Some(r)) => TypeRange::Range { left: l, right: r },
                    _ => TypeRange::Unknown(trimmed.to_owned()),
                }
            },
            None => TypeRange::Unknown(trimmed.to_owned()),
        }
    } else {
        TypeRange::Unknown(trimmed.to_owned())
    }
}

/// Splits trailing `[..]` dimensions off `b`, rightmost first: what is left
/// of the base, and the text of each dimension.
pub open spec fn strip_ranges(b: Seq<char>) -> (Seq<char>, Seq<Seq<char>>)
    decreases b.len(),
{
    if b.len() > 0 && b.last() == ']' {
        match rfind_char(b.drop_last(), '[') {
            None => (b, seq![]),
            Some(start) => {
                proof {
                    lemma_rfind_char(b.drop_last(), '[');
                    lemma_trim_end_prefix(b.drop_last().take(start));
                }
                let rest = strip_ranges(trim_end(b.drop_last().take(start)));
                (rest.0, seq![b.skip(start)] + rest.1)
            },
        }
    } else {
        (b, seq![])
    }
}

/// The sign that the words give (the last of `signed` and `unsigned` wins),
/// and the other words, in order.
pub open spec fn sign_words(ws: Seq<Seq<char>>) -> (Option<bool>, Seq<Seq<char>>)
    decreases ws.len(),
{
    if ws.len() == 0 {
        (None, seq![])
    } else {
        let prev = sign_words(ws.drop_last());
        let w = ws.last();
        if w == "signed"@ {
            (Some(true), prev.1)
        } else if w == "unsigned"@ {
            (Some(false), prev.1)
        } else {
            (prev.0, prev.1.push(w))
        }
    }
}

/// A predefined integer type of kind `k`, signed as `signed` says or by default.
pub open spec fn predefined_of(k: SpecPredefinedIntegerKind, signed: Option<bool>) -> SpecDataType {
    SpecDataType::PredefinedInteger(
        SpecPredefinedIntegerType {
            kind: k,
            signed: match signed {
                Some(b) => b,
                None => kind_default_signed(k),
            },
        },
    )
}

/// A scalar type of kind `k`, unsigned unless `signed` says otherwise.
pub open spec fn scalar_of(k: SpecScalarKind, signed: Option<bool>) -> SpecDataType {
    SpecDataType::Scalar(
        SpecScalarType {
            kind: k,
            signed: match signed {
                Some(b) => b,
                None => false,
            },
        },
    )
}

/// The type that the keyword `name` denotes, or an unknown type named `text`.
pub open spec fn base_type_of(name: Seq<char>, signed: Option<bool>, text: Seq<char>) -> SpecDataType {
    if name == "bit"@ {
        scalar_of(SpecScalarKind::Bit, signed)
    } else if name == "logic"@ {
        scalar_of(SpecScalarKind::Logic, signed)
    } else if name == "reg"@ {
        scalar_of(SpecScalarKind::Reg, signed)
    } else if name == "shortint"@ {
        predefined_of(SpecPredefinedIntegerKind::ShortInt, signed)
    } else if name == "int"@ {
        predefined_of(SpecPredefinedIntegerKind::Int, signed)
    } else if name == "longint"@ {
        predefined_of(SpecPredefinedIntegerKind::LongInt, signed)
    } else if name == "byte"@ {
        predefined_of(SpecPredefinedIntegerKind::Byte, signed)
    } else if name == "integer"@ {
        predefined_of(SpecPredefinedIntegerKind::Integer, signed)
    } else if name == "time"@ {
        predefined_of(SpecPredefinedIntegerKind::Time, signed)
    } else if name == "real"@ {
        SpecDataType::Floating(SpecFloatingKind::Real)
    } else if name == "shortreal"@ {
        SpecDataType::Floating(SpecFloatingKind::ShortReal)
    } else if name == "realtime"@ {
        SpecDataType::Floating(SpecFloatingKind::RealTime)
    } else if name == "void"@ {
        SpecDataType::Void
    } else if name == "null"@ {
        SpecDataType::Null
    } else if name == "chandle"@ {
        SpecDataType::CHandle
    } else if name == "string"@ {
        SpecDataType::String
    } else if name == "event"@ {
        SpecDataType::Event
    } else if name == "$"@ {
        SpecDataType::Unbounded
    } else if name == "type reference"@ {
        SpecDataType::TypeRef
    } else if name == "untyped"@ {
        SpecDataType::Untyped
    } else if name == "sequence"@ {
        SpecDataType::Sequence
    } else if name == "property"@ {
        SpecDataType::Property
    } else {
        SpecDataType::Unknown { kind: "StringType"@, name: Some(text) }
    }
}

/// `ty` inside packed dimensions `ranges`: the first range outermost.
pub open spec fn wrap_ranges(ty: SpecDataType, ranges: Seq<SpecTypeRange>) -> SpecDataType
    decreases ranges.len(),
{
    if ranges.len() == 0 {
        ty
    } else {
        SpecDataType::PackedArray {
            element: Box::new(wrap_ranges(ty, ranges.drop_first())),
            range: ranges[0],
        }
    }
}

/// What a type written as text denotes, as slang prints types:
/// keywords with an optional `signed`/`unsigned`, then packed dimensions.
pub open spec fn type_text_of(raw: Seq<char>) -> SpecDataType {
    let t = trim(raw);
    if t.len() == 0 {
        default_type()
    } else {
        let stripped = strip_ranges(t);
        let signs = sign_words(split_ws(stripped.0));
        wrap_ranges(
            base_type_of(join_words(signs.1), signs.0, t),
            stripped.1.map_values(|x: Seq<char>| type_range_of(x)),
        )
    }
}

/// Strips the trailing dimensions off `t`.
fn strip_type_ranges(t: &str) -> (r: (&str, Vec<TypeRange>))
    ensures
        r.0@ == strip_ranges(t@).0,
        r.1@.map_values(|x: TypeRange| x@) =~= strip_ranges(t@).1.map_values(
            |x: Seq<char>| type_range_of(x),
        ),
{
    let mut base: &str = t;
    let mut ranges: Vec<TypeRange> = Vec::new();
    let ghost mut texts: Seq<Seq<char>> = seq![];
    loop
        invariant
            strip_ranges(t@).0 == strip_ranges(base@).0,
            strip_ranges(t@).1 == texts + strip_ranges(base@).1,
            ranges@.map_values(|x: TypeRange| x@) =~= texts.map_values(|x: Seq<char>| type_range_of(x)),
        ensures
            strip_ranges(t@).0 == base@,
            strip_ranges(t@).1 == texts,
            ranges@.map_values(|x: TypeRange| x@) =~= texts.map_values(|x: Seq<char>| type_range_of(x)),
        decreases base@.len(),
    {
        let v = chars_of(base);
        let n = v.len();
        if n == 0 || v[n - 1] != ']' {
            assert(texts + Seq::<Seq<char>>::empty() =~= texts);
            break;
        }
        assert(base@.drop_last() =~= v@.take(n - 1));
        let start = match rfind_in(&v, n - 1, '[') {
            Some(s) => s,
            None => {
                assert(texts + Seq::<Seq<char>>::empty() =~= texts);
                break;
            },
        };
        proof {
            lemma_rfind_char(base@.drop_last(), '[');
            lemma_trim_end_prefix(base@.drop_last().take(start as int));
        }
        let range_text = base.substring_char(start, n);
        assert(range_text@ =~= base@.skip(start as int));
        let range = parse_type_range(range_text);
        let ghost before = ranges@.map_values(|x: TypeRange| x@);
        ranges.push(range);
        assert(ranges@.map_values(|x: TypeRange| x@) =~= before.push(range@));
        proof {
            let rest = strip_ranges(trim_end(base@.drop_last().take(start as int)));
            assert(strip_ranges(base@).1 == seq![base@.skip(start as int)] + rest.1);
            assert(texts + (seq![base@.skip(start as int)] + rest.1) =~= texts.push(base@.skip(start as int)) + rest.1);
            texts = texts.push(base@.skip(start as int));
        }
        let head = base.substring_char(0, start);
        assert(head@ =~= base@.drop_last().take(start as int));
        base = trim_end_str(head);
    }
    (base, ranges)
}

/// Reads a type written as text.
pub fn parse_type_text(raw: &str) -> (r: DataType)
    ensures
        r@ == type_text_of(raw@),
{
    let t = trim_str(raw);
    if t.unicode_len() == 0 {
        return DataType::default();
    }
    let (base, ranges) = strip_type_ranges(t);
    let words = split_whitespace(base);
    let ghost ws = words@.map_values(|x: &str| x@);
    let mut signed: Option<bool> = None;
    let mut parts: Vec<&str> = Vec::new();
    let mut i: usize = 0;
    while i < words.len()
        invariant
            i <= words@.len(),
            ws == words@.map_values(|x: &str| x@),
            (signed, parts@.map_values(|x: &str| x@)) == sign_words(ws.take(i as int)),
        decreases words.len() - i,
    {
        assert(ws.take(i + 1).drop_last() =~= ws.take(i as int));
        assert(ws.take(i + 1).last() == words@[i as int]@);
        let w = words[i];
        if text_eq(w, "signed") {
            signed = Some(true);
        } else if text_eq(w, "unsigned") {
            signed = Some(false);
        } else {
            let ghost before = parts@.map_values(|x: &str| x@);
            parts.push(w);
            assert(parts@.map_values(|x: &str| x@) =~= before.push(w@));
        }
        i += 1;
    }
    assert(ws.take(i as int) =~= ws);
    let name = join_spaced(&parts);
    let mut ty = base_type(name.as_str(), signed, t);
    let mut k: usize = ranges.len();
    let ghost rs = ranges@.map_values(|x: TypeRange| x@);
    assert(rs.skip(k as int) =~= Seq::<SpecTypeRange>::empty());
    while k > 0
        invariant
            k <= ranges@.len(),
            rs == ranges@.map_values(|x: TypeRange| x@),
            ty@ == wrap_ranges(base_type_of(join_words(sign_words(ws).1), sign_words(ws).0, t@), rs.skip(k as int)),
        decreases k,
    {
        assert(rs.skip(k - 1).drop_first() =~= rs.skip(k as int));
        let range = ranges[k - 1].clone();
        ty = DataType::PackedArray { element: Box::new(ty), range };
        k -= 1;
    }
    assert(rs.skip(0) =~= rs);
    ty
}

/// The type that the keyword `name` denotes, or an unknown type named `text`.
fn base_type(name: &str, signed: Option<bool>, text: &str) -> (r: DataType)
    ensures
        r@ == base_type_of(name@, signed, text@),
{
    let sg = match signed {
        Some(b) => b,
        None => false,
    };
    if text_eq(name, "bit") {
        DataType::Scalar(ScalarType { kind: ScalarKind::Bit, signed: sg })
    } else if text_eq(name, "logic") {
        DataType::Scalar(ScalarType { kind: ScalarKind::Logic, signed: sg })
    } else if text_eq(name, "reg") {
        DataType::Scalar(ScalarType { kind: ScalarKind::Reg, signed: sg })
    } else if text_eq(name, "shortint") {
        predefined_integer_type(PredefinedIntegerKind::ShortInt, signed)
    } else if text_eq(name, "int") {
        predefined_integer_type(PredefinedIntegerKind::Int, signed)
    } else if text_eq(name, "longint") {
        predefined_integer_type(PredefinedIntegerKind::LongInt, signed)
    } else if text_eq(name, "byte") {
        predefined_integer_type(PredefinedIntegerKind::Byte, signed)
    } else if text_eq(name, "integer") {
        predefined_integer_type(PredefinedIntegerKind::Integer, signed)
    } else if text_eq(name, "time") {
        predefined_integer_type(PredefinedIntegerKind::Time, signed)
    } else if text_eq(name, "real") {
        DataType::Floating(FloatingType { kind: FloatingKind::Real })
    } else if text_eq(name, "shortreal") {
        DataType::Floating(FloatingType { kind: FloatingKind::ShortReal })
    } else if text_eq(name, "realtime") {
        DataType::Floating(FloatingType { kind: FloatingKind::RealTime })
    } else if text_eq(name, "void") {
        DataType::Void
    } else if text_eq(name, "null") {
        DataType::Null
    } else if text_eq(name, "chandle") {
        DataType::CHandle
    } else if text_eq(name, "string") {
        DataType::String
    } else if text_eq(name, "event") {
        DataType::Event
    } else if text_eq(name, "$") {
        DataType::Unbounded
    } else if text_eq(name, "type reference") {
        DataType::TypeRef
    } else if text_eq(name, "untyped") {
        DataType::Untyped
    } else if text_eq(name, "sequence") {
        DataType::Sequence
    } else if text_eq(name, "property") {
        DataType::Property
    } else {
        DataType::Unknown { kind: String::from_str("StringType"), name: Some(text.to_owned()) }
    }
}

/// A predefined integer type of kind `kind`, signed as `signed` says or by default.
pub fn predefined_integer_type(kind: PredefinedIntegerKind, signed: Option<bool>) -> (r: DataType)
    ensures
        r@ == predefined_of(kind@, signed),
{
    let s = match signed {
        Some(b) => b,
        None => kind.default_signed(),
    };
    DataType::PredefinedInteger(PredefinedIntegerType { kind, signed: s })
}


// ---------------------------------------------------------------- type nodes

/// The `name` of a type node, unless absent or empty.
pub open spec fn declared_name_of(j: JsonValue) -> Option<Seq<char>> {
    match field_str(j, "name"@) {
        Some(n) => if n.len() > 0 {
            Some(n)
        } else {
            None
        },
        None => None,
    }
}

/// The range written in member `field`, or an unknown range when there is none.
pub open spec fn lower_type_range_of(j: JsonValue, field: Seq<char>) -> SpecTypeRange {
    match field_str(j, field) {
        Some(raw) => type_range_of(raw),
        None => SpecTypeRange::Unknown("<missing>"@),
    }
}

/// The members of a type node that hold its fields: `members`, or `fields`
/// when there is no `members`.
pub open spec fn field_members_of(j: JsonValue) -> Option<Seq<JsonValue>> {
    let m = match json_get(j, "members"@) {
        Some(v) => Some(v),
        None => json_get(j, "fields"@),
    };
    match m {
        Some(v) => json_as_array(v),
        None => None,
    }
}

/// An optional text as a symbol reference.
pub open spec fn opt_symbol_of(s: Option<Seq<char>>) -> Option<SpecSymbolRef> {
    match s {
        Some(t) => Some(symbol_ref_of(t)),
        None => None,
    }
}

/// A `u64` as a `u32`, when it fits.
pub open spec fn fit_u32(v: Option<u64>) -> Option<u32> {
    match v {
        Some(n) => if n <= u32::MAX {
            Some(n as u32)
        } else {
            None
        },
        None => None,
    }
}

/// What lowering a data type node gives: a type written as text, or a type
/// node of some kind.
pub open spec fn lower_data_type_spec(j: JsonValue) -> SpecResult<SpecDataType>
    decreases j, 1int,
{
    match json_as_str(j) {
        Some(raw) => Ok(type_text_of(raw)),
        None => match node_kind(j) {
            None => Ok(SpecDataType::Unknown { kind: "<missing>"@, name: declared_name_of(j) }),
            Some(k) => {
                proof {
                    lemma_get_decreases(j, "baseType"@);
                    lemma_get_decreases(j, "indexType"@);
                }
                if k == "ScalarType"@ {
                    Ok(
                        SpecDataType::Scalar(
                            SpecScalarType {
                                kind: scalar_kind_of(field_str(j, "name"@)),
                                signed: field_flag(j, "isSigned"@),
                            },
                        ),
                    )
                } else if k == "PredefinedIntegerType"@ {
                    Ok(predefined_of(predefined_integer_kind_of(field_str(j, "name"@)), field_bool(j, "isSigned"@)))
                } else if k == "FloatingType"@ {
                    Ok(SpecDataType::Floating(floating_kind_of(field_str(j, "name"@))))
                } else if k == "PackedArrayType"@ {
                    match lower_type_field_spec(j, "elementType"@, "packed array type"@) {
                        Err(e) => Err(e),
                        Ok(el) => Ok(
                            SpecDataType::PackedArray {
                                element: Box::new(el),
                                range: lower_type_range_of(j, "range"@),
                            },
                        ),
                    }
                } else if k == "FixedSizeUnpackedArrayType"@ {
                    match lower_type_field_spec(j, "elementType"@, "fixed size unpacked array type"@) {
                        Err(e) => Err(e),
                        Ok(el) => Ok(
                            SpecDataType::FixedSizeUnpackedArray {
                                element: Box::new(el),
                                range: lower_type_range_of(j, "range"@),
                            },
                        ),
                    }
                } else if k == "DynamicArrayType"@ {
                    match lower_type_field_spec(j, "elementType"@, "dynamic array type"@) {
                        Err(e) => Err(e),
                        Ok(el) => Ok(SpecDataType::DynamicArray { element: Box::new(el) }),
                    }
                } else if k == "DPIOpenArrayType"@ {
                    match lower_type_field_spec(j, "elementType"@, "DPI open array type"@) {
                        Err(e) => Err(e),
                        Ok(el) => Ok(
                            SpecDataType::DpiOpenArray {
                                element: Box::new(el),
                                packed: field_flag(j, "isPacked"@),
                            },
                        ),
                    }
                } else if k == "AssociativeArrayType"@ {
                    match lower_type_field_spec(j, "elementType"@, "associative array type"@) {
                        Err(e) => Err(e),
                        Ok(el) => {
                            let index = match json_get(j, "indexType"@) {
                                None => Ok(None),
                                Some(i) => match lower_data_type_spec(i) {
                                    Err(e) => Err(e),
                                    Ok(x) => Ok(Some(Box::new(x))),
                                },
                            };
                            match index {
                                Err(e) => Err(e),
                                Ok(index) => Ok(
                                    SpecDataType::AssociativeArray { element: Box::new(el), index },
                                ),
                            }
                        },
                    }
                } else if k == "QueueType"@ {
                    match lower_type_field_spec(j, "elementType"@, "queue type"@) {
                        Err(e) => Err(e),
                        Ok(el) => Ok(
                            SpecDataType::Queue {
                                element: Box::new(el),
                                max_bound: fit_u32(field_u64(j, "maxBound"@)),
                            },
                        ),
                    }
                } else if k == "EnumType"@ {
                    let base = match json_get(j, "baseType"@) {
                        None => Ok(default_type()),
                        Some(b) => lower_data_type_spec(b),
                    };
                    match base {
                        Err(e) => Err(e),
                        Ok(base) => match lower_enum_values_spec(j) {
                            Err(e) => Err(e),
                            Ok(values) => Ok(
                                SpecDataType::Enum { name: declared_name_of(j), base: Box::new(base), values },
                            ),
                        },
                    }
                } else if k == "PackedStructType"@ {
                    match lower_type_fields_spec(j) {
                        Err(e) => Err(e),
                        Ok(fields) => Ok(
                            SpecDataType::PackedStruct {
                                name: declared_name_of(j),
                                signed: field_flag(j, "isSigned"@),
                                fields,
                            },
                        ),
                    }
                } else if k == "UnpackedStructType"@ {
                    match lower_type_fields_spec(j) {
                        Err(e) => Err(e),
                        Ok(fields) => Ok(SpecDataType::UnpackedStruct { name: declared_name_of(j), fields }),
                    }
                } else if k == "PackedUnionType"@ {
                    match lower_type_fields_spec(j) {
                        Err(e) => Err(e),
                        Ok(fields) => Ok(
                            SpecDataType::PackedUnion {
                                name: declared_name_of(j),
                                signed: field_flag(j, "isSigned"@),
                                tagged: field_flag(j, "isTagged"@),
                                fields,
                            },
                        ),
                    }
                } else if k == "UnpackedUnionType"@ {
                    match lower_type_fields_spec(j) {
                        Err(e) => Err(e),
                        Ok(fields) => Ok(
                            SpecDataType::UnpackedUnion {
                                name: declared_name_of(j),
                                tagged: field_flag(j, "isTagged"@),
                                fields,
                            },
                        ),
                    }
                } else if k == "VoidType"@ {
                    Ok(SpecDataType::Void)
                } else if k == "NullType"@ {
                    Ok(SpecDataType::Null)
                } else if k == "CHandleType"@ {
                    Ok(SpecDataType::CHandle)
                } else if k == "StringType"@ {
                    Ok(SpecDataType::String)
                } else if k == "EventType"@ {
                    Ok(SpecDataType::Event)
                } else if k == "UnboundedType"@ {
                    Ok(SpecDataType::Unbounded)
                } else if k == "TypeRefType"@ {
                    Ok(SpecDataType::TypeRef)
                } else if k == "UntypedType"@ {
                    Ok(SpecDataType::Untyped)
                } else if k == "SequenceType"@ {
                    Ok(SpecDataType::Sequence)
                } else if k == "PropertyType"@ {
                    Ok(SpecDataType::Property)
                } else if k == "VirtualInterfaceType"@ {
                    Ok(
                        SpecDataType::VirtualInterface {
                            name: declared_name_of(j),
                            iface: opt_symbol_of(
                                match field_str(j, "iface"@) {
                                    Some(s) => Some(s),
                                    None => field_str(j, "interface"@),
                                },
                            ),
                            modport: opt_symbol_of(field_str(j, "modport"@)),
                            real_iface: field_flag(j, "isRealIface"@),
                        },
                    )
                } else if k == "TypeAlias"@ {
                    Ok(
                        SpecDataType::Alias {
                            name: or_empty(field_str(j, "name"@)),
                            target: opt_symbol_of(field_str(j, "target"@)),
                        },
                    )
                } else if k == "ErrorType"@ {
                    Ok(SpecDataType::Error)
                } else {
                    Ok(SpecDataType::Unknown { kind: k, name: declared_name_of(j) })
                }
            },
        },
    }
}

/// What lowering the required type member `field` of `j` gives.
pub open spec fn lower_type_field_spec(j: JsonValue, field: Seq<char>, context: Seq<char>) -> SpecResult<SpecDataType>
    decreases j, 0int,
{
    match json_get(j, field) {
        None => Err(SpecError::MissingField { field, context }),
        Some(c) => {
            proof {
                lemma_get_decreases(j, field);
            }
            lower_data_type_spec(c)
        },
    }
}

/// What lowering the fields of a struct or union type node gives.
pub open spec fn lower_type_fields_spec(j: JsonValue) -> SpecResult<Seq<SpecTypeField>>
    decreases j, 0int,
{
    match field_members_of(j) {
        None => Ok(seq![]),
        Some(ms) => {
            proof {
                lemma_array_decreases(j, "members"@);
                lemma_array_decreases(j, "fields"@);
            }
            lower_field_members_spec(ms)
        },
    }
}

/// What lowering the members of a struct or union gives: the members that are
/// fields (by kind, or by having a type), in order.
pub open spec fn lower_field_members_spec(ms: Seq<JsonValue>) -> SpecResult<Seq<SpecTypeField>>
    decreases ms, 0int,
{
    if ms.len() == 0 {
        Ok(seq![])
    } else {
        let m = ms[0];
        proof {
            assert(decreases_to!(ms => ms[0]));
            lemma_get_decreases(m, "type"@);
            assert(decreases_to!(ms => ms.subrange(1, ms.len() as int)));
        }
        let rest = lower_field_members_spec(ms.drop_first());
        if node_kind(m) == Some("Field"@) || json_get(m, "type"@) is Some {
            match field_str(m, "name"@) {
                None => Err(SpecError::MissingField { field: "name"@, context: "type field"@ }),
                Some(name) => match json_get(m, "type"@) {
                    None => Err(SpecError::MissingField { field: "type"@, context: "type field"@ }),
                    Some(t) => match lower_data_type_spec(t) {
                        Err(e) => Err(e),
                        Ok(ty) => concat_ok(
                            seq![SpecTypeField { name, ty, source: source_loc_of(m) }],
                            rest,
                        ),
                    },
                },
            }
        } else {
            rest
        }
    }
}

/// What lowering the values of an enum type node gives.
pub open spec fn lower_enum_values_spec(j: JsonValue) -> SpecResult<Seq<SpecEnumValue>> {
    match field_array(j, "members"@) {
        None => Ok(seq![]),
        Some(ms) => lower_enum_members_spec(ms),
    }
}

/// What lowering the members of an enum type gives: its `EnumValue` members, in order.
pub open spec fn lower_enum_members_spec(ms: Seq<JsonValue>) -> SpecResult<Seq<SpecEnumValue>>
    decreases ms.len(),
{
    if ms.len() == 0 {
        Ok(seq![])
    } else {
        let m = ms[0];
        let rest = lower_enum_members_spec(ms.drop_first());
        if node_kind(m) == Some("EnumValue"@) {
            match field_str(m, "name"@) {
                None => Err(SpecError::MissingField { field: "name"@, context: "enum value"@ }),
                Some(name) => concat_ok(
                    seq![SpecEnumValue { name, value: field_str(m, "value"@), source: source_loc_of(m) }],
                    rest,
                ),
            }
        } else {
            rest
        }
    }
}

/// The `name` of a type node, unless absent or empty.
fn declared_name(value: &JsonValue) -> (r: Option<String>)
    ensures
        opt_text(r) == declared_name_of(*value),
{
    match opt_str(value, "name") {
        Some(n) => {
            if n.unicode_len() > 0 {
                Some(n.to_owned())
            } else {
                None
            }
        },
        None => None,
    }
}

/// The range written in member `field`, or an unknown range when there is none.
fn lower_type_range(value: &JsonValue, field: &str) -> (r: TypeRange)
    ensures
        r@ == lower_type_range_of(*value, field@),
{
    match opt_str(value, field) {
        Some(raw) => parse_type_range(raw),
        None => TypeRange::Unknown(text_or_missing(None)),
    }
}

/// An optional text as a symbol reference.
fn opt_symbol_ref(s: Option<&str>) -> (r: Option<SymbolRef>)
    ensures
        opt_symbol(r) == opt_symbol_of(opt_str_view(s)),
{
    match s {
        Some(t) => Some(SymbolRef::parse(t)),
        None => None,
    }
}

/// Lowers a data type node: a type written as text, or a type node of some kind.
#[verifier::rlimit(80)]
pub fn lower_data_type(value: &JsonValue) -> (r: Result<DataType>)
    ensures
        res_view(r) == lower_data_type_spec(*value),
    decreases *value, 1int,
{
    match value.as_str() {
        Some(raw) => return Ok(parse_type_text(raw)),
        None => {},
    }
    let k = match kind(value) {
        Some(k) => k,
        None => return Ok(DataType::Unknown { kind: text_or_missing(None), name: declared_name(value) }),
    };
    proof {
        lemma_get_decreases(*value, "baseType"@);
        lemma_get_decreases(*value, "indexType"@);
    }
    if text_eq(k, "ScalarType") {
        Ok(
            DataType::Scalar(
                ScalarType {
                    kind: lower_scalar_kind(opt_str(value, "name")),
                    signed: bool_field(value, "isSigned"),
                },
            ),
        )
    } else if text_eq(k, "PredefinedIntegerType") {
        let kind = lower_predefined_integer_kind(opt_str(value, "name"));
        Ok(predefined_integer_type(kind, opt_bool(value, "isSigned")))
    } else if text_eq(k, "FloatingType") {
        Ok(DataType::Floating(FloatingType { kind: lower_floating_kind(opt_str(value, "name")) }))
    } else if text_eq(k, "PackedArrayType") {
        match lower_type_field(value, "elementType", "packed array type") {
            Ok(el) => Ok(
                DataType::PackedArray {
                    element: Box::new(el),
                    range: lower_type_range(value, "range"),
                },
            ),
            Err(e) => Err(e),
        }
    } else if text_eq(k, "FixedSizeUnpackedArrayType") {
        match lower_type_field(value, "elementType", "fixed size unpacked array type") {
            Ok(el) => Ok(
                DataType::FixedSizeUnpackedArray {
                    element: Box::new(el),
                    range: lower_type_range(value, "range"),
                },
            ),
            Err(e) => Err(e),
        }
    } else if text_eq(k, "DynamicArrayType") {
        match lower_type_field(value, "elementType", "dynamic array type") {
            Ok(el) => Ok(DataType::DynamicArray { element: Box::new(el) }),
            Err(e) => Err(e),
        }
    } else if text_eq(k, "DPIOpenArrayType") {
        match lower_type_field(value, "elementType", "DPI open array type") {
            Ok(el) => Ok(
                DataType::DpiOpenArray {
                    element: Box::new(el),
                    packed: bool_field(value, "isPacked"),
                },
            ),
            Err(e) => Err(e),
        }
    } else if text_eq(k, "AssociativeArrayType") {
        let el = match lower_type_field(value, "elementType", "associative array type") {
            Ok(el) => el,
            Err(e) => return Err(e),
        };
        let index = match value.get("indexType") {
            None => None,
            Some(i) => match lower_data_type(i) {
                Ok(x) => Some(Box::new(x)),
                Err(e) => return Err(e),
            },
        };
        Ok(DataType::AssociativeArray { element: Box::new(el), index })
    } else if text_eq(k, "QueueType") {
        match lower_type_field(value, "elementType", "queue type") {
            Ok(el) => {
                let max_bound = match opt_u64(value, "maxBound") {
                    Some(n) => {
                        if n <= 0xffff_ffff {
                            Some(n as u32)
                        } else {
                            None
                        }
                    },
                    None => None,
                };
                Ok(DataType::Queue { element: Box::new(el), max_bound })
            },
            Err(e) => Err(e),
        }
    } else if text_eq(k, "EnumType") {
        let name = declared_name(value);
        let base = match value.get("baseType") {
            None => DataType::default(),
            Some(b) => match lower_data_type(b) {
                Ok(x) => x,
                Err(e) => return Err(e),
            },
        };
        let values = match lower_enum_values(value) {
            Ok(v) => v,
            Err(e) => return Err(e),
        };
        Ok(DataType::Enum { name, base: Box::new(base), values })
    } else if text_eq(k, "PackedStructType") {
        match lower_type_fields(value) {
            Ok(fields) => Ok(
                DataType::PackedStruct {
                    name: declared_name(value),
                    signed: bool_field(value, "isSigned"),
                    fields,
                },
            ),
            Err(e) => Err(e),
        }
    } else if text_eq(k, "UnpackedStructType") {
        match lower_type_fields(value) {
            Ok(fields) => Ok(DataType::UnpackedStruct { name: declared_name(value), fields }),
            Err(e) => Err(e),
        }
    } else if text_eq(k, "PackedUnionType") {
        match lower_type_fields(value) {
            Ok(fields) => Ok(
                DataType::PackedUnion {
                    name: declared_name(value),
                    signed: bool_field(value, "isSigned"),
                    tagged: bool_field(value, "isTagged"),
                    fields,
                },
            ),
            Err(e) => Err(e),
        }
    } else if text_eq(k, "UnpackedUnionType") {
        match lower_type_fields(value) {
            Ok(fields) => Ok(
                DataType::UnpackedUnion {
                    name: declared_name(value),
                    tagged: bool_field(value, "isTagged"),
                    fields,
                },
            ),
            Err(e) => Err(e),
        }
    } else {
        Ok(lower_simple_type(value, k))
    }
}

/// Lowers a type node whose kind takes no nested type.
fn lower_simple_type(value: &JsonValue, k: &str) -> (r: DataType)
    requires
        json_as_str(*value) is None,
        node_kind(*value) == Some(k@),
        k@ != "ScalarType"@,
        k@ != "PredefinedIntegerType"@,
        k@ != "FloatingType"@,
        k@ != "PackedArrayType"@,
        k@ != "FixedSizeUnpackedArrayType"@,
        k@ != "DynamicArrayType"@,
        k@ != "DPIOpenArrayType"@,
        k@ != "AssociativeArrayType"@,
        k@ != "QueueType"@,
        k@ != "EnumType"@,
        k@ != "PackedStructType"@,
        k@ != "UnpackedStructType"@,
        k@ != "PackedUnionType"@,
        k@ != "UnpackedUnionType"@,
    ensures
        lower_data_type_spec(*value) == Ok::<SpecDataType, SpecError>(r@),
{
    if text_eq(k, "VoidType") {
        DataType::Void
    } else if text_eq(k, "NullType") {
        DataType::Null
    } else if text_eq(k, "CHandleType") {
        DataType::CHandle
    } else if text_eq(k, "StringType") {
        DataType::String
    } else if text_eq(k, "EventType") {
        DataType::Event
    } else if text_eq(k, "UnboundedType") {
        DataType::Unbounded
    } else if text_eq(k, "TypeRefType") {
        DataType::TypeRef
    } else if text_eq(k, "UntypedType") {
        DataType::Untyped
    } else if text_eq(k, "SequenceType") {
        DataType::Sequence
    } else if text_eq(k, "PropertyType") {
        DataType::Property
    } else if text_eq(k, "VirtualInterfaceType") {
        let iface = match opt_str(value, "iface") {
            Some(s) => Some(s),
            None => opt_str(value, "interface"),
        };
        DataType::VirtualInterface {
            name: declared_name(value),
            iface: opt_symbol_ref(iface),
            modport: opt_symbol_ref(opt_str(value, "modport")),
            real_iface: bool_field(value, "isRealIface"),
        }
    } else if text_eq(k, "TypeAlias") {
        let name = match opt_string(value, "name") {
            Some(n) => n,
            None => String::new(),
        };
        DataType::Alias { name, target: opt_symbol_ref(opt_str(value, "target")) }
    } else if text_eq(k, "ErrorType") {
        DataType::Error
    } else {
        DataType::Unknown { kind: k.to_owned(), name: declared_name(value) }
    }
}

/// Lowers the required type member `field` of a type node.
fn lower_type_field(value: &JsonValue, field: &'static str, context: &str) -> (r: Result<DataType>)
    ensures
        res_view(r) == lower_type_field_spec(*value, field@, context@),
    decreases *value, 0int,
{
    let c = match member(value, field, context) {
        Ok(c) => c,
        Err(e) => return Err(e),
    };
    proof {
        lemma_get_decreases(*value, field@);
    }
    lower_data_type(c)
}

/// Lowers the fields of a struct or union type node.
fn lower_type_fields(value: &JsonValue) -> (r: Result<Vec<TypeField>>)
    ensures
        match r {
            Ok(v) => lower_type_fields_spec(*value) == Ok::<Seq<SpecTypeField>, SpecError>(fields_model(v@)),
            Err(e) => lower_type_fields_spec(*value) == Err::<Seq<SpecTypeField>, SpecError>(e@),
        },
    decreases *value, 0int,
{
    let m = match value.get("members") {
        Some(v) => Some(v),
        None => value.get("fields"),
    };
    let ms = match m {
        Some(v) => v.as_array(),
        None => None,
    };
    match ms {
        None => {
            assert(fields_model(Seq::<TypeField>::empty()) =~= Seq::<SpecTypeField>::empty());
            Ok(Vec::new())
        },
        Some(ms) => {
            proof {
                lemma_array_decreases(*value, "members"@);
                lemma_array_decreases(*value, "fields"@);
            }
            lower_field_members(ms)
        },
    }
}

/// Lowers the members of a struct or union that are fields.
fn lower_field_members(ms: &Vec<JsonValue>) -> (r: Result<Vec<TypeField>>)
    ensures
        match r {
            Ok(v) => lower_field_members_spec(ms@) == Ok::<Seq<SpecTypeField>, SpecError>(fields_model(v@)),
            Err(e) => lower_field_members_spec(ms@) == Err::<Seq<SpecTypeField>, SpecError>(e@),
        },
    decreases ms@, 0int,
{
    let mut out: Vec<TypeField> = Vec::new();
    let mut i: usize = 0;
    assert(ms@.skip(0) =~= ms@);
    assert(fields_model(Seq::<TypeField>::empty()) =~= Seq::<SpecTypeField>::empty());
    while i < ms.len()
        invariant
            i <= ms@.len(),
            lower_field_members_spec(ms@) == concat_ok(fields_model(out@), lower_field_members_spec(ms@.skip(i as int))),
        decreases ms.len() - i,
    {
        let ghost rest = ms@.skip(i as int);
        assert(rest[0] == ms@[i as int]);
        assert(rest.drop_first() =~= ms@.skip(i + 1));
        let m = &ms[i];
        assert(decreases_to!(ms@ => ms@[i as int]));
        proof {
            lemma_get_decreases(*m, "type"@);
        }
        let is_field = kind_is(m, "Field") || m.get("type").is_some();
        if is_field {
            let name = match str_field(m, "name", "type field") {
                Ok(n) => n,
                Err(e) => return Err(e),
            };
            let t = match member(m, "type", "type field") {
                Ok(t) => t,
                Err(e) => return Err(e),
            };
            let ty = match lower_data_type(t) {
                Ok(ty) => ty,
                Err(e) => return Err(e),
            };
            let f = TypeField { name: name.to_owned(), ty, source: source_loc(m) };
            let ghost before = out@;
            out.push(f);
            proof {
                assert(out@.drop_last() =~= before);
                assert(fields_model(out@) =~= fields_model(before).push(f@));
                match lower_field_members_spec(ms@.skip(i + 1)) {
                    Ok(tail) => {
                        assert(fields_model(before) + (seq![f@] + tail) =~= fields_model(out@) + tail);
                    },
                    Err(_) => {},
                }
            }
        }
        i += 1;
    }
    assert(ms@.skip(i as int) =~= Seq::<JsonValue>::empty());
    assert(fields_model(out@) + Seq::<SpecTypeField>::empty() =~= fields_model(out@));
    Ok(out)
}

/// Lowers the values of an enum type node.
fn lower_enum_values(value: &JsonValue) -> (r: Result<Vec<EnumValue>>)
    ensures
        match r {
            Ok(v) => lower_enum_values_spec(*value) == Ok::<Seq<SpecEnumValue>, SpecError>(v@.map_values(|x: EnumValue| x@)),
            Err(e) => lower_enum_values_spec(*value) == Err::<Seq<SpecEnumValue>, SpecError>(e@),
        },
{
    let mut out: Vec<EnumValue> = Vec::new();
    assert(out@.map_values(|x: EnumValue| x@) =~= Seq::<SpecEnumValue>::empty());
    let ms = match value.get("members") {
        Some(v) => match v.as_array() {
            Some(a) => a,
            None => return Ok(out),
        },
        None => return Ok(out),
    };
    let mut i: usize = 0;
    assert(ms@.skip(0) =~= ms@);
    while i < ms.len()
        invariant
            i <= ms@.len(),
            lower_enum_values_spec(*value) == lower_enum_members_spec(ms@),
            lower_enum_members_spec(ms@) == concat_ok(out@.map_values(|x: EnumValue| x@), lower_enum_members_spec(ms@.skip(i as int))),
        decreases ms.len() - i,
    {
        let ghost rest = ms@.skip(i as int);
        assert(rest[0] == ms@[i as int]);
        assert(rest.drop_first() =~= ms@.skip(i + 1));
        let m = &ms[i];
        if kind_is(m, "EnumValue") {
            let name = match str_field(m, "name", "enum value") {
                Ok(n) => n,
                Err(e) => return Err(e),
            };
            let v = EnumValue { name: name.to_owned(), value: opt_string(m, "value"), source: source_loc(m) };
            let ghost before = out@.map_values(|x: EnumValue| x@);
            out.push(v);
            proof {
                assert(out@.map_values(|x: EnumValue| x@) =~= before.push(v@));
                match lower_enum_members_spec(ms@.skip(i + 1)) {
                    Ok(tail) => {
                        assert(before + (seq![v@] + tail) =~= before.push(v@) + tail);
                    },
                    Err(_) => {},
                }
            }
        }
        i += 1;
    }
    assert(ms@.skip(i as int) =~= Seq::<JsonValue>::empty());
    assert(out@.map_values(|x: EnumValue| x@) + Seq::<SpecEnumValue>::empty() =~= out@.map_values(|x: EnumValue| x@));
    Ok(out)
}

/// What lowering a type declaration gives.
pub open spec fn lower_type_decl_spec(j: JsonValue) -> SpecResult<SpecTypeDecl> {
    match field_str(j, "name"@) {
        None => Err(SpecError::MissingField { field: "name"@, context: "type declaration"@ }),
        Some(name) => match lower_data_type_spec(j) {
            Err(e) => Err(e),
            Ok(ty) => Ok(SpecTypeDecl { name, ty, source: source_loc_of(j) }),
        },
    }
}

/// Lowers a type declaration: an enum type or a type alias member of a module.
pub fn lower_type_decl(value: &JsonValue) -> (r: Result<TypeDecl>)
    ensures
        res_view(r) == lower_type_decl_spec(*value),
{
    let name = match str_field(value, "name", "type declaration") {
        Ok(n) => n,
        Err(e) => return Err(e),
    };
    let ty = match lower_data_type(value) {
        Ok(t) => t,
        Err(e) => return Err(e),
    };
    Ok(TypeDecl { name: name.to_owned(), ty, source: source_loc(value) })
}

/// What lowering the required `type` member of a node gives.
pub open spec fn lower_required_type_spec(j: JsonValue, context: Seq<char>) -> SpecResult<SpecDataType> {
    match json_get(j, "type"@) {
        None => Err(SpecError::MissingField { field: "type"@, context }),
        Some(t) => lower_data_type_spec(t),
    }
}

/// Lowers the required `type` member of a node.
pub fn lower_required_type(value: &JsonValue, context: &str) -> (r: Result<DataType>)
    ensures
        res_view(r) == lower_required_type_spec(*value, context@),
{
    match member(value, "type", context) {
        Ok(t) => lower_data_type(t),
        Err(e) => Err(e),
    }
}

/// What lowering the optional `type` member of a node gives.
pub open spec fn lower_optional_type_spec(j: JsonValue) -> SpecResult<Option<SpecDataType>> {
    match json_get(j, "type"@) {
        None => Ok(None),
        Some(t) => match lower_data_type_spec(t) {
            Err(e) => Err(e),
            Ok(x) => Ok(Some(x)),
        },
    }
}

/// Lowers the optional `type` member of a node.
pub fn lower_optional_type(value: &JsonValue) -> (r: Result<Option<DataType>>)
    ensures
        match r {
            Ok(t) => lower_optional_type_spec(*value) == Ok::<Option<SpecDataType>, SpecError>(opt_type(t)),
            Err(e) => lower_optional_type_spec(*value) == Err::<Option<SpecDataType>, SpecError>(e@),
        },
{
    match value.get("type") {
        None => Ok(None),
        Some(t) => match lower_data_type(t) {
            Ok(x) => Ok(Some(x)),
            Err(e) => Err(e),
        },
    }
}

} // verus!
