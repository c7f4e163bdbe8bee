use vstd::prelude::*;

use super::expr::{lower_expr, lower_expr_spec, opt_expr, Expr, SpecExpr};
use super::statement::{lower_stmt, lower_stmt_spec, SpecStmt, Stmt};
use super::types::{
    lower_required_type, lower_required_type_spec, lower_type_decl, lower_type_decl_spec,
    DataType, SpecDataType, SpecTypeDecl, TypeDecl,
};
use crate::error::{res_view, Error, Result, SpecError, SpecResult};
use crate::ir::{
    opt_loc, opt_text, symbol_ref_of, PortDirection, ProcedureKind, SignalKind, SourceLoc,
    SpecPortDirection, SpecProcedureKind, SpecSourceLoc, SpecSymbolRef, SymbolRef,
};
use crate::json::{
    array, expect_kind, field_array, field_str, json_get, kind, member, node_kind, opt_str,
    opt_string, spec_expect_kind, str_field, JsonValue,
};
use crate::lower::{
    is_text, lower_port_direction, lower_procedure_kind, or_empty, port_direction_of,
    procedure_kind_of, source_loc, source_loc_of,
};
use crate::text::text_eq;

verus! {

broadcast use vstd::std_specs::vec::group_vec_axioms;

/// A lowered module instance body.
#[derive(Debug, PartialEq, Eq)]
pub struct Module {
    pub name: String,
    pub source: Option<SourceLoc>,
    pub types: Vec<TypeDecl>,
    pub parameters: Vec<Parameter>,
    pub ports: Vec<Port>,
    pub nets: Vec<Signal>,
    pub variables: Vec<Signal>,
    pub procedures: Vec<ProcedureBlock>,
}

#[derive(Debug, PartialEq, Eq)]
pub struct Parameter {
    pub name: String,
    pub ty: DataType,
    pub value: Option<String>,
    pub initializer: Option<Expr>,
    pub source: Option<SourceLoc>,
}

#[derive(Debug, PartialEq, Eq)]
pub struct Port {
    pub name: String,
    pub direction: PortDirection,
    pub ty: DataType,
    pub internal_symbol: Option<SymbolRef>,
    pub source: Option<SourceLoc>,
}

#[derive(Debug, PartialEq, Eq)]
pub struct Signal {
    pub name: String,
    pub kind: SignalKind,
    pub ty: DataType,
    pub source: Option<SourceLoc>,
}

#[derive(Debug, PartialEq, Eq)]
pub struct ProcedureBlock {
    pub kind: ProcedureKind,
    pub body: Stmt,
    pub source: Option<SourceLoc>,
}

pub struct SpecModule {
    pub name: Seq<char>,
    pub source: Option<SpecSourceLoc>,
    pub types: Seq<SpecTypeDecl>,
    pub parameters: Seq<SpecParameter>,
    pub ports: Seq<SpecPort>,
    pub nets: Seq<SpecSignal>,
    pub variables: Seq<SpecSignal>,
    pub procedures: Seq<SpecProcedureBlock>,
}

pub struct SpecParameter {
    pub name: Seq<char>,
    pub ty: SpecDataType,
    pub value: Option<Seq<char>>,
    pub initializer: Option<SpecExpr>,
    pub source: Option<SpecSourceLoc>,
}

pub struct SpecPort {
    pub name: Seq<char>,
    pub direction: SpecPortDirection,
    pub ty: SpecDataType,
    pub internal_symbol: Option<SpecSymbolRef>,
    pub source: Option<SpecSourceLoc>,
}

pub struct SpecSignal {
    pub name: Seq<char>,
    pub kind: SignalKind,
    pub ty: SpecDataType,
    pub source: Option<SpecSourceLoc>,
}

pub struct SpecProcedureBlock {
    pub kind: SpecProcedureKind,
    pub body: SpecStmt,
    pub source: Option<SpecSourceLoc>,
}

impl View for Parameter {
    type V = SpecParameter;

    open spec fn view(&self) -> SpecParameter {
        SpecParameter {
            name: self.name@,
            ty: self.ty@,
            value: opt_text(self.value),
            initializer: opt_expr(self.initializer),
            source: opt_loc(self.source),
        }
    }
}

impl View for Port {
    type V = SpecPort;

    open spec fn view(&self) -> SpecPort {
        SpecPort {
            name: self.name@,
            direction: self.direction@,
            ty: self.ty@,
            internal_symbol: match self.internal_symbol {
                Some(s) => Some(s@),
                None => None,
            },
            source: opt_loc(self.source),
        }
    }
}

impl View for Signal {
    type V = SpecSignal;

    open spec fn view(&self) -> SpecSignal {
        SpecSignal { name: self.name@, kind: self.kind, ty: self.ty@, source: opt_loc(self.source) }
    }
}

impl View for ProcedureBlock {
    type V = SpecProcedureBlock;

    open spec fn view(&self) -> SpecProcedureBlock {
        SpecProcedureBlock { kind: self.kind@, body: self.body@, source: opt_loc(self.source) }
    }
}

impl View for Module {
    type V = SpecModule;

    open spec fn view(&self) -> SpecModule {
        SpecModule {
            name: self.name@,
            source: opt_loc(self.source),
            types: self.types@.map_values(|t: TypeDecl| t@),
            parameters: self.parameters@.map_values(|p: Parameter| p@),
            ports: self.ports@.map_values(|p: Port| p@),
            nets: self.nets@.map_values(|s: Signal| s@),
            variables: self.variables@.map_values(|s: Signal| s@),
            procedures: self.procedures@.map_values(|p: ProcedureBlock| p@),
        }
    }
}

impl Module {
    /// The first port named `name`.
    pub fn port(&self, name: &str) -> (r: Option<&Port>)
        ensures
            match r {
                Some(p) => exists|i: int|
                    0 <= i < self.ports@.len() && self.ports@[i] == *p && p.name@ == name@
                        && forall|k: int| 0 <= k < i ==> self.ports@[k].name@ != name@,
                None => forall|i: int|
                    0 <= i < self.ports@.len() ==> self.ports@[i].name@ != name@,
            },
    {
        let mut i: usize = 0;
        while i < self.ports.len()
            invariant
                i <= self.ports@.len(),
                forall|k: int| 0 <= k < i ==> self.ports@[k].name@ != name@,
            decreases self.ports.len() - i,
        {
            if text_eq(self.ports[i].name.as_str(), name) {
                return Some(&self.ports[i]);
            }
            i += 1;
        }
        None
    }

    /// The first variable named `name`.
    pub fn variable(&self, name: &str) -> (r: Option<&Signal>)
        ensures
            match r {
                Some(v) => exists|i: int|
                    0 <= i < self.variables@.len() && self.variables@[i] == *v && v.name@ == name@
                        && forall|k: int| 0 <= k < i ==> self.variables@[k].name@ != name@,
                None => forall|i: int|
                    0 <= i < self.variables@.len() ==> self.variables@[i].name@ != name@,
            },
    {
        let mut i: usize = 0;
        while i < self.variables.len()
            invariant
                i <= self.variables@.len(),
                forall|k: int| 0 <= k < i ==> self.variables@[k].name@ != name@,
            decreases self.variables.len() - i,
        {
            if text_eq(self.variables[i].name.as_str(), name) {
                return Some(&self.variables[i]);
            }
            i += 1;
        }
        None
    }

    /// The first type declaration named `name`.
    pub fn type_decl(&self, name: &str) -> (r: Option<&TypeDecl>)
        ensures
            match r {
                Some(t) => exists|i: int|
                    0 <= i < self.types@.len() && self.types@[i] == *t && t.name@ == name@
                        && forall|k: int| 0 <= k < i ==> self.types@[k].name@ != name@,
                None => forall|i: int|
                    0 <= i < self.types@.len() ==> self.types@[i].name@ != name@,
            },
    {
        let mut i: usize = 0;
        while i < self.types.len()
            invariant
                i <= self.types@.len(),
                forall|k: int| 0 <= k < i ==> self.types@[k].name@ != name@,
            decreases self.types.len() - i,
        {
            if text_eq(self.types[i].name.as_str(), name) {
                return Some(&self.types[i]);
            }
            i += 1;
        }
        None
    }
}

// ---------------------------------------------------------------- module members

/// What lowering a parameter declaration gives.
pub open spec fn lower_parameter_spec(j: JsonValue) -> SpecResult<SpecParameter> {
    match field_str(j, "name"@) {
        None => Err(SpecError::MissingField { field: "name"@, context: "parameter"@ }),
        Some(name) => match lower_required_type_spec(j, "parameter"@) {
            Err(e) => Err(e),
            Ok(ty) => {
                let init = match json_get(j, "initializer"@) {
                    None => Ok(None),
                    Some(e) => match lower_expr_spec(e) {
                        Err(err) => Err(err),
                        Ok(x) => Ok(Some(x)),
                    },
                };
                match init {
                    Err(e) => Err(e),
                    Ok(initializer) => Ok(
                        SpecParameter {
                            name,
                            ty,
                            value: field_str(j, "value"@),
                            initializer,
                            source: source_loc_of(j),
                        },
                    ),
                }
            },
        },
    }
}

/// What lowering a port declaration gives.
pub open spec fn lower_port_spec(j: JsonValue) -> SpecResult<SpecPort> {
    match field_str(j, "name"@) {
        None => Err(SpecError::MissingField { field: "name"@, context: "port"@ }),
        Some(name) => match lower_required_type_spec(j, "port"@) {
            Err(e) => Err(e),
            Ok(ty) => Ok(
                SpecPort {
                    name,
                    direction: port_direction_of(field_str(j, "direction"@)),
                    ty,
                    internal_symbol: match field_str(j, "internalSymbol"@) {
                        Some(s) => Some(symbol_ref_of(s)),
                        None => None,
                    },
                    source: source_loc_of(j),
                },
            ),
        },
    }
}

/// What lowering a net or variable declaration gives.
pub open spec fn lower_signal_spec(j: JsonValue, kind: SignalKind) -> SpecResult<SpecSignal> {
    match field_str(j, "name"@) {
        None => Err(SpecError::MissingField { field: "name"@, context: "signal"@ }),
        Some(name) => match lower_required_type_spec(j, "signal"@) {
            Err(e) => Err(e),
            Ok(ty) => Ok(SpecSignal { name, kind, ty, source: source_loc_of(j) }),
        },
    }
}

/// What lowering a procedural block gives.
pub open spec fn lower_procedure_spec(j: JsonValue) -> SpecResult<SpecProcedureBlock> {
    match json_get(j, "body"@) {
        None => Err(SpecError::MissingField { field: "body"@, context: "procedural block"@ }),
        Some(b) => match lower_stmt_spec(b) {
            Err(e) => Err(e),
            Ok(body) => Ok(
                SpecProcedureBlock {
                    kind: procedure_kind_of(field_str(j, "procedureKind"@)),
                    body,
                    source: source_loc_of(j),
                },
            ),
        },
    }
}

fn lower_parameter(value: &JsonValue) -> (r: Result<Parameter>)
    ensures
        res_view(r) == lower_parameter_spec(*value),
{
    let name = match str_field(value, "name", "parameter") {
        Ok(n) => n,
        Err(e) => return Err(e),
    };
    let ty = match lower_required_type(value, "parameter") {
        Ok(t) => t,
        Err(e) => return Err(e),
    };
    let v = opt_string(value, "value");
    let initializer = match value.get("initializer") {
        None => None,
        Some(e) => match lower_expr(e) {
            Ok(x) => Some(x),
            Err(err) => return Err(err),
        },
    };
    Ok(Parameter { name: name.to_owned(), ty, value: v, initializer, source: source_loc(value) })
}

fn lower_port(value: &JsonValue) -> (r: Result<Port>)
    ensures
        res_view(r) == lower_port_spec(*value),
{
    let name = match str_field(value, "name", "port") {
        Ok(n) => n,
        Err(e) => return Err(e),
    };
    let ty = match lower_required_type(value, "port") {
        Ok(t) => t,
        Err(e) => return Err(e),
    };
    let internal_symbol = match opt_str(value, "internalSymbol") {
        Some(s) => Some(SymbolRef::parse(s)),
        None => None,
    };
    Ok(
        Port {
            name: name.to_owned(),
            direction: lower_port_direction(opt_str(value, "direction")),
            ty,
            internal_symbol,
            source: source_loc(value),
        },
    )
}

fn lower_signal(value: &JsonValue, kind: SignalKind) -> (r: Result<Signal>)
    ensures
        res_view(r) == lower_signal_spec(*value, kind),
{
    let name = match str_field(value, "name", "signal") {
        Ok(n) => n,
        Err(e) => return Err(e),
    };
    let ty = match lower_required_type(value, "signal") {
        Ok(t) => t,
        Err(e) => return Err(e),
    };
    Ok(Signal { name: name.to_owned(), kind, ty, source: source_loc(value) })
}

fn lower_procedure(value: &JsonValue) -> (r: Result<ProcedureBlock>)
    ensures
        res_view(r) == lower_procedure_spec(*value),
{
    let body = match member(value, "body", "procedural block") {
        Ok(b) => b,
        Err(e) => return Err(e),
    };
    let kind = lower_procedure_kind(opt_str(value, "procedureKind"));
    let body = match lower_stmt(body) {
        Ok(b) => b,
        Err(e) => return Err(e),
    };
    Ok(ProcedureBlock { kind, body, source: source_loc(value) })
}

// ---------------------------------------------------------------- modules and designs

/// `m` with one more lowered member, when `member` is of a kind that a module keeps.
pub open spec fn add_member_spec(m: SpecModule, member: JsonValue) -> SpecResult<SpecModule> {
    let k = node_kind(member);
    if k == Some("EnumType"@) || k == Some("TypeAlias"@) {
        match lower_type_decl_spec(member) {
            Err(e) => Err(e),
            Ok(t) => Ok(SpecModule { types: m.types.push(t), ..m }),
        }
    } else if k == Some("Parameter"@) {
        match lower_parameter_spec(member) {
            Err(e) => Err(e),
            Ok(p) => Ok(SpecModule { parameters: m.parameters.push(p), ..m }),
        }
    } else if k == Some("Port"@) {
        match lower_port_spec(member) {
            Err(e) => Err(e),
            Ok(p) => Ok(SpecModule { ports: m.ports.push(p), ..m }),
        }
    } else if k == Some("Net"@) {
        match lower_signal_spec(member, SignalKind::Net) {
            Err(e) => Err(e),
            Ok(n) => Ok(SpecModule { nets: m.nets.push(n), ..m }),
        }
    } else if k == Some("Variable"@) {
        match lower_signal_spec(member, SignalKind::Variable) {
            Err(e) => Err(e),
            Ok(v) => Ok(SpecModule { variables: m.variables.push(v), ..m }),
        }
    } else if k == Some("ProceduralBlock"@) {
        match lower_procedure_spec(member) {
            Err(e) => Err(e),
            Ok(p) => Ok(SpecModule { procedures: m.procedures.push(p), ..m }),
        }
    } else {
        Ok(m)
    }
}

/// `m` with all `members` added, in order, or the first error.
pub open spec fn fill_module_spec(m: SpecModule, members: Seq<JsonValue>) -> SpecResult<SpecModule>
    decreases members.len(),
{
    if members.len() == 0 {
        Ok(m)
    } else {
        match add_member_spec(m, members[0]) {
            Err(e) => Err(e),
            Ok(m2) => fill_module_spec(m2, members.drop_first()),
        }
    }
}

/// What lowering a module instance gives.
pub open spec fn lower_module_instance_spec(j: JsonValue) -> SpecResult<SpecModule> {
    match json_get(j, "body"@) {
        None => Err(SpecError::MissingField { field: "body"@, context: "module instance"@ }),
        Some(body) => match spec_expect_kind(body, "InstanceBody"@) {
            Err(e) => Err(e),
            Ok(_) => match field_str(body, "name"@) {
                None => Err(SpecError::MissingField { field: "name"@, context: "module body"@ }),
                Some(name) => match field_array(body, "members"@) {
                    None => Err(
                        SpecError::MissingField { field: "members"@, context: "module body"@ },
                    ),
                    Some(members) => fill_module_spec(
                        SpecModule {
                            name,
                            source: source_loc_of(body),
                            types: seq![],
                            parameters: seq![],
                            ports: seq![],
                            nets: seq![],
                            variables: seq![],
                            procedures: seq![],
                        },
                        members,
                    ),
                },
            },
        },
    }
}

/// Adds the lowering of `member` to `module`, when it is of a kind that a module keeps.
fn add_member(module: &mut Module, member: &JsonValue) -> (r: Result<()>)
    ensures
        match r {
            Ok(()) => add_member_spec(old(module)@, *member) == Ok::<SpecModule, SpecError>(final(module)@),
            Err(e) => add_member_spec(old(module)@, *member) == Err::<SpecModule, SpecError>(e@),
        },
{
    let ghost before = module@;
    let k = kind(member);
    if is_text(k, "EnumType") || is_text(k, "TypeAlias") {
        match lower_type_decl(member) {
            Ok(t) => {
                module.types.push(t);
                assert(module@.types =~= before.types.push(t@));
            },
            Err(e) => return Err(e),
        }
    } else if is_text(k, "Parameter") {
        match lower_parameter(member) {
            Ok(p) => {
                module.parameters.push(p);
                assert(module@.parameters =~= before.parameters.push(p@));
            },
            Err(e) => return Err(e),
        }
    } else if is_text(k, "Port") {
        match lower_port(member) {
            Ok(p) => {
                module.ports.push(p);
                assert(module@.ports =~= before.ports.push(p@));
            },
            Err(e) => return Err(e),
        }
    } else if is_text(k, "Net") {
        match lower_signal(member, SignalKind::Net) {
            Ok(n) => {
                module.nets.push(n);
                assert(module@.nets =~= before.nets.push(n@));
            },
            Err(e) => return Err(e),
        }
    } else if is_text(k, "Variable") {
        match lower_signal(member, SignalKind::Variable) {
            Ok(v) => {
                module.variables.push(v);
                assert(module@.variables =~= before.variables.push(v@));
            },
            Err(e) => return Err(e),
        }
    } else if is_text(k, "ProceduralBlock") {
        match lower_procedure(member) {
            Ok(p) => {
                module.procedures.push(p);
                assert(module@.procedures =~= before.procedures.push(p@));
            },
            Err(e) => return Err(e),
        }
    }
    Ok(())
}

#[verifier::rlimit(60)]
pub fn lower_module_instance(value: &JsonValue) -> (r: Result<Module>)
    ensures
        res_view(r) == lower_module_instance_spec(*value),
{
    let body = match member(value, "body", "module instance") {
        Ok(b) => b,
        Err(e) => return Err(e),
    };
    match expect_kind(body, "InstanceBody") {
        Ok(()) => {},
        Err(e) => return Err(e),
    }
    let name = match str_field(body, "name", "module body") {
        Ok(n) => n,
        Err(e) => return Err(e),
    };
    let source = source_loc(body);
    let members = match array(body, "members", "module body") {
        Ok(a) => a,
        Err(e) => return Err(e),
    };
    let mut module = Module {
        name: name.to_owned(),
        source,
        types: Vec::new(),
        parameters: Vec::new(),
        ports: Vec::new(),
        nets: Vec::new(),
        variables: Vec::new(),
        procedures: Vec::new(),
    };
    let ghost init = module@;
    assert(init.types =~= Seq::<SpecTypeDecl>::empty());
    assert(init.parameters =~= Seq::<SpecParameter>::empty());
    assert(init.ports =~= Seq::<SpecPort>::empty());
    assert(init.nets =~= Seq::<SpecSignal>::empty());
    assert(init.variables =~= Seq::<SpecSignal>::empty());
    assert(init.procedures =~= Seq::<SpecProcedureBlock>::empty());
    assert(init == (SpecModule {
        name: name@,
        source: source_loc_of(*body),
        types: seq![],
        parameters: seq![],
        ports: seq![],
        nets: seq![],
        variables: seq![],
        procedures: seq![],
    }));
    assert(members@.skip(0) =~= members@);
    let mut i: usize = 0;
    while i < members.len()
        invariant
            i <= members@.len(),
            lower_module_instance_spec(*value) == fill_module_spec(init, members@),
            fill_module_spec(init, members@) == fill_module_spec(module@, members@.skip(i as int)),
        decreases members.len() - i,
    {
        let ghost rest = members@.skip(i as int);
        assert(rest[0] == members@[i as int]);
        assert(rest.drop_first() =~= members@.skip(i + 1));
        match add_member(&mut module, &members[i]) {
            Ok(()) => {},
            Err(e) => return Err(e),
        }
        i += 1;
    }
    assert(members@.skip(i as int) =~= Seq::<JsonValue>::empty());
    Ok(module)
}


} // verus!
