use vstd::prelude::*;

use super::module::{lower_module_instance, lower_module_instance_spec, Module, SpecModule};
use crate::error::{res_view, Error, Result, SpecError, SpecResult};
use crate::json::{
    array, expect_kind, field_array, json_get, kind_is, member, node_kind, spec_expect_kind,
    JsonValue,
};
use crate::json::{parse_slang_json, slang_document};
use crate::lower::concat_ok;
use crate::text::text_eq;

verus! {

broadcast use vstd::std_specs::vec::group_vec_axioms;

/// A lowered design: its top-level module instances.
#[derive(Debug, PartialEq, Eq)]
pub struct Design {
    pub modules: Vec<Module>,
}

pub struct SpecDesign {
    pub modules: Seq<SpecModule>,
}

impl View for Design {
    type V = SpecDesign;

    open spec fn view(&self) -> SpecDesign {
        SpecDesign { modules: self.modules@.map_values(|m: Module| m@) }
    }
}


impl Default for Design {
    /// A design without modules.
    fn default() -> (r: Self)
        ensures
            r.modules@.len() == 0,
    {
        Design { modules: Vec::new() }
    }
}

impl Design {
    /// The first module named `name`.
    pub fn module(&self, name: &str) -> (r: Option<&Module>)
        ensures
            match r {
                Some(m) => exists|i: int|
                    0 <= i < self.modules@.len() && self.modules@[i] == *m && m.name@ == name@
                        && forall|k: int| 0 <= k < i ==> self.modules@[k].name@ != name@,
                None => forall|i: int|
                    0 <= i < self.modules@.len() ==> self.modules@[i].name@ != name@,
            },
    {
        let mut i: usize = 0;
        while i < self.modules.len()
            invariant
                i <= self.modules@.len(),
                forall|k: int| 0 <= k < i ==> self.modules@[k].name@ != name@,
            decreases self.modules.len() - i,
        {
            if text_eq(self.modules[i].name.as_str(), name) {
                return Some(&self.modules[i]);
            }
            i += 1;
        }
        None
    }
}

/// What lowering the members of the root gives: the module instances among them.
pub open spec fn lower_instances_spec(members: Seq<JsonValue>) -> SpecResult<Seq<SpecModule>>
    decreases members.len(),
{
    if members.len() == 0 {
        Ok(seq![])
    } else if node_kind(members[0]) == Some("Instance"@) {
        match lower_module_instance_spec(members[0]) {
            Err(e) => Err(e),
            Ok(m) => concat_ok(seq![m], lower_instances_spec(members.drop_first())),
        }
    } else {
        lower_instances_spec(members.drop_first())
    }
}

/// What lowering a whole AST document gives.
pub open spec fn lower_design_spec(j: JsonValue) -> SpecResult<SpecDesign> {
    match json_get(j, "design"@) {
        None => Err(SpecError::MissingField { field: "design"@, context: "root AST JSON"@ }),
        Some(d) => match spec_expect_kind(d, "Root"@) {
            Err(e) => Err(e),
            Ok(_) => match field_array(d, "members"@) {
                None => Err(SpecError::MissingField { field: "members"@, context: "root design"@ }),
                Some(members) => match lower_instances_spec(members) {
                    Err(e) => Err(e),
                    Ok(modules) => Ok(SpecDesign { modules }),
                },
            },
        },
    }
}

/// Lowers slang's AST document into a design: the lowered module instances
/// among the members of its root, in order.
#[verifier::rlimit(50)]
pub fn lower_slang_ast(value: &JsonValue) -> (r: Result<Design>)
    ensures
        res_view(r) == lower_design_spec(*value),
{
    let design = match member(value, "design", "root AST JSON") {
        Ok(d) => d,
        Err(e) => return Err(e),
    };
    match expect_kind(design, "Root") {
        Ok(()) => {},
        Err(e) => return Err(e),
    }
    let members = match array(design, "members", "root design") {
        Ok(a) => a,
        Err(e) => return Err(e),
    };
    let mut modules: Vec<Module> = Vec::new();
    assert(members@.skip(0) =~= members@);
    let mut i: usize = 0;
    while i < members.len()
        invariant
            i <= members@.len(),
            lower_design_spec(*value) == match lower_instances_spec(members@) {
                Err(e) => Err(e),
                Ok(modules) => Ok(SpecDesign { modules }),
            },
            lower_instances_spec(members@) == concat_ok(
                modules@.map_values(|m: Module| m@),
                lower_instances_spec(members@.skip(i as int)),
            ),
        decreases members.len() - i,
    {
        let ghost rest = members@.skip(i as int);
        assert(rest[0] == members@[i as int]);
        assert(rest.drop_first() =~= members@.skip(i + 1));
        if kind_is(&members[i], "Instance") {
            let m = match lower_module_instance(&members[i]) {
                Ok(m) => m,
                Err(e) => return Err(e),
            };
            let ghost before = modules@.map_values(|m: Module| m@);
            modules.push(m);
            proof {
                assert(modules@.map_values(|m: Module| m@) =~= before.push(m@));
                match lower_instances_spec(members@.skip(i + 1)) {
                    Ok(tail) => {
                        assert(before + (seq![m@] + tail) =~= before.push(m@) + tail);
                    },
                    Err(_) => {},
                }
            }
        }
        i += 1;
    }
    assert(members@.skip(i as int) =~= Seq::<JsonValue>::empty());
    assert(modules@.map_values(|m: Module| m@) + Seq::<SpecModule>::empty() =~= modules@.map_values(|m: Module| m@));
    Ok(Design { modules })
}

/// Reads the JSON document that slang printed and lowers it: the whole text
/// where it parses, else the part from its first `{`; where neither parses,
/// the parser's error.
pub fn lower_slang_ast_str(json: &str) -> (r: Result<Design>)
    ensures
        res_view(r) == match slang_document(json@) {
            Ok(v) => lower_design_spec(v),
            Err(m) => Err::<SpecDesign, SpecError>(SpecError::Json(m)),
        },
{
    match parse_slang_json(json) {
        Ok(v) => lower_slang_ast(&v),
        Err(e) => Err(e),
    }
}

} // verus!
