use vstd::prelude::*;

use crate::text::{trim, trim_str};

verus! {

broadcast use vstd::std_specs::vec::group_vec_axioms;

/// How to run the `slang` frontend: the executable and the options passed to it.
#[derive(Debug)]
pub struct Slang {
    executable: String,
    extra_args: Vec<String>,
    include_source_info: bool,
    include_detailed_type_info: bool,
}

/// The model of a [`Slang`] configuration.
pub struct SpecSlang {
    pub executable: Seq<char>,
    pub extra_args: Seq<Seq<char>>,
    pub include_source_info: bool,
    pub include_detailed_type_info: bool,
}

impl View for Slang {
    type V = SpecSlang;

    closed spec fn view(&self) -> SpecSlang {
        SpecSlang {
            executable: self.executable@,
            extra_args: self.extra_args@.map_values(|a: String| a@),
            include_source_info: self.include_source_info,
            include_detailed_type_info: self.include_detailed_type_info,
        }
    }
}

/// `c` with one more extra argument, `a`, after the others.
pub open spec fn with_arg(c: SpecSlang, a: Seq<char>) -> SpecSlang {
    SpecSlang { extra_args: c.extra_args.push(a), ..c }
}

/// `c` with the extra arguments `args` after the others, in order.
pub open spec fn with_args(c: SpecSlang, args: Seq<Seq<char>>) -> SpecSlang {
    SpecSlang { extra_args: c.extra_args + args, ..c }
}

/// Adding two arguments one at a time gives the same configuration, and so
/// the same command line, as adding both at once; the executable and both
/// options are untouched.
pub proof fn law_arg_twice_is_args(c: SpecSlang, a: Seq<char>, b: Seq<char>, paths: Seq<Seq<char>>)
    ensures
        with_arg(with_arg(c, a), b) == with_args(c, seq![a, b]),
        command_line(with_arg(with_arg(c, a), b), paths) == command_line(with_args(c, seq![a, b]), paths),
        with_args(c, seq![a, b]).executable == c.executable,
        with_args(c, seq![a, b]).include_source_info == c.include_source_info,
        with_args(c, seq![a, b]).include_detailed_type_info == c.include_detailed_type_info,
{
    assert(c.extra_args.push(a).push(b) =~= c.extra_args + seq![a, b]);
}

impl Clone for Slang {
    fn clone(&self) -> (r: Self)
        ensures
            r@ == self@,
    {
        let extra_args = self.extra_args.clone();
        assert(extra_args@ =~= self.extra_args@);
        Slang {
            executable: self.executable.clone(),
            extra_args,
            include_source_info: self.include_source_info,
            include_detailed_type_info: self.include_detailed_type_info,
        }
    }
}

/// The views of a sequence of strings.
pub open spec fn texts(v: Seq<&str>) -> Seq<Seq<char>> {
    v.map_values(|a: &str| a@)
}

/// The arguments that `slang` is run with for `c` on the files `paths`:
/// quiet AST JSON on stdout, the optional source and type details, the extra
/// arguments, then the files.
pub open spec fn command_line(c: SpecSlang, paths: Seq<Seq<char>>) -> Seq<Seq<char>> {
    seq!["--quiet"@, "--ast-json"@, "-"@]
        + (if c.include_source_info { seq!["--ast-json-source-info"@] } else { seq![] })
        + (if c.include_detailed_type_info { seq!["--ast-json-detailed-types"@] } else { seq![] })
        + c.extra_args + paths
}

impl Default for Slang {
    /// Runs `slang` from the search path, with source locations and without
    /// detailed types.
    fn default() -> (r: Self)
        ensures
            r@ == (SpecSlang {
                executable: "slang"@,
                extra_args: seq![],
                include_source_info: true,
                include_detailed_type_info: false,
            }),
    {
        let r = Slang {
            executable: String::from_str("slang"),
            extra_args: Vec::new(),
            include_source_info: true,
            include_detailed_type_info: false,
        };
        assert(r@.extra_args =~= Seq::<Seq<char>>::empty());
        r
    }
}

impl Slang {
    /// Runs the executable `executable`, with the default options: source
    /// locations on, detailed types off.
    pub fn new(executable: &str) -> (r: Self)
        ensures
            r@ == (SpecSlang {
                executable: executable@,
                extra_args: seq![],
                include_source_info: true,
                include_detailed_type_info: false,
            }),
    {
        let r = Slang {
            executable: executable.to_owned(),
            extra_args: Vec::new(),
            include_source_info: true,
            include_detailed_type_info: false,
        };
        assert(r@.extra_args =~= Seq::<Seq<char>>::empty());
        r
    }

    /// Adds one extra argument, passed after the built-in ones.
    pub fn arg(self, arg: &str) -> (r: Self)
        ensures
            r@ == with_arg(self@, arg@),
    {
        let mut s = self;
        let ghost before = s@.extra_args;
        s.extra_args.push(arg.to_owned());
        assert(s@.extra_args =~= before.push(arg@));
        s
    }

    /// Adds extra arguments, in order.
    pub fn args(self, args: &[&str]) -> (r: Self)
        ensures
            r@ == with_args(self@, texts(args@)),
    {
        let mut s = self;
        let ghost start = s@;
        let mut i: usize = 0;
        while i < args.len()
            invariant
                i <= args@.len(),
                s@ == (SpecSlang {
                    extra_args: start.extra_args + texts(args@.take(i as int)),
                    ..start
                }),
            decreases args.len() - i,
        {
            let ghost before = s@.extra_args;
            s.extra_args.push(args[i].to_owned());
            assert(s@.extra_args =~= before.push(args@[i as int]@));
            assert(texts(args@.take(i + 1)) =~= texts(args@.take(i as int)).push(args@[i as int]@));
            assert(start.extra_args + texts(args@.take(i + 1)) =~= before.push(args@[i as int]@));
            i += 1;
        }
        assert(args@.take(i as int) =~= args@);
        s
    }

    /// Whether `slang` reports source locations.
    pub fn include_source_info(self, include_source_info: bool) -> (r: Self)
        ensures
            r@ == (SpecSlang { include_source_info, ..self@ }),
    {
        let mut s = self;
        s.include_source_info = include_source_info;
        s
    }

    /// Whether `slang` reports detailed types.
    pub fn include_detailed_type_info(self, include_detailed_type_info: bool) -> (r: Self)
        ensures
            r@ == (SpecSlang { include_detailed_type_info, ..self@ }),
    {
        let mut s = self;
        s.include_detailed_type_info = include_detailed_type_info;
        s
    }

    /// The executable that is run.
    pub fn executable(&self) -> (r: &str)
        ensures
            r@ == self@.executable,
    {
        self.executable.as_str()
    }

    /// The arguments that `slang` is run with on the files `paths`.
    pub fn command_args(&self, paths: &[&str]) -> (r: Vec<String>)
        ensures
            r@.map_values(|a: String| a@) == command_line(self@, texts(paths@)),
    {
        let mut r: Vec<String> = Vec::new();
        r.push(String::from_str("--quiet"));
        r.push(String::from_str("--ast-json"));
        r.push(String::from_str("-"));
        if self.include_source_info {
            r.push(String::from_str("--ast-json-source-info"));
        }
        if self.include_detailed_type_info {
            r.push(String::from_str("--ast-json-detailed-types"));
        }
        let ghost fixed = r@.map_values(|a: String| a@);
        assert(fixed =~= seq!["--quiet"@, "--ast-json"@, "-"@]
            + (if self.include_source_info { seq!["--ast-json-source-info"@] } else { seq![] })
            + (if self.include_detailed_type_info { seq!["--ast-json-detailed-types"@] } else { seq![] }));
        let mut i: usize = 0;
        while i < self.extra_args.len()
            invariant
                i <= self.extra_args@.len(),
                r@.map_values(|a: String| a@) =~= fixed + self@.extra_args.take(i as int),
            decreases self.extra_args.len() - i,
        {
            let ghost before = r@.map_values(|a: String| a@);
            r.push(self.extra_args[i].clone());
            assert(r@.map_values(|a: String| a@) =~= before.push(self.extra_args@[i as int]@));
            assert(self@.extra_args.take(i + 1) =~= self@.extra_args.take(i as int).push(self.extra_args@[i as int]@));
            i += 1;
        }
        assert(self@.extra_args.take(i as int) =~= self@.extra_args);
        let ghost mid = r@.map_values(|a: String| a@);
        let mut j: usize = 0;
        while j < paths.len()
            invariant
                j <= paths@.len(),
                mid == fixed + self@.extra_args,
                r@.map_values(|a: String| a@) =~= mid + texts(paths@.take(j as int)),
            decreases paths.len() - j,
        {
            let ghost before = r@.map_values(|a: String| a@);
            r.push(paths[j].to_owned());
            assert(r@.map_values(|a: String| a@) =~= before.push(paths@[j as int]@));
            assert(texts(paths@.take(j + 1)) =~= texts(paths@.take(j as int)).push(paths@[j as int]@));
            j += 1;
        }
        assert(paths@.take(j as int) =~= paths@);
        r
    }
}

/// `label` and `output`, where `output` holds more than whitespace.
pub open spec fn output_section(label: Seq<char>, output: Seq<char>) -> Seq<char> {
    if trim(output).len() == 0 {
        seq![]
    } else {
        "\n"@ + label + ":\n"@ + output
    }
}

/// The report of a failed `slang` run: its exit status, then the standard
/// error and the standard output, each where it holds more than whitespace.
pub open spec fn failure_report(status: Seq<char>, stdout: Seq<char>, stderr: Seq<char>) -> Seq<
    char,
> {
    "slang failed with "@ + status + output_section("stderr"@, stderr) + output_section(
        "stdout"@,
        stdout,
    )
}

/// Appends `label` and `output` to `r` where `output` holds more than whitespace.
fn push_output_section(r: &mut String, label: &str, output: &str)
    ensures
        final(r)@ == old(r)@ + output_section(label@, output@),
{
    if !trim_str(output).is_empty() {
        r.append("\n");
        r.append(label);
        r.append(":\n");
        r.append(output);
    }
}

/// The message of a failed `slang` run, given the text of its exit status and
/// what it printed.
pub fn slang_failure_message(status: &str, stdout: &str, stderr: &str) -> (r: String)
    ensures
        r@ == failure_report(status@, stdout@, stderr@),
{
    let mut r = String::from_str("slang failed with ");
    r.append(status);
    push_output_section(&mut r, "stderr", stderr);
    push_output_section(&mut r, "stdout", stdout);
    r
}

} // verus!
