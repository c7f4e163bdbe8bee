use rslang::slang::slang_failure_message;
use rslang::Slang;

#[test]
fn default_command_line_asks_for_json_with_source_info() {
    let slang = Slang::default();
    assert_eq!(slang.executable(), "slang");
    assert_eq!(
        slang.command_args(&["top.sv"]),
        vec!["--quiet", "--ast-json", "-", "--ast-json-source-info", "top.sv"]
    );
    assert_eq!(
        Slang::new("slang").arg("--top").arg("arbiter").command_args(&["a.sv"]),
        vec!["--quiet", "--ast-json", "-", "--ast-json-source-info", "--top", "arbiter", "a.sv"]
    );
}

#[test]
fn detailed_types_are_asked_for_on_request() {
    assert_eq!(
        Slang::default().include_detailed_type_info(true).command_args(&["top.sv"]),
        vec![
            "--quiet",
            "--ast-json",
            "-",
            "--ast-json-source-info",
            "--ast-json-detailed-types",
            "top.sv",
        ]
    );
}

#[test]
fn extra_arguments_come_before_the_files_in_order() {
    let slang = Slang::new("/opt/bin/slang")
        .arg("-I")
        .args(&["inc", "--top", "mul"])
        .arg("-DWIDTH=8")
        .include_source_info(false);
    assert_eq!(slang.executable(), "/opt/bin/slang");
    assert_eq!(
        slang.command_args(&["a.sv", "b.sv"]),
        vec![
            "--quiet",
            "--ast-json",
            "-",
            "-I",
            "inc",
            "--top",
            "mul",
            "-DWIDTH=8",
            "a.sv",
            "b.sv",
        ]
    );
}

#[test]
fn both_options_can_be_switched_off_and_on_again() {
    let slang = Slang::new("slang")
        .include_source_info(false)
        .include_detailed_type_info(false);
    assert_eq!(slang.command_args(&[]), vec!["--quiet", "--ast-json", "-"]);
    let slang = slang.include_detailed_type_info(true);
    assert_eq!(
        slang.command_args(&["x.sv"]),
        vec!["--quiet", "--ast-json", "-", "--ast-json-detailed-types", "x.sv"]
    );
}

#[test]
fn failure_message_shows_only_outputs_with_text() {
    assert_eq!(slang_failure_message("exit status: 1", "", ""), "slang failed with exit status: 1");
    assert_eq!(
        slang_failure_message("exit status: 2", " \n", "error: no top\n"),
        "slang failed with exit status: 2\nstderr:\nerror: no top\n"
    );
    assert_eq!(
        slang_failure_message("signal: 9", "{\"design\"", "\t"),
        "slang failed with signal: 9\nstdout:\n{\"design\""
    );
    assert_eq!(
        slang_failure_message("exit status: 3", "out", "err"),
        "slang failed with exit status: 3\nstderr:\nerr\nstdout:\nout"
    );
}

#[test]
fn arg_twice_is_args_with_both() {
    let base = Slang::new("slang").include_source_info(false);
    let one_by_one = base.clone().arg("--top").arg("arbiter");
    let together = base.clone().args(&["--top", "arbiter"]);
    assert_eq!(one_by_one.command_args(&["a.sv"]), together.command_args(&["a.sv"]));
    assert_eq!(one_by_one.executable(), together.executable());
    assert_eq!(base.command_args(&[]), vec!["--quiet", "--ast-json", "-"]);
}
