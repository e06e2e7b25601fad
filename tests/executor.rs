use lvm2_cmd::command::{check_mutation, check_status, Invocation, ProcessOutput};
use lvm2_cmd::report::{unwrap_report, ReportValue};
use lvm2_cmd::error::LVMError;

fn lvs(args: &[&str]) -> Invocation {
    Invocation { command: "lvs".to_string(), args: args.iter().map(|a| a.to_string()).collect() }
}

fn output(code: Option<i32>, stdout: &[u8], stderr: &[u8]) -> ProcessOutput {
    ProcessOutput { exit_code: code, stdout: stdout.to_vec(), stderr: stderr.to_vec() }
}

#[test]
fn argv_puts_the_report_format_first() {
    let inv = lvs(&["--units", "b", "vg0/root"]);
    assert_eq!(inv.argv(), vec!["lvs", "--reportformat", "json", "--units", "b", "vg0/root"]);
}

#[test]
fn exit_code_five_is_not_found_for_the_last_argument() {
    let inv = lvs(&["--nolocking", "vg0/missing"]);
    match check_status(&inv, &output(Some(5), b"", b"  Failed to find logical volume\n")) {
        Err(LVMError::NotFound { resource }) => assert_eq!(resource, "vg0/missing"),
        other => panic!("unexpected {:?}", other),
    }
    match check_status(&lvs(&[]), &output(Some(5), b"", b"")) {
        Err(LVMError::NotFound { resource }) => assert_eq!(resource, "json"),
        other => panic!("unexpected {:?}", other),
    }
}

#[test]
fn other_exit_codes_carry_trimmed_stderr() {
    let inv = lvs(&["vg0/root"]);
    match check_status(&inv, &output(Some(1), b"", b"  Volume group \"vg0\" not found \n")) {
        Err(LVMError::Command { command, args, message }) => {
            assert_eq!(command, "lvs");
            assert_eq!(args, vec!["lvs", "--reportformat", "json", "vg0/root"]);
            assert_eq!(message, "Volume group \"vg0\" not found");
        }
        other => panic!("unexpected {:?}", other),
    }
    match check_status(&inv, &output(None, b"", b"\xffkilled\t")) {
        Err(LVMError::Command { message, .. }) => assert_eq!(message, "\u{fffd}killed"),
        other => panic!("unexpected {:?}", other),
    }
    assert!(check_status(&inv, &output(Some(0), b"", b"warning")).is_ok());
}

#[test]
fn mutation_needs_success_and_utf8() {
    let inv = Invocation { command: "lvremove".to_string(), args: vec!["vg0/x".to_string()] };
    assert!(check_mutation(&inv, &output(Some(0), b"  Logical volume removed\n", b"")).is_ok());
    match check_mutation(&inv, &output(Some(0), b"\xc3\x28", b"")) {
        Err(LVMError::MalformedOutput { cause, .. }) => {
            assert_eq!(cause, "could not decode command output from UTF-8")
        }
        other => panic!("unexpected {:?}", other),
    }
    assert!(matches!(
        check_mutation(&inv, &output(Some(3), b"", b"busy")),
        Err(LVMError::Command { .. })
    ));
}

#[test]
fn unwraps_the_report_array_in_order() {
    let text = r#"{"report":[{"lv":[{"lv_name":"a","n":7},{"lv_name":"b","x":null}]}]}"#;
    let records = unwrap_report(text, "lv").unwrap();
    assert_eq!(records.len(), 2);
    assert!(matches!(records[0].member("lv_name"), Some(ReportValue::Text(t)) if t == "a"));
    assert!(matches!(records[0].member("n"), Some(ReportValue::Number(t)) if t == "7"));
    assert_eq!(records[1].text("lv_name"), Some("b".to_string()));
    assert!(matches!(records[1].member("x"), Some(ReportValue::Other)));
    assert_eq!(records[0].number("n"), Some(7));
    assert!(records[1].member("n").is_none());
}

#[test]
fn empty_report_array_gives_no_records() {
    assert_eq!(unwrap_report(r#"{"report":[{"vg":[]}]}"#, "vg").unwrap().len(), 0);
}

#[test]
fn wrapped_object_is_not_an_array() {
    match unwrap_report(r#"{"report":[{"lv":{"lv_name":"a"}}]}"#, "lv") {
        Err(LVMError::MalformedOutput { cause, .. }) => {
            assert_eq!(cause, "wrapped value is not an array")
        }
        other => panic!("unexpected {:?}", other),
    }
}

#[test]
fn missing_wrapping_is_malformed() {
    for text in [r#"{"report":[{"vg":[]}]}"#, r#"{"report":[]}"#, r#"{"other":1}"#] {
        match unwrap_report(text, "lv") {
            Err(LVMError::MalformedOutput { cause, .. }) => {
                assert_eq!(cause, "wrapping is in the wrong format")
            }
            other => panic!("unexpected {:?}", other),
        }
    }
}

#[test]
fn invalid_json_is_malformed() {
    match unwrap_report("{\"report\": [", "lv") {
        Err(LVMError::MalformedOutput { cause, .. }) => assert_eq!(cause, "could not decode JSON output"),
        other => panic!("unexpected {:?}", other),
    }
}

#[test]
fn element_that_is_not_an_object_is_malformed() {
    match unwrap_report(r#"{"report":[{"lv":[{"lv_name":"a"}, 3]}]}"#, "lv") {
        Err(LVMError::MalformedOutput { cause, .. }) => {
            assert_eq!(cause, "could not decode wrapped type as JSON")
        }
        other => panic!("unexpected {:?}", other),
    }
}

#[test]
fn numbers_read_from_strings_and_numbers() {
    let text = r#"{"report":[{"vg":[{"a":"+42","b":"042","c":"-1","d":1.5,"e":"","f":"18446744073709551616","g":" 1"}]}]}"#;
    let records = unwrap_report(text, "vg").unwrap();
    let r = &records[0];
    assert_eq!(r.number("a"), Some(42));
    assert_eq!(r.number("b"), Some(42));
    assert_eq!(r.number("c"), None);
    assert_eq!(r.number("d"), None);
    assert_eq!(r.number("e"), None);
    assert_eq!(r.number("f"), None);
    assert_eq!(r.number("g"), None);
}

#[test]
fn errors_describe_themselves() {
    let e = LVMError::Command {
        command: "lvs".to_string(),
        args: vec!["lvs".to_string(), "vg0".to_string()],
        message: "failed".to_string(),
    };
    assert_eq!(e.to_string(), "could not run `lvs` with args `[\"lvs\", \"vg0\"]`: failed");
    let e = LVMError::Command { command: "x".to_string(), args: vec![], message: String::new() };
    assert_eq!(e.to_string(), "could not run `x` with args `[]`: ");
    let e = LVMError::NotFound { resource: "vg0/a".to_string() };
    assert_eq!(e.to_string(), "requested resource not found: vg0/a");
    let e = LVMError::MalformedOutput { cause: "c".to_string(), result: "r".to_string() };
    assert_eq!(e.to_string(), "output of lvm command is malformed: c -> r");
    let e = LVMError::Internal { io: std::io::Error::new(std::io::ErrorKind::NotFound, "no lvm") };
    assert_eq!(e.to_string(), "could not run lvm command: no lvm");
}

#[test]
fn command_error_escapes_arguments_as_debug_does() {
    let e = LVMError::Command {
        command: "lvs".to_string(),
        args: vec!["a\"b".to_string(), "c\\d\n".to_string()],
        message: "m".to_string(),
    };
    assert_eq!(e.to_string(), "could not run `lvs` with args `[\"a\\\"b\", \"c\\\\d\\n\"]`: m");
}

#[test]
fn stderr_is_trimmed_of_unicode_white_space() {
    let inv = lvs(&["x"]);
    let stderr = "\u{3000}\u{a0} failed\u{2029}\u{85}".as_bytes();
    match check_status(&inv, &output(Some(2), b"", stderr)) {
        Err(LVMError::Command { message, .. }) => assert_eq!(message, "failed"),
        other => panic!("unexpected {:?}", other),
    }
}

#[test]
fn string_elements_are_not_records() {
    match unwrap_report(r#"{"report":[{"lv":["a","b"]}]}"#, "lv") {
        Err(LVMError::MalformedOutput { cause, .. }) => {
            assert_eq!(cause, "could not decode wrapped type as JSON")
        }
        other => panic!("unexpected {:?}", other),
    }
}
