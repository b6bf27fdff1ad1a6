use amplify_ffi::{
    report_get_action, report_get_command, report_get_duration_nanos, report_get_process,
    report_get_request_number, report_new, report_set_action, report_set_command,
    report_set_duration_nanos, report_set_process, report_set_request_number,
};

#[test]
fn fresh_report_is_blank() {
    let r = report_new();
    assert_eq!(report_get_action(&r), "");
    assert_eq!(report_get_process(&r), "");
    assert_eq!(report_get_request_number(&r), 0);
    assert_eq!(report_get_duration_nanos(&r), 0);
    assert_eq!(report_get_command(&r), None);
}

#[test]
fn report_read_gives_back_write() {
    let mut r = report_new();
    report_set_action(&mut r, "parse");
    report_set_process(&mut r, "parser");
    report_set_request_number(&mut r, 42);
    report_set_duration_nanos(&mut r, 1000);
    report_set_command(&mut r, Some("cargo build"));
    assert_eq!(report_get_action(&r), "parse");
    assert_eq!(report_get_process(&r), "parser");
    assert_eq!(report_get_request_number(&r), 42);
    assert_eq!(report_get_duration_nanos(&r), 1000);
    assert_eq!(report_get_command(&r), Some("cargo build"));
}

#[test]
fn report_command_can_be_removed() {
    let mut r = report_new();
    report_set_command(&mut r, Some("ls"));
    report_set_command(&mut r, None);
    assert_eq!(report_get_command(&r), None);
}

#[test]
fn report_write_keeps_other_parts() {
    let mut r = report_new();
    report_set_action(&mut r, "a");
    report_set_duration_nanos(&mut r, u64::MAX);
    report_set_action(&mut r, "b");
    report_set_process(&mut r, "p");
    assert_eq!(report_get_action(&r), "b");
    assert_eq!(report_get_duration_nanos(&r), u64::MAX);
    assert_eq!(report_get_request_number(&r), 0);
    assert_eq!(report_get_command(&r), None);
}
