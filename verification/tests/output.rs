use shadowrocket::output::parse_check_output;

#[test]
fn message_of_an_error_line() {
    let log = "time=\"2024-01-01T00:00:00Z\" level=error msg=\"proxy 0: missing type\"\n";
    assert_eq!(parse_check_output(log), "proxy 0: missing type");
}

#[test]
fn message_behind_the_error_level_wins() {
    let log = "time=\"t\" level=info msg=\"start\"\ntime=\"t\" level=error msg=\"bad \\\"x\\\"\"";
    assert_eq!(parse_check_output(log), "bad \\\"x\\\"");
    let log = "time=\"t\" level=warning msg=\"only a warning\"";
    assert_eq!(parse_check_output(log), "only a warning");
}

#[test]
fn plain_error_is_cut_before_the_path() {
    assert_eq!(parse_check_output("error=yaml: line 3 path=/tmp/x.yaml"), "yaml: line 3");
    assert_eq!(parse_check_output("configuration file test failed error=bad"), "ba");
    assert_eq!(parse_check_output("error= path=/x"), "");
}

#[test]
fn anything_else_is_handed_back() {
    assert_eq!(parse_check_output("something went wrong"), "something went wrong");
    assert_eq!(parse_check_output(""), "");
    assert_eq!(parse_check_output("time=1 msg=x"), "time=1 msg=x");
    assert_eq!(parse_check_output("time=1 msg=\""), "time=1 msg=\"");
    assert_eq!(parse_check_output("path=/x error="), "path=/x error=");
    assert_eq!(parse_check_output("\u{4e2d}time=msg=\"\u{6587}\""), "\u{6587}");
}
