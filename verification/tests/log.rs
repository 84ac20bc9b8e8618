use port_boundary::log::{compose_log_filter, log_init_res, log_outcome};
use port_boundary::{log_init, ErrorChannel, ErrorKind};

#[test]
fn log_init_success() {
    let mut channel = ErrorChannel::new();
    log_init(&mut channel, "port_boundary", Some(b"error\0"));
    assert_eq!(channel.length(), 0);
}

#[test]
fn log_init_failure_level_null() {
    let mut channel = ErrorChannel::new();
    log_init(&mut channel, "port_boundary", None);
    assert!(channel.length() > 0);
}

#[test]
fn log_init_reports_a_level_that_is_no_text() {
    let failure = log_init_res("port_boundary", Some(&[b'd', 0xe9, b'b', 0])).err().unwrap();
    assert_eq!(failure.kind, ErrorKind::InvalidArgument);
    assert_eq!(failure.message, "convert log level string");
    let absent = log_init_res("port_boundary", None).err().unwrap();
    assert_eq!(absent.kind, ErrorKind::InvalidArgument);
    assert_eq!(absent.message, "provided log level is NULL");
}

#[test]
fn log_filter_names_the_crate_and_the_level() {
    assert_eq!(compose_log_filter("port_boundary", "error"), "port_boundary=error");
    assert_eq!(compose_log_filter("runtime", "debug"), "runtime=debug");
    assert_eq!(compose_log_filter("runtime", ""), "runtime=");
}

#[test]
fn log_outcome_reports_a_logger_that_was_not_installed() {
    assert_eq!(log_outcome(true), Ok(()));
    let failure = log_outcome(false).err().unwrap();
    assert_eq!(failure.kind, ErrorKind::InitializationError);
    assert_eq!(failure.message, "init log level");
}
