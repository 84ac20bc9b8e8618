use port_boundary::{log_init, ErrorChannel};

#[test]
fn log_init_twice_is_reported_and_not_fatal() {
    let mut channel = ErrorChannel::new();
    log_init(&mut channel, "port_boundary", Some(b"debug\0"));
    assert_eq!(channel.length(), 0);

    log_init(&mut channel, "port_boundary", Some(b"info\0"));
    assert_eq!(channel.length(), "init log level".len());
    let mut buffer = [0u8; 32];
    assert_eq!(channel.copy_into(Some(&mut buffer)), 14);
    assert_eq!(&buffer[..14], b"init log level");

    log_init(&mut channel, "port_boundary", None);
    assert_eq!(channel.length(), "provided log level is NULL".len());
}
