use port_boundary::{BoundaryError, ErrorChannel, ErrorKind};

#[test]
fn a_new_channel_holds_nothing() {
    let channel = ErrorChannel::new();
    assert_eq!(channel.length(), 0);
    let mut buffer = [7u8; 4];
    assert_eq!(channel.copy_into(Some(&mut buffer)), 0);
    assert_eq!(buffer, [7u8; 4]);
}

#[test]
fn set_replaces_what_was_stored() {
    let mut channel = ErrorChannel::new();
    channel.set("first failure".to_string());
    assert_eq!(channel.length(), 13);
    channel.set("second".to_string());
    assert_eq!(channel.length(), 6);
    let mut buffer = [0u8; 6];
    assert_eq!(channel.copy_into(Some(&mut buffer)), 6);
    assert_eq!(&buffer, b"second");
}

#[test]
fn clear_removes_what_was_stored() {
    let mut channel = ErrorChannel::new();
    channel.set("failure".to_string());
    channel.clear();
    assert_eq!(channel.length(), 0);
    channel.clear();
    assert_eq!(channel.length(), 0);
}

#[test]
fn length_counts_bytes_not_characters() {
    let mut channel = ErrorChannel::new();
    channel.set("parse socket address \u{00e9}\u{4e2d}\u{1f600}".to_string());
    assert_eq!(channel.length(), 21 + 2 + 3 + 4);
}

#[test]
fn copy_into_leaves_the_rest_of_the_buffer_as_it_was() {
    let mut channel = ErrorChannel::new();
    channel.set("abc".to_string());
    let mut buffer = [b'x'; 6];
    assert_eq!(channel.copy_into(Some(&mut buffer)), 3);
    assert_eq!(&buffer, b"abcxxx");
}

#[test]
fn copy_into_refuses_a_buffer_that_is_absent_or_too_small() {
    let mut channel = ErrorChannel::new();
    assert_eq!(channel.copy_into(None), -1);
    channel.set("abcd".to_string());
    assert_eq!(channel.copy_into(None), -1);
    let mut small = [b'x'; 3];
    assert_eq!(channel.copy_into(Some(&mut small)), -1);
    assert_eq!(&small, b"xxx");
    let mut empty: [u8; 0] = [];
    assert_eq!(channel.copy_into(Some(&mut empty)), -1);
    let mut exact = [0u8; 4];
    assert_eq!(channel.copy_into(Some(&mut exact)), 4);
    assert_eq!(&exact, b"abcd");
}

#[test]
fn copy_into_does_not_take_the_message_away() {
    let mut channel = ErrorChannel::new();
    channel.set("kept".to_string());
    let mut buffer = [0u8; 8];
    assert_eq!(channel.copy_into(Some(&mut buffer)), 4);
    assert_eq!(channel.copy_into(Some(&mut buffer)), 4);
    assert_eq!(channel.length(), 4);
}

#[test]
fn update_if_required_clears_after_a_success_and_sets_after_a_failure() {
    let mut channel = ErrorChannel::new();
    channel.update_if_required(Err(BoundaryError::new(ErrorKind::ServiceError, "add port mappings")));
    assert_eq!(channel.length(), 17);
    channel.update_if_required(Err(BoundaryError::new(ErrorKind::ParseError, "no")));
    assert_eq!(channel.length(), 2);
    channel.update_if_required(Ok(()));
    assert_eq!(channel.length(), 0);
}

#[test]
fn a_failure_keeps_its_kind_and_message() {
    let failure = BoundaryError::new(ErrorKind::InternalError, "create port manager");
    assert_eq!(failure.kind, ErrorKind::InternalError);
    assert_eq!(failure.message, "create port manager");
    assert_eq!(failure.to_string(), "create port manager");
    assert_ne!(failure, BoundaryError::new(ErrorKind::InitializationError, "create port manager"));
}
