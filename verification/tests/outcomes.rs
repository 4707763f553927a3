use sonic_client::error::ClientError;
use sonic_client::error::ErrorKind;
use sonic_client::outcome::settle_count;
use sonic_client::outcome::settle_items;
use sonic_client::outcome::settle_unit;

#[test]
fn successful_items_pass_through_in_order() {
    let items = vec!["id:2".to_string(), "id:1".to_string(), "id:3".to_string()];
    let out = settle_items(Ok(items.clone())).unwrap();
    assert_eq!(out, items);
}

#[test]
fn failed_items_become_transport_error() {
    let e = settle_items(Err("connection reset".to_string())).unwrap_err();
    assert_eq!(e.kind, ErrorKind::Transport);
    assert_eq!(e.message, "connection reset");
}

#[test]
fn successful_count_passes_through() {
    assert_eq!(settle_count(Ok(3)).unwrap(), 3);
    assert_eq!(settle_count(Ok(0)).unwrap(), 0);
}

#[test]
fn failed_count_becomes_transport_error() {
    let e = settle_count(Err("Sonic Server-side error: busy".to_string())).unwrap_err();
    assert_eq!(e.kind, ErrorKind::Transport);
    assert_eq!(e.message, "Sonic Server-side error: busy");
}

#[test]
fn successful_unit_passes_through() {
    assert!(settle_unit(Ok(())).is_ok());
}

#[test]
fn failed_unit_becomes_transport_error() {
    let e = settle_unit(Err("broken pipe".to_string())).unwrap_err();
    assert_eq!(e.kind, ErrorKind::Transport);
    assert_eq!(e.message, "broken pipe");
}

#[test]
fn connection_error_keeps_message_verbatim() {
    let e = ClientError::connection("Cannot connect to server".to_string());
    assert_eq!(e.kind(), ErrorKind::Connection);
    assert_eq!(e.text(), "Cannot connect to server");
}

#[test]
fn invalid_arguments_error_has_fixed_message() {
    let e = ClientError::invalid_arguments();
    assert_eq!(e.kind(), ErrorKind::InvalidArguments);
    assert_eq!(e.text(), "Invalid arguments");
}

#[test]
fn transport_error_keeps_message_verbatim() {
    let e = ClientError::transport("timed out".to_string());
    assert_eq!(e.kind, ErrorKind::Transport);
    assert_eq!(e.message, "timed out");
}
