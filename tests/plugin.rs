use protoc_plugin_by_closure::plugin::{rendezvous_key_of_request, KeyError, REQUEST_PARAMETER_FIELD};
use protoc_plugin_by_closure::wire::ScanError;

#[test]
fn key_is_taken_from_parameter_field() {
    // proto_file (15), then parameter (2)
    let mut req = vec![0x7a, 0x03, b'a', b'b', b'c'];
    req.extend([0x12, 0x04]);
    req.extend(b"/k42");
    assert_eq!(REQUEST_PARAMETER_FIELD, 2);
    assert_eq!(rendezvous_key_of_request(&req), Ok("/k42".to_string()));
}

#[test]
fn missing_key_is_reported() {
    let req = vec![0x7a, 0x01, b'x'];
    assert_eq!(rendezvous_key_of_request(&req), Err(KeyError::Missing));
    assert_eq!(rendezvous_key_of_request(&[]), Err(KeyError::Missing));
}

#[test]
fn undecodable_request_is_reported() {
    let req = vec![0x12, 0x09, b'k'];
    assert_eq!(rendezvous_key_of_request(&req), Err(KeyError::Scan(ScanError::Malformed)));
}
