use rsvg_core::data_uri::binary_data_from_parts;
use rsvg_core::data_uri::boundary_reply;
use rsvg_core::data_uri::decode_data_uri;
use rsvg_core::data_uri::rsvg_decode_data_uri;
use rsvg_core::data_uri::BinaryData;
use rsvg_core::data_uri::LoadingError;
use rsvg_core::data_uri::BOUNDARY_ERROR_CODE;
use rsvg_core::data_uri::BOUNDARY_ERROR_MESSAGE;

#[test]
fn percent_encoded_body_is_decoded() {
    let binary = decode_data_uri("data:,Hello%20World!").unwrap();
    assert_eq!(binary.data, b"Hello World!".to_vec());
    assert_eq!(binary.content_type.as_deref(), Some("text/plain;charset=US-ASCII"));
}

#[test]
fn base64_body_is_decoded() {
    let binary = decode_data_uri("data:image/png;base64,iVBORw0KGgo=").unwrap();
    assert_eq!(binary.data, vec![0x89, b'P', b'N', b'G', 0x0d, 0x0a, 0x1a, 0x0a]);
    assert_eq!(binary.content_type.as_deref(), Some("image/png"));
}

#[test]
fn media_type_is_serialized_in_lower_case() {
    let binary = decode_data_uri("data:TEXT/Html;Charset=utf-8,x").unwrap();
    assert_eq!(binary.data, b"x".to_vec());
    assert_eq!(binary.content_type.as_deref(), Some("text/html;charset=utf-8"));
}

#[test]
fn fragment_is_not_part_of_the_body() {
    let binary = decode_data_uri("data:text/plain,abc#def").unwrap();
    assert_eq!(binary.data, b"abc".to_vec());
}

#[test]
fn empty_body_is_decoded_to_no_bytes() {
    let binary = decode_data_uri("data:,").unwrap();
    assert!(binary.data.is_empty());
    assert!(binary.content_type.is_some());
}

#[test]
fn other_scheme_is_a_bad_data_url() {
    assert_eq!(decode_data_uri("http://example.com/").unwrap_err(), LoadingError::BadDataUrl);
    assert_eq!(decode_data_uri("").unwrap_err(), LoadingError::BadDataUrl);
}

#[test]
fn missing_comma_is_a_bad_data_url() {
    assert_eq!(decode_data_uri("data:text/plain").unwrap_err(), LoadingError::BadDataUrl);
    assert_eq!(decode_data_uri("data:text/plain#a,b").unwrap_err(), LoadingError::BadDataUrl);
}

#[test]
fn invalid_base64_is_a_bad_data_url() {
    assert_eq!(decode_data_uri("data:;base64,!!!!").unwrap_err(), LoadingError::BadDataUrl);
    assert_eq!(decode_data_uri("data:;base64,A").unwrap_err(), LoadingError::BadDataUrl);
}

#[test]
fn parts_with_a_body_make_binary_data() {
    let loaded = binary_data_from_parts(String::from("image/png"), Ok(vec![1, 2, 3])).unwrap();
    assert_eq!(loaded.data, vec![1, 2, 3]);
    assert_eq!(loaded.content_type.as_deref(), Some("image/png"));
}

#[test]
fn parts_without_a_body_make_a_bad_data_url() {
    let invalid = data_url::forgiving_base64::decode_to_vec(b"!").unwrap_err();
    let loaded = binary_data_from_parts(String::from("image/png"), Err(invalid));
    assert_eq!(loaded.unwrap_err(), LoadingError::BadDataUrl);
}

#[test]
fn boundary_reply_of_success_carries_bytes_and_type() {
    let reply = boundary_reply(Ok(BinaryData {
        data: vec![9, 8, 7, 6],
        content_type: Some(String::from("text/css")),
    }));
    assert_eq!(reply.data, Some(vec![9, 8, 7, 6]));
    assert_eq!(reply.mime_type.as_deref(), Some("text/css"));
    assert_eq!(reply.size, 4);
    assert!(reply.error.is_none());
}

#[test]
fn boundary_reply_of_success_without_type_has_no_type() {
    let reply = boundary_reply(Ok(BinaryData { data: vec![], content_type: None }));
    assert_eq!(reply.data, Some(vec![]));
    assert!(reply.mime_type.is_none());
    assert_eq!(reply.size, 0);
    assert!(reply.error.is_none());
}

#[test]
fn boundary_reply_of_failure_is_the_fixed_error() {
    let reply = boundary_reply(Err(LoadingError::BadDataUrl));
    assert!(reply.data.is_none());
    assert!(reply.mime_type.is_none());
    assert_eq!(reply.size, 0);
    let error = reply.error.unwrap();
    assert_eq!(error.code, BOUNDARY_ERROR_CODE);
    assert_eq!(error.code, 0);
    assert_eq!(error.message, "could not decode data: URL");
    assert_eq!(BOUNDARY_ERROR_MESSAGE, "could not decode data: URL");
}

#[test]
fn boundary_decodes_a_data_url() {
    let reply = rsvg_decode_data_uri("data:text/plain;base64,SGVsbG8=");
    assert_eq!(reply.data, Some(b"Hello".to_vec()));
    assert_eq!(reply.mime_type.as_deref(), Some("text/plain"));
    assert_eq!(reply.size, 5);
    assert!(reply.error.is_none());
}

#[test]
fn boundary_refuses_a_malformed_url() {
    let reply = rsvg_decode_data_uri("data:no-comma-here");
    assert!(reply.data.is_none());
    assert!(reply.mime_type.is_none());
    assert_eq!(reply.size, 0);
    let error = reply.error.unwrap();
    assert_eq!(error.code, 0);
    assert_eq!(error.message, "could not decode data: URL");
}
