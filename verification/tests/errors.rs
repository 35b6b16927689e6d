use repodb::codec::decode;
use repodb::exchange::read_snapshot;
use repodb::{Client, ClientError, ErrorKind};

#[test]
fn messages_of_the_plain_errors() {
    assert_eq!(ClientError::NoContent.message(), "No Content Found In Returned JSON");
    assert_eq!(ClientError::NotUtf8.message(), "Content Not Encoded in Utf8");
    assert_eq!(ClientError::NoSha.message(), "No Sha Returned From Github");
    assert_eq!(ClientError::Conflict.message(), "Blob Changed Since It Was Fetched");
    assert_eq!(ClientError::TooLarge.message(), "Text Too Large");
}

#[test]
fn message_of_a_transport_error_holds_the_reason() {
    let err = ClientError::Http(String::from("connection reset"));
    assert_eq!(err.message(), "Http Error: connection reset");
}

#[test]
fn message_of_a_parse_error_holds_the_words_of_url() {
    let err = Client::new("t", "o", "r", Some(String::from("not a url")), None).unwrap_err();
    assert_eq!(err.message(), "Parse Error: relative URL without a base");
}

#[test]
fn message_of_a_json_error_holds_the_words_of_serde_json() {
    let err = read_snapshot(b"{").unwrap_err();
    let inner = serde_json::from_slice::<serde_json::Value>(b"{").unwrap_err();
    assert_eq!(err.message(), format!("Json Parsing Error: {}", inner));
    assert!(err.message().starts_with("Json Parsing Error: EOF"));
}

#[test]
fn message_of_a_bad_encoding_holds_the_words_of_base64() {
    let err = decode(b"\"W1*=\"").unwrap_err();
    assert_eq!(err.message(), "Base64 Decode Error: Invalid byte 42, offset 2.");
}

#[test]
fn kind_names_the_variant() {
    assert_eq!(ClientError::Http(String::new()).kind(), ErrorKind::Http);
    assert_eq!(ClientError::NoContent.kind(), ErrorKind::NoContent);
    assert_eq!(ClientError::NotUtf8.kind(), ErrorKind::NotUtf8);
    assert_eq!(ClientError::NoSha.kind(), ErrorKind::NoSha);
    assert_eq!(ClientError::Conflict.kind(), ErrorKind::Conflict);
    assert_eq!(ClientError::TooLarge.kind(), ErrorKind::TooLarge);
    let parse = Client::new("t", "o", "r", Some(String::from("::")), None).unwrap_err();
    assert_eq!(parse.kind(), ErrorKind::Parse);
    assert_eq!(read_snapshot(b"").unwrap_err().kind(), ErrorKind::Json);
    assert_eq!(decode(b"\"!!!!\"").unwrap_err().kind(), ErrorKind::BadEncoding);
}
