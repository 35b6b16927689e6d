use repodb::exchange::{
    append_bytes, creation_body, read_envelope, read_fetched, read_snapshot, read_token,
    read_written, strip_quotes, write_body,
};
use repodb::{Client, ClientError, ErrorKind, Method, Reply};
use serde_json::Value;

fn received(status: u16, body: &str) -> Reply {
    Reply::Received { status, body: body.as_bytes().to_vec() }
}

#[test]
fn append_bytes_adds_at_the_end() {
    let mut out = b"ab".to_vec();
    append_bytes(&mut out, b"cd");
    append_bytes(&mut out, b"");
    assert_eq!(out, b"abcd".to_vec());
}

#[test]
fn strip_quotes_removes_every_quote() {
    assert_eq!(strip_quotes(b"\"abc\""), b"abc".to_vec());
    assert_eq!(strip_quotes(b"a\"b\"\"c"), b"abc".to_vec());
    assert_eq!(strip_quotes(b"\"\""), Vec::<u8>::new());
    assert_eq!(strip_quotes(b"abc"), b"abc".to_vec());
}

#[test]
fn read_token_renders_the_sha_without_quotes() {
    let doc: Value = serde_json::from_str("{\"sha\":\"3d21ec\"}").unwrap();
    assert_eq!(read_token(&doc), Some(b"3d21ec".to_vec()));
    let number: Value = serde_json::from_str("{\"sha\":42}").unwrap();
    assert_eq!(read_token(&number), Some(b"42".to_vec()));
    let escaped: Value = serde_json::from_str("{\"sha\":\"a\\\"b\"}").unwrap();
    assert_eq!(read_token(&escaped), Some(b"a\\b".to_vec()));
}

#[test]
fn read_token_of_an_envelope_without_sha_is_none() {
    let doc: Value = serde_json::from_str("{\"content\":\"W10=\"}").unwrap();
    assert_eq!(read_token(&doc), None);
    assert_eq!(read_token(&Value::from(1)), None);
}

#[test]
fn read_envelope_takes_content_and_sha() {
    let mut doc = serde_json::Map::new();
    doc.insert(String::from("content"), Value::from("WzEs\nMl0=\n"));
    doc.insert(String::from("sha"), Value::from("abc"));
    doc.insert(String::from("size"), Value::from(5));
    let (records, token) = read_envelope(&Value::Object(doc)).unwrap();
    assert_eq!(records, vec![Value::from(1), Value::from(2)]);
    assert_eq!(token, b"abc".to_vec());
}

#[test]
fn read_envelope_of_what_is_no_object_is_no_content() {
    assert_eq!(read_envelope(&Value::Null).unwrap_err().kind(), ErrorKind::NoContent);
    assert_eq!(read_envelope(&Value::from("content")).unwrap_err().kind(), ErrorKind::NoContent);
}

#[test]
fn read_snapshot_takes_records_and_token_from_one_envelope() {
    let (records, token) = read_snapshot(b"{\"content\":\"WzEs\\nMl0=\\n\",\"sha\":\"abc\"}").unwrap();
    assert_eq!(records, vec![Value::from(1), Value::from(2)]);
    assert_eq!(token, b"abc".to_vec());
}

#[test]
fn read_snapshot_of_no_json_is_a_json_error() {
    assert!(matches!(read_snapshot(b"<html>").unwrap_err(), ClientError::Json(_)));
}

#[test]
fn read_snapshot_without_content_is_no_content() {
    assert!(matches!(read_snapshot(b"{\"sha\":\"abc\"}").unwrap_err(), ClientError::NoContent));
    assert!(matches!(read_snapshot(b"{}").unwrap_err(), ClientError::NoContent));
    assert!(matches!(read_snapshot(b"[]").unwrap_err(), ClientError::NoContent));
}

#[test]
fn read_snapshot_without_sha_is_no_sha() {
    assert!(matches!(read_snapshot(b"{\"content\":\"W10=\"}").unwrap_err(), ClientError::NoSha));
}

#[test]
fn read_snapshot_looks_at_the_content_before_the_sha() {
    let err = read_snapshot(b"{\"content\":\"****\"}").unwrap_err();
    assert_eq!(err.kind(), ErrorKind::BadEncoding);
    let err = read_snapshot(b"{\"content\":\"aGVsbG8=\"}").unwrap_err();
    assert_eq!(err.kind(), ErrorKind::Json);
}

#[test]
fn read_fetched_of_a_failed_exchange_is_a_transport_error() {
    let err = read_fetched(&Reply::Failed { reason: String::from("timed out") }).unwrap_err();
    assert!(matches!(&err, ClientError::Http(reason) if reason == "timed out"));
}

#[test]
fn read_fetched_goes_by_the_body_whatever_the_status() {
    let body = "{\"content\":\"W10=\",\"sha\":\"abc\"}";
    for status in [200, 201, 404, 409, 500] {
        let (records, token) = read_fetched(&received(status, body)).unwrap();
        assert_eq!(records, Vec::<Value>::new());
        assert_eq!(token, b"abc".to_vec());
    }
    let err = read_fetched(&received(404, "{\"message\":\"Not Found\"}")).unwrap_err();
    assert_eq!(err.kind(), ErrorKind::NoContent);
}

#[test]
fn read_written_gives_the_new_token() {
    let token = read_written(&received(200, "{\"sha\":\"def\"}")).unwrap();
    assert_eq!(token, b"def".to_vec());
}

#[test]
fn read_written_of_a_refusal_is_a_conflict() {
    let body = "{\"sha\":\"def\"}";
    assert!(matches!(read_written(&received(409, body)).unwrap_err(), ClientError::Conflict));
    assert!(matches!(read_written(&received(412, body)).unwrap_err(), ClientError::Conflict));
    assert!(matches!(read_written(&received(409, "")).unwrap_err(), ClientError::Conflict));
}

#[test]
fn read_written_of_other_failures() {
    let failed = Reply::Failed { reason: String::from("refused") };
    assert_eq!(read_written(&failed).unwrap_err().kind(), ErrorKind::Http);
    assert_eq!(read_written(&received(500, "oops")).unwrap_err().kind(), ErrorKind::Json);
    let err = read_written(&received(401, "{\"message\":\"Bad credentials\"}")).unwrap_err();
    assert_eq!(err.kind(), ErrorKind::NoSha);
}

#[test]
fn write_body_holds_message_content_and_sha() {
    let body = write_body("Insert", b"W10=", b"abc").unwrap();
    assert_eq!(
        String::from_utf8(body).unwrap(),
        "{\"content\":\"W10=\",\"message\":\"Insert\",\"sha\":\"abc\"}"
    );
}

#[test]
fn write_body_escapes_what_json_must() {
    let body = write_body("Over\"write", b"a\\b", b"x\ny").unwrap();
    let doc: Value = serde_json::from_slice(&body).unwrap();
    assert_eq!(doc.get("message"), Some(&Value::from("Over\"write")));
    assert_eq!(doc.get("content"), Some(&Value::from("a\\b")));
    assert_eq!(doc.get("sha"), Some(&Value::from("x\ny")));
}

#[test]
fn creation_body_names_the_collection_and_has_no_sha() {
    let body = creation_body("users", b"W10=");
    assert_eq!(
        String::from_utf8(body).unwrap(),
        "{\"message\":\"Creating Collection 'users'\",\"content\":\"W10=\"}"
    );
}

#[test]
fn creation_body_takes_the_name_as_it_is() {
    let body = creation_body("", b"");
    assert_eq!(
        String::from_utf8(body).unwrap(),
        "{\"message\":\"Creating Collection ''\",\"content\":\"\"}"
    );
    let body = creation_body("a\"b", b"W10=");
    assert!(serde_json::from_slice::<Value>(&body).is_err());
}

#[test]
fn a_copy_of_a_request_holds_the_same() {
    let client = Client::new("secret", "octo", "notes", None, None).unwrap();
    let reply = received(404, "");
    let request = match client.collection("users", &reply).unwrap() {
        repodb::Opened::Create(request) => request,
        repodb::Opened::Ready(_) => panic!("the blob does not exist"),
    };
    let copy = request.clone();
    assert_eq!(copy.method, Method::Put);
    assert_eq!(copy.url, request.url);
    assert_eq!(copy.body, request.body);
    assert!(!copy.body.is_empty());
}

#[test]
fn a_copy_of_a_reply_holds_the_same() {
    let reply = received(201, "{}");
    assert!(matches!(reply.clone(), Reply::Received { status: 201, body } if body == b"{}".to_vec()));
    let failed = Reply::Failed { reason: String::from("down") };
    assert!(matches!(failed.clone(), Reply::Failed { reason } if reason == "down"));
}
