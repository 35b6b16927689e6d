use repodb::{Client, ClientError, ErrorKind, Reply};

#[test]
fn new_with_the_default_host_points_at_github() {
    let client = Client::new("secret", "octo", "notes", None, None).unwrap();
    let url = client.create_url(Some("users.json"));
    assert_eq!(url.as_str(), "https://api.github.com/repos/octo/notes/contents/users.json");
}

#[test]
fn new_with_a_host_of_its_own() {
    let host = Some(String::from("http://localhost:8080/ignored?x=1"));
    let client = Client::new("secret", "octo", "notes", host, None).unwrap();
    let url = client.create_url(Some("users.json"));
    assert_eq!(url.as_str(), "http://localhost:8080/repos/octo/notes/contents/users.json?x=1");
}

#[test]
fn new_with_a_host_that_is_no_url_is_a_parse_error() {
    let err = Client::new("secret", "octo", "notes", Some(String::from("localhost")), None);
    assert!(matches!(err.unwrap_err(), ClientError::Parse(_)));
    let err = Client::new("secret", "octo", "notes", Some(String::new()), None);
    assert_eq!(err.unwrap_err().kind(), ErrorKind::Parse);
}

#[test]
fn new_refuses_parts_beyond_the_limit() {
    let long = "x".repeat(repodb::locator::MAX_PART + 1);
    let fits = "x".repeat(repodb::locator::MAX_PART);
    assert_eq!(Client::new("t", &long, "r", None, None).unwrap_err().kind(), ErrorKind::TooLarge);
    assert_eq!(Client::new("t", "o", &long, None, None).unwrap_err().kind(), ErrorKind::TooLarge);
    let prefix = Some(long.clone());
    assert_eq!(Client::new("t", "o", "r", None, prefix).unwrap_err().kind(), ErrorKind::TooLarge);
    let host = Some(format!("https://example.com/{}", long));
    assert_eq!(Client::new("t", "o", "r", host, None).unwrap_err().kind(), ErrorKind::TooLarge);
    assert!(Client::new(&long, &fits, "r", None, None).is_ok());
}

#[test]
fn create_url_puts_the_prefix_before_the_path() {
    let prefix = Some(String::from("data/"));
    let client = Client::new("secret", "octo", "notes", None, prefix).unwrap();
    let url = client.create_url(Some("users.json"));
    assert_eq!(url.as_str(), "https://api.github.com/repos/octo/notes/contents/data/users.json");
}

#[test]
fn create_url_without_a_path_ends_at_the_prefix() {
    let client = Client::new("secret", "octo", "notes", None, None).unwrap();
    assert_eq!(client.create_url(None).as_str(), "https://api.github.com/repos/octo/notes/contents/");
    let prefix = Some(String::from("data"));
    let client = Client::new("secret", "octo", "notes", None, prefix).unwrap();
    assert_eq!(
        client.create_url(None).as_str(),
        "https://api.github.com/repos/octo/notes/contents/data"
    );
}

#[test]
fn create_url_percent_encodes_the_path() {
    let client = Client::new("secret", "octo", "my notes", None, None).unwrap();
    let url = client.create_url(Some("a b.json"));
    assert_eq!(url.as_str(), "https://api.github.com/repos/octo/my%20notes/contents/a%20b.json");
}

#[test]
fn locate_adds_the_json_suffix() {
    let client = Client::new("secret", "octo", "notes", None, None).unwrap();
    let url = client.locate("users").unwrap();
    assert_eq!(url.as_str(), "https://api.github.com/repos/octo/notes/contents/users.json");
}

#[test]
fn a_name_beyond_the_limit_is_too_large() {
    let client = Client::new("secret", "octo", "notes", None, None).unwrap();
    let long = "n".repeat(repodb::locator::MAX_PART + 1);
    let reply = Reply::Received { status: 404, body: Vec::new() };
    assert!(client.locate(&long).is_none());
    assert_eq!(client.lookup(&long).unwrap_err().kind(), ErrorKind::TooLarge);
    assert_eq!(client.collection(&long, &reply).unwrap_err().kind(), ErrorKind::TooLarge);
    assert_eq!(client.created(&long, &reply).unwrap_err().kind(), ErrorKind::TooLarge);
    let fits = "n".repeat(repodb::locator::MAX_PART);
    assert!(client.lookup(&fits).is_ok());
}

#[test]
fn header_values() {
    let client = Client::new("secret", "octo", "notes", None, None).unwrap();
    assert_eq!(client.authorization(), "Bearer secret");
    assert_eq!(client.user_agent(), "octo-notes");
    assert_eq!(client.accept(), "application/vnd.github+json");
}

#[test]
fn a_copy_of_a_client_points_at_the_same_blobs() {
    let prefix = Some(String::from("data/"));
    let client = Client::new("secret", "octo", "notes", None, prefix).unwrap();
    let copy = client.clone();
    assert_eq!(copy.locate("users"), client.locate("users"));
    assert_eq!(copy.authorization(), "Bearer secret");
    assert_eq!(copy.user_agent(), "octo-notes");
}
