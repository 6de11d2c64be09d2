use algorithmia::Algorithmia;
use algorithmia::data::HasDataPath;
use algorithmia::error::Error;

fn mock_client() -> Algorithmia {
    Algorithmia::client("")
}

const BASE: &str = "https://api.algorithmia.com";

#[test]
fn dir_test_to_url() {
    let dir = mock_client().dir("data://anowell/foo");
    assert_eq!(dir.to_url(), format!("{}{}", BASE, "/v1/data/anowell/foo"));
}

#[test]
fn test_to_data_uri() {
    let dir = mock_client().dir("/anowell/foo");
    assert_eq!(dir.to_data_uri(), "data://anowell/foo".to_string());
}

#[test]
fn test_parent() {
    let dir = mock_client().dir("data://anowell/foo");
    let expected = mock_client().dir("data://anowell");
    assert_eq!(
        dir.parent().unwrap().data_path().path(),
        expected.data_path().path()
    );
}

#[test]
fn all_accepted_forms_share_one_canonical_uri() {
    let client = mock_client();
    for form in ["data://a/b", "/a/b", "a/b"] {
        assert_eq!(client.data(form).to_data_uri(), "data://a/b");
    }
}

#[test]
fn parent_and_basename_of_a_two_segment_path() {
    let p = mock_client().data("data://anowell/foo");
    assert_eq!(p.parent().unwrap().to_data_uri(), "data://anowell");
    assert_eq!(p.basename().unwrap(), "foo");
}

#[test]
fn single_segment_path_has_no_parent() {
    let p = mock_client().data("data://anowell");
    assert!(p.parent().is_none());
    assert_eq!(p.basename().unwrap(), "anowell");
}

#[test]
fn empty_path_has_neither_parent_nor_basename() {
    let p = mock_client().data("");
    assert!(p.parent().is_none());
    assert!(p.basename().is_none());
}

#[test]
fn child_appends_one_segment() {
    let p = mock_client().data("data://anowell");
    let c = p.child("foo").unwrap();
    assert_eq!(c.to_data_uri(), "data://anowell/foo");
}

#[test]
fn child_with_slash_is_invalid() {
    let p = mock_client().data("data://anowell");
    match p.child("a/b") {
        Err(Error::InvalidPath { path }) => assert_eq!(path, "a/b"),
        _ => panic!("expected an InvalidPath"),
    }
}

#[test]
fn file_endpoint_addresses_like_dir_endpoint() {
    let f = mock_client().file("data://anowell/foo/bar.txt");
    assert_eq!(f.to_url(), format!("{}/v1/data/anowell/foo/bar.txt", BASE));
    assert_eq!(f.basename().unwrap(), "bar.txt");
    assert_eq!(f.parent().unwrap().to_data_uri(), "data://anowell/foo");
}

#[test]
fn alt_client_uses_its_base_url() {
    let client = Algorithmia::alt_client("http://localhost:8080", "k");
    assert_eq!(client.base_url(), "http://localhost:8080");
    assert_eq!(client.api_key(), "k");
    let dir = client.dir("data://x/y");
    assert_eq!(dir.to_url(), "http://localhost:8080/v1/data/x/y");
}

#[test]
fn create_request_posts_to_parent() {
    let dir = mock_client().dir("data://anowell/foo");
    let (url, body) = dir.create_request().unwrap();
    assert_eq!(url, format!("{}/v1/data/anowell", BASE));
    assert_eq!(body, "{\"name\":\"foo\",\"acl\":{\"read\":[]}}");
}

#[test]
fn create_request_escapes_the_name() {
    let dir = mock_client().dir("data://anowell/a\"b\\c");
    let (_, body) = dir.create_request().unwrap();
    assert_eq!(body, "{\"name\":\"a\\\"b\\\\c\",\"acl\":{\"read\":[]}}");
}

#[test]
fn create_request_escapes_control_characters() {
    let dir = mock_client().dir("data://anowell/a\nb");
    let (_, body) = dir.create_request().unwrap();
    assert_eq!(body, "{\"name\":\"a\\nb\",\"acl\":{\"read\":[]}}");
}

#[test]
fn create_request_without_parent_is_invalid() {
    let dir = mock_client().dir("data://anowell");
    match dir.create_request() {
        Err(Error::InvalidPath { path }) => assert_eq!(path, "anowell"),
        _ => panic!("expected an InvalidPath"),
    }
}

#[test]
fn create_response_only_fails_on_failing_status() {
    let dir = mock_client().dir("data://anowell/foo");
    assert!(dir.create_response(true, "").is_ok());
    match dir.create_response(false, "{\"error\":{\"message\":\"denied\"}}") {
        Err(Error::ApiError { message, .. }) => assert_eq!(message, "denied"),
        _ => panic!("expected an ApiError"),
    }
}

#[test]
fn delete_url_carries_the_force_flag() {
    let dir = mock_client().dir("data://anowell/foo");
    assert_eq!(
        dir.delete_url(true),
        format!("{}/v1/data/anowell/foo?force=true", BASE)
    );
    assert_eq!(
        dir.delete_url(false),
        format!("{}/v1/data/anowell/foo?force=false", BASE)
    );
}

#[test]
fn put_file_url_appends_the_filename() {
    let dir = mock_client().dir("data://anowell/foo");
    assert_eq!(
        dir.put_file_url("bar.txt"),
        format!("{}/v1/data/anowell/foo/bar.txt", BASE)
    );
}

#[test]
fn file_get_metadata_reads_headers() {
    let f = mock_client().file("data://anowell/foo/bar.txt");
    let m = f
        .get_metadata(true, "200 OK", Some("file"), Some(7), Some("2020-01-01T00:00:00Z"))
        .unwrap();
    assert_eq!(m.size, 7);
    assert_eq!(m.last_modified, 1577836800);
}

#[test]
fn file_get_metadata_uses_fallbacks() {
    let f = mock_client().file("data://anowell/foo/bar.txt");
    let m = f.get_metadata(true, "200 OK", None, None, None).unwrap();
    assert_eq!(m.size, 0);
    assert_eq!(m.last_modified, 1426320000);
}

#[test]
fn file_get_metadata_rejects_a_directory() {
    let f = mock_client().file("data://anowell/foo");
    match f.get_metadata(true, "200 OK", Some("directory"), None, None) {
        Err(Error::UnexpectedDataType { expected, actual }) => {
            assert_eq!(expected, "file");
            assert_eq!(actual, "directory");
        },
        _ => panic!("expected an UnexpectedDataType"),
    }
}

#[test]
fn file_get_metadata_surfaces_failing_status() {
    let f = mock_client().file("data://anowell/foo/bar.txt");
    match f.get_metadata(false, "404 Not Found", None, None, None) {
        Err(Error::ApiError { message, stacktrace }) => {
            assert_eq!(message, "404 Not Found");
            assert!(stacktrace.is_none());
        },
        _ => panic!("expected an ApiError"),
    }
}
