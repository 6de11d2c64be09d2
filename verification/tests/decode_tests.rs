use algorithmia::data::file::{FileAdded, FileDeleted};
use algorithmia::data::dir::{DirectoryDeleted, DirectoryShow, DirectoryUpdated};
use algorithmia::error::Error;
use algorithmia::json_helpers::{decode, decode_response, decode_to_error};

#[test]
fn non_success_status_with_envelope_yields_api_error() {
    let body = "{\"error\":{\"message\":\"boom\"}}";
    let r: Result<FileAdded, Error> = decode_response(false, body);
    match r {
        Err(Error::ApiError { message, stacktrace }) => {
            assert_eq!(message, "boom");
            assert!(stacktrace.is_none());
        },
        _ => panic!("expected an ApiError"),
    }
}

#[test]
fn success_status_with_envelope_body_yields_api_error() {
    let body = "{\"error\":{\"message\":\"boom\",\"stacktrace\":\"at line 1\"}}";
    let r: Result<FileAdded, Error> = decode_response(true, body);
    match r {
        Err(Error::ApiError { message, stacktrace }) => {
            assert_eq!(message, "boom");
            assert_eq!(stacktrace.as_deref(), Some("at line 1"));
        },
        _ => panic!("expected an ApiError, not a decode failure"),
    }
}

#[test]
fn success_body_wins_over_envelope_fallback() {
    let body = "{\"result\":\"data://a/b/c.txt\"}";
    let r: Result<FileAdded, Error> = decode_response(true, body);
    assert_eq!(r.unwrap().result, "data://a/b/c.txt");
}

#[test]
fn undecodable_body_keeps_raw_body() {
    let body = "not json at all";
    let r: Result<FileAdded, Error> = decode_response(true, body);
    match r {
        Err(Error::DecodeFailure { raw_body }) => assert_eq!(raw_body, body),
        _ => panic!("expected a DecodeFailure"),
    }
}

#[test]
fn wrong_shape_under_failing_status_keeps_raw_body() {
    let body = "{\"unrelated\":true}";
    match decode_to_error(body) {
        Error::DecodeFailure { raw_body } => assert_eq!(raw_body, body),
        _ => panic!("expected a DecodeFailure"),
    }
}

#[test]
fn envelope_with_non_string_stacktrace_is_not_an_envelope() {
    let body = "{\"error\":{\"message\":\"boom\",\"stacktrace\":42}}";
    match decode_to_error(body) {
        Error::DecodeFailure { raw_body } => assert_eq!(raw_body, body),
        _ => panic!("expected a DecodeFailure"),
    }
}

#[test]
fn file_deleted_reports_count() {
    let body = "{\"result\":{\"deleted\":2}}";
    let r: FileDeleted = decode(body).unwrap();
    assert_eq!(r.result.deleted, 2);
}

#[test]
fn directory_deleted_reports_count() {
    let body = "{\"result\":{\"deleted\":42}}";
    let r: DirectoryDeleted = decode_response(true, body).unwrap();
    assert_eq!(r.result.deleted, 42);
}

#[test]
fn directory_updated_reads_acl() {
    let body = "{\"acl\":{\"read\":[\"user://Ann\"]}}";
    let r: DirectoryUpdated = decode(body).unwrap();
    assert_eq!(r.acl.unwrap().read, vec![String::from("user://Ann")]);
}

#[test]
fn directory_page_with_missing_fields_is_empty() {
    let body = "{}";
    let page: DirectoryShow = decode(body).unwrap();
    assert!(page.folders.is_none());
    assert!(page.files.is_none());
    assert!(page.marker.is_none());
    assert!(page.acl.is_none());
}

#[test]
fn file_size_at_u64_max_decodes() {
    let body = "{\"files\":[{\"filename\":\"f\",\"size\":18446744073709551615,\
                \"last_modified\":\"2020-01-01T00:00:00Z\"}]}";
    let page: DirectoryShow = decode(body).unwrap();
    assert_eq!(page.files.unwrap()[0].size, 18446744073709551615u64);
}

#[test]
fn file_with_bad_date_fails_to_decode() {
    let body = "{\"files\":[{\"filename\":\"f\",\"size\":1,\
                \"last_modified\":\"not a date\"}]}";
    let page: Result<DirectoryShow, Error> = decode(body);
    assert!(page.is_err());
}
