use algorithmia::Algorithmia;
use algorithmia::data::HasDataPath;
use algorithmia::data::dir::{DirEntry, ListStep};
use algorithmia::error::Error;

const BASE: &str = "https://api.algorithmia.com";

#[test]
fn listing_yields_dirs_then_files_across_two_pages() {
    let client = Algorithmia::client("");
    let dir = client.dir("data://anowell/foo");
    let mut listing = dir.list();

    let page1 = "{\"folders\":[{\"name\":\"x\"}],\"files\":[],\"marker\":\"m1\"}";
    let page2 = "{\"folders\":[],\"files\":[{\"filename\":\"f.txt\",\"size\":3,\
                 \"last_modified\":\"2020-01-01T00:00:00Z\"}],\"marker\":null}";

    let mut fetches: usize = 0;
    let mut seen: Vec<String> = Vec::new();
    loop {
        match listing.next_step() {
            ListStep::Fetch(url) => {
                if fetches == 0 {
                    assert_eq!(url, format!("{}/v1/data/anowell/foo", BASE));
                    listing.feed_page(true, Some("directory"), page1).unwrap();
                } else if fetches == 1 {
                    assert_eq!(url, format!("{}/v1/data/anowell/foo?marker=m1", BASE));
                    listing.feed_page(true, Some("directory"), page2).unwrap();
                } else {
                    panic!("more than two page fetches");
                }
                fetches += 1;
            },
            ListStep::Entry(DirEntry::Dir(d)) => {
                assert_eq!(d.to_data_uri(), "data://anowell/foo/x");
                seen.push(String::from("dir x"));
            },
            ListStep::Entry(DirEntry::File(f)) => {
                assert_eq!(f.size, 3);
                assert_eq!(f.last_modified, 1577836800);
                assert_eq!(f.file.basename().unwrap(), "f.txt");
                assert_eq!(f.file.to_data_uri(), "data://anowell/foo/f.txt");
                seen.push(String::from("file f.txt"));
            },
            ListStep::End => break,
        }
    }
    assert_eq!(fetches, 2);
    assert_eq!(listing.pages_fetched(), 2);
    assert_eq!(seen, vec![String::from("dir x"), String::from("file f.txt")]);
}

#[test]
fn listing_on_a_file_fails_before_any_entry() {
    let client = Algorithmia::client("");
    let dir = client.dir("data://anowell/foo");
    let mut listing = dir.list();

    match listing.next_step() {
        ListStep::Fetch(_) => {},
        _ => panic!("a fresh listing must start with a fetch"),
    }
    match listing.feed_page(true, Some("file"), "{}") {
        Err(Error::UnexpectedDataType { expected, actual }) => {
            assert_eq!(expected, "directory");
            assert_eq!(actual, "file");
        },
        _ => panic!("expected an UnexpectedDataType"),
    }
    assert!(matches!(listing.next_step(), ListStep::End));
}

#[test]
fn listing_kind_is_only_checked_on_the_first_page() {
    let client = Algorithmia::client("");
    let dir = client.dir("data://anowell/foo");
    let mut listing = dir.list();

    let page1 = "{\"folders\":[{\"name\":\"x\"}],\"marker\":\"m1\"}";
    assert!(matches!(listing.next_step(), ListStep::Fetch(_)));
    listing.feed_page(true, Some("directory"), page1).unwrap();
    assert!(matches!(
        listing.next_step(),
        ListStep::Entry(DirEntry::Dir(_))
    ));
    assert!(matches!(listing.next_step(), ListStep::Fetch(_)));
    listing.feed_page(true, Some("file"), "{}").unwrap();
    assert!(matches!(listing.next_step(), ListStep::End));
}

#[test]
fn listing_single_page_without_marker_ends() {
    let client = Algorithmia::client("");
    let dir = client.dir("data://anowell/foo");
    let mut listing = dir.list();

    let page = "{\"folders\":[{\"name\":\"a\"},{\"name\":\"b\"}]}";
    assert!(matches!(listing.next_step(), ListStep::Fetch(_)));
    listing.feed_page(true, Some("directory"), page).unwrap();

    let names: Vec<String> = (0..2)
        .map(|_| match listing.next_step() {
            ListStep::Entry(DirEntry::Dir(d)) => d.basename().unwrap(),
            _ => panic!("expected a directory entry"),
        })
        .collect();
    assert_eq!(names, vec![String::from("a"), String::from("b")]);
    assert!(matches!(listing.next_step(), ListStep::End));
    assert_eq!(listing.pages_fetched(), 1);
}

#[test]
fn listing_failed_page_ends_the_traversal() {
    let client = Algorithmia::client("");
    let dir = client.dir("data://anowell/foo");
    let mut listing = dir.list();

    assert!(matches!(listing.next_step(), ListStep::Fetch(_)));
    match listing.feed_page(false, None, "{\"error\":{\"message\":\"gone\"}}") {
        Err(Error::ApiError { message, .. }) => assert_eq!(message, "gone"),
        _ => panic!("expected an ApiError"),
    }
    assert!(matches!(listing.next_step(), ListStep::End));
}

#[test]
fn listing_undecodable_page_keeps_raw_body() {
    let client = Algorithmia::client("");
    let dir = client.dir("data://anowell/foo");
    let mut listing = dir.list();

    assert!(matches!(listing.next_step(), ListStep::Fetch(_)));
    match listing.feed_page(true, Some("directory"), "<html>") {
        Err(Error::DecodeFailure { raw_body }) => assert_eq!(raw_body, "<html>"),
        _ => panic!("expected a DecodeFailure"),
    }
    assert!(matches!(listing.next_step(), ListStep::End));
}
