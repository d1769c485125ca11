use slack_http::page::ResponseMetadata;
use slack_http::{Cursor, Limit, Page};

#[test]
fn limit_bounds() {
    assert!(Limit::new(0).is_none());
    assert!(Limit::new(1001).is_none());
    assert!(Limit::new(u16::MAX).is_none());
    assert_eq!(Limit::new(1000).unwrap().get(), 1000);
    assert_eq!(Limit::new(1).unwrap().get(), 1);
    assert_eq!(Limit::new(2).unwrap().get(), 2);
}

#[test]
fn default_limit_is_100() {
    assert_eq!(Limit::default().get(), 100);
}

#[test]
fn empty_next_cursor_is_the_first_page_cursor() {
    let first = Cursor::none();
    let read = Cursor::from(ResponseMetadata { next_cursor: String::new() });
    assert!(first.is_none());
    assert!(read.is_none());
    assert_eq!(first.as_str(), read.as_str());
    assert_eq!(read.as_str(), "");
    assert_eq!(read.get(), "");
}

#[test]
fn non_empty_next_cursor_is_kept() {
    let read = Cursor::from(ResponseMetadata { next_cursor: "dXNlcjpVMDYxTkZUVDI=".to_string() });
    assert!(!read.is_none());
    assert_eq!(read.as_str(), "dXNlcjpVMDYxTkZUVDI=");
    assert_eq!(read.get(), "dXNlcjpVMDYxTkZUVDI=");
}

#[test]
fn page_keeps_results_and_cursor() {
    let page = Page::new(vec![3, 1, 2], Cursor::from(ResponseMetadata { next_cursor: "abc".to_string() }));
    assert_eq!(page.results(), &[3, 1, 2]);
    assert_eq!(page.cursor().as_str(), "abc");
    let empty: Page<u8> = Page::new(Vec::new(), Cursor::none());
    assert!(empty.results().is_empty());
    assert!(empty.cursor().is_none());
}
