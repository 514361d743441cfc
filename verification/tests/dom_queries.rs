use rawkuma_scraper::dom::{compile, select_all, select_first, required_attr, all_text};
use rawkuma_scraper::error::Error;
use scraper::Html;

#[test]
fn compile_accepts_valid_pattern() {
    assert!(compile("div#content").is_ok());
}

#[test]
fn compile_reports_invalid_pattern() {
    match compile("div[") {
        Err(Error::SelectorCompileError { pattern, cause }) => {
            assert_eq!(pattern, "div[");
            assert!(!cause.is_empty());
        }
        _ => panic!("expected a selector compile error"),
    }
}

#[test]
fn select_all_keeps_document_order() {
    let html = Html::parse_fragment("<ul><li id=\"a\">1</li><li id=\"b\">2</li><li id=\"c\">3</li></ul>");
    let root = html.root_element();
    let found = select_all(&root, "li").unwrap();
    let ids: Vec<String> = found.iter().map(|e| required_attr(e, "id", "li").unwrap()).collect();
    assert_eq!(ids, vec!["a".to_string(), "b".to_string(), "c".to_string()]);
}

#[test]
fn select_first_reports_absence_under_description() {
    let html = Html::parse_fragment("<div><p>x</p></div>");
    let root = html.root_element();
    match select_first(&root, "img", "the image") {
        Err(Error::ElementNotFound(d)) => assert_eq!(d, "the image"),
        _ => panic!("expected ElementNotFound"),
    }
}

#[test]
fn all_text_joins_text_nodes() {
    let html = Html::parse_fragment("<h1>One <b>Two</b> Three</h1>");
    let root = html.root_element();
    let h1 = select_first(&root, "h1", "h1").unwrap();
    assert_eq!(all_text(&h1), "One Two Three");
}
