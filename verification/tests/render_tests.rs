use scrape_core::render::{extracted_page, fallback_page, page_from_members, read_text};
use serde_json::{Number, Value};

fn text(value: &str) -> Value {
    Value::String(value.to_string())
}

fn record(members: Vec<(&str, Value)>) -> Value {
    let mut map = serde_json::Map::new();
    for (key, value) in members {
        map.insert(key.to_string(), value);
    }
    Value::Object(map)
}

#[test]
fn a_full_record_gives_every_field() {
    let value = record(vec![
        ("content", text("  Main   text\nof the page ")),
        ("title", text(" A   Title ")),
        ("publishedDate", text("2024-05-01T10:00:00Z")),
        ("author", text("Ada Lovelace")),
    ]);
    let page = extracted_page("https://news.example.org/a/1", &value);
    assert_eq!(page.url(), "https://news.example.org/a/1");
    assert_eq!(page.title(), "A Title");
    assert_eq!(page.content(), "Main text of the page");
    assert_eq!(page.metadata().word_count(), 5);
    assert_eq!(page.metadata().domain(), "news.example.org");
    assert_eq!(page.metadata().published_date(), &Some("2024-05-01T10:00:00Z".to_string()));
    assert_eq!(page.metadata().author(), &Some("Ada Lovelace".to_string()));
}

#[test]
fn missing_members_take_their_defaults() {
    let page = extracted_page("https://example.com", &record(vec![]));
    assert_eq!(page.title(), "Untitled");
    assert_eq!(page.content(), "");
    assert_eq!(page.metadata().word_count(), 0);
    assert_eq!(page.metadata().published_date(), &None);
    assert_eq!(page.metadata().author(), &None);
}

#[test]
fn members_that_are_no_strings_count_as_missing() {
    let value = record(vec![
        ("content", Value::Number(Number::from(7))),
        ("title", Value::Null),
        ("publishedDate", Value::Null),
        ("author", Value::Bool(true)),
    ]);
    let page = extracted_page("https://example.com", &value);
    assert_eq!(page.title(), "Untitled");
    assert_eq!(page.content(), "");
    assert_eq!(page.metadata().published_date(), &None);
    assert_eq!(page.metadata().author(), &None);
}

#[test]
fn an_empty_title_stays_empty() {
    let value = record(vec![("content", text("body")), ("title", text(""))]);
    let page = extracted_page("https://example.com", &value);
    assert_eq!(page.title(), "");
    assert_eq!(page.content(), "body");
}

#[test]
fn a_value_that_is_no_record_gives_an_empty_page() {
    for value in [text("content"), Value::Null, Value::Array(vec![text("content")])] {
        let page = extracted_page("https://example.com", &value);
        assert_eq!(page.title(), "Untitled");
        assert_eq!(page.content(), "");
        assert_eq!(page.metadata().word_count(), 0);
    }
}

#[test]
fn keys_are_matched_exactly() {
    let value = record(vec![("Content", text("wrong key")), ("published_date", text("x"))]);
    let page = extracted_page("https://example.com", &value);
    assert_eq!(page.content(), "");
    assert_eq!(page.metadata().published_date(), &None);
}

#[test]
fn read_text_reads_strings_only() {
    assert_eq!(read_text(&Some(text("body text"))), Some("body text".to_string()));
    assert_eq!(read_text(&Some(text(""))), Some(String::new()));
    assert_eq!(read_text(&Some(Value::Null)), None);
    assert_eq!(read_text(&Some(Value::Number(Number::from(1)))), None);
    assert_eq!(read_text(&Some(record(vec![("a", text("b"))]))), None);
    assert_eq!(read_text(&None), None);
}

#[test]
fn fallback_page_has_neither_date_nor_author() {
    let page = fallback_page("https://example.com/p", " body   text ", Some(" T ".to_string()));
    assert_eq!(page.title(), "T");
    assert_eq!(page.content(), "body text");
    assert_eq!(page.metadata().word_count(), 2);
    assert_eq!(page.metadata().domain(), "example.com");
    assert_eq!(page.metadata().published_date(), &None);
    assert_eq!(page.metadata().author(), &None);
}

#[test]
fn fallback_page_without_title_is_untitled() {
    let page = fallback_page("https://example.com/p", "body", None);
    assert_eq!(page.title(), "Untitled");
}

#[test]
fn a_page_from_its_members() {
    let page = page_from_members(
        "https://example.com/a",
        Some(" one  two ".to_string()),
        Some(" T ".to_string()),
        Some("2024-01-01".to_string()),
        None,
    );
    assert_eq!(page.content(), "one two");
    assert_eq!(page.title(), "T");
    assert_eq!(page.metadata().published_date(), &Some("2024-01-01".to_string()));
    assert_eq!(page.metadata().author(), &None);
    assert_eq!(page.metadata().word_count(), 2);
    let page = page_from_members("https://example.com/a", None, None, None, None);
    assert_eq!(page.content(), "");
    assert_eq!(page.title(), "Untitled");
}
