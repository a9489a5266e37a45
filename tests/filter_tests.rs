use mongodb::bson::{Bson, Document};
use mongonaut::filter::{live_filter, parse_filter, search_fields};

fn sample() -> Document {
    let mut d = Document::new();
    d.insert("_id", "1");
    d.insert("name", "Alice");
    d.insert("age", 30);
    d
}

fn condition(field: &str, text: &str) -> Document {
    let mut inner = Document::new();
    inner.insert("$regex", text);
    inner.insert("$options", "i");
    let mut c = Document::new();
    c.insert(field, inner);
    c
}

#[test]
fn live_filter_searches_every_field_but_the_identity() {
    let f = live_filter(&sample(), "ali").expect("a filter");
    let mut expected = Document::new();
    expected.insert("$or", vec![condition("name", "ali"), condition("age", "ali")]);
    assert_eq!(f, expected);
    let clauses = f.get_array("$or").unwrap();
    assert_eq!(clauses.len(), 2);
    for c in clauses {
        if let Bson::Document(d) = c {
            assert!(!d.contains_key("_id"));
        } else {
            panic!("not a document");
        }
    }
}

#[test]
fn live_filter_with_only_identity_gives_none() {
    let mut d = Document::new();
    d.insert("_id", "7");
    assert!(live_filter(&d, "x").is_none());
    assert!(live_filter(&Document::new(), "x").is_none());
}

#[test]
fn search_fields_drop_identity() {
    let keys = vec!["_id".to_string(), "a".to_string(), "b".to_string()];
    assert_eq!(search_fields(&keys), vec!["a", "b"]);
    assert!(search_fields(&vec!["_id".to_string()]).is_empty());
}

#[test]
fn malformed_structured_query_is_rejected() {
    let r = parse_filter("{\"status\": \"active\"");
    assert!(r.is_err());
    assert!(r.unwrap_err().starts_with("Invalid filter: "));
}

#[test]
fn well_formed_structured_query_is_read() {
    let d = parse_filter("{\"status\": \"active\"}").unwrap();
    assert_eq!(d.get_str("status").unwrap(), "active");
    assert!(parse_filter("[1, 2]").is_err());
}
