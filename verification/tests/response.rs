use resolver::response::{Reply, Response};
use serde_json::Value;

fn parse(text: &str) -> Value {
    serde_json::from_str(text).unwrap()
}

#[test]
fn the_placeholder_has_id_1_and_version_version() {
    let response = Response::placeholder();
    assert_eq!(response.id, "1");
    assert_eq!(response.version, "version");
}

#[test]
fn a_record_is_written_as_an_object_of_two_strings() {
    let document = Response::placeholder().to_json();
    assert_eq!(document, parse(r#"{"id": "1", "version": "version"}"#));
    let members = document.as_object().unwrap();
    assert_eq!(members.len(), 2);
    assert_eq!(members.get("id"), Some(&Value::String("1".to_string())));
    assert_eq!(members.get("version"), Some(&Value::String("version".to_string())));
}

#[test]
fn a_record_is_written_with_its_own_fields() {
    let response = Response { id: "a \"quoted\" id".to_string(), version: "v\u{e9}rsion 2\n".to_string() };
    let document = response.to_json();
    assert_eq!(document["id"].as_str(), Some("a \"quoted\" id"));
    assert_eq!(document["version"].as_str(), Some("v\u{e9}rsion 2\n"));
    assert_eq!(document.as_object().unwrap().len(), 2);
    let empty = Response { id: String::new(), version: String::new() };
    assert_eq!(empty.to_json(), parse(r#"{"id": "", "version": ""}"#));
}

#[test]
fn a_single_reply_is_written_as_its_record() {
    let reply = Reply::Single(Response { id: "7".to_string(), version: "draft".to_string() });
    assert_eq!(reply.to_json(), parse(r#"{"id": "7", "version": "draft"}"#));
}

#[test]
fn a_list_reply_is_written_as_an_array_in_order() {
    let reply = Reply::List(vec![
        Response { id: "1".to_string(), version: "a".to_string() },
        Response { id: "2".to_string(), version: "b".to_string() },
        Response { id: "1".to_string(), version: "a".to_string() },
    ]);
    assert_eq!(
        reply.to_json(),
        parse(r#"[{"id": "1", "version": "a"}, {"id": "2", "version": "b"}, {"id": "1", "version": "a"}]"#)
    );
    assert_eq!(serde_json::to_string(&reply.to_json()).unwrap(),
        r#"[{"id":"1","version":"a"},{"id":"2","version":"b"},{"id":"1","version":"a"}]"#);
}

#[test]
fn an_empty_list_reply_is_written_as_an_empty_array() {
    assert_eq!(Reply::List(Vec::new()).to_json(), parse("[]"));
}

#[test]
fn a_list_of_one_differs_from_the_single_record() {
    let single = Reply::Single(Response::placeholder()).to_json();
    let list = Reply::List(vec![Response::placeholder()]).to_json();
    assert_ne!(single, list);
    assert!(single.is_object());
    assert!(list.is_array());
    assert_eq!(list[0], single);
}
