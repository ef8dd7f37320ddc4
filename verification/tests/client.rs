use todo_client::command::{Command, HttpMethod, RequestDescriptor, TodoPayload, dispatch};
use todo_client::response::{ResponseOutcome, classify_response, handle_response, render_outcome};

/// Remove ANSI escape sequences, so that assertions hold whether or not the
/// renderer decided to color its output.
fn strip_ansi(s: &str) -> String {
    let mut out = String::new();
    let mut chars = s.chars();
    while let Some(c) = chars.next() {
        if c == '\u{1b}' {
            for d in chars.by_ref() {
                if d == 'm' {
                    break;
                }
            }
        } else {
            out.push(c);
        }
    }
    out
}

#[test]
fn dispatch_list() {
    let r = dispatch(Command::List);
    assert_eq!(r.method.as_str(), "GET");
    assert_eq!(r.path, "v1/todos");
    assert_eq!(r.body_json(), None);
}

#[test]
fn dispatch_create() {
    let r = dispatch(Command::Create { body: "buy milk".to_string() });
    assert_eq!(r.method.as_str(), "POST");
    assert_eq!(r.path, "v1/todos");
    assert_eq!(r.body_json(), Some("{\"body\":\"buy milk\"}".to_string()));
}

#[test]
fn dispatch_create_escapes_body() {
    let r = dispatch(Command::Create { body: "a\"b\\c".to_string() });
    assert_eq!(r.body_json(), Some("{\"body\":\"a\\\"b\\\\c\"}".to_string()));
}

#[test]
fn dispatch_update_completed() {
    let r = dispatch(Command::Update {
        id: "7".to_string(),
        body: "water plants".to_string(),
        completed: true,
    });
    assert_eq!(r.method.as_str(), "PATCH");
    assert_eq!(r.path, "v1/todos/7");
    assert_eq!(
        r.body_json(),
        Some("{\"body\":\"water plants\",\"completed\":true}".to_string())
    );
}

#[test]
fn dispatch_update_not_completed() {
    let r = dispatch(Command::Update {
        id: "abc".to_string(),
        body: "x".to_string(),
        completed: false,
    });
    assert_eq!(r.path, "v1/todos/abc");
    assert_eq!(r.body_json(), Some("{\"body\":\"x\",\"completed\":false}".to_string()));
}

#[test]
fn dispatch_delete() {
    let r = dispatch(Command::Delete { id: "42".to_string() });
    assert_eq!(r.method.as_str(), "DELETE");
    assert_eq!(r.path, "v1/todos/42");
    assert_eq!(r.body_json(), None);
}

#[test]
fn list_and_create_bodies_have_no_completed_field() {
    let list = dispatch(Command::List);
    assert!(list.body_json().is_none());
    let create = dispatch(Command::Create { body: "b".to_string() });
    assert!(!create.body_json().unwrap().contains("completed"));
    let update = dispatch(Command::Update {
        id: "1".to_string(),
        body: "b".to_string(),
        completed: true,
    });
    let update_body = update.body_json().unwrap();
    assert!(update_body.contains("\"body\":"));
    assert!(update_body.contains("\"completed\":"));
}

#[test]
fn method_names() {
    assert_eq!(HttpMethod::Get.as_str(), "GET");
    assert_eq!(HttpMethod::Post.as_str(), "POST");
    assert_eq!(HttpMethod::Patch.as_str(), "PATCH");
    assert_eq!(HttpMethod::Delete.as_str(), "DELETE");
}

#[test]
fn payload_serializes_without_flag() {
    let p = TodoPayload { body: "t".to_string(), completed: None };
    assert_eq!(p.to_json(), "{\"body\":\"t\"}");
}

#[test]
fn descriptor_body_json_is_payload_json() {
    let d = RequestDescriptor {
        method: HttpMethod::Post,
        path: "v1/todos".to_string(),
        payload: Some(TodoPayload { body: "t".to_string(), completed: Some(false) }),
    };
    assert_eq!(d.body_json(), Some("{\"body\":\"t\",\"completed\":false}".to_string()));
}

#[test]
fn classify_success_keeps_body() {
    let o = classify_response(200, "200 OK".to_string(), "text".to_string());
    assert!(matches!(o, ResponseOutcome::Success { body } if body == "text"));
}

#[test]
fn classify_failure_keeps_status_text() {
    let o = classify_response(404, "404 Not Found".to_string(), "text".to_string());
    assert!(matches!(o, ResponseOutcome::Failure { status_text } if status_text == "404 Not Found"));
}

#[test]
fn success_with_json_body_renders_the_same_json() {
    let out = handle_response(
        200,
        "200 OK".to_string(),
        "{\"id\":\"1\",\"body\":\"x\"}".to_string(),
    )
    .unwrap();
    let plain = strip_ansi(&out);
    // The render is a pretty-print, not the input text handed back.
    assert_ne!(out, "{\"id\":\"1\",\"body\":\"x\"}");
    // Modulo color codes and layout it is the same JSON document.
    let rendered: serde_json::Value = serde_json::from_str(&plain).unwrap();
    let expected: serde_json::Value =
        serde_json::from_str("{\"id\":\"1\",\"body\":\"x\"}").unwrap();
    assert_eq!(rendered, expected);
    assert_eq!(plain, "{\n  \"body\": \"x\",\n  \"id\": \"1\"\n}");
}

#[test]
fn success_with_empty_body_prints_literal_message() {
    let out = handle_response(204, "204 No Content".to_string(), String::new());
    assert_eq!(out, Ok("Operation successful".to_string()));
}

#[test]
fn failure_renders_error_label_and_status_text() {
    let out = handle_response(
        404,
        "404 Not Found".to_string(),
        "{\"detail\":\"ignored\"}".to_string(),
    )
    .unwrap();
    assert!(out.starts_with("Error: "));
    let plain = strip_ansi(&out);
    assert!(plain.contains("404 Not Found"));
    // The response body plays no part in the failure render.
    assert!(!plain.contains("ignored"));
}

#[test]
fn success_with_invalid_json_body_is_an_encoding_error() {
    let out = handle_response(200, "200 OK".to_string(), "not json".to_string());
    let err = out.unwrap_err();
    assert_eq!(err.describe(), "response text is not valid JSON");
}

#[test]
fn render_failure_outcome_quotes_status_text() {
    let out = render_outcome(ResponseOutcome::Failure { status_text: "500 Internal Server Error".to_string() })
        .unwrap();
    let plain = strip_ansi(&out);
    assert_eq!(plain, "Error: \"500 Internal Server Error\"");
}
