use std::collections::HashMap;
use store_viewer::http::HttpResponse;
use store_viewer::service::{
    content_read, handle_request, label_resolved, label_written, labels_listed, status_of,
    ErrorKind, Step, StoreCall, ViewerState,
};

/// An in-memory label store: labels point at content references.
struct MemoryStore {
    labels: HashMap<String, String>,
    contents: HashMap<String, Vec<u8>>,
    next: u64,
    fail: bool,
}

impl MemoryStore {
    fn new() -> Self {
        MemoryStore { labels: HashMap::new(), contents: HashMap::new(), next: 0, fail: false }
    }
}

fn run(store: &mut MemoryStore, method: &str, uri: &str, body: Option<&[u8]>) -> HttpResponse {
    let mut step = handle_request(method, uri, body);
    loop {
        match step {
            Step::Respond(r) => return r,
            Step::Call(StoreCall::ListLabels) => {
                if store.fail {
                    return labels_listed(Err("store offline".to_string()));
                }
                return labels_listed(Ok(store.labels.keys().cloned().collect()));
            }
            Step::Call(StoreCall::Resolve { label }) => {
                let outcome = if store.fail {
                    Err("store offline".to_string())
                } else {
                    Ok(store.labels.get(&label).cloned())
                };
                step = label_resolved(&label, outcome);
            }
            Step::Call(StoreCall::Read { label, content_ref }) => {
                let outcome = store
                    .contents
                    .get(&content_ref)
                    .cloned()
                    .ok_or_else(|| "content missing".to_string());
                return content_read(&label, outcome);
            }
            Step::Call(StoreCall::Write { label, content }) => {
                if store.fail {
                    return label_written(Err("store offline".to_string()));
                }
                store.next += 1;
                let reference = format!("ref-{}", store.next);
                store.contents.insert(reference.clone(), content);
                store.labels.insert(label, reference);
                return label_written(Ok(()));
            }
        }
    }
}

fn body_text(r: &HttpResponse) -> String {
    String::from_utf8(r.body.clone().unwrap()).unwrap()
}

fn content_type(r: &HttpResponse) -> String {
    assert_eq!(r.headers.len(), 1);
    assert_eq!(r.headers[0].0, "Content-Type");
    r.headers[0].1.clone()
}

#[test]
fn create_then_get_short_label() {
    let mut store = MemoryStore::new();
    let r = run(&mut store, "POST", "/api/labels", Some(br#"{"name":"foo","content":"hello"}"#));
    assert_eq!(r.status, 200);
    assert_eq!(body_text(&r), r#"{"success":true}"#);
    let r = run(&mut store, "GET", "/api/labels/foo", None);
    assert_eq!(r.status, 200);
    assert_eq!(content_type(&r), "application/json");
    // Five characters: a tenth rounds down to zero, so the content is binary.
    assert_eq!(
        body_text(&r),
        r#"{"name":"foo","content":"aGVsbG8=","is_text":false,"size_bytes":5}"#
    );
}

#[test]
fn create_then_get_text_label() {
    let mut store = MemoryStore::new();
    let r = run(
        &mut store,
        "POST",
        "/api/labels",
        Some(br#"{"name":"foo","content":"hello, world"}"#),
    );
    assert_eq!(r.status, 200);
    let r = run(&mut store, "GET", "/api/labels/foo", None);
    assert_eq!(r.status, 200);
    assert_eq!(
        body_text(&r),
        r#"{"name":"foo","content":"hello, world","is_text":true,"size_bytes":12}"#
    );
}

#[test]
fn create_with_empty_name_is_rejected() {
    let mut store = MemoryStore::new();
    let r = run(&mut store, "POST", "/api/labels", Some(br#"{"name":"","content":"x"}"#));
    assert_eq!(r.status, 400);
    assert_eq!(content_type(&r), "application/json");
    assert_eq!(body_text(&r), r#"{"error":"Label name cannot be empty"}"#);
    assert!(store.labels.is_empty());
}

#[test]
fn create_without_body_is_rejected() {
    let mut store = MemoryStore::new();
    let r = run(&mut store, "POST", "/api/labels", None);
    assert_eq!(r.status, 400);
    assert_eq!(body_text(&r), r#"{"error":"Request body is required"}"#);
}

#[test]
fn create_with_invalid_json_is_rejected() {
    let mut store = MemoryStore::new();
    let r = run(&mut store, "POST", "/api/labels", Some(b"not json"));
    assert_eq!(r.status, 400);
    assert_eq!(
        body_text(&r),
        r#"{"error":"Invalid JSON: expected an object with string members"}"#
    );
    let r = run(&mut store, "POST", "/api/labels", Some(br#"{"name":"a"}"#));
    assert_eq!(r.status, 400);
    let r = run(&mut store, "POST", "/api/labels", Some(br#"{"name":"a","content":3}"#));
    assert_eq!(r.status, 400);
    assert!(store.labels.is_empty());
}

#[test]
fn update_replaces_content() {
    let mut store = MemoryStore::new();
    run(&mut store, "POST", "/api/labels", Some(br#"{"name":"foo","content":"original text"}"#));
    let r = run(&mut store, "PUT", "/api/labels/foo", Some(br#"{"content":"updated"}"#));
    assert_eq!(r.status, 200);
    assert_eq!(body_text(&r), r#"{"success":true}"#);
    let r = run(&mut store, "GET", "/api/labels/foo", None);
    assert_eq!(r.status, 200);
    let text = body_text(&r);
    assert!(!text.contains("original text"));
    // "updated" has seven characters, so it is shown as base64.
    assert_eq!(text, r#"{"name":"foo","content":"dXBkYXRlZA==","is_text":false,"size_bytes":7}"#);
}

#[test]
fn update_with_invalid_body_is_rejected() {
    let mut store = MemoryStore::new();
    let r = run(&mut store, "PUT", "/api/labels/foo", Some(br#"{"text":"x"}"#));
    assert_eq!(r.status, 400);
    let r = run(&mut store, "PUT", "/api/labels/foo", None);
    assert_eq!(r.status, 400);
    assert!(store.labels.is_empty());
}

#[test]
fn get_missing_label_is_not_found() {
    let mut store = MemoryStore::new();
    let r = run(&mut store, "GET", "/api/labels/does-not-exist", None);
    assert_eq!(r.status, 404);
    assert_eq!(content_type(&r), "application/json");
    assert_eq!(body_text(&r), r#"{"error":"Label not found: does-not-exist"}"#);
}

#[test]
fn list_labels_after_creating_three() {
    let mut store = MemoryStore::new();
    for name in ["a", "b", "c"] {
        let body = format!(r#"{{"name":"{}","content":"x"}}"#, name);
        let r = run(&mut store, "POST", "/api/labels", Some(body.as_bytes()));
        assert_eq!(r.status, 200);
    }
    let r = run(&mut store, "GET", "/api/labels", None);
    assert_eq!(r.status, 200);
    let names: Vec<String> = serde_json::from_str(&body_text(&r)).unwrap();
    let mut sorted = names.clone();
    sorted.sort();
    assert_eq!(sorted, vec!["a".to_string(), "b".to_string(), "c".to_string()]);
}

#[test]
fn list_labels_empty_store() {
    let mut store = MemoryStore::new();
    let r = run(&mut store, "GET", "/api/labels", None);
    assert_eq!(r.status, 200);
    assert_eq!(body_text(&r), "[]");
}

#[test]
fn unknown_path_is_plain_not_found() {
    let mut store = MemoryStore::new();
    let r = run(&mut store, "GET", "/nonexistent-path", None);
    assert_eq!(r.status, 404);
    assert_eq!(content_type(&r), "text/plain");
    assert_eq!(body_text(&r), "Not Found");
    let r = run(&mut store, "DELETE", "/api/labels/foo", None);
    assert_eq!(r.status, 404);
    let r = run(&mut store, "GET", "/api/labels/", None);
    assert_eq!(r.status, 404);
}

#[test]
fn label_names_may_hold_slashes_and_queries_are_ignored() {
    let mut store = MemoryStore::new();
    let r = run(&mut store, "PUT", "/api/labels/dir/file.txt?x=1", Some(br#"{"content":"some text here"}"#));
    assert_eq!(r.status, 200);
    assert!(store.labels.contains_key("dir/file.txt"));
    let r = run(&mut store, "GET", "/api/labels/dir/file.txt?y=2", None);
    assert_eq!(
        body_text(&r),
        r#"{"name":"dir/file.txt","content":"some text here","is_text":true,"size_bytes":14}"#
    );
}

#[test]
fn store_failures_map_to_statuses() {
    let mut store = MemoryStore::new();
    store.fail = true;
    let r = run(&mut store, "GET", "/api/labels", None);
    assert_eq!(r.status, 500);
    assert_eq!(body_text(&r), r#"{"error":"store offline"}"#);
    let r = run(&mut store, "GET", "/api/labels/foo", None);
    assert_eq!(r.status, 404);
    assert_eq!(body_text(&r), r#"{"error":"store offline"}"#);
    let r = run(&mut store, "POST", "/api/labels", Some(br#"{"name":"a","content":"b"}"#));
    assert_eq!(r.status, 500);
    let r = run(&mut store, "PUT", "/api/labels/a", Some(br#"{"content":"b"}"#));
    assert_eq!(r.status, 500);
}

#[test]
fn read_failure_is_not_found() {
    let r = content_read("foo", Err("content missing".to_string()));
    assert_eq!(r.status, 404);
    assert_eq!(body_text(&r), r#"{"error":"content missing"}"#);
}

#[test]
fn static_assets_are_served() {
    let mut store = MemoryStore::new();
    let r = run(&mut store, "GET", "/", None);
    assert_eq!((r.status, content_type(&r).as_str()), (200, "text/html"));
    assert!(body_text(&r).contains("<html>"));
    let r = run(&mut store, "GET", "/app.css", None);
    assert_eq!((r.status, content_type(&r).as_str()), (200, "text/css"));
    let r = run(&mut store, "GET", "/app.js?v=2", None);
    assert_eq!((r.status, content_type(&r).as_str()), (200, "application/javascript"));
    let r = run(&mut store, "POST", "/", None);
    assert_eq!(r.status, 404);
}

#[test]
fn error_kinds_have_statuses() {
    assert_eq!(status_of(ErrorKind::Validation), 400);
    assert_eq!(status_of(ErrorKind::NotFound), 404);
    assert_eq!(status_of(ErrorKind::Backend), 500);
    assert_eq!(status_of(ErrorKind::Serialization), 500);
}

#[test]
fn viewer_state_names_its_store() {
    let s = ViewerState::new(7);
    assert_eq!(s.store_id, "store-viewer");
    assert_eq!(s.server_id, 7);
}
