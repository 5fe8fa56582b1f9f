//! The request handlers, as steps between calls to the external label store.
//!
//! A request starts with `handle_request`. Where it needs the store, the step
//! names the call to make; the caller makes it and hands the outcome to the
//! matching function below, which yields the response (or, after `Resolve`,
//! the next call).
use crate::http::{
    error_response, json_response, HttpResponse, label_response, label_text, not_found_response, responds, serve_app_css,
    serve_app_js, serve_index_html, success_response, success_text, APP_CSS, APP_JS, INDEX_HTML,
};
use crate::json::{error_text, json_member_str, json_str_member, string_array_json, string_array_text, string_views};
use crate::router::{path_of, route, route_kind, route_label, RouteKind};
use vstd::prelude::*;
use vstd::string::*;
use vstd::utf8::*;

verus! {

/// The record the service keeps for its lifetime: the store it serves and
/// the server it answers on. Handling a request never changes it.
pub struct ViewerState {
    pub store_id: String,
    pub server_id: u64,
}

impl ViewerState {
    /// The state of a viewer over the `store-viewer` store.
    pub fn new(server_id: u64) -> (r: ViewerState)
        ensures
            r.store_id@ == "store-viewer"@,
            r.server_id == server_id,
    {
        ViewerState { store_id: "store-viewer".to_owned(), server_id }
    }
}

/// Kinds of failure a request can meet.
#[derive(PartialEq, Eq, Structural, Clone, Copy, Debug)]
pub enum ErrorKind {
    /// The request itself is malformed.
    Validation,
    /// The label does not exist.
    NotFound,
    /// The store failed.
    Backend,
    /// A value could not be encoded or decoded.
    Serialization,
}

pub open spec fn spec_status_of(kind: ErrorKind) -> u16 {
    match kind {
        ErrorKind::Validation => 400,
        ErrorKind::NotFound => 404,
        ErrorKind::Backend => 500,
        ErrorKind::Serialization => 500,
    }
}

/// The HTTP status for a kind of failure.
pub fn status_of(kind: ErrorKind) -> (r: u16)
    ensures
        r == spec_status_of(kind),
{
    match kind {
        ErrorKind::Validation => 400,
        ErrorKind::NotFound => 404,
        ErrorKind::Backend => 500,
        ErrorKind::Serialization => 500,
    }
}

/// A call to the external label store.
pub enum StoreCall {
    /// List all label names.
    ListLabels,
    /// Look up the content reference of a label.
    Resolve { label: String },
    /// Read the content behind a reference, to answer for `label`.
    Read { label: String, content_ref: String },
    /// Store `content` under `label`, creating or overwriting it.
    Write { label: String, content: Vec<u8> },
}

/// What to do next with a request: answer it, or call the store.
pub enum Step {
    Respond(HttpResponse),
    Call(StoreCall),
}

pub open spec fn body_view(body: Option<&[u8]>) -> Option<Seq<u8>> {
    match body {
        Some(b) => Some(b@),
        None => None,
    }
}

pub open spec fn missing_body_message() -> Seq<char> {
    "Request body is required"@
}

pub open spec fn invalid_json_message() -> Seq<char> {
    "Invalid JSON: expected an object with string members"@
}

pub open spec fn empty_name_message() -> Seq<char> {
    "Label name cannot be empty"@
}

pub open spec fn not_found_message(label: Seq<char>) -> Seq<char> {
    "Label not found: "@ + label
}

/// `r` answers with a JSON error of the given status and message.
pub open spec fn is_error(r: Step, status: u16, message: Seq<char>) -> bool {
    r matches Step::Respond(resp) && responds(resp, status, "application/json"@, error_text(message))
}

/// `r` writes the UTF-8 encoding of `content` under `label`.
pub open spec fn is_write(r: Step, label: Seq<char>, content: Seq<char>) -> bool {
    r matches Step::Call(StoreCall::Write { label: l, content: c }) && l@ == label && c@ == encode_utf8(content)
}

/// The step for creating a label from a request body `{name, content}`.
pub open spec fn create_step_is(body: Option<Seq<u8>>, r: Step) -> bool {
    match body {
        None => is_error(r, 400, missing_body_message()),
        Some(b) => match (json_member_str(b, "name"@), json_member_str(b, "content"@)) {
            (Some(name), Some(content)) => if name.len() == 0 {
                is_error(r, 400, empty_name_message())
            } else {
                is_write(r, name, content)
            },
            _ => is_error(r, 400, invalid_json_message()),
        },
    }
}

/// The step for overwriting `label` from a request body `{content}`.
pub open spec fn update_step_is(label: Seq<char>, body: Option<Seq<u8>>, r: Step) -> bool {
    match body {
        None => is_error(r, 400, missing_body_message()),
        Some(b) => match json_member_str(b, "content"@) {
            Some(content) => is_write(r, label, content),
            None => is_error(r, 400, invalid_json_message()),
        },
    }
}

fn validation_error(message: &str) -> (r: Step)
    ensures
        is_error(r, 400, message@),
{
    Step::Respond(error_response(status_of(ErrorKind::Validation), message))
}

/// Creates a label from a request body `{"name": .., "content": ..}`. A
/// missing or malformed body, or an empty name, is answered with 400.
pub fn create_label_step(body: Option<&[u8]>) -> (r: Step)
    ensures
        create_step_is(body_view(body), r),
{
    let b = match body {
        Some(b) => b,
        None => return validation_error("Request body is required"),
    };
    let name = json_str_member(b, "name");
    let content = json_str_member(b, "content");
    match (name, content) {
        (Some(name), Some(content)) => {
            if name.as_str().is_empty() {
                validation_error("Label name cannot be empty")
            } else {
                let bytes = content.as_str().as_bytes_vec();
                Step::Call(StoreCall::Write { label: name, content: bytes })
            }
        },
        _ => validation_error("Invalid JSON: expected an object with string members"),
    }
}

/// Overwrites `label` from a request body `{"content": ..}`.
pub fn update_label_step(label: &str, body: Option<&[u8]>) -> (r: Step)
    ensures
        update_step_is(label@, body_view(body), r),
{
    let b = match body {
        Some(b) => b,
        None => return validation_error("Request body is required"),
    };
    match json_str_member(b, "content") {
        Some(content) => {
            let bytes = content.as_str().as_bytes_vec();
            Step::Call(StoreCall::Write { label: label.to_owned(), content: bytes })
        },
        None => validation_error("Invalid JSON: expected an object with string members"),
    }
}

/// The first step of a request: a fixed response, a validation error, or the
/// store call that the matched route needs.
pub fn handle_request(method: &str, uri: &str, body: Option<&[u8]>) -> (r: Step)
    ensures
        ({
            let path = path_of(uri@);
            let label = route_label(method@, path);
            match route_kind(method@, path) {
                RouteKind::Index => r matches Step::Respond(resp)
                    && responds(resp, 200, "text/html"@, INDEX_HTML@),
                RouteKind::AppCss => r matches Step::Respond(resp)
                    && responds(resp, 200, "text/css"@, APP_CSS@),
                RouteKind::AppJs => r matches Step::Respond(resp)
                    && responds(resp, 200, "application/javascript"@, APP_JS@),
                RouteKind::ListLabels => r matches Step::Call(StoreCall::ListLabels),
                RouteKind::CreateLabel => create_step_is(body_view(body), r),
                RouteKind::GetLabel => r matches Step::Call(StoreCall::Resolve { label: l })
                    && l@ == label,
                RouteKind::UpdateLabel => update_step_is(label, body_view(body), r),
                RouteKind::NotFound => r matches Step::Respond(resp)
                    && responds(resp, 404, "text/plain"@, "Not Found"@),
            }
        }),
{
    let rt = route(method, uri);
    match rt.kind {
        RouteKind::Index => Step::Respond(serve_index_html()),
        RouteKind::AppCss => Step::Respond(serve_app_css()),
        RouteKind::AppJs => Step::Respond(serve_app_js()),
        RouteKind::ListLabels => Step::Call(StoreCall::ListLabels),
        RouteKind::CreateLabel => create_label_step(body),
        RouteKind::GetLabel => Step::Call(StoreCall::Resolve { label: rt.label }),
        RouteKind::UpdateLabel => update_label_step(rt.label.as_str(), body),
        RouteKind::NotFound => Step::Respond(not_found_response()),
    }
}

/// Answers a listing with the store's label names as a JSON array, or a
/// server error with the store's message.
pub fn labels_listed(outcome: Result<Vec<String>, String>) -> (r: HttpResponse)
    ensures
        match outcome {
            Ok(names) => responds(r, 200, "application/json"@, string_array_text(string_views(names@))),
            Err(e) => responds(r, 500, "application/json"@, error_text(e@)),
        },
{
    match outcome {
        Ok(names) => {
            let text = string_array_json(&names);
            json_response(200, text.as_str().as_bytes_vec())
        },
        Err(e) => error_response(status_of(ErrorKind::Backend), e.as_str()),
    }
}

/// After looking up `label`: read its content, or answer 404. Store failures
/// on this path are answered with 404 as well, carrying the store's message.
pub fn label_resolved(label: &str, outcome: Result<Option<String>, String>) -> (r: Step)
    ensures
        match outcome {
            Ok(Some(c)) => r matches Step::Call(StoreCall::Read { label: l, content_ref: cr })
                && l@ == label@ && cr == c,
            Ok(None) => is_error(r, 404, not_found_message(label@)),
            Err(e) => is_error(r, 404, e@),
        },
{
    match outcome {
        Ok(Some(c)) => Step::Call(StoreCall::Read { label: label.to_owned(), content_ref: c }),
        Ok(None) => {
            let mut message = "Label not found: ".to_owned();
            message.append(label);
            Step::Respond(error_response(status_of(ErrorKind::NotFound), message.as_str()))
        },
        // Every failure on the single-label read path is reported as 404.
        Err(e) => Step::Respond(error_response(status_of(ErrorKind::NotFound), e.as_str())),
    }
}

/// After reading the content of `label`: the classified content as JSON, or
/// 404 with the store's message.
pub fn content_read(label: &str, outcome: Result<Vec<u8>, String>) -> (r: HttpResponse)
    ensures
        match outcome {
            Ok(bytes) => responds(r, 200, "application/json"@, label_text(label@, bytes@)),
            Err(e) => responds(r, 404, "application/json"@, error_text(e@)),
        },
{
    match outcome {
        Ok(bytes) => label_response(label, bytes.as_slice()),
        Err(e) => error_response(status_of(ErrorKind::NotFound), e.as_str()),
    }
}

/// After a write: success, or a server error with the store's message.
pub fn label_written(outcome: Result<(), String>) -> (r: HttpResponse)
    ensures
        match outcome {
            Ok(()) => responds(r, 200, "application/json"@, success_text()),
            Err(e) => responds(r, 500, "application/json"@, error_text(e@)),
        },
{
    match outcome {
        Ok(()) => success_response(),
        Err(e) => error_response(status_of(ErrorKind::Backend), e.as_str()),
    }
}

} // verus!
