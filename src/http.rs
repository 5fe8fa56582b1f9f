//! HTTP responses of the service.
use crate::classify::{bytes_are_text, classify, rendered};
use crate::json::{decimal, decimal_string, error_json, error_text, json_quote, json_quoted};
use vstd::prelude::*;
use vstd::string::*;
use vstd::utf8::*;

verus! {

/// An HTTP response: status, header pairs and an optional body.
pub struct HttpResponse {
    pub status: u16,
    pub headers: Vec<(String, String)>,
    pub body: Option<Vec<u8>>,
}

/// `r` has the given status, a single `Content-Type` header with value
/// `content_type`, and a body holding the given bytes.
pub open spec fn responds_bytes(r: HttpResponse, status: u16, content_type: Seq<char>, body: Seq<u8>) -> bool {
    &&& r.status == status
    &&& r.headers@.len() == 1
    &&& r.headers@[0].0@ == "Content-Type"@
    &&& r.headers@[0].1@ == content_type
    &&& r.body matches Some(b) && b@ == body
}

/// `r` is as in `responds_bytes`, its body the UTF-8 encoding of `text`.
pub open spec fn responds(r: HttpResponse, status: u16, content_type: Seq<char>, text: Seq<char>) -> bool {
    responds_bytes(r, status, content_type, encode_utf8(text))
}

/// The JSON text of a label's content: name, rendered content, whether it is
/// text, and its size in bytes.
pub open spec fn label_text(name: Seq<char>, content: Seq<u8>) -> Seq<char> {
    "{\"name\":"@ + json_quoted(name) + ",\"content\":"@ + json_quoted(rendered(content))
        + ",\"is_text\":"@ + (if bytes_are_text(content) { "true"@ } else { "false"@ })
        + ",\"size_bytes\":"@ + decimal(content.len()) + "}"@
}

/// The body of every successful write.
pub open spec fn success_text() -> Seq<char> {
    "{\"success\":true}"@
}

pub const INDEX_HTML: &'static str = "<!DOCTYPE html>
<html>
<head>
<meta charset=\"utf-8\">
<title>Store Viewer</title>
<link rel=\"stylesheet\" href=\"/app.css\">
</head>
<body>
<h1>Store Viewer</h1>
<section id=\"labels\"><h2>Labels</h2><ul id=\"label-list\"></ul></section>
<section id=\"viewer\"><h2 id=\"label-name\"></h2><pre id=\"label-content\"></pre>
<textarea id=\"edit-content\"></textarea><button id=\"save\">Save</button></section>
<section id=\"create\"><h2>New label</h2>
<input id=\"new-name\" placeholder=\"name\"><textarea id=\"new-content\"></textarea>
<button id=\"create-button\">Create</button></section>
<script src=\"/app.js\"></script>
</body>
</html>
";

pub const APP_CSS: &'static str = "body { font-family: sans-serif; margin: 2em; }
section { margin-bottom: 2em; }
#label-list li { cursor: pointer; }
pre { background: #f4f4f4; padding: 1em; white-space: pre-wrap; }
textarea { display: block; width: 100%; min-height: 6em; }
";

pub const APP_JS: &'static str = "async function loadLabels() {
  const res = await fetch('/api/labels');
  const names = await res.json();
  const list = document.getElementById('label-list');
  list.innerHTML = '';
  for (const name of names) {
    const li = document.createElement('li');
    li.textContent = name;
    li.onclick = () => showLabel(name);
    list.appendChild(li);
  }
}
async function showLabel(name) {
  const res = await fetch('/api/labels/' + name);
  const data = await res.json();
  document.getElementById('label-name').textContent = name;
  const shown = data.error ? data.error : data.content;
  document.getElementById('label-content').textContent = shown;
  document.getElementById('edit-content').value = data.is_text ? data.content : '';
}
async function saveLabel() {
  const name = document.getElementById('label-name').textContent;
  const content = document.getElementById('edit-content').value;
  await fetch('/api/labels/' + name, { method: 'PUT', body: JSON.stringify({ content }) });
  await showLabel(name);
}
async function createLabel() {
  const name = document.getElementById('new-name').value;
  const content = document.getElementById('new-content').value;
  await fetch('/api/labels', { method: 'POST', body: JSON.stringify({ name, content }) });
  await loadLabels();
}
document.getElementById('save').onclick = saveLabel;
document.getElementById('create-button').onclick = createLabel;
loadLabels();
";

fn with_content_type(status: u16, content_type: &str, body: Vec<u8>) -> (r: HttpResponse)
    ensures
        responds_bytes(r, status, content_type@, body@),
{
    let mut headers: Vec<(String, String)> = Vec::new();
    headers.push(("Content-Type".to_owned(), content_type.to_owned()));
    HttpResponse { status, headers, body: Some(body) }
}

/// A response with a JSON body.
pub fn json_response(status: u16, body: Vec<u8>) -> (r: HttpResponse)
    ensures
        responds_bytes(r, status, "application/json"@, body@),
{
    with_content_type(status, "application/json", body)
}

/// A JSON error response `{"error":<message>}`.
pub fn error_response(status: u16, message: &str) -> (r: HttpResponse)
    ensures
        responds(r, status, "application/json"@, error_text(message@)),
{
    let text = error_json(message);
    json_response(status, text.as_str().as_bytes_vec())
}

/// The response to every successful write.
pub fn success_response() -> (r: HttpResponse)
    ensures
        responds(r, 200, "application/json"@, success_text()),
{
    json_response(200, "{\"success\":true}".as_bytes_vec())
}

/// A label's content, classified and rendered, as a JSON response.
pub fn label_response(name: &str, content: &[u8]) -> (r: HttpResponse)
    ensures
        responds(r, 200, "application/json"@, label_text(name@, content@)),
{
    let c = classify(content);
    let mut text = "{\"name\":".to_owned();
    text.append(json_quote(name).as_str());
    text.append(",\"content\":");
    text.append(json_quote(c.content.as_str()).as_str());
    text.append(",\"is_text\":");
    if c.is_text {
        text.append("true");
    } else {
        text.append("false");
    }
    text.append(",\"size_bytes\":");
    text.append(decimal_string(content.len()).as_str());
    text.append("}");
    json_response(200, text.as_str().as_bytes_vec())
}

/// The plain-text response for unknown routes.
pub fn not_found_response() -> (r: HttpResponse)
    ensures
        responds(r, 404, "text/plain"@, "Not Found"@),
{
    with_content_type(404, "text/plain", "Not Found".as_bytes_vec())
}

/// The application page.
pub fn serve_index_html() -> (r: HttpResponse)
    ensures
        responds(r, 200, "text/html"@, INDEX_HTML@),
{
    with_content_type(200, "text/html", INDEX_HTML.as_bytes_vec())
}

/// The application style sheet.
pub fn serve_app_css() -> (r: HttpResponse)
    ensures
        responds(r, 200, "text/css"@, APP_CSS@),
{
    with_content_type(200, "text/css", APP_CSS.as_bytes_vec())
}

/// The application script.
pub fn serve_app_js() -> (r: HttpResponse)
    ensures
        responds(r, 200, "application/javascript"@, APP_JS@),
{
    with_content_type(200, "application/javascript", APP_JS.as_bytes_vec())
}

} // verus!
