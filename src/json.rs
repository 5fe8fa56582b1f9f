//! JSON text for the API's responses and the reading of request bodies.
use vstd::prelude::*;
use vstd::string::*;

verus! {

/// The JSON string literal (quoted and escaped) for some characters.
pub uninterp spec fn json_quoted(s: Seq<char>) -> Seq<char>;

/// The string under member `key` of a body that parses as a JSON object,
/// where that member exists and is a string.
pub uninterp spec fn json_member_str(body: Seq<u8>, key: Seq<char>) -> Option<Seq<char>>;

/// Relies on `serde_json::to_string` applied to a `str`: the quoted, escaped
/// JSON literal. Serialising a string cannot fail.
#[verifier::external_body]
pub(crate) fn json_quote(s: &str) -> (r: String)
    ensures
        r@ == json_quoted(s@),
{
    match serde_json::to_string(s) {
        Ok(t) => t,
        Err(_) => String::new(),
    }
}

/// Relies on `serde_json::from_slice` into a `serde_json::Value`, read with
/// `Value::get` and `Value::as_str`: the string member `key` of a JSON object.
#[verifier::external_body]
pub(crate) fn json_str_member(body: &[u8], key: &str) -> (r: Option<String>)
    ensures
        match r {
            Some(s) => json_member_str(body@, key@) == Some(s@),
            None => json_member_str(body@, key@) is None,
        },
{
    match serde_json::from_slice::<serde_json::Value>(body) {
        Ok(v) => match v.get(key) {
            Some(m) => m.as_str().map(str::to_owned),
            None => None,
        },
        Err(_) => None,
    }
}

/// The decimal digit character for `d < 10`.
pub open spec fn digit_char(d: nat) -> char {
    "0123456789"@[d as int]
}

/// Decimal notation of a natural number, without leading zeros.
pub open spec fn decimal(n: nat) -> Seq<char>
    decreases n,
{
    if n < 10 {
        seq![digit_char(n)]
    } else {
        decimal(n / 10).push(digit_char(n % 10))
    }
}

/// Writes `n` in decimal.
pub fn decimal_string(n: usize) -> (r: String)
    ensures
        r@ == decimal(n as nat),
    decreases n,
{
    proof {
        reveal_strlit("0123456789");
    }
    let digits = "0123456789";
    let d = n % 10;
    let last = digits.substring_char(d, d + 1);
    proof {
        assert(last@ =~= seq![digit_char(d as nat)]);
    }
    if n < 10 {
        last.to_owned()
    } else {
        let mut s = decimal_string(n / 10);
        s.append(last);
        proof {
            assert(s@ =~= decimal(n as nat));
        }
        s
    }
}

/// The items of a JSON array of strings, separated by commas.
pub open spec fn quoted_items(names: Seq<Seq<char>>) -> Seq<char>
    decreases names.len(),
{
    if names.len() == 0 {
        Seq::empty()
    } else if names.len() == 1 {
        json_quoted(names[0])
    } else {
        quoted_items(names.drop_last()) + ","@ + json_quoted(names.last())
    }
}

/// A compact JSON array of strings.
pub open spec fn string_array_text(names: Seq<Seq<char>>) -> Seq<char> {
    "["@ + quoted_items(names) + "]"@
}

/// Views of a sequence of strings.
pub open spec fn string_views(v: Seq<String>) -> Seq<Seq<char>> {
    v.map_values(|s: String| s@)
}

/// Writes a list of names as a compact JSON array of strings.
pub fn string_array_json(names: &Vec<String>) -> (r: String)
    ensures
        r@ == string_array_text(string_views(names@)),
{
    let mut items = String::new();
    let mut i: usize = 0;
    while i < names.len()
        invariant
            i <= names.len(),
            items@ == quoted_items(string_views(names@).take(i as int)),
        decreases names.len() - i,
    {
        let q = json_quote(names[i].as_str());
        proof {
            let t = string_views(names@).take(i as int + 1);
            assert(t.drop_last() =~= string_views(names@).take(i as int));
        }
        if i > 0 {
            items.append(",");
        }
        items.append(q.as_str());
        i = i + 1;
    }
    proof {
        assert(string_views(names@).take(names.len() as int) =~= string_views(names@));
    }
    let mut r = "[".to_owned();
    r.append(items.as_str());
    r.append("]");
    r
}

/// JSON object `{"error":<message>}`; the message is escaped as a JSON string.
pub open spec fn error_text(message: Seq<char>) -> Seq<char> {
    "{\"error\":"@ + json_quoted(message) + "}"@
}

/// Writes an error object.
pub fn error_json(message: &str) -> (r: String)
    ensures
        r@ == error_text(message@),
{
    let mut r = "{\"error\":".to_owned();
    let q = json_quote(message);
    r.append(q.as_str());
    r.append("}");
    r
}

} // verus!
