//! JSON documents read through `serde_json`: the members the library
//! reads, the back-end's reply envelope, and the settings file.

use vstd::prelude::*;
use crate::paths::{default_bookshelf, joined_under};
use crate::text::digit_char;

verus! {

/// `serde_json::Value`, carried through opaquely.
#[verifier::external_type_specification]
#[verifier::external_body]
pub struct ExJsonValue(serde_json::Value);

/// Whether `serde_json::from_str::<Value>` accepts `text`.
pub uninterp spec fn json_parses(text: Seq<char>) -> bool;

/// The message (`Display`) of the error `serde_json::from_str::<Value>`
/// reports for `text`.
pub uninterp spec fn json_parse_error(text: Seq<char>) -> Seq<char>;

/// `value.get(key).and_then(Value::as_str)` on the parse of `text`.
pub uninterp spec fn json_str_member(text: Seq<char>, key: Seq<char>) -> Option<Seq<char>>;

/// `value.get(key).and_then(Value::as_i64)` on the parse of `text`.
pub uninterp spec fn json_i64_member(text: Seq<char>, key: Seq<char>) -> Option<i64>;

/// `value.get(key).and_then(Value::as_u64)` on the parse of `text`.
pub uninterp spec fn json_u64_member(text: Seq<char>, key: Seq<char>) -> Option<u64>;

/// `serde_json::to_string(&value[key])` on the parse of `text`: the compact
/// JSON text of the member `key`, `null` when there is none.
pub uninterp spec fn json_member_text(text: Seq<char>, key: Seq<char>) -> Seq<char>;

/// Lower-case hexadecimal digit of a value below sixteen.
pub open spec fn hex_lower(d: nat) -> char {
    if d < 10 {
        digit_char(d)
    } else {
        ((87 + d) as u32) as char
    }
}

/// How `serde_json` writes one character inside a string literal.
pub open spec fn json_escape_char(c: char) -> Seq<char> {
    if c == '"' {
        seq!['\\', '"']
    } else if c == '\\' {
        seq!['\\', '\\']
    } else if c == '\u{8}' {
        seq!['\\', 'b']
    } else if c == '\t' {
        seq!['\\', 't']
    } else if c == '\n' {
        seq!['\\', 'n']
    } else if c == '\u{c}' {
        seq!['\\', 'f']
    } else if c == '\r' {
        seq!['\\', 'r']
    } else if (c as u32) < 0x20 {
        seq!['\\', 'u', '0', '0', hex_lower((c as u32 / 16) as nat), hex_lower((c as u32 % 16) as nat)]
    } else {
        seq![c]
    }
}

/// The escaped body of a JSON string literal.
pub open spec fn json_escaped(s: Seq<char>) -> Seq<char>
    decreases s.len(),
{
    if s.len() == 0 {
        Seq::empty()
    } else {
        json_escape_char(s[0]) + json_escaped(s.drop_first())
    }
}

/// The JSON string literal `serde_json` writes for `s`.
pub open spec fn json_quoted(s: Seq<char>) -> Seq<char> {
    seq!['"'] + json_escaped(s) + seq!['"']
}

/// The compact JSON text of an object with the one string member `key: value`.
pub open spec fn string_object(key: Seq<char>, value: Seq<char>) -> Seq<char> {
    seq!['{'] + json_quoted(key) + seq![':'] + json_quoted(value) + seq!['}']
}

/// Writes the object with the one string member `key: value` through
/// `serde_json` (a `Value::Object`, then `to_string`). Claimed: the result
/// is `string_object(key, value)`, serde_json's compact form with its
/// escaping of quotes, backslashes and control characters (serialising a
/// `Value` cannot fail).
#[verifier::external_body]
fn json_string_object(key: &str, value: &str) -> (r: String)
    ensures
        r@ == string_object(key@, value@),
{
    let mut map = serde_json::Map::new();
    map.insert(key.to_string(), serde_json::Value::String(value.to_string()));
    match serde_json::to_string(&serde_json::Value::Object(map)) {
        Ok(t) => t,
        Err(_) => String::new(),
    }
}

/// A JSON document. Its view is its JSON text. Either `parse` built it, and
/// its value is the parse of its text (`is_parsed`); or `member_doc` took it
/// out of a parsed document, and its value is that member, whose text is
/// the member's serialisation (which need not parse back to the same
/// floating-point numbers). Only those two build one.
pub struct JsonDoc {
    text: String,
    value: serde_json::Value,
    parsed: bool,
}

impl View for JsonDoc {
    type V = Seq<char>;

    closed spec fn view(&self) -> Seq<char> {
        self.text@
    }
}

impl JsonDoc {
    /// Whether `parse` built this document, so that its value is the parse
    /// of its text.
    pub closed spec fn is_parsed(&self) -> bool {
        self.parsed
    }

    /// Parses `text` with `serde_json::from_str::<Value>`. Claimed: success
    /// exactly when the name `json_parses` holds, the document keeps the
    /// text, a failure carries the error's message `json_parse_error`, and
    /// the compact text of a one-member string object always parses.
    #[verifier::external_body]
    pub(crate) fn parse(text: &str) -> (r: Result<JsonDoc, String>)
        ensures
            r is Ok <==> json_parses(text@),
            r matches Ok(d) ==> d@ == text@ && d.is_parsed(),
            r matches Err(e) ==> e@ == json_parse_error(text@),
            forall|k: Seq<char>, v: Seq<char>| #[trigger] string_object(k, v) == text@ ==> r is Ok,
    {
        match serde_json::from_str::<serde_json::Value>(text) {
            Ok(value) => Ok(JsonDoc { text: text.to_string(), value, parsed: true }),
            Err(e) => Err(e.to_string()),
        }
    }

    /// The string member `key` of a parsed document, read with `Value::get` then
    /// `Value::as_str`. Claimed: the result is the name `json_str_member` of
    /// the document's text and the key, and a one-member string object
    /// gives back its string under its key.
    #[verifier::external_body]
    pub(crate) fn str_member(&self, key: &str) -> (r: Option<String>)
        requires
            self.is_parsed(),
        ensures
            match r {
                Some(t) => json_str_member(self@, key@) == Some(t@),
                None => json_str_member(self@, key@) is None,
            },
            forall|v: Seq<char>| #[trigger] string_object(key@, v) == self@ ==> r is Some && r->0@ == v,
    {
        match self.value.get(key) {
            Some(m) => match m.as_str() {
                Some(t) => Some(t.to_string()),
                None => None,
            },
            None => None,
        }
    }

    /// The integer member `key` of a parsed document, read with `Value::get` then
    /// `Value::as_i64`. Claimed: the result is the name `json_i64_member`.
    #[verifier::external_body]
    pub(crate) fn i64_member(&self, key: &str) -> (r: Option<i64>)
        requires
            self.is_parsed(),
        ensures
            r == json_i64_member(self@, key@),
    {
        match self.value.get(key) {
            Some(m) => m.as_i64(),
            None => None,
        }
    }

    /// The unsigned member `key` of a parsed document, read with `Value::get` then
    /// `Value::as_u64`. Claimed: the result is the name `json_u64_member`.
    #[verifier::external_body]
    pub(crate) fn u64_member(&self, key: &str) -> (r: Option<u64>)
        requires
            self.is_parsed(),
        ensures
            r == json_u64_member(self@, key@),
    {
        match self.value.get(key) {
            Some(m) => m.as_u64(),
            None => None,
        }
    }

    /// The member `key` of a parsed document as a document of its own
    /// (indexing the value with a string, `null` when absent, then
    /// `serde_json::to_string` for its text). Claimed: its text is the name
    /// `json_member_text` of the parsed text (serialising a `Value` cannot
    /// fail).
    #[verifier::external_body]
    pub(crate) fn member_doc(&self, key: &str) -> (r: JsonDoc)
        requires
            self.is_parsed(),
        ensures
            r@ == json_member_text(self@, key@),
            !r.is_parsed(),
    {
        let member = self.value[key].clone();
        let text = match serde_json::to_string(&member) {
            Ok(t) => t,
            Err(_) => String::new(),
        };
        JsonDoc { text, value: member, parsed: false }
    }

    /// The document's JSON text.
    pub fn as_text(&self) -> (r: &str)
        ensures
            r@ == self@,
    {
        self.text.as_str()
    }

    /// The document's value, for handing on.
    pub fn into_value(self) -> serde_json::Value {
        self.value
    }
}

/// The error of a reply from the back-end's web interface, if it reports
/// one: none when `code` is 200, else the reply's `message`, or a fixed
/// message when it has none; unparsable text gives the parser's message.
pub open spec fn reply_error(text: Seq<char>) -> Option<Seq<char>> {
    if !json_parses(text) {
        Some(json_parse_error(text))
    } else if json_i64_member(text, "code"@) == Some(200i64) {
        None
    } else {
        match json_str_member(text, "message"@) {
            Some(m) => Some(m),
            None => Some("请求失败"@),
        }
    }
}

/// Reads a reply of the back-end's web interface: `Ok` with its `data`
/// member (`null` when absent) when its `code` is 200, else `Err` with its
/// message.
pub fn read_api_reply(text: &str) -> (r: Result<JsonDoc, String>)
    ensures
        r is Ok <==> reply_error(text@) is None,
        r matches Ok(d) ==> d@ == json_member_text(text@, "data"@),
        r matches Err(e) ==> Some(e@) == reply_error(text@),
{
    let doc = match JsonDoc::parse(text) {
        Ok(d) => d,
        Err(e) => return Err(e),
    };
    if doc.i64_member("code") == Some(200i64) {
        Ok(doc.member_doc("data"))
    } else {
        match doc.str_member("message") {
            Some(m) => Err(m),
            None => Err(String::from_str("请求失败")),
        }
    }
}

/// The message of a failed download reply: its `message` member, else a
/// fixed text.
pub open spec fn download_error(body: Seq<char>) -> Seq<char> {
    if json_parses(body) && json_str_member(body, "message"@) is Some {
        json_str_member(body, "message"@)->0
    } else {
        "下载失败"@
    }
}

/// Extracts the message of a failed download reply.
pub fn extract_error(body: &str) -> (r: String)
    ensures
        r@ == download_error(body@),
{
    if let Ok(doc) = JsonDoc::parse(body) {
        if let Some(m) = doc.str_member("message") {
            return m;
        }
    }
    String::from_str("下载失败")
}

/// The outcome of a download request that got a reply: done on status
/// 200, else the failure the reply's body reports.
pub fn fetch_reply_outcome(status: u16, body: &str) -> (r: Result<(), String>)
    ensures
        status == 200 ==> r is Ok,
        status != 200 ==> (r matches Err(e) && e@ == download_error(body@)),
{
    if status == 200 {
        Ok(())
    } else {
        Err(extract_error(body))
    }
}

/// The message when a download request got no reply, for the transport
/// error `detail`.
pub fn fetch_transport_error(detail: &str) -> (r: String)
    ensures
        r@ == "下载失败："@ + detail@,
{
    let mut r = String::from_str("下载失败：");
    r.append(detail);
    r
}

/// The book shelf a settings text records, if it records one.
pub open spec fn stored_bookshelf(text: Seq<char>) -> Option<Seq<char>> {
    if json_parses(text) {
        json_str_member(text, "bookshelfDir"@)
    } else {
        None
    }
}

/// The settings text that records `path` as the book shelf.
pub open spec fn settings_text(path: Seq<char>) -> Seq<char> {
    string_object("bookshelfDir"@, path)
}

/// The settings file's text for the book shelf `path`:
/// `{"bookshelfDir":<path>}`.
pub fn settings_json(path: &str) -> (r: String)
    ensures
        r@ == settings_text(path@),
{
    json_string_object("bookshelfDir", path)
}

/// The book shelf to use: the one the settings text records, else
/// `<data_dir>/books`. Reading back a text written by `settings_json`
/// gives the path that was written.
pub fn bookshelf_from_settings(settings: Option<&str>, data_dir: &str) -> (r: String)
    ensures
        match settings {
            Some(t) => if stored_bookshelf(t@) is Some {
                r@ == stored_bookshelf(t@)->0
            } else {
                joined_under(r@, data_dir@, "books"@)
            },
            None => joined_under(r@, data_dir@, "books"@),
        },
        forall|p: Seq<char>|
            settings is Some && #[trigger] settings_text(p) == settings->0@ ==> r@ == p,
{
    if let Some(text) = settings {
        if let Ok(doc) = JsonDoc::parse(text) {
            if let Some(p) = doc.str_member("bookshelfDir") {
                return p;
            }
        }
    }
    default_bookshelf(data_dir)
}

/// Law: what a reply of the back-end's web interface gives. A reply that
/// parses and whose `code` is the integer 200 succeeds, whatever its data
/// holds (and `read_api_reply` hands on that data member); a reply that
/// parses with any other code fails with its string `message`, or the fixed
/// text when it has none; text that does not parse fails with the parser's
/// message.
pub proof fn reply_outcomes(text: Seq<char>)
    ensures
        json_parses(text) && json_i64_member(text, "code"@) == Some(200i64) ==> reply_error(
            text,
        ) is None,
        json_parses(text) && json_i64_member(text, "code"@) != Some(200i64)
            && json_str_member(text, "message"@) is Some ==> reply_error(text) == json_str_member(
            text,
            "message"@,
        ),
        json_parses(text) && json_i64_member(text, "code"@) != Some(200i64)
            && json_str_member(text, "message"@) is None ==> reply_error(text) == Some(
            "请求失败"@,
        ),
        !json_parses(text) ==> reply_error(text) == Some(json_parse_error(text)),
{
}

} // verus!
