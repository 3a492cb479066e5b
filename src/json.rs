//! Access to structured payloads. A payload is parsed from text and read
//! member by member; what each read gives is named as a function of the
//! text and of the path of member names that leads to it.
use vstd::prelude::*;

verus! {

#[verifier::external_type_specification]
#[verifier::external_body]
pub struct ExValue(serde_json::Value);

/// Whether a text parses as one JSON document.
pub uninterp spec fn is_json(text: Seq<char>) -> bool;

/// Whether the document in `text` has a member at `path`.
pub uninterp spec fn has_member(text: Seq<char>, path: Seq<Seq<char>>) -> bool;

/// The member at `path` read as an integer, if it is one.
pub uninterp spec fn int_at(text: Seq<char>, path: Seq<Seq<char>>) -> Option<i64>;

/// The member at `path` read as a string, if it is one.
pub uninterp spec fn str_at(text: Seq<char>, path: Seq<Seq<char>>) -> Option<Seq<char>>;

/// Whether the member at `path` is null.
pub uninterp spec fn null_at(text: Seq<char>, path: Seq<Seq<char>>) -> bool;

/// The text that zlib-compressed bytes inflate to, if they inflate to UTF-8 text.
pub uninterp spec fn inflated_text(bytes: Seq<u8>) -> Option<Seq<char>>;

/// The text that bytes encode as UTF-8, if they are valid UTF-8.
pub uninterp spec fn utf8_text(bytes: Seq<u8>) -> Option<Seq<char>>;

/// Relies on `serde_json::from_str::<Value>`: parsing succeeds exactly on
/// well-formed JSON text, which depends on the text alone.
#[verifier::external_body]
fn parse_value(text: &str) -> (r: Option<serde_json::Value>)
    ensures
        r.is_some() == is_json(text@),
{
    serde_json::from_str::<serde_json::Value>(text).ok()
}

/// Relies on `serde_json::Value::get`: whether the member exists, which
/// depends on the document's text and the path alone.
#[verifier::external_body]
fn value_get(doc: &Doc, key: &str) -> (r: Option<serde_json::Value>)
    ensures
        r.is_some() == has_member(doc.text(), doc.path().push(key@)),
{
    doc.value.get(key).cloned()
}

/// Relies on `serde_json::Value::as_i64`.
#[verifier::external_body]
fn value_as_i64(doc: &Doc) -> (r: Option<i64>)
    ensures
        r == int_at(doc.text(), doc.path()),
{
    doc.value.as_i64()
}

/// Relies on `serde_json::Value::as_str`.
#[verifier::external_body]
fn value_as_str(doc: &Doc) -> (r: Option<String>)
    ensures
        r matches Some(s) ==> str_at(doc.text(), doc.path()) == Some(s@),
        r is None ==> str_at(doc.text(), doc.path()) is None,
{
    doc.value.as_str().map(|s| s.to_string())
}

/// Relies on `serde_json::Value::is_null`.
#[verifier::external_body]
fn value_is_null(doc: &Doc) -> (r: bool)
    ensures
        r == null_at(doc.text(), doc.path()),
{
    doc.value.is_null()
}

/// Relies on `flate2::read::ZlibDecoder` read to the end as a string: the
/// inflated text, or a failure on corrupt input or text that is not UTF-8.
#[verifier::external_body]
pub(crate) fn inflate(bytes: &[u8]) -> (r: Option<String>)
    ensures
        r matches Some(t) ==> inflated_text(bytes@) == Some(t@),
        r is None ==> inflated_text(bytes@) is None,
{
    let mut out = String::new();
    match std::io::Read::read_to_string(&mut flate2::read::ZlibDecoder::new(bytes), &mut out) {
        Ok(_) => Some(out),
        Err(_) => None,
    }
}

/// Relies on `String::from_utf8`: the text, when the bytes are valid UTF-8.
#[verifier::external_body]
pub(crate) fn utf8(bytes: Vec<u8>) -> (r: Option<String>)
    ensures
        r matches Some(t) ==> utf8_text(bytes@) == Some(t@),
        r is None ==> utf8_text(bytes@) is None,
{
    String::from_utf8(bytes).ok()
}

/// A parsed document, or one of its members: the value, with the text it was
/// parsed from and the path of member names that leads to it. Only this
/// module builds one, by parsing or by reading a member, so the value is
/// always the member at `path` of the document parsed from `text`: the
/// reads above rely on that.
pub struct Doc {
    value: serde_json::Value,
    text: Ghost<Seq<char>>,
    path: Ghost<Seq<Seq<char>>>,
}

/// An integer member: `Some(None)` when absent or null, `None` when it
/// holds something other than an integer.
pub open spec fn int_field_spec(text: Seq<char>, path: Seq<Seq<char>>) -> Option<Option<i64>> {
    if !has_member(text, path) || null_at(text, path) {
        Some(None)
    } else {
        match int_at(text, path) {
            Some(n) => Some(Some(n)),
            None => None,
        }
    }
}

/// A string member: `Some(None)` when absent or null, `None` when it holds
/// something other than a string.
pub open spec fn str_field_spec(text: Seq<char>, path: Seq<Seq<char>>) -> Option<Option<Seq<char>>> {
    if !has_member(text, path) || null_at(text, path) {
        Some(None)
    } else {
        match str_at(text, path) {
            Some(s) => Some(Some(s)),
            None => None,
        }
    }
}

/// An optional string's characters.
pub open spec fn opt_view(o: Option<String>) -> Option<Seq<char>> {
    match o {
        Some(s) => Some(s@),
        None => None,
    }
}

impl Doc {
    /// The text the document was parsed from.
    pub closed spec fn text(&self) -> Seq<char> {
        self.text@
    }

    /// The member names that lead from the document to this value.
    pub closed spec fn path(&self) -> Seq<Seq<char>> {
        self.path@
    }

    /// Parses a text.
    pub fn parse(text: &str) -> (r: Option<Doc>)
        ensures
            r.is_some() == is_json(text@),
            r matches Some(d) ==> d.text() == text@ && d.path() == Seq::<Seq<char>>::empty(),
    {
        match parse_value(text) {
            Some(value) => Some(Doc { value, text: Ghost(text@), path: Ghost(Seq::empty()) }),
            None => None,
        }
    }

    /// The value itself.
    pub fn value(&self) -> (r: &serde_json::Value) {
        &self.value
    }

    /// The value itself, giving up the document.
    pub fn into_value(self) -> (r: serde_json::Value) {
        self.value
    }

    /// The member under `key`.
    pub fn get(&self, key: &str) -> (r: Option<Doc>)
        ensures
            r.is_some() == has_member(self.text(), self.path().push(key@)),
            r matches Some(m) ==> m.text() == self.text() && m.path() == self.path().push(key@),
    {
        match value_get(self, key) {
            Some(value) => Some(Doc { value, text: Ghost(self.text@), path: Ghost(self.path@.push(key@)) }),
            None => None,
        }
    }

    /// This value as an integer, if it is one.
    pub fn as_i64(&self) -> (r: Option<i64>)
        ensures
            r == int_at(self.text(), self.path()),
    {
        value_as_i64(self)
    }

    /// This value as a string, if it is one.
    pub fn as_str(&self) -> (r: Option<String>)
        ensures
            opt_view(r) == str_at(self.text(), self.path()),
    {
        value_as_str(self)
    }

    /// Whether this value is null.
    pub fn is_null(&self) -> (r: bool)
        ensures
            r == null_at(self.text(), self.path()),
    {
        value_is_null(self)
    }

    /// The integer member under `key`; see `int_field_spec`.
    pub fn int_field(&self, key: &str) -> (r: Option<Option<i64>>)
        ensures
            r == int_field_spec(self.text(), self.path().push(key@)),
    {
        match self.get(key) {
            None => Some(None),
            Some(x) => {
                if x.is_null() {
                    Some(None)
                } else {
                    match x.as_i64() {
                        Some(n) => Some(Some(n)),
                        None => None,
                    }
                }
            },
        }
    }

    /// The string member under `key`; see `str_field_spec`.
    pub fn str_field(&self, key: &str) -> (r: Option<Option<String>>)
        ensures
            match r {
                Some(o) => str_field_spec(self.text(), self.path().push(key@)) == Some(opt_view(o)),
                None => str_field_spec(self.text(), self.path().push(key@)) is None,
            },
    {
        match self.get(key) {
            None => Some(None),
            Some(x) => {
                if x.is_null() {
                    Some(None)
                } else {
                    match x.as_str() {
                        Some(s) => Some(Some(s)),
                        None => None,
                    }
                }
            },
        }
    }
}

} // verus!
