//! JSON documents: reading a text, walking a document, and writing the
//! pieces of a text that need care.

use vstd::prelude::*;
use vstd::string::StringSliceAdditionalSpecFns;
use vstd::utf8::encode_utf8;

use crate::error::DecodeError;

verus! {

/// The parse error of the JSON reader.
#[verifier::external_type_specification]
#[verifier::external_body]
pub struct ExJsonError(serde_json::Error);

/// The document tree of the JSON reader.
#[verifier::external_type_specification]
#[verifier::external_body]
pub struct ExJsonValue(serde_json::Value);

/// A JSON number as the decoders read it.
#[derive(Debug, Clone, Copy, PartialEq, Eq, Structural)]
pub struct JsonNumber {
    /// The number if it is a non-negative integer below 2^64.
    pub unsigned: Option<u64>,
    /// The number if it is an integer that fits 64 signed bits.
    pub signed: Option<i64>,
    /// The bits of the double-precision float nearest to the number.
    pub double: u64,
}

/// A JSON document.
#[derive(Debug)]
pub enum Json {
    Null,
    Bool(bool),
    Number(JsonNumber),
    String(String),
    Array(Vec<Json>),
    /// The members with their keys.
    Object(Vec<(String, Json)>),
}

/// A JSON document as a mathematical value.
pub enum JsonView {
    Null,
    Bool(bool),
    Number(JsonNumber),
    String(Seq<char>),
    Array(Seq<JsonView>),
    Object(Seq<(Seq<char>, JsonView)>),
}

/// The mathematical value of a document.
pub open spec fn json_view(j: Json) -> JsonView
    decreases j,
{
    match j {
        Json::Null => JsonView::Null,
        Json::Bool(b) => JsonView::Bool(b),
        Json::Number(n) => JsonView::Number(n),
        Json::String(s) => JsonView::String(s@),
        Json::Array(items) => JsonView::Array(
            Seq::new(
                items@.len(),
                |i: int|
                    if 0 <= i < items@.len() {
                        json_view(items@[i])
                    } else {
                        JsonView::Null
                    },
            ),
        ),
        Json::Object(members) => JsonView::Object(
            Seq::new(
                members@.len(),
                |i: int|
                    if 0 <= i < members@.len() {
                        (members@[i].0@, json_view(members@[i].1))
                    } else {
                        (Seq::empty(), JsonView::Null)
                    },
            ),
        ),
    }
}

impl View for Json {
    type V = JsonView;

    open spec fn view(&self) -> JsonView {
        json_view(*self)
    }
}

/// The value of the first member with the given key.
pub open spec fn lookup(members: Seq<(Seq<char>, JsonView)>, key: Seq<char>) -> Option<JsonView>
    decreases members.len(),
{
    if members.len() == 0 {
        None
    } else if members.first().0 == key {
        Some(members.first().1)
    } else {
        lookup(members.drop_first(), key)
    }
}

impl JsonView {
    /// The member of an object with the given key.
    pub open spec fn member(self, key: Seq<char>) -> Option<JsonView> {
        match self {
            JsonView::Object(members) => lookup(members, key),
            _ => None,
        }
    }

    /// The item of an array at the given place.
    pub open spec fn item(self, index: int) -> Option<JsonView> {
        match self {
            JsonView::Array(items) => if 0 <= index < items.len() {
                Some(items[index])
            } else {
                None
            },
            _ => None,
        }
    }

    /// The text of a string.
    pub open spec fn text(self) -> Option<Seq<char>> {
        match self {
            JsonView::String(s) => Some(s),
            _ => None,
        }
    }

    /// The truth value of a boolean.
    pub open spec fn truth(self) -> Option<bool> {
        match self {
            JsonView::Bool(b) => Some(b),
            _ => None,
        }
    }

    /// The value of a number.
    pub open spec fn number(self) -> Option<JsonNumber> {
        match self {
            JsonView::Number(n) => Some(n),
            _ => None,
        }
    }
}

/// The member with the given key of a document that may be absent.
pub open spec fn step(doc: Option<JsonView>, key: Seq<char>) -> Option<JsonView> {
    match doc {
        Some(j) => j.member(key),
        None => None,
    }
}

/// The item at the given place of a document that may be absent.
pub open spec fn step_item(doc: Option<JsonView>, index: int) -> Option<JsonView> {
    match doc {
        Some(j) => j.item(index),
        None => None,
    }
}

/// The text of a document that may be absent.
pub open spec fn text_of(doc: Option<JsonView>) -> Option<Seq<char>> {
    match doc {
        Some(j) => j.text(),
        None => None,
    }
}

/// The truth value of a document that may be absent.
pub open spec fn truth_of(doc: Option<JsonView>) -> Option<bool> {
    match doc {
        Some(j) => j.truth(),
        None => None,
    }
}

/// The number of a document that may be absent.
pub open spec fn number_of(doc: Option<JsonView>) -> Option<JsonNumber> {
    match doc {
        Some(j) => j.number(),
        None => None,
    }
}

/// The view of a document that may be absent.
pub open spec fn view_of(doc: Option<&Json>) -> Option<JsonView> {
    match doc {
        Some(j) => Some(j@),
        None => None,
    }
}

/// The views of a run of documents.
pub open spec fn json_views(items: Seq<Json>) -> Seq<JsonView> {
    Seq::new(items.len(), |i: int| items[i]@)
}

/// The views of a run of members.
pub open spec fn member_views(members: Seq<(String, Json)>) -> Seq<(Seq<char>, JsonView)> {
    Seq::new(members.len(), |i: int| (members[i].0@, members[i].1@))
}

/// The view of an array holds the views of its items.
pub proof fn lemma_array_view(j: Json)
    requires
        j is Array,
    ensures
        j@ == JsonView::Array(json_views(j->Array_0@)),
{
    let items = j->Array_0@;
    let views = j@->Array_0;
    assert forall|i: int| 0 <= i < items.len() implies #[trigger] views[i] == items[i]@ by {
        assert(views[i] == json_view(items[i]));
    }
    assert(views =~= json_views(items));
}

/// The view of an object holds the views of its members.
pub proof fn lemma_object_view(j: Json)
    requires
        j is Object,
    ensures
        j@ == JsonView::Object(member_views(j->Object_0@)),
{
    let members = j->Object_0@;
    let views = j@->Object_0;
    assert forall|i: int| 0 <= i < members.len() implies #[trigger] views[i] == (
        members[i].0@,
        members[i].1@,
    ) by {
        assert(views[i] == (members[i].0@, json_view(members[i].1)));
    }
    assert(views =~= member_views(members));
}

/// The document that a text denotes, if it is well-formed JSON.
pub uninterp spec fn json_of_text(text: Seq<char>) -> Option<JsonView>;

/// The JSON string literal of a text: the text between double quotes, with
/// the escapes that JSON asks for.
pub uninterp spec fn json_quoted(text: Seq<char>) -> Seq<char>;

/// Copies a tree of `serde_json::Value` into a [`Json`], node for node. Of
/// a number it keeps what `as_u64`, `as_i64` and `as_f64` return of it.
#[verifier::external_body]
fn copy_tree(v: &serde_json::Value) -> Json {
    match v {
        serde_json::Value::Null => Json::Null,
        serde_json::Value::Bool(b) => Json::Bool(*b),
        serde_json::Value::Number(n) => Json::Number(JsonNumber {
            unsigned: n.as_u64(),
            signed: n.as_i64(),
            double: n.as_f64().unwrap_or_default().to_bits(),
        }),
        serde_json::Value::String(s) => Json::String(s.clone()),
        serde_json::Value::Array(a) => Json::Array(a.iter().map(copy_tree).collect()),
        serde_json::Value::Object(o) => Json::Object(
            o.iter().map(|(k, v)| (k.clone(), copy_tree(v))).collect(),
        ),
    }
}

/// `serde_json::from_str` at `serde_json::Value`, the tree copied into a
/// [`Json`]. The reader's answer depends on the text alone; the contract
/// gives it the name [`json_of_text`] and says no more of it.
#[verifier::external_body]
fn read_json(text: &str) -> (r: Result<Json, serde_json::Error>)
    ensures
        r is Ok <==> json_of_text(text@) is Some,
        r matches Ok(j) ==> json_of_text(text@) == Some(j@),
{
    match serde_json::from_str::<serde_json::Value>(text) {
        Ok(v) => Ok(copy_tree(&v)),
        Err(e) => Err(e),
    }
}

/// `serde_json::to_string` at `str`, which writes the text as a JSON string
/// literal and cannot fail on a `str`. The contract gives the literal the
/// name [`json_quoted`].
#[verifier::external_body]
fn write_json_string(text: &str) -> (r: String)
    ensures
        r@ == json_quoted(text@),
{
    match serde_json::to_string(text) {
        Ok(literal) => literal,
        Err(_) => String::new(),
    }
}

/// Appends the JSON string literal of `text` to `buf`.
pub fn push_quoted(buf: &mut String, text: &str)
    ensures
        final(buf)@ == old(buf)@ + json_quoted(text@),
{
    let literal = write_json_string(text);
    buf.append(literal.as_str());
}

impl Json {
    /// Reads a document from its text.
    pub fn parse(text: &str) -> (r: Result<Json, DecodeError>)
        ensures
            r is Ok <==> json_of_text(text@) is Some,
            r matches Ok(j) ==> json_of_text(text@) == Some(j@),
            r matches Err(e) ==> e == DecodeError::InvalidJson,
    {
        match read_json(text) {
            Ok(j) => Ok(j),
            Err(_) => Err(DecodeError::InvalidJson),
        }
    }

    /// The member of an object with the given key.
    pub fn get(&self, key: &str) -> (r: Option<&Json>)
        ensures
            view_of(r) == self@.member(key@),
    {
        match self {
            Json::Object(members) => {
                let wanted = key.to_owned();
                let ghost views = member_views(members@);
                proof {
                    lemma_object_view(*self);
                    assert(views.skip(0) =~= views);
                }
                let mut i: usize = 0;
                while i < members.len()
                    invariant
                        i <= members.len(),
                        wanted@ == key@,
                        self@ == JsonView::Object(views),
                        views == member_views(members@),
                        lookup(views, key@) == lookup(views.skip(i as int), key@),
                    decreases members.len() - i,
                {
                    let ghost rest = views.skip(i as int);
                    assert(rest.first() == views[i as int]);
                    assert(rest.drop_first() =~= views.skip(i + 1));
                    if members[i].0 == wanted {
                        assert(members[i as int].0@ =~= key@);
                        assert(lookup(rest, key@) == Some(members[i as int].1@));
                        return Some(&members[i].1);
                    }
                    i += 1;
                }
                assert(views.skip(i as int).len() == 0);
                None
            },
            _ => None,
        }
    }

    /// The item of an array at the given place.
    pub fn at(&self, index: usize) -> (r: Option<&Json>)
        ensures
            view_of(r) == self@.item(index as int),
    {
        match self {
            Json::Array(items) => {
                proof {
                    lemma_array_view(*self);
                }
                if index < items.len() {
                    Some(&items[index])
                } else {
                    None
                }
            },
            _ => None,
        }
    }

    /// The text of a string.
    pub fn as_str(&self) -> (r: Option<&str>)
        ensures
            r is Some <==> self@.text() is Some,
            r matches Some(s) ==> self@.text() == Some(s@),
    {
        match self {
            Json::String(s) => Some(s.as_str()),
            _ => None,
        }
    }

    /// The truth value of a boolean.
    pub fn as_bool(&self) -> (r: Option<bool>)
        ensures
            r == self@.truth(),
    {
        match self {
            Json::Bool(b) => Some(*b),
            _ => None,
        }
    }

    /// The value of a number.
    pub fn as_number(&self) -> (r: Option<JsonNumber>)
        ensures
            r == self@.number(),
    {
        match self {
            Json::Number(n) => Some(*n),
            _ => None,
        }
    }

    /// The items of an array.
    pub fn as_array(&self) -> (r: Option<&Vec<Json>>)
        ensures
            r is Some <==> self@ is Array,
            r matches Some(items) ==> self@ == JsonView::Array(json_views(items@)),
    {
        match self {
            Json::Array(items) => {
                proof {
                    lemma_array_view(*self);
                }
                Some(items)
            },
            _ => None,
        }
    }

    /// The members of an object.
    pub fn as_object(&self) -> (r: Option<&Vec<(String, Json)>>)
        ensures
            r is Some <==> self@ is Object,
            r matches Some(members) ==> self@ == JsonView::Object(member_views(members@)),
    {
        match self {
            Json::Object(members) => {
                proof {
                    lemma_object_view(*self);
                }
                Some(members)
            },
            _ => None,
        }
    }
}

/// The member with the given key of a document that may be absent.
pub fn descend<'a>(doc: Option<&'a Json>, key: &str) -> (r: Option<&'a Json>)
    ensures
        view_of(r) == step(view_of(doc), key@),
{
    match doc {
        Some(j) => j.get(key),
        None => None,
    }
}

/// The item at the given place of a document that may be absent.
pub fn descend_item<'a>(doc: Option<&'a Json>, index: usize) -> (r: Option<&'a Json>)
    ensures
        view_of(r) == step_item(view_of(doc), index as int),
{
    match doc {
        Some(j) => j.at(index),
        None => None,
    }
}

/// The text of a document that may be absent.
pub fn text_at<'a>(doc: Option<&'a Json>) -> (r: Option<&'a str>)
    ensures
        r is Some <==> text_of(view_of(doc)) is Some,
        r matches Some(s) ==> text_of(view_of(doc)) == Some(s@),
{
    match doc {
        Some(j) => j.as_str(),
        None => None,
    }
}

/// The truth value of a document that may be absent.
pub fn truth_at(doc: Option<&Json>) -> (r: Option<bool>)
    ensures
        r == truth_of(view_of(doc)),
{
    match doc {
        Some(j) => j.as_bool(),
        None => None,
    }
}

/// The number of a document that may be absent.
pub fn number_at(doc: Option<&Json>) -> (r: Option<JsonNumber>)
    ensures
        r == number_of(view_of(doc)),
{
    match doc {
        Some(j) => j.as_number(),
        None => None,
    }
}

/// The byte that a document holds: a non-negative integer below 256.
pub open spec fn u8_of(doc: Option<JsonView>) -> Option<u8> {
    match number_of(doc) {
        Some(n) => match n.unsigned {
            Some(u) => if u <= u8::MAX {
                Some(u as u8)
            } else {
                None
            },
            None => None,
        },
        None => None,
    }
}

/// The signed byte that a document holds: an integer from -128 to 127.
pub open spec fn i8_of(doc: Option<JsonView>) -> Option<i8> {
    match number_of(doc) {
        Some(n) => match n.signed {
            Some(i) => if i8::MIN <= i <= i8::MAX {
                Some(i as i8)
            } else {
                None
            },
            None => None,
        },
        None => None,
    }
}

/// Reads a byte.
pub fn u8_at(doc: Option<&Json>) -> (r: Option<u8>)
    ensures
        r == u8_of(view_of(doc)),
{
    match number_at(doc) {
        Some(n) => match n.unsigned {
            Some(u) => if u <= 255 {
                Some(u as u8)
            } else {
                None
            },
            None => None,
        },
        None => None,
    }
}

/// Reads a signed byte.
pub fn i8_at(doc: Option<&Json>) -> (r: Option<i8>)
    ensures
        r == i8_of(view_of(doc)),
{
    match number_at(doc) {
        Some(n) => match n.signed {
            Some(i) => if -128 <= i && i <= 127 {
                Some(i as i8)
            } else {
                None
            },
            None => None,
        },
        None => None,
    }
}

/// Whether a byte is an ASCII decimal digit.
pub open spec fn is_digit_byte(b: u8) -> bool {
    48 <= b <= 57
}

/// The place after the run of digits that starts at `from`.
pub open spec fn digits_end(bytes: Seq<u8>, from: int) -> int
    decreases bytes.len() - from,
{
    if 0 <= from < bytes.len() && is_digit_byte(bytes[from]) {
        digits_end(bytes, from + 1)
    } else {
        from
    }
}

/// Whether bytes spell a JSON number: an optional minus sign, an integer
/// without leading zeros, an optional fraction and an optional exponent.
pub open spec fn is_number_literal(bytes: Seq<u8>) -> bool {
    let int_start: int = if bytes.len() > 0 && bytes[0] == 45 {
        1
    } else {
        0
    };
    let int_end = digits_end(bytes, int_start);
    let frac_end = if int_end < bytes.len() && bytes[int_end] == 46 {
        digits_end(bytes, int_end + 1)
    } else {
        int_end
    };
    let exp_start = if frac_end < bytes.len() && (bytes[frac_end] == 101 || bytes[frac_end] == 69) {
        if frac_end + 1 < bytes.len() && (bytes[frac_end + 1] == 43 || bytes[frac_end + 1] == 45) {
            frac_end + 2
        } else {
            frac_end + 1
        }
    } else {
        frac_end
    };
    let exp_end = if exp_start > frac_end {
        digits_end(bytes, exp_start)
    } else {
        frac_end
    };
    &&& int_end > int_start
    &&& (bytes[int_start] == 48 ==> int_end == int_start + 1)
    &&& (frac_end > int_end ==> frac_end > int_end + 1)
    &&& (exp_start > frac_end ==> exp_end > exp_start)
    &&& exp_end == bytes.len()
}

/// The place after the run of digits that starts at `from`.
fn scan_digits(bytes: &[u8], from: usize) -> (end: usize)
    requires
        from <= bytes@.len(),
    ensures
        end == digits_end(bytes@, from as int),
        from <= end <= bytes@.len(),
{
    let mut i: usize = from;
    while i < bytes.len() && bytes[i] >= 48 && bytes[i] <= 57
        invariant
            from <= i <= bytes@.len(),
            digits_end(bytes@, from as int) == digits_end(bytes@, i as int),
        decreases bytes@.len() - i,
    {
        i += 1;
    }
    i
}

/// A JSON number in the text form in which it goes on the wire.
#[derive(Debug, PartialEq, Eq)]
pub struct NumberLiteral {
    text: String,
}

impl Clone for NumberLiteral {
    fn clone(&self) -> (copy: NumberLiteral)
        ensures
            copy@ == self@,
    {
        proof {
            use_type_invariant(self);
        }
        NumberLiteral { text: self.text.clone() }
    }
}

impl View for NumberLiteral {
    type V = Seq<char>;

    closed spec fn view(&self) -> Seq<char> {
        self.text@
    }
}

impl NumberLiteral {
    #[verifier::type_invariant]
    pub closed spec fn wf(self) -> bool {
        is_number_literal(encode_utf8(self.text@))
    }

    /// Takes a text as a number if it spells one.
    pub fn new(text: &str) -> (r: Option<NumberLiteral>)
        ensures
            r is Some <==> is_number_literal(encode_utf8(text@)),
            r matches Some(n) ==> n@ == text@ && n.wf(),
    {
        let bytes = text.as_bytes();
        let n = bytes.len();
        let int_start: usize = if n > 0 && bytes[0] == 45 {
            1
        } else {
            0
        };
        let int_end = scan_digits(bytes, int_start);
        if int_end == int_start {
            return None;
        }
        if bytes[int_start] == 48 && int_end != int_start + 1 {
            return None;
        }
        let mut frac_end = int_end;
        if int_end < n && bytes[int_end] == 46 {
            frac_end = scan_digits(bytes, int_end + 1);
            if frac_end == int_end + 1 {
                return None;
            }
        }
        let mut exp_end = frac_end;
        if frac_end < n && (bytes[frac_end] == 101 || bytes[frac_end] == 69) {
            let exp_start: usize = if frac_end + 1 < n && (bytes[frac_end + 1] == 43
                || bytes[frac_end + 1] == 45) {
                frac_end + 2
            } else {
                frac_end + 1
            };
            exp_end = scan_digits(bytes, exp_start);
            if exp_end == exp_start {
                return None;
            }
        }
        if exp_end != n {
            return None;
        }
        let copy = text.to_owned();
        Some(NumberLiteral { text: copy })
    }

    /// The text of the number.
    pub fn as_str(&self) -> (s: &str)
        ensures
            s@ == self@,
    {
        self.text.as_str()
    }
}

} // verus!
