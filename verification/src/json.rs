//! JSON values as plain data, with the accessors and builders that the
//! protocol needs. Reading and writing JSON text is left to `serde_json`.

use vstd::prelude::*;
use vstd::string::*;
use vstd::utf8::*;
use crate::text::{
    bytes_as_chars, decimal_string, decimal_text, decimal_value, is_decimal,
    lemma_ascii_bytes_as_chars, lemma_digits_are_ascii, owned, parse_decimal, str_eq, Decimal,
};

verus! {

/// A JSON value. A number keeps the text it was written with; an object keeps
/// its members in order, and where a key occurs twice the later member counts.
#[derive(Debug, PartialEq, Eq)]
pub enum Json {
    Null,
    Bool(bool),
    Number(String),
    String(String),
    Array(Vec<Json>),
    Object(Vec<(String, Json)>),
}

/// The mathematical value of a [`Json`].
pub enum JsonView {
    Null,
    Bool(bool),
    Number(Seq<char>),
    String(Seq<char>),
    Array(Seq<JsonView>),
    Object(Seq<(Seq<char>, JsonView)>),
}

/// The views of the items of an array.
pub open spec fn view_items(items: Seq<Json>) -> Seq<JsonView>
    decreases items,
{
    Seq::new(
        items.len(),
        |i: int|
            if 0 <= i < items.len() {
                items[i].view()
            } else {
                JsonView::Null
            },
    )
}

/// The views of the members of an object.
pub open spec fn view_fields(fields: Seq<(String, Json)>) -> Seq<(Seq<char>, JsonView)>
    decreases fields,
{
    Seq::new(
        fields.len(),
        |i: int|
            if 0 <= i < fields.len() {
                (fields[i].0@, fields[i].1.view())
            } else {
                (Seq::empty(), JsonView::Null)
            },
    )
}

impl View for Json {
    type V = JsonView;

    open spec fn view(&self) -> JsonView
        decreases self,
    {
        match self {
            Json::Null => JsonView::Null,
            Json::Bool(b) => JsonView::Bool(*b),
            Json::Number(n) => JsonView::Number(n@),
            Json::String(s) => JsonView::String(s@),
            Json::Array(items) => JsonView::Array(view_items(items@)),
            Json::Object(fields) => JsonView::Object(view_fields(fields@)),
        }
    }
}

/// The member of `fields` under `key`: the last one, where several share it.
pub open spec fn lookup(fields: Seq<(Seq<char>, JsonView)>, key: Seq<char>) -> Option<JsonView>
    decreases fields.len(),
{
    if fields.len() == 0 {
        None
    } else if fields.last().0 == key {
        Some(fields.last().1)
    } else {
        lookup(fields.drop_last(), key)
    }
}

/// The integer that a numeral denotes: digits, with `-` in front for a
/// negative one. Text with a fraction or an exponent denotes none.
pub open spec fn integer_value(s: Seq<char>) -> Option<int> {
    if s.len() > 0 && s[0] == '-' {
        if is_decimal(s.skip(1)) {
            Some(-(decimal_value(s.skip(1)) as int))
        } else {
            None
        }
    } else if is_decimal(s) {
        Some(decimal_value(s) as int)
    } else {
        None
    }
}

/// The numeral of an integer.
pub open spec fn integer_text(i: int) -> Seq<char> {
    if i < 0 {
        seq!['-'] + decimal_text((-i) as nat)
    } else {
        decimal_text(i as nat)
    }
}

impl JsonView {
    /// The member under `key` of an object; `None` of anything else.
    pub open spec fn get(self, key: Seq<char>) -> Option<JsonView> {
        match self {
            JsonView::Object(fields) => lookup(fields, key),
            _ => None,
        }
    }

    /// The text of a string; `None` of anything else.
    pub open spec fn as_str(self) -> Option<Seq<char>> {
        match self {
            JsonView::String(s) => Some(s),
            _ => None,
        }
    }

    /// The value of a boolean; `None` of anything else.
    pub open spec fn as_bool(self) -> Option<bool> {
        match self {
            JsonView::Bool(b) => Some(b),
            _ => None,
        }
    }

    /// The value as a 64-bit signed integer, where it is a number written as
    /// an integer in that range.
    pub open spec fn as_i64(self) -> Option<i64> {
        match self {
            JsonView::Number(t) => match integer_value(t) {
                Some(i) => if i64::MIN <= i <= i64::MAX {
                    Some(i as i64)
                } else {
                    None
                },
                None => None,
            },
            _ => None,
        }
    }

    /// The items of an array; `None` of anything else.
    pub open spec fn as_array(self) -> Option<Seq<JsonView>> {
        match self {
            JsonView::Array(items) => Some(items),
            _ => None,
        }
    }

    /// The string member under `key`, if there is one.
    pub open spec fn get_str(self, key: Seq<char>) -> Option<Seq<char>> {
        match self.get(key) {
            Some(v) => v.as_str(),
            None => None,
        }
    }

    /// The object with one more member at its end; anything else unchanged.
    pub open spec fn with(self, key: Seq<char>, value: JsonView) -> JsonView {
        match self {
            JsonView::Object(fields) => JsonView::Object(fields.push((key, value))),
            _ => self,
        }
    }

    /// `with`, where there is a value to add.
    pub open spec fn with_opt(self, key: Seq<char>, value: Option<JsonView>) -> JsonView {
        match value {
            Some(v) => self.with(key, v),
            None => self,
        }
    }
}

/// The view of an optional value.
pub open spec fn opt_json_view(value: Option<Json>) -> Option<JsonView> {
    match value {
        Some(v) => Some(v@),
        None => None,
    }
}

/// An optional string as an optional JSON string.
pub open spec fn opt_string_json(value: Option<String>) -> Option<JsonView> {
    match value {
        Some(s) => Some(JsonView::String(s@)),
        None => None,
    }
}

/// An optional flag as an optional JSON boolean.
pub open spec fn opt_bool_json(value: Option<bool>) -> Option<JsonView> {
    match value {
        Some(b) => Some(JsonView::Bool(b)),
        None => None,
    }
}

/// A list of strings as a JSON array.
pub open spec fn strings_json(items: Seq<String>) -> JsonView {
    JsonView::Array(Seq::new(items.len(), |i: int| JsonView::String(items[i]@)))
}

/// An optional list of strings as an optional JSON array.
pub open spec fn opt_strings_json(value: Option<Vec<String>>) -> Option<JsonView> {
    match value {
        Some(items) => Some(strings_json(items@)),
        None => None,
    }
}

/// An object with no member.
pub open spec fn empty_object() -> JsonView {
    JsonView::Object(Seq::empty())
}

/// A member that was just added is the one found under its key, and the
/// members under other keys are found as before.
pub proof fn lemma_lookup_push(
    fields: Seq<(Seq<char>, JsonView)>,
    key: Seq<char>,
    value: JsonView,
    other: Seq<char>,
)
    ensures
        lookup(fields.push((key, value)), key) == Some(value),
        other != key ==> lookup(fields.push((key, value)), other) == lookup(fields, other),
{
    let extended = fields.push((key, value));
    assert(extended.last() == (key, value));
    assert(extended.drop_last() =~= fields);
}

/// What `with` does to the members of an object: the member that was added
/// is the one found under its key, and the members under other keys are
/// found as before.
pub proof fn lemma_get_with(o: JsonView, key: Seq<char>, value: JsonView, other: Seq<char>)
    requires
        o is Object,
    ensures
        o.with(key, value) is Object,
        o.with(key, value).get(key) == Some(value),
        other != key ==> o.with(key, value).get(other) == o.get(other),
{
    lemma_lookup_push(o->Object_0, key, value, other);
}

/// What `with_opt` does to the members of an object.
pub proof fn lemma_get_with_opt(
    o: JsonView,
    key: Seq<char>,
    value: Option<JsonView>,
    other: Seq<char>,
)
    requires
        o is Object,
    ensures
        o.with_opt(key, value) is Object,
        value is Some ==> o.with_opt(key, value).get(key) == value,
        value is None ==> o.with_opt(key, value).get(key) == o.get(key),
        other != key ==> o.with_opt(key, value).get(other) == o.get(other),
{
    if value is Some {
        lemma_get_with(o, key, value->0, other);
    }
}

/// An integer is read back from its numeral: what `Json::integer` writes,
/// `as_i64` reads.
pub proof fn lemma_integer_round_trip(i: int)
    ensures
        integer_value(integer_text(i)) == Some(i),
        i64::MIN <= i <= i64::MAX ==> JsonView::Number(integer_text(i)).as_i64() == Some(i as i64),
{
    if i < 0 {
        let digits = decimal_text((-i) as nat);
        crate::text::lemma_decimal_text_value((-i) as nat);
        let text = seq!['-'] + digits;
        assert(text[0] == '-');
        assert(text.skip(1) =~= digits);
    } else {
        let digits = decimal_text(i as nat);
        crate::text::lemma_decimal_text_value(i as nat);
        assert(crate::text::is_digit(digits[0]));
    }
}

/// Reads a numeral as a signed integer of 64 bits.
pub fn parse_i64(s: &str) -> (r: Option<i64>)
    ensures
        r == (JsonView::Number(s@)).as_i64(),
{
    let bytes = s.as_bytes();
    if !s.is_ascii() {
        proof {
            if is_decimal(s@) {
                lemma_digits_are_ascii(s@);
            }
            if s@.len() > 0 && s@[0] == '-' && is_decimal(s@.skip(1)) {
                lemma_digits_are_ascii(s@.skip(1));
                assert forall|i: int| 0 <= i < s@.len() implies '\0' <= #[trigger] s@[i]
                    <= '\u{7f}' by {
                    if i > 0 {
                        assert(s@[i] == s@.skip(1)[i - 1]);
                    }
                }
            }
        }
        return None;
    }
    proof {
        lemma_ascii_bytes_as_chars(s);
    }
    let n: usize = bytes.len();
    if n > 0 && bytes[0] == 45 {
        assert(s@[0] == '-');
        assert(bytes_as_chars(bytes@.subrange(1, n as int)) =~= s@.skip(1));
        match parse_decimal(bytes, 1, n, 9223372036854775808) {
            Decimal::Value(v) => {
                if v == 9223372036854775808 {
                    Some(i64::MIN)
                } else {
                    Some(-(v as i64))
                }
            },
            _ => None,
        }
    } else {
        assert(bytes_as_chars(bytes@.subrange(0, n as int)) =~= s@);
        assert(n > 0 ==> s@[0] != '-');
        match parse_decimal(bytes, 0, n, 9223372036854775807) {
            Decimal::Value(v) => Some(v as i64),
            _ => None,
        }
    }
}

/// The numeral of a signed integer of 64 bits.
pub fn i64_string(i: i64) -> (r: String)
    ensures
        r@ == integer_text(i as int),
{
    if i < 0 {
        let magnitude: u64 = if i == i64::MIN {
            9223372036854775808
        } else {
            (-i) as u64
        };
        let digits = decimal_string(magnitude);
        proof {
            reveal_strlit("-");
        }
        let r = owned("-").concat(digits.as_str());
        assert("-"@ =~= seq!['-']);
        r
    } else {
        decimal_string(i as u64)
    }
}

impl Json {
    /// A copy of the value.
    pub fn duplicate(&self) -> (r: Json)
        ensures
            r@ == self@,
        decreases self,
    {
        match self {
            Json::Null => Json::Null,
            Json::Bool(b) => Json::Bool(*b),
            Json::Number(n) => Json::Number(n.clone()),
            Json::String(s) => Json::String(s.clone()),
            Json::Array(items) => {
                let mut out: Vec<Json> = Vec::new();
                let mut i: usize = 0;
                while i < items.len()
                    invariant
                        i <= items.len(),
                        out.len() == i,
                        *self is Array,
                        self->Array_0 == *items,
                        forall|j: int| 0 <= j < i ==> out@[j]@ == items@[j]@,
                    decreases items.len() - i,
                {
                    proof {
                        vstd::std_specs::vec::axiom_vec_index_decreases(self->Array_0, i as int);
                    }
                    let item = &items[i];
                    out.push(item.duplicate());
                    i += 1;
                }
                assert(view_items(out@) =~= view_items(items@));
                Json::Array(out)
            },
            Json::Object(fields) => {
                let mut out: Vec<(String, Json)> = Vec::new();
                let mut i: usize = 0;
                while i < fields.len()
                    invariant
                        i <= fields.len(),
                        out.len() == i,
                        *self is Object,
                        self->Object_0 == *fields,
                        forall|j: int|
                            0 <= j < i ==> out@[j].0@ == fields@[j].0@ && out@[j].1@
                                == fields@[j].1@,
                    decreases fields.len() - i,
                {
                    proof {
                        vstd::std_specs::vec::axiom_vec_index_decreases(self->Object_0, i as int);
                    }
                    let field = &fields[i];
                    out.push((field.0.clone(), field.1.duplicate()));
                    i += 1;
                }
                assert(view_fields(out@) =~= view_fields(fields@));
                Json::Object(out)
            },
        }
    }
}

impl Clone for Json {
    fn clone(&self) -> (r: Json)
        ensures
            r@ == self@,
    {
        self.duplicate()
    }
}

/// `serde_json::Value`, which passes through the functions that read and
/// write JSON text and is never looked into.
#[verifier::external_type_specification]
#[verifier::external_body]
pub struct ExValue(serde_json::Value);

/// The value that a JSON text denotes, if it is one.
pub uninterp spec fn json_decode(text: Seq<u8>) -> Option<JsonView>;

/// The compact JSON text of a value.
pub uninterp spec fn json_encode(value: JsonView) -> Seq<char>;

/// The compact JSON text of a value, in UTF-8.
pub open spec fn json_bytes(value: JsonView) -> Seq<u8> {
    encode_utf8(json_encode(value))
}

/// Copies a `serde_json::Value` into a [`Json`], variant by variant; a number
/// is copied as the text that `serde_json` prints for it.
#[verifier::external_body]
fn json_of_value(v: &serde_json::Value) -> Json {
    match v {
        serde_json::Value::Null => Json::Null,
        serde_json::Value::Bool(b) => Json::Bool(*b),
        serde_json::Value::Number(n) => Json::Number(n.to_string()),
        serde_json::Value::String(s) => Json::String(s.clone()),
        serde_json::Value::Array(a) => Json::Array(a.iter().map(json_of_value).collect()),
        serde_json::Value::Object(m) => Json::Object(
            m.iter().map(|(k, x)| (k.clone(), json_of_value(x))).collect(),
        ),
    }
}

/// Copies a [`Json`] into a `serde_json::Value`, variant by variant. A number
/// whose text `serde_json` does not read as a number becomes `null`.
#[verifier::external_body]
fn value_of_json(j: &Json) -> serde_json::Value {
    match j {
        Json::Null => serde_json::Value::Null,
        Json::Bool(b) => serde_json::Value::Bool(*b),
        Json::Number(n) => n.parse().map_or(serde_json::Value::Null, serde_json::Value::Number),
        Json::String(s) => serde_json::Value::String(s.clone()),
        Json::Array(a) => serde_json::Value::Array(a.iter().map(value_of_json).collect()),
        Json::Object(o) => serde_json::Value::Object(
            o.iter().map(|(k, x)| (k.clone(), value_of_json(x))).collect(),
        ),
    }
}

/// `serde_json::from_slice`, read into a [`Json`]. The contract gives the
/// outcome a name and claims nothing else of it: the same bytes always
/// denote the same value, or none.
#[verifier::external_body]
fn read_json(text: &[u8]) -> (r: Option<Json>)
    ensures
        r is Some <==> json_decode(text@) is Some,
        r is Some ==> json_decode(text@) == Some(r->0@),
{
    serde_json::from_slice::<serde_json::Value>(text).ok().map(|v| json_of_value(&v))
}

/// `serde_json::to_string`, applied to the value that a [`Json`] stands for.
/// The contract gives the text a name and claims nothing else of it.
#[verifier::external_body]
fn write_json(value: &Json) -> (r: String)
    ensures
        r@ == json_encode(value@),
{
    serde_json::to_string(&value_of_json(value)).unwrap_or_default()
}

/// The last member of `fields` under `key`.
pub fn find_field<'a>(fields: &'a Vec<(String, Json)>, key: &str) -> (r: Option<&'a Json>)
    ensures
        r is Some <==> lookup(view_fields(fields@), key@) is Some,
        r is Some ==> lookup(view_fields(fields@), key@) == Some(r->0@),
{
    let ghost all = view_fields(fields@);
    let mut i: usize = fields.len();
    assert(all.take(i as int) =~= all);
    while i > 0
        invariant
            i <= fields.len(),
            all == view_fields(fields@),
            lookup(all, key@) == lookup(all.take(i as int), key@),
        decreases i,
    {
        let ghost prefix = all.take(i as int);
        assert(prefix.last() == all[i - 1]);
        assert(prefix.drop_last() =~= all.take(i - 1));
        if str_eq(fields[i - 1].0.as_str(), key) {
            return Some(&fields[i - 1].1);
        }
        i -= 1;
    }
    assert(all.take(0).len() == 0);
    None
}

impl Json {
    /// Reads a JSON text.
    pub fn parse(text: &[u8]) -> (r: Option<Json>)
        ensures
            r is Some <==> json_decode(text@) is Some,
            r is Some ==> json_decode(text@) == Some(r->0@),
    {
        read_json(text)
    }

    /// Writes the value as compact JSON text.
    pub fn to_text(&self) -> (r: String)
        ensures
            r@ == json_encode(self@),
    {
        write_json(self)
    }

    /// Writes the value as compact JSON text, in UTF-8.
    pub fn to_bytes(&self) -> (r: Vec<u8>)
        ensures
            r@ == json_bytes(self@),
    {
        let text = write_json(self);
        text.as_str().as_bytes_vec()
    }

    /// A string value.
    pub fn string(s: &str) -> (r: Json)
        ensures
            r@ == JsonView::String(s@),
    {
        Json::String(owned(s))
    }

    /// An integer value.
    pub fn integer(i: i64) -> (r: Json)
        ensures
            r@ == JsonView::Number(integer_text(i as int)),
    {
        Json::Number(i64_string(i))
    }

    /// An object with no member.
    pub fn object() -> (r: Json)
        ensures
            r@ == empty_object(),
    {
        let r = Json::Object(Vec::new());
        assert(view_fields(Seq::<(String, Json)>::empty()) =~= Seq::empty());
        r
    }

    /// An array of strings.
    pub fn strings(items: &Vec<String>) -> (r: Json)
        ensures
            r@ == strings_json(items@),
    {
        let mut out: Vec<Json> = Vec::new();
        let mut i: usize = 0;
        while i < items.len()
            invariant
                i <= items.len(),
                out.len() == i,
                forall|j: int| 0 <= j < i ==> out@[j]@ == JsonView::String(items@[j]@),
            decreases items.len() - i,
        {
            out.push(Json::String(items[i].clone()));
            i += 1;
        }
        assert(view_items(out@) =~= Seq::new(
            items@.len(),
            |i: int| JsonView::String(items@[i]@),
        ));
        assert(items@.len() == strings_json(items@)->Array_0.len());
        Json::Array(out)
    }

    /// Adds a member at the end of an object, where it takes the place of any
    /// earlier member under the same key. Anything else is left as it is.
    pub fn set(&mut self, key: &str, value: Json)
        ensures
            final(self)@ == old(self)@.with(key@, value@),
    {
        match self {
            Json::Object(fields) => {
                let ghost before = fields@;
                fields.push((owned(key), value));
                assert(view_fields(fields@) =~= view_fields(before).push((key@, value@)));
            },
            _ => {},
        }
    }

    /// `set`, where there is a value to add.
    pub fn set_opt(&mut self, key: &str, value: Option<Json>)
        ensures
            final(self)@ == old(self)@.with_opt(key@, opt_json_view(value)),
    {
        match value {
            Some(v) => self.set(key, v),
            None => {},
        }
    }

    /// An optional string as an optional JSON string.
    pub fn opt_string(value: &Option<String>) -> (r: Option<Json>)
        ensures
            opt_json_view(r) == opt_string_json(*value),
    {
        match value {
            Some(s) => Some(Json::string(s.as_str())),
            None => None,
        }
    }

    /// An optional flag as an optional JSON boolean.
    pub fn opt_bool(value: &Option<bool>) -> (r: Option<Json>)
        ensures
            opt_json_view(r) == opt_bool_json(*value),
    {
        match value {
            Some(b) => Some(Json::Bool(*b)),
            None => None,
        }
    }

    /// An optional list of strings as an optional JSON array.
    pub fn opt_strings(value: &Option<Vec<String>>) -> (r: Option<Json>)
        ensures
            opt_json_view(r) == opt_strings_json(*value),
    {
        match value {
            Some(items) => Some(Json::strings(items)),
            None => None,
        }
    }

    /// An object with the given members, each copied.
    pub fn object_of(fields: &Vec<(String, Json)>) -> (r: Json)
        ensures
            r@ == JsonView::Object(view_fields(fields@)),
    {
        let mut out: Vec<(String, Json)> = Vec::new();
        let mut i: usize = 0;
        while i < fields.len()
            invariant
                i <= fields.len(),
                out.len() == i,
                forall|j: int|
                    0 <= j < i ==> out@[j].0@ == fields@[j].0@ && out@[j].1@ == fields@[j].1@,
            decreases fields.len() - i,
        {
            out.push((fields[i].0.clone(), fields[i].1.duplicate()));
            i += 1;
        }
        assert(view_fields(out@) =~= view_fields(fields@));
        Json::Object(out)
    }

    /// An array with the given items, each copied.
    pub fn array_of(items: &Vec<Json>) -> (r: Json)
        ensures
            r@ == JsonView::Array(view_items(items@)),
    {
        let mut out: Vec<Json> = Vec::new();
        let mut i: usize = 0;
        while i < items.len()
            invariant
                i <= items.len(),
                out.len() == i,
                forall|j: int| 0 <= j < i ==> out@[j]@ == items@[j]@,
            decreases items.len() - i,
        {
            out.push(items[i].duplicate());
            i += 1;
        }
        assert(view_items(out@) =~= view_items(items@));
        Json::Array(out)
    }

    /// The member under `key`, where this is an object that has one.
    pub fn get(&self, key: &str) -> (r: Option<&Json>)
        ensures
            r is Some <==> self@.get(key@) is Some,
            r is Some ==> self@.get(key@) == Some(r->0@),
    {
        match self {
            Json::Object(fields) => find_field(fields, key),
            _ => None,
        }
    }

    /// The text of a string; `None` of anything else.
    pub fn as_str(&self) -> (r: Option<&str>)
        ensures
            r is Some <==> self@.as_str() is Some,
            r is Some ==> self@.as_str() == Some(r->0@),
    {
        match self {
            Json::String(s) => Some(s.as_str()),
            _ => None,
        }
    }

    /// The value of a boolean; `None` of anything else.
    pub fn as_bool(&self) -> (r: Option<bool>)
        ensures
            r == self@.as_bool(),
    {
        match self {
            Json::Bool(b) => Some(*b),
            _ => None,
        }
    }

    /// The value as a 64-bit signed integer, where it is a number written as
    /// an integer in that range.
    pub fn as_i64(&self) -> (r: Option<i64>)
        ensures
            r == self@.as_i64(),
    {
        match self {
            Json::Number(t) => parse_i64(t.as_str()),
            _ => None,
        }
    }

    /// The items of an array; `None` of anything else.
    pub fn as_array(&self) -> (r: Option<&Vec<Json>>)
        ensures
            r is Some <==> self@.as_array() is Some,
            r is Some ==> self@.as_array() == Some(view_items(r->0@)),
    {
        match self {
            Json::Array(items) => Some(items),
            _ => None,
        }
    }

    /// Whether the value is null.
    pub fn is_null(&self) -> (r: bool)
        ensures
            r == (self@ is Null),
    {
        match self {
            Json::Null => true,
            _ => false,
        }
    }

    /// The string member under `key`, if there is one.
    pub fn get_str(&self, key: &str) -> (r: Option<&str>)
        ensures
            r is Some <==> self@.get_str(key@) is Some,
            r is Some ==> self@.get_str(key@) == Some(r->0@),
    {
        match self.get(key) {
            Some(v) => v.as_str(),
            None => None,
        }
    }
}

} // verus!
