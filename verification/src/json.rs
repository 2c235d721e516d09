//! A plain model of JSON values, as the server reads them from requests and
//! IDE replies and writes them into responses.

use vstd::prelude::*;
use serde_json::Value;
use crate::text::{decimal, int_decimal, push_char, push_decimal, push_int_decimal, push_str, str_eq};

verus! {

/// A JSON number, kept the way `serde_json` keeps it: a non-negative
/// integer, a negative integer, or a floating-point number, which this
/// library only carries as its decimal text.
#[derive(Debug)]
pub enum JsonNumber {
    PosInt(u64),
    NegInt(i64),
    Float(String),
}

/// A JSON value. An object keeps its members in order.
#[derive(Debug)]
pub enum Json {
    Null,
    Bool(bool),
    Number(JsonNumber),
    String(String),
    Array(Vec<Json>),
    Object(Vec<(String, Json)>),
}

/// The mathematical form of a [`JsonNumber`].
pub enum NumberView {
    PosInt(u64),
    NegInt(i64),
    Float(Seq<char>),
}

/// The mathematical form of a [`Json`] value.
pub enum JsonView {
    Null,
    Bool(bool),
    Number(NumberView),
    String(Seq<char>),
    Array(Seq<JsonView>),
    Object(Seq<(Seq<char>, JsonView)>),
}

/// The view of a number.
pub open spec fn number_view(n: JsonNumber) -> NumberView {
    match n {
        JsonNumber::PosInt(u) => NumberView::PosInt(u),
        JsonNumber::NegInt(i) => NumberView::NegInt(i),
        JsonNumber::Float(t) => NumberView::Float(t@),
    }
}

/// The view of a value.
pub open spec fn json_view(j: Json) -> JsonView
    decreases j,
{
    match j {
        Json::Null => JsonView::Null,
        Json::Bool(b) => JsonView::Bool(b),
        Json::Number(n) => JsonView::Number(number_view(n)),
        Json::String(s) => JsonView::String(s@),
        Json::Array(items) => JsonView::Array(items_view(items@)),
        Json::Object(entries) => JsonView::Object(entries_view(entries@)),
    }
}

/// The views of `items`, in order.
pub open spec fn items_view(items: Seq<Json>) -> Seq<JsonView>
    decreases items,
{
    if items.len() == 0 {
        Seq::empty()
    } else {
        items_view(items.drop_last()).push(json_view(items.last()))
    }
}

/// The views of the members `entries`, in order.
pub open spec fn entries_view(entries: Seq<(String, Json)>) -> Seq<(Seq<char>, JsonView)>
    decreases entries,
{
    if entries.len() == 0 {
        Seq::empty()
    } else {
        entries_view(entries.drop_last()).push(
            (entries.last().0@, json_view(entries.last().1)),
        )
    }
}

/// The views of a sequence of values, element by element.
pub proof fn lemma_items_view(items: Seq<Json>)
    ensures
        items_view(items).len() == items.len(),
        forall|i: int| 0 <= i < items.len() ==> #[trigger] items_view(items)[i] == json_view(items[i]),
    decreases items.len(),
{
    if items.len() > 0 {
        lemma_items_view(items.drop_last());
    }
}

/// The views of a sequence of members, member by member.
pub proof fn lemma_entries_view(entries: Seq<(String, Json)>)
    ensures
        entries_view(entries).len() == entries.len(),
        forall|i: int|
            0 <= i < entries.len() ==> #[trigger] entries_view(entries)[i] == (
                entries[i].0@,
                json_view(entries[i].1),
            ),
    decreases entries.len(),
{
    if entries.len() > 0 {
        lemma_entries_view(entries.drop_last());
    }
}

impl View for Json {
    type V = JsonView;

    open spec fn view(&self) -> JsonView {
        json_view(*self)
    }
}

/// A lower-case hexadecimal digit for `d < 16`.
pub open spec fn hex_digit(d: nat) -> char {
    if d < 10 {
        ((d + 48) as u32) as char
    } else {
        ((d + 87) as u32) as char
    }
}

/// How `serde_json` writes one character inside a JSON string: `"` and `\`
/// and the control characters escaped (`\b \t \n \f \r` by name, the
/// others as `\u00XX`), every other character as it is.
pub open spec fn escaped_char(c: char) -> Seq<char> {
    let n = c as u32;
    if c == '"' {
        seq!['\\', '"']
    } else if c == '\\' {
        seq!['\\', '\\']
    } else if n == 0x08 {
        seq!['\\', 'b']
    } else if n == 0x09 {
        seq!['\\', 't']
    } else if n == 0x0a {
        seq!['\\', 'n']
    } else if n == 0x0c {
        seq!['\\', 'f']
    } else if n == 0x0d {
        seq!['\\', 'r']
    } else if n < 0x20 {
        seq!['\\', 'u', '0', '0', hex_digit((n / 16) as nat), hex_digit((n % 16) as nat)]
    } else {
        seq![c]
    }
}

/// The characters of `s`, each written as [`escaped_char`] does.
pub open spec fn escaped(s: Seq<char>) -> Seq<char>
    decreases s.len(),
{
    if s.len() == 0 {
        Seq::empty()
    } else {
        escaped(s.drop_last()) + escaped_char(s.last())
    }
}

/// The JSON text of the string `s`: in double quotes, escaped.
pub open spec fn json_quoted(s: Seq<char>) -> Seq<char> {
    seq!['"'] + escaped(s) + seq!['"']
}

/// Calls `serde_json::to_string` on a string slice. Its contract claims what
/// the serialiser's source does with a string: a double quote, each
/// character escaped by its escape table, a double quote. It writes into a
/// `Vec<u8>`, where writing cannot fail, so the `Err` arm is never taken.
#[verifier::external_body]
pub(crate) fn quote_json(s: &str) -> (r: String)
    ensures
        r@ == json_quoted(s@),
{
    match serde_json::to_string(s) {
        Ok(t) => t,
        Err(_) => String::new(),
    }
}

/// The member `key` of `entries`: the first one with that key.
pub open spec fn member(entries: Seq<(Seq<char>, JsonView)>, key: Seq<char>) -> Option<JsonView>
    decreases entries.len(),
{
    if entries.len() == 0 {
        None
    } else if entries[0].0 == key {
        Some(entries[0].1)
    } else {
        member(entries.drop_first(), key)
    }
}

/// `Value::get` with a string key: the member `key` of an object, `None`
/// for any other value.
pub open spec fn get(j: JsonView, key: Seq<char>) -> Option<JsonView> {
    match j {
        JsonView::Object(entries) => member(entries, key),
        _ => None,
    }
}

/// `Value::get` on an optional value.
pub open spec fn get_opt(j: Option<JsonView>, key: Seq<char>) -> Option<JsonView> {
    match j {
        Some(v) => get(v, key),
        None => None,
    }
}

/// `Value::as_str`.
pub open spec fn as_str(j: JsonView) -> Option<Seq<char>> {
    match j {
        JsonView::String(s) => Some(s),
        _ => None,
    }
}

/// `Value::as_str` on an optional value.
pub open spec fn as_str_opt(j: Option<JsonView>) -> Option<Seq<char>> {
    match j {
        Some(v) => as_str(v),
        None => None,
    }
}

/// `Value::as_i64`.
pub open spec fn as_i64(j: JsonView) -> Option<i64> {
    match j {
        JsonView::Number(NumberView::PosInt(n)) => if n <= i64::MAX {
            Some(n as i64)
        } else {
            None
        },
        JsonView::Number(NumberView::NegInt(n)) => Some(n),
        _ => None,
    }
}

/// `Value::as_bool`.
pub open spec fn as_bool(j: JsonView) -> Option<bool> {
    match j {
        JsonView::Bool(b) => Some(b),
        _ => None,
    }
}

/// `Value::as_array`.
pub open spec fn as_array(j: JsonView) -> Option<Seq<JsonView>> {
    match j {
        JsonView::Array(items) => Some(items),
        _ => None,
    }
}

/// The text `Display` gives a number.
pub open spec fn number_text(n: NumberView) -> Seq<char> {
    match n {
        NumberView::PosInt(u) => decimal(u as nat),
        NumberView::NegInt(i) => int_decimal(i as int),
        NumberView::Float(t) => t,
    }
}

/// The text of `true` or `false`.
pub open spec fn bool_text(b: bool) -> Seq<char> {
    if b {
        seq!['t', 'r', 'u', 'e']
    } else {
        seq!['f', 'a', 'l', 's', 'e']
    }
}

/// The compact JSON text of `j`, as `Value::to_string` writes it.
pub open spec fn json_text(j: JsonView) -> Seq<char>
    decreases j,
{
    match j {
        JsonView::Null => seq!['n', 'u', 'l', 'l'],
        JsonView::Bool(b) => bool_text(b),
        JsonView::Number(n) => number_text(n),
        JsonView::String(s) => json_quoted(s),
        JsonView::Array(items) => seq!['['] + items_text(items) + seq![']'],
        JsonView::Object(entries) => seq!['{'] + entries_text(entries) + seq!['}'],
    }
}

/// The texts of `items`, separated by commas.
pub open spec fn items_text(items: Seq<JsonView>) -> Seq<char>
    decreases items,
{
    if items.len() == 0 {
        Seq::empty()
    } else if items.len() == 1 {
        json_text(items[0])
    } else {
        items_text(items.drop_last()) + seq![','] + json_text(items.last())
    }
}

/// The members `"key":value` of `entries`, separated by commas.
pub open spec fn entries_text(entries: Seq<(Seq<char>, JsonView)>) -> Seq<char>
    decreases entries,
{
    if entries.len() == 0 {
        Seq::empty()
    } else if entries.len() == 1 {
        json_quoted(entries[0].0) + seq![':'] + json_text(entries[0].1)
    } else {
        entries_text(entries.drop_last()) + seq![','] + json_quoted(entries.last().0) + seq![':']
            + json_text(entries.last().1)
    }
}

/// What `serde_json` writes for the JSON text `text`: the text parsed into
/// a `serde_json::Value` and written back by its `Display`, or `None` when
/// the text does not parse.
pub uninterp spec fn serde_display(text: Seq<char>) -> Option<Seq<char>>;

/// Calls `serde_json::from_str` into a `serde_json::Value` and writes the
/// value back with `to_string`. Its contract claims only that the result
/// is a function of the text, named [`serde_display`]: `Value`'s `Display`
/// writes compact JSON, with an object's members in the order of its map.
#[verifier::external_body]
fn serde_reformat(text: &str) -> (r: Option<String>)
    ensures
        match r {
            Some(t) => serde_display(text@) == Some(t@),
            None => serde_display(text@) is None,
        },
{
    match serde_json::from_str::<serde_json::Value>(text) {
        Ok(v) => Some(v.to_string()),
        Err(_) => None,
    }
}

/// The text `serde_json` displays for `j`: its compact JSON text as
/// `serde_json` writes it back, or that text itself should it not parse.
pub open spec fn display_text(j: JsonView) -> Seq<char> {
    match serde_display(json_text(j)) {
        Some(t) => t,
        None => json_text(j),
    }
}

/// The `serde_json` value type, carried through the parser's wrapper.
#[verifier::external_type_specification]
#[verifier::external_body]
pub struct ExSerdeValue(Value);

/// The model of the value that `serde_json::from_str` parses from `text`
/// into a `serde_json::Value`, or `None` when the text is not JSON.
pub uninterp spec fn json_parse(text: Seq<char>) -> Option<JsonView>;

/// The message (`Display`) of the error `serde_json::from_str` gives for
/// text that is not JSON.
pub uninterp spec fn json_parse_error(text: Seq<char>) -> Seq<char>;

/// Converts a parsed `serde_json::Value` into the library's model, variant
/// for variant: a number as an unsigned or a negative integer when it is
/// one, else as its text; an object member for member in its map's order.
/// It claims nothing itself: [`parse_json_text`] names what the parse and
/// this conversion give.
#[verifier::external_body]
fn model_of_value(v: &Value) -> Json {
    match v {
        Value::Null => Json::Null,
        Value::Bool(b) => Json::Bool(*b),
        Value::Number(n) => Json::Number(match (n.as_u64(), n.as_i64()) {
            (Some(u), _) => JsonNumber::PosInt(u),
            (_, Some(i)) => JsonNumber::NegInt(i),
            _ => JsonNumber::Float(n.to_string()),
        }),
        Value::String(t) => Json::String(t.clone()),
        Value::Array(a) => Json::Array(a.iter().map(model_of_value).collect()),
        Value::Object(m) => Json::Object(m.iter().map(|(k, x)| (k.clone(), model_of_value(x))).collect()),
    }
}

/// Calls `serde_json::from_str` into a `serde_json::Value` and converts the
/// value to the library's model. Its contract claims that the result is a
/// function of the text: the parsed model is named [`json_parse`], the
/// error's message [`json_parse_error`], and exactly one of them comes back.
#[verifier::external_body]
pub(crate) fn parse_json_text(text: &str) -> (r: Result<Json, String>)
    ensures
        match r {
            Ok(j) => json_parse(text@) == Some(j@),
            Err(e) => json_parse(text@) is None && e@ == json_parse_error(text@),
        },
{
    match serde_json::from_str::<Value>(text) {
        Ok(v) => Ok(model_of_value(&v)),
        Err(e) => Err(e.to_string()),
    }
}

/// The JSON value of `text`, when it is JSON.
pub fn parse_json(text: &str) -> (r: Option<Json>)
    ensures
        match r {
            Some(j) => json_parse(text@) == Some(j@),
            None => json_parse(text@) is None,
        },
{
    match parse_json_text(text) {
        Ok(j) => Some(j),
        Err(_) => None,
    }
}

impl Json {
    /// A JSON string holding `s`.
    pub fn text(s: &str) -> (r: Json)
        ensures
            r@ == JsonView::String(s@),
    {
        Json::String(crate::text::to_owned_string(s))
    }

    /// A JSON object with the members `entries`, in order.
    pub fn object(entries: Vec<(String, Json)>) -> (r: Json)
        ensures
            r@ == JsonView::Object(entries_view(entries@)),
    {
        Json::Object(entries)
    }

    /// `Value::get` with a string key.
    pub fn get(&self, key: &str) -> (r: Option<&Json>)
        ensures
            match r {
                Some(v) => get(self@, key@) == Some(v@),
                None => get(self@, key@) is None,
            },
    {
        match self {
            Json::Object(entries) => {
                proof {
                    lemma_entries_view(entries@);
                }
                let ghost ev = entries_view(entries@);
                let mut i: usize = 0;
                assert(ev.skip(0) =~= ev);
                while i < entries.len()
                    invariant
                        i <= entries.len(),
                        ev == entries_view(entries@),
                        ev.len() == entries.len(),
                        forall|k: int|
                            0 <= k < entries.len() ==> #[trigger] ev[k] == (
                                entries@[k].0@,
                                json_view(entries@[k].1),
                            ),
                        get(self@, key@) == member(ev, key@),
                        member(ev, key@) == member(ev.skip(i as int), key@),
                    decreases entries.len() - i,
                {
                    proof {
                        assert(ev.skip(i as int).drop_first() =~= ev.skip(i + 1));
                        assert(ev.skip(i as int)[0] == ev[i as int]);
                    }
                    if str_eq(entries[i].0.as_str(), key) {
                        return Some(&entries[i].1);
                    }
                    i = i + 1;
                }
                None
            },
            _ => None,
        }
    }

    /// `Value::as_str`.
    pub fn as_str(&self) -> (r: Option<&String>)
        ensures
            match r {
                Some(s) => as_str(self@) == Some(s@),
                None => as_str(self@) is None,
            },
    {
        match self {
            Json::String(s) => Some(s),
            _ => None,
        }
    }

    /// `Value::as_i64`.
    pub fn as_i64(&self) -> (r: Option<i64>)
        ensures
            r == as_i64(self@),
    {
        match self {
            Json::Number(JsonNumber::PosInt(n)) => if *n <= 9223372036854775807u64 {
                Some(*n as i64)
            } else {
                None
            },
            Json::Number(JsonNumber::NegInt(n)) => Some(*n),
            _ => None,
        }
    }

    /// `Value::as_bool`.
    pub fn as_bool(&self) -> (r: Option<bool>)
        ensures
            r == as_bool(self@),
    {
        match self {
            Json::Bool(b) => Some(*b),
            _ => None,
        }
    }

    /// `Value::is_null`.
    pub fn is_null(&self) -> (r: bool)
        ensures
            r == (self@ is Null),
    {
        match self {
            Json::Null => true,
            _ => false,
        }
    }

    /// `Value::as_array`.
    pub fn as_array(&self) -> (r: Option<&Vec<Json>>)
        ensures
            match r {
                Some(v) => as_array(self@) == Some(items_view(v@)),
                None => as_array(self@) is None,
            },
    {
        match self {
            Json::Array(items) => Some(items),
            _ => None,
        }
    }

    /// A copy of this value.
    pub fn copy(&self) -> (r: Json)
        ensures
            r@ == self@,
        decreases self,
    {
        match self {
            Json::Null => Json::Null,
            Json::Bool(b) => Json::Bool(*b),
            Json::Number(JsonNumber::PosInt(u)) => Json::Number(JsonNumber::PosInt(*u)),
            Json::Number(JsonNumber::NegInt(i)) => Json::Number(JsonNumber::NegInt(*i)),
            Json::Number(JsonNumber::Float(t)) => Json::Number(JsonNumber::Float(t.clone())),
            Json::String(s) => Json::String(s.clone()),
            Json::Array(items) => {
                let mut out: Vec<Json> = Vec::new();
                let mut i: usize = 0;
                while i < items.len()
                    invariant
                        *self == Json::Array(*items),
                        i <= items.len(),
                        items_view(out@) == items_view(items@.take(i as int)),
                    decreases items.len() - i,
                {
                    proof {
                        assert(decreases_to!(*self => (*self)->Array_0));
                        let v: Vec<Json> = *items;
                        assert(decreases_to!(v => v@));
                        assert(decreases_to!(v@ => v@[i as int]));
                    }
                    let c = items[i].copy();
                    let ghost before = out@;
                    out.push(c);
                    proof {
                        assert(out@.drop_last() =~= before);
                        assert(items@.take(i + 1).drop_last() =~= items@.take(i as int));
                    }
                    i = i + 1;
                }
                assert(items@.take(items.len() as int) =~= items@);
                Json::Array(out)
            },
            Json::Object(entries) => {
                let mut out: Vec<(String, Json)> = Vec::new();
                let mut i: usize = 0;
                while i < entries.len()
                    invariant
                        *self == Json::Object(*entries),
                        i <= entries.len(),
                        entries_view(out@) == entries_view(entries@.take(i as int)),
                    decreases entries.len() - i,
                {
                    proof {
                        assert(decreases_to!(*self => (*self)->Object_0));
                        let v: Vec<(String, Json)> = *entries;
                        assert(decreases_to!(v => v@));
                        assert(decreases_to!(v@ => v@[i as int]));
                        assert(decreases_to!(v@[i as int] => v@[i as int].1));
                    }
                    let c = entries[i].1.copy();
                    let k = entries[i].0.clone();
                    let ghost before = out@;
                    out.push((k, c));
                    proof {
                        assert(out@.drop_last() =~= before);
                        assert(entries@.take(i + 1).drop_last() =~= entries@.take(i as int));
                    }
                    i = i + 1;
                }
                assert(entries@.take(entries.len() as int) =~= entries@);
                Json::Object(out)
            },
        }
    }

    /// Appends the compact JSON text of this value to `out`.
    pub fn write_text(&self, out: &mut String)
        ensures
            final(out)@ == old(out)@ + json_text(self@),
        decreases self,
    {
        let ghost start = out@;
        match self {
            Json::Null => {
                push_str(out, "null");
                proof {
                    reveal_strlit("null");
                }
                assert(out@ =~= start + json_text(self@));
            },
            Json::Bool(b) => {
                if *b {
                    push_str(out, "true");
                    proof {
                        reveal_strlit("true");
                    }
                } else {
                    push_str(out, "false");
                    proof {
                        reveal_strlit("false");
                    }
                }
                assert(out@ =~= start + json_text(self@));
            },
            Json::Number(n) => {
                match n {
                    JsonNumber::PosInt(u) => push_decimal(out, *u),
                    JsonNumber::NegInt(i) => push_int_decimal(out, *i),
                    JsonNumber::Float(t) => push_str(out, t.as_str()),
                }
            },
            Json::String(s) => {
                let q = quote_json(s.as_str());
                push_str(out, q.as_str());
            },
            Json::Array(items) => {
                push_char(out, '[');
                proof {
                    lemma_items_view(items@);
                }
                let ghost iv = items_view(items@);
                let mut i: usize = 0;
                while i < items.len()
                    invariant
                        *self == Json::Array(*items),
                        iv == items_view(items@),
                        iv.len() == items.len(),
                        forall|k: int| 0 <= k < items.len() ==> #[trigger] iv[k] == json_view(items@[k]),
                        i <= items.len(),
                        out@ == start + seq!['['] + items_text(iv.take(i as int)),
                    decreases items.len() - i,
                {
                    let ghost before = out@;
                    if i > 0 {
                        push_char(out, ',');
                    }
                    proof {
                        assert(decreases_to!(*self => (*self)->Array_0));
                        let v: Vec<Json> = *items;
                        assert(decreases_to!(v => v@));
                        assert(decreases_to!(v@ => v@[i as int]));
                    }
                    items[i].write_text(out);
                    proof {
                        let t = iv.take(i + 1);
                        assert(t.drop_last() =~= iv.take(i as int));
                        assert(t.last() == iv[i as int]);
                        if i == 0 {
                            assert(before =~= start + seq!['['] + Seq::<char>::empty());
                        } else {
                            assert(out@ =~= start + seq!['['] + (items_text(t.drop_last()) + seq![',']
                                + json_text(t.last())));
                        }
                    }
                    i = i + 1;
                }
                push_char(out, ']');
                assert(iv.take(items.len() as int) =~= iv);
                assert(out@ =~= start + json_text(self@));
            },
            Json::Object(entries) => {
                push_char(out, '{');
                proof {
                    lemma_entries_view(entries@);
                }
                let ghost ev = entries_view(entries@);
                let mut i: usize = 0;
                while i < entries.len()
                    invariant
                        *self == Json::Object(*entries),
                        ev == entries_view(entries@),
                        ev.len() == entries.len(),
                        forall|k: int|
                            0 <= k < entries.len() ==> #[trigger] ev[k] == (
                                entries@[k].0@,
                                json_view(entries@[k].1),
                            ),
                        i <= entries.len(),
                        out@ == start + seq!['{'] + entries_text(ev.take(i as int)),
                    decreases entries.len() - i,
                {
                    if i > 0 {
                        push_char(out, ',');
                    }
                    let q = quote_json(entries[i].0.as_str());
                    push_str(out, q.as_str());
                    push_char(out, ':');
                    proof {
                        assert(decreases_to!(*self => (*self)->Object_0));
                        let v: Vec<(String, Json)> = *entries;
                        assert(decreases_to!(v => v@));
                        assert(decreases_to!(v@ => v@[i as int]));
                        assert(decreases_to!(v@[i as int] => v@[i as int].1));
                    }
                    entries[i].1.write_text(out);
                    proof {
                        let t = ev.take(i + 1);
                        assert(t.drop_last() =~= ev.take(i as int));
                        assert(t.last() == ev[i as int]);
                        if i == 0 {
                            assert(out@ =~= start + seq!['{'] + (json_quoted(t[0].0) + seq![':']
                                + json_text(t[0].1)));
                        } else {
                            assert(out@ =~= start + seq!['{'] + (entries_text(t.drop_last()) + seq![
                                ',',
                            ] + json_quoted(t.last().0) + seq![':'] + json_text(t.last().1)));
                        }
                    }
                    i = i + 1;
                }
                push_char(out, '}');
                assert(ev.take(entries.len() as int) =~= ev);
                assert(out@ =~= start + json_text(self@));
            },
        }
    }

    /// The compact JSON text of this value, members in their order.
    pub fn to_text(&self) -> (r: String)
        ensures
            r@ == json_text(self@),
    {
        let mut r = String::new();
        self.write_text(&mut r);
        assert(Seq::<char>::empty() + json_text(self@) =~= json_text(self@));
        r
    }

    /// `Value::to_string`: the text `serde_json` displays for this value.
    pub fn display(&self) -> (r: String)
        ensures
            r@ == display_text(self@),
    {
        let t = self.to_text();
        match serde_reformat(t.as_str()) {
            Some(d) => d,
            None => t,
        }
    }
}

} // verus!
