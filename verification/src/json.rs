//! JSON documents as trees of plain values.
//!
//! Text is turned into a tree one layer at a time: `serde_json` reads a
//! value and hands back its kind together with the text of each child, and
//! the functions here walk down from there.

use serde_json::Value;
use vstd::prelude::*;
use vstd::string::StringExecFns;

verus! {

/// `serde_json::Error`, carried as it comes: nothing is known of its inside.
#[verifier::external_type_specification]
#[verifier::external_body]
pub struct ExSyntaxError(serde_json::Error);

/// How deep a document may nest before [`Json::parse`] gives up.
pub const MAX_DEPTH: usize = 128;

/// The mathematical value of a [`JsonNumber`].
pub enum NumberView {
    Int(i64),
    Big(u64),
    Float(Seq<u8>),
}

/// The mathematical value of a [`Json`] document.
pub enum JsonView {
    Null,
    Bool(bool),
    Number(NumberView),
    Text(Seq<char>),
    Array(Seq<JsonView>),
    Object(Seq<(Seq<char>, JsonView)>),
}

/// A JSON number.
#[derive(Debug, PartialEq, Eq)]
pub enum JsonNumber {
    /// An integer that fits `i64`.
    Int(i64),
    /// A non-negative integer that fits `u64`.
    Big(u64),
    /// Any other number, as the digits it is written with.
    Float(Vec<u8>),
}

/// One `key: value` pair of an object.
#[derive(Debug, PartialEq, Eq)]
pub struct Member {
    pub key: String,
    pub value: Json,
}

/// A JSON document.
#[derive(Debug, PartialEq, Eq)]
pub enum Json {
    Null,
    Bool(bool),
    Number(JsonNumber),
    Text(String),
    Array(Vec<Json>),
    /// The members in document order.
    Object(Vec<Member>),
}

impl View for JsonNumber {
    type V = NumberView;

    open spec fn view(&self) -> NumberView {
        match self {
            JsonNumber::Int(i) => NumberView::Int(*i),
            JsonNumber::Big(u) => NumberView::Big(*u),
            JsonNumber::Float(t) => NumberView::Float(t@),
        }
    }
}

/// The value of a document: each string, array and object by its contents.
pub open spec fn value_of(j: Json) -> JsonView
    decreases j,
{
    match j {
        Json::Null => JsonView::Null,
        Json::Bool(b) => JsonView::Bool(b),
        Json::Number(n) => JsonView::Number(n@),
        Json::Text(s) => JsonView::Text(s@),
        Json::Array(items) => JsonView::Array(
            Seq::new(
                items.len() as nat,
                |i: int|
                    if 0 <= i < items.len() {
                        value_of(items[i])
                    } else {
                        JsonView::Null
                    },
            ),
        ),
        Json::Object(members) => JsonView::Object(
            Seq::new(
                members.len() as nat,
                |i: int|
                    if 0 <= i < members.len() {
                        (members[i].key@, value_of(members[i].value))
                    } else {
                        (Seq::empty(), JsonView::Null)
                    },
            ),
        ),
    }
}

impl View for Json {
    type V = JsonView;

    open spec fn view(&self) -> JsonView {
        value_of(*self)
    }
}

/// What one reading by `serde_json` yields: the kind of a value, its own
/// content where it is a scalar, and the text of each child where it is not.
pub enum Layer {
    Null,
    Bool(bool),
    /// The number as `i64` and as `u64`, where it is one, and its digits.
    Number(Option<i64>, Option<u64>, Vec<u8>),
    Text(String),
    Array(Vec<Vec<u8>>),
    Object(Vec<(String, Vec<u8>)>),
}

/// The mathematical value of a [`Layer`].
pub enum LayerView {
    Null,
    Bool(bool),
    Number(Option<i64>, Option<u64>, Seq<u8>),
    Text(Seq<char>),
    Array(Seq<Seq<u8>>),
    Object(Seq<(Seq<char>, Seq<u8>)>),
}

impl View for Layer {
    type V = LayerView;

    open spec fn view(&self) -> LayerView {
        match self {
            Layer::Null => LayerView::Null,
            Layer::Bool(b) => LayerView::Bool(*b),
            Layer::Number(i, u, digits) => LayerView::Number(*i, *u, digits@),
            Layer::Text(s) => LayerView::Text(s@),
            Layer::Array(items) => LayerView::Array(items@.map_values(|t: Vec<u8>| t@)),
            Layer::Object(members) => LayerView::Object(
                members@.map_values(|m: (String, Vec<u8>)| (m.0@, m.1@)),
            ),
        }
    }
}

/// The outermost layer that `serde_json` reads from `text`, or `None` where
/// it rejects the text.
pub uninterp spec fn json_layer(text: Seq<u8>) -> Option<LayerView>;

/// Reads the outermost layer of a JSON text.
///
/// Calls `serde_json::from_slice` for a `serde_json::Value` and takes the
/// value apart: a scalar is moved over, a number is given as `as_i64`,
/// `as_u64` and its `Display` text, and each child of an array or object is
/// given as its compact `Display` text. The contract only names the outcome;
/// nothing is claimed about what a given text reads as.
#[verifier::external_body]
fn read_layer(text: &[u8]) -> (r: Result<Layer, serde_json::Error>)
    ensures
        r matches Ok(layer) ==> json_layer(text@) == Some(layer@),
        r is Err ==> json_layer(text@) is None,
{
    Ok(match serde_json::from_slice::<Value>(text)? {
        Value::Null => Layer::Null,
        Value::Bool(b) => Layer::Bool(b),
        Value::Number(n) => Layer::Number(n.as_i64(), n.as_u64(), n.to_string().into_bytes()),
        Value::String(s) => Layer::Text(s),
        Value::Array(a) => Layer::Array(a.iter().map(|v| v.to_string().into_bytes()).collect()),
        Value::Object(m) => Layer::Object(
            m.iter().map(|(k, v)| (k.clone(), v.to_string().into_bytes())).collect(),
        ),
    })
}

/// Why a text is no JSON document.
#[derive(Debug)]
pub enum JsonError {
    /// `serde_json` rejected the text.
    Syntax(serde_json::Error),
    /// The document nests deeper than [`MAX_DEPTH`].
    TooDeep,
}

/// The number that a layer's three readings stand for: the `i64` where there
/// is one, else the `u64`, else the digits.
pub open spec fn number_of(signed: Option<i64>, unsigned: Option<u64>, digits: Seq<u8>) -> NumberView {
    match signed {
        Some(i) => NumberView::Int(i),
        None => match unsigned {
            Some(u) => NumberView::Big(u),
            None => NumberView::Float(digits),
        },
    }
}

/// The document that `text` holds, read layer by layer down to `depth`
/// nested containers; `None` where a layer is rejected or lies deeper.
pub open spec fn parsed(text: Seq<u8>, depth: nat) -> Option<JsonView>
    decreases depth, 0nat,
{
    match json_layer(text) {
        None => None,
        Some(LayerView::Null) => Some(JsonView::Null),
        Some(LayerView::Bool(b)) => Some(JsonView::Bool(b)),
        Some(LayerView::Number(i, u, digits)) => Some(JsonView::Number(number_of(i, u, digits))),
        Some(LayerView::Text(s)) => Some(JsonView::Text(s)),
        Some(LayerView::Array(items)) => {
            if depth == 0 {
                None
            } else {
                match parsed_items(items, (depth - 1) as nat) {
                    Some(values) => Some(JsonView::Array(values)),
                    None => None,
                }
            }
        },
        Some(LayerView::Object(members)) => {
            if depth == 0 {
                None
            } else {
                match parsed_members(members, (depth - 1) as nat) {
                    Some(values) => Some(JsonView::Object(values)),
                    None => None,
                }
            }
        },
    }
}

/// The documents that the texts of an array's children hold, in order;
/// `None` where one of them holds none.
pub open spec fn parsed_items(items: Seq<Seq<u8>>, depth: nat) -> Option<Seq<JsonView>>
    decreases depth, items.len() + 1,
{
    if items.len() == 0 {
        Some(Seq::empty())
    } else {
        match (parsed_items(items.drop_last(), depth), parsed(items.last(), depth)) {
            (Some(front), Some(value)) => Some(front.push(value)),
            _ => None,
        }
    }
}

/// The members of an object with the documents that their texts hold, in
/// order; `None` where one of the texts holds none.
pub open spec fn parsed_members(members: Seq<(Seq<char>, Seq<u8>)>, depth: nat) -> Option<
    Seq<(Seq<char>, JsonView)>,
>
    decreases depth, members.len() + 1,
{
    if members.len() == 0 {
        Some(Seq::empty())
    } else {
        match (parsed_members(members.drop_last(), depth), parsed(members.last().1, depth)) {
            (Some(front), Some(value)) => Some(front.push((members.last().0, value))),
            _ => None,
        }
    }
}

proof fn lemma_items_fail_with_prefix(items: Seq<Seq<u8>>, depth: nat, n: int)
    requires
        0 <= n <= items.len(),
        parsed_items(items.take(n), depth) is None,
    ensures
        parsed_items(items, depth) is None,
    decreases items.len() - n,
{
    if n < items.len() {
        assert(items.take(n + 1).drop_last() =~= items.take(n));
        lemma_items_fail_with_prefix(items, depth, n + 1);
    } else {
        assert(items.take(n) =~= items);
    }
}

proof fn lemma_members_fail_with_prefix(members: Seq<(Seq<char>, Seq<u8>)>, depth: nat, n: int)
    requires
        0 <= n <= members.len(),
        parsed_members(members.take(n), depth) is None,
    ensures
        parsed_members(members, depth) is None,
    decreases members.len() - n,
{
    if n < members.len() {
        assert(members.take(n + 1).drop_last() =~= members.take(n));
        lemma_members_fail_with_prefix(members, depth, n + 1);
    } else {
        assert(members.take(n) =~= members);
    }
}

fn parse_at(text: &[u8], depth: usize) -> (r: Result<Json, JsonError>)
    ensures
        r matches Ok(j) ==> parsed(text@, depth as nat) == Some(j@),
        r is Err ==> parsed(text@, depth as nat) is None,
        json_layer(text@) is None ==> r matches Err(JsonError::Syntax(_)),
        r matches Err(JsonError::TooDeep) ==> json_layer(text@) is Some,
    decreases depth,
{
    match read_layer(text) {
        Err(e) => Err(JsonError::Syntax(e)),
        Ok(Layer::Null) => Ok(Json::Null),
        Ok(Layer::Bool(b)) => Ok(Json::Bool(b)),
        Ok(Layer::Number(signed, unsigned, digits)) => {
            let number = match signed {
                Some(i) => JsonNumber::Int(i),
                None => match unsigned {
                    Some(u) => JsonNumber::Big(u),
                    None => JsonNumber::Float(digits),
                },
            };
            Ok(Json::Number(number))
        },
        Ok(Layer::Text(s)) => Ok(Json::Text(s)),
        Ok(Layer::Array(items)) => {
            if depth == 0 {
                return Err(JsonError::TooDeep);
            }
            let ghost texts = items@.map_values(|t: Vec<u8>| t@);
            let mut out: Vec<Json> = Vec::new();
            let mut k: usize = 0;
            assert(texts.take(0) =~= Seq::empty());
            while k < items.len()
                invariant
                    depth > 0,
                    k <= items.len(),
                    out.len() == k,
                    texts == items@.map_values(|t: Vec<u8>| t@),
                    json_layer(text@) == Some(LayerView::Array(texts)),
                    parsed_items(texts.take(k as int), (depth - 1) as nat) == Some(
                        Json::Array(out)@->Array_0,
                    ),
                decreases items.len() - k,
            {
                let ghost before = Json::Array(out)@->Array_0;
                assert(texts.take(k + 1).drop_last() =~= texts.take(k as int));
                assert(texts.take(k + 1).last() == items[k as int]@);
                match parse_at(items[k].as_slice(), depth - 1) {
                    Ok(j) => {
                        out.push(j);
                        assert(Json::Array(out)@->Array_0 =~= before.push(j@));
                    },
                    Err(e) => {
                        proof {
                            lemma_items_fail_with_prefix(texts, (depth - 1) as nat, k + 1);
                        }
                        return Err(e);
                    },
                }
                k += 1;
            }
            assert(texts.take(k as int) =~= texts);
            Ok(Json::Array(out))
        },
        Ok(Layer::Object(members)) => {
            if depth == 0 {
                return Err(JsonError::TooDeep);
            }
            let ghost pairs = members@.map_values(|m: (String, Vec<u8>)| (m.0@, m.1@));
            let mut out: Vec<Member> = Vec::new();
            let mut k: usize = 0;
            assert(pairs.take(0) =~= Seq::empty());
            while k < members.len()
                invariant
                    depth > 0,
                    k <= members.len(),
                    out.len() == k,
                    pairs == members@.map_values(|m: (String, Vec<u8>)| (m.0@, m.1@)),
                    json_layer(text@) == Some(LayerView::Object(pairs)),
                    parsed_members(pairs.take(k as int), (depth - 1) as nat) == Some(
                        Json::Object(out)@->Object_0,
                    ),
                decreases members.len() - k,
            {
                let ghost before = Json::Object(out)@->Object_0;
                assert(pairs.take(k + 1).drop_last() =~= pairs.take(k as int));
                assert(pairs.take(k + 1).last() == (members[k as int].0@, members[k as int].1@));
                match parse_at(members[k].1.as_slice(), depth - 1) {
                    Ok(value) => {
                        let key = members[k].0.clone();
                        out.push(Member { key, value });
                        assert(Json::Object(out)@->Object_0 =~= before.push((key@, value@)));
                    },
                    Err(e) => {
                        proof {
                            lemma_members_fail_with_prefix(pairs, (depth - 1) as nat, k + 1);
                        }
                        return Err(e);
                    },
                }
                k += 1;
            }
            assert(pairs.take(k as int) =~= pairs);
            Ok(Json::Object(out))
        },
    }
}

impl Json {
    /// Reads a JSON document from its text.
    ///
    /// Succeeds exactly where every layer of the text, down to
    /// [`MAX_DEPTH`] nested containers, is accepted by `serde_json`.
    pub fn parse(text: &[u8]) -> (r: Result<Json, JsonError>)
        ensures
            r matches Ok(j) ==> parsed(text@, MAX_DEPTH as nat) == Some(j@),
            r is Err ==> parsed(text@, MAX_DEPTH as nat) is None,
            json_layer(text@) is None ==> r matches Err(JsonError::Syntax(_)),
            r matches Err(JsonError::TooDeep) ==> json_layer(text@) is Some,
    {
        parse_at(text, MAX_DEPTH)
    }
}

/// The decimal digits of `n`, most significant first, as ASCII.
pub open spec fn decimal(n: nat) -> Seq<u8>
    decreases n,
{
    if n < 10 {
        seq![(48 + n) as u8]
    } else {
        decimal(n / 10).push((48 + n % 10) as u8)
    }
}

/// The decimal text of an integer: a minus sign where it is negative, then
/// the digits of its magnitude.
pub open spec fn signed_decimal(i: int) -> Seq<u8> {
    if i < 0 {
        seq![45u8] + decimal((-i) as nat)
    } else {
        decimal(i as nat)
    }
}

/// Appends the decimal digits of `n` to `out`.
pub fn write_decimal(n: u64, out: &mut Vec<u8>)
    ensures
        final(out)@ == old(out)@ + decimal(n as nat),
    decreases n,
{
    if n >= 10 {
        write_decimal(n / 10, out);
    }
    out.push(48 + (n % 10) as u8);
}

/// Appends the decimal text of `i` to `out`.
pub fn write_signed_decimal(i: i64, out: &mut Vec<u8>)
    ensures
        final(out)@ == old(out)@ + signed_decimal(i as int),
{
    if i < 0 {
        out.push(45);
        let magnitude: u64 = if i == i64::MIN {
            9223372036854775808
        } else {
            (-i) as u64
        };
        write_decimal(magnitude, out);
    } else {
        write_decimal(i as u64, out);
    }
}

/// A string as `serde_json` writes it: in double quotes, with its escapes.
pub uninterp spec fn json_quoted(s: Seq<char>) -> Seq<u8>;

/// Writes a string as a JSON string literal.
///
/// Calls `serde_json::to_vec` on the string. The contract only names the
/// outcome.
#[verifier::external_body]
fn quote(s: &str) -> (r: Vec<u8>)
    ensures
        r@ == json_quoted(s@),
{
    serde_json::to_vec(s).unwrap_or_default()
}

/// The text of a number.
pub open spec fn number_text(n: NumberView) -> Seq<u8> {
    match n {
        NumberView::Int(i) => signed_decimal(i as int),
        NumberView::Big(u) => decimal(u as nat),
        NumberView::Float(digits) => digits,
    }
}

/// The compact text of a document: no white space, members and items in
/// order, separated by commas.
pub open spec fn text_of(j: JsonView) -> Seq<u8>
    decreases j, 0nat,
{
    match j {
        JsonView::Null => seq![110u8, 117u8, 108u8, 108u8],
        JsonView::Bool(true) => seq![116u8, 114u8, 117u8, 101u8],
        JsonView::Bool(false) => seq![102u8, 97u8, 108u8, 115u8, 101u8],
        JsonView::Number(n) => number_text(n),
        JsonView::Text(s) => json_quoted(s),
        JsonView::Array(items) => seq![91u8] + items_text(items) + seq![93u8],
        JsonView::Object(members) => seq![123u8] + members_text(members) + seq![125u8],
    }
}

/// The texts of an array's items, with a comma between two of them.
pub open spec fn items_text(items: Seq<JsonView>) -> Seq<u8>
    decreases items, 1nat,
{
    if items.len() == 0 {
        Seq::empty()
    } else {
        items_text(items.drop_last()) + (if items.len() > 1 {
            seq![44u8]
        } else {
            Seq::empty()
        }) + text_of(items.last())
    }
}

/// The texts of an object's members, each as its quoted key, a colon and
/// its value, with a comma between two of them.
pub open spec fn members_text(members: Seq<(Seq<char>, JsonView)>) -> Seq<u8>
    decreases members, 1nat,
{
    if members.len() == 0 {
        Seq::empty()
    } else {
        members_text(members.drop_last()) + (if members.len() > 1 {
            seq![44u8]
        } else {
            Seq::empty()
        }) + json_quoted(members.last().0) + seq![58u8] + text_of(members.last().1)
    }
}

/// The value of the first member of `members` whose key is `key`.
pub open spec fn lookup(members: Seq<(Seq<char>, JsonView)>, key: Seq<char>) -> Option<JsonView>
    decreases members.len(),
{
    if members.len() == 0 {
        None
    } else if members[0].0 == key {
        Some(members[0].1)
    } else {
        lookup(members.skip(1), key)
    }
}

/// The keys and values of a list of members.
pub open spec fn members_value(members: Seq<Member>) -> Seq<(Seq<char>, JsonView)> {
    members.map_values(|m: Member| (m.key@, m.value@))
}

/// The keys and values of an object are those of its members, in order.
pub proof fn lemma_object_value(members: Vec<Member>)
    ensures
        Json::Object(members)@ == JsonView::Object(members_value(members@)),
{
    assert(value_of(Json::Object(members))->Object_0 =~= members_value(members@));
}

/// The items of an array have the values of its elements, in order.
pub proof fn lemma_array_value(items: Vec<Json>)
    ensures
        Json::Array(items)@ == JsonView::Array(items@.map_values(|j: Json| j@)),
{
    assert(value_of(Json::Array(items))->Array_0 =~= items@.map_values(|j: Json| j@));
}

impl JsonView {
    /// The value of the member `key`, where this is an object that has one.
    pub open spec fn member(self, key: Seq<char>) -> Option<JsonView> {
        match self {
            JsonView::Object(members) => lookup(members, key),
            _ => None,
        }
    }
}

impl NumberView {
    /// The number as an `i64`, where it is an integer in that range.
    pub open spec fn as_i64(self) -> Option<i64> {
        match self {
            NumberView::Int(i) => Some(i),
            NumberView::Big(u) => if u <= i64::MAX {
                Some(u as i64)
            } else {
                None
            },
            NumberView::Float(_) => None,
        }
    }

    /// The number as a `u64`, where it is an integer in that range.
    pub open spec fn as_u64(self) -> Option<u64> {
        match self {
            NumberView::Int(i) => if i >= 0 {
                Some(i as u64)
            } else {
                None
            },
            NumberView::Big(u) => Some(u),
            NumberView::Float(_) => None,
        }
    }
}

impl JsonNumber {
    /// The number as an `i64`, where it is an integer in that range.
    pub fn as_i64(&self) -> (r: Option<i64>)
        ensures
            r == self@.as_i64(),
    {
        match self {
            JsonNumber::Int(i) => Some(*i),
            JsonNumber::Big(u) => if *u <= 9223372036854775807 {
                Some(*u as i64)
            } else {
                None
            },
            JsonNumber::Float(_) => None,
        }
    }

    /// The number as a `u64`, where it is an integer in that range.
    pub fn as_u64(&self) -> (r: Option<u64>)
        ensures
            r == self@.as_u64(),
    {
        match self {
            JsonNumber::Int(i) => if *i >= 0 {
                Some(*i as u64)
            } else {
                None
            },
            JsonNumber::Big(u) => Some(*u),
            JsonNumber::Float(_) => None,
        }
    }

    /// A copy of the number.
    pub fn duplicate(&self) -> (r: JsonNumber)
        ensures
            r@ == self@,
    {
        match self {
            JsonNumber::Int(i) => JsonNumber::Int(*i),
            JsonNumber::Big(u) => JsonNumber::Big(*u),
            JsonNumber::Float(digits) => JsonNumber::Float(digits.clone()),
        }
    }
}

impl Member {
    /// The member `key: value`.
    pub fn new(key: &str, value: Json) -> (m: Member)
        ensures
            m.key@ == key@,
            m.value == value,
    {
        Member { key: key.to_owned(), value }
    }
}

impl Json {
    /// The object with these members.
    pub fn object(members: Vec<Member>) -> (r: Json)
        ensures
            r@ == JsonView::Object(members_value(members@)),
    {
        proof {
            lemma_object_value(members);
        }
        Json::Object(members)
    }

    /// The array of these items.
    pub fn array(items: Vec<Json>) -> (r: Json)
        ensures
            r@ == JsonView::Array(items@.map_values(|j: Json| j@)),
    {
        proof {
            lemma_array_value(items);
        }
        Json::Array(items)
    }

    /// The string `s`.
    pub fn text(s: &str) -> (r: Json)
        ensures
            r@ == JsonView::Text(s@),
    {
        Json::Text(s.to_owned())
    }

    /// A copy of the document.
    pub fn duplicate(&self) -> (r: Json)
        ensures
            r@ == self@,
        decreases self,
    {
        match self {
            Json::Null => Json::Null,
            Json::Bool(b) => Json::Bool(*b),
            Json::Number(n) => Json::Number(n.duplicate()),
            Json::Text(s) => Json::Text(s.clone()),
            Json::Array(items) => {
                let mut out: Vec<Json> = Vec::new();
                let mut k: usize = 0;
                while k < items.len()
                    invariant
                        k <= items.len(),
                        out.len() == k,
                        *self == Json::Array(*items),
                        value_of(Json::Array(out))->Array_0 == value_of(*self)->Array_0.take(k as int),
                    decreases items.len() - k,
                {
                    let ghost before = value_of(Json::Array(out))->Array_0;
                    assert(value_of(*self)->Array_0[k as int] == value_of(items[k as int]));
                    let copy = items[k].duplicate();
                    out.push(copy);
                    assert(value_of(Json::Array(out))->Array_0 =~= before.push(value_of(copy)));
                    k += 1;
                }
                assert(value_of(*self)->Array_0.take(k as int) =~= value_of(*self)->Array_0);
                Json::Array(out)
            },
            Json::Object(members) => {
                let mut out: Vec<Member> = Vec::new();
                let mut k: usize = 0;
                while k < members.len()
                    invariant
                        k <= members.len(),
                        out.len() == k,
                        *self == Json::Object(*members),
                        value_of(Json::Object(out))->Object_0 == value_of(*self)->Object_0.take(k as int),
                    decreases members.len() - k,
                {
                    let ghost before = value_of(Json::Object(out))->Object_0;
                    assert(value_of(*self)->Object_0[k as int] == (
                        members[k as int].key@,
                        value_of(members[k as int].value),
                    ));
                    let value = members[k].value.duplicate();
                    let key = members[k].key.clone();
                    out.push(Member { key, value });
                    assert(value_of(Json::Object(out))->Object_0 =~= before.push((key@, value_of(value))));
                    k += 1;
                }
                assert(value_of(*self)->Object_0.take(k as int) =~= value_of(*self)->Object_0);
                Json::Object(out)
            },
        }
    }

    /// The value of the first member named `key`, where this is an object
    /// that has one.
    pub fn get(&self, key: &str) -> (r: Option<&Json>)
        ensures
            r matches Some(v) ==> self@.member(key@) == Some(v@),
            r is None ==> self@.member(key@) is None,
    {
        match self {
            Json::Object(members) => {
                let ghost all = self@->Object_0;
                let mut k: usize = 0;
                assert(all.skip(0) =~= all);
                while k < members.len()
                    invariant
                        k <= members.len(),
                        all == Json::Object(*members)@->Object_0,
                        *self == Json::Object(*members),
                        lookup(all, key@) == lookup(all.skip(k as int), key@),
                    decreases members.len() - k,
                {
                    assert(all.skip(k as int).skip(1) =~= all.skip(k + 1));
                    assert(all.skip(k as int)[0] == (members[k as int].key@, members[k as int].value@));
                    if same_text(members[k].key.as_str(), key) {
                        return Some(&members[k].value);
                    }
                    k += 1;
                }
                None
            },
            _ => None,
        }
    }

    /// Appends the compact text of the document to `out`.
    pub fn write_to(&self, out: &mut Vec<u8>)
        ensures
            final(out)@ == old(out)@ + text_of(self@),
        decreases self,
    {
        match self {
            Json::Null => {
                out.push(110);
                out.push(117);
                out.push(108);
                out.push(108);
                assert(out@ =~= old(out)@ + text_of(self@));
            },
            Json::Bool(true) => {
                out.push(116);
                out.push(114);
                out.push(117);
                out.push(101);
                assert(out@ =~= old(out)@ + text_of(self@));
            },
            Json::Bool(false) => {
                out.push(102);
                out.push(97);
                out.push(108);
                out.push(115);
                out.push(101);
                assert(out@ =~= old(out)@ + text_of(self@));
            },
            Json::Number(JsonNumber::Int(i)) => write_signed_decimal(*i, out),
            Json::Number(JsonNumber::Big(u)) => write_decimal(*u, out),
            Json::Number(JsonNumber::Float(digits)) => out.extend_from_slice(digits.as_slice()),
            Json::Text(s) => {
                let quoted = quote(s.as_str());
                out.extend_from_slice(quoted.as_slice());
            },
            Json::Array(items) => {
                let ghost all = self@->Array_0;
                out.push(91);
                let mut k: usize = 0;
                assert(all.take(0) =~= Seq::empty());
                while k < items.len()
                    invariant
                        k <= items.len(),
                        all == Json::Array(*items)@->Array_0,
                        *self == Json::Array(*items),
                        out@ == old(out)@ + seq![91u8] + items_text(all.take(k as int)),
                    decreases items.len() - k,
                {
                    assert(all.take(k + 1).drop_last() =~= all.take(k as int));
                    assert(all.take(k + 1).last() == items[k as int]@);
                    if k > 0 {
                        out.push(44);
                    }
                    items[k].write_to(out);
                    k += 1;
                }
                assert(all.take(k as int) =~= all);
                out.push(93);
            },
            Json::Object(members) => {
                let ghost all = self@->Object_0;
                out.push(123);
                let mut k: usize = 0;
                assert(all.take(0) =~= Seq::empty());
                while k < members.len()
                    invariant
                        k <= members.len(),
                        all == Json::Object(*members)@->Object_0,
                        *self == Json::Object(*members),
                        out@ == old(out)@ + seq![123u8] + members_text(all.take(k as int)),
                    decreases members.len() - k,
                {
                    assert(all.take(k + 1).drop_last() =~= all.take(k as int));
                    assert(all.take(k + 1).last() == (members[k as int].key@, members[k as int].value@));
                    if k > 0 {
                        out.push(44);
                    }
                    let quoted = quote(members[k].key.as_str());
                    out.extend_from_slice(quoted.as_slice());
                    out.push(58);
                    members[k].value.write_to(out);
                    k += 1;
                }
                assert(all.take(k as int) =~= all);
                out.push(125);
            },
        }
    }

    /// The compact text of the document.
    pub fn to_text(&self) -> (r: Vec<u8>)
        ensures
            r@ == text_of(self@),
    {
        let mut out: Vec<u8> = Vec::new();
        self.write_to(&mut out);
        out
    }
}

/// What `serde_json` says of a text that it rejects: the `Display` text of
/// its error.
pub uninterp spec fn syntax_fault_words(error: serde_json::Error) -> Seq<char>;

/// What `serde_json` says of a text that it rejects.
///
/// Calls `to_string` on the error. The contract only names the text.
#[verifier::external_body]
pub(crate) fn syntax_error_text(error: &serde_json::Error) -> (r: String)
    ensures
        r@ == syntax_fault_words(*error),
{
    error.to_string()
}

/// The two strings, one after the other.
pub(crate) fn joined(a: &str, b: &str) -> (r: String)
    ensures
        r@ == a@ + b@,
{
    a.to_owned().concat(b)
}

/// Whether two strings hold the same characters.
pub(crate) fn same_text(a: &str, b: &str) -> (r: bool)
    ensures
        r == (a@ == b@),
{
    a.to_owned() == b.to_owned()
}

} // verus!
