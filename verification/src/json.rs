use crate::text::{same_text, texts};
use serde_json::Value;
use vstd::prelude::*;

verus! {

/// A JSON number: a non-negative integer, a negative integer, or a finite binary64 value held
/// by its bit pattern.
#[derive(Clone, Copy, Debug, PartialEq, Eq, Structural)]
pub enum JsonNumber {
    PosInt(u64),
    NegInt(i64),
    Float(u64),
}

/// The mathematical value of a JSON document.
pub enum JsonValue {
    Null,
    Bool(bool),
    Number(JsonNumber),
    Text(Seq<char>),
    Array(Seq<JsonValue>),
    Object(Seq<(Seq<char>, JsonValue)>),
}

impl JsonValue {
    /// Whether this value can be written out as it stands: no number with a fraction, every
    /// negative integer below zero, and no key twice in one object.
    pub open spec fn canonical(self) -> bool
        decreases self,
    {
        match self {
            JsonValue::Number(JsonNumber::NegInt(i)) => i < 0,
            JsonValue::Number(JsonNumber::Float(_)) => false,
            JsonValue::Array(items) => forall|i: int|
                0 <= i < items.len() ==> (#[trigger] items[i]).canonical(),
            JsonValue::Object(members) => {
                &&& forall|i: int|
                    0 <= i < members.len() ==> (#[trigger] members[i]).1.canonical()
                &&& forall|i: int, j: int|
                    0 <= i < j < members.len() ==> (#[trigger] members[i]).0 != (
                    #[trigger] members[j]).0
            },
            _ => true,
        }
    }
}

/// A JSON document in memory. An object keeps its members in document order.
#[derive(Debug, PartialEq, Eq)]
pub enum Json {
    Null,
    Bool(bool),
    Number(JsonNumber),
    Text(String),
    Array(Vec<Json>),
    Object(Vec<(String, Json)>),
}

/// The value of a document.
pub open spec fn json_value(json: Json) -> JsonValue
    decreases json, 0nat,
{
    match json {
        Json::Null => JsonValue::Null,
        Json::Bool(b) => JsonValue::Bool(b),
        Json::Number(n) => JsonValue::Number(n),
        Json::Text(s) => JsonValue::Text(s@),
        Json::Array(items) => JsonValue::Array(values_upto(items, items@.len())),
        Json::Object(members) => JsonValue::Object(members_upto(members, members@.len())),
    }
}

/// The values of the first `n` items.
pub open spec fn values_upto(items: Vec<Json>, n: nat) -> Seq<JsonValue>
    decreases items, n,
{
    if 0 < n <= items@.len() {
        values_upto(items, (n - 1) as nat).push(json_value(items@[n - 1]))
    } else {
        Seq::empty()
    }
}

/// The keys and values of the first `n` members.
pub open spec fn members_upto(members: Vec<(String, Json)>, n: nat) -> Seq<(Seq<char>, JsonValue)>
    decreases members, n,
{
    if 0 < n <= members@.len() {
        members_upto(members, (n - 1) as nat).push(
            (members@[n - 1].0@, json_value(members@[n - 1].1)),
        )
    } else {
        Seq::empty()
    }
}

impl View for Json {
    type V = JsonValue;

    open spec fn view(&self) -> JsonValue {
        json_value(*self)
    }
}

/// The values of a vector of documents, in order.
pub open spec fn array_view(items: Seq<Json>) -> Seq<JsonValue> {
    Seq::new(items.len(), |i: int| items[i]@)
}

/// The keys and values of an object's members, in order.
pub open spec fn members_view(members: Seq<(String, Json)>) -> Seq<(Seq<char>, JsonValue)> {
    Seq::new(members.len(), |i: int| (members[i].0@, members[i].1@))
}

/// The value of the first member under `key`, if there is one.
pub open spec fn find_member(members: Seq<(Seq<char>, JsonValue)>, key: Seq<char>) -> Option<
    JsonValue,
>
    decreases members.len(),
{
    if members.len() == 0 {
        None
    } else if members[0].0 == key {
        Some(members[0].1)
    } else {
        find_member(members.drop_first(), key)
    }
}

impl JsonValue {
    /// The member of an object under `key`; `None` for a missing member and for what is no
    /// object.
    pub open spec fn member(self, key: Seq<char>) -> Option<JsonValue> {
        match self {
            JsonValue::Object(members) => find_member(members, key),
            _ => None,
        }
    }

    /// The integer, if this is one that fits `i64`.
    pub open spec fn signed(self) -> Option<i64> {
        match self {
            JsonValue::Number(JsonNumber::PosInt(n)) => if n <= i64::MAX {
                Some(n as i64)
            } else {
                None
            },
            JsonValue::Number(JsonNumber::NegInt(i)) => Some(i),
            _ => None,
        }
    }

    /// The strings of an array that holds nothing but strings.
    pub open spec fn text_list(self) -> Option<Seq<Seq<char>>> {
        match self {
            JsonValue::Array(items) => if forall|i: int|
                0 <= i < items.len() ==> #[trigger] items[i] is Text {
                Some(Seq::new(items.len(), |i: int| items[i]->Text_0))
            } else {
                None
            },
            _ => None,
        }
    }
}

impl JsonValue {
    /// The string under `key`, which has to be there.
    pub open spec fn required_text(self, key: Seq<char>) -> Option<Seq<char>> {
        match self.member(key) {
            Some(JsonValue::Text(text)) => Some(text),
            _ => None,
        }
    }

    /// The string under `key`, where a missing member and `null` stand for no string. The
    /// outer `None` marks a member of another type.
    pub open spec fn optional_text(self, key: Seq<char>) -> Option<Option<Seq<char>>> {
        match self.member(key) {
            None => Some(None),
            Some(JsonValue::Null) => Some(None),
            Some(JsonValue::Text(text)) => Some(Some(text)),
            Some(_) => None,
        }
    }

    /// The non-negative integer under `key`, which has to be there.
    pub open spec fn required_unsigned(self, key: Seq<char>) -> Option<u64> {
        match self.member(key) {
            Some(JsonValue::Number(JsonNumber::PosInt(n))) => Some(n),
            _ => None,
        }
    }

    /// The integer under `key`, which has to be there and to fit `i64`.
    pub open spec fn required_signed(self, key: Seq<char>) -> Option<i64> {
        match self.member(key) {
            Some(value) => value.signed(),
            None => None,
        }
    }

    /// The truth value under `key`, where a missing member and `null` stand for none. The
    /// outer `None` marks a member of another type.
    pub open spec fn optional_flag(self, key: Seq<char>) -> Option<Option<bool>> {
        match self.member(key) {
            None => Some(None),
            Some(JsonValue::Null) => Some(None),
            Some(JsonValue::Bool(flag)) => Some(Some(flag)),
            Some(_) => None,
        }
    }

    /// The list of strings under `key`, which has to be there.
    pub open spec fn required_text_list(self, key: Seq<char>) -> Option<Seq<Seq<char>>> {
        match self.member(key) {
            Some(value) => value.text_list(),
            None => None,
        }
    }

    /// The list of strings under `key`, where a missing member and `null` stand for no list.
    /// The outer `None` marks a member that is no list of strings.
    pub open spec fn optional_text_list(self, key: Seq<char>) -> Option<Option<Seq<Seq<char>>>> {
        match self.member(key) {
            None => Some(None),
            Some(JsonValue::Null) => Some(None),
            Some(value) => match value.text_list() {
                Some(list) => Some(Some(list)),
                None => None,
            },
        }
    }
}

impl JsonValue {
    /// The number that stands for `i`.
    pub open spec fn integer(i: i64) -> JsonValue {
        if i >= 0 {
            JsonValue::Number(JsonNumber::PosInt(i as u64))
        } else {
            JsonValue::Number(JsonNumber::NegInt(i))
        }
    }

    /// The array of the strings of `list`.
    pub open spec fn text_array(list: Seq<Seq<char>>) -> JsonValue {
        JsonValue::Array(Seq::new(list.len(), |i: int| JsonValue::Text(list[i])))
    }
}

/// The first `n` items' values are the first `n` of all the items' values.
proof fn lemma_values_upto(items: Vec<Json>, n: nat)
    requires
        n <= items@.len(),
    ensures
        values_upto(items, n) == array_view(items@).take(n as int),
    decreases n,
{
    if n > 0 {
        lemma_values_upto(items, (n - 1) as nat);
    }
    assert(values_upto(items, n) =~= array_view(items@).take(n as int));
}

/// The first `n` members' keys and values are the first `n` of all of them.
proof fn lemma_members_upto(members: Vec<(String, Json)>, n: nat)
    requires
        n <= members@.len(),
    ensures
        members_upto(members, n) == members_view(members@).take(n as int),
    decreases n,
{
    if n > 0 {
        lemma_members_upto(members, (n - 1) as nat);
    }
    assert(members_upto(members, n) =~= members_view(members@).take(n as int));
}

/// The value of an array is the array of its items' values.
pub proof fn lemma_array_view(items: Vec<Json>)
    ensures
        Json::Array(items)@ == JsonValue::Array(array_view(items@)),
{
    lemma_values_upto(items, items@.len());
    assert(array_view(items@).take(items@.len() as int) =~= array_view(items@));
}

/// The value of an object is the sequence of its members' keys and values.
pub proof fn lemma_object_view(members: Vec<(String, Json)>)
    ensures
        Json::Object(members)@ == JsonValue::Object(members_view(members@)),
{
    lemma_members_upto(members, members@.len());
    assert(members_view(members@).take(members@.len() as int) =~= members_view(members@));
}

/// A search that has passed `n` members with other keys goes on behind them.
pub proof fn lemma_find_member_skip(members: Seq<(Seq<char>, JsonValue)>, key: Seq<char>, n: int)
    requires
        0 <= n <= members.len(),
        forall|i: int| 0 <= i < n ==> (#[trigger] members[i]).0 != key,
    ensures
        find_member(members, key) == find_member(members.skip(n), key),
    decreases n,
{
    if n > 0 {
        assert(members.drop_first().skip(n - 1) =~= members.skip(n));
        lemma_find_member_skip(members.drop_first(), key, n - 1);
    } else {
        assert(members.skip(0) =~= members);
    }
}

impl Json {
    /// The member of an object under `key`.
    pub fn get(&self, key: &str) -> (found: Option<&Json>)
        ensures
            match found {
                Some(json) => self@.member(key@) == Some(json@),
                None => self@.member(key@) is None,
            },
    {
        match self {
            Json::Object(members) => {
                proof {
                    lemma_object_view(*members);
                }
                let ghost all = members_view(members@);
                let mut i: usize = 0;
                while i < members.len()
                    invariant
                        i <= members.len(),
                        all == members_view(members@),
                        self@ == JsonValue::Object(all),
                        forall|k: int| 0 <= k < i ==> (#[trigger] all[k]).0 != key@,
                    decreases members.len() - i,
                {
                    if same_text(members[i].0.as_str(), key) {
                        proof {
                            lemma_find_member_skip(all, key@, i as int);
                            assert(all.skip(i as int)[0] == all[i as int]);
                        }
                        return Some(&members[i].1);
                    }
                    i += 1;
                }
                proof {
                    lemma_find_member_skip(all, key@, i as int);
                }
                None
            },
            _ => None,
        }
    }

    /// The text, if this is a string.
    pub fn as_text(&self) -> (text: Option<&String>)
        ensures
            match text {
                Some(text) => self@ == JsonValue::Text(text@),
                None => !(self@ is Text),
            },
    {
        match self {
            Json::Text(text) => Some(text),
            _ => None,
        }
    }

    /// The items, if this is an array.
    pub fn as_array(&self) -> (items: Option<&Vec<Json>>)
        ensures
            match items {
                Some(items) => self@ == JsonValue::Array(array_view(items@)),
                None => !(self@ is Array),
            },
    {
        match self {
            Json::Array(items) => {
                proof {
                    lemma_array_view(*items);
                }
                Some(items)
            },
            _ => None,
        }
    }

    /// The number, if this is a non-negative integer.
    pub fn as_u64(&self) -> (number: Option<u64>)
        ensures
            match number {
                Some(n) => self@ == JsonValue::Number(JsonNumber::PosInt(n)),
                None => !(self@ matches JsonValue::Number(JsonNumber::PosInt(_))),
            },
    {
        match self {
            Json::Number(JsonNumber::PosInt(n)) => Some(*n),
            _ => None,
        }
    }

    /// The number, if this is an integer that fits `i64`.
    pub fn as_i64(&self) -> (number: Option<i64>)
        ensures
            number == self@.signed(),
    {
        match self {
            Json::Number(JsonNumber::PosInt(n)) => if *n <= i64::MAX as u64 {
                Some(*n as i64)
            } else {
                None
            },
            Json::Number(JsonNumber::NegInt(i)) => Some(*i),
            _ => None,
        }
    }

    /// The truth value, if this is one.
    pub fn as_bool(&self) -> (flag: Option<bool>)
        ensures
            match flag {
                Some(b) => self@ == JsonValue::Bool(b),
                None => !(self@ is Bool),
            },
    {
        match self {
            Json::Bool(b) => Some(*b),
            _ => None,
        }
    }

    /// Whether this is `null`.
    pub fn is_null(&self) -> (null: bool)
        ensures
            null == (self@ is Null),
    {
        match self {
            Json::Null => true,
            _ => false,
        }
    }

    /// The strings of an array that holds nothing but strings.
    pub fn as_text_list(&self) -> (list: Option<Vec<String>>)
        ensures
            match list {
                Some(list) => self@.text_list() == Some(texts(list@)),
                None => self@.text_list() is None,
            },
    {
        match self.as_array() {
            None => None,
            Some(items) => {
                let ghost values = array_view(items@);
                let mut list: Vec<String> = Vec::new();
                let mut i: usize = 0;
                while i < items.len()
                    invariant
                        i <= items.len(),
                        values == array_view(items@),
                        self@ == JsonValue::Array(values),
                        list@.len() == i,
                        forall|k: int| 0 <= k < i ==> #[trigger] values[k] == JsonValue::Text(list@[k]@),
                    decreases items.len() - i,
                {
                    match items[i].as_text() {
                        Some(text) => {
                            list.push(text.clone());
                        },
                        None => {
                            assert(!(values[i as int] is Text));
                            return None;
                        },
                    }
                    i += 1;
                }
                assert(self@.text_list()->Some_0 =~= texts(list@));
                Some(list)
            },
        }
    }
}

impl Json {
    /// The string under `key`, which has to be there.
    pub fn required_text(&self, key: &str) -> (text: Option<String>)
        ensures
            match text {
                Some(text) => self@.required_text(key@) == Some(text@),
                None => self@.required_text(key@) is None,
            },
    {
        match self.get(key) {
            Some(Json::Text(text)) => Some(text.clone()),
            _ => None,
        }
    }

    /// The string under `key`, where a missing member and `null` stand for no string. The
    /// outer `None` marks a member of another type.
    pub fn optional_text(&self, key: &str) -> (text: Option<Option<String>>)
        ensures
            match text {
                Some(Some(text)) => self@.optional_text(key@) == Some(Some(text@)),
                Some(None) => self@.optional_text(key@) == Some(None::<Seq<char>>),
                None => self@.optional_text(key@) is None,
            },
    {
        match self.get(key) {
            None => Some(None),
            Some(Json::Null) => Some(None),
            Some(Json::Text(text)) => Some(Some(text.clone())),
            Some(_) => None,
        }
    }

    /// The non-negative integer under `key`, which has to be there.
    pub fn required_unsigned(&self, key: &str) -> (number: Option<u64>)
        ensures
            number == self@.required_unsigned(key@),
    {
        match self.get(key) {
            Some(Json::Number(JsonNumber::PosInt(n))) => Some(*n),
            _ => None,
        }
    }

    /// The integer under `key`, which has to be there and to fit `i64`.
    pub fn required_signed(&self, key: &str) -> (number: Option<i64>)
        ensures
            number == self@.required_signed(key@),
    {
        match self.get(key) {
            Some(value) => value.as_i64(),
            None => None,
        }
    }

    /// The truth value under `key`, where a missing member and `null` stand for none. The
    /// outer `None` marks a member of another type.
    pub fn optional_flag(&self, key: &str) -> (flag: Option<Option<bool>>)
        ensures
            flag == self@.optional_flag(key@),
    {
        match self.get(key) {
            None => Some(None),
            Some(Json::Null) => Some(None),
            Some(Json::Bool(flag)) => Some(Some(*flag)),
            Some(_) => None,
        }
    }

    /// The list of strings under `key`, which has to be there.
    pub fn required_text_list(&self, key: &str) -> (list: Option<Vec<String>>)
        ensures
            match list {
                Some(list) => self@.required_text_list(key@) == Some(texts(list@)),
                None => self@.required_text_list(key@) is None,
            },
    {
        match self.get(key) {
            Some(value) => value.as_text_list(),
            None => None,
        }
    }

    /// The list of strings under `key`, where a missing member and `null` stand for no list.
    /// The outer `None` marks a member that is no list of strings.
    pub fn optional_text_list(&self, key: &str) -> (list: Option<Option<Vec<String>>>)
        ensures
            match list {
                Some(Some(list)) => self@.optional_text_list(key@) == Some(Some(texts(list@))),
                Some(None) => self@.optional_text_list(key@) == Some(None::<Seq<Seq<char>>>),
                None => self@.optional_text_list(key@) is None,
            },
    {
        match self.get(key) {
            None => Some(None),
            Some(Json::Null) => Some(None),
            Some(value) => match value.as_text_list() {
                Some(list) => Some(Some(list)),
                None => None,
            },
        }
    }
}

impl Json {
    /// The number that stands for `i`.
    pub fn integer(i: i64) -> (json: Json)
        ensures
            json@ == JsonValue::integer(i),
            json@.canonical(),
    {
        if i >= 0 {
            Json::Number(JsonNumber::PosInt(i as u64))
        } else {
            Json::Number(JsonNumber::NegInt(i))
        }
    }

    /// The array of the strings of `list`.
    pub fn text_array(list: &Vec<String>) -> (json: Json)
        ensures
            json@ == JsonValue::text_array(texts(list@)),
            json@.canonical(),
    {
        let mut items: Vec<Json> = Vec::new();
        let mut i: usize = 0;
        while i < list.len()
            invariant
                i <= list.len(),
                items@.len() == i,
                forall|k: int| 0 <= k < i ==> (#[trigger] items@[k])@ == JsonValue::Text(list@[k]@),
            decreases list.len() - i,
        {
            items.push(Json::Text(list[i].clone()));
            i += 1;
        }
        proof {
            lemma_array_view(items);
            let values = array_view(items@);
            assert(values =~= JsonValue::text_array(texts(list@))->Array_0);
            assert forall|k: int| 0 <= k < values.len() implies (#[trigger] values[k]).canonical() by {
                assert(values[k] is Text);
            }
        }
        Json::Array(items)
    }
}

/// `serde_json::Value`: a JSON document as the crate `serde_json` holds it. It is carried
/// between that crate's functions and the conversions below, and never looked into.
#[verifier::external_type_specification]
#[verifier::external_body]
pub struct ExValue(Value);

/// What a `serde_json::Value` holds.
pub uninterp spec fn value_content(value: Value) -> JsonValue;

/// The document that `serde_json::from_slice` reads from `bytes`, `None` where it reports an
/// error.
pub uninterp spec fn json_document(bytes: Seq<u8>) -> Option<JsonValue>;

/// The text that `serde_json::to_string_pretty` writes for a value with this content, `None`
/// where it reports an error.
pub uninterp spec fn json_pretty_text(content: JsonValue) -> Option<Seq<char>>;

/// `serde_json::from_slice` at type `serde_json::Value`: the value read from `bytes`, or `None`
/// where the bytes are not one JSON document.
#[verifier::external_body]
fn parse_value(bytes: &[u8]) -> (parsed: Option<Value>)
    ensures
        match parsed {
            Some(value) => json_document(bytes@) == Some(value_content(value)),
            None => json_document(bytes@) is None,
        },
{
    serde_json::from_slice::<Value>(bytes).ok()
}

/// `serde_json::to_string_pretty` at type `serde_json::Value`.
#[verifier::external_body]
fn pretty_text(value: &Value) -> (text: Option<String>)
    ensures
        match text {
            Some(text) => json_pretty_text(value_content(*value)) == Some(text@),
            None => json_pretty_text(value_content(*value)) is None,
        },
{
    serde_json::to_string_pretty(value).ok()
}

/// Takes a `serde_json::Value` apart, variant by variant, into a `Json` with the same content.
#[verifier::external_body]
pub(crate) fn json_of_value(value: Value) -> (json: Json)
    ensures
        json@ == value_content(value),
{
    match value {
        Value::Null => Json::Null,
        Value::Bool(b) => Json::Bool(b),
        Value::Number(n) => Json::Number(match (n.as_u64(), n.as_i64()) {
            (Some(u), _) => JsonNumber::PosInt(u),
            (None, Some(i)) => JsonNumber::NegInt(i),
            (None, None) => JsonNumber::Float(n.as_f64().unwrap_or_default().to_bits()),
        }),
        Value::String(s) => Json::Text(s),
        Value::Array(a) => Json::Array(a.into_iter().map(json_of_value).collect()),
        Value::Object(m) => Json::Object(m.into_iter().map(|(k, v)| (k, json_of_value(v))).collect()),
    }
}

/// Builds the `serde_json::Value` with the content of `json`, variant by variant.
#[verifier::external_body]
pub(crate) fn value_of_json(json: &Json) -> (value: Value)
    requires
        json@.canonical(),
    ensures
        value_content(value) == json@,
{
    match json {
        Json::Null => Value::Null,
        Json::Bool(b) => Value::Bool(*b),
        Json::Number(JsonNumber::PosInt(u)) => Value::from(*u),
        Json::Number(JsonNumber::NegInt(i)) => Value::from(*i),
        Json::Number(JsonNumber::Float(_)) => Value::Null,
        Json::Text(s) => Value::String(s.clone()),
        Json::Array(a) => Value::Array(a.iter().map(value_of_json).collect()),
        Json::Object(m) => Value::Object(m.iter().map(|(k, v)| (k.clone(), value_of_json(v))).collect()),
    }
}

pub fn parse(bytes: &[u8]) -> (parsed: Option<Json>)
    ensures
        match parsed {
            Some(json) => json_document(bytes@) == Some(json@),
            None => json_document(bytes@) is None,
        },
{
    match parse_value(bytes) {
        Some(value) => Some(json_of_value(value)),
        None => None,
    }
}

pub fn to_pretty(json: &Json) -> (text: Option<String>)
    requires
        json@.canonical(),
    ensures
        match text {
            Some(text) => json_pretty_text(json@) == Some(text@),
            None => json_pretty_text(json@) is None,
        },
{
    let value = value_of_json(json);
    pretty_text(&value)
}

} // verus!
