//! A JSON document tree, the form in which every wire payload is inspected.
//!
//! Text is turned into a tree by serde_json; everything the library reads out
//! of a tree (fields, strings, integers) goes through the verified accessors
//! below, whose contracts the schema decoders are stated over.
use vstd::prelude::*;

verus! {

/// One JSON value. Numbers keep the decimal text that serde_json printed for
/// them, so that no floating-point value ever enters the library.
#[derive(Debug)]
pub enum JsonValue {
    Null,
    Bool(bool),
    Number(String),
    Str(String),
    Array(Vec<JsonValue>),
    Object(Vec<JsonMember>),
}

/// One `"key": value` entry of a JSON object.
#[derive(Debug)]
pub struct JsonMember {
    pub key: String,
    pub value: JsonValue,
}

/// serde_json's own document tree, carried only from the parser to
/// [`json_from_serde`].
#[verifier::external_type_specification]
#[verifier::external_body]
pub struct ExSerdeValue(serde_json::Value);

/// What serde_json makes of a text: the document tree, or its error message.
pub uninterp spec fn json_parse_of(text: Seq<char>) -> Result<JsonValue, Seq<char>>;

/// Relies on `serde_json::from_str::<serde_json::Value>` for the document tree
/// or, when the text is not JSON, on the `Display` text of its error; either
/// depends on the text alone (objects come back with their keys in serde_json's
/// order, a number as `serde_json::Number` prints it).
#[verifier::external_body]
pub(crate) fn parse_json_text(text: &str) -> (r: Result<JsonValue, String>)
    ensures
        match r {
            Ok(v) => json_parse_of(text@) == Ok::<JsonValue, Seq<char>>(v),
            Err(e) => json_parse_of(text@) == Err::<JsonValue, Seq<char>>(e@),
        },
{
    match serde_json::from_str::<serde_json::Value>(text) {
        Ok(v) => Ok(json_from_serde(v)),
        Err(e) => Err(e.to_string()),
    }
}

/// Relies on the variants of `serde_json::Value` and on the `Display` of
/// `serde_json::Number`: moves a serde_json tree into a [`JsonValue`], one
/// variant for one variant, a number as the text that serde_json prints for it.
/// It states nothing; [`parse_json_text`] is the item whose contract is
/// believed.
#[verifier::external_body]
fn json_from_serde(v: serde_json::Value) -> JsonValue {
    match v {
        serde_json::Value::Null => JsonValue::Null,
        serde_json::Value::Bool(b) => JsonValue::Bool(b),
        serde_json::Value::Number(n) => JsonValue::Number(n.to_string()),
        serde_json::Value::String(s) => JsonValue::Str(s),
        serde_json::Value::Array(a) => JsonValue::Array(a.into_iter().map(json_from_serde).collect()),
        serde_json::Value::Object(m) => JsonValue::Object(
            m.into_iter().map(|(key, value)| JsonMember { key, value: json_from_serde(value) }).collect(),
        ),
    }
}

/// The value of the first member of `ms` whose key is `key`.
pub open spec fn member_value(ms: Seq<JsonMember>, key: Seq<char>) -> Option<JsonValue>
    decreases ms.len(),
{
    if ms.len() == 0 {
        None
    } else if ms[0].key@ == key {
        Some(ms[0].value)
    } else {
        member_value(ms.drop_first(), key)
    }
}

/// The member list `ms` with every member keyed `key` left out.
pub open spec fn without_key(ms: Seq<JsonMember>, key: Seq<char>) -> Seq<JsonMember>
    decreases ms.len(),
{
    if ms.len() == 0 {
        ms
    } else if ms[0].key@ == key {
        without_key(ms.drop_first(), key)
    } else {
        seq![ms[0]] + without_key(ms.drop_first(), key)
    }
}

/// Leaving out the members keyed `key` loses that key and keeps every other.
pub proof fn lemma_without_key(ms: Seq<JsonMember>, key: Seq<char>, other: Seq<char>)
    ensures
        member_value(without_key(ms, key), other) == if other == key {
            None
        } else {
            member_value(ms, other)
        },
    decreases ms.len(),
{
    if ms.len() > 0 {
        lemma_without_key(ms.drop_first(), key, other);
        if ms[0].key@ != key {
            let rest = without_key(ms.drop_first(), key);
            assert((seq![ms[0]] + rest).drop_first() =~= rest);
        }
    }
}

impl JsonValue {
    /// The value under `key` when this is an object that has it.
    pub open spec fn field(self, key: Seq<char>) -> Option<JsonValue> {
        match self {
            JsonValue::Object(ms) => member_value(ms@, key),
            _ => None,
        }
    }

    /// Looks up the member `key` of an object; `None` for a missing key or a
    /// value that is not an object.
    pub fn get(&self, key: &str) -> (r: Option<&JsonValue>)
        ensures
            r is Some <==> self.field(key@) is Some,
            r is Some ==> self.field(key@) == Some(*r->0),
    {
        match self {
            JsonValue::Object(ms) => {
                let n = ms.len();
                let mut i: usize = 0;
                assert(ms@.subrange(0, n as int) =~= ms@);
                while i < n
                    invariant
                        n == ms@.len(),
                        i <= n,
                        self.field(key@) == member_value(ms@, key@),
                        member_value(ms@, key@) == member_value(ms@.subrange(i as int, n as int), key@),
                    decreases n - i,
                {
                    proof {
                        let rest = ms@.subrange(i as int, n as int);
                        assert(rest.drop_first() =~= ms@.subrange(i + 1, n as int));
                        assert(rest[0] == ms@[i as int]);
                    }
                    let m: &JsonMember = &ms[i];
                    if same_text(m.key.as_str(), key) {
                        assert(member_value(ms@.subrange(i as int, n as int), key@) == Some(m.value));
                        return Some(&m.value);
                    }
                    i = i + 1;
                }
                None
            },
            _ => None,
        }
    }
}

/// A member that must be a string.
pub open spec fn spec_req_string(v: JsonValue, key: Seq<char>) -> Option<String> {
    match v.field(key) {
        Some(JsonValue::Str(s)) => Some(s),
        _ => None,
    }
}

/// A member that may be absent or null, else must be a string; the outer
/// `None` means it has another type.
pub open spec fn spec_opt_string(v: JsonValue, key: Seq<char>) -> Option<Option<String>> {
    match v.field(key) {
        None => Some(None),
        Some(JsonValue::Null) => Some(None),
        Some(JsonValue::Str(s)) => Some(Some(s)),
        _ => None,
    }
}

/// A member that must be an unsigned integer of 64 bits.
pub open spec fn spec_req_u64(v: JsonValue, key: Seq<char>) -> Option<u64> {
    match v.field(key) {
        Some(JsonValue::Number(t)) => u64_of_text(t@),
        _ => None,
    }
}

/// A member that may be absent or null, else must be an unsigned integer of
/// 64 bits.
pub open spec fn spec_opt_u64(v: JsonValue, key: Seq<char>) -> Option<Option<u64>> {
    match v.field(key) {
        None => Some(None),
        Some(JsonValue::Null) => Some(None),
        Some(JsonValue::Number(t)) => match u64_of_text(t@) {
            Some(x) => Some(Some(x)),
            None => None,
        },
        _ => None,
    }
}

/// A member that must be an unsigned integer that fits in `usize`.
pub open spec fn spec_req_usize(v: JsonValue, key: Seq<char>) -> Option<usize> {
    match spec_req_u64(v, key) {
        Some(x) => if x <= usize::MAX { Some(x as usize) } else { None },
        None => None,
    }
}

/// A member that may be absent or null, else must be an unsigned integer
/// that fits in `usize`.
pub open spec fn spec_opt_usize(v: JsonValue, key: Seq<char>) -> Option<Option<usize>> {
    match spec_opt_u64(v, key) {
        Some(Some(x)) => if x <= usize::MAX { Some(Some(x as usize)) } else { None },
        Some(None) => Some(None),
        None => None,
    }
}

/// A member that may be absent or null, else must decode by `dec`.
pub open spec fn spec_opt_member<T>(
    v: JsonValue,
    key: Seq<char>,
    dec: spec_fn(JsonValue) -> Option<T>,
) -> Option<Option<T>> {
    match v.field(key) {
        None => Some(None),
        Some(JsonValue::Null) => Some(None),
        Some(x) => match dec(x) {
            Some(t) => Some(Some(t)),
            None => None,
        },
    }
}

pub fn req_string(v: &JsonValue, key: &str) -> (r: Option<String>)
    ensures
        r == spec_req_string(*v, key@),
{
    match v.get(key) {
        Some(JsonValue::Str(s)) => Some(s.clone()),
        _ => None,
    }
}

pub fn opt_string(v: &JsonValue, key: &str) -> (r: Option<Option<String>>)
    ensures
        r == spec_opt_string(*v, key@),
{
    match v.get(key) {
        None => Some(None),
        Some(JsonValue::Null) => Some(None),
        Some(JsonValue::Str(s)) => Some(Some(s.clone())),
        _ => None,
    }
}

pub fn req_u64(v: &JsonValue, key: &str) -> (r: Option<u64>)
    ensures
        r == spec_req_u64(*v, key@),
{
    match v.get(key) {
        Some(JsonValue::Number(t)) => parse_u64(t.as_str()),
        _ => None,
    }
}

pub fn opt_u64(v: &JsonValue, key: &str) -> (r: Option<Option<u64>>)
    ensures
        r == spec_opt_u64(*v, key@),
{
    match v.get(key) {
        None => Some(None),
        Some(JsonValue::Null) => Some(None),
        Some(JsonValue::Number(t)) => match parse_u64(t.as_str()) {
            Some(x) => Some(Some(x)),
            None => None,
        },
        _ => None,
    }
}

pub fn req_usize(v: &JsonValue, key: &str) -> (r: Option<usize>)
    ensures
        r == spec_req_usize(*v, key@),
{
    match req_u64(v, key) {
        Some(x) => if x <= usize::MAX as u64 { Some(x as usize) } else { None },
        None => None,
    }
}

pub fn opt_usize(v: &JsonValue, key: &str) -> (r: Option<Option<usize>>)
    ensures
        r == spec_opt_usize(*v, key@),
{
    match opt_u64(v, key) {
        Some(Some(x)) => if x <= usize::MAX as u64 { Some(Some(x as usize)) } else { None },
        Some(None) => Some(None),
        None => None,
    }
}

/// The keys of a member list, in order.
pub open spec fn keys_of(ms: Seq<JsonMember>) -> Seq<Seq<char>> {
    ms.map_values(|m: JsonMember| m.key@)
}

/// The keys of an object, in order; none for another value.
pub open spec fn object_keys(v: JsonValue) -> Seq<Seq<char>> {
    match v {
        JsonValue::Object(ms) => keys_of(ms@),
        _ => Seq::empty(),
    }
}

/// Whether the member list `ms` has the member `key` whose value satisfies `p`.
pub open spec fn seq_has(ms: Seq<JsonMember>, key: Seq<char>, p: spec_fn(JsonValue) -> bool) -> bool {
    exists|i: int| 0 <= i < ms.len() && (#[trigger] ms[i]).key@ == key && p(ms[i].value)
}

/// Whether `v` is an object with the member `key` whose value satisfies `p`.
pub open spec fn has_member_with(v: JsonValue, key: Seq<char>, p: spec_fn(JsonValue) -> bool) -> bool {
    match v {
        JsonValue::Object(ms) => seq_has(ms@, key, p),
        _ => false,
    }
}

/// Joining two member lists keeps the members of each, and joins the keys.
pub proof fn lemma_seq_has_concat(a: Seq<JsonMember>, b: Seq<JsonMember>)
    ensures
        forall|k: Seq<char>, p: spec_fn(JsonValue) -> bool|
            seq_has(a, k, p) || seq_has(b, k, p) ==> #[trigger] seq_has(a + b, k, p),
        keys_of(a + b) == keys_of(a) + keys_of(b),
{
    assert forall|k: Seq<char>, p: spec_fn(JsonValue) -> bool|
        seq_has(a, k, p) || seq_has(b, k, p) implies #[trigger] seq_has(a + b, k, p) by {
        if seq_has(a, k, p) {
            let i = choose|i: int| 0 <= i < a.len() && (#[trigger] a[i]).key@ == k && p(a[i].value);
            assert((a + b)[i] == a[i]);
        } else {
            let i = choose|i: int| 0 <= i < b.len() && (#[trigger] b[i]).key@ == k && p(b[i].value);
            assert((a + b)[a.len() + i] == b[i]);
        }
    }
    assert(keys_of(a + b) =~= keys_of(a) + keys_of(b));
}

/// Whether `v` is the JSON string `text`.
pub open spec fn is_text(v: JsonValue, text: Seq<char>) -> bool {
    v matches JsonValue::Str(t) && t@ == text
}

/// Whether `v` is a JSON number written as the shortest decimal text of `n`.
pub open spec fn is_number_of(v: JsonValue, n: int) -> bool {
    v matches JsonValue::Number(t) && is_decimal_of(t@, n)
}

/// Whether `v` is a JSON number written as the shortest decimal text of the
/// signed integer `n`.
pub open spec fn is_integer_of(v: JsonValue, n: int) -> bool {
    v matches JsonValue::Number(t) && (if n >= 0 {
        is_decimal_of(t@, n)
    } else {
        t@.len() > 1 && t@[0] == '-' && is_decimal_of(t@.drop_first(), -n)
    })
}

/// The key list `[key]` when `present`, else none.
pub open spec fn key_if(present: bool, key: Seq<char>) -> Seq<Seq<char>> {
    if present {
        seq![key]
    } else {
        Seq::empty()
    }
}

/// A value with a JSON form.
pub trait IntoJson: Sized {
    /// Whether `v` is the JSON form of this value.
    spec fn json_fits(&self, v: JsonValue) -> bool;

    /// The JSON form of this value.
    fn into_json(self) -> (r: JsonValue)
        ensures
            self.json_fits(r);
}

impl IntoJson for String {
    open spec fn json_fits(&self, v: JsonValue) -> bool {
        v == JsonValue::Str(*self)
    }

    fn into_json(self) -> (r: JsonValue) {
        JsonValue::Str(self)
    }
}

impl IntoJson for JsonValue {
    open spec fn json_fits(&self, v: JsonValue) -> bool {
        v == *self
    }

    fn into_json(self) -> (r: JsonValue) {
        self
    }
}

/// Whether `v` is an array of the JSON forms of `items`, in order.
pub open spec fn list_fits<T: IntoJson>(items: Seq<T>, v: JsonValue) -> bool {
    &&& v is Array
    &&& v->Array_0@.len() == items.len()
    &&& forall|i: int| 0 <= i < items.len() ==> #[trigger] items[i].json_fits(v->Array_0@[i])
}

/// The JSON array of the forms of `items`, in order.
pub fn list_into_json<T: IntoJson>(items: Vec<T>) -> (r: JsonValue)
    ensures
        list_fits(items@, r),
{
    let ghost orig = items@;
    let mut items = items;
    let mut out: Vec<JsonValue> = Vec::new();
    while items.len() > 0
        invariant
            out@.len() + items@.len() == orig.len(),
            items@ == orig.subrange(out@.len() as int, orig.len() as int),
            forall|j: int| 0 <= j < out@.len() ==> #[trigger] orig[j].json_fits(out@[j]),
        decreases items@.len(),
    {
        let ghost k = out@.len();
        let x = items.remove(0);
        assert(x == orig[k as int]);
        out.push(x.into_json());
        assert(items@ =~= orig.subrange(out@.len() as int, orig.len() as int));
    }
    JsonValue::Array(out)
}

/// A value that can be read out of a JSON tree.
pub trait FromJson: Sized {
    /// Whether `v` holds a value of this type.
    spec fn json_decodable(v: JsonValue) -> bool;

    /// Whether `x` is the value that `v` holds.
    spec fn json_decodes_to(v: JsonValue, x: Self) -> bool;

    fn from_json(v: &JsonValue) -> (r: Option<Self>)
        ensures
            r is Some <==> Self::json_decodable(*v),
            r is Some ==> Self::json_decodes_to(*v, r->0);
}

/// Whether every item holds a value of type `T`.
pub open spec fn list_decodable<T: FromJson>(items: Seq<JsonValue>) -> bool {
    forall|i: int| 0 <= i < items.len() ==> #[trigger] T::json_decodable(items[i])
}

/// Whether `xs` are the values that the items hold, in order.
pub open spec fn list_decodes_to<T: FromJson>(items: Seq<JsonValue>, xs: Seq<T>) -> bool {
    &&& items.len() == xs.len()
    &&& forall|i: int| 0 <= i < items.len() ==> #[trigger] T::json_decodes_to(items[i], xs[i])
}

/// Reads every item of a JSON array, in order; `None` when one does not hold
/// a value of type `T`.
pub fn decode_list<T: FromJson>(items: &Vec<JsonValue>) -> (r: Option<Vec<T>>)
    ensures
        r is Some <==> list_decodable::<T>(items@),
        r is Some ==> list_decodes_to(items@, r->0@),
{
    let mut out: Vec<T> = Vec::new();
    let mut i: usize = 0;
    while i < items.len()
        invariant
            i <= items@.len(),
            out@.len() == i,
            forall|j: int| 0 <= j < i ==> #[trigger] T::json_decodes_to(items@[j], out@[j]),
            forall|j: int| 0 <= j < i ==> #[trigger] T::json_decodable(items@[j]),
        decreases items@.len() - i,
    {
        match T::from_json(&items[i]) {
            Some(x) => out.push(x),
            None => return None,
        }
        i = i + 1;
    }
    Some(out)
}

/// A list member that may be absent or null: whether `xs` is what it holds.
pub open spec fn opt_list_fits<T: FromJson>(v: JsonValue, key: Seq<char>, xs: Option<Vec<T>>) -> bool {
    match v.field(key) {
        None => xs is None,
        Some(JsonValue::Null) => xs is None,
        Some(JsonValue::Array(items)) => xs is Some && list_decodes_to(items@, xs->0@),
        _ => false,
    }
}

/// A list member that may be absent or null: whether it can be read.
pub open spec fn opt_list_ok<T: FromJson>(v: JsonValue, key: Seq<char>) -> bool {
    match v.field(key) {
        None => true,
        Some(JsonValue::Null) => true,
        Some(JsonValue::Array(items)) => list_decodable::<T>(items@),
        _ => false,
    }
}

/// Reads a list member that may be absent or null; the outer `None` means it
/// cannot be read.
pub fn opt_list<T: FromJson>(v: &JsonValue, key: &str) -> (r: Option<Option<Vec<T>>>)
    ensures
        r is Some <==> opt_list_ok::<T>(*v, key@),
        r is Some ==> opt_list_fits(*v, key@, r->0),
{
    match v.get(key) {
        None => Some(None),
        Some(JsonValue::Null) => Some(None),
        Some(JsonValue::Array(items)) => match decode_list(items) {
            Some(xs) => Some(Some(xs)),
            None => None,
        },
        Some(_) => None,
    }
}

/// A byte, written as an integer from 0 to 255.
impl FromJson for u8 {
    open spec fn json_decodable(v: JsonValue) -> bool {
        v matches JsonValue::Number(t) && u64_of_text(t@) matches Some(x) && x <= 255
    }

    open spec fn json_decodes_to(v: JsonValue, x: u8) -> bool {
        v matches JsonValue::Number(t) && u64_of_text(t@) == Some(x as u64)
    }

    fn from_json(v: &JsonValue) -> (r: Option<u8>) {
        match v {
            JsonValue::Number(t) => match parse_u64(t.as_str()) {
                Some(x) => if x <= 255 {
                    Some(x as u8)
                } else {
                    None
                },
                None => None,
            },
            _ => None,
        }
    }
}

/// A member that must be a number; its decimal text.
pub open spec fn spec_number_text(v: JsonValue, key: Seq<char>) -> Option<String> {
    match v.field(key) {
        Some(JsonValue::Number(t)) => Some(t),
        _ => None,
    }
}

pub fn number_text(v: &JsonValue, key: &str) -> (r: Option<String>)
    ensures
        r == spec_number_text(*v, key@),
{
    match v.get(key) {
        Some(JsonValue::Number(t)) => Some(t.clone()),
        _ => None,
    }
}

/// Appends the member `key: value`.
pub fn push_member(ms: &mut Vec<JsonMember>, key: &str, value: JsonValue)
    ensures
        final(ms)@ == old(ms)@.push(final(ms)@.last()),
        final(ms)@.last().key@ == key@,
        final(ms)@.last().value == value,
{
    ms.push(JsonMember { key: String::from_str(key), value });
}

/// Appends the member `key: value` for a string value that is there.
pub fn push_opt_text(ms: &mut Vec<JsonMember>, key: &str, value: Option<String>)
    ensures
        value is None ==> final(ms)@ == old(ms)@,
        value is Some ==> final(ms)@ == old(ms)@.push(final(ms)@.last()) && final(ms)@.last().key@
            == key@ && final(ms)@.last().value == JsonValue::Str(value->0),
{
    match value {
        Some(s) => push_member(ms, key, JsonValue::Str(s)),
        None => {},
    }
}

/// Appends the member `key: value` for an unsigned integer that is there.
pub fn push_opt_u64(ms: &mut Vec<JsonMember>, key: &str, value: Option<u64>)
    ensures
        value is None ==> final(ms)@ == old(ms)@,
        value is Some ==> final(ms)@ == old(ms)@.push(final(ms)@.last()) && final(ms)@.last().key@
            == key@ && is_number_of(final(ms)@.last().value, value->0 as int),
{
    match value {
        Some(n) => push_member(ms, key, JsonValue::Number(u64_text(n))),
        None => {},
    }
}

/// Appends the member `key: value` for a boolean that is there.
pub fn push_opt_bool(ms: &mut Vec<JsonMember>, key: &str, value: Option<bool>)
    ensures
        value is None ==> final(ms)@ == old(ms)@,
        value is Some ==> final(ms)@ == old(ms)@.push(final(ms)@.last()) && final(ms)@.last().key@
            == key@ && final(ms)@.last().value == JsonValue::Bool(value->0),
{
    match value {
        Some(b) => push_member(ms, key, JsonValue::Bool(b)),
        None => {},
    }
}

/// Wraps text as a JSON string.
pub fn text_value(s: &str) -> (r: JsonValue)
    ensures
        r matches JsonValue::Str(t) && t@ == s@,
{
    JsonValue::Str(String::from_str(s))
}

/// The one-character text of a decimal digit.
fn digit_text(d: u64) -> (r: &'static str)
    requires
        d < 10,
    ensures
        r@.len() == 1,
        is_digit(r@[0]),
        digit_value(r@[0]) == d,
{
    proof {
        reveal_strlit("0");
        reveal_strlit("1");
        reveal_strlit("2");
        reveal_strlit("3");
        reveal_strlit("4");
        reveal_strlit("5");
        reveal_strlit("6");
        reveal_strlit("7");
        reveal_strlit("8");
        reveal_strlit("9");
    }
    if d == 0 {
        "0"
    } else if d == 1 {
        "1"
    } else if d == 2 {
        "2"
    } else if d == 3 {
        "3"
    } else if d == 4 {
        "4"
    } else if d == 5 {
        "5"
    } else if d == 6 {
        "6"
    } else if d == 7 {
        "7"
    } else if d == 8 {
        "8"
    } else {
        "9"
    }
}

/// Whether `s` is the shortest decimal text of `n`.
pub open spec fn is_decimal_of(s: Seq<char>, n: int) -> bool {
    &&& s.len() > 0
    &&& all_digits(s)
    &&& digits_value(s) == n
    &&& (s.len() == 1 || s[0] != '0')
}

/// The decimal text of an unsigned integer.
pub fn u64_text(n: u64) -> (r: String)
    ensures
        is_decimal_of(r@, n as int),
    decreases n,
{
    if n < 10 {
        let r = String::from_str(digit_text(n));
        assert(r@.drop_last() =~= Seq::<char>::empty());
        assert(digits_value(Seq::<char>::empty()) == 0);
        r
    } else {
        let mut s = u64_text(n / 10);
        let ghost head = s@;
        let d = digit_text(n % 10);
        s.append(d);
        proof {
            assert(s@ =~= head + d@);
            assert(s@.drop_last() =~= head);
            assert(s@.last() == d@[0]);
            assert(s@[0] == head[0]);
            assert(n as int == (n / 10) as int * 10 + (n % 10) as int);
            if head.len() == 1 {
                assert(head.drop_last() =~= Seq::<char>::empty());
                assert(digits_value(Seq::<char>::empty()) == 0);
                assert(digits_value(head) == digit_value(head[0]));
                assert(n / 10 >= 1);
            }
            assert forall|i: int| 0 <= i < s@.len() implies is_digit(#[trigger] s@[i]) by {
                if i < head.len() {
                    assert(s@[i] == head[i]);
                }
            }
        }
        s
    }
}

/// The decimal text of a signed integer, with a leading `-` when negative.
pub fn i64_text(n: i64) -> (r: String)
    ensures
        n >= 0 ==> is_decimal_of(r@, n as int),
        n < 0 ==> r@.len() > 1 && r@[0] == '-' && is_decimal_of(r@.drop_first(), -n),
{
    if n >= 0 {
        u64_text(n as u64)
    } else {
        let magnitude: u64 = if n == i64::MIN {
            9223372036854775808u64
        } else {
            (-n) as u64
        };
        let digits = u64_text(magnitude);
        proof {
            reveal_strlit("-");
        }
        let r = String::from_str("-").concat(digits.as_str());
        assert(r@.drop_first() =~= digits@);
        r
    }
}

/// Whether two texts hold the same characters.
pub fn same_text(a: &str, b: &str) -> (r: bool)
    ensures
        r == (a@ == b@),
{
    let n = a.unicode_len();
    if n != b.unicode_len() {
        return false;
    }
    let mut i: usize = 0;
    while i < n
        invariant
            n == a@.len(),
            n == b@.len(),
            i <= n,
            forall|j: int| 0 <= j < i ==> a@[j] == b@[j],
        decreases n - i,
    {
        if a.get_char(i) != b.get_char(i) {
            return false;
        }
        i = i + 1;
    }
    assert(a@ =~= b@);
    true
}

pub open spec fn is_digit(c: char) -> bool {
    '0' <= c && c <= '9'
}

pub open spec fn digit_value(c: char) -> int {
    (c as u32) as int - ('0' as u32) as int
}

/// The number that a run of decimal digits writes.
pub open spec fn digits_value(s: Seq<char>) -> int
    decreases s.len(),
{
    if s.len() == 0 {
        0
    } else {
        digits_value(s.drop_last()) * 10 + digit_value(s.last())
    }
}

pub open spec fn all_digits(s: Seq<char>) -> bool {
    forall|i: int| 0 <= i < s.len() ==> is_digit(#[trigger] s[i])
}

/// The unsigned integer that a number's text writes, when it writes one that
/// fits in 64 bits.
pub open spec fn u64_of_text(s: Seq<char>) -> Option<u64> {
    if s.len() > 0 && all_digits(s) && digits_value(s) <= u64::MAX {
        Some(digits_value(s) as u64)
    } else {
        None
    }
}

proof fn lemma_digits_nonneg(s: Seq<char>)
    requires
        all_digits(s),
    ensures
        digits_value(s) >= 0,
    decreases s.len(),
{
    if s.len() > 0 {
        lemma_digits_nonneg(s.drop_last());
    }
}

proof fn lemma_digits_grow(s: Seq<char>, k: int)
    requires
        all_digits(s),
        0 <= k <= s.len(),
    ensures
        digits_value(s) >= digits_value(s.subrange(0, k)),
    decreases s.len() - k,
{
    if k < s.len() {
        let t = s.subrange(0, k + 1);
        assert(t.drop_last() =~= s.subrange(0, k));
        lemma_digits_nonneg(s.subrange(0, k));
        lemma_digits_grow(s, k + 1);
    } else {
        assert(s.subrange(0, k) =~= s);
    }
}

/// Where the run of digits that starts at `i` ends.
pub open spec fn digit_run_end(s: Seq<char>, i: int) -> int
    decreases s.len() - i,
{
    if 0 <= i < s.len() && is_digit(s[i]) {
        digit_run_end(s, i + 1)
    } else {
        i
    }
}

/// Where the digits of the integer part start: after a leading `-`.
pub open spec fn int_start(s: Seq<char>) -> int {
    if s.len() > 0 && s[0] == '-' {
        1
    } else {
        0
    }
}

/// Where a fraction that may start at `k` ends.
pub open spec fn frac_end(s: Seq<char>, k: int) -> int {
    if k < s.len() && s[k] == '.' {
        digit_run_end(s, k + 1)
    } else {
        k
    }
}

/// Where the digits of an exponent that starts at `f` (with its `e`) start.
pub open spec fn exp_digits_start(s: Seq<char>, f: int) -> int {
    if f + 1 < s.len() && (s[f + 1] == '+' || s[f + 1] == '-') {
        f + 2
    } else {
        f + 1
    }
}

pub open spec fn has_exp(s: Seq<char>, f: int) -> bool {
    f < s.len() && (s[f] == 'e' || s[f] == 'E')
}

/// Whether `s` is a number as JSON writes one: an optional `-`, an integer
/// part without leading zeros, an optional fraction and an optional exponent,
/// each with at least one digit.
pub open spec fn is_json_number(s: Seq<char>) -> bool {
    let a = int_start(s);
    let k = digit_run_end(s, a);
    let f = frac_end(s, k);
    let p = exp_digits_start(s, f);
    &&& k > a
    &&& (s[a] != '0' || k == a + 1)
    &&& (k < s.len() && s[k] == '.' ==> f > k + 1)
    &&& (has_exp(s, f) ==> digit_run_end(s, p) > p)
    &&& (if has_exp(s, f) {
        digit_run_end(s, p)
    } else {
        f
    }) == s.len()
}

/// Where the run of digits that starts at `i` ends.
fn run_end(s: &str, n: usize, i: usize) -> (r: usize)
    requires
        n == s@.len(),
        i <= n,
    ensures
        r as int == digit_run_end(s@, i as int),
        i <= r <= n,
{
    let mut j = i;
    while j < n
        invariant
            n == s@.len(),
            i <= j <= n,
            digit_run_end(s@, i as int) == digit_run_end(s@, j as int),
        decreases n - j,
    {
        let c = s.get_char(j);
        if !('0' <= c && c <= '9') {
            return j;
        }
        j = j + 1;
    }
    j
}

/// Whether a text is a number as JSON writes one.
pub fn is_json_number_text(s: &str) -> (r: bool)
    ensures
        r == is_json_number(s@),
{
    let n = s.unicode_len();
    let a: usize = if n > 0 && s.get_char(0) == '-' {
        1
    } else {
        0
    };
    if a >= n {
        return false;
    }
    let k = run_end(s, n, a);
    if k == a {
        return false;
    }
    if s.get_char(a) == '0' && k != a + 1 {
        return false;
    }
    let f = if k < n && s.get_char(k) == '.' {
        let f = run_end(s, n, k + 1);
        if f == k + 1 {
            return false;
        }
        f
    } else {
        k
    };
    if f < n && (s.get_char(f) == 'e' || s.get_char(f) == 'E') {
        let p = if f + 1 < n && (s.get_char(f + 1) == '+' || s.get_char(f + 1) == '-') {
            f + 2
        } else {
            f + 1
        };
        let e = run_end(s, n, p);
        e > p && e == n
    } else {
        f == n
    }
}

/// Reads an unsigned decimal integer that fits in 64 bits.
pub fn parse_u64(text: &str) -> (r: Option<u64>)
    ensures
        r == u64_of_text(text@),
{
    let n = text.unicode_len();
    if n == 0 {
        return None;
    }
    let mut i: usize = 0;
    while i < n
        invariant
            n == text@.len(),
            i <= n,
            forall|j: int| 0 <= j < i ==> is_digit(#[trigger] text@[j]),
        decreases n - i,
    {
        let c = text.get_char(i);
        if !(c >= '0' && c <= '9') {
            return None;
        }
        i = i + 1;
    }
    let mut acc: u64 = 0;
    let mut i: usize = 0;
    while i < n
        invariant
            n == text@.len(),
            i <= n,
            all_digits(text@),
            acc as int == digits_value(text@.subrange(0, i as int)),
        decreases n - i,
    {
        let c = text.get_char(i);
        let d = (c as u32 - '0' as u32) as u64;
        proof {
            let t = text@.subrange(0, i + 1);
            assert(t.drop_last() =~= text@.subrange(0, i as int));
            assert(t.last() == c);
        }
        if acc > (u64::MAX - d) / 10 {
            proof {
                lemma_digits_grow(text@, i + 1);
            }
            return None;
        }
        acc = acc * 10 + d;
        i = i + 1;
    }
    assert(text@.subrange(0, n as int) =~= text@);
    Some(acc)
}

} // verus!
