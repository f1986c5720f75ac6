//! A tagged JSON value tree and its mathematical model.
//!
//! Backend responses are open-ended JSON documents.  The executable type
//! [`JsonValue`] holds one document; the spec-level type [`JsonV`] is its
//! mathematical model, with strings as character sequences.  Numbers keep
//! exactly the information a JSON number token carries: a non-negative
//! integer, a negative integer, or a non-integral number by its bit pattern,
//! which the library stores but never interprets.

use vstd::prelude::*;
use vstd::string::StrSliceExecFns;

verus! {

/// One JSON number token.  `Fractional` carries the IEEE-754 bit pattern of a
/// non-integral number; the library only stores and compares it.
#[derive(Clone, Copy, PartialEq, Eq, Structural, Debug)]
pub enum JsonNumber {
    Unsigned(u64),
    Signed(i64),
    Fractional(u64),
}

/// One JSON document: the executable value tree.  `duplicate` is the deep
/// copy, with a verified contract.
#[derive(Debug)]
pub enum JsonValue {
    Null,
    Bool(bool),
    Number(JsonNumber),
    Text(String),
    Array(Vec<JsonValue>),
    Object(Vec<(String, JsonValue)>),
}

/// The mathematical model of a JSON document.
pub ghost enum JsonV {
    Null,
    Bool(bool),
    Number(JsonNumber),
    Text(Seq<char>),
    Array(Seq<JsonV>),
    Object(Seq<(Seq<char>, JsonV)>),
}

/// The model of an executable value tree.
pub open spec fn json_view(v: JsonValue) -> JsonV
    decreases v,
{
    match v {
        JsonValue::Null => JsonV::Null,
        JsonValue::Bool(b) => JsonV::Bool(b),
        JsonValue::Number(n) => JsonV::Number(n),
        JsonValue::Text(s) => JsonV::Text(s@),
        JsonValue::Array(els) => JsonV::Array(array_view(els@)),
        JsonValue::Object(fs) => JsonV::Object(fields_view(fs@)),
    }
}

/// The model of an executable element list.
pub open spec fn array_view(els: Seq<JsonValue>) -> Seq<JsonV>
    decreases els,
{
    if els.len() == 0 {
        Seq::empty()
    } else {
        seq![json_view(els[0])] + array_view(els.skip(1))
    }
}

/// The model of an executable field list.
pub open spec fn fields_view(fs: Seq<(String, JsonValue)>) -> Seq<(Seq<char>, JsonV)>
    decreases fs,
{
    if fs.len() == 0 {
        Seq::empty()
    } else {
        seq![(fs[0].0@, json_view(fs[0].1))] + fields_view(fs.skip(1))
    }
}

/// `array_view` is the element-wise model.
pub proof fn lemma_array_view(els: Seq<JsonValue>)
    ensures
        array_view(els).len() == els.len(),
        forall|i: int| 0 <= i < els.len() ==> array_view(els)[i] == json_view(els[i]),
    decreases els,
{
    if els.len() > 0 {
        lemma_array_view(els.skip(1));
    }
}

/// `fields_view` is the pair-wise model.
pub proof fn lemma_fields_view(fs: Seq<(String, JsonValue)>)
    ensures
        fields_view(fs).len() == fs.len(),
        forall|i: int| 0 <= i < fs.len() ==> fields_view(fs)[i] == (fs[i].0@, json_view(fs[i].1)),
    decreases fs,
{
    if fs.len() > 0 {
        lemma_fields_view(fs.skip(1));
    }
}

impl View for JsonValue {
    type V = JsonV;

    open spec fn view(&self) -> JsonV {
        json_view(*self)
    }
}

/// The value of the first field named `k`, if any.  Field lists decoded from
/// JSON objects carry each name once, so the first match is the only one.
pub open spec fn lookup_field(fs: Seq<(Seq<char>, JsonV)>, k: Seq<char>) -> Option<JsonV>
    decreases fs.len(),
{
    if fs.len() == 0 {
        None
    } else if fs[0].0 == k {
        Some(fs[0].1)
    } else {
        lookup_field(fs.skip(1), k)
    }
}

/// `lookup_field` finds the field at `i` when no earlier field bears the name.
pub proof fn lemma_lookup_found(fs: Seq<(Seq<char>, JsonV)>, i: int, k: Seq<char>)
    requires
        0 <= i < fs.len(),
        fs[i].0 == k,
        forall|j: int| 0 <= j < i ==> fs[j].0 != k,
    ensures
        lookup_field(fs, k) == Some(fs[i].1),
    decreases i,
{
    if i > 0 {
        lemma_lookup_found(fs.skip(1), i - 1, k);
    }
}

/// `lookup_field` finds nothing when no field bears the name.
pub proof fn lemma_lookup_absent(fs: Seq<(Seq<char>, JsonV)>, k: Seq<char>)
    requires
        forall|j: int| 0 <= j < fs.len() ==> fs[j].0 != k,
    ensures
        lookup_field(fs, k) is None,
    decreases fs.len(),
{
    if fs.len() > 0 {
        lemma_lookup_absent(fs.skip(1), k);
    }
}

/// Appending one pair appends its model.
pub proof fn lemma_fields_view_push(fs: Seq<(String, JsonValue)>, p: (String, JsonValue))
    ensures
        fields_view(fs.push(p)) =~= fields_view(fs) + seq![(p.0@, json_view(p.1))],
{
    lemma_fields_view(fs.push(p));
    lemma_fields_view(fs);
}

/// Adds one field to an object under construction.
pub fn push_field(fields: &mut Vec<(String, JsonValue)>, key: &str, v: JsonValue)
    ensures
        fields_view(final(fields)@) == fields_view(old(fields)@) + seq![(key@, v@)],
{
    let name = key.to_owned();
    proof {
        lemma_fields_view_push(old(fields)@, (name, v));
    }
    fields.push((name, v));
}

/// The view of an optional owned string.
pub open spec fn opt_string_view(o: Option<String>) -> Option<Seq<char>> {
    match o {
        Some(s) => Some(s@),
        None => None,
    }
}

/// The model of the encoding of an optional string: null when absent.
pub open spec fn opt_text_model(o: Option<Seq<char>>) -> JsonV {
    match o {
        Some(s) => JsonV::Text(s),
        None => JsonV::Null,
    }
}

/// Encodes an optional string, writing null when absent.
pub fn opt_text_value(o: &Option<String>) -> (v: JsonValue)
    ensures
        v@ == opt_text_model(opt_string_view(*o)),
{
    match o {
        Some(s) => JsonValue::Text(s.clone()),
        None => JsonValue::Null,
    }
}

/// The model of the encoding of an optional number: null when absent.
pub open spec fn opt_number_model(o: Option<JsonNumber>) -> JsonV {
    match o {
        Some(n) => JsonV::Number(n),
        None => JsonV::Null,
    }
}

/// Encodes an optional number, writing null when absent.
pub fn opt_number_value(o: &Option<JsonNumber>) -> (v: JsonValue)
    ensures
        v@ == opt_number_model(*o),
{
    match o {
        Some(n) => JsonValue::Number(*n),
        None => JsonValue::Null,
    }
}

/// Character-for-character string equality.
pub fn str_eq(a: &str, b: &str) -> (r: bool)
    ensures
        r == (a@ == b@),
{
    let alen = a.unicode_len();
    let blen = b.unicode_len();
    if alen != blen {
        return false;
    }
    let mut i: usize = 0;
    while i < alen
        invariant
            i <= alen,
            alen == a@.len(),
            blen == b@.len(),
            alen == blen,
            forall|j: int| 0 <= j < i ==> a@[j] == b@[j],
        decreases alen - i,
    {
        if a.get_char(i) != b.get_char(i) {
            return false;
        }
        i += 1;
    }
    proof {
        assert(a@ =~= b@);
    }
    true
}

/// The field named `key` of an object's field list, if present.
pub fn get_field<'a>(fields: &'a Vec<(String, JsonValue)>, key: &str) -> (r: Option<
    &'a JsonValue,
>)
    ensures
        match r {
            Some(f) => lookup_field(fields_view(fields@), key@) == Some(f@),
            None => lookup_field(fields_view(fields@), key@) is None,
        },
{
    let n = fields.len();
    let mut i: usize = 0;
    proof {
        lemma_fields_view(fields@);
        assert(fields_view(fields@).skip(0) =~= fields_view(fields@));
    }
    while i < n
        invariant
            i <= n,
            n == fields@.len(),
            fields_view(fields@).len() == n,
            forall|j: int|
                0 <= j < n ==> fields_view(fields@)[j] == (
                    fields@[j].0@,
                    json_view(fields@[j].1),
                ),
            lookup_field(fields_view(fields@), key@) == lookup_field(
                fields_view(fields@).skip(i as int),
                key@,
            ),
        decreases n - i,
    {
        let hit = str_eq(fields[i].0.as_str(), key);
        proof {
            assert(fields_view(fields@).skip(i as int)[0] == fields_view(fields@)[i as int]);
            assert(fields_view(fields@).skip(i as int).skip(1) =~= fields_view(fields@).skip(
                i + 1,
            ));
        }
        if hit {
            return Some(&fields[i].1);
        }
        i += 1;
    }
    None
}

/// A deep copy of an element list, equal at the model level.
pub fn duplicate_elements(els: &Vec<JsonValue>) -> (r: Vec<JsonValue>)
    ensures
        array_view(r@) == array_view(els@),
    decreases els@,
{
    let mut out: Vec<JsonValue> = Vec::new();
    let n = els.len();
    let mut i: usize = 0;
    proof {
        lemma_array_view(els@);
    }
    while i < n
        invariant
            i <= n,
            n == els@.len(),
            out@.len() == i,
            forall|j: int| #![trigger out@[j]] 0 <= j < i ==> out@[j]@ == els@[j]@,
            forall|j: int|
                #![trigger array_view(els@)[j]]
                0 <= j < n ==> array_view(els@)[j] == json_view(els@[j]),
            array_view(els@).len() == n,
        decreases n - i,
    {
        let copy = duplicate(&els[i]);
        out.push(copy);
        i += 1;
    }
    proof {
        lemma_array_view(out@);
        assert forall|j: int| 0 <= j < n implies array_view(out@)[j] == array_view(els@)[j] by {
            assert(array_view(out@)[j] == json_view(out@[j]));
            assert(out@[j]@ == els@[j]@);
        }
        assert(array_view(out@) =~= array_view(els@));
    }
    out
}

/// A deep copy of a field list, equal at the model level.
pub fn duplicate_fields(fs: &Vec<(String, JsonValue)>) -> (r: Vec<(String, JsonValue)>)
    ensures
        fields_view(r@) == fields_view(fs@),
    decreases fs@,
{
    let mut out: Vec<(String, JsonValue)> = Vec::new();
    let n = fs.len();
    let mut i: usize = 0;
    proof {
        lemma_fields_view(fs@);
    }
    while i < n
        invariant
            i <= n,
            n == fs@.len(),
            out@.len() == i,
            forall|j: int|
                #![trigger out@[j]]
                0 <= j < i ==> out@[j].0@ == fs@[j].0@ && out@[j].1@ == fs@[j].1@,
            forall|j: int|
                #![trigger fields_view(fs@)[j]]
                0 <= j < n ==> fields_view(fs@)[j] == (fs@[j].0@, json_view(fs@[j].1)),
            fields_view(fs@).len() == n,
        decreases n - i,
    {
        let name = fs[i].0.clone();
        let copy = duplicate(&fs[i].1);
        out.push((name, copy));
        i += 1;
    }
    proof {
        lemma_fields_view(out@);
        assert forall|j: int| 0 <= j < n implies fields_view(out@)[j] == fields_view(fs@)[j] by {
            assert(fields_view(out@)[j] == (out@[j].0@, json_view(out@[j].1)));
            assert(out@[j].0@ == fs@[j].0@ && out@[j].1@ == fs@[j].1@);
        }
        assert(fields_view(out@) =~= fields_view(fs@));
    }
    out
}

/// Model-level equality of two element lists, decided element by element.
fn elements_eq(xs: &Vec<JsonValue>, ys: &Vec<JsonValue>) -> (r: bool)
    ensures
        r == (array_view(xs@) == array_view(ys@)),
    decreases xs@,
{
    proof {
        lemma_array_view(xs@);
        lemma_array_view(ys@);
    }
    let n = xs.len();
    if n != ys.len() {
        return false;
    }
    let mut i: usize = 0;
    while i < n
        invariant
            i <= n,
            n == xs@.len(),
            n == ys@.len(),
            array_view(xs@).len() == n,
            array_view(ys@).len() == n,
            forall|j: int|
                #![trigger array_view(xs@)[j]]
                0 <= j < n ==> array_view(xs@)[j] == xs@[j]@,
            forall|j: int|
                #![trigger array_view(ys@)[j]]
                0 <= j < n ==> array_view(ys@)[j] == ys@[j]@,
            forall|j: int| #![trigger xs@[j]] 0 <= j < i ==> xs@[j]@ == ys@[j]@,
        decreases n - i,
    {
        if !json_eq(&xs[i], &ys[i]) {
            proof {
                assert(array_view(xs@)[i as int] != array_view(ys@)[i as int]);
            }
            return false;
        }
        i += 1;
    }
    proof {
        assert(array_view(xs@) =~= array_view(ys@));
    }
    true
}

/// Model-level equality of two field lists, decided pair by pair.
fn field_lists_eq(xs: &Vec<(String, JsonValue)>, ys: &Vec<(String, JsonValue)>) -> (r: bool)
    ensures
        r == (fields_view(xs@) == fields_view(ys@)),
    decreases xs@,
{
    proof {
        lemma_fields_view(xs@);
        lemma_fields_view(ys@);
    }
    let n = xs.len();
    if n != ys.len() {
        return false;
    }
    let mut i: usize = 0;
    while i < n
        invariant
            i <= n,
            n == xs@.len(),
            n == ys@.len(),
            fields_view(xs@).len() == n,
            fields_view(ys@).len() == n,
            forall|j: int|
                #![trigger fields_view(xs@)[j]]
                0 <= j < n ==> fields_view(xs@)[j] == (xs@[j].0@, json_view(xs@[j].1)),
            forall|j: int|
                #![trigger fields_view(ys@)[j]]
                0 <= j < n ==> fields_view(ys@)[j] == (ys@[j].0@, json_view(ys@[j].1)),
            forall|j: int|
                #![trigger xs@[j]]
                0 <= j < i ==> xs@[j].0@ == ys@[j].0@ && xs@[j].1@ == ys@[j].1@,
        decreases n - i,
    {
        let keys_match = str_eq(xs[i].0.as_str(), ys[i].0.as_str());
        if !keys_match || !json_eq(&xs[i].1, &ys[i].1) {
            proof {
                assert(fields_view(xs@)[i as int] != fields_view(ys@)[i as int]);
            }
            return false;
        }
        i += 1;
    }
    proof {
        assert(fields_view(xs@) =~= fields_view(ys@));
    }
    true
}

/// Model-level equality of two documents: true exactly when they carry the
/// same values, field order included.
pub fn json_eq(a: &JsonValue, b: &JsonValue) -> (r: bool)
    ensures
        r == (a@ == b@),
    decreases *a,
{
    match (a, b) {
        (JsonValue::Null, JsonValue::Null) => true,
        (JsonValue::Bool(x), JsonValue::Bool(y)) => x == y,
        (JsonValue::Number(x), JsonValue::Number(y)) => {
            let r = match (x, y) {
                (JsonNumber::Unsigned(u), JsonNumber::Unsigned(w)) => u == w,
                (JsonNumber::Signed(u), JsonNumber::Signed(w)) => u == w,
                (JsonNumber::Fractional(u), JsonNumber::Fractional(w)) => u == w,
                _ => false,
            };
            r
        },
        (JsonValue::Text(x), JsonValue::Text(y)) => str_eq(x.as_str(), y.as_str()),
        (JsonValue::Array(xs), JsonValue::Array(ys)) => elements_eq(xs, ys),
        (JsonValue::Object(xs), JsonValue::Object(ys)) => field_lists_eq(xs, ys),
        _ => false,
    }
}

/// A deep copy of a document, equal at the model level.
pub fn duplicate(v: &JsonValue) -> (r: JsonValue)
    ensures
        r@ == v@,
    decreases *v,
{
    match v {
        JsonValue::Null => JsonValue::Null,
        JsonValue::Bool(b) => JsonValue::Bool(*b),
        JsonValue::Number(n) => JsonValue::Number(*n),
        JsonValue::Text(s) => JsonValue::Text(s.clone()),
        JsonValue::Array(els) => JsonValue::Array(duplicate_elements(els)),
        JsonValue::Object(fs) => JsonValue::Object(duplicate_fields(fs)),
    }
}

/// The integer a number token stands for when a signed 64-bit value is
/// expected: a non-integral token is not accepted.
pub open spec fn num_as_i64(n: JsonNumber) -> Option<i64> {
    match n {
        JsonNumber::Unsigned(u) => if u <= i64::MAX as u64 {
            Some(u as i64)
        } else {
            None
        },
        JsonNumber::Signed(i) => Some(i),
        JsonNumber::Fractional(_) => None,
    }
}

/// As `num_as_i64`, further restricted to the 32-bit range.
pub open spec fn num_as_i32(n: JsonNumber) -> Option<i32> {
    match num_as_i64(n) {
        Some(i) => if i32::MIN as i64 <= i <= i32::MAX as i64 {
            Some(i as i32)
        } else {
            None
        },
        None => None,
    }
}

/// The integer a number token stands for when an unsigned 64-bit value is
/// expected.
pub open spec fn num_as_u64(n: JsonNumber) -> Option<u64> {
    match n {
        JsonNumber::Unsigned(u) => Some(u),
        JsonNumber::Signed(_) => None,
        JsonNumber::Fractional(_) => None,
    }
}

/// Executable counterpart of `num_as_i64`.
pub fn read_i64(n: JsonNumber) -> (r: Option<i64>)
    ensures
        r == num_as_i64(n),
{
    match n {
        JsonNumber::Unsigned(u) => if u <= i64::MAX as u64 {
            Some(u as i64)
        } else {
            None
        },
        JsonNumber::Signed(i) => Some(i),
        JsonNumber::Fractional(_) => None,
    }
}

/// Executable counterpart of `num_as_i32`.
pub fn read_i32(n: JsonNumber) -> (r: Option<i32>)
    ensures
        r == num_as_i32(n),
{
    match read_i64(n) {
        Some(i) => if i32::MIN as i64 <= i && i <= i32::MAX as i64 {
            Some(i as i32)
        } else {
            None
        },
        None => None,
    }
}

/// Executable counterpart of `num_as_u64`.
pub fn read_u64(n: JsonNumber) -> (r: Option<u64>)
    ensures
        r == num_as_u64(n),
{
    match n {
        JsonNumber::Unsigned(u) => Some(u),
        _ => None,
    }
}

/// A required string field.
pub open spec fn str_field(fs: Seq<(Seq<char>, JsonV)>, k: Seq<char>) -> Option<Seq<char>> {
    match lookup_field(fs, k) {
        Some(JsonV::Text(s)) => Some(s),
        _ => None,
    }
}

/// A required boolean field.
pub open spec fn bool_field(fs: Seq<(Seq<char>, JsonV)>, k: Seq<char>) -> Option<bool> {
    match lookup_field(fs, k) {
        Some(JsonV::Bool(b)) => Some(b),
        _ => None,
    }
}

/// A required numeric field, kept as the number token.
pub open spec fn num_field(fs: Seq<(Seq<char>, JsonV)>, k: Seq<char>) -> Option<JsonNumber> {
    match lookup_field(fs, k) {
        Some(JsonV::Number(n)) => Some(n),
        _ => None,
    }
}

/// A numeric field that defaults to zero when absent, mirroring a decoder
/// that substitutes a zero value for a historically missing number.
pub open spec fn num_or_zero_field(fs: Seq<(Seq<char>, JsonV)>, k: Seq<char>) -> Option<
    JsonNumber,
> {
    match lookup_field(fs, k) {
        Some(JsonV::Number(n)) => Some(n),
        Some(_) => None,
        None => Some(JsonNumber::Fractional(0)),
    }
}

/// A required signed 64-bit integer field.
pub open spec fn i64_field(fs: Seq<(Seq<char>, JsonV)>, k: Seq<char>) -> Option<i64> {
    match num_field(fs, k) {
        Some(n) => num_as_i64(n),
        None => None,
    }
}

/// A required signed 32-bit integer field.
pub open spec fn i32_field(fs: Seq<(Seq<char>, JsonV)>, k: Seq<char>) -> Option<i32> {
    match num_field(fs, k) {
        Some(n) => num_as_i32(n),
        None => None,
    }
}

/// A required unsigned 64-bit integer field.
pub open spec fn u64_field(fs: Seq<(Seq<char>, JsonV)>, k: Seq<char>) -> Option<u64> {
    match num_field(fs, k) {
        Some(n) => num_as_u64(n),
        None => None,
    }
}

/// An optional string field: absent or null decodes to no value; a value of
/// any other type than string is a decode failure.
pub open spec fn opt_str_field(fs: Seq<(Seq<char>, JsonV)>, k: Seq<char>) -> Option<
    Option<Seq<char>>,
> {
    match lookup_field(fs, k) {
        None => Some(None),
        Some(JsonV::Null) => Some(None),
        Some(JsonV::Text(s)) => Some(Some(s)),
        Some(_) => None,
    }
}

/// An optional numeric field.
pub open spec fn opt_num_field(fs: Seq<(Seq<char>, JsonV)>, k: Seq<char>) -> Option<
    Option<JsonNumber>,
> {
    match lookup_field(fs, k) {
        None => Some(None),
        Some(JsonV::Null) => Some(None),
        Some(JsonV::Number(n)) => Some(Some(n)),
        Some(_) => None,
    }
}

/// An optional signed 32-bit integer field.
pub open spec fn opt_i32_field(fs: Seq<(Seq<char>, JsonV)>, k: Seq<char>) -> Option<
    Option<i32>,
> {
    match opt_num_field(fs, k) {
        Some(None) => Some(None),
        Some(Some(n)) => match num_as_i32(n) {
            Some(i) => Some(Some(i)),
            None => None,
        },
        None => None,
    }
}

/// An optional boolean field.
pub open spec fn opt_bool_field(fs: Seq<(Seq<char>, JsonV)>, k: Seq<char>) -> Option<
    Option<bool>,
> {
    match lookup_field(fs, k) {
        None => Some(None),
        Some(JsonV::Null) => Some(None),
        Some(JsonV::Bool(b)) => Some(Some(b)),
        Some(_) => None,
    }
}

/// A required array field, kept as the model of its element list.
pub open spec fn array_field(fs: Seq<(Seq<char>, JsonV)>, k: Seq<char>) -> Option<Seq<JsonV>> {
    match lookup_field(fs, k) {
        Some(JsonV::Array(els)) => Some(els),
        _ => None,
    }
}

/// A required object field, kept as the model of its field list.
pub open spec fn obj_field(fs: Seq<(Seq<char>, JsonV)>, k: Seq<char>) -> Option<
    Seq<(Seq<char>, JsonV)>,
> {
    match lookup_field(fs, k) {
        Some(JsonV::Object(o)) => Some(o),
        _ => None,
    }
}

/// The value an element carries when a string is expected.
pub open spec fn as_text_value(v: JsonV) -> Option<Seq<char>> {
    match v {
        JsonV::Text(s) => Some(s),
        _ => None,
    }
}

/// The strings of an element list in which every element is a string.
pub open spec fn str_elements(els: Seq<JsonV>) -> Option<Seq<Seq<char>>> {
    decode_elements(els, |e: JsonV| as_text_value(e))
}

/// A required array-of-strings field.
pub open spec fn str_array_field(fs: Seq<(Seq<char>, JsonV)>, k: Seq<char>) -> Option<
    Seq<Seq<char>>,
> {
    match array_field(fs, k) {
        Some(els) => str_elements(els),
        None => None,
    }
}

/// The pairs of a field list in which every value is a string.
pub open spec fn str_pairs(o: Seq<(Seq<char>, JsonV)>) -> Option<Seq<(Seq<char>, Seq<char>)>> {
    decode_pairs(o, |v: JsonV| as_text_value(v))
}

/// The records of an element list in which every element decodes under `f`.
pub open spec fn decode_elements<T>(els: Seq<JsonV>, f: spec_fn(JsonV) -> Option<T>) -> Option<
    Seq<T>,
>
    decreases els.len(),
{
    if els.len() == 0 {
        Some(Seq::empty())
    } else {
        match f(els[0]) {
            Some(x) => match decode_elements(els.skip(1), f) {
                Some(rest) => Some(seq![x] + rest),
                None => None,
            },
            None => None,
        }
    }
}

/// `decode_elements` succeeds exactly when every element decodes, and then
/// decodes each in place.
pub proof fn lemma_decode_elements<T>(els: Seq<JsonV>, f: spec_fn(JsonV) -> Option<T>)
    ensures
        (decode_elements(els, f) is Some) <==> (forall|i: int|
            0 <= i < els.len() ==> f(#[trigger] els[i]) is Some),
        decode_elements(els, f) matches Some(xs) ==> xs.len() == els.len() && (forall|i: int|
            0 <= i < els.len() ==> #[trigger] xs[i] == f(els[i]).unwrap()),
    decreases els.len(),
{
    if els.len() > 0 {
        lemma_decode_elements(els.skip(1), f);
        assert forall|i: int| 0 <= i < els.len() - 1 implies els.skip(1)[i] == els[i + 1] by {}
        match f(els[0]) {
            Some(x) => {
                match decode_elements(els.skip(1), f) {
                    Some(rest) => {
                        let xs = seq![x] + rest;
                        assert(decode_elements(els, f) == Some(xs));
                        assert forall|i: int| 0 <= i < els.len() implies f(
                            #[trigger] els[i],
                        ) is Some by {
                            if i > 0 {
                                assert(els.skip(1)[i - 1] == els[i]);
                            }
                        }
                        assert forall|i: int| 0 <= i < els.len() implies #[trigger] xs[i] == f(
                            els[i],
                        ).unwrap() by {
                            if i > 0 {
                                assert(xs[i] == rest[i - 1]);
                                assert(els.skip(1)[i - 1] == els[i]);
                            }
                        }
                    },
                    None => {
                        let i = choose|i: int|
                            0 <= i < els.skip(1).len() && !(f(#[trigger] els.skip(1)[i]) is Some);
                        assert(!(f(els[i + 1]) is Some));
                    },
                }
            },
            None => {},
        }
    }
}

/// The pairs of a field list in which every value decodes under `f`.
pub open spec fn decode_pairs<T>(
    o: Seq<(Seq<char>, JsonV)>,
    f: spec_fn(JsonV) -> Option<T>,
) -> Option<Seq<(Seq<char>, T)>>
    decreases o.len(),
{
    if o.len() == 0 {
        Some(Seq::empty())
    } else {
        match f(o[0].1) {
            Some(x) => match decode_pairs(o.skip(1), f) {
                Some(rest) => Some(seq![(o[0].0, x)] + rest),
                None => None,
            },
            None => None,
        }
    }
}

/// `decode_pairs` succeeds exactly when every value decodes, and then decodes
/// each in place, keeping its name.
pub proof fn lemma_decode_pairs<T>(o: Seq<(Seq<char>, JsonV)>, f: spec_fn(JsonV) -> Option<T>)
    ensures
        (decode_pairs(o, f) is Some) <==> (forall|i: int|
            0 <= i < o.len() ==> f(#[trigger] o[i].1) is Some),
        decode_pairs(o, f) matches Some(ps) ==> ps.len() == o.len() && (forall|i: int|
            0 <= i < o.len() ==> #[trigger] ps[i] == (o[i].0, f(o[i].1).unwrap())),
    decreases o.len(),
{
    if o.len() > 0 {
        lemma_decode_pairs(o.skip(1), f);
        assert forall|i: int| 0 <= i < o.len() - 1 implies o.skip(1)[i] == o[i + 1] by {}
        match f(o[0].1) {
            Some(x) => {
                match decode_pairs(o.skip(1), f) {
                    Some(rest) => {
                        let ps = seq![(o[0].0, x)] + rest;
                        assert(decode_pairs(o, f) == Some(ps));
                        assert forall|i: int| 0 <= i < o.len() implies f(
                            #[trigger] o[i].1,
                        ) is Some by {
                            if i > 0 {
                                assert(o.skip(1)[i - 1] == o[i]);
                            }
                        }
                        assert forall|i: int| 0 <= i < o.len() implies #[trigger] ps[i] == (
                            o[i].0,
                            f(o[i].1).unwrap(),
                        ) by {
                            if i > 0 {
                                assert(ps[i] == rest[i - 1]);
                                assert(o.skip(1)[i - 1] == o[i]);
                            }
                        }
                    },
                    None => {
                        let i = choose|i: int|
                            0 <= i < o.skip(1).len() && !(f(#[trigger] o.skip(1)[i].1) is Some);
                        assert(!(f(o[i + 1].1) is Some));
                    },
                }
            },
            None => {},
        }
    }
}

/// The value a pair carries when a signed 32-bit integer is expected.
pub open spec fn as_i32_value(v: JsonV) -> Option<i32> {
    match v {
        JsonV::Number(n) => num_as_i32(n),
        _ => None,
    }
}

/// The value a pair carries when a number token is expected.
pub open spec fn as_num_value(v: JsonV) -> Option<JsonNumber> {
    match v {
        JsonV::Number(n) => Some(n),
        _ => None,
    }
}

/// An object field whose values are all 32-bit integers, as a pair list.
pub open spec fn i32_pairs_field(fs: Seq<(Seq<char>, JsonV)>, k: Seq<char>) -> Option<
    Seq<(Seq<char>, i32)>,
> {
    match obj_field(fs, k) {
        Some(o) => decode_pairs(o, |v: JsonV| as_i32_value(v)),
        None => None,
    }
}

/// An object field whose values are all numbers, as a pair list.
pub open spec fn num_pairs_field(fs: Seq<(Seq<char>, JsonV)>, k: Seq<char>) -> Option<
    Seq<(Seq<char>, JsonNumber)>,
> {
    match obj_field(fs, k) {
        Some(o) => decode_pairs(o, |v: JsonV| as_num_value(v)),
        None => None,
    }
}

/// Executable counterpart of `i32_pairs_field`.
pub fn get_i32_pairs(fields: &Vec<(String, JsonValue)>, key: &str) -> (r: Option<
    Vec<(String, i32)>,
>)
    ensures
        match r {
            Some(ps) => i32_pairs_field(fields_view(fields@), key@) == Some(
                ps@.map_values(|p: (String, i32)| (p.0@, p.1)),
            ),
            None => i32_pairs_field(fields_view(fields@), key@) is None,
        },
{
    let o = match get_field(fields, key) {
        Some(JsonValue::Object(o)) => o,
        _ => {
            return None;
        },
    };
    proof {
        lemma_fields_view(o@);
    }
    let ghost ov = fields_view(o@);
    let ghost f = |v: JsonV| as_i32_value(v);
    let n = o.len();
    let mut out: Vec<(String, i32)> = Vec::new();
    let mut i: usize = 0;
    while i < n
        invariant
            i <= n,
            n == o@.len(),
            ov == fields_view(o@),
            f == (|v: JsonV| as_i32_value(v)),
            obj_field(fields_view(fields@), key@) == Some(ov),
            ov.len() == n,
            forall|j: int|
                #![trigger ov[j]]
                0 <= j < n ==> ov[j] == (o@[j].0@, json_view(o@[j].1)),
            out@.len() == i,
            forall|j: int|
                #![trigger ov[j]]
                0 <= j < i ==> f(ov[j].1) == Some(out@[j].1) && out@[j].0@ == ov[j].0,
        decreases n - i,
    {
        let value = match &o[i].1 {
            JsonValue::Number(nv) => read_i32(*nv),
            _ => None,
        };
        match value {
            Some(x) => {
                out.push((o[i].0.clone(), x));
            },
            None => {
                proof {
                    assert(f(ov[i as int].1) is None);
                    lemma_decode_pairs(ov, f);
                }
                return None;
            },
        }
        i += 1;
    }
    proof {
        lemma_decode_pairs(ov, f);
        assert(decode_pairs(ov, f) matches Some(ps) && ps =~= out@.map_values(
            |p: (String, i32)| (p.0@, p.1),
        ));
    }
    Some(out)
}

/// Executable counterpart of `num_pairs_field`.
pub fn get_num_pairs(fields: &Vec<(String, JsonValue)>, key: &str) -> (r: Option<
    Vec<(String, JsonNumber)>,
>)
    ensures
        match r {
            Some(ps) => num_pairs_field(fields_view(fields@), key@) == Some(
                ps@.map_values(|p: (String, JsonNumber)| (p.0@, p.1)),
            ),
            None => num_pairs_field(fields_view(fields@), key@) is None,
        },
{
    let o = match get_field(fields, key) {
        Some(JsonValue::Object(o)) => o,
        _ => {
            return None;
        },
    };
    proof {
        lemma_fields_view(o@);
    }
    let ghost ov = fields_view(o@);
    let ghost f = |v: JsonV| as_num_value(v);
    let n = o.len();
    let mut out: Vec<(String, JsonNumber)> = Vec::new();
    let mut i: usize = 0;
    while i < n
        invariant
            i <= n,
            n == o@.len(),
            ov == fields_view(o@),
            f == (|v: JsonV| as_num_value(v)),
            obj_field(fields_view(fields@), key@) == Some(ov),
            ov.len() == n,
            forall|j: int|
                #![trigger ov[j]]
                0 <= j < n ==> ov[j] == (o@[j].0@, json_view(o@[j].1)),
            out@.len() == i,
            forall|j: int|
                #![trigger ov[j]]
                0 <= j < i ==> f(ov[j].1) == Some(out@[j].1) && out@[j].0@ == ov[j].0,
        decreases n - i,
    {
        match &o[i].1 {
            JsonValue::Number(nv) => {
                out.push((o[i].0.clone(), *nv));
            },
            _ => {
                proof {
                    assert(f(ov[i as int].1) is None);
                    lemma_decode_pairs(ov, f);
                }
                return None;
            },
        }
        i += 1;
    }
    proof {
        lemma_decode_pairs(ov, f);
        assert(decode_pairs(ov, f) matches Some(ps) && ps =~= out@.map_values(
            |p: (String, JsonNumber)| (p.0@, p.1),
        ));
    }
    Some(out)
}

/// An optional object field whose values are all numbers, as a pair list.
pub open spec fn opt_num_pairs_field(fs: Seq<(Seq<char>, JsonV)>, k: Seq<char>) -> Option<
    Option<Seq<(Seq<char>, JsonNumber)>>,
> {
    match lookup_field(fs, k) {
        None => Some(None),
        Some(JsonV::Null) => Some(None),
        Some(JsonV::Object(o)) => match decode_pairs(o, |v: JsonV| as_num_value(v)) {
            Some(ps) => Some(Some(ps)),
            None => None,
        },
        Some(_) => None,
    }
}

/// An object field whose values are all strings, as a pair list.
pub open spec fn str_pairs_field(fs: Seq<(Seq<char>, JsonV)>, k: Seq<char>) -> Option<
    Seq<(Seq<char>, Seq<char>)>,
> {
    match obj_field(fs, k) {
        Some(o) => str_pairs(o),
        None => None,
    }
}

/// Executable counterpart of `str_field`.
pub fn get_str(fields: &Vec<(String, JsonValue)>, key: &str) -> (r: Option<String>)
    ensures
        match r {
            Some(s) => str_field(fields_view(fields@), key@) == Some(s@),
            None => str_field(fields_view(fields@), key@) is None,
        },
{
    match get_field(fields, key) {
        Some(JsonValue::Text(s)) => Some(s.clone()),
        _ => None,
    }
}

/// Executable counterpart of `bool_field`.
pub fn get_bool(fields: &Vec<(String, JsonValue)>, key: &str) -> (r: Option<bool>)
    ensures
        r == bool_field(fields_view(fields@), key@),
{
    match get_field(fields, key) {
        Some(JsonValue::Bool(b)) => Some(*b),
        _ => None,
    }
}

/// Executable counterpart of `num_field`.
pub fn get_num(fields: &Vec<(String, JsonValue)>, key: &str) -> (r: Option<JsonNumber>)
    ensures
        r == num_field(fields_view(fields@), key@),
{
    match get_field(fields, key) {
        Some(JsonValue::Number(n)) => Some(*n),
        _ => None,
    }
}

/// Executable counterpart of `num_or_zero_field`.
pub fn get_num_or_zero(fields: &Vec<(String, JsonValue)>, key: &str) -> (r: Option<JsonNumber>)
    ensures
        r == num_or_zero_field(fields_view(fields@), key@),
{
    match get_field(fields, key) {
        Some(JsonValue::Number(n)) => Some(*n),
        Some(_) => None,
        None => Some(JsonNumber::Fractional(0)),
    }
}

/// Executable counterpart of `i64_field`.
pub fn get_i64(fields: &Vec<(String, JsonValue)>, key: &str) -> (r: Option<i64>)
    ensures
        r == i64_field(fields_view(fields@), key@),
{
    match get_num(fields, key) {
        Some(n) => read_i64(n),
        None => None,
    }
}

/// Executable counterpart of `i32_field`.
pub fn get_i32(fields: &Vec<(String, JsonValue)>, key: &str) -> (r: Option<i32>)
    ensures
        r == i32_field(fields_view(fields@), key@),
{
    match get_num(fields, key) {
        Some(n) => read_i32(n),
        None => None,
    }
}

/// Executable counterpart of `u64_field`.
pub fn get_u64(fields: &Vec<(String, JsonValue)>, key: &str) -> (r: Option<u64>)
    ensures
        r == u64_field(fields_view(fields@), key@),
{
    match get_num(fields, key) {
        Some(n) => read_u64(n),
        None => None,
    }
}

/// Executable counterpart of `opt_str_field`.
pub fn get_opt_str(fields: &Vec<(String, JsonValue)>, key: &str) -> (r: Option<Option<String>>)
    ensures
        match r {
            Some(Some(s)) => opt_str_field(fields_view(fields@), key@) == Some(Some(s@)),
            Some(None) => opt_str_field(fields_view(fields@), key@) == Some(
                None::<Seq<char>>,
            ),
            None => opt_str_field(fields_view(fields@), key@) is None,
        },
{
    match get_field(fields, key) {
        None => Some(None),
        Some(JsonValue::Null) => Some(None),
        Some(JsonValue::Text(s)) => Some(Some(s.clone())),
        Some(_) => None,
    }
}

/// Executable counterpart of `opt_num_field`.
pub fn get_opt_num(fields: &Vec<(String, JsonValue)>, key: &str) -> (r: Option<
    Option<JsonNumber>,
>)
    ensures
        r == opt_num_field(fields_view(fields@), key@),
{
    match get_field(fields, key) {
        None => Some(None),
        Some(JsonValue::Null) => Some(None),
        Some(JsonValue::Number(n)) => Some(Some(*n)),
        Some(_) => None,
    }
}

/// Executable counterpart of `opt_i32_field`.
pub fn get_opt_i32(fields: &Vec<(String, JsonValue)>, key: &str) -> (r: Option<Option<i32>>)
    ensures
        r == opt_i32_field(fields_view(fields@), key@),
{
    match get_opt_num(fields, key) {
        Some(None) => Some(None),
        Some(Some(n)) => match read_i32(n) {
            Some(i) => Some(Some(i)),
            None => None,
        },
        None => None,
    }
}

/// Executable counterpart of `opt_bool_field`.
pub fn get_opt_bool(fields: &Vec<(String, JsonValue)>, key: &str) -> (r: Option<Option<bool>>)
    ensures
        r == opt_bool_field(fields_view(fields@), key@),
{
    match get_field(fields, key) {
        None => Some(None),
        Some(JsonValue::Null) => Some(None),
        Some(JsonValue::Bool(b)) => Some(Some(*b)),
        Some(_) => None,
    }
}

/// Executable counterpart of `lookup_field`: a deep copy of the field.
pub fn get_any(fields: &Vec<(String, JsonValue)>, key: &str) -> (r: Option<JsonValue>)
    ensures
        match r {
            Some(j) => lookup_field(fields_view(fields@), key@) == Some(j@),
            None => lookup_field(fields_view(fields@), key@) is None,
        },
{
    match get_field(fields, key) {
        Some(f) => Some(duplicate(f)),
        None => None,
    }
}

/// Executable counterpart of `array_field`: a deep copy of the elements.
pub fn get_array(fields: &Vec<(String, JsonValue)>, key: &str) -> (r: Option<Vec<JsonValue>>)
    ensures
        match r {
            Some(els) => array_field(fields_view(fields@), key@) == Some(array_view(els@)),
            None => array_field(fields_view(fields@), key@) is None,
        },
{
    match get_field(fields, key) {
        Some(JsonValue::Array(els)) => Some(duplicate_elements(els)),
        _ => None,
    }
}

/// Executable counterpart of `obj_field`: a deep copy of the field list.
pub fn get_obj(fields: &Vec<(String, JsonValue)>, key: &str) -> (r: Option<
    Vec<(String, JsonValue)>,
>)
    ensures
        match r {
            Some(o) => obj_field(fields_view(fields@), key@) == Some(fields_view(o@)),
            None => obj_field(fields_view(fields@), key@) is None,
        },
{
    match get_field(fields, key) {
        Some(JsonValue::Object(o)) => Some(duplicate_fields(o)),
        _ => None,
    }
}

/// Executable counterpart of `str_array_field`.
pub fn get_str_array(fields: &Vec<(String, JsonValue)>, key: &str) -> (r: Option<Vec<String>>)
    ensures
        match r {
            Some(ss) => str_array_field(fields_view(fields@), key@) == Some(
                ss@.map_values(|s: String| s@),
            ),
            None => str_array_field(fields_view(fields@), key@) is None,
        },
{
    let els = match get_field(fields, key) {
        Some(JsonValue::Array(els)) => els,
        _ => {
            return None;
        },
    };
    proof {
        lemma_array_view(els@);
    }
    let ghost av = array_view(els@);
    let ghost f = |e: JsonV| as_text_value(e);
    let n = els.len();
    let mut out: Vec<String> = Vec::new();
    let mut i: usize = 0;
    while i < n
        invariant
            i <= n,
            n == els@.len(),
            av == array_view(els@),
            f == (|e: JsonV| as_text_value(e)),
            array_field(fields_view(fields@), key@) == Some(av),
            av.len() == n,
            forall|j: int| #![trigger av[j]] 0 <= j < n ==> av[j] == json_view(els@[j]),
            out@.len() == i,
            forall|j: int| #![trigger av[j]] 0 <= j < i ==> f(av[j]) == Some(out@[j]@),
        decreases n - i,
    {
        match &els[i] {
            JsonValue::Text(s) => {
                out.push(s.clone());
            },
            _ => {
                proof {
                    assert(f(av[i as int]) is None);
                    lemma_decode_elements(av, f);
                }
                return None;
            },
        }
        i += 1;
    }
    proof {
        lemma_decode_elements(av, f);
        assert(decode_elements(av, f) matches Some(ss) && ss =~= out@.map_values(
            |s: String| s@,
        ));
    }
    Some(out)
}

/// Executable counterpart of `str_pairs_field`.
pub fn get_str_pairs(fields: &Vec<(String, JsonValue)>, key: &str) -> (r: Option<
    Vec<(String, String)>,
>)
    ensures
        match r {
            Some(ps) => str_pairs_field(fields_view(fields@), key@) == Some(
                ps@.map_values(|p: (String, String)| (p.0@, p.1@)),
            ),
            None => str_pairs_field(fields_view(fields@), key@) is None,
        },
{
    let o = match get_field(fields, key) {
        Some(JsonValue::Object(o)) => o,
        _ => {
            return None;
        },
    };
    proof {
        lemma_fields_view(o@);
    }
    let ghost ov = fields_view(o@);
    let ghost f = |v: JsonV| as_text_value(v);
    let n = o.len();
    let mut out: Vec<(String, String)> = Vec::new();
    let mut i: usize = 0;
    while i < n
        invariant
            i <= n,
            n == o@.len(),
            ov == fields_view(o@),
            f == (|v: JsonV| as_text_value(v)),
            obj_field(fields_view(fields@), key@) == Some(ov),
            ov.len() == n,
            forall|j: int|
                #![trigger ov[j]]
                0 <= j < n ==> ov[j] == (o@[j].0@, json_view(o@[j].1)),
            out@.len() == i,
            forall|j: int|
                #![trigger ov[j]]
                0 <= j < i ==> f(ov[j].1) == Some(out@[j].1@) && out@[j].0@ == ov[j].0,
        decreases n - i,
    {
        match &o[i].1 {
            JsonValue::Text(s) => {
                out.push((o[i].0.clone(), s.clone()));
            },
            _ => {
                proof {
                    assert(f(ov[i as int].1) is None);
                    lemma_decode_pairs(ov, f);
                }
                return None;
            },
        }
        i += 1;
    }
    proof {
        lemma_decode_pairs(ov, f);
        assert(decode_pairs(ov, f) matches Some(ps) && ps =~= out@.map_values(
            |p: (String, String)| (p.0@, p.1@),
        ));
    }
    Some(out)
}

/// Executable counterpart of `opt_num_pairs_field`.
pub fn get_opt_num_pairs(fields: &Vec<(String, JsonValue)>, key: &str) -> (r: Option<
    Option<Vec<(String, JsonNumber)>>,
>)
    ensures
        match r {
            Some(Some(ps)) => opt_num_pairs_field(fields_view(fields@), key@) == Some(
                Some(ps@.map_values(|p: (String, JsonNumber)| (p.0@, p.1))),
            ),
            Some(None) => opt_num_pairs_field(fields_view(fields@), key@) == Some(
                None::<Seq<(Seq<char>, JsonNumber)>>,
            ),
            None => opt_num_pairs_field(fields_view(fields@), key@) is None,
        },
{
    let o = match get_field(fields, key) {
        None => {
            return Some(None);
        },
        Some(JsonValue::Null) => {
            return Some(None);
        },
        Some(JsonValue::Object(o)) => o,
        Some(_) => {
            return None;
        },
    };
    proof {
        lemma_fields_view(o@);
    }
    let ghost ov = fields_view(o@);
    let ghost f = |v: JsonV| as_num_value(v);
    let n = o.len();
    let mut out: Vec<(String, JsonNumber)> = Vec::new();
    let mut i: usize = 0;
    while i < n
        invariant
            i <= n,
            n == o@.len(),
            ov == fields_view(o@),
            f == (|v: JsonV| as_num_value(v)),
            lookup_field(fields_view(fields@), key@) == Some(JsonV::Object(ov)),
            ov.len() == n,
            forall|j: int|
                #![trigger ov[j]]
                0 <= j < n ==> ov[j] == (o@[j].0@, json_view(o@[j].1)),
            out@.len() == i,
            forall|j: int|
                #![trigger ov[j]]
                0 <= j < i ==> f(ov[j].1) == Some(out@[j].1) && out@[j].0@ == ov[j].0,
        decreases n - i,
    {
        match &o[i].1 {
            JsonValue::Number(nv) => {
                out.push((o[i].0.clone(), *nv));
            },
            _ => {
                proof {
                    assert(f(ov[i as int].1) is None);
                    lemma_decode_pairs(ov, f);
                }
                return None;
            },
        }
        i += 1;
    }
    proof {
        lemma_decode_pairs(ov, f);
        assert(decode_pairs(ov, f) matches Some(ps) && ps =~= out@.map_values(
            |p: (String, JsonNumber)| (p.0@, p.1),
        ));
    }
    Some(Some(out))
}

} // verus!
