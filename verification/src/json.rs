use vstd::prelude::*;
use vstd::string::StrSliceExecFns;

verus! {

/// A decoded JSON document, as handed back by the JSON facility.
///
/// Numbers that fit `i64` are kept exactly; any other JSON number
/// (fractional, or out of the `i64` range) becomes `BigNum`.  The wire
/// contract of the remote only ever carries small integers, so nothing
/// is lost where the payload is well-formed.
#[derive(Debug, PartialEq)]
pub enum JsonValue {
    Null,
    Bool(bool),
    Int(i64),
    BigNum,
    Str(String),
    Arr(Vec<JsonValue>),
    Obj(Vec<(String, JsonValue)>),
}

#[verifier::external_type_specification]
#[verifier::external_body]
pub struct ExValue(serde_json::Value);

/// What the JSON facility returns for a given text: either the decoded
/// document or the parser's diagnostic message.  The result depends on
/// the characters of the text alone.
pub uninterp spec fn json_of(s: Seq<char>) -> Result<JsonValue, Seq<char>>;

/// Relies on serde_json::Value's variant structure and on
/// serde_json::Number::as_i64, which returns the exact value of any
/// integer in the i64 range and nothing for other numbers.  Converts
/// each variant one for one into the library's document type.
#[verifier::external_body]
fn value_to_tree(v: serde_json::Value) -> JsonValue {
    match v {
        serde_json::Value::Null => JsonValue::Null,
        serde_json::Value::Bool(b) => JsonValue::Bool(b),
        serde_json::Value::Number(n) => match n.as_i64() {
            Some(i) => JsonValue::Int(i),
            None => JsonValue::BigNum,
        },
        serde_json::Value::String(s) => JsonValue::Str(s),
        serde_json::Value::Array(a) => JsonValue::Arr(a.into_iter().map(value_to_tree).collect()),
        serde_json::Value::Object(o) => JsonValue::Obj(
            o.into_iter().map(|(k, x)| (k, value_to_tree(x))).collect(),
        ),
    }
}

/// Relies on serde_json::from_str: parses JSON text into a value tree,
/// or reports the parse failure's message.
#[verifier::external_body]
pub fn parse_json(s: &str) -> (r: Result<JsonValue, String>)
    ensures
        r is Ok <==> json_of(s@) is Ok,
        r is Ok ==> r->Ok_0 == json_of(s@)->Ok_0,
        r is Err ==> r->Err_0@ == json_of(s@)->Err_0,
{
    match serde_json::from_str::<serde_json::Value>(s) {
        Ok(v) => Ok(value_to_tree(v)),
        Err(e) => Err(format!("{}", e)),
    }
}

/// Whether two strings hold the same characters.
pub fn str_eq(a: &str, b: &str) -> (r: bool)
    ensures
        r == (a@ == b@),
{
    let n = a.unicode_len();
    if n != b.unicode_len() {
        return false;
    }
    let mut i: usize = 0;
    while i < n
        invariant
            i <= n,
            n == a@.len(),
            n == b@.len(),
            forall|j: int| 0 <= j < i ==> a@[j] == b@[j],
        decreases n - i,
    {
        if a.get_char(i) != b.get_char(i) {
            return false;
        }
        i += 1;
    }
    proof {
        assert(a@ =~= b@);
    }
    true
}

/// The value bound to the first entry of `entries` whose key is `k`,
/// if any.  Objects decoded from JSON text never carry a key twice, so
/// taking the first match loses nothing.
pub open spec fn spec_obj_get(entries: Seq<(String, JsonValue)>, k: Seq<char>) -> Option<JsonValue>
    decreases entries.len(),
{
    if entries.len() == 0 {
        None
    } else if entries[0].0@ == k {
        Some(entries[0].1)
    } else {
        spec_obj_get(entries.drop_first(), k)
    }
}

/// A key bound at position `i`, and at no earlier position, is the one
/// a lookup finds.
pub proof fn lemma_obj_get_at(entries: Seq<(String, JsonValue)>, k: Seq<char>, i: int)
    requires
        0 <= i < entries.len(),
        forall|j: int| 0 <= j < i ==> (#[trigger] entries[j]).0@ != k,
        entries[i].0@ == k,
    ensures
        spec_obj_get(entries, k) == Some(entries[i].1),
    decreases i,
{
    if i > 0 {
        lemma_obj_get_at(entries.drop_first(), k, i - 1);
    }
}

/// Looks a key up among an object's entries.
pub fn obj_get<'a>(entries: &'a Vec<(String, JsonValue)>, k: &str) -> (r: Option<&'a JsonValue>)
    ensures
        match r {
            Some(v) => spec_obj_get(entries@, k@) == Some(*v),
            None => spec_obj_get(entries@, k@) is None,
        },
{
    let n = entries.len();
    let mut i: usize = 0;
    proof {
        assert(entries@.skip(0) =~= entries@);
    }
    while i < n
        invariant
            i <= n,
            n == entries@.len(),
            spec_obj_get(entries@, k@) == spec_obj_get(entries@.skip(i as int), k@),
        decreases n - i,
    {
        if str_eq(entries[i].0.as_str(), k) {
            proof {
                assert(entries@.skip(i as int)[0] == entries@[i as int]);
            }
            return Some(&entries[i].1);
        }
        proof {
            assert(entries@.skip(i as int).drop_first() =~= entries@.skip(i + 1));
        }
        i += 1;
    }
    proof {
        assert(entries@.skip(n as int).len() == 0);
    }
    None
}

/// An optional string field: an absent key and a JSON null both mean
/// "no value"; any value other than a string refuses the document.
pub open spec fn spec_opt_str_from_json(v: Option<JsonValue>) -> Option<Option<Seq<char>>> {
    match v {
        None => Some(None),
        Some(JsonValue::Null) => Some(None),
        Some(JsonValue::Str(s)) => Some(Some(s@)),
        _ => None,
    }
}

pub(crate) fn opt_str_field(entries: &Vec<(String, JsonValue)>, k: &str) -> (r: Option<
    Option<String>,
>)
    ensures
        match r {
            Some(Some(s)) => spec_opt_str_from_json(spec_obj_get(entries@, k@)) == Some(
                Some(s@),
            ),
            Some(None) => spec_opt_str_from_json(spec_obj_get(entries@, k@)) == Some(
                None::<Seq<char>>,
            ),
            None => spec_opt_str_from_json(spec_obj_get(entries@, k@)) is None,
        },
{
    match obj_get(entries, k) {
        None => Some(None),
        Some(v) => match v {
            JsonValue::Null => Some(None),
            JsonValue::Str(s) => Some(Some(s.clone())),
            _ => None,
        },
    }
}

} // verus!
