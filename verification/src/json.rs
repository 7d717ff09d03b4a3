use vstd::prelude::*;

verus! {

broadcast use vstd::std_specs::vec::group_vec_axioms, vstd::seq::group_seq_axioms;

/// A decoded JSON document. Numbers are carried as their decimal text so that
/// the scaling rules of the metric mapper can be stated and proved over exact
/// integer arithmetic.
pub enum Json {
    Null,
    Bool(bool),
    Num(String),
    Str(String),
    Arr(Vec<Json>),
    Obj(Vec<(String, Json)>),
}

/// The mathematical shape of a decoded JSON document.
pub enum JsonV {
    Null,
    Bool(bool),
    Num(Seq<char>),
    Str(Seq<char>),
    Arr(Seq<JsonV>),
    Obj(Seq<(Seq<char>, JsonV)>),
}

impl View for Json {
    type V = JsonV;

    open spec fn view(&self) -> JsonV
        decreases self,
    {
        match self {
            Json::Null => JsonV::Null,
            Json::Bool(b) => JsonV::Bool(*b),
            Json::Num(s) => JsonV::Num(s@),
            Json::Str(s) => JsonV::Str(s@),
            Json::Arr(items) => JsonV::Arr(arr_view(items@)),
            Json::Obj(fields) => JsonV::Obj(fields_view(fields@)),
        }
    }
}

/// The view of a field list of a JSON object.
pub open spec fn fields_view(s: Seq<(String, Json)>) -> Seq<(Seq<char>, JsonV)>
    decreases s,
{
    Seq::new(
        s.len(),
        |i: int|
            if 0 <= i < s.len() {
                (s[i].0@, s[i].1@)
            } else {
                (Seq::empty(), JsonV::Null)
            },
    )
}

/// The view of an element list of a JSON array.
pub open spec fn arr_view(s: Seq<Json>) -> Seq<JsonV>
    decreases s,
{
    Seq::new(
        s.len(),
        |i: int|
            if 0 <= i < s.len() {
                s[i]@
            } else {
                JsonV::Null
            },
    )
}

/// The document that decoding a given text yields, if any: `None` stands for
/// a structural decode failure.
pub uninterp spec fn json_of(s: Seq<char>) -> Option<JsonV>;

#[verifier::external_type_specification]
#[verifier::external_body]
pub struct ExValue(serde_json::Value);

/// The conversion half of `json_decode`: carries a `serde_json::Value` over
/// into the crate's own document type, rendering numbers through
/// `serde_json::Number`'s decimal formatting.
#[verifier::external_body]
fn convert_value(v: serde_json::Value) -> Json {
    match v {
        serde_json::Value::Null => Json::Null,
        serde_json::Value::Bool(b) => Json::Bool(b),
        serde_json::Value::Number(n) => Json::Num(n.to_string()),
        serde_json::Value::String(s) => Json::Str(s),
        serde_json::Value::Array(a) => Json::Arr(a.into_iter().map(convert_value).collect()),
        serde_json::Value::Object(m) => Json::Obj(
            m.into_iter().map(|(k, x)| (k, convert_value(x))).collect(),
        ),
    }
}

/// Relies on `serde_json::from_str::<serde_json::Value>`: the decode succeeds
/// exactly on structurally well-formed JSON text, and its result is a function
/// of the text alone. On failure the error's rendering is returned; nothing is
/// claimed of that text.
#[verifier::external_body]
pub fn json_decode(s: &str) -> (r: Result<Json, String>)
    ensures
        match r {
            Ok(j) => json_of(s@) == Some(j@),
            Err(_) => json_of(s@) is None,
        },
{
    match serde_json::from_str::<serde_json::Value>(s) {
        Ok(v) => Ok(convert_value(v)),
        Err(e) => Err(e.to_string()),
    }
}

/// The field list of a JSON object, if the document is one.
pub fn as_obj<'a>(j: &'a Json) -> (r: Option<&'a Vec<(String, Json)>>)
    ensures
        match r {
            Some(fields) => j@ == JsonV::Obj(fields_view(fields@)),
            None => !(j@ is Obj),
        },
{
    match j {
        Json::Obj(fields) => {
            Some(fields)
        },
        _ => None,
    }
}

/// The element list of a JSON array, if the document is one.
pub fn as_arr<'a>(j: &'a Json) -> (r: Option<&'a Vec<Json>>)
    ensures
        match r {
            Some(items) => j@ == JsonV::Arr(arr_view(items@)),
            None => !(j@ is Arr),
        },
{
    match j {
        Json::Arr(items) => Some(items),
        _ => None,
    }
}

/// Whether the document is the JSON null value.
pub fn is_null(j: &Json) -> (r: bool)
    ensures
        r == (j@ is Null),
{
    match j {
        Json::Null => true,
        _ => false,
    }
}

/// Look a key up in a JSON object's field list: the first binding wins.
pub open spec fn obj_lookup(fields: Seq<(Seq<char>, JsonV)>, key: Seq<char>) -> Option<JsonV>
    decreases fields.len(),
{
    if fields.len() == 0 {
        None
    } else if fields[0].0 == key {
        Some(fields[0].1)
    } else {
        obj_lookup(fields.skip(1), key)
    }
}

proof fn lemma_obj_lookup_skip(fields: Seq<(Seq<char>, JsonV)>, key: Seq<char>, i: int)
    requires
        0 <= i <= fields.len(),
        forall|j: int| 0 <= j < i ==> fields[j].0 != key,
    ensures
        obj_lookup(fields, key) == obj_lookup(fields.skip(i), key),
    decreases i,
{
    if i > 0 {
        lemma_obj_lookup_skip(fields.skip(1), key, i - 1);
        assert(fields.skip(1).skip(i - 1) =~= fields.skip(i));
    } else {
        assert(fields.skip(0) =~= fields);
    }
}

/// Fetch the value bound to `key` in a JSON object's field list.
pub fn obj_get<'a>(fields: &'a Vec<(String, Json)>, key: &str) -> (r: Option<&'a Json>)
    ensures
        match r {
            Some(j) => obj_lookup(fields_view(fields@), key@) == Some(j@),
            None => obj_lookup(fields_view(fields@), key@) is None,
        },
{
    let n = fields.len();
    let mut i: usize = 0;
    while i < n
        invariant
            n == fields@.len(),
            i <= n,
            forall|j: int| 0 <= j < i ==> fields_view(fields@)[j].0 != key@,
        decreases n - i,
    {
        if crate::util::str_eq(fields[i].0.as_str(), key) {
            proof {
                lemma_obj_lookup_skip(fields_view(fields@), key@, i as int);
                assert(fields_view(fields@).skip(i as int)[0] == fields_view(fields@)[i as int]);
            }
            return Some(&fields[i].1);
        }
        i = i + 1;
    }
    proof {
        lemma_obj_lookup_skip(fields_view(fields@), key@, n as int);
    }
    None
}

} // verus!
