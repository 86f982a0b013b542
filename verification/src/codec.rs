use crate::json::{
    lemma_obj_get_at, obj_get, opt_str_field, spec_obj_get, spec_opt_str_from_json, JsonValue,
};
use crate::wire::{
    bool_field, source_from_json, spec_bool_from_json, spec_source_from_json, spec_str_from_json,
    str_field,
};
use crate::{Code, Source, SpecCode, SpecSource};
use vstd::prelude::*;

verus! {

/// An optional source as the textual format spells it: an absent key
/// and a JSON null both mean no source; a source object means that
/// source; anything else refuses the document.
pub open spec fn spec_opt_source_from_json(v: Option<JsonValue>) -> Option<Option<SpecSource>> {
    match v {
        None => Some(None),
        Some(JsonValue::Null) => Some(None),
        Some(w) => match spec_source_from_json(w) {
            Some(s) => Some(Some(s)),
            None => None,
        },
    }
}

/// The code a JSON value describes: an object with a `code` string, an
/// `expired` boolean, an optional `expires_at` string and optional
/// `creator`, `submitter` and `lister` sources.
pub open spec fn spec_code_from_json(v: JsonValue) -> Option<SpecCode> {
    match v {
        JsonValue::Obj(entries) => match (
            spec_str_from_json(spec_obj_get(entries@, "code"@)),
            spec_bool_from_json(spec_obj_get(entries@, "expired"@)),
            spec_opt_str_from_json(spec_obj_get(entries@, "expires_at"@)),
            spec_opt_source_from_json(spec_obj_get(entries@, "creator"@)),
            spec_opt_source_from_json(spec_obj_get(entries@, "submitter"@)),
            spec_opt_source_from_json(spec_obj_get(entries@, "lister"@)),
        ) {
            (
                Some(code),
                Some(expired),
                Some(expires_at),
                Some(creator),
                Some(submitter),
                Some(lister),
            ) => Some(SpecCode { code, expired, expires_at, creator, submitter, lister }),
            _ => None,
        },
        _ => None,
    }
}

/// The code list a JSON array describes: every element must be a
/// well-formed code document, in order.
pub open spec fn spec_code_seq_from_json(arr: Seq<JsonValue>) -> Option<Seq<SpecCode>>
    decreases arr.len(),
{
    if arr.len() == 0 {
        Some(Seq::empty())
    } else {
        match (spec_code_seq_from_json(arr.drop_last()), spec_code_from_json(arr.last())) {
            (Some(rest), Some(c)) => Some(rest.push(c)),
            _ => None,
        }
    }
}

/// The code list a JSON value describes: a single array of code
/// documents.
pub open spec fn spec_code_list_from_json(v: JsonValue) -> Option<Seq<SpecCode>> {
    match v {
        JsonValue::Arr(a) => spec_code_seq_from_json(a@),
        _ => None,
    }
}

fn opt_source_from_json(v: Option<&JsonValue>) -> (r: Option<Option<Source>>)
    ensures
        match r {
            Some(Some(s)) => ({
                &&& v matches Some(w)
                &&& spec_opt_source_from_json(Some(*w)) == Some(Some(s@))
            }),
            Some(None) => match v {
                None => true,
                Some(w) => spec_opt_source_from_json(Some(*w)) == Some(None::<SpecSource>),
            },
            None => v matches Some(w) && spec_opt_source_from_json(Some(*w)) is None,
        },
{
    match v {
        None => Some(None),
        Some(w) => match w {
            JsonValue::Null => Some(None),
            _ => match source_from_json(w) {
                Some(s) => Some(Some(s)),
                None => None,
            },
        },
    }
}

/// Reads a JSON document back as a code, if it has the textual
/// format's shape.
pub fn code_from_json(v: &JsonValue) -> (r: Option<Code>)
    ensures
        match r {
            Some(c) => spec_code_from_json(*v) == Some(c@),
            None => spec_code_from_json(*v) is None,
        },
{
    match v {
        JsonValue::Obj(entries) => {
            let code = match str_field(entries, "code") {
                Some(s) => s,
                None => {
                    return None;
                },
            };
            let expired = match bool_field(entries, "expired") {
                Some(b) => b,
                None => {
                    return None;
                },
            };
            let expires_at = match opt_str_field(entries, "expires_at") {
                Some(s) => s,
                None => {
                    return None;
                },
            };
            let creator = match opt_source_from_json(obj_get(entries, "creator")) {
                Some(s) => s,
                None => {
                    return None;
                },
            };
            let submitter = match opt_source_from_json(obj_get(entries, "submitter")) {
                Some(s) => s,
                None => {
                    return None;
                },
            };
            let lister = match opt_source_from_json(obj_get(entries, "lister")) {
                Some(s) => s,
                None => {
                    return None;
                },
            };
            Some(Code { code, expired, expires_at, creator, submitter, lister })
        },
        _ => None,
    }
}

proof fn lemma_code_seq_prefix_some(arr: Seq<JsonValue>, j: int)
    requires
        0 <= j <= arr.len(),
        spec_code_seq_from_json(arr) is Some,
    ensures
        spec_code_seq_from_json(arr.take(j)) is Some,
    decreases arr.len(),
{
    if j == arr.len() {
        assert(arr.take(j) =~= arr);
    } else {
        assert(arr.drop_last().take(j) =~= arr.take(j));
        lemma_code_seq_prefix_some(arr.drop_last(), j);
    }
}

/// Reads a JSON document back as a code list, if it has the textual
/// format's shape.
pub fn code_list_from_json(v: &JsonValue) -> (r: Option<Vec<Code>>)
    ensures
        match r {
            Some(cs) => spec_code_list_from_json(*v) == Some(cs@.map_values(|c: Code| c@)),
            None => spec_code_list_from_json(*v) is None,
        },
{
    let arr = match v {
        JsonValue::Arr(a) => a,
        _ => {
            return None;
        },
    };
    proof {
        assert(spec_code_list_from_json(*v) == spec_code_seq_from_json(arr@));
    }
    let n = arr.len();
    let mut out: Vec<Code> = Vec::new();
    let mut i: usize = 0;
    proof {
        assert(arr@.take(0) =~= Seq::<JsonValue>::empty());
        assert(out@.map_values(|c: Code| c@) =~= Seq::<SpecCode>::empty());
    }
    while i < n
        invariant
            i <= n,
            n == arr@.len(),
            spec_code_list_from_json(*v) == spec_code_seq_from_json(arr@),
            spec_code_seq_from_json(arr@.take(i as int)) == Some(out@.map_values(|c: Code| c@)),
        decreases n - i,
    {
        proof {
            assert(arr@.take(i + 1).drop_last() =~= arr@.take(i as int));
            assert(arr@.take(i + 1).last() == arr@[i as int]);
        }
        match code_from_json(&arr[i]) {
            Some(c) => {
                let ghost prev = out@.map_values(|c: Code| c@);
                let ghost cv = c@;
                out.push(c);
                proof {
                    assert(out@.map_values(|c: Code| c@) =~= prev.push(cv));
                }
            },
            None => {
                proof {
                    assert(spec_code_seq_from_json(arr@.take(i + 1)) is None);
                    if spec_code_seq_from_json(arr@) is Some {
                        lemma_code_seq_prefix_some(arr@, i + 1);
                    }
                }
                return None;
            },
        }
        i += 1;
    }
    proof {
        assert(arr@.take(n as int) =~= arr@);
    }
    Some(out)
}

/// Writes a source as a JSON document whose decoding yields exactly
/// this source's field values.
fn source_to_json(s: &Source) -> (r: JsonValue)
    ensures
        spec_source_from_json(r) == Some(s@),
{
    let mut entries: Vec<(String, JsonValue)> = Vec::new();
    entries.push(("id".to_owned(), JsonValue::Int(s.id as i64)));
    entries.push(("name".to_owned(), JsonValue::Str(s.name.clone())));
    entries.push(("url".to_owned(), JsonValue::Str(s.url.clone())));
    let ghost es = entries@;
    proof {
        reveal_strlit("id");
        reveal_strlit("name");
        reveal_strlit("url");
        assert(es.len() == 3);
        assert(es[0].0@ == "id"@ && es[1].0@ == "name"@ && es[2].0@ == "url"@);
        assert("id"@.len() == 2 && "name"@.len() == 4 && "url"@.len() == 3);
        assert(es[0].0@ != "name"@ && es[0].0@ != "url"@ && es[1].0@ != "url"@);
        lemma_obj_get_at(es, "id"@, 0);
        lemma_obj_get_at(es, "name"@, 1);
        lemma_obj_get_at(es, "url"@, 2);
    }
    JsonValue::Obj(entries)
}

/// Writes a code as a JSON document.  Reading the document back yields
/// exactly this code's field values: the textual format round-trips.
pub fn code_to_json(c: &Code) -> (r: JsonValue)
    ensures
        spec_code_from_json(r) == Some(c@),
{
    let mut entries: Vec<(String, JsonValue)> = Vec::new();
    entries.push(("code".to_owned(), JsonValue::Str(c.code.clone())));
    entries.push(("expired".to_owned(), JsonValue::Bool(c.expired)));
    entries.push(
        (
            "expires_at".to_owned(),
            match &c.expires_at {
                Some(s) => JsonValue::Str(s.clone()),
                None => JsonValue::Null,
            },
        ),
    );
    entries.push(
        (
            "creator".to_owned(),
            match &c.creator {
                Some(s) => source_to_json(s),
                None => JsonValue::Null,
            },
        ),
    );
    entries.push(
        (
            "submitter".to_owned(),
            match &c.submitter {
                Some(s) => source_to_json(s),
                None => JsonValue::Null,
            },
        ),
    );
    entries.push(
        (
            "lister".to_owned(),
            match &c.lister {
                Some(s) => source_to_json(s),
                None => JsonValue::Null,
            },
        ),
    );
    let ghost es = entries@;
    proof {
        reveal_strlit("code");
        reveal_strlit("expired");
        reveal_strlit("expires_at");
        reveal_strlit("creator");
        reveal_strlit("submitter");
        reveal_strlit("lister");
        assert(es.len() == 6);
        assert(es[0].0@ == "code"@ && es[1].0@ == "expired"@ && es[2].0@ == "expires_at"@);
        assert(es[3].0@ == "creator"@ && es[4].0@ == "submitter"@ && es[5].0@ == "lister"@);
        assert("code"@.len() == 4);
        assert("expired"@.len() == 7);
        assert("expires_at"@.len() == 10);
        assert("creator"@.len() == 7);
        assert("submitter"@.len() == 9);
        assert("lister"@.len() == 6);
        assert("code"@ != "expired"@);
        assert("code"@ != "expires_at"@);
        assert("code"@ != "creator"@);
        assert("code"@ != "submitter"@);
        assert("code"@ != "lister"@);
        assert("expired"@ != "expires_at"@);
        assert("expired"@[0] == 'e' && "creator"@[0] == 'c');
        assert("expired"@ != "creator"@);
        assert("expired"@ != "submitter"@);
        assert("expired"@ != "lister"@);
        assert("expires_at"@ != "creator"@);
        assert("expires_at"@ != "submitter"@);
        assert("expires_at"@ != "lister"@);
        assert("creator"@ != "submitter"@);
        assert("creator"@ != "lister"@);
        assert("submitter"@ != "lister"@);
        lemma_obj_get_at(es, "code"@, 0);
        lemma_obj_get_at(es, "expired"@, 1);
        lemma_obj_get_at(es, "expires_at"@, 2);
        lemma_obj_get_at(es, "creator"@, 3);
        lemma_obj_get_at(es, "submitter"@, 4);
        lemma_obj_get_at(es, "lister"@, 5);
    }
    JsonValue::Obj(entries)
}

/// Writes a code list as one JSON document.  Reading the document back
/// yields exactly the list's field values, in order: the textual
/// format round-trips, so a fully projected list survives being
/// written out and read in again unchanged.
pub fn code_list_to_json(codes: &Vec<Code>) -> (r: JsonValue)
    ensures
        spec_code_list_from_json(r) == Some(codes@.map_values(|c: Code| c@)),
{
    let n = codes.len();
    let mut out: Vec<JsonValue> = Vec::new();
    let mut i: usize = 0;
    proof {
        assert(out@ =~= Seq::<JsonValue>::empty());
        assert(codes@.take(0).map_values(|c: Code| c@) =~= Seq::<SpecCode>::empty());
    }
    while i < n
        invariant
            i <= n,
            n == codes@.len(),
            spec_code_seq_from_json(out@) == Some(
                codes@.take(i as int).map_values(|c: Code| c@),
            ),
        decreases n - i,
    {
        let t = code_to_json(&codes[i]);
        let ghost prev = out@;
        let ghost tv = t;
        out.push(t);
        proof {
            assert(out@.drop_last() =~= prev);
            assert(out@.last() == tv);
            assert(codes@.take(i + 1).map_values(|c: Code| c@) =~= codes@.take(
                i as int,
            ).map_values(|c: Code| c@).push(codes@[i as int]@));
        }
        i += 1;
    }
    proof {
        assert(codes@.take(n as int) =~= codes@);
    }
    JsonValue::Arr(out)
}

} // verus!
