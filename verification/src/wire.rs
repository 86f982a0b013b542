use crate::json::{obj_get, spec_obj_get, JsonValue};
use crate::numbers::{parse_json_key_i32, spec_parse_json_key_i32};
use crate::{Code, Source, SpecCode, SpecSource};
use vstd::prelude::*;

verus! {

/// Mathematical model of a `SourcesMapping`.
pub struct SpecSourcesMapping {
    pub creator: int,
    pub submitter: int,
    pub lister: int,
}

/// Mathematical model of a `WireCode`.
pub struct SpecWireCode {
    pub code: Seq<char>,
    pub expired: bool,
    pub expires_at: Seq<char>,
    pub sources: SpecSourcesMapping,
}

/// Mathematical model of a `WireResponse`.
pub struct SpecWireResponse {
    pub codes: Seq<SpecWireCode>,
    pub sources: Seq<(int, SpecSource)>,
}

/// The three source ids a wire-code carries.  An id may reference a key
/// absent from the response's sources mapping; that is not an error.
#[derive(Debug)]
pub struct SourcesMapping {
    pub creator: i32,
    pub submitter: i32,
    pub lister: i32,
}

impl View for SourcesMapping {
    type V = SpecSourcesMapping;

    open spec fn view(&self) -> SpecSourcesMapping {
        SpecSourcesMapping {
            creator: self.creator as int,
            submitter: self.submitter as int,
            lister: self.lister as int,
        }
    }
}

/// One entry of the wire response's `codes` list, before projection.
#[derive(Debug)]
pub struct WireCode {
    pub code: String,
    pub expired: bool,
    pub expires_at: String,
    pub sources: SourcesMapping,
}

impl View for WireCode {
    type V = SpecWireCode;

    open spec fn view(&self) -> SpecWireCode {
        SpecWireCode {
            code: self.code@,
            expired: self.expired,
            expires_at: self.expires_at@,
            sources: self.sources@,
        }
    }
}

/// The as-received response document: a denormalized list of wire-codes
/// plus a mapping from integer id to `Source`, here held as key-value
/// pairs.  A document decoded from JSON text never carries an id twice.
#[derive(Debug)]
pub struct WireResponse {
    pub codes: Vec<WireCode>,
    pub sources: Vec<(i32, Source)>,
}

impl View for WireResponse {
    type V = SpecWireResponse;

    open spec fn view(&self) -> SpecWireResponse {
        SpecWireResponse {
            codes: self.codes@.map_values(|c: WireCode| c@),
            sources: self.sources@.map_values(|p: (i32, Source)| (p.0 as int, p.1@)),
        }
    }
}

/// The source bound to the first entry of `sources` whose id is `id`,
/// if any.
pub open spec fn spec_lookup_source(sources: Seq<(int, SpecSource)>, id: int) -> Option<SpecSource>
    decreases sources.len(),
{
    if sources.len() == 0 {
        None
    } else if sources[0].0 == id {
        Some(sources[0].1)
    } else {
        spec_lookup_source(sources.drop_first(), id)
    }
}

/// Resolves a source id against the response's sources mapping,
/// handing back a copy of the record when the id is present.
pub fn lookup_source(sources: &Vec<(i32, Source)>, id: i32) -> (r: Option<Source>)
    ensures
        match r {
            Some(s) => spec_lookup_source(
                sources@.map_values(|p: (i32, Source)| (p.0 as int, p.1@)),
                id as int,
            ) == Some(s@),
            None => spec_lookup_source(
                sources@.map_values(|p: (i32, Source)| (p.0 as int, p.1@)),
                id as int,
            ) is None,
        },
{
    let ghost vs = sources@.map_values(|p: (i32, Source)| (p.0 as int, p.1@));
    let n = sources.len();
    let mut i: usize = 0;
    proof {
        assert(vs.skip(0) =~= vs);
    }
    while i < n
        invariant
            i <= n,
            n == sources@.len(),
            vs == sources@.map_values(|p: (i32, Source)| (p.0 as int, p.1@)),
            spec_lookup_source(vs, id as int) == spec_lookup_source(vs.skip(i as int), id as int),
        decreases n - i,
    {
        if sources[i].0 == id {
            proof {
                assert(vs.skip(i as int)[0] == vs[i as int]);
            }
            return Some(sources[i].1.duplicate());
        }
        proof {
            assert(vs.skip(i as int)[0] == vs[i as int]);
            assert(vs.skip(i as int).drop_first() =~= vs.skip(i + 1));
        }
        i += 1;
    }
    proof {
        assert(vs.skip(n as int).len() == 0);
    }
    None
}

/// A source id absent from the sources mapping resolves to no source
/// at all; together with the projections' contracts, a dangling
/// cross-reference yields an absent field, never a failure.
pub proof fn lemma_lookup_absent(sources: Seq<(int, SpecSource)>, id: int)
    requires
        forall|i: int| 0 <= i < sources.len() ==> (#[trigger] sources[i]).0 != id,
    ensures
        spec_lookup_source(sources, id) is None,
    decreases sources.len(),
{
    if sources.len() > 0 {
        assert(forall|i: int|
            0 <= i < sources.drop_first().len() ==> (#[trigger] sources.drop_first()[i]).0
                != id);
        lemma_lookup_absent(sources.drop_first(), id);
    }
}

/// The slim projection of one wire-code: only the code string and the
/// expiry heuristic pass through; every optional field is absent.
pub open spec fn spec_slim_code(w: SpecWireCode) -> SpecCode {
    SpecCode {
        code: w.code,
        expired: w.expired,
        expires_at: None,
        creator: None,
        submitter: None,
        lister: None,
    }
}

/// The full projection of one wire-code: the expiry string passes
/// through verbatim, and each source id resolves to the mapped source
/// when present and to an absent field otherwise.
pub open spec fn spec_full_code(w: SpecWireCode, sources: Seq<(int, SpecSource)>) -> SpecCode {
    SpecCode {
        code: w.code,
        expired: w.expired,
        expires_at: Some(w.expires_at),
        creator: spec_lookup_source(sources, w.sources.creator),
        submitter: spec_lookup_source(sources, w.sources.submitter),
        lister: spec_lookup_source(sources, w.sources.lister),
    }
}

/// Slim projection of a wire response: one domain code per wire-code,
/// in order, with all meta fields blanked.
pub fn mapping_slim(codes: WireResponse) -> (r: Vec<Code>)
    ensures
        r@.len() == codes@.codes.len(),
        forall|i: int| 0 <= i < r@.len() ==> #[trigger] r@[i]@ == spec_slim_code(codes@.codes[i]),
{
    let ghost m = codes@;
    let n = codes.codes.len();
    let mut out: Vec<Code> = Vec::new();
    let mut i: usize = 0;
    while i < n
        invariant
            i <= n,
            n == codes.codes@.len(),
            m == codes@,
            out@.len() == i,
            forall|j: int| 0 <= j < i ==> #[trigger] out@[j]@ == spec_slim_code(m.codes[j]),
        decreases n - i,
    {
        let c = &codes.codes[i];
        out.push(
            Code {
                code: c.code.clone(),
                expired: c.expired,
                expires_at: None,
                creator: None,
                submitter: None,
                lister: None,
            },
        );
        i += 1;
    }
    out
}

/// Full projection of a wire response: one domain code per wire-code,
/// in order, each with its expiry string and its resolved sources.
pub fn mapping_full(codes: WireResponse) -> (r: Vec<Code>)
    ensures
        r@.len() == codes@.codes.len(),
        forall|i: int| 0 <= i < r@.len() ==> #[trigger] r@[i]@ == spec_full_code(
            codes@.codes[i],
            codes@.sources,
        ),
{
    let ghost m = codes@;
    let n = codes.codes.len();
    let mut out: Vec<Code> = Vec::new();
    let mut i: usize = 0;
    while i < n
        invariant
            i <= n,
            n == codes.codes@.len(),
            m == codes@,
            out@.len() == i,
            forall|j: int| 0 <= j < i ==> #[trigger] out@[j]@ == spec_full_code(
                m.codes[j],
                m.sources,
            ),
        decreases n - i,
    {
        let c = &codes.codes[i];
        let creator = lookup_source(&codes.sources, c.sources.creator);
        let submitter = lookup_source(&codes.sources, c.sources.submitter);
        let lister = lookup_source(&codes.sources, c.sources.lister);
        out.push(
            Code {
                code: c.code.clone(),
                expired: c.expired,
                expires_at: Some(c.expires_at.clone()),
                creator,
                submitter,
                lister,
            },
        );
        i += 1;
    }
    out
}

/// The `i32` a JSON value names: an integer in the `i32` range.
pub open spec fn spec_i32_from_json(v: Option<JsonValue>) -> Option<i32> {
    match v {
        Some(JsonValue::Int(i)) => if i32::MIN <= i && i <= i32::MAX {
            Some(i as i32)
        } else {
            None
        },
        _ => None,
    }
}

/// The characters a JSON string value holds.
pub open spec fn spec_str_from_json(v: Option<JsonValue>) -> Option<Seq<char>> {
    match v {
        Some(JsonValue::Str(s)) => Some(s@),
        _ => None,
    }
}

/// The boolean a JSON value holds.
pub open spec fn spec_bool_from_json(v: Option<JsonValue>) -> Option<bool> {
    match v {
        Some(JsonValue::Bool(b)) => Some(b),
        _ => None,
    }
}

/// The source a JSON value describes: an object with an `id` integer
/// and `name` and `url` strings.  Unknown fields are ignored.
pub open spec fn spec_source_from_json(v: JsonValue) -> Option<SpecSource> {
    match v {
        JsonValue::Obj(entries) => {
            match (
                spec_i32_from_json(spec_obj_get(entries@, "id"@)),
                spec_str_from_json(spec_obj_get(entries@, "name"@)),
                spec_str_from_json(spec_obj_get(entries@, "url"@)),
            ) {
                (Some(id), Some(name), Some(url)) => Some(
                    SpecSource { id: id as int, name, url },
                ),
                _ => None,
            }
        },
        _ => None,
    }
}

/// The id triple a JSON value describes: an object with `creator`,
/// `submitter` and `lister` integers.
pub open spec fn spec_mapping_from_json(v: JsonValue) -> Option<SpecSourcesMapping> {
    match v {
        JsonValue::Obj(entries) => {
            match (
                spec_i32_from_json(spec_obj_get(entries@, "creator"@)),
                spec_i32_from_json(spec_obj_get(entries@, "submitter"@)),
                spec_i32_from_json(spec_obj_get(entries@, "lister"@)),
            ) {
                (Some(c), Some(s), Some(l)) => Some(
                    SpecSourcesMapping { creator: c as int, submitter: s as int, lister: l as int },
                ),
                _ => None,
            }
        },
        _ => None,
    }
}

/// The wire-code a JSON value describes.
pub open spec fn spec_wire_code_from_json(v: JsonValue) -> Option<SpecWireCode> {
    match v {
        JsonValue::Obj(entries) => {
            match (
                spec_str_from_json(spec_obj_get(entries@, "code"@)),
                spec_bool_from_json(spec_obj_get(entries@, "expired"@)),
                spec_str_from_json(spec_obj_get(entries@, "expires_at"@)),
                spec_obj_get(entries@, "sources"@),
            ) {
                (Some(code), Some(expired), Some(expires_at), Some(srcv)) => {
                    match spec_mapping_from_json(srcv) {
                        Some(m) => Some(SpecWireCode { code, expired, expires_at, sources: m }),
                        None => None,
                    }
                },
                _ => None,
            }
        },
        _ => None,
    }
}

/// The wire-code list a JSON array describes: every element must be a
/// well-formed wire-code, in order.
pub open spec fn spec_codes_from_json(arr: Seq<JsonValue>) -> Option<Seq<SpecWireCode>>
    decreases arr.len(),
{
    if arr.len() == 0 {
        Some(Seq::empty())
    } else {
        match (spec_codes_from_json(arr.drop_last()), spec_wire_code_from_json(arr.last())) {
            (Some(rest), Some(c)) => Some(rest.push(c)),
            _ => None,
        }
    }
}

/// The sources mapping a JSON object describes: every key must spell an
/// integer id and every value a well-formed source, in entry order.
pub open spec fn spec_sources_from_json(entries: Seq<(String, JsonValue)>) -> Option<
    Seq<(int, SpecSource)>,
>
    decreases entries.len(),
{
    if entries.len() == 0 {
        Some(Seq::empty())
    } else {
        match (
            spec_sources_from_json(entries.drop_last()),
            spec_parse_json_key_i32(entries.last().0@),
            spec_source_from_json(entries.last().1),
        ) {
            (Some(rest), Some(id), Some(src)) => Some(rest.push((id as int, src))),
            _ => None,
        }
    }
}

/// The wire response a JSON value describes: an object with a `codes`
/// array and a `sources` object.
pub open spec fn spec_wire_from_json(v: JsonValue) -> Option<SpecWireResponse> {
    match v {
        JsonValue::Obj(entries) => {
            match (spec_obj_get(entries@, "codes"@), spec_obj_get(entries@, "sources"@)) {
                (Some(JsonValue::Arr(codes)), Some(JsonValue::Obj(srcs))) => {
                    match (spec_codes_from_json(codes@), spec_sources_from_json(srcs@)) {
                        (Some(cs), Some(ss)) => Some(SpecWireResponse { codes: cs, sources: ss }),
                        _ => None,
                    }
                },
                _ => None,
            }
        },
        _ => None,
    }
}

proof fn lemma_codes_prefix_some(arr: Seq<JsonValue>, j: int)
    requires
        0 <= j <= arr.len(),
        spec_codes_from_json(arr) is Some,
    ensures
        spec_codes_from_json(arr.take(j)) is Some,
    decreases arr.len(),
{
    if j == arr.len() {
        assert(arr.take(j) =~= arr);
    } else {
        assert(arr.drop_last().take(j) =~= arr.take(j));
        lemma_codes_prefix_some(arr.drop_last(), j);
    }
}

proof fn lemma_sources_prefix_some(entries: Seq<(String, JsonValue)>, j: int)
    requires
        0 <= j <= entries.len(),
        spec_sources_from_json(entries) is Some,
    ensures
        spec_sources_from_json(entries.take(j)) is Some,
    decreases entries.len(),
{
    if j == entries.len() {
        assert(entries.take(j) =~= entries);
    } else {
        assert(entries.drop_last().take(j) =~= entries.take(j));
        lemma_sources_prefix_some(entries.drop_last(), j);
    }
}

pub(crate) fn i32_field(entries: &Vec<(String, JsonValue)>, k: &str) -> (r: Option<i32>)
    ensures
        r == spec_i32_from_json(spec_obj_get(entries@, k@)),
{
    match obj_get(entries, k) {
        Some(v) => match v {
            JsonValue::Int(i) => {
                if *i >= i32::MIN as i64 && *i <= i32::MAX as i64 {
                    Some(*i as i32)
                } else {
                    None
                }
            },
            _ => None,
        },
        None => None,
    }
}

pub(crate) fn str_field(entries: &Vec<(String, JsonValue)>, k: &str) -> (r: Option<String>)
    ensures
        match r {
            Some(s) => spec_str_from_json(spec_obj_get(entries@, k@)) == Some(s@),
            None => spec_str_from_json(spec_obj_get(entries@, k@)) is None,
        },
{
    match obj_get(entries, k) {
        Some(v) => match v {
            JsonValue::Str(s) => Some(s.clone()),
            _ => None,
        },
        None => None,
    }
}

pub(crate) fn bool_field(entries: &Vec<(String, JsonValue)>, k: &str) -> (r: Option<bool>)
    ensures
        r == spec_bool_from_json(spec_obj_get(entries@, k@)),
{
    match obj_get(entries, k) {
        Some(v) => match v {
            JsonValue::Bool(b) => Some(*b),
            _ => None,
        },
        None => None,
    }
}

pub(crate) fn source_from_json(v: &JsonValue) -> (r: Option<Source>)
    ensures
        match r {
            Some(s) => spec_source_from_json(*v) == Some(s@),
            None => spec_source_from_json(*v) is None,
        },
{
    match v {
        JsonValue::Obj(entries) => {
            let id = match i32_field(entries, "id") {
                Some(i) => i,
                None => {
                    return None;
                },
            };
            let name = match str_field(entries, "name") {
                Some(s) => s,
                None => {
                    return None;
                },
            };
            let url = match str_field(entries, "url") {
                Some(s) => s,
                None => {
                    return None;
                },
            };
            Some(Source { id, name, url })
        },
        _ => None,
    }
}

fn mapping_from_json(v: &JsonValue) -> (r: Option<SourcesMapping>)
    ensures
        match r {
            Some(m) => spec_mapping_from_json(*v) == Some(m@),
            None => spec_mapping_from_json(*v) is None,
        },
{
    match v {
        JsonValue::Obj(entries) => {
            let creator = match i32_field(entries, "creator") {
                Some(i) => i,
                None => {
                    return None;
                },
            };
            let submitter = match i32_field(entries, "submitter") {
                Some(i) => i,
                None => {
                    return None;
                },
            };
            let lister = match i32_field(entries, "lister") {
                Some(i) => i,
                None => {
                    return None;
                },
            };
            Some(SourcesMapping { creator, submitter, lister })
        },
        _ => None,
    }
}

fn wire_code_from_json(v: &JsonValue) -> (r: Option<WireCode>)
    ensures
        match r {
            Some(c) => spec_wire_code_from_json(*v) == Some(c@),
            None => spec_wire_code_from_json(*v) is None,
        },
{
    match v {
        JsonValue::Obj(entries) => {
            let code = match str_field(entries, "code") {
                Some(s) => s,
                None => {
                    return None;
                },
            };
            let expired = match bool_field(entries, "expired") {
                Some(b) => b,
                None => {
                    return None;
                },
            };
            let expires_at = match str_field(entries, "expires_at") {
                Some(s) => s,
                None => {
                    return None;
                },
            };
            let srcv = match obj_get(entries, "sources") {
                Some(x) => x,
                None => {
                    return None;
                },
            };
            let sources = match mapping_from_json(srcv) {
                Some(m) => m,
                None => {
                    return None;
                },
            };
            Some(WireCode { code, expired, expires_at, sources })
        },
        _ => None,
    }
}

fn codes_from_json(arr: &Vec<JsonValue>) -> (r: Option<Vec<WireCode>>)
    ensures
        match r {
            Some(cs) => spec_codes_from_json(arr@) == Some(cs@.map_values(|c: WireCode| c@)),
            None => spec_codes_from_json(arr@) is None,
        },
{
    let n = arr.len();
    let mut out: Vec<WireCode> = Vec::new();
    let mut i: usize = 0;
    proof {
        assert(arr@.take(0) =~= Seq::<JsonValue>::empty());
        assert(out@.map_values(|c: WireCode| c@) =~= Seq::<SpecWireCode>::empty());
    }
    while i < n
        invariant
            i <= n,
            n == arr@.len(),
            spec_codes_from_json(arr@.take(i as int)) == Some(
                out@.map_values(|c: WireCode| c@),
            ),
        decreases n - i,
    {
        proof {
            assert(arr@.take(i + 1).drop_last() =~= arr@.take(i as int));
            assert(arr@.take(i + 1).last() == arr@[i as int]);
        }
        match wire_code_from_json(&arr[i]) {
            Some(c) => {
                let ghost prev = out@.map_values(|c: WireCode| c@);
                let ghost cv = c@;
                out.push(c);
                proof {
                    assert(out@.map_values(|c: WireCode| c@) =~= prev.push(cv));
                }
            },
            None => {
                proof {
                    assert(spec_codes_from_json(arr@.take(i + 1)) is None);
                    if spec_codes_from_json(arr@) is Some {
                        lemma_codes_prefix_some(arr@, i + 1);
                    }
                }
                return None;
            },
        }
        i += 1;
    }
    proof {
        assert(arr@.take(n as int) =~= arr@);
    }
    Some(out)
}

fn sources_from_json(entries: &Vec<(String, JsonValue)>) -> (r: Option<Vec<(i32, Source)>>)
    ensures
        match r {
            Some(ss) => spec_sources_from_json(entries@) == Some(
                ss@.map_values(|p: (i32, Source)| (p.0 as int, p.1@)),
            ),
            None => spec_sources_from_json(entries@) is None,
        },
{
    let n = entries.len();
    let mut out: Vec<(i32, Source)> = Vec::new();
    let mut i: usize = 0;
    proof {
        assert(entries@.take(0) =~= Seq::<(String, JsonValue)>::empty());
        assert(out@.map_values(|p: (i32, Source)| (p.0 as int, p.1@)) =~= Seq::<(
            int,
            SpecSource,
        )>::empty());
    }
    while i < n
        invariant
            i <= n,
            n == entries@.len(),
            spec_sources_from_json(entries@.take(i as int)) == Some(
                out@.map_values(|p: (i32, Source)| (p.0 as int, p.1@)),
            ),
        decreases n - i,
    {
        proof {
            assert(entries@.take(i + 1).drop_last() =~= entries@.take(i as int));
            assert(entries@.take(i + 1).last() == entries@[i as int]);
        }
        let id = parse_json_key_i32(entries[i].0.as_str());
        let src = source_from_json(&entries[i].1);
        match (id, src) {
            (Some(id), Some(src)) => {
                let ghost prev = out@.map_values(|p: (i32, Source)| (p.0 as int, p.1@));
                let ghost sv = src@;
                out.push((id, src));
                proof {
                    assert(out@.map_values(|p: (i32, Source)| (p.0 as int, p.1@)) =~= prev.push(
                        (id as int, sv),
                    ));
                }
            },
            _ => {
                proof {
                    assert(spec_sources_from_json(entries@.take(i + 1)) is None);
                    if spec_sources_from_json(entries@) is Some {
                        lemma_sources_prefix_some(entries@, i + 1);
                    }
                }
                return None;
            },
        }
        i += 1;
    }
    proof {
        assert(entries@.take(n as int) =~= entries@);
    }
    Some(out)
}

/// Reads a decoded JSON document as a wire response, if it has the
/// wire contract's shape.
pub fn wire_from_json(v: &JsonValue) -> (r: Option<WireResponse>)
    ensures
        match r {
            Some(w) => spec_wire_from_json(*v) == Some(w@),
            None => spec_wire_from_json(*v) is None,
        },
{
    match v {
        JsonValue::Obj(entries) => {
            let codes_v = match obj_get(entries, "codes") {
                Some(x) => x,
                None => {
                    return None;
                },
            };
            let sources_v = match obj_get(entries, "sources") {
                Some(x) => x,
                None => {
                    return None;
                },
            };
            let codes_arr = match codes_v {
                JsonValue::Arr(a) => a,
                _ => {
                    return None;
                },
            };
            let sources_obj = match sources_v {
                JsonValue::Obj(o) => o,
                _ => {
                    return None;
                },
            };
            let codes = match codes_from_json(codes_arr) {
                Some(c) => c,
                None => {
                    return None;
                },
            };
            let sources = match sources_from_json(sources_obj) {
                Some(s) => s,
                None => {
                    return None;
                },
            };
            Some(WireResponse { codes, sources })
        },
        _ => None,
    }
}

} // verus!
