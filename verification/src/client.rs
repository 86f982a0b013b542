use crate::api_key::ApiKey;
use crate::error::{
    ClientError, ErrorResponse, InnerErrorResponse, SpecClientError, SpecErrorResponse,
    SpecInnerErrorResponse,
};
use crate::json::{
    json_of, obj_get, opt_str_field, parse_json, spec_obj_get, spec_opt_str_from_json, JsonValue,
};
use crate::wire::{
    i32_field, mapping_full, mapping_slim, spec_full_code, spec_i32_from_json, spec_slim_code,
    spec_str_from_json, spec_wire_from_json, str_field, wire_from_json, SpecWireResponse,
};
use crate::Code;
use vstd::prelude::*;
use vstd::string::{StrSliceExecFns, StringExecFns};

verus! {

/// The base URL used when none is supplied: the catalog service run by
/// the remote's maintainer.
pub open spec fn spec_default_base_url() -> Seq<char> {
    "https://codes.idlechampions.liefland.net/v1"@
}

/// The default base URL.
pub fn default_base_url() -> (r: &'static str)
    ensures
        r@ == spec_default_base_url(),
{
    "https://codes.idlechampions.liefland.net/v1"
}

/// The read-side configuration of the transport client: where the
/// service lives and, for write operations, which credential to send.
/// The HTTP handle itself lives with the caller that performs the
/// network calls.
pub struct CodesClient {
    pub base_url: String,
    pub api_key: Option<ApiKey>,
}

/// `base_url` and `path` joined by exactly one separating `/`,
/// whether or not `base_url` ends with one and whether or not `path`
/// starts with one.
pub open spec fn spec_url(base: Seq<char>, path: Seq<char>) -> Seq<char> {
    let b = if base.len() > 0 && base.last() == '/' {
        base.drop_last()
    } else {
        base
    };
    let p = if path.len() > 0 && path[0] == '/' {
        path.drop_first()
    } else {
        path
    };
    b + seq!['/'] + p
}

/// A path given with a leading slash names the same URL as one given
/// without it.
pub proof fn lemma_url_ignores_leading_slash(base: Seq<char>, path: Seq<char>)
    requires
        path.len() == 0 || path[0] != '/',
    ensures
        spec_url(base, seq!['/'] + path) == spec_url(base, path),
{
    assert((seq!['/'] + path)[0] == '/');
    assert((seq!['/'] + path).drop_first() =~= path);
}

/// A base URL given with a trailing slash names the same URLs as one
/// given without it.
pub proof fn lemma_url_ignores_trailing_slash(base: Seq<char>, path: Seq<char>)
    requires
        base.len() == 0 || base.last() != '/',
    ensures
        spec_url(base.push('/'), path) == spec_url(base, path),
{
    assert(base.push('/').last() == '/');
    assert(base.push('/').drop_last() =~= base);
}

impl CodesClient {
    /// Construct a new CodesClient providing an optional API key.
    pub fn new(api_key: Option<ApiKey>) -> (r: Self)
        ensures
            r.api_key == api_key,
            r.base_url@ == spec_default_base_url(),
    {
        Self::new_full(api_key, None)
    }

    /// Construct a new CodesClient, optionally providing an API Key.
    /// If left to None, default values will be used.
    pub fn new_full(api_key: Option<ApiKey>, base_url: Option<String>) -> (r: Self)
        ensures
            r.api_key == api_key,
            match base_url {
                Some(u) => r.base_url@ == u@,
                None => r.base_url@ == spec_default_base_url(),
            },
    {
        let base_url = match base_url {
            Some(u) => u,
            None => default_base_url().to_owned(),
        };
        CodesClient { base_url, api_key }
    }

    /// Joins the base URL and a path with exactly one separating `/`.
    pub fn url(&self, path: &str) -> (r: String)
        ensures
            r@ == spec_url(self.base_url@, path@),
    {
        let base = self.base_url.as_str();
        let blen = base.unicode_len();
        let b: &str = if blen > 0 && base.get_char(blen - 1) == '/' {
            base.substring_char(0, blen - 1)
        } else {
            base
        };
        proof {
            if blen > 0 && base@.last() == '/' {
                assert(base@.subrange(0, blen - 1) =~= base@.drop_last());
            }
        }
        let plen = path.unicode_len();
        let p: &str = if plen > 0 && path.get_char(0) == '/' {
            path.substring_char(1, plen)
        } else {
            path
        };
        proof {
            if plen > 0 && path@[0] == '/' {
                assert(path@.subrange(1, plen as int) =~= path@.drop_first());
            }
        }
        let mut out = b.to_owned();
        out.append("/");
        out.append(p);
        proof {
            reveal_strlit("/");
            assert("/"@ =~= seq!['/']);
        }
        out
    }

    /// The credential a write operation must carry.  This fails, before
    /// any network call is made, if and only if no API Key is
    /// configured.
    pub fn require_api_key(&self) -> (r: Result<&str, ClientError>)
        ensures
            match r {
                Ok(k) => self.api_key matches Some(key) && k@ == key@,
                Err(e) => self.api_key is None && e@ == SpecClientError::ApiKeyMissing,
            },
    {
        match &self.api_key {
            Some(key) => Ok(key.get()),
            None => Err(ClientError::ApiKeyMissing),
        }
    }
}

impl Default for CodesClient {
    /// A client against the default base URL, with no credential.
    fn default() -> (r: Self)
        ensures
            r.base_url@ == spec_default_base_url(),
            r.api_key is None,
    {
        CodesClient { base_url: default_base_url().to_owned(), api_key: None }
    }
}

/// The error envelope a JSON value describes: an object whose `error`
/// field holds a `code` integer, a `description` string and an
/// optional `debug` string.  Unknown fields are ignored.
pub open spec fn spec_envelope_from_json(v: JsonValue) -> Option<SpecErrorResponse> {
    match v {
        JsonValue::Obj(entries) => match spec_obj_get(entries@, "error"@) {
            Some(JsonValue::Obj(inner)) => match (
                spec_i32_from_json(spec_obj_get(inner@, "code"@)),
                spec_str_from_json(spec_obj_get(inner@, "description"@)),
                spec_opt_str_from_json(spec_obj_get(inner@, "debug"@)),
            ) {
                (Some(code), Some(description), Some(debug)) => Some(
                    SpecErrorResponse {
                        error: SpecInnerErrorResponse { code: code as int, description, debug },
                    },
                ),
                _ => None,
            },
            _ => None,
        },
        _ => None,
    }
}

/// Reads a decoded JSON document as the remote's error envelope, if it
/// has that shape.
pub fn envelope_from_json(v: &JsonValue) -> (r: Option<ErrorResponse>)
    ensures
        match r {
            Some(e) => spec_envelope_from_json(*v) == Some(e@),
            None => spec_envelope_from_json(*v) is None,
        },
{
    match v {
        JsonValue::Obj(entries) => {
            let innerv = match obj_get(entries, "error") {
                Some(x) => x,
                None => {
                    return None;
                },
            };
            let inner = match innerv {
                JsonValue::Obj(o) => o,
                _ => {
                    return None;
                },
            };
            let code = match i32_field(inner, "code") {
                Some(c) => c,
                None => {
                    return None;
                },
            };
            let description = match str_field(inner, "description") {
                Some(s) => s,
                None => {
                    return None;
                },
            };
            let debug = match opt_str_field(inner, "debug") {
                Some(d) => d,
                None => {
                    return None;
                },
            };
            Some(ErrorResponse { error: InnerErrorResponse { code, description, debug } })
        },
        _ => None,
    }
}

/// How a completed HTTP outcome is classified.  A successful status
/// hands the body through for the caller to interpret.  A failure
/// status must carry a well-formed error envelope, reported verbatim;
/// a failure body of any other shape is a serialization error, never
/// silently swallowed.
pub open spec fn spec_classify_response(success: bool, body: Seq<char>) -> Result<
    Seq<char>,
    SpecClientError,
> {
    if success {
        Ok(body)
    } else {
        match json_of(body) {
            Err(m) => Err(SpecClientError::Serde(m)),
            Ok(tree) => match spec_envelope_from_json(tree) {
                Some(env) => Err(SpecClientError::ServerError(env)),
                None => Err(SpecClientError::Serde("the failure body holds no error envelope"@)),
            },
        }
    }
}

/// Classifies the outcome of a completed HTTP call: its status's
/// success flag and its body text.
pub fn classify_response(success: bool, body: String) -> (r: Result<String, ClientError>)
    ensures
        match r {
            Ok(s) => spec_classify_response(success, body@) == Ok::<Seq<char>, SpecClientError>(
                s@,
            ),
            Err(e) => spec_classify_response(success, body@) == Err::<Seq<char>, SpecClientError>(
                e@,
            ),
        },
{
    if success {
        return Ok(body);
    }
    match parse_json(body.as_str()) {
        Err(m) => Err(ClientError::Serde(m)),
        Ok(tree) => match envelope_from_json(&tree) {
            Some(env) => Err(ClientError::ServerError(env)),
            None => Err(
                ClientError::Serde("the failure body holds no error envelope".to_owned()),
            ),
        },
    }
}

/// How a success body is read as a wire response: it must be JSON of
/// the wire contract's shape; anything else is a serialization error,
/// since a malformed payload indicates a protocol mismatch with the
/// remote.
pub open spec fn spec_decode_wire(body: Seq<char>) -> Result<SpecWireResponse, SpecClientError> {
    match json_of(body) {
        Err(m) => Err(SpecClientError::Serde(m)),
        Ok(tree) => match spec_wire_from_json(tree) {
            Some(w) => Ok(w),
            None => Err(SpecClientError::Serde("the body holds no codes response"@)),
        },
    }
}

fn decode_wire(body: &str) -> (r: Result<crate::wire::WireResponse, ClientError>)
    ensures
        match r {
            Ok(w) => spec_decode_wire(body@) == Ok::<SpecWireResponse, SpecClientError>(w@),
            Err(e) => spec_decode_wire(body@) == Err::<SpecWireResponse, SpecClientError>(e@),
        },
{
    match parse_json(body) {
        Err(m) => Err(ClientError::Serde(m)),
        Ok(tree) => match wire_from_json(&tree) {
            Some(w) => Ok(w),
            None => Err(ClientError::Serde("the body holds no codes response".to_owned())),
        },
    }
}

/// Reads a success body as a wire response and projects it through the
/// full mapping: every code with its expiry string and its resolved
/// sources.
pub fn decode_codes_full(body: &str) -> (r: Result<Vec<Code>, ClientError>)
    ensures
        match r {
            Ok(cs) => spec_decode_wire(body@) matches Ok(w) && cs@.len() == w.codes.len()
                && forall|i: int|
                0 <= i < cs@.len() ==> #[trigger] cs@[i]@ == spec_full_code(
                    w.codes[i],
                    w.sources,
                ),
            Err(e) => spec_decode_wire(body@) matches Err(m) && e@ == m,
        },
{
    match decode_wire(body) {
        Ok(w) => Ok(mapping_full(w)),
        Err(e) => Err(e),
    }
}

/// Reads a success body as a wire response and projects it through the
/// slim mapping: only each code string and its expiry heuristic.
pub fn decode_codes_slim(body: &str) -> (r: Result<Vec<Code>, ClientError>)
    ensures
        match r {
            Ok(cs) => spec_decode_wire(body@) matches Ok(w) && cs@.len() == w.codes.len()
                && forall|i: int|
                0 <= i < cs@.len() ==> #[trigger] cs@[i]@ == spec_slim_code(w.codes[i]),
            Err(e) => spec_decode_wire(body@) matches Err(m) && e@ == m,
        },
{
    match decode_wire(body) {
        Ok(w) => Ok(mapping_slim(w)),
        Err(e) => Err(e),
    }
}

} // verus!
