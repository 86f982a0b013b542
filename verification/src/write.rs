use crate::error::ClientError;
use crate::numbers::{parse_i32, spec_parse_i32};
use crate::SpecSourceLookup;
use vstd::prelude::*;
use vstd::string::StrSliceExecFns;

verus! {

/// Mathematical model of an `InsertCodeRequest`.
pub struct SpecInsertCodeRequest {
    pub code: Seq<char>,
    pub expires_at: int,
    pub creator: SpecSourceLookup,
    pub submitter: Option<SpecSourceLookup>,
}

/// Mathematical model of a `RemoteInsertCodeRequest`.
pub struct SpecRemoteInsertCodeRequest {
    pub code: Seq<char>,
    pub expires_at: int,
    pub creator_name: Seq<char>,
    pub creator_url: Seq<char>,
    pub submitter_name: Option<Seq<char>>,
    pub submitter_url: Option<Seq<char>>,
}

/// SourceLookup represents a source of a code, such as a streamer or developer.
/// This object is used for write requests and does not require an id.
///
/// Sources in the remote service are stored as unique (name, url) pairs.
#[derive(Debug, Clone)]
pub struct SourceLookup {
    pub name: String,
    pub url: String,
}

impl View for SourceLookup {
    type V = SpecSourceLookup;

    open spec fn view(&self) -> SpecSourceLookup {
        SpecSourceLookup { name: self.name@, url: self.url@ }
    }
}

/// InsertCodeRequest is the request body for inserting a code into the
/// remote catalog.  An API Key is also needed to insert codes.
#[derive(Debug, Clone)]
pub struct InsertCodeRequest {
    /// The code itself that can be redeemed.
    pub code: String,
    /// A unix timestamp of when the code expires, best guess.
    pub expires_at: u64,
    /// The creator is the person who created the code.
    pub creator: SourceLookup,
    /// The submitter is the person who submitted the code to some kind
    /// of list or channel; when absent the remote attributes the code
    /// to the creator.
    pub submitter: Option<SourceLookup>,
}

impl View for InsertCodeRequest {
    type V = SpecInsertCodeRequest;

    open spec fn view(&self) -> SpecInsertCodeRequest {
        SpecInsertCodeRequest {
            code: self.code@,
            expires_at: self.expires_at as int,
            creator: self.creator@,
            submitter: match self.submitter {
                Some(s) => Some(s@),
                None => None,
            },
        }
    }
}

/// The shape the remote's write endpoint expects: the nested source
/// records flattened into scalar fields, with both submitter fields
/// absent when no submitter was supplied.
#[derive(Debug)]
pub struct RemoteInsertCodeRequest {
    pub code: String,
    pub expires_at: u64,
    pub creator_name: String,
    pub creator_url: String,
    pub submitter_name: Option<String>,
    pub submitter_url: Option<String>,
}

impl View for RemoteInsertCodeRequest {
    type V = SpecRemoteInsertCodeRequest;

    open spec fn view(&self) -> SpecRemoteInsertCodeRequest {
        SpecRemoteInsertCodeRequest {
            code: self.code@,
            expires_at: self.expires_at as int,
            creator_name: self.creator_name@,
            creator_url: self.creator_url@,
            submitter_name: match self.submitter_name {
                Some(s) => Some(s@),
                None => None,
            },
            submitter_url: match self.submitter_url {
                Some(s) => Some(s@),
                None => None,
            },
        }
    }
}

/// How an insert request is flattened for the wire: a fixed
/// wire-contract requirement of the remote.
pub open spec fn spec_flatten(req: SpecInsertCodeRequest) -> SpecRemoteInsertCodeRequest {
    SpecRemoteInsertCodeRequest {
        code: req.code,
        expires_at: req.expires_at,
        creator_name: req.creator.name,
        creator_url: req.creator.url,
        submitter_name: match req.submitter {
            Some(s) => Some(s.name),
            None => None,
        },
        submitter_url: match req.submitter {
            Some(s) => Some(s.url),
            None => None,
        },
    }
}

impl From<InsertCodeRequest> for RemoteInsertCodeRequest {
    fn from(value: InsertCodeRequest) -> (r: Self)
        ensures
            r@ == spec_flatten(value@),
    {
        let (submitter_name, submitter_url) = match value.submitter {
            None => (None, None),
            Some(s) => (Some(s.name), Some(s.url)),
        };
        Self {
            code: value.code,
            expires_at: value.expires_at,
            creator_name: value.creator.name,
            creator_url: value.creator.url,
            submitter_name,
            submitter_url,
        }
    }
}

impl vstd::std_specs::convert::FromSpecImpl<InsertCodeRequest> for RemoteInsertCodeRequest {
    open spec fn obeys_from_spec() -> bool {
        true
    }

    open spec fn from_spec(value: InsertCodeRequest) -> Self {
        RemoteInsertCodeRequest {
            code: value.code,
            expires_at: value.expires_at,
            creator_name: value.creator.name,
            creator_url: value.creator.url,
            submitter_name: match value.submitter {
                Some(s) => Some(s.name),
                None => None,
            },
            submitter_url: match value.submitter {
                Some(s) => Some(s.url),
                None => None,
            },
        }
    }
}

/// The character standing for the value `d` in base sixteen.
pub open spec fn spec_hex_digit(d: int) -> char {
    if d == 0 {
        '0'
    } else if d == 1 {
        '1'
    } else if d == 2 {
        '2'
    } else if d == 3 {
        '3'
    } else if d == 4 {
        '4'
    } else if d == 5 {
        '5'
    } else if d == 6 {
        '6'
    } else if d == 7 {
        '7'
    } else if d == 8 {
        '8'
    } else if d == 9 {
        '9'
    } else if d == 10 {
        'a'
    } else if d == 11 {
        'b'
    } else if d == 12 {
        'c'
    } else if d == 13 {
        'd'
    } else if d == 14 {
        'e'
    } else {
        'f'
    }
}

/// How one character is spelled inside a JSON string: quote and
/// backslash are escaped, the named control characters use their short
/// escapes, any other control character uses a `\u00..` escape, and
/// every other character stands for itself.
pub open spec fn spec_escape_char(c: char) -> Seq<char> {
    if c == '"' {
        seq!['\\', '"']
    } else if c == '\\' {
        seq!['\\', '\\']
    } else if c == '\u{08}' {
        seq!['\\', 'b']
    } else if c == '\u{09}' {
        seq!['\\', 't']
    } else if c == '\u{0a}' {
        seq!['\\', 'n']
    } else if c == '\u{0c}' {
        seq!['\\', 'f']
    } else if c == '\u{0d}' {
        seq!['\\', 'r']
    } else if (c as u32) < 32 {
        seq!['\\', 'u', '0', '0', spec_hex_digit(c as u32 as int / 16), spec_hex_digit(
            c as u32 as int % 16,
        )]
    } else {
        seq![c]
    }
}

/// A string's characters, each spelled for a JSON string.
pub open spec fn spec_escape(s: Seq<char>) -> Seq<char>
    decreases s.len(),
{
    if s.len() == 0 {
        Seq::empty()
    } else {
        spec_escape(s.drop_last()) + spec_escape_char(s.last())
    }
}

/// A JSON string: the escaped characters between two quotes.
pub open spec fn spec_json_string(s: Seq<char>) -> Seq<char> {
    seq!['"'] + spec_escape(s) + seq!['"']
}

/// The decimal spelling of an unsigned value.
pub open spec fn spec_dec_u64(v: nat) -> Seq<char>
    decreases v,
{
    if v < 10 {
        seq![spec_hex_digit(v as int)]
    } else {
        spec_dec_u64(v / 10).push(spec_hex_digit(v as int % 10))
    }
}

/// Relies on String::push: appends the given char to the end.
#[verifier::external_body]
fn push_char(s: &mut String, c: char)
    ensures
        final(s)@ == old(s)@.push(c),
{
    s.push(c);
}

fn hex_digit(d: u8) -> (c: char)
    requires
        d < 16,
    ensures
        c == spec_hex_digit(d as int),
{
    match d {
        0 => '0',
        1 => '1',
        2 => '2',
        3 => '3',
        4 => '4',
        5 => '5',
        6 => '6',
        7 => '7',
        8 => '8',
        9 => '9',
        10 => 'a',
        11 => 'b',
        12 => 'c',
        13 => 'd',
        14 => 'e',
        _ => 'f',
    }
}

fn escape_one(out: &mut String, c: char)
    ensures
        final(out)@ == old(out)@ + spec_escape_char(c),
{
    if c == '"' {
        push_char(out, '\\');
        push_char(out, '"');
    } else if c == '\\' {
        push_char(out, '\\');
        push_char(out, '\\');
    } else if c == '\u{08}' {
        push_char(out, '\\');
        push_char(out, 'b');
    } else if c == '\u{09}' {
        push_char(out, '\\');
        push_char(out, 't');
    } else if c == '\u{0a}' {
        push_char(out, '\\');
        push_char(out, 'n');
    } else if c == '\u{0c}' {
        push_char(out, '\\');
        push_char(out, 'f');
    } else if c == '\u{0d}' {
        push_char(out, '\\');
        push_char(out, 'r');
    } else if (c as u32) < 32 {
        let u = c as u32;
        push_char(out, '\\');
        push_char(out, 'u');
        push_char(out, '0');
        push_char(out, '0');
        push_char(out, hex_digit((u / 16) as u8));
        push_char(out, hex_digit((u % 16) as u8));
    } else {
        push_char(out, c);
    }
    proof {
        assert(final(out)@ =~= old(out)@ + spec_escape_char(c));
    }
}

fn append_json_escaped(out: &mut String, s: &str)
    ensures
        final(out)@ == old(out)@ + spec_escape(s@),
{
    let n = s.unicode_len();
    let mut i: usize = 0;
    proof {
        assert(s@.take(0) =~= Seq::<char>::empty());
        assert(old(out)@ + spec_escape(s@.take(0)) =~= old(out)@);
    }
    while i < n
        invariant
            i <= n,
            n == s@.len(),
            out@ == old(out)@ + spec_escape(s@.take(i as int)),
        decreases n - i,
    {
        let c = s.get_char(i);
        proof {
            assert(s@.take(i + 1).drop_last() =~= s@.take(i as int));
            assert(s@.take(i + 1).last() == s@[i as int]);
        }
        escape_one(out, c);
        proof {
            assert(out@ =~= old(out)@ + spec_escape(s@.take(i + 1)));
        }
        i += 1;
    }
    proof {
        assert(s@.take(n as int) =~= s@);
    }
}

fn append_json_string(out: &mut String, s: &str)
    ensures
        final(out)@ == old(out)@ + spec_json_string(s@),
{
    push_char(out, '"');
    append_json_escaped(out, s);
    push_char(out, '"');
    proof {
        assert(final(out)@ =~= old(out)@ + spec_json_string(s@));
    }
}

fn append_u64(out: &mut String, v: u64)
    ensures
        final(out)@ == old(out)@ + spec_dec_u64(v as nat),
    decreases v,
{
    if v < 10 {
        push_char(out, hex_digit(v as u8));
    } else {
        proof {
            assert(v / 10 < v) by (nonlinear_arith)
                requires
                    v >= 10,
            ;
        }
        append_u64(out, v / 10);
        push_char(out, hex_digit((v % 10) as u8));
        proof {
            assert(final(out)@ =~= old(out)@ + spec_dec_u64(v as nat));
        }
    }
}

/// The exact text the remote's write endpoint is sent for a flattened
/// insert request: one JSON object whose fields stand in declaration
/// order, with `null` for an absent submitter field.
pub open spec fn spec_encode_insert(m: SpecRemoteInsertCodeRequest) -> Seq<char> {
    "{\"code\":"@ + spec_json_string(m.code) + ",\"expires_at\":"@ + spec_dec_u64(
        m.expires_at as nat,
    ) + ",\"creator_name\":"@ + spec_json_string(m.creator_name) + ",\"creator_url\":"@
        + spec_json_string(m.creator_url) + ",\"submitter_name\":"@ + (match m.submitter_name {
        Some(s) => spec_json_string(s),
        None => "null"@,
    }) + ",\"submitter_url\":"@ + (match m.submitter_url {
        Some(s) => spec_json_string(s),
        None => "null"@,
    }) + "}"@
}

/// Serializes a flattened insert request as the remote's write
/// endpoint expects it.
pub fn encode_insert_request(req: &RemoteInsertCodeRequest) -> (r: String)
    ensures
        r@ == spec_encode_insert(req@),
{
    let mut out = String::new();
    out.append("{\"code\":");
    append_json_string(&mut out, req.code.as_str());
    out.append(",\"expires_at\":");
    append_u64(&mut out, req.expires_at);
    out.append(",\"creator_name\":");
    append_json_string(&mut out, req.creator_name.as_str());
    out.append(",\"creator_url\":");
    append_json_string(&mut out, req.creator_url.as_str());
    out.append(",\"submitter_name\":");
    match &req.submitter_name {
        Some(s) => append_json_string(&mut out, s.as_str()),
        None => out.append("null"),
    }
    out.append(",\"submitter_url\":");
    match &req.submitter_url {
        Some(s) => append_json_string(&mut out, s.as_str()),
        None => out.append("null"),
    }
    out.append("}");
    proof {
        assert(out@ =~= spec_encode_insert(req@));
    }
    out
}

/// The outcome of an insert once the write call has completed.  A
/// success body naming an integer id yields that id.  Any other
/// success body is still a success with the id unknown: the write
/// itself already succeeded per the HTTP status, perhaps against a
/// remote whose response shape has changed.  A failed call fails.
pub fn insert_outcome(put_result: Result<String, ClientError>) -> (r: Result<
    Option<i32>,
    ClientError,
>)
    ensures
        match put_result {
            Ok(body) => r matches Ok(id) && id == spec_parse_i32(body@),
            Err(e) => r matches Err(e2) && e2 == e,
        },
{
    match put_result {
        Ok(body) => Ok(parse_i32(body.as_str())),
        Err(e) => Err(e),
    }
}

} // verus!
