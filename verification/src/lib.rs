use vstd::prelude::*;

pub mod api_key;
pub mod client;
pub mod codec;
pub mod error;
pub mod json;
pub mod numbers;
pub mod wire;
pub mod write;

pub use api_key::ApiKey;

verus! {

/// Mathematical model of a `Source`.
pub struct SpecSource {
    pub id: int,
    pub name: Seq<char>,
    pub url: Seq<char>,
}

/// Mathematical model of a `Code`.
pub struct SpecCode {
    pub code: Seq<char>,
    pub expired: bool,
    pub expires_at: Option<Seq<char>>,
    pub creator: Option<SpecSource>,
    pub submitter: Option<SpecSource>,
    pub lister: Option<SpecSource>,
}

/// Source represents a source of a code, such as a streamer or developer.
/// A list of names (always available) and URLs (best guess of where the
/// source came from) is maintained remotely, with no guarantee of accuracy.
///
/// Sources in the remote service are stored as unique (name, url) pairs.
#[derive(Debug, Clone)]
pub struct Source {
    pub id: i32,
    pub name: String,
    pub url: String,
}

impl View for Source {
    type V = SpecSource;

    open spec fn view(&self) -> SpecSource {
        SpecSource { id: self.id as int, name: self.name@, url: self.url@ }
    }
}

impl Source {
    /// A fresh copy of this source; sources are shared into each code
    /// that references them by value-copy, never by reference.
    pub fn duplicate(&self) -> (r: Source)
        ensures
            r@ == self@,
    {
        Source { id: self.id, name: self.name.clone(), url: self.url.clone() }
    }
}

/// Code represents a redeemable code offered by the remote catalog.
#[derive(Debug, Clone)]
pub struct Code {
    /// The code itself that can be redeemed.
    pub code: String,
    /// Whether the code has likely expired, based on the expires_at timestamp.
    /// This information is a best-effort heuristic and the code may still work.
    pub expired: bool,
    /// A string timestamp of when the code expires.
    /// This information is a best-effort heuristic and the code may still work.
    pub expires_at: Option<String>,
    /// The creator is the person who created the code, usually a streamer or developer.
    pub creator: Option<Source>,
    /// The submitter is the person who submitted the code to some kind of list or channel.
    pub submitter: Option<Source>,
    /// The lister is the person who added the code to the remote service.
    pub lister: Option<Source>,
}

pub open spec fn view_opt_source(s: Option<Source>) -> Option<SpecSource> {
    match s {
        Some(src) => Some(src@),
        None => None,
    }
}

impl View for Code {
    type V = SpecCode;

    open spec fn view(&self) -> SpecCode {
        SpecCode {
            code: self.code@,
            expired: self.expired,
            expires_at: match self.expires_at {
                Some(s) => Some(s@),
                None => None,
            },
            creator: view_opt_source(self.creator),
            submitter: view_opt_source(self.submitter),
            lister: view_opt_source(self.lister),
        }
    }
}

/// Mathematical model of a `SourceLookup`.
pub struct SpecSourceLookup {
    pub name: Seq<char>,
    pub url: Seq<char>,
}

/// SourceLookup represents a source of a code, such as a streamer or developer.
/// This object is used for write requests and does not require an id.
///
/// Sources in the remote service are stored as unique (name, url) pairs.
#[derive(Debug, Clone)]
pub struct SourceLookup {
    pub name: String,
    pub url: String,
}

impl View for SourceLookup {
    type V = SpecSourceLookup;

    open spec fn view(&self) -> SpecSourceLookup {
        SpecSourceLookup { name: self.name@, url: self.url@ }
    }
}

} // verus!
