//! Dictionary sources: their shared types, and what each source makes of
//! the data its service sent back.
use vstd::prelude::*;
use crate::cache::CacheKind;
use crate::text::{push_str, push_u64};

pub mod datamuse;
pub mod freedict;
pub mod mw;
pub mod urban;
pub mod wikipedia;
pub mod wiktionary;
pub mod wordnik;
pub mod youdao;
pub mod youdao_body;

verus! {

/// Separator placed between an Urban Dictionary definition and its
/// example; a character that never occurs in the service's text, so the
/// card can tell a real example apart from literal "e.g." in a definition.
pub const URBAN_EXAMPLE_SEP: &'static str = "\u{1e}";

/// The sources that yield rows of the inline list.
#[derive(Debug, Clone, Copy, PartialEq, Eq, Structural)]
pub enum SourceKind {
    Urban,
    Wordnik,
}

impl SourceKind {
    /// The cache table a source's results are kept in.
    pub fn cache_kind(self) -> (r: CacheKind)
        ensures
            self == SourceKind::Urban ==> r == CacheKind::Urban,
            self == SourceKind::Wordnik ==> r == CacheKind::Wordnik,
    {
        match self {
            SourceKind::Urban => CacheKind::Urban,
            SourceKind::Wordnik => CacheKind::Wordnik,
        }
    }

    /// Human-readable name.
    pub fn name(self) -> (r: &'static str)
        ensures
            self == SourceKind::Urban ==> r@ == "Urban"@,
            self == SourceKind::Wordnik ==> r@ == "Wordnik"@,
    {
        match self {
            SourceKind::Urban => "Urban",
            SourceKind::Wordnik => "Wordnik",
        }
    }
}

/// One definition row of an inline-list source.
#[derive(Debug, Clone)]
pub struct DictEntry {
    pub headword: String,
    pub definition: String,
    pub extra: Option<String>,
}

/// Mathematical form of a [`DictEntry`].
pub struct DictEntryView {
    pub headword: Seq<char>,
    pub definition: Seq<char>,
    pub extra: Option<Seq<char>>,
}

/// The view of an optional string.
pub open spec fn opt_view(o: Option<String>) -> Option<Seq<char>> {
    match o {
        Some(s) => Some(s@),
        None => None,
    }
}

impl View for DictEntry {
    type V = DictEntryView;

    open spec fn view(&self) -> DictEntryView {
        DictEntryView {
            headword: self.headword@,
            definition: self.definition@,
            extra: opt_view(self.extra),
        }
    }
}

impl DeepView for DictEntry {
    type V = DictEntryView;

    open spec fn deep_view(&self) -> DictEntryView {
        self@
    }
}

/// Why a source produced no rows.
#[derive(Debug)]
pub enum SourceError {
    Http(String),
    Timeout,
    BadResponse(String),
    RateLimited,
    NoApiKey,
}

/// The text a [`SourceError`] is shown as.
pub open spec fn source_error_text(e: SourceError) -> Seq<char> {
    match e {
        SourceError::Http(m) => "HTTP error: "@ + m@,
        SourceError::Timeout => "request timeout"@,
        SourceError::BadResponse(m) => "bad response: "@ + m@,
        SourceError::RateLimited => "rate limited"@,
        SourceError::NoApiKey => "no API key configured"@,
    }
}

impl SourceError {
    /// The message shown for this error.
    pub fn message(&self) -> (r: String)
        ensures
            r@ == source_error_text(*self),
    {
        let mut r = String::new();
        match self {
            SourceError::Http(m) => {
                push_str(&mut r, "HTTP error: ");
                push_str(&mut r, m.as_str());
            },
            SourceError::Timeout => push_str(&mut r, "request timeout"),
            SourceError::BadResponse(m) => {
                push_str(&mut r, "bad response: ");
                push_str(&mut r, m.as_str());
            },
            SourceError::RateLimited => push_str(&mut r, "rate limited"),
            SourceError::NoApiKey => push_str(&mut r, "no API key configured"),
        }
        r
    }

    /// The error for a failed request: a timeout, or any other transport
    /// failure with its message.
    pub fn from_transport(timed_out: bool, message: String) -> (r: SourceError)
        ensures
            timed_out ==> r is Timeout,
            !timed_out ==> r == SourceError::Http(message),
    {
        if timed_out {
            SourceError::Timeout
        } else {
            SourceError::Http(message)
        }
    }
}

/// `code` is a 2xx status.
pub open spec fn is_success_status(code: u16) -> bool {
    200 <= code <= 299
}

/// `"HTTP "` followed by the status line text (code and reason).
pub open spec fn http_status_text(status_text: Seq<char>) -> Seq<char> {
    "HTTP "@ + status_text
}

/// What a list source decides from the HTTP status alone: `None` to go on
/// and read the body, or the answer. Too-many-requests is rate limiting;
/// a not-found is an empty answer where `not_found_is_empty`; any other
/// non-2xx status is a bad response naming the status.
pub fn status_verdict(code: u16, status_text: &str, not_found_is_empty: bool) -> (r: Option<
    Result<Vec<DictEntry>, SourceError>,
>)
    ensures
        code == 429 ==> r == Some(Err::<Vec<DictEntry>, SourceError>(SourceError::RateLimited)),
        code != 429 && code == 404 && not_found_is_empty ==> (r matches Some(Ok(v)) && v@.len()
            == 0),
        code != 429 && !(code == 404 && not_found_is_empty) && !is_success_status(code) ==> (
        r matches Some(Err(SourceError::BadResponse(m))) && m@ == http_status_text(status_text@)),
        code != 429 && is_success_status(code) ==> r is None,
{
    if code == 429 {
        return Some(Err(SourceError::RateLimited));
    }
    if code == 404 && not_found_is_empty {
        return Some(Ok(Vec::new()));
    }
    if code < 200 || code > 299 {
        let mut m = String::new();
        push_str(&mut m, "HTTP ");
        push_str(&mut m, status_text);
        return Some(Err(SourceError::BadResponse(m)));
    }
    None
}

} // verus!
