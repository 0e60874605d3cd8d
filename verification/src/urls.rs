use crate::names::{default_name, sanitize_file_name, sanitized};
use crate::text::texts;
use url::Url;
use vstd::prelude::*;

verus! {

/// What this library reads of a parsed absolute URL.
#[derive(Debug)]
pub struct ParsedUrl {
    /// The scheme, without the `:` behind it.
    pub scheme: String,
    /// The segments of the path; `None` for a URL that cannot be a base.
    pub path_segments: Option<Vec<String>>,
}

/// Mathematical value of a [`ParsedUrl`].
pub ghost struct UrlParts {
    pub scheme: Seq<char>,
    pub path_segments: Option<Seq<Seq<char>>>,
}

/// The texts of an optional list of strings.
pub open spec fn opt_texts(o: Option<Vec<String>>) -> Option<Seq<Seq<char>>> {
    match o {
        Some(v) => Some(texts(v@)),
        None => None,
    }
}

impl View for ParsedUrl {
    type V = UrlParts;

    open spec fn view(&self) -> UrlParts {
        UrlParts { scheme: self.scheme@, path_segments: opt_texts(self.path_segments) }
    }
}

/// Whether `Url::parse` accepts `text` as an absolute URL.
pub uninterp spec fn url_is_absolute(text: Seq<char>) -> bool;

/// What `Url::scheme` returns for the URL parsed from `text`.
pub uninterp spec fn url_scheme(text: Seq<char>) -> Seq<char>;

/// What `Url::path_segments` yields for the URL parsed from `text`.
pub uninterp spec fn url_path_segments(text: Seq<char>) -> Option<Seq<Seq<char>>>;

/// The parts of the URL written in `text`, or `None` where it is no absolute URL.
pub open spec fn url_parts(text: Seq<char>) -> Option<UrlParts> {
    if url_is_absolute(text) {
        Some(UrlParts { scheme: url_scheme(text), path_segments: url_path_segments(text) })
    } else {
        None
    }
}

/// The view of an optional parsed URL.
pub open spec fn opt_parts(o: Option<ParsedUrl>) -> Option<UrlParts> {
    match o {
        Some(p) => Some(p@),
        None => None,
    }
}

/// `Url::parse`, with `Url::scheme` and `Url::path_segments` read off the result. The
/// three depend on the text alone; the contract names what they return and claims
/// nothing else of it.
#[verifier::external_body]
pub(crate) fn parse_url(text: &str) -> (r: Option<ParsedUrl>)
    ensures
        r is Some <==> url_is_absolute(text@),
        r is Some ==> r->Some_0.scheme@ == url_scheme(text@),
        r is Some ==> opt_texts(r->Some_0.path_segments) == url_path_segments(text@),
{
    match Url::parse(text) {
        Ok(url) => Some(
            ParsedUrl {
                scheme: url.scheme().to_string(),
                path_segments: url.path_segments().map(|s| s.map(|p| p.to_string()).collect()),
            },
        ),
        Err(_) => None,
    }
}

/// The last of the segments that is not empty, if there is one.
pub open spec fn last_filled(segments: Seq<Seq<char>>) -> Option<Seq<char>>
    decreases segments.len(),
{
    if segments.len() == 0 {
        None
    } else if segments.last().len() > 0 {
        Some(segments.last())
    } else {
        last_filled(segments.drop_last())
    }
}

/// The file name that a URL suggests: its last path segment that is not empty,
/// sanitized; the default name where the URL has no such segment.
pub open spec fn name_from_segments(segments: Option<Seq<Seq<char>>>) -> Seq<char> {
    match segments {
        Some(s) => match last_filled(s) {
            Some(segment) => sanitized(segment),
            None => default_name(),
        },
        None => default_name(),
    }
}

/// Derives a file name from the last path segment of a URL that is not empty.
pub fn file_name_from_url(url: &ParsedUrl) -> (r: String)
    ensures
        r@ == name_from_segments(url@.path_segments),
{
    match &url.path_segments {
        Some(segments) => {
            let mut n: usize = segments.len();
            assert(texts(segments@).take(n as int) =~= texts(segments@));
            while n > 0
                invariant
                    n <= segments.len(),
                    url@.path_segments == Some(texts(segments@)),
                    last_filled(texts(segments@)) == last_filled(texts(segments@).take(n as int)),
                decreases n,
            {
                assert(texts(segments@).take(n as int).last() == segments@[n - 1]@);
                if segments[n - 1].as_str().unicode_len() > 0 {
                    return sanitize_file_name(segments[n - 1].as_str());
                }
                assert(texts(segments@).take(n as int).drop_last() =~= texts(segments@).take(
                    n - 1,
                ));
                n -= 1;
            }
            "download".to_owned()
        },
        None => "download".to_owned(),
    }
}

} // verus!
