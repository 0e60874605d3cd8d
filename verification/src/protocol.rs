use crate::decimal::{decimal, parse_u64, parsed_u64, push_decimal};
use crate::text::{chars_of, contains, has_infix, opt_text, string_of};
use vstd::prelude::*;

verus! {

/// What a worker reads of the head of an HTTP response.
#[derive(Debug)]
pub struct ResponseHead {
    /// The status code.
    pub status: u16,
    /// The status as it is shown in messages, such as `404 Not Found`.
    pub status_text: String,
    /// The value of `Content-Length`, where the header is there and is readable text.
    pub content_length: Option<String>,
    /// The value of `Accept-Ranges`, where the header is there and is readable text.
    pub accept_ranges: Option<String>,
}

/// What a response means for the attempt that asked for it.
#[derive(Clone, Copy, Debug, PartialEq, Eq, Structural)]
pub enum ResponseVerdict {
    /// The body can be taken.
    Accepted,
    /// The server cannot serve the range asked for.
    RangeNotSatisfiable,
    /// A range was asked for and the server did not answer with partial content.
    ResumeRefused,
    /// Any other status outside 200 to 299.
    Rejected,
}

/// The verdict on a response with this status, `resuming` telling whether a range was
/// asked for.
pub open spec fn verdict_of(status: u16, resuming: bool) -> ResponseVerdict {
    if status == 416 {
        ResponseVerdict::RangeNotSatisfiable
    } else if resuming && status != 206 {
        ResponseVerdict::ResumeRefused
    } else if !(200 <= status < 300) {
        ResponseVerdict::Rejected
    } else {
        ResponseVerdict::Accepted
    }
}

/// The value of the `Range` header for a transfer that holds `offset` bytes already:
/// `bytes=<offset>-`, and no header where it holds none.
pub open spec fn range_value(offset: u64) -> Option<Seq<char>> {
    if offset > 0 {
        Some(seq!['b', 'y', 't', 'e', 's', '='] + decimal(offset as nat) + seq!['-'])
    } else {
        None
    }
}

/// The full size of a file of which `offset` bytes are there and the response
/// announces the rest in `Content-Length`; unknown where the header is missing, is no
/// number, or the sum is beyond `u64`.
pub open spec fn total_size(content_length: Option<Seq<char>>, offset: u64) -> Option<u64> {
    match content_length {
        Some(text) => match parsed_u64(text) {
            Some(n) => if n + offset <= u64::MAX {
                Some((n + offset) as u64)
            } else {
                None
            },
            None => None,
        },
        None => None,
    }
}

/// Whether the server resumes: `Accept-Ranges` names `bytes`; without the header, a
/// range that was served counts.
pub open spec fn resumable(accept_ranges: Option<Seq<char>>, resuming: bool) -> bool {
    match accept_ranges {
        Some(value) => contains(value, seq!['b', 'y', 't', 'e', 's']),
        None => resuming,
    }
}

/// Computes [`verdict_of`].
pub fn check_response(status: u16, resuming: bool) -> (r: ResponseVerdict)
    ensures
        r == verdict_of(status, resuming),
{
    if status == 416 {
        ResponseVerdict::RangeNotSatisfiable
    } else if resuming && status != 206 {
        ResponseVerdict::ResumeRefused
    } else if status < 200 || status >= 300 {
        ResponseVerdict::Rejected
    } else {
        ResponseVerdict::Accepted
    }
}

/// Computes [`range_value`].
pub fn range_header(offset: u64) -> (r: Option<String>)
    ensures
        opt_text(r) == range_value(offset),
{
    if offset > 0 {
        let mut v = chars_of("bytes=");
        proof {
            reveal_strlit("bytes=");
            assert(v@ =~= seq!['b', 'y', 't', 'e', 's', '=']);
        }
        push_decimal(&mut v, offset);
        v.push('-');
        Some(string_of(&v))
    } else {
        None
    }
}

/// Computes [`total_size`].
pub fn total_bytes_from(content_length: &Option<String>, offset: u64) -> (r: Option<u64>)
    ensures
        r == total_size(opt_text(*content_length), offset),
{
    match content_length {
        Some(text) => match parse_u64(&chars_of(text.as_str())) {
            Some(n) => n.checked_add(offset),
            None => None,
        },
        None => None,
    }
}

/// Computes [`resumable`].
pub fn accepts_ranges(accept_ranges: &Option<String>, resuming: bool) -> (r: bool)
    ensures
        r == resumable(opt_text(*accept_ranges), resuming),
{
    match accept_ranges {
        Some(value) => {
            let needle = chars_of("bytes");
            proof {
                reveal_strlit("bytes");
                assert(needle@ =~= seq!['b', 'y', 't', 'e', 's']);
            }
            has_infix(&chars_of(value.as_str()), &needle)
        },
        None => resuming,
    }
}

/// The user agent that requests carry.
pub fn user_agent() -> (r: String)
    ensures
        r@ == "FreeDownloadManager/1.0"@,
{
    "FreeDownloadManager/1.0".to_owned()
}

} // verus!
