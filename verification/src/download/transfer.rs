//! Decisions inside one transfer: safe resume, the response headers it reads,
//! and the byte accounting of progress.

use vstd::prelude::*;

use super::DownloadError;
use crate::net::{allowed_url, url_allowed};
use crate::text::{
    chars_of, decimal_string, decimal_text, parse_u64, parse_u64_chars, parse_u64_spec, split_chars, split_on,
    str_equal,
};

verus! {

/// Suffix of the partial file kept next to the destination.
pub const PART_SUFFIX: &'static str = "andromeda.part";

/// Suffix of the resume-validator record kept next to the destination.
pub const RESUME_SUFFIX: &'static str = "andromeda.resume.json";

/// The validator saved for a partial download.
#[derive(Debug, Clone)]
pub struct ResumeRecord {
    pub url: String,
    pub validator: String,
}

/// The hidden side file name `.{name}.{suffix}` that sits next to `name`.
pub fn side_file_name(name: &str, suffix: &str) -> (r: String)
    ensures
        r@ == "."@ + name@ + "."@ + suffix@,
{
    let mut r = String::from_str(".");
    r.append(name);
    r.append(".");
    r.append(suffix);
    r
}

/// The byte offset a transfer resumes from: the partial file's length when it
/// is non-empty and its record names the same URL with a non-empty validator;
/// otherwise zero, and the partial file is truncated.
pub open spec fn resume_offset_spec(existing: u64, record: Option<ResumeRecord>, url: Seq<char>) -> u64 {
    match record {
        Some(rec) => if existing > 0 && rec.url@ == url && rec.validator@.len() > 0 {
            existing
        } else {
            0
        },
        None => 0,
    }
}

/// The offset at which to request the rest of the artifact.
pub fn resume_offset(existing: u64, record: &Option<ResumeRecord>, url: &str) -> (r: u64)
    ensures
        r == resume_offset_spec(existing, *record, url@),
{
    match record {
        Some(rec) => {
            if existing > 0 && str_equal(rec.url.as_str(), url) && !rec.validator.as_str().is_empty() {
                existing
            } else {
                0
            }
        },
        None => 0,
    }
}

pub open spec fn bytes_prefix() -> Seq<char> {
    seq!['b', 'y', 't', 'e', 's', ' ']
}

/// The start of a `Content-Range` value `bytes START-END/TOTAL`: the decimal
/// before the first `-` after the `bytes ` prefix.
pub open spec fn content_range_start(value: Seq<char>) -> Option<u64> {
    if value.len() >= 6 && value.take(6) == bytes_prefix() {
        parse_u64_spec(split_on(value.skip(6), '-')[0])
    } else {
        None
    }
}

/// Whether a `Content-Range` header starts at `offset`.
pub open spec fn range_starts_at(header: Option<Seq<char>>, offset: u64) -> bool {
    match header {
        Some(v) => content_range_start(v) == Some(offset),
        None => false,
    }
}

pub open spec fn str_view(o: Option<&str>) -> Option<Seq<char>> {
    match o {
        Some(s) => Some(s@),
        None => None,
    }
}

/// Whether the `Content-Range` header text (when present and readable) says the
/// body starts at `offset`.
pub fn content_range_starts_at(header: Option<&str>, offset: u64) -> (r: bool)
    ensures
        r == range_starts_at(str_view(header), offset),
{
    match header {
        None => false,
        Some(text) => {
            let v = chars_of(text);
            if v.len() < 6 || !(v[0] == 'b' && v[1] == 'y' && v[2] == 't' && v[3] == 'e' && v[4]
                == 's' && v[5] == ' ') {
                proof {
                    if v@.len() >= 6 && v@.take(6) == bytes_prefix() {
                        assert(v@.take(6)[0] == v@[0] && v@.take(6)[1] == v@[1] && v@.take(6)[2]
                            == v@[2]);
                        assert(v@.take(6)[3] == v@[3] && v@.take(6)[4] == v@[4] && v@.take(6)[5]
                            == v@[5]);
                    }
                }
                return false;
            }
            assert(v@.take(6) =~= bytes_prefix());
            let mut rest: Vec<char> = Vec::new();
            let mut i: usize = 6;
            while i < v.len()
                invariant
                    6 <= i <= v.len(),
                    rest@ == v@.subrange(6, i as int),
                decreases v.len() - i,
            {
                rest.push(v[i]);
                i += 1;
                assert(rest@ =~= v@.subrange(6, i as int));
            }
            assert(rest@ =~= v@.skip(6));
            let pieces = split_chars(&rest, '-');
            proof {
                crate::text::lemma_split_on_nonempty(rest@, '-');
            }
            assert(pieces@[0]@ == split_on(rest@, '-')[0]);
            match parse_u64_chars(&pieces[0]) {
                Some(start) => start == offset,
                None => false,
            }
        },
    }
}

/// Whether a response continues the partial file: a resume was asked for, the
/// server answered 206, and its `Content-Range` starts exactly at the offset.
pub open spec fn confirmed_resume(offset: u64, status: u16, content_range: Option<Seq<char>>) -> bool {
    offset > 0 && status == 206 && range_starts_at(content_range, offset)
}

/// Whether a response continues the partial file (see [`confirmed_resume`]).
/// Otherwise the body restarts the file from byte zero.
pub fn resume_confirmed(offset: u64, status: u16, content_range: Option<&str>) -> (r: bool)
    ensures
        r == confirmed_resume(offset, status, str_view(content_range)),
{
    offset > 0 && status == 206 && content_range_starts_at(content_range, offset)
}

/// The server's `Retry-After`, in seconds, when the header is readable and a
/// decimal number.
pub fn retry_after_secs(header: Option<&str>) -> (r: Option<u64>)
    ensures
        r == match str_view(header) {
            Some(v) => parse_u64_spec(v),
            None => None,
        },
{
    match header {
        Some(text) => parse_u64(text),
        None => None,
    }
}

/// Whether an HTTP status is a success (2xx).
pub fn status_is_success(status: u16) -> (r: bool)
    ensures
        r == (200 <= status <= 299),
{
    200 <= status && status <= 299
}

/// A response header as the transfer sees it: absent, present but not
/// readable as text, or its text.
pub open spec fn header_text(h: Option<Option<String>>) -> Option<Option<Seq<char>>> {
    match h {
        Some(Some(s)) => Some(Some(s@)),
        Some(None) => Some(None),
        None => None,
    }
}

/// The validator saved for resuming: the `ETag` when the header is present,
/// else `Last-Modified`; a present but unreadable header gives none.
pub open spec fn validator_of(etag: Option<Option<Seq<char>>>, last_modified: Option<Option<Seq<char>>>) -> Option<Seq<char>> {
    match etag {
        Some(v) => v,
        None => match last_modified {
            Some(v) => v,
            None => None,
        },
    }
}

/// Chooses the resume validator of a response.
pub fn response_validator(etag: Option<Option<String>>, last_modified: Option<Option<String>>) -> (r: Option<String>)
    ensures
        (match r {
            Some(s) => Some(s@),
            None => None,
        }) == validator_of(header_text(etag), header_text(last_modified)),
{
    match etag {
        Some(v) => v,
        None => match last_modified {
            Some(v) => v,
            None => None,
        },
    }
}

/// The range headers of a resumed request.
#[derive(Debug, Clone)]
pub struct RangeRequest {
    /// The `Range` value, `bytes=OFFSET-`.
    pub range: String,
    /// The `If-Range` value: the saved validator, empty when there is none.
    pub if_range: String,
}

/// The validator text of a record, empty without one.
pub open spec fn record_validator(record: Option<ResumeRecord>) -> Seq<char> {
    match record {
        Some(rec) => rec.validator@,
        None => Seq::empty(),
    }
}

/// The range headers an attempt sends: none from byte zero; from a non-zero
/// offset, `Range: bytes=OFFSET-` and `If-Range` with the saved validator.
pub fn range_request(offset: u64, record: &Option<ResumeRecord>) -> (r: Option<RangeRequest>)
    ensures
        offset == 0 ==> r is None,
        offset > 0 ==> (r matches Some(q) && q.range@ == "bytes="@ + decimal_text(offset as nat) + "-"@
            && q.if_range@ == record_validator(*record)),
{
    if offset == 0 {
        return None;
    }
    let mut range = String::from_str("bytes=");
    let digits = decimal_string(offset);
    range.append(digits.as_str());
    range.append("-");
    let if_range = match record {
        Some(rec) => rec.validator.clone(),
        None => String::new(),
    };
    Some(RangeRequest { range, if_range })
}

/// How an accepted response is written: appended to the partial file from
/// `write_offset`, or written from byte zero, and the validator to save.
#[derive(Debug, Clone)]
pub struct WritePlan {
    pub append: bool,
    pub write_offset: u64,
    pub validator: Option<String>,
}

pub open spec fn text_option(o: Option<String>) -> Option<Seq<char>> {
    match o {
        Some(s) => Some(s@),
        None => None,
    }
}

/// What an attempt makes of the response to a request from `offset`: a
/// response that ended at a URL outside the download policy is refused; a
/// non-success status is an HTTP error carrying `Retry-After`; otherwise the
/// body continues the partial file exactly when the resume is confirmed, and
/// starts it afresh from byte zero when it is not.
pub fn accept_response(
    offset: u64,
    final_url: &str,
    status: u16,
    retry_after: Option<&str>,
    content_range: Option<&str>,
    etag: Option<Option<String>>,
    last_modified: Option<Option<String>>,
) -> (r: Result<WritePlan, DownloadError>)
    ensures
        !url_allowed(final_url@) ==> (r matches Err(DownloadError::InvalidPlan(m)) && m@
            == "redirected to a disallowed URL: "@ + final_url@),
        url_allowed(final_url@) && !(200 <= status <= 299) ==> (r matches Err(
            DownloadError::Http { status: s, retry_after: a },
        ) && s == status && a == match str_view(retry_after) {
            Some(v) => parse_u64_spec(v),
            None => None,
        }),
        url_allowed(final_url@) && 200 <= status <= 299 ==> (r matches Ok(p) && p.append
            == confirmed_resume(offset, status, str_view(content_range)) && p.write_offset
            == (if p.append {
            offset
        } else {
            0
        }) && text_option(p.validator) == validator_of(header_text(etag), header_text(last_modified))),
{
    if !allowed_url(final_url) {
        let mut message = String::from_str("redirected to a disallowed URL: ");
        message.append(final_url);
        return Err(DownloadError::InvalidPlan(message));
    }
    if !status_is_success(status) {
        return Err(DownloadError::Http { status, retry_after: retry_after_secs(retry_after) });
    }
    let append = resume_confirmed(offset, status, content_range);
    let write_offset = if append {
        offset
    } else {
        0
    };
    let validator = response_validator(etag, last_modified);
    proof {
        assert(text_option(validator) == validator_of(header_text(etag), header_text(last_modified)));
    }
    Ok(WritePlan { append, write_offset, validator })
}

/// The change to the shared logical byte counter when a job's accounted
/// bytes move from `accounted` to `write_offset`.
#[derive(Debug, Clone, Copy, PartialEq, Eq, Structural)]
pub enum LogicalAdjustment {
    Add(u64),
    Subtract(u64),
    Keep,
}

/// The adjustment that moves a job's accounted bytes from `accounted` to `write_offset`.
pub open spec fn rebase_spec(write_offset: u64, accounted: u64) -> LogicalAdjustment {
    if write_offset > accounted {
        LogicalAdjustment::Add((write_offset - accounted) as u64)
    } else if write_offset < accounted {
        LogicalAdjustment::Subtract((accounted - write_offset) as u64)
    } else {
        LogicalAdjustment::Keep
    }
}

/// A counter after an adjustment.
pub open spec fn adjusted(counter: int, adjustment: LogicalAdjustment) -> int {
    match adjustment {
        LogicalAdjustment::Add(n) => counter + n,
        LogicalAdjustment::Subtract(n) => counter - n,
        LogicalAdjustment::Keep => counter,
    }
}

/// Re-bases a job's logical byte count at the start of an attempt, so the
/// shared counter holds each job's bytes once even when an attempt restarts.
pub fn rebase_logical(write_offset: u64, accounted: u64) -> (r: LogicalAdjustment)
    ensures
        r == rebase_spec(write_offset, accounted),
{
    if write_offset > accounted {
        LogicalAdjustment::Add(write_offset - accounted)
    } else if write_offset < accounted {
        LogicalAdjustment::Subtract(accounted - write_offset)
    } else {
        LogicalAdjustment::Keep
    }
}

/// Data is appended to a partial file only on a confirmed resume: the
/// request was sent from the partial file's length because its record names
/// the same URL with a validator, the server answered 206, and its
/// `Content-Range` starts at that length.
pub proof fn law_append_only_on_confirmed_resume(
    existing: u64,
    record: Option<ResumeRecord>,
    url: Seq<char>,
    status: u16,
    content_range: Option<Seq<char>>,
)
    ensures
        confirmed_resume(resume_offset_spec(existing, record, url), status, content_range) ==> (
        record matches Some(rec) && rec.url@ == url && rec.validator@.len() > 0 && existing > 0
            && resume_offset_spec(existing, record, url) == existing && status == 206
            && range_starts_at(content_range, existing)),
{
}

/// Re-basing swaps the job's old share of the shared counter for its new one:
/// the counter then counts the job's bytes from the write offset, once.
pub proof fn law_rebase_counts_job_once(counter: int, accounted: u64, write_offset: u64)
    ensures
        adjusted(counter, rebase_spec(write_offset, accounted)) == counter - accounted + write_offset,
{
}

} // verus!
