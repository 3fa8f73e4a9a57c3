//! The resumable chunked upload of one file: its checkpoint, its back-off
//! schedules, the plan of its chunks and the reading of the endpoint's
//! answers.

use vstd::prelude::*;
use crate::records::{opt_chars, MergedVideoRecord, TaskOutputSegmentRecord, UploadStatus};
use crate::text::{
    blank, chars_of, contains, is_blank, parse_unsigned, parsed_unsigned, push_signed_decimal,
    signed_decimal, str_contains, trim, trimmed,
};

verus! {

/// Seconds of the first wait after the endpoint asked to slow down.
pub const RATE_LIMIT_BASE_WAIT_SECS: u64 = 60;

/// Longest wait after the endpoint asked to slow down.
pub const RATE_LIMIT_MAX_WAIT_SECS: u64 = 1800;

/// How often the upload of one file is attempted.
pub const UPLOAD_SEGMENT_RETRY_LIMIT: u32 = 3;

/// Seconds of the first wait between two attempts.
pub const UPLOAD_RETRY_BASE_DELAY_SECS: u64 = 2;

/// Longest wait between two attempts.
pub const UPLOAD_RETRY_MAX_DELAY_SECS: u64 = 30;

/// Seconds of the first wait after the pre-upload answer did not parse.
pub const PREUPLOAD_PARSE_RETRY_BASE_SECS: u64 = 60;

/// Longest wait after the pre-upload answer did not parse.
pub const PREUPLOAD_PARSE_RETRY_MAX_SECS: u64 = 1800;

/// How many rounds in a row may fail on a pre-upload answer that did not
/// parse.
pub const PREUPLOAD_PARSE_RETRY_LIMIT: u32 = 6;

/// Milliseconds after which progress is stored again.
pub const PROGRESS_SAVE_INTERVAL_MS: u64 = 2000;

/// Bytes after which progress is stored again.
pub const PROGRESS_SAVE_BYTES: u64 = 2 * 1024 * 1024;

/// The text that the endpoint answers to a chunk that it took.
pub const CHUNK_SUCCESS_MARK: &'static str = "MULTIPART_PUT_SUCCESS";

/// Two to the power of `n`.
pub open spec fn pow2(n: nat) -> nat
    decreases n,
{
    if n == 0 {
        1
    } else {
        2 * pow2((n - 1) as nat)
    }
}

/// The wait of an exponential schedule before attempt `attempt + 1`:
/// `base * 2^(attempt - 1)`, where the exponent stops at `max_exponent`, and
/// at most `cap`.
pub open spec fn backoff(base: nat, attempt: nat, max_exponent: nat, cap: nat) -> nat {
    let exponent = if attempt == 0 {
        0
    } else if attempt - 1 > max_exponent {
        max_exponent
    } else {
        (attempt - 1) as nat
    };
    let wait = base * pow2(exponent);
    if wait > cap {
        cap
    } else {
        wait
    }
}

/// The powers of two grow.
pub proof fn lemma_pow2_grows(a: nat, b: nat)
    requires
        a <= b,
    ensures
        1 <= pow2(a) <= pow2(b),
    decreases b,
{
    if b > 0 {
        if a < b {
            lemma_pow2_grows(a, (b - 1) as nat);
        } else {
            lemma_pow2_grows((a - 1) as nat, (b - 1) as nat);
        }
    }
}

/// A schedule never waits longer than its cap, and never shorter after more
/// attempts.
pub proof fn lemma_backoff_bounds(base: nat, attempt: nat, later: nat, max_exponent: nat, cap: nat)
    requires
        attempt <= later,
    ensures
        backoff(base, attempt, max_exponent, cap) <= cap,
        backoff(base, attempt, max_exponent, cap) <= backoff(base, later, max_exponent, cap),
{
    let e1: nat = if attempt == 0 {
        0
    } else if attempt - 1 > max_exponent {
        max_exponent
    } else {
        (attempt - 1) as nat
    };
    let e2: nat = if later == 0 {
        0
    } else if later - 1 > max_exponent {
        max_exponent
    } else {
        (later - 1) as nat
    };
    lemma_pow2_grows(e1, e2);
    assert(base * pow2(e1) <= base * pow2(e2)) by (nonlinear_arith)
        requires
            pow2(e1) <= pow2(e2),
    ;
}

/// Computes a wait of an exponential schedule.
pub fn backoff_secs(base: u64, attempt: u32, max_exponent: u32, cap: u64) -> (r: u64)
    ensures
        r == backoff(base as nat, attempt as nat, max_exponent as nat, cap as nat),
{
    let exponent = if attempt == 0 {
        0
    } else if attempt - 1 > max_exponent {
        max_exponent
    } else {
        attempt - 1
    };
    proof {
        lemma_pow2_grows(0, exponent as nat);
        assert(base * pow2(exponent as nat) >= base) by (nonlinear_arith)
            requires
                pow2(exponent as nat) >= 1,
        ;
    }
    if base > cap {
        return cap;
    }
    if base == 0 {
        assert(0 * pow2(exponent as nat) == 0) by (nonlinear_arith);
        return 0;
    }
    let mut wait: u64 = base;
    let mut i: u32 = 0;
    assert(base * pow2(0) == base) by {
        reveal_with_fuel(pow2, 1);
    }
    while i < exponent
        invariant
            i <= exponent,
            wait == base * pow2(i as nat),
            wait <= cap,
            backoff(base as nat, attempt as nat, max_exponent as nat, cap as nat) == if base
                * pow2(exponent as nat) > cap {
                cap as nat
            } else {
                (base * pow2(exponent as nat)) as nat
            },
        decreases exponent - i,
    {
        let next: u128 = (wait as u128) * 2;
        proof {
            assert(pow2((i + 1) as nat) == 2 * pow2(i as nat)) by {
                reveal_with_fuel(pow2, 2);
            }
            assert(base * pow2((i + 1) as nat) == (base * pow2(i as nat)) * 2) by (nonlinear_arith)
                requires
                    pow2((i + 1) as nat) == 2 * pow2(i as nat),
            ;
            assert(next == base * pow2((i + 1) as nat));
        }
        if next > cap as u128 {
            proof {
                lemma_pow2_grows((i + 1) as nat, exponent as nat);
                assert(base * pow2(exponent as nat) >= base * pow2((i + 1) as nat))
                    by (nonlinear_arith)
                    requires
                        pow2(exponent as nat) >= pow2((i + 1) as nat),
                ;
                assert(base * pow2(exponent as nat) > cap);
            }
            return cap;
        }
        wait = next as u64;
        i += 1;
    }
    wait
}

/// Counts the answers in a row by which the endpoint asked to slow down.
#[derive(Debug)]
pub struct UploadRateLimiter {
    pub consecutive_406: u32,
}

/// The wait after the `count`-th answer in a row that asked to slow down:
/// what the answer names, if it names a wait, else `60 * 2^(count - 1)`
/// seconds; in either case at most 1800 seconds.
pub open spec fn rate_limit_wait(count: nat, retry_after: Option<u64>) -> nat {
    match retry_after {
        Some(wait) if wait > 0 => if wait > RATE_LIMIT_MAX_WAIT_SECS {
            RATE_LIMIT_MAX_WAIT_SECS as nat
        } else {
            wait as nat
        },
        _ => backoff(RATE_LIMIT_BASE_WAIT_SECS as nat, count, 10, RATE_LIMIT_MAX_WAIT_SECS as nat),
    }
}

impl UploadRateLimiter {
    /// A limiter that has seen no such answer.
    pub fn new() -> (r: UploadRateLimiter)
        ensures
            r.consecutive_406 == 0,
    {
        UploadRateLimiter { consecutive_406: 0 }
    }

    /// Forgets the answers seen: a request went through.
    pub fn reset(&mut self)
        ensures
            final(self).consecutive_406 == 0,
    {
        self.consecutive_406 = 0;
    }

    /// Counts one more answer that asked to slow down and tells how many
    /// seconds to wait.
    pub fn next_wait_seconds(&mut self, retry_after: Option<u64>) -> (r: u64)
        ensures
            final(self).consecutive_406 == if old(self).consecutive_406 < u32::MAX {
                (old(self).consecutive_406 + 1) as u32
            } else {
                u32::MAX
            },
            r == rate_limit_wait(final(self).consecutive_406 as nat, retry_after),
            r <= RATE_LIMIT_MAX_WAIT_SECS,
    {
        if self.consecutive_406 < u32::MAX {
            self.consecutive_406 = self.consecutive_406 + 1;
        }
        if let Some(wait) = retry_after {
            if wait > 0 {
                return if wait > RATE_LIMIT_MAX_WAIT_SECS {
                    RATE_LIMIT_MAX_WAIT_SECS
                } else {
                    wait
                };
            }
        }
        backoff_secs(RATE_LIMIT_BASE_WAIT_SECS, self.consecutive_406, 10, RATE_LIMIT_MAX_WAIT_SECS)
    }
}

/// The wait after attempt `attempt` of an upload failed:
/// `min(2 * 2^(attempt - 1), 30)` seconds.
pub fn upload_retry_delay_secs(attempt: u32) -> (r: u64)
    ensures
        r == backoff(
            UPLOAD_RETRY_BASE_DELAY_SECS as nat,
            attempt as nat,
            5,
            UPLOAD_RETRY_MAX_DELAY_SECS as nat,
        ),
        r <= UPLOAD_RETRY_MAX_DELAY_SECS,
{
    backoff_secs(UPLOAD_RETRY_BASE_DELAY_SECS, attempt, 5, UPLOAD_RETRY_MAX_DELAY_SECS)
}

/// The wait after round `attempt` failed on a pre-upload answer that did not
/// parse: `min(60 * 2^(attempt - 1), 1800)` seconds.
pub fn preupload_parse_retry_delay_secs(attempt: u32) -> (r: u64)
    ensures
        r == backoff(
            PREUPLOAD_PARSE_RETRY_BASE_SECS as nat,
            attempt as nat,
            10,
            PREUPLOAD_PARSE_RETRY_MAX_SECS as nat,
        ),
        r <= PREUPLOAD_PARSE_RETRY_MAX_SECS,
{
    backoff_secs(PREUPLOAD_PARSE_RETRY_BASE_SECS, attempt, 10, PREUPLOAD_PARSE_RETRY_MAX_SECS)
}

/// Whether an error message tells of a pre-upload answer that did not parse.
pub open spec fn preupload_parse_error(err: Seq<char>) -> bool {
    contains(err, "预上传解析失败"@) || contains(err, "error decoding response body"@)
}

/// Whether an error message tells of missing or expired credentials: one of
/// the codes -101, -111 and 86095, or one of the two phrases for "not logged
/// in".
pub open spec fn auth_error(err: Seq<char>) -> bool {
    contains(err, "code: -101"@) || contains(err, "code: -111"@) || contains(err, "code: 86095"@)
        || contains(err, "账号未登录"@) || contains(err, "请先登录"@)
}

/// Tells whether `err` is the message of a pre-upload answer that did not
/// parse.
pub fn is_preupload_parse_error(err: &str) -> (r: bool)
    ensures
        r == preupload_parse_error(err@),
{
    str_contains(err, "预上传解析失败") || str_contains(err, "error decoding response body")
}

/// Tells whether `err` is the message of an authentication error.
pub fn is_auth_error(err: &str) -> (r: bool)
    ensures
        r == auth_error(err@),
{
    str_contains(err, "code: -101") || str_contains(err, "code: -111") || str_contains(
        err,
        "code: 86095",
    ) || str_contains(err, "账号未登录") || str_contains(err, "请先登录")
}

/// The kinds of failure that the upload tells apart.
#[derive(Clone, Copy, Debug, PartialEq, Eq, Structural)]
pub enum FailureKind {
    /// The credentials are to be refreshed.
    AuthRequired,
    /// The pre-upload answer did not parse.
    PreUploadParse,
    /// Anything else.
    Other,
}

/// The kind of the failure that `err` tells of. An authentication error is
/// looked for first.
pub fn failure_kind(err: &str) -> (r: FailureKind)
    ensures
        r == if auth_error(err@) {
            FailureKind::AuthRequired
        } else if preupload_parse_error(err@) {
            FailureKind::PreUploadParse
        } else {
            FailureKind::Other
        },
{
    if is_auth_error(err) {
        FailureKind::AuthRequired
    } else if is_preupload_parse_error(err) {
        FailureKind::PreUploadParse
    } else {
        FailureKind::Other
    }
}

/// The message of an answer whose code is not zero: the answer's message,
/// then the code in brackets.
pub open spec fn api_error_text(message: Seq<char>, code: int) -> Seq<char> {
    message + " (code: "@ + signed_decimal(code) + ")"@
}

/// Builds the message of an answer whose code is not zero.
pub fn api_error_message(message: &str, code: i64) -> (r: String)
    ensures
        r@ == api_error_text(message@, code as int),
{
    let mut out = String::from_str(message);
    out.append(" (code: ");
    push_signed_decimal(&mut out, code);
    out.append(")");
    out
}

/// What the pre-upload negotiation yields.
#[derive(Clone, Debug)]
pub struct PreuploadInfo {
    pub auth: String,
    pub biz_id: i64,
    pub chunk_size: u64,
    pub endpoint: String,
    pub upos_uri: String,
}

/// The checkpoint of an upload: all that is needed to go on with it.
#[derive(Clone, Debug)]
pub struct UploadSessionInfo {
    pub upload_id: String,
    pub biz_id: i64,
    pub chunk_size: u64,
    pub endpoint: String,
    pub auth: String,
    pub upos_uri: String,
    pub uploaded_bytes: u64,
    pub total_bytes: u64,
    pub last_part_index: u64,
}

/// A checkpoint as plain values.
pub struct SessionSpec {
    pub upload_id: Seq<char>,
    pub biz_id: i64,
    pub chunk_size: u64,
    pub endpoint: Seq<char>,
    pub auth: Seq<char>,
    pub upos_uri: Seq<char>,
    pub uploaded_bytes: u64,
    pub total_bytes: u64,
    pub last_part_index: u64,
}

impl View for UploadSessionInfo {
    type V = SessionSpec;

    open spec fn view(&self) -> SessionSpec {
        SessionSpec {
            upload_id: self.upload_id@,
            biz_id: self.biz_id,
            chunk_size: self.chunk_size,
            endpoint: self.endpoint@,
            auth: self.auth@,
            upos_uri: self.upos_uri@,
            uploaded_bytes: self.uploaded_bytes,
            total_bytes: self.total_bytes,
            last_part_index: self.last_part_index,
        }
    }
}

impl SessionSpec {
    /// Whether the checkpoint can be gone on with for a file of `file_size`
    /// bytes: the session id, the endpoint, the session's authorisation and
    /// the address are there, the chunk size and the business id are
    /// positive, and the total is the file's size.
    pub open spec fn resumable(self, file_size: u64) -> bool {
        &&& self.total_bytes == file_size
        &&& !is_blank(self.upload_id)
        &&& !is_blank(self.endpoint)
        &&& !is_blank(self.auth)
        &&& !is_blank(self.upos_uri)
        &&& self.chunk_size > 0
        &&& self.biz_id > 0
    }

}

/// The view of an optional checkpoint.
pub open spec fn opt_session(s: Option<UploadSessionInfo>) -> Option<SessionSpec> {
    match s {
        Some(session) => Some(session@),
        None => None,
    }
}

/// The checkpoint that is gone on with for a file of `file_size` bytes:
/// `resume_session` as it is stored, if it can be resumed; else none, and
/// the stored checkpoint is to be cleared.
pub fn sanitize_upload_session(resume_session: Option<UploadSessionInfo>, file_size: u64) -> (r:
    Option<UploadSessionInfo>)
    ensures
        r == match resume_session {
            Some(s) => if s@.resumable(file_size) {
                Some(s)
            } else {
                None
            },
            None => None,
        },
{
    let session = match resume_session {
        Some(session) => session,
        None => {
            return None;
        },
    };
    if session.total_bytes != file_size {
        return None;
    }
    if blank(session.upload_id.as_str()) || blank(session.endpoint.as_str()) || blank(
        session.auth.as_str(),
    ) || blank(session.upos_uri.as_str()) || session.chunk_size == 0 || session.biz_id <= 0 {
        return None;
    }
    Some(session)
}

/// Every checkpoint that is gone on with is resumable: its total is the
/// file's size, its four texts are there, and its chunk size and business id
/// are positive.
pub proof fn lemma_sanitized_is_resumable(resume: SessionSpec, file_size: u64)
    requires
        resume.resumable(file_size),
    ensures
        resume.total_bytes == file_size,
        resume.upload_id.len() > 0,
        resume.endpoint.len() > 0,
        resume.auth.len() > 0,
        resume.upos_uri.len() > 0,
        crate::text::trimmed(resume.upload_id).len() > 0,
        crate::text::trimmed(resume.endpoint).len() > 0,
        crate::text::trimmed(resume.auth).len() > 0,
        crate::text::trimmed(resume.upos_uri).len() > 0,
        resume.chunk_size > 0,
        resume.biz_id > 0,
{
    crate::text::lemma_trimmed_ends(resume.upload_id);
    crate::text::lemma_trimmed_ends(resume.endpoint);
    crate::text::lemma_trimmed_ends(resume.auth);
    crate::text::lemma_trimmed_ends(resume.upos_uri);
}

/// A stored number as a count: a negative one counts as zero.
pub open spec fn count_of(n: i64) -> u64 {
    if n < 0 {
        0
    } else {
        n as u64
    }
}

/// A stored number as a count.
pub fn to_count(n: i64) -> (r: u64)
    ensures
        r == count_of(n),
{
    if n < 0 {
        0
    } else {
        n as u64
    }
}

/// The checkpoint that the stored fields make up, if they make one up: the
/// four texts are there and not blank once trimmed, and the chunk size and
/// the business id are positive.
pub open spec fn stored_session(
    session_id: Option<Seq<char>>,
    endpoint: Option<Seq<char>>,
    auth: Option<Seq<char>>,
    uri: Option<Seq<char>>,
    chunk_size: i64,
    biz_id: i64,
    uploaded_bytes: i64,
    total_bytes: i64,
    last_part_index: i64,
) -> Option<SessionSpec> {
    if session_id is Some && endpoint is Some && auth is Some && uri is Some && trimmed(
        session_id->0,
    ).len() > 0 && trimmed(endpoint->0).len() > 0 && trimmed(auth->0).len() > 0 && trimmed(
        uri->0,
    ).len() > 0 && chunk_size > 0 && biz_id > 0 {
        Some(
            SessionSpec {
                upload_id: trimmed(session_id->0),
                biz_id,
                chunk_size: count_of(chunk_size),
                endpoint: trimmed(endpoint->0),
                auth: trimmed(auth->0),
                upos_uri: trimmed(uri->0),
                uploaded_bytes: count_of(uploaded_bytes),
                total_bytes: count_of(total_bytes),
                last_part_index: count_of(last_part_index),
            },
        )
    } else {
        None
    }
}

/// Makes a checkpoint of stored fields.
pub fn build_upload_session(
    session_id: &Option<String>,
    endpoint: &Option<String>,
    auth: &Option<String>,
    uri: &Option<String>,
    chunk_size: i64,
    biz_id: i64,
    uploaded_bytes: i64,
    total_bytes: i64,
    last_part_index: i64,
) -> (r: Option<UploadSessionInfo>)
    ensures
        opt_session(r) == stored_session(
            opt_chars(*session_id),
            opt_chars(*endpoint),
            opt_chars(*auth),
            opt_chars(*uri),
            chunk_size,
            biz_id,
            uploaded_bytes,
            total_bytes,
            last_part_index,
        ),
{
    let upload_id = match session_id {
        Some(s) => trim(s.as_str()),
        None => {
            return None;
        },
    };
    let endpoint = match endpoint {
        Some(s) => trim(s.as_str()),
        None => {
            return None;
        },
    };
    let auth = match auth {
        Some(s) => trim(s.as_str()),
        None => {
            return None;
        },
    };
    let upos_uri = match uri {
        Some(s) => trim(s.as_str()),
        None => {
            return None;
        },
    };
    if upload_id.as_str().unicode_len() == 0 || endpoint.as_str().unicode_len() == 0
        || auth.as_str().unicode_len() == 0 || upos_uri.as_str().unicode_len() == 0 || chunk_size
        <= 0 || biz_id <= 0 {
        return None;
    }
    Some(
        UploadSessionInfo {
            upload_id,
            biz_id,
            chunk_size: to_count(chunk_size),
            endpoint,
            auth,
            upos_uri,
            uploaded_bytes: to_count(uploaded_bytes),
            total_bytes: to_count(total_bytes),
            last_part_index: to_count(last_part_index),
        },
    )
}

/// The checkpoint stored with an output segment.
pub fn build_upload_session_from_segment(segment: &TaskOutputSegmentRecord) -> (r: Option<
    UploadSessionInfo,
>)
    ensures
        opt_session(r) == stored_session(
            opt_chars(segment.upload_session_id),
            opt_chars(segment.upload_endpoint),
            opt_chars(segment.upload_auth),
            opt_chars(segment.upload_uri),
            segment.upload_chunk_size,
            segment.upload_biz_id,
            segment.upload_uploaded_bytes,
            segment.upload_total_bytes,
            segment.upload_last_part_index,
        ),
{
    build_upload_session(
        &segment.upload_session_id,
        &segment.upload_endpoint,
        &segment.upload_auth,
        &segment.upload_uri,
        segment.upload_chunk_size,
        segment.upload_biz_id,
        segment.upload_uploaded_bytes,
        segment.upload_total_bytes,
        segment.upload_last_part_index,
    )
}

/// The checkpoint stored with a part that an edit uploads.
pub fn build_upload_session_from_edit_segment(segment: &TaskOutputSegmentRecord) -> (r: Option<
    UploadSessionInfo,
>)
    ensures
        opt_session(r) == stored_session(
            opt_chars(segment.upload_session_id),
            opt_chars(segment.upload_endpoint),
            opt_chars(segment.upload_auth),
            opt_chars(segment.upload_uri),
            segment.upload_chunk_size,
            segment.upload_biz_id,
            segment.upload_uploaded_bytes,
            segment.upload_total_bytes,
            segment.upload_last_part_index,
        ),
{
    build_upload_session_from_segment(segment)
}

/// The checkpoint stored with a merged file.
pub fn build_upload_session_from_merged(merged: &MergedVideoRecord) -> (r: Option<
    UploadSessionInfo,
>)
    ensures
        opt_session(r) == stored_session(
            opt_chars(merged.upload_session_id),
            opt_chars(merged.upload_endpoint),
            opt_chars(merged.upload_auth),
            opt_chars(merged.upload_uri),
            merged.upload_chunk_size,
            merged.upload_biz_id,
            merged.upload_uploaded_bytes,
            merged.upload_total_bytes,
            merged.upload_last_part_index,
        ),
{
    build_upload_session(
        &merged.upload_session_id,
        &merged.upload_endpoint,
        &merged.upload_auth,
        &merged.upload_uri,
        merged.upload_chunk_size,
        merged.upload_biz_id,
        merged.upload_uploaded_bytes,
        merged.upload_total_bytes,
        merged.upload_last_part_index,
    )
}

/// The checkpoint of an upload that was just negotiated: nothing uploaded
/// yet.
pub fn fresh_session(preupload: &PreuploadInfo, upload_id: String, file_size: u64) -> (r:
    UploadSessionInfo)
    ensures
        r@ == (SessionSpec {
            upload_id: upload_id@,
            biz_id: preupload.biz_id,
            chunk_size: preupload.chunk_size,
            endpoint: preupload.endpoint@,
            auth: preupload.auth@,
            upos_uri: preupload.upos_uri@,
            uploaded_bytes: 0,
            total_bytes: file_size,
            last_part_index: 0,
        }),
{
    UploadSessionInfo {
        upload_id,
        biz_id: preupload.biz_id,
        chunk_size: preupload.chunk_size,
        endpoint: preupload.endpoint.clone(),
        auth: preupload.auth.clone(),
        upos_uri: preupload.upos_uri.clone(),
        uploaded_bytes: 0,
        total_bytes: file_size,
        last_part_index: 0,
    }
}

/// What a checkpoint says of the negotiation that it came from.
pub fn preupload_of_session(session: &UploadSessionInfo) -> (r: PreuploadInfo)
    ensures
        r.auth@ == session.auth@,
        r.biz_id == session.biz_id,
        r.chunk_size == session.chunk_size,
        r.endpoint@ == session.endpoint@,
        r.upos_uri@ == session.upos_uri@,
{
    PreuploadInfo {
        auth: session.auth.clone(),
        biz_id: session.biz_id,
        chunk_size: session.chunk_size,
        endpoint: session.endpoint.clone(),
        upos_uri: session.upos_uri.clone(),
    }
}

/// The number of chunks of a file: its size divided by the chunk size,
/// rounded up.
pub open spec fn chunk_count(file_size: u64, chunk_size: u64) -> nat {
    if chunk_size == 0 {
        0
    } else {
        ((file_size + chunk_size - 1) / (chunk_size as int)) as nat
    }
}

/// The index of the first chunk that is uploaded: behind the last one of
/// the checkpoint where that has bytes uploaded and the same chunk size,
/// else the first; never behind the last chunk but one.
pub open spec fn first_chunk(
    resume: Option<SessionSpec>,
    file_size: u64,
    chunk_size: u64,
) -> nat {
    let wanted: nat = match resume {
        Some(s) => if s.uploaded_bytes > 0 && s.chunk_size == chunk_size {
            (s.last_part_index + 1) as nat
        } else {
            0
        },
        None => 0,
    };
    if wanted > chunk_count(file_size, chunk_size) {
        chunk_count(file_size, chunk_size)
    } else {
        wanted
    }
}

/// The offset in the file at which chunk `index` begins.
pub open spec fn chunk_offset(index: nat, file_size: u64, chunk_size: u64) -> nat {
    if index * chunk_size > file_size {
        file_size as nat
    } else {
        (index * chunk_size) as nat
    }
}

/// The plan of an upload: how many chunks there are, with which one it
/// begins, and where in the file that is.
#[derive(Clone, Copy, Debug, PartialEq, Eq, Structural)]
pub struct ChunkPlan {
    pub total_chunks: u64,
    pub start_index: u64,
    pub start_offset: u64,
}

/// One chunk as it is put to the endpoint: `part_number` counts from one,
/// `chunk` from zero; the chunk is the bytes from `start` to `end` of the
/// file.
#[derive(Clone, Copy, Debug, PartialEq, Eq, Structural)]
pub struct ChunkRequest {
    pub part_number: u64,
    pub chunk: u64,
    pub chunks: u64,
    pub size: u64,
    pub start: u64,
    pub end: u64,
    pub total: u64,
}

/// Plans the upload of a file of `file_size` bytes in chunks of
/// `chunk_size`, going on from `resume` where there is a checkpoint.
pub fn plan_chunks(resume: Option<&UploadSessionInfo>, file_size: u64, chunk_size: u64) -> (r:
    ChunkPlan)
    requires
        chunk_size > 0,
    ensures
        r.total_chunks == chunk_count(file_size, chunk_size),
        r.start_index == first_chunk(
            match resume {
                Some(s) => Some(s@),
                None => None,
            },
            file_size,
            chunk_size,
        ),
        r.start_offset == chunk_offset(r.start_index as nat, file_size, chunk_size),
        r.start_index <= r.total_chunks,
        r.start_offset <= file_size,
{
    proof {
        lemma_chunk_count(file_size, chunk_size);
    }
    let whole = file_size / chunk_size;
    let total_chunks = if file_size % chunk_size == 0 {
        whole
    } else {
        whole + 1
    };
    let mut start_index: u64 = 0;
    if let Some(state) = resume {
        if state.uploaded_bytes > 0 && state.chunk_size == chunk_size {
            start_index = if state.last_part_index < total_chunks {
                state.last_part_index + 1
            } else {
                total_chunks
            };
        }
    }
    let start_offset = if start_index > whole {
        proof {
            assert(start_index * chunk_size > file_size) by (nonlinear_arith)
                requires
                    start_index >= whole + 1,
                    chunk_size > 0,
                    whole * chunk_size + file_size % chunk_size == file_size,
                    file_size % chunk_size < chunk_size,
            ;
        }
        file_size
    } else {
        proof {
            assert(start_index * chunk_size <= file_size) by (nonlinear_arith)
                requires
                    start_index <= whole,
                    chunk_size > 0,
                    whole * chunk_size + file_size % chunk_size == file_size,
                    file_size % chunk_size >= 0,
            ;
        }
        start_index * chunk_size
    };
    ChunkPlan { total_chunks, start_index, start_offset }
}

/// Rounding up a division: one more than the quotient unless the division
/// is exact. The chunks cover the file, and the last one is not empty.
pub proof fn lemma_chunk_count(file_size: u64, chunk_size: u64)
    requires
        chunk_size > 0,
    ensures
        (file_size / chunk_size) * chunk_size + file_size % chunk_size == file_size,
        chunk_count(file_size, chunk_size) == file_size / chunk_size + if file_size % chunk_size
            == 0 {
            0int
        } else {
            1int
        },
        chunk_count(file_size, chunk_size) <= file_size,
        chunk_count(file_size, chunk_size) * chunk_size >= file_size,
        file_size > 0 ==> (chunk_count(file_size, chunk_size) - 1) * chunk_size < file_size,
{
    let f = file_size as int;
    let c = chunk_size as int;
    let q = f / c;
    let r = f % c;
    vstd::arithmetic::div_mod::lemma_fundamental_div_mod(f, c);
    assert(c * q == q * c) by (nonlinear_arith);
    assert(0 <= r < c);
    assert(q >= 0) by (nonlinear_arith)
        requires
            q * c + r == f,
            f >= 0,
            0 <= r < c,
    ;
    let up: int = if r == 0 {
        q
    } else {
        q + 1
    };
    let rest: int = if r == 0 {
        c - 1
    } else {
        r - 1
    };
    assert(f + c - 1 == up * c + rest) by (nonlinear_arith)
        requires
            q * c + r == f,
            up == if r == 0 {
                q
            } else {
                q + 1
            },
            rest == if r == 0 {
                c - 1
            } else {
                r - 1
            },
    ;
    vstd::arithmetic::div_mod::lemma_fundamental_div_mod_converse_div(f + c - 1, c, up, rest);
    assert(up * c >= f) by (nonlinear_arith)
        requires
            f + c - 1 == up * c + rest,
            rest <= c - 1,
    ;
    assert(up <= f) by (nonlinear_arith)
        requires
            q * c + r == f,
            c >= 1,
            q >= 0,
            0 <= r,
            up == if r == 0 {
                q
            } else {
                q + 1
            },
    ;
    if f > 0 {
        assert((up - 1) * c < f) by (nonlinear_arith)
            requires
                q * c + r == f,
                0 <= r < c,
                f > 0,
                up == if r == 0 {
                    q
                } else {
                    q + 1
                },
        ;
    }
}

/// Chunk `index` of a file as it is put to the endpoint: it begins where
/// the chunk before it ends, and ends a chunk's size further or at the end
/// of the file.
pub open spec fn chunk_at(index: nat, file_size: u64, chunk_size: u64) -> ChunkRequest {
    let start = chunk_offset(index, file_size, chunk_size);
    let end = chunk_offset(index + 1, file_size, chunk_size);
    ChunkRequest {
        part_number: (index + 1) as u64,
        chunk: index as u64,
        chunks: chunk_count(file_size, chunk_size) as u64,
        size: (end - start) as u64,
        start: start as u64,
        end: end as u64,
        total: file_size,
    }
}

/// The chunks that an upload puts when it begins with chunk `first`: that
/// one and every later one, in their order.
pub open spec fn chunks_from(first: nat, file_size: u64, chunk_size: u64) -> Seq<ChunkRequest> {
    Seq::new(
        (chunk_count(file_size, chunk_size) - first) as nat,
        |i: int| chunk_at((first + i) as nat, file_size, chunk_size),
    )
}

/// An upload that goes on from a checkpoint ends as one that begins anew.
/// It puts the chunks of the other from its first chunk on, each with the
/// same number, range and size; the chunks follow one another without a
/// gap and the last one ends with the file; and the closing post, from
/// whose answer the result is read, lists the parts of all chunks of the
/// file, those that the checkpoint covers too.
pub proof fn lemma_resume_idempotence(resume: Option<SessionSpec>, file_size: u64, chunk_size: u64)
    requires
        chunk_size > 0,
    ensures
        ({
            let first = first_chunk(resume, file_size, chunk_size);
            let count = chunk_count(file_size, chunk_size);
            &&& first_chunk(None, file_size, chunk_size) == 0
            &&& first <= count
            &&& chunks_from(first, file_size, chunk_size) == chunks_from(
                0,
                file_size,
                chunk_size,
            ).skip(first as int)
            &&& forall|i: nat|
                i < count ==> {
                    let c = #[trigger] chunk_at(i, file_size, chunk_size);
                    &&& c.start == i * chunk_size
                    &&& c.start < c.end <= file_size
                    &&& c.size == c.end - c.start
                    &&& c.size <= chunk_size
                    &&& (i + 1 < count ==> c.size == chunk_size && c.end == chunk_at(
                        i + 1,
                        file_size,
                        chunk_size,
                    ).start)
                    &&& (i + 1 == count ==> c.end == file_size)
                }
            &&& crate::upload_api::part_numbers(count).len() == count
            &&& forall|i: nat|
                i < count ==> crate::upload_api::part_numbers(count)[i as int] == (
                #[trigger] chunk_at(i, file_size, chunk_size)).part_number
        }),
{
    lemma_chunk_count(file_size, chunk_size);
    let first = first_chunk(resume, file_size, chunk_size);
    let count = chunk_count(file_size, chunk_size);
    assert(chunks_from(first, file_size, chunk_size) =~= chunks_from(0, file_size, chunk_size).skip(
        first as int,
    ));
    assert forall|i: nat| i < count implies {
        let c = #[trigger] chunk_at(i, file_size, chunk_size);
        &&& c.start == i * chunk_size
        &&& c.start < c.end <= file_size
        &&& c.size == c.end - c.start
        &&& c.size <= chunk_size
        &&& (i + 1 < count ==> c.size == chunk_size && c.end == chunk_at(
            i + 1,
            file_size,
            chunk_size,
        ).start)
        &&& (i + 1 == count ==> c.end == file_size)
    } by {
        lemma_chunk_bounds(i, file_size, chunk_size);
        if i + 1 < count {
            lemma_chunk_bounds(i + 1, file_size, chunk_size);
        }
    }
}

/// Where chunk `index` of a file lies: it begins at `index` times the chunk
/// size, before the end of the file, and ends a chunk's size further unless
/// it is the last, which ends with the file.
pub proof fn lemma_chunk_bounds(index: nat, file_size: u64, chunk_size: u64)
    requires
        chunk_size > 0,
        index < chunk_count(file_size, chunk_size),
    ensures
        chunk_offset(index, file_size, chunk_size) == index * chunk_size,
        index * chunk_size < file_size,
        index + 1 < chunk_count(file_size, chunk_size) ==> chunk_offset(
            index + 1,
            file_size,
            chunk_size,
        ) == index * chunk_size + chunk_size,
        index + 1 == chunk_count(file_size, chunk_size) ==> chunk_offset(
            index + 1,
            file_size,
            chunk_size,
        ) == file_size,
        index * chunk_size < chunk_offset(index + 1, file_size, chunk_size) <= index * chunk_size
            + chunk_size,
        index + 1 <= u64::MAX,
{
    lemma_chunk_count(file_size, chunk_size);
    let count = chunk_count(file_size, chunk_size) as int;
    let c = chunk_size as int;
    let i = index as int;
    assert(i * c <= (count - 1) * c) by (nonlinear_arith)
        requires
            i <= count - 1,
            c > 0,
    ;
    assert((i + 1) * c == i * c + c) by (nonlinear_arith);
    if i + 1 < count {
        assert((i + 1) * c <= (count - 1) * c) by (nonlinear_arith)
            requires
                i + 1 <= count - 1,
                c > 0,
        ;
    } else {
        assert((i + 1) * c == count * c);
    }
}

/// The chunk that is put next when `offset` bytes of the file are
/// uploaded, or none where the file is uploaded to its end.
pub fn next_chunk(plan: &ChunkPlan, index: u64, offset: u64, file_size: u64, chunk_size: u64) -> (r:
    Option<ChunkRequest>)
    requires
        chunk_size > 0,
        offset <= file_size,
        index < u64::MAX,
    ensures
        match r {
            Some(c) => {
                &&& index < plan.total_chunks
                &&& offset < file_size
                &&& c.part_number == index + 1
                &&& c.chunk == index
                &&& c.chunks == plan.total_chunks
                &&& c.start == offset
                &&& c.size == if file_size - offset < chunk_size {
                    (file_size - offset) as u64
                } else {
                    chunk_size
                }
                &&& c.end == c.start + c.size
                &&& c.end <= file_size
                &&& c.total == file_size
            },
            None => index >= plan.total_chunks || offset == file_size,
        },
        plan.total_chunks == chunk_count(file_size, chunk_size) && index < plan.total_chunks
            && offset == chunk_offset(index as nat, file_size, chunk_size) ==> r == Some(
            chunk_at(index as nat, file_size, chunk_size),
        ),
{
    if index >= plan.total_chunks {
        return None;
    }
    proof {
        if plan.total_chunks == chunk_count(file_size, chunk_size) {
            lemma_chunk_bounds(index as nat, file_size, chunk_size);
        }
    }
    let remaining = file_size - offset;
    if remaining == 0 {
        return None;
    }
    let size = if remaining < chunk_size {
        remaining
    } else {
        chunk_size
    };
    Some(
        ChunkRequest {
            part_number: index + 1,
            chunk: index,
            chunks: plan.total_chunks,
            size,
            start: offset,
            end: offset + size,
            total: file_size,
        },
    )
}

/// The progress of an upload.
#[derive(Clone, Copy, Debug, PartialEq, Eq, Structural)]
pub struct UploadProgressSnapshot {
    pub uploaded_bytes: u64,
    pub total_bytes: u64,
    pub last_part_index: u64,
}

impl UploadProgressSnapshot {
    /// Whether the upload is complete.
    pub open spec fn complete(self) -> bool {
        self.total_bytes > 0 && self.uploaded_bytes >= self.total_bytes
    }

    /// The progress in whole percent, at most 100.
    pub open spec fn percent(self) -> nat {
        if self.total_bytes == 0 {
            0
        } else if self.uploaded_bytes >= self.total_bytes {
            100
        } else {
            ((self.uploaded_bytes * 100) / (self.total_bytes as int)) as nat
        }
    }

    /// The progress in whole percent.
    pub fn percent_done(&self) -> (r: u8)
        ensures
            r == self.percent(),
            r <= 100,
    {
        if self.total_bytes == 0 {
            0
        } else if self.uploaded_bytes >= self.total_bytes {
            100
        } else {
            let p = (self.uploaded_bytes as u128 * 100) / (self.total_bytes as u128);
            assert(p < 100) by (nonlinear_arith)
                requires
                    p == (self.uploaded_bytes * 100) / (self.total_bytes as int),
                    self.uploaded_bytes < self.total_bytes,
                    self.uploaded_bytes >= 0,
            ;
            p as u8
        }
    }
}

/// The progress of an upload after `uploaded_bytes` of `total_bytes`.
pub fn build_progress_snapshot(uploaded_bytes: u64, total_bytes: u64, last_part_index: u64) -> (r:
    UploadProgressSnapshot)
    ensures
        r == (UploadProgressSnapshot { uploaded_bytes, total_bytes, last_part_index }),
{
    UploadProgressSnapshot { uploaded_bytes, total_bytes, last_part_index }
}

/// Keeps the store from being written for every chunk.
#[derive(Clone, Copy, Debug, PartialEq, Eq, Structural)]
pub struct UploadProgressLimiter {
    pub last_saved_at: u64,
    pub last_saved_bytes: u64,
    pub initialized: bool,
}

impl UploadProgressLimiter {
    /// Whether progress is stored at `now_ms`: the first time, at
    /// completion, after two seconds, after one percent of the file, or
    /// after two mebibytes.
    pub open spec fn due(self, snapshot: UploadProgressSnapshot, now_ms: u64) -> bool {
        ||| !self.initialized
        ||| snapshot.complete()
        ||| now_ms - self.last_saved_at >= PROGRESS_SAVE_INTERVAL_MS
        ||| (snapshot.total_bytes > 0 && (snapshot.uploaded_bytes - self.last_saved_bytes) * 100
            >= snapshot.total_bytes)
        ||| snapshot.uploaded_bytes - self.last_saved_bytes >= PROGRESS_SAVE_BYTES
    }

    /// A limiter that has stored nothing yet.
    pub fn new(now_ms: u64) -> (r: UploadProgressLimiter)
        ensures
            r == (UploadProgressLimiter {
                last_saved_at: now_ms,
                last_saved_bytes: 0,
                initialized: false,
            }),
    {
        UploadProgressLimiter { last_saved_at: now_ms, last_saved_bytes: 0, initialized: false }
    }

    /// Decides whether `snapshot` is stored at `now_ms`.
    pub fn should_persist(&self, snapshot: &UploadProgressSnapshot, now_ms: u64) -> (r: bool)
        ensures
            r == self.due(*snapshot, now_ms),
    {
        if !self.initialized {
            return true;
        }
        if snapshot.total_bytes > 0 && snapshot.uploaded_bytes >= snapshot.total_bytes {
            return true;
        }
        let waited = now_ms >= self.last_saved_at && now_ms - self.last_saved_at
            >= PROGRESS_SAVE_INTERVAL_MS;
        let gained: u64 = if snapshot.uploaded_bytes >= self.last_saved_bytes {
            snapshot.uploaded_bytes - self.last_saved_bytes
        } else {
            0
        };
        let percent_gained = snapshot.total_bytes > 0 && snapshot.uploaded_bytes
            >= self.last_saved_bytes && (gained as u128) * 100 >= snapshot.total_bytes as u128;
        waited || percent_gained || gained >= PROGRESS_SAVE_BYTES
    }

    /// Notes that `snapshot` was stored at `now_ms`.
    pub fn mark_saved(&mut self, snapshot: &UploadProgressSnapshot, now_ms: u64)
        ensures
            *final(self) == (UploadProgressLimiter {
                last_saved_at: now_ms,
                last_saved_bytes: snapshot.uploaded_bytes,
                initialized: true,
            }),
    {
        self.last_saved_at = now_ms;
        self.last_saved_bytes = snapshot.uploaded_bytes;
        self.initialized = true;
    }
}

/// What an upload writes its progress to.
#[derive(Clone, Debug)]
pub enum UploadTarget {
    Segment(String),
    Merged(i64),
    EditSegment(String),
}

/// What a finished upload yields.
#[derive(Clone, Debug)]
pub struct UploadFileResult {
    pub cid: i64,
    pub filename: String,
}

/// The status that a row shows after a wait for the rate limit: one that
/// still shows the wait goes back to uploading, any other stays.
pub fn restore_upload_status_after_rate_limit(status: UploadStatus) -> (r: UploadStatus)
    ensures
        r == if status == UploadStatus::RateLimited {
            UploadStatus::Uploading
        } else {
            status
        },
{
    match status {
        UploadStatus::RateLimited => UploadStatus::Uploading,
        other => other,
    }
}

/// A pause that the endpoint asked for.
#[derive(Clone, Copy, Debug, PartialEq, Eq, Structural)]
pub struct RateLimitPause {
    /// How long the upload sleeps.
    pub secs: u64,
    /// The status that the row shows meanwhile.
    pub status_during: UploadStatus,
}

/// Plans the pause after an answer by which the endpoint asked to slow
/// down: the row shows the wait while it lasts.
pub fn wait_on_rate_limit(limiter: &mut UploadRateLimiter, retry_after: Option<u64>) -> (r:
    RateLimitPause)
    ensures
        final(limiter).consecutive_406 == if old(limiter).consecutive_406 < u32::MAX {
            (old(limiter).consecutive_406 + 1) as u32
        } else {
            u32::MAX
        },
        r.secs == rate_limit_wait(final(limiter).consecutive_406 as nat, retry_after),
        r.secs <= RATE_LIMIT_MAX_WAIT_SECS,
        r.status_during == UploadStatus::RateLimited,
{
    let secs = limiter.next_wait_seconds(retry_after);
    RateLimitPause { secs, status_during: UploadStatus::RateLimited }
}

/// The HTTP status by which the endpoint asks to slow down.
pub const HTTP_SLOW_DOWN: u16 = 406;

/// Decides what follows the answer to a request of an upload. After status
/// 406 the upload pauses as `wait_on_rate_limit` says and the request is
/// sent again. Any other answer is taken as it is, and the count of such
/// answers in a row starts anew.
pub fn after_response(status: u16, limiter: &mut UploadRateLimiter, retry_after: Option<u64>) -> (r:
    Option<RateLimitPause>)
    ensures
        r is Some <==> status == HTTP_SLOW_DOWN,
        final(limiter).consecutive_406 == if status != HTTP_SLOW_DOWN {
            0u32
        } else if old(limiter).consecutive_406 < u32::MAX {
            (old(limiter).consecutive_406 + 1) as u32
        } else {
            u32::MAX
        },
        status == HTTP_SLOW_DOWN ==> r == Some(
            RateLimitPause {
                secs: rate_limit_wait(final(limiter).consecutive_406 as nat, retry_after) as u64,
                status_during: UploadStatus::RateLimited,
            },
        ),
        r is Some ==> r->0.secs <= RATE_LIMIT_MAX_WAIT_SECS,
{
    if status == HTTP_SLOW_DOWN {
        Some(wait_on_rate_limit(limiter, retry_after))
    } else {
        limiter.reset();
        None
    }
}

/// Whether the endpoint took a chunk: its answer holds the success mark.
pub fn chunk_accepted(response_text: &str) -> (r: bool)
    ensures
        r == contains(response_text@, CHUNK_SUCCESS_MARK@),
{
    str_contains(response_text, CHUNK_SUCCESS_MARK)
}

/// What follows a failed attempt.
#[derive(Clone, Copy, Debug, PartialEq, Eq, Structural)]
pub enum RetryStep {
    /// The credentials are refreshed and the attempt made again; it does not
    /// count.
    RefreshAuth,
    /// The upload is given up with the attempt's error.
    GiveUp,
    /// The next attempt is made after so many seconds.
    Wait { secs: u64 },
}

/// Decides what follows attempt `attempt` (counted from one) that failed
/// with `err`, where at most `max_retries` attempts are made.
pub fn after_failed_attempt(attempt: u32, max_retries: u32, err: &str) -> (r: RetryStep)
    ensures
        r == if auth_error(err@) {
            RetryStep::RefreshAuth
        } else if attempt >= max_retries {
            RetryStep::GiveUp
        } else {
            RetryStep::Wait {
                secs: backoff(
                    UPLOAD_RETRY_BASE_DELAY_SECS as nat,
                    attempt as nat,
                    5,
                    UPLOAD_RETRY_MAX_DELAY_SECS as nat,
                ) as u64,
            }
        },
{
    if is_auth_error(err) {
        RetryStep::RefreshAuth
    } else if attempt >= max_retries {
        RetryStep::GiveUp
    } else {
        RetryStep::Wait { secs: upload_retry_delay_secs(attempt) }
    }
}

/// `name` without its extension: what stands before the last dot, or all of
/// `name` where it has no dot.
pub open spec fn without_extension(name: Seq<char>) -> Seq<char> {
    let dot = last_index(name, '.');
    if dot < 0 {
        name
    } else {
        name.take(dot)
    }
}

/// The index of the last `c` in `s`, or -1.
pub open spec fn last_index(s: Seq<char>, c: char) -> int
    decreases s.len(),
{
    if s.len() == 0 {
        -1
    } else if s.last() == c {
        s.len() - 1
    } else {
        last_index(s.drop_last(), c)
    }
}

/// Where the last `c` stands in `s`.
pub proof fn lemma_last_index(s: Seq<char>, c: char, at: int)
    requires
        -1 <= at < s.len(),
        at >= 0 ==> s[at] == c,
        forall|i: int| at < i < s.len() ==> s[i] != c,
    ensures
        last_index(s, c) == at,
    decreases s.len(),
{
    if s.len() > 0 && at < s.len() - 1 {
        let rest = s.drop_last();
        assert forall|i: int| at < i < rest.len() implies rest[i] != c by {
            assert(rest[i] == s[i]);
        }
        if at >= 0 {
            assert(rest[at] == s[at]);
        }
        lemma_last_index(rest, c, at);
    }
}

/// Finds the last `c` in `chars`.
pub fn find_last(chars: &Vec<char>, c: char) -> (r: Option<usize>)
    ensures
        match r {
            Some(i) => last_index(chars@, c) == i && i < chars.len(),
            None => last_index(chars@, c) == -1,
        },
{
    let mut i = chars.len();
    while i > 0
        invariant
            i <= chars.len(),
            forall|j: int| i <= j < chars.len() ==> chars[j] != c,
        decreases i,
    {
        if chars[i - 1] == c {
            proof {
                lemma_last_index(chars@, c, i - 1);
            }
            return Some(i - 1);
        }
        i -= 1;
    }
    proof {
        lemma_last_index(chars@, c, -1);
    }
    None
}

/// `name` without its extension.
pub fn remove_file_extension(name: &str) -> (r: String)
    ensures
        r@ == without_extension(name@),
{
    let chars = chars_of(name);
    match find_last(&chars, '.') {
        Some(dot) => {
            assert(name@.subrange(0, dot as int) =~= name@.take(dot as int));
            String::from_str(name.substring_char(0, dot))
        },
        None => String::from_str(name),
    }
}

/// Number of `/` at the front of `s`.
pub open spec fn leading_slashes(s: Seq<char>) -> nat
    decreases s.len(),
{
    if s.len() > 0 && s[0] == '/' {
        1 + leading_slashes(s.drop_first())
    } else {
        0
    }
}

/// The name under which the endpoint stored a file: the last piece of
/// `key` between slashes, the slashes at its front left out, without its
/// extension; where there is no key, `fallback` without its extension.
pub open spec fn stored_filename(key: Option<Seq<char>>, fallback: Seq<char>) -> Seq<char> {
    match key {
        None => without_extension(fallback),
        Some(k) => {
            let path = k.skip(leading_slashes(k) as int);
            without_extension(path.skip(last_index(path, '/') + 1))
        },
    }
}

/// Counts the `/` at the front of `chars`.
pub fn count_leading_slashes(chars: &Vec<char>) -> (r: usize)
    ensures
        r == leading_slashes(chars@),
        r <= chars.len(),
{
    let mut i: usize = 0;
    assert(chars@.skip(0) =~= chars@);
    while i < chars.len() && chars[i] == '/'
        invariant
            i <= chars.len(),
            leading_slashes(chars@) == i + leading_slashes(chars@.skip(i as int)),
        decreases chars.len() - i,
    {
        proof {
            let rest = chars@.skip(i as int);
            assert(rest[0] == chars[i as int]);
            assert(rest.drop_first() =~= chars@.skip(i + 1));
        }
        i += 1;
    }
    proof {
        let rest = chars@.skip(i as int);
        if i < chars.len() {
            assert(rest[0] == chars[i as int]);
        }
        assert(chars@.skip(0) =~= chars@);
    }
    i
}

/// The name under which the endpoint stored a file.
pub fn parse_upload_filename(key: Option<&str>, fallback: &str) -> (r: String)
    ensures
        r@ == stored_filename(
            match key {
                Some(k) => Some(k@),
                None => None,
            },
            fallback@,
        ),
{
    let key = match key {
        Some(key) => key,
        None => {
            return remove_file_extension(fallback);
        },
    };
    let chars = chars_of(key);
    let skip = count_leading_slashes(&chars);
    let path = crate::text::copy_chars(&chars, skip, chars.len());
    assert(path@ =~= key@.skip(skip as int));
    let from = match find_last(&path, '/') {
        Some(i) => i + 1,
        None => 0,
    };
    let name = key.substring_char(skip + from, chars.len());
    assert(name@ =~= path@.skip(from as int));
    remove_file_extension(name)
}

/// The address that chunks are put to: `https:`, the endpoint, and the path
/// of the address that the negotiation named, with a slash in front.
pub open spec fn upload_url(endpoint: Seq<char>, upos_uri: Seq<char>) -> Seq<char> {
    let path = strip_scheme(upos_uri);
    let rooted = if path.len() > 0 && path[0] == '/' {
        path
    } else {
        seq!['/'] + path
    };
    "https:"@ + endpoint + rooted
}

/// `uri` without the scheme `upos://` at its front, as often as it stands
/// there.
pub open spec fn strip_scheme(uri: Seq<char>) -> Seq<char>
    decreases uri.len(),
{
    if crate::text::starts_with(uri, "upos://"@) && "upos://"@.len() > 0 {
        strip_scheme(uri.skip("upos://"@.len() as int))
    } else {
        uri
    }
}

/// Builds the address that chunks are put to.
pub fn build_upload_url(endpoint: &str, upos_uri: &str) -> (r: String)
    ensures
        r@ == upload_url(endpoint@, upos_uri@),
{
    let chars = chars_of(upos_uri);
    let scheme = chars_of("upos://");
    proof {
        reveal_strlit("upos://");
    }
    let mut at: usize = 0;
    assert(chars@.skip(0) =~= chars@);
    while crate::text::chars_occur_at(&chars, &scheme, at)
        invariant
            at <= chars.len(),
            scheme@ == "upos://"@,
            scheme@.len() == 7,
            strip_scheme(chars@) == strip_scheme(chars@.skip(at as int)),
        decreases chars.len() - at,
    {
        proof {
            let rest = chars@.skip(at as int);
            assert(rest.subrange(0, 7) =~= chars@.subrange(at as int, at + 7));
            assert(rest.skip(7) =~= chars@.skip(at + 7));
        }
        at += 7;
    }
    proof {
        let rest = chars@.skip(at as int);
        if at + 7 <= chars.len() {
            assert(rest.subrange(0, 7) =~= chars@.subrange(at as int, at + 7));
        }
        assert(chars@.skip(0) =~= chars@);
        assert(strip_scheme(chars@) == rest);
    }
    let path = upos_uri.substring_char(at, chars.len());
    assert(path@ =~= chars@.skip(at as int));
    let mut out = String::from_str("https:");
    out.append(endpoint);
    if !(at < chars.len() && chars[at] == '/') {
        proof {
            reveal_strlit("/");
        }
        out.append("/");
        assert("/"@ =~= seq!['/']);
    }
    out.append(path);
    assert(out@ =~= upload_url(endpoint@, upos_uri@));
    out
}

/// The wait that an answer names in its `Retry-After` header, if the header
/// is there and holds a number.
pub fn retry_after_seconds(header: Option<&str>) -> (r: Option<u64>)
    ensures
        match r {
            Some(n) => header is Some && parsed_unsigned(header->0@, 10, u64::MAX as nat) == Some(
                n as nat,
            ),
            None => header is None || parsed_unsigned(header->0@, 10, u64::MAX as nat) is None,
        },
{
    match header {
        Some(value) => {
            let chars = chars_of(value);
            parse_unsigned(&chars, 10, u64::MAX)
        },
        None => None,
    }
}

} // verus!
