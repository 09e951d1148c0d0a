//! What the driver reports after a compile or a link.

use vstd::prelude::*;
use vstd::string::StringSliceAdditionalSpecFns;
use vstd::slice::slice_subrange;
use vstd::utf8::{decode_utf8, valid_utf8};

verus! {

/// The outcome of a compile or link, as the driver's queries reported it: the
/// status value (0 for failure) and the info log, read into a buffer of the
/// length that the driver gave for it.
pub struct BuildStatus {
    pub status: i32,
    pub log: Vec<u8>,
}

impl BuildStatus {
    pub open spec fn succeeded(&self) -> bool {
        self.status != 0
    }
}

/// Name for the text that `String::from_utf8_lossy` makes of a byte string.
pub uninterp spec fn lossy_text(bytes: Seq<u8>) -> Seq<char>;

/// Relies on `String::from_utf8_lossy`: the text depends on the bytes alone,
/// valid UTF-8 is decoded as it stands, and every other byte sequence yields
/// at least one replacement character, so the text is empty exactly when the
/// bytes are.
#[verifier::external_body]
fn decode_lossy(bytes: &[u8]) -> (r: String)
    ensures
        r@ == lossy_text(bytes@),
        valid_utf8(bytes@) ==> r@ == decode_utf8(bytes@),
        r@.len() == 0 <==> bytes@.len() == 0,
{
    String::from_utf8_lossy(bytes).into_owned()
}

/// Where the text of a NUL-terminated log ends: at its first NUL, or at its end.
pub open spec fn text_end(log: Seq<u8>) -> int
    decreases log.len(),
{
    if log.len() == 0 || log[0] == 0 {
        0
    } else {
        1 + text_end(log.drop_first())
    }
}

/// The text of a NUL-terminated log: the bytes before its first NUL.
pub open spec fn log_text(log: Seq<u8>) -> Seq<u8> {
    log.take(text_end(log))
}

proof fn lemma_text_end(log: Seq<u8>, n: int)
    requires
        0 <= n <= log.len(),
        forall|j: int| 0 <= j < n ==> log[j] != 0,
        n == log.len() || log[n] == 0,
    ensures
        text_end(log) == n,
    decreases n,
{
    if n > 0 {
        let rest = log.drop_first();
        assert forall|j: int| 0 <= j < n - 1 implies rest[j] != 0 by {
            assert(rest[j] == log[j + 1]);
        }
        lemma_text_end(rest, n - 1);
    }
}

/// The message of a log: its text up to the first NUL, decoded as UTF-8 with
/// invalid sequences replaced.
pub fn log_message(log: &[u8]) -> (r: String)
    ensures
        r@ == lossy_text(log_text(log@)),
        valid_utf8(log_text(log@)) ==> r@ == decode_utf8(log_text(log@)),
        r@.len() == 0 <==> log_text(log@).len() == 0,
{
    let mut end: usize = 0;
    while end < log.len() && log[end] != 0
        invariant
            end <= log@.len(),
            forall|j: int| 0 <= j < end ==> log@[j] != 0,
        decreases log@.len() - end,
    {
        end = end + 1;
    }
    proof {
        lemma_text_end(log@, end as int);
    }
    let text = slice_subrange(log, 0, end);
    assert(text@ == log_text(log@));
    decode_lossy(text)
}

/// Whether a byte string holds a NUL byte.
pub open spec fn has_nul(bytes: Seq<u8>) -> bool {
    exists|i: int| 0 <= i < bytes.len() && bytes[i] == 0
}

/// The bytes of `s` followed by one NUL, as a C string hands them to the
/// driver; `None` where `s` itself holds a NUL, which would cut it short.
pub fn nul_terminated(s: &str) -> (r: Option<Vec<u8>>)
    ensures
        has_nul(s.spec_bytes()) <==> r is None,
        r matches Some(v) ==> v@ == s.spec_bytes().push(0u8),
{
    let bytes = s.as_bytes();
    let mut out: Vec<u8> = Vec::new();
    let mut i: usize = 0;
    while i < bytes.len()
        invariant
            bytes@ == s.spec_bytes(),
            i <= bytes@.len(),
            out@ == bytes@.take(i as int),
            forall|j: int| 0 <= j < i ==> bytes@[j] != 0,
        decreases bytes@.len() - i,
    {
        if bytes[i] == 0 {
            assert(bytes@[i as int] == 0);
            assert(has_nul(bytes@));
            return None;
        }
        out.push(bytes[i]);
        i = i + 1;
        assert(out@ =~= bytes@.take(i as int));
    }
    assert(bytes@.take(i as int) =~= bytes@);
    out.push(0u8);
    Some(out)
}

} // verus!
