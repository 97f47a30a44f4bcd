use vstd::prelude::*;

verus! {

/// What `String::from_utf16_lossy` returns for a given sequence of UTF-16
/// code units. Named rather than spelled out: the decoding algorithm
/// (surrogate pairing, replacement of invalid units) is the standard
/// library's business and depends on the units alone.
pub uninterp spec fn utf16_lossy_of(units: Seq<u16>) -> Seq<char>;

/// Relies on `String::from_utf16_lossy`: the result is a function of the
/// code units alone, and an empty input decodes to the empty string.
#[verifier::external_body]
fn utf16_lossy_prefix(buffer: &Vec<u16>, k: usize) -> (r: String)
    requires
        k <= buffer@.len(),
    ensures
        r@ == utf16_lossy_of(buffer@.take(k as int)),
        buffer@.take(k as int).len() == 0 ==> r@.len() == 0,
{
    String::from_utf16_lossy(&buffer[..k])
}

/// `s` with its trailing zero code units (wide-string terminators) removed.
pub open spec fn strip_trailing_zeros(s: Seq<u16>) -> Seq<u16>
    decreases s.len(),
{
    if s.len() == 0 {
        s
    } else if s.last() == 0u16 {
        strip_trailing_zeros(s.drop_last())
    } else {
        s
    }
}

/// What title resolution yields from the platform's two raw answers: the
/// reported title length, and the code units actually copied. A zero
/// reported length or an empty copy is a failed resolution; otherwise the
/// copied units, terminators stripped, decode to the title.
pub open spec fn title_of(reported_len: u32, copied: Seq<u16>) -> Option<Seq<char>> {
    if reported_len == 0 || copied.len() == 0 {
        None
    } else {
        Some(utf16_lossy_of(strip_trailing_zeros(copied)))
    }
}

/// Turn the platform's raw title query results into the window title:
/// `None` when the reported length was zero or no units were copied, else
/// the decoded text of the copied units, trailing terminators dropped.
pub fn resolve_title_from_raw(reported_len: u32, buffer: &Vec<u16>, copied: usize) -> (r: Option<
    String,
>)
    requires
        copied <= buffer@.len(),
    ensures
        match r {
            Some(t) => title_of(reported_len, buffer@.take(copied as int)) == Some(t@),
            None => title_of(reported_len, buffer@.take(copied as int)) is None,
        },
{
    if reported_len == 0 {
        return None;
    }
    if copied == 0 {
        assert(buffer@.take(copied as int).len() == 0);
        return None;
    }
    let mut k: usize = copied;
    while k > 0 && buffer[k - 1] == 0u16
        invariant
            k <= copied <= buffer@.len(),
            strip_trailing_zeros(buffer@.take(copied as int)) == strip_trailing_zeros(
                buffer@.take(k as int),
            ),
        decreases k,
    {
        proof {
            assert(buffer@.take(k as int).last() == 0u16);
            assert(buffer@.take(k as int).drop_last() =~= buffer@.take(k as int - 1));
        }
        k = k - 1;
    }
    proof {
        if k == 0 {
            assert(buffer@.take(0).len() == 0);
            assert(strip_trailing_zeros(buffer@.take(0)) == buffer@.take(0));
        } else {
            assert(buffer@.take(k as int).last() == buffer@[k as int - 1]);
            assert(strip_trailing_zeros(buffer@.take(k as int)) == buffer@.take(k as int));
        }
    }
    Some(utf16_lossy_prefix(buffer, k))
}

/// The platform's owning-process answer with its "no owner" sentinel
/// (zero) mapped to `None`.
pub open spec fn owner_pid_of(raw: u32) -> Option<u32> {
    if raw == 0 {
        None
    } else {
        Some(raw)
    }
}

/// Classify the raw owning-process id the platform reported for a window:
/// zero means no owning process could be resolved.
pub fn classify_owner_pid(raw: u32) -> (r: Option<u32>)
    ensures
        r == owner_pid_of(raw),
{
    if raw != 0 {
        Some(raw)
    } else {
        None
    }
}

} // verus!
