use vstd::prelude::*;
use vstd::string::StringSliceAdditionalSpecFns;

use crate::capture::{lossy_text, lossy_utf8};
use crate::command::append_bytes;
use crate::error::AGError;
use crate::session::RecvData;

verus! {

pub open spec fn is_digit(c: u8) -> bool {
    48 <= c <= 57
}

/// Value of a run of decimal digits.
pub open spec fn digits_value(s: Seq<u8>) -> nat
    decreases s.len(),
{
    if s.len() == 0 {
        0
    } else {
        digits_value(s.drop_last()) * 10 + (s.last() - 48) as nat
    }
}

/// End of the run of digits in `s` that starts at `i`.
pub open spec fn digits_end(s: Seq<u8>, i: nat) -> nat
    decreases s.len() - i,
{
    if i < s.len() && is_digit(s[i as int]) {
        digits_end(s, i + 1)
    } else {
        i
    }
}

/// The words that open the answer to `wm size`.
pub open spec fn size_prefix() -> Seq<u8> {
    "Physical size: ".spec_bytes()
}

/// Width and height in the answer to `wm size`: `Physical size: WxH`, then
/// the end of the output or of the line.
pub open spec fn wm_size_of(out: Seq<u8>) -> Option<(nat, nat)> {
    let p = size_prefix().len();
    let w_end = digits_end(out, p);
    let h_end = digits_end(out, w_end + 1);
    if out.len() >= p && out.subrange(0, p as int) == size_prefix() && w_end > p && w_end
        < out.len() && out[w_end as int] == 120u8 && h_end > w_end + 1 && (h_end == out.len()
        || out[h_end as int] == 10u8 || out[h_end as int] == 13u8) {
        Some(
            (
                digits_value(out.subrange(p as int, w_end as int)),
                digits_value(out.subrange((w_end + 1) as int, h_end as int)),
            ),
        )
    } else {
        None
    }
}

/// The command that reports the screen size.
pub fn resolution_command() -> (r: Vec<u8>)
    ensures
        r@ == "wm size".spec_bytes(),
{
    let mut r: Vec<u8> = Vec::new();
    append_bytes(&mut r, "wm size".as_bytes());
    r
}

/// Reads the run of digits at `start`: where it ends, and its value when that
/// fits in 32 bits.
fn read_digits(s: &[u8], start: usize) -> (r: (usize, Option<u32>))
    requires
        start <= s@.len(),
    ensures
        r.0 as nat == digits_end(s@, start as nat),
        start <= r.0 <= s@.len(),
        r.1 == (if digits_value(s@.subrange(start as int, r.0 as int)) <= u32::MAX {
            Some(digits_value(s@.subrange(start as int, r.0 as int)) as u32)
        } else {
            None
        }),
{
    let mut i = start;
    let mut v: u64 = 0;
    let mut over = false;
    while i < s.len() && s[i] >= 48u8 && s[i] <= 57u8
        invariant
            start <= i <= s@.len(),
            digits_end(s@, start as nat) == digits_end(s@, i as nat),
            !over ==> v as nat == digits_value(s@.subrange(start as int, i as int)) && v
                <= u32::MAX,
            over ==> digits_value(s@.subrange(start as int, i as int)) > u32::MAX,
        decreases s@.len() - i,
    {
        let d = (s[i] - 48u8) as u64;
        let ghost before = s@.subrange(start as int, i as int);
        assert(s@.subrange(start as int, i + 1).drop_last() =~= before);
        if !over {
            v = v * 10 + d;
            if v > 4294967295u64 {
                over = true;
            }
        }
        i = i + 1;
    }
    if over {
        (i, None)
    } else {
        (i, Some(v as u32))
    }
}

/// Width and height in the answer to `wm size`, when it has the expected
/// shape and both fit in 32 bits.
pub fn parse_wm_size(out: &[u8]) -> (r: Option<(u32, u32)>)
    ensures
        r == (match wm_size_of(out@) {
            Some((w, h)) => if w <= u32::MAX && h <= u32::MAX {
                Some((w as u32, h as u32))
            } else {
                None
            },
            None => None,
        }),
{
    let prefix = "Physical size: ".as_bytes();
    assert(prefix@ == size_prefix());
    let p = prefix.len();
    if out.len() < p {
        return None;
    }
    let mut i: usize = 0;
    while i < p
        invariant
            i <= p <= out@.len(),
            p == size_prefix().len(),
            prefix@ == size_prefix(),
            out@.subrange(0, i as int) == size_prefix().subrange(0, i as int),
        decreases p - i,
    {
        if out[i] != prefix[i] {
            assert(out@.subrange(0, p as int)[i as int] != size_prefix()[i as int]);
            return None;
        }
        i = i + 1;
        assert(out@.subrange(0, i as int) =~= size_prefix().subrange(0, i as int));
    }
    assert(size_prefix().subrange(0, p as int) =~= size_prefix());
    let (w_end, w) = read_digits(out, p);
    if w_end == p || w_end >= out.len() || out[w_end] != 120u8 {
        return None;
    }
    let (h_end, h) = read_digits(out, w_end + 1);
    if h_end == w_end + 1 {
        return None;
    }
    if h_end < out.len() && out[h_end] != 10u8 && out[h_end] != 13u8 {
        return None;
    }
    match (w, h) {
        (Some(w), Some(h)) => Some((w, h)),
        _ => None,
    }
}

/// The screen size in the answer to `wm size`. A refused command fails with
/// the device's output as its message; output of another shape, or a size
/// beyond 32 bits, fails as unrecognised.
pub fn resolution_result(recv: RecvData) -> (r: Result<(u32, u32), AGError>)
    ensures
        !recv.is_ok ==> (r matches Err(AGError::Custom(m)) && m@ == lossy_text(recv.data@)),
        recv.is_ok ==> match wm_size_of(recv.data@) {
            Some((w, h)) => if w <= u32::MAX && h <= u32::MAX {
                r == Ok::<(u32, u32), AGError>((w as u32, h as u32))
            } else {
                r matches Err(AGError::Custom(m)) && m@ == "unrecognised screen size"@
            },
            None => r matches Err(AGError::Custom(m)) && m@ == "unrecognised screen size"@,
        },
{
    if !recv.is_ok {
        return Err(AGError::Custom(lossy_utf8(recv.data.as_slice())));
    }
    match parse_wm_size(recv.data.as_slice()) {
        Some(size) => Ok(size),
        None => Err(AGError::Custom("unrecognised screen size".to_string())),
    }
}

} // verus!
