use vstd::prelude::*;

use crate::error::AGError;

verus! {

/// Largest payload a frame can announce: the prefix is a 16-bit length.
pub const MAX_FRAME_LEN: usize = 65535;

/// ASCII code of the uppercase hexadecimal digit for `n < 16`.
pub open spec fn hex_digit(n: nat) -> u8 {
    if n < 10 {
        (48 + n) as u8
    } else {
        (55 + n) as u8
    }
}

/// Whether `c` is a hexadecimal digit, in either case.
pub open spec fn is_hex_char(c: u8) -> bool {
    (48 <= c <= 57) || (65 <= c <= 70) || (97 <= c <= 102)
}

/// Value of a hexadecimal digit.
pub open spec fn hex_value(c: u8) -> nat {
    if 48 <= c <= 57 {
        (c - 48) as nat
    } else if 65 <= c <= 70 {
        (c - 55) as nat
    } else {
        (c - 87) as nat
    }
}

/// Uppercase hexadecimal text of a byte string, two digits per byte, high
/// nibble first.
pub open spec fn hex_upper_of(b: Seq<u8>) -> Seq<u8> {
    Seq::new(
        2 * b.len(),
        |i: int|
            if i % 2 == 0 {
                hex_digit((b[i / 2] / 16) as nat)
            } else {
                hex_digit((b[i / 2] % 16) as nat)
            },
    )
}

/// Bytes that a hexadecimal text stands for, or `None` when it is not one.
pub open spec fn hex_bytes_of(h: Seq<u8>) -> Option<Seq<u8>> {
    if h.len() % 2 == 0 && forall|i: int| 0 <= i < h.len() ==> #[trigger] is_hex_char(h[i]) {
        Some(
            Seq::new(
                h.len() / 2,
                |i: int| (hex_value(h[2 * i]) * 16 + hex_value(h[2 * i + 1])) as u8,
            ),
        )
    } else {
        None
    }
}

/// The four uppercase hexadecimal digits of `n`, most significant first.
pub open spec fn length_header(n: nat) -> Seq<u8> {
    seq![
        hex_digit((n / 4096) % 16),
        hex_digit((n / 256) % 16),
        hex_digit((n / 16) % 16),
        hex_digit(n % 16),
    ]
}

/// The length that a four-byte prefix announces, or `None` when the prefix is
/// not four hexadecimal digits.
pub open spec fn parse_length(h: Seq<u8>) -> Option<nat> {
    if h.len() == 4 && forall|i: int| 0 <= i < 4 ==> #[trigger] is_hex_char(h[i]) {
        Some(
            hex_value(h[0]) * 4096 + hex_value(h[1]) * 256 + hex_value(h[2]) * 16 + hex_value(
                h[3],
            ),
        )
    } else {
        None
    }
}

/// One frame on the wire: the length header followed by the payload.
pub open spec fn frame_of(payload: Seq<u8>) -> Seq<u8> {
    length_header(payload.len()) + payload
}

/// The status token that acknowledges a request.
pub open spec fn okay_token() -> Seq<u8> {
    seq![79u8, 75u8, 65u8, 89u8]
}

/// Relies on hex::encode_upper: two uppercase digits per byte, high nibble
/// first, from the table "0123456789ABCDEF".
#[verifier::external_body]
fn hex_upper(b: &[u8]) -> (r: Vec<u8>)
    ensures
        r@ == hex_upper_of(b@),
{
    hex::encode_upper(b).into_bytes()
}

/// Relies on hex::decode: an even number of digits of either case is read two
/// by two into bytes; any other text is refused.
#[verifier::external_body]
fn hex_decode(h: &[u8]) -> (r: Result<Vec<u8>, hex::FromHexError>)
    ensures
        match r {
            Ok(v) => hex_bytes_of(h@) == Some(v@),
            Err(_) => hex_bytes_of(h@) is None,
        },
{
    hex::decode(h)
}

proof fn lemma_header_digits(n: nat)
    requires
        n <= 65535,
    ensures
        (n / 256) / 16 == (n / 4096) % 16,
        (n / 256) % 16 == (n / 256) % 16,
        (n % 256) / 16 == (n / 16) % 16,
        (n % 256) % 16 == n % 16,
{
    assert((n / 256) / 16 == (n / 4096) % 16) by (nonlinear_arith)
        requires n <= 65535;
    assert((n % 256) / 16 == (n / 16) % 16) by (nonlinear_arith)
        requires n <= 65535;
    assert((n % 256) % 16 == n % 16) by (nonlinear_arith);
}

/// The length header for a payload of `len` bytes; lengths that do not fit
/// in sixteen bits are refused before anything is encoded.
pub fn encode_length(len: usize) -> (r: Result<Vec<u8>, AGError>)
    ensures
        len <= MAX_FRAME_LEN ==> (r matches Ok(h) && h@ == length_header(len as nat)),
        len > MAX_FRAME_LEN ==> (r matches Err(e) && e.custom_text() == Some("frame too long"@)),
{
    if len > MAX_FRAME_LEN {
        return Err(AGError::Custom("frame too long".to_string()));
    }
    let be: [u8; 2] = [(len / 256) as u8, (len % 256) as u8];
    let h = hex_upper(&be);
    proof {
        lemma_header_digits(len as nat);
        assert(h@ =~= length_header(len as nat));
    }
    Ok(h)
}

/// The frame that carries `payload`: its length header, then the payload
/// itself. A payload longer than the header can announce is refused.
pub fn frame(payload: &[u8]) -> (r: Result<Vec<u8>, AGError>)
    ensures
        payload@.len() <= MAX_FRAME_LEN ==> (r matches Ok(f) && f@ == frame_of(payload@)),
        payload@.len() > MAX_FRAME_LEN ==> (r matches Err(e) && e.custom_text() == Some(
            "frame too long"@,
        )),
{
    let mut f = match encode_length(payload.len()) {
        Ok(h) => h,
        Err(e) => return Err(e),
    };
    let mut i: usize = 0;
    while i < payload.len()
        invariant
            i <= payload@.len() <= MAX_FRAME_LEN,
            f@ == length_header(payload@.len()) + payload@.subrange(0, i as int),
        decreases payload@.len() - i,
    {
        f.push(payload[i]);
        i = i + 1;
        assert(f@ =~= length_header(payload@.len()) + payload@.subrange(0, i as int));
    }
    assert(payload@.subrange(0, i as int) =~= payload@);
    Ok(f)
}

/// The length that a four-byte prefix announces; a prefix that is not four
/// hexadecimal digits is a decode failure.
pub fn decode_length(h: &[u8; 4]) -> (r: Result<u16, AGError>)
    ensures
        match parse_length(h@) {
            Some(n) => r matches Ok(v) && v as nat == n,
            None => r matches Err(AGError::Decode),
        },
{
    let bytes = match hex_decode(h.as_slice()) {
        Ok(v) => v,
        Err(_) => {
            proof {
                if parse_length(h@) is Some {
                    assert(forall|i: int| 0 <= i < h@.len() ==> #[trigger] is_hex_char(h@[i]));
                }
            }
            return Err(AGError::Decode);
        },
    };
    proof {
        assert(h@.len() == 4);
        assert(forall|i: int| 0 <= i < 4 ==> #[trigger] is_hex_char(h@[i]));
        assert(bytes@.len() == 2);
        assert(bytes@[0] == (hex_value(h@[0]) * 16 + hex_value(h@[1])) as u8);
        assert(bytes@[1] == (hex_value(h@[2]) * 16 + hex_value(h@[3])) as u8);
        assert(is_hex_char(h@[0]) && is_hex_char(h@[1]) && is_hex_char(h@[2]) && is_hex_char(
            h@[3],
        ));
        assert(hex_value(h@[0]) < 16 && hex_value(h@[1]) < 16);
        assert(hex_value(h@[2]) < 16 && hex_value(h@[3]) < 16);
    }
    let v = (bytes[0] as u16) * 256 + (bytes[1] as u16);
    Ok(v)
}

/// Whether a four-byte status token acknowledges the request: only the exact
/// bytes `OKAY` do; `FAIL` and every other token do not.
pub fn status_is_okay(status: &[u8; 4]) -> (r: bool)
    ensures
        r == (status@ == okay_token()),
{
    let r = status[0] == 79u8 && status[1] == 75u8 && status[2] == 65u8 && status[3] == 89u8;
    proof {
        if r {
            assert(status@ =~= okay_token());
        }
    }
    r
}

/// Encoding a length into its header and reading the header back gives the
/// length unchanged, for every length a frame can announce.
pub proof fn lemma_length_round_trip(n: nat)
    requires
        n <= 65535,
    ensures
        parse_length(length_header(n)) == Some(n),
{
    let h = length_header(n);
    let d0 = (n / 4096) % 16;
    let d1 = (n / 256) % 16;
    let d2 = (n / 16) % 16;
    let d3 = n % 16;
    assert(h[0] == hex_digit(d0) && h[1] == hex_digit(d1) && h[2] == hex_digit(d2) && h[3]
        == hex_digit(d3));
    assert(forall|i: int| 0 <= i < 4 ==> #[trigger] is_hex_char(h[i]));
    assert(hex_value(h[0]) == d0 && hex_value(h[1]) == d1 && hex_value(h[2]) == d2 && hex_value(
        h[3],
    ) == d3);
    assert(d0 * 4096 + d1 * 256 + d2 * 16 + d3 == n) by (nonlinear_arith)
        requires
            n <= 65535,
            d0 == (n / 4096) % 16,
            d1 == (n / 256) % 16,
            d2 == (n / 16) % 16,
            d3 == n % 16,
    ;
}

} // verus!
