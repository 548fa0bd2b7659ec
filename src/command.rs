use vstd::prelude::*;
use vstd::string::StringSliceAdditionalSpecFns;

verus! {

/// Decimal ASCII digits of `n`, without leading zeros.
pub open spec fn decimal(n: nat) -> Seq<u8>
    decreases n,
{
    if n < 10 {
        seq![(48 + n) as u8]
    } else {
        decimal(n / 10).push((48 + n % 10) as u8)
    }
}

/// Appends the bytes of `s` to `out`.
pub fn append_bytes(out: &mut Vec<u8>, s: &[u8])
    ensures
        final(out)@ == old(out)@ + s@,
{
    let ghost start = out@;
    let mut i: usize = 0;
    while i < s.len()
        invariant
            i <= s@.len(),
            out@ == start + s@.subrange(0, i as int),
        decreases s@.len() - i,
    {
        out.push(s[i]);
        i = i + 1;
        assert(out@ =~= start + s@.subrange(0, i as int));
    }
    assert(s@.subrange(0, i as int) =~= s@);
}

/// Appends the decimal digits of `n` to `out`.
pub fn append_decimal(out: &mut Vec<u8>, n: u32)
    ensures
        final(out)@ == old(out)@ + decimal(n as nat),
    decreases n,
{
    if n >= 10 {
        append_decimal(out, n / 10);
    }
    out.push(48u8 + (n % 10) as u8);
    proof {
        if n >= 10 {
            assert(old(out)@ + decimal(n as nat) =~= old(out)@ + decimal((n / 10) as nat) + seq![
                (48 + n % 10) as u8,
            ]);
        }
    }
}

/// `input tap X Y`: a tap at the given screen point.
pub open spec fn tap_text(x: nat, y: nat) -> Seq<u8> {
    "input tap ".spec_bytes() + decimal(x) + " ".spec_bytes() + decimal(y)
}

/// `input swipe X1 Y1 X2 Y2`: a swipe between two screen points.
pub open spec fn swipe_text(x1: nat, y1: nat, x2: nat, y2: nat) -> Seq<u8> {
    "input swipe ".spec_bytes() + decimal(x1) + " ".spec_bytes() + decimal(y1) + " ".spec_bytes()
        + decimal(x2) + " ".spec_bytes() + decimal(y2)
}

/// `input keyevent CODE`: a key press.
pub open spec fn key_text(code: nat) -> Seq<u8> {
    "input keyevent ".spec_bytes() + decimal(code)
}

/// `input text S`: text typed as is, with no escaping.
pub open spec fn input_text_of(text: Seq<u8>) -> Seq<u8> {
    "input text ".spec_bytes() + text
}

/// The shell command that taps the point `(x, y)`.
pub fn tap_command(x: u32, y: u32) -> (r: Vec<u8>)
    ensures
        r@ == tap_text(x as nat, y as nat),
{
    let mut r: Vec<u8> = Vec::new();
    append_bytes(&mut r, "input tap ".as_bytes());
    append_decimal(&mut r, x);
    append_bytes(&mut r, " ".as_bytes());
    append_decimal(&mut r, y);
    r
}

/// The shell command that swipes from `(x1, y1)` to `(x2, y2)`.
pub fn swipe_command(x1: u32, y1: u32, x2: u32, y2: u32) -> (r: Vec<u8>)
    ensures
        r@ == swipe_text(x1 as nat, y1 as nat, x2 as nat, y2 as nat),
{
    let mut r: Vec<u8> = Vec::new();
    append_bytes(&mut r, "input swipe ".as_bytes());
    append_decimal(&mut r, x1);
    append_bytes(&mut r, " ".as_bytes());
    append_decimal(&mut r, y1);
    append_bytes(&mut r, " ".as_bytes());
    append_decimal(&mut r, x2);
    append_bytes(&mut r, " ".as_bytes());
    append_decimal(&mut r, y2);
    r
}

/// The shell command that presses the key with code `keycode`.
pub fn key_command(keycode: u32) -> (r: Vec<u8>)
    ensures
        r@ == key_text(keycode as nat),
{
    let mut r: Vec<u8> = Vec::new();
    append_bytes(&mut r, "input keyevent ".as_bytes());
    append_decimal(&mut r, keycode);
    r
}

/// The shell command that types `text`. Nothing in it is escaped: the caller
/// keeps out what the remote shell would interpret.
pub fn text_command(text: &str) -> (r: Vec<u8>)
    ensures
        r@ == input_text_of(text.spec_bytes()),
{
    let mut r: Vec<u8> = Vec::new();
    append_bytes(&mut r, "input text ".as_bytes());
    append_bytes(&mut r, text.as_bytes());
    r
}

/// The command whose output is a PNG capture of the screen.
pub fn capture_command() -> (r: Vec<u8>)
    ensures
        r@ == "screencap -p".spec_bytes(),
{
    let mut r: Vec<u8> = Vec::new();
    append_bytes(&mut r, "screencap -p".as_bytes());
    r
}

} // verus!
