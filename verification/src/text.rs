//! Building diagnostic and header text.

use vstd::prelude::*;

verus! {

/// Appends `t` to `s`.
pub fn append_str(s: &mut String, t: &str)
    ensures
        final(s)@ == old(s)@ + t@,
{
    s.append(t);
}

/// Appends `c` to `s`.
///
/// Calls `String::push`, which appends the given character onto the end of the
/// string; the contract states exactly that.
#[verifier::external_body]
pub fn append_char(s: &mut String, c: char)
    ensures
        final(s)@ == old(s)@.push(c),
{
    s.push(c);
}

/// The ASCII digit for `d`.
pub open spec fn digit_char(d: nat) -> char {
    (48 + d) as char
}

/// Decimal notation of `n`, without leading zeros.
pub open spec fn decimal(n: nat) -> Seq<char>
    decreases n,
{
    if n < 10 {
        seq![digit_char(n)]
    } else {
        decimal(n / 10).push(digit_char(n % 10))
    }
}

/// The string `a` followed by `b`.
pub fn concat(a: &str, b: &str) -> (s: String)
    ensures
        s@ == a@ + b@,
{
    let mut s = a.to_owned();
    append_str(&mut s, b);
    s
}

/// Appends the decimal notation of `n` to `s`.
pub fn append_decimal(s: &mut String, n: u64)
    ensures
        final(s)@ == old(s)@ + decimal(n as nat),
    decreases n,
{
    if n >= 10 {
        append_decimal(s, n / 10);
    }
    let d: u8 = (n % 10) as u8;
    let c: char = (48u8 + d) as char;
    append_char(s, c);
    proof {
        assert(c == digit_char((n % 10) as nat));
    }
}

/// ASCII bytes of the decimal notation of `n`.
pub open spec fn decimal_bytes(n: nat) -> Seq<u8>
    decreases n,
{
    if n < 10 {
        seq![(48 + n) as u8]
    } else {
        decimal_bytes(n / 10).push((48 + n % 10) as u8)
    }
}

/// Appends the ASCII bytes of the decimal notation of `n` to `v`.
pub fn append_decimal_bytes(v: &mut Vec<u8>, n: u64)
    ensures
        final(v)@ == old(v)@ + decimal_bytes(n as nat),
    decreases n,
{
    if n >= 10 {
        append_decimal_bytes(v, n / 10);
    }
    let d: u8 = (n % 10) as u8;
    v.push(48 + d);
    proof {
        assert(v@ =~= old(v)@ + decimal_bytes(n as nat));
    }
}

/// Debug notation of an RGBA8 pixel, such as `[16, 18, 22, 255]`.
pub open spec fn rgba_text(p: [u8; 4]) -> Seq<char> {
    "["@ + decimal(p[0] as nat) + ", "@ + decimal(p[1] as nat) + ", "@ + decimal(p[2] as nat) + ", "@
        + decimal(p[3] as nat) + "]"@
}

/// Appends the debug notation of the RGBA8 pixel `p` to `s`.
pub fn append_rgba(s: &mut String, p: [u8; 4])
    ensures
        final(s)@ == old(s)@ + rgba_text(p),
{
    append_str(s, "[");
    append_decimal(s, p[0] as u64);
    append_str(s, ", ");
    append_decimal(s, p[1] as u64);
    append_str(s, ", ");
    append_decimal(s, p[2] as u64);
    append_str(s, ", ");
    append_decimal(s, p[3] as u64);
    append_str(s, "]");
    proof {
        assert(s@ =~= old(s)@ + rgba_text(p));
    }
}

} // verus!
