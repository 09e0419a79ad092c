use vstd::prelude::*;
use vstd::string::{StrSliceExecFns, StringExecFns};
use vstd::utf8::{decode_utf8, valid_utf8};

verus! {

/// What lossy UTF-8 decoding makes of a byte string.
pub uninterp spec fn lossy_utf8(bytes: Seq<u8>) -> Seq<char>;

/// Relies on `String::from_utf8_lossy`: invalid sequences become U+FFFD and
/// valid UTF-8 is decoded unchanged.
#[verifier::external_body]
pub(crate) fn decode_lossy(bytes: &Vec<u8>) -> (r: String)
    ensures
        r@ == lossy_utf8(bytes@),
        valid_utf8(bytes@) ==> r@ == decode_utf8(bytes@),
{
    String::from_utf8_lossy(bytes.as_slice()).into_owned()
}

/// Relies on `String::from_utf8`: it succeeds exactly on valid UTF-8.
#[verifier::external_body]
pub(crate) fn decode_strict(bytes: Vec<u8>) -> (r: Option<String>)
    ensures
        r is Some <==> valid_utf8(bytes@),
        r matches Some(s) ==> s@ == decode_utf8(bytes@),
{
    String::from_utf8(bytes).ok()
}

/// The decimal digits of a number, most significant first.
pub open spec fn decimal_text(n: nat) -> Seq<char>
    decreases n,
{
    if n < 10 {
        seq!["0123456789"@[n as int]]
    } else {
        decimal_text(n / 10) + seq!["0123456789"@[(n % 10) as int]]
    }
}

/// An IPv4 address as the service stores it (network byte order, so the
/// least significant byte is the first octet), in dotted-quad notation.
pub open spec fn ipv4_text(addr: u32) -> Seq<char> {
    decimal_text((addr % 256) as nat) + "."@ + decimal_text(((addr / 256) % 256) as nat) + "."@
        + decimal_text(((addr / 65536) % 256) as nat) + "."@ + decimal_text((addr / 16777216) as nat)
}

fn push_digit(out: &mut String, d: u8)
    requires
        d < 10,
    ensures
        final(out)@ == old(out)@ + seq!["0123456789"@[d as int]],
{
    proof { reveal_strlit("0123456789"); }
    let digits = "0123456789";
    let one = digits.substring_char(d as usize, d as usize + 1);
    assert(one@ =~= seq!["0123456789"@[d as int]]);
    out.append(one);
}

fn push_decimal(out: &mut String, n: u8)
    ensures
        final(out)@ == old(out)@ + decimal_text(n as nat),
{
    proof { reveal_with_fuel(decimal_text, 3); }
    if n >= 100 {
        push_digit(out, n / 100);
        push_digit(out, (n / 10) % 10);
        push_digit(out, n % 10);
        assert(decimal_text(n as nat) =~= seq!["0123456789"@[(n / 100) as int]]
            + seq!["0123456789"@[((n / 10) % 10) as int]] + seq!["0123456789"@[(n % 10) as int]]);
    } else if n >= 10 {
        push_digit(out, n / 10);
        push_digit(out, n % 10);
        assert(decimal_text(n as nat) =~= seq!["0123456789"@[(n / 10) as int]]
            + seq!["0123456789"@[(n % 10) as int]]);
    } else {
        push_digit(out, n);
    }
}

/// Renders an address read from the service as a dotted quad.
pub fn format_ipv4(addr: u32) -> (r: String)
    ensures
        r@ == ipv4_text(addr),
{
    let mut out = String::new();
    push_decimal(&mut out, (addr % 256) as u8);
    out.append(".");
    push_decimal(&mut out, ((addr / 256) % 256) as u8);
    out.append(".");
    push_decimal(&mut out, ((addr / 65536) % 256) as u8);
    out.append(".");
    push_decimal(&mut out, (addr / 16777216) as u8);
    assert(out@ =~= ipv4_text(addr));
    out
}

} // verus!
