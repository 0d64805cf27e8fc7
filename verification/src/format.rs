//! Human-readable sizes, speeds and percentages, in base-1024 units with two
//! decimals, computed on integers.

use vstd::prelude::*;
use vstd::string::StringExecFns;
use crate::text::{decimal, digit_char, push_decimal};

verus! {

/// Bytes in a kilobyte.
pub const KB: u64 = 1024;

/// Bytes in a megabyte.
pub const MB: u64 = 1048576;

/// Bytes in a gigabyte.
pub const GB: u64 = 1073741824;

/// `num / den` rounded to the nearest whole number, a tie going to the even
/// neighbour.
pub open spec fn round_half_even(num: nat, den: nat) -> nat
    recommends
        den > 0,
{
    let q = num / den;
    let r = num % den;
    if 2 * r < den || (2 * r == den && q % 2 == 0) {
        q
    } else {
        q + 1
    }
}

/// A count of hundredths written with two decimals: 150 is `1.50`.
pub open spec fn fixed2(hundredths: nat) -> Seq<char> {
    decimal(hundredths / 100).push('.').push(digit_char((hundredths % 100) as int / 10)).push(
        digit_char((hundredths % 100) as int % 10),
    )
}

/// `num / den` written with two decimals.
pub open spec fn ratio2(num: nat, den: nat) -> Seq<char>
    recommends
        den > 0,
{
    fixed2(round_half_even(num * 100, den))
}

/// The text of a size of `bytes` bytes: in the largest of GB, MB and KB that
/// it reaches, with two decimals, or as a plain count of bytes below 1 KB.
pub open spec fn size_text(bytes: nat) -> Seq<char> {
    if bytes >= GB {
        ratio2(bytes, GB as nat) + " GB"@
    } else if bytes >= MB {
        ratio2(bytes, MB as nat) + " MB"@
    } else if bytes >= KB {
        ratio2(bytes, KB as nat) + " KB"@
    } else {
        decimal(bytes) + " bytes"@
    }
}

/// The text of a speed of `bytes_per_sec` bytes per second: that of the size,
/// with `/s` behind its unit.
pub open spec fn speed_text(bytes_per_sec: nat) -> Seq<char> {
    size_text(bytes_per_sec) + "/s"@
}

/// The text of `part` as a percentage of `whole`, with two decimals and a
/// percent sign.
pub open spec fn percent_text(part: nat, whole: nat) -> Seq<char>
    recommends
        whole > 0,
{
    ratio2(part * 100, whole).push('%')
}

/// Appends `num / den`, written with two decimals, to `out`.
pub fn push_ratio2(out: &mut String, num: u128, den: u64)
    requires
        den > 0,
        num <= 0xffff_ffff_ffff_ffff_ffff,
    ensures
        final(out)@ == old(out)@ + ratio2(num as nat, den as nat),
{
    let scaled: u128 = num * 100;
    let d: u128 = den as u128;
    let q: u128 = scaled / d;
    let r: u128 = scaled % d;
    assert(q <= scaled) by (nonlinear_arith)
        requires
            q == scaled / d,
            d >= 1,
    ;
    let h: u128 = if 2 * r < d || (2 * r == d && q % 2 == 0) {
        q
    } else {
        q + 1
    };
    assert(h == round_half_even((num * 100) as nat, den as nat));
    push_decimal(out, h / 100);
    let f: u8 = (h % 100) as u8;
    out.push('.');
    out.push((f / 10 + 48u8) as char);
    out.push((f % 10 + 48u8) as char);
    assert(final(out)@ =~= old(out)@ + ratio2(num as nat, den as nat));
}

/// The human-readable form of a size in bytes.
pub fn format_size(bytes: u64) -> (text: String)
    ensures
        text@ == size_text(bytes as nat),
{
    let mut out = String::new();
    if bytes >= GB {
        push_ratio2(&mut out, bytes as u128, GB);
        out.append(" GB");
    } else if bytes >= MB {
        push_ratio2(&mut out, bytes as u128, MB);
        out.append(" MB");
    } else if bytes >= KB {
        push_ratio2(&mut out, bytes as u128, KB);
        out.append(" KB");
    } else {
        push_decimal(&mut out, bytes as u128);
        out.append(" bytes");
    }
    assert(out@ =~= size_text(bytes as nat));
    out
}

/// The human-readable form of a speed in whole bytes per second.
pub fn format_speed(bytes_per_sec: u64) -> (text: String)
    ensures
        text@ == speed_text(bytes_per_sec as nat),
{
    let mut out = format_size(bytes_per_sec);
    out.append("/s");
    out
}

/// `part` as a percentage of `whole`, with two decimals.
pub fn format_percent(part: u64, whole: u64) -> (text: String)
    requires
        whole > 0,
    ensures
        text@ == percent_text(part as nat, whole as nat),
{
    let mut out = String::new();
    push_ratio2(&mut out, (part as u128) * 100, whole);
    out.push('%');
    assert(out@ =~= percent_text(part as nat, whole as nat));
    out
}

} // verus!
