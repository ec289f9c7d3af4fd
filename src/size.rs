//! Human-readable rendering of byte counts.
use vstd::prelude::*;
use vstd::string::StringExecFns;

verus! {

pub const KB: u64 = 1024;

pub const MB: u64 = 1048576;

pub const GB: u64 = 1073741824;

/// The character of a decimal digit.
pub open spec fn digit_char(d: nat) -> char {
    seq!['0', '1', '2', '3', '4', '5', '6', '7', '8', '9'][d as int]
}

/// The decimal numeral of `n`, without sign or leading zeros.
pub open spec fn decimal(n: nat) -> Seq<char>
    decreases n,
{
    if n < 10 {
        seq![digit_char(n)]
    } else {
        decimal(n / 10) + seq![digit_char(n % 10)]
    }
}

/// `10 * bytes / unit`, rounded to the nearest integer, ties to the even one.
pub open spec fn tenths(bytes: nat, unit: nat) -> nat
    recommends
        unit > 0,
{
    let q = (bytes * 10) / unit;
    let r = (bytes * 10) % unit;
    if 2 * r > unit || (2 * r == unit && q % 2 == 1) {
        q + 1
    } else {
        q
    }
}

/// `bytes / unit` with one decimal place, followed by the unit's suffix.
pub open spec fn scaled_text(bytes: nat, unit: nat, suffix: Seq<char>) -> Seq<char> {
    let t = tenths(bytes, unit);
    decimal(t / 10) + seq!['.'] + decimal(t % 10) + suffix
}

/// The text `format_bytes` gives for `bytes`.
pub open spec fn format_bytes_spec(bytes: nat) -> Seq<char> {
    if bytes >= GB {
        scaled_text(bytes, GB as nat, " GB"@)
    } else if bytes >= MB {
        scaled_text(bytes, MB as nat, " MB"@)
    } else if bytes >= KB {
        scaled_text(bytes, KB as nat, " KB"@)
    } else {
        decimal(bytes) + " B"@
    }
}

/// Relies on `u128::to_string` (through `Display`): the decimal numeral.
#[verifier::external_body]
fn decimal_text(n: u128) -> (r: String)
    ensures
        r@ == decimal(n as nat),
{
    n.to_string()
}

fn scaled(bytes: u64, unit: u64, suffix: &str) -> (r: String)
    requires
        unit >= 1024,
    ensures
        r@ == scaled_text(bytes as nat, unit as nat, suffix@),
{
    let x: u128 = (bytes as u128) * 10;
    let u: u128 = unit as u128;
    let q: u128 = x / u;
    let rem: u128 = x % u;
    assert(q <= x) by (nonlinear_arith)
        requires
            q == x / u,
            u >= 1,
            x >= 0,
    ;
    let t: u128 = if 2 * rem > u || (2 * rem == u && q % 2 == 1) {
        q + 1
    } else {
        q
    };
    let mut text = decimal_text(t / 10);
    text.append(".");
    let frac = decimal_text(t % 10);
    text.append(frac.as_str());
    text.append(suffix);
    proof {
        reveal_strlit(".");
    }
    text
}

/// Renders a byte count for people: whole bytes below one KiB, otherwise
/// the count in KB, MB or GB (units of 1024) with one decimal place.
pub fn format_bytes(bytes: u64) -> (r: String)
    ensures
        r@ == format_bytes_spec(bytes as nat),
{
    if bytes >= GB {
        scaled(bytes, GB, " GB")
    } else if bytes >= MB {
        scaled(bytes, MB, " MB")
    } else if bytes >= KB {
        scaled(bytes, KB, " KB")
    } else {
        let mut text = decimal_text(bytes as u128);
        text.append(" B");
        text
    }
}

} // verus!
