//! Amount display: rendering an integer wei value as a whole-unit decimal
//! with a fixed number of fractional digits. The conversion is exact integer
//! arithmetic, truncating toward zero; it is meant for display only.

use vstd::prelude::*;
use vstd::string::StringExecFns;
use crate::hexcodec::hex_digit_char;

verus! {

/// Number of wei (subunits) in one whole unit of the native currency.
pub const WEI_PER_ETH: u128 = 1_000_000_000_000_000_000;

pub open spec fn pow10(n: nat) -> int
    decreases n,
{
    if n == 0 {
        1
    } else {
        10 * pow10((n - 1) as nat)
    }
}

pub proof fn lemma_pow10_pos(n: nat)
    ensures
        pow10(n) >= 1,
    decreases n,
{
    if n > 0 {
        lemma_pow10_pos((n - 1) as nat);
    }
}

pub proof fn lemma_pow10_le(a: nat, b: nat)
    requires
        a <= b,
    ensures
        pow10(a) <= pow10(b),
    decreases b,
{
    if a < b {
        lemma_pow10_le(a, (b - 1) as nat);
        lemma_pow10_pos((b - 1) as nat);
    }
}

/// The minimal decimal rendering of n: no leading zeros, "0" for zero.
pub open spec fn dec_min(n: nat) -> Seq<char>
    decreases n,
{
    if n < 10 {
        seq![hex_digit_char(n as int)]
    } else {
        dec_min(n / 10).push(hex_digit_char((n % 10) as int))
    }
}

/// The decimal rendering of n in exactly w digits, zero-padded, keeping the
/// w low-order digits.
pub open spec fn dec_fixed(n: nat, w: nat) -> Seq<char>
    decreases w,
{
    if w == 0 {
        Seq::empty()
    } else {
        dec_fixed(n / 10, (w - 1) as nat).push(hex_digit_char((n % 10) as int))
    }
}

/// A wei value rendered in whole units: the integer part, a dot, then the
/// first `decimals` fractional digits (truncated, zero-padded).
pub open spec fn eth_display(wei: nat, decimals: nat) -> Seq<char> {
    dec_min(wei / (WEI_PER_ETH as nat)) + seq!['.'] + dec_fixed(
        (((wei % (WEI_PER_ETH as nat)) as int / pow10((18 - decimals) as nat)) as nat),
        decimals,
    )
}

/// The one-character string for a decimal digit.
fn digit_str(d: u8) -> (r: &'static str)
    requires
        d < 10,
    ensures
        r@ =~= seq![hex_digit_char(d as int)],
{
    proof {
        reveal_strlit("0");
        reveal_strlit("1");
        reveal_strlit("2");
        reveal_strlit("3");
        reveal_strlit("4");
        reveal_strlit("5");
        reveal_strlit("6");
        reveal_strlit("7");
        reveal_strlit("8");
        reveal_strlit("9");
    }
    match d {
        0 => "0",
        1 => "1",
        2 => "2",
        3 => "3",
        4 => "4",
        5 => "5",
        6 => "6",
        7 => "7",
        8 => "8",
        _ => "9",
    }
}

/// The minimal decimal rendering of a value.
pub fn dec_str(n: u128) -> (r: String)
    ensures
        r@ == dec_min(n as nat),
    decreases n,
{
    if n < 10 {
        String::from_str(digit_str(n as u8))
    } else {
        let mut s = dec_str(n / 10);
        s.append(digit_str((n % 10) as u8));
        proof {
            assert(s@ =~= dec_min(n as nat));
        }
        s
    }
}

/// The decimal rendering of a value in exactly w digits, zero-padded.
pub fn dec_fixed_str(n: u128, w: usize) -> (r: String)
    ensures
        r@ == dec_fixed(n as nat, w as nat),
    decreases w,
{
    if w == 0 {
        let s = String::new();
        proof {
            assert(s@ =~= dec_fixed(n as nat, 0));
        }
        s
    } else {
        let mut s = dec_fixed_str(n / 10, w - 1);
        s.append(digit_str((n % 10) as u8));
        proof {
            assert(s@ =~= dec_fixed(n as nat, w as nat));
        }
        s
    }
}

/// Ten to the power e.
fn pow10_u128(e: usize) -> (r: u128)
    requires
        e <= 18,
    ensures
        r as int == pow10(e as nat),
        r >= 1,
{
    proof {
        lemma_pow10_pos(e as nat);
    }
    let mut r: u128 = 1;
    let mut i: usize = 0;
    while i < e
        invariant
            i <= e <= 18,
            r as int == pow10(i as nat),
        decreases e - i,
    {
        proof {
            lemma_pow10_le((i + 1) as nat, 18);
            assert(pow10(18) == 1_000_000_000_000_000_000) by {
                reveal_with_fuel(pow10, 19);
            }
        }
        r = r * 10;
        i = i + 1;
    }
    proof {
        lemma_pow10_pos(e as nat);
    }
    r
}

/// Render a wei amount in whole units of the native currency, with exactly
/// `decimals` fractional digits. The fractional part is truncated toward
/// zero, not rounded: the rendering is exact up to the digits shown.
pub fn format_wei_as_eth(wei: u128, decimals: usize) -> (r: String)
    requires
        1 <= decimals <= 18,
    ensures
        r@ == eth_display(wei as nat, decimals as nat),
{
    proof {
        reveal_strlit(".");
    }
    let whole = wei / WEI_PER_ETH;
    let frac = wei % WEI_PER_ETH;
    let scale = pow10_u128(18 - decimals);
    let frac_scaled = frac / scale;
    let mut s = dec_str(whole);
    s.append(".");
    let fs = dec_fixed_str(frac_scaled, decimals);
    s.append(fs.as_str());
    proof {
        assert("."@ =~= seq!['.']);
        assert(s@ =~= eth_display(wei as nat, decimals as nat));
    }
    s
}

} // verus!
