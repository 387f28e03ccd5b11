//! The figures of the sidebar's "Clear Canvas" item: how much memory the
//! viewer uses, as a percentage and in gibibytes.
use vstd::prelude::*;
use vstd::string::*;

use crate::arith::min;
use crate::text::{decimal, digit_char, push_decimal, push_digit};

verus! {

/// Bytes in one gibibyte.
pub const GIB_BYTES: u64 = 1073741824;

/// Memory use of the viewer process against the machine's physical memory.
#[derive(Clone, Copy, Debug, PartialEq, Eq, Structural)]
pub struct ProcessRamUsage {
    pub working_set_bytes: u64,
    pub total_physical_bytes: u64,
}

/// The share of physical memory in use, in whole percent rounded to nearest
/// (halves up), at most 100; 0 when the total is unknown.
pub open spec fn usage_percent_spec(working: int, total: int) -> int {
    if total == 0 {
        0
    } else {
        min((working * 100 + total / 2) / total, 100)
    }
}

/// `num / den` rounded to the nearest integer, halves to the even neighbour.
pub open spec fn div_round_even(num: int, den: int) -> int {
    let q = num / den;
    let r = num % den;
    if 2 * r > den || (2 * r == den && q % 2 == 1) {
        q + 1
    } else {
        q
    }
}

/// The spacing between neighbouring `f64` values around `b` (for `b < 2^64`):
/// 1 below 2^53, doubling at each further power of two.
pub open spec fn f64_spacing(b: int) -> int {
    if b < 9007199254740992 {
        1
    } else if b < 18014398509481984 {
        2
    } else if b < 36028797018963968 {
        4
    } else if b < 72057594037927936 {
        8
    } else if b < 144115188075855872 {
        16
    } else if b < 288230376151711744 {
        32
    } else if b < 576460752303423488 {
        64
    } else if b < 1152921504606846976 {
        128
    } else if b < 2305843009213693952 {
        256
    } else if b < 4611686018427387904 {
        512
    } else if b < 9223372036854775808 {
        1024
    } else {
        2048
    }
}

/// `b as f64`: the nearest `f64` to `b`, ties to even, as an integer.
pub open spec fn f64_of(b: int) -> int {
    div_round_even(b, f64_spacing(b)) * f64_spacing(b)
}

/// The text `format_ram_gib` gives for `bytes`: the size in GiB with no
/// decimal from 10 GB up, with one decimal below, each rounded to nearest with
/// halves to even, then `" GB"`.
pub open spec fn ram_gib_text(bytes: int) -> Seq<char> {
    let v = f64_of(bytes);
    if v >= 10 * GIB_BYTES {
        decimal(div_round_even(v, GIB_BYTES as int) as nat) + " GB"@
    } else {
        let t = div_round_even(v * 10, GIB_BYTES as int);
        decimal((t / 10) as nat).push('.').push(digit_char(t % 10)) + " GB"@
    }
}

/// `num / den` rounded half to even, on exact integers.
fn div_round_even_u128(num: u128, den: u128) -> (r: u128)
    requires
        den > 0,
        num / den < u128::MAX,
    ensures
        r == div_round_even(num as int, den as int),
{
    let q = num / den;
    let rem = num % den;
    if rem > den - rem || (rem == den - rem && q % 2 == 1) {
        q + 1
    } else {
        q
    }
}

fn f64_spacing_u64(b: u64) -> (r: u128)
    ensures
        r == f64_spacing(b as int),
{
    if b < 9007199254740992 {
        1
    } else if b < 18014398509481984 {
        2
    } else if b < 36028797018963968 {
        4
    } else if b < 72057594037927936 {
        8
    } else if b < 144115188075855872 {
        16
    } else if b < 288230376151711744 {
        32
    } else if b < 576460752303423488 {
        64
    } else if b < 1152921504606846976 {
        128
    } else if b < 2305843009213693952 {
        256
    } else if b < 4611686018427387904 {
        512
    } else if b < 9223372036854775808 {
        1024
    } else {
        2048
    }
}

/// A byte count in gibibytes as the sidebar shows it: `"1.5 GB"` below
/// 10 GiB, `"12 GB"` from 10 GiB up, rounded as `f64` formatting rounds.
pub fn format_ram_gib(bytes: u64) -> (r: String)
    ensures
        r@ == ram_gib_text(bytes as int),
{
    let spacing = f64_spacing_u64(bytes);
    let b = bytes as u128;
    let q = div_round_even_u128(b, spacing);
    proof {
        vstd::arithmetic::div_mod::lemma_fundamental_div_mod(b as int, spacing as int);
    }
    assert(q * spacing <= 36893488147419103232u128) by (nonlinear_arith)
        requires
            q <= b / spacing + 1,
            1 <= spacing <= 2048,
            b <= u64::MAX,
            b / spacing * spacing <= b,
    {
    }
    let v: u128 = q * spacing;
    let gib = GIB_BYTES as u128;
    let mut out = String::new();
    if v >= 10 * gib {
        let n = div_round_even_u128(v, gib);
        assert(n <= 17179869185);
        push_decimal(&mut out, n as u64);
    } else {
        let t = div_round_even_u128(v * 10, gib);
        assert(t <= 101);
        push_decimal(&mut out, (t / 10) as u64);
        out.append(".");
        push_digit(&mut out, (t % 10) as u64);
    }
    out.append(" GB");
    proof {
        reveal_strlit(".");
        reveal_strlit(" GB");
    }
    assert(out@ =~= ram_gib_text(bytes as int));
    out
}

impl ProcessRamUsage {
    /// The share of physical memory the process uses, in whole percent.
    pub fn usage_percent(&self) -> (r: u32)
        ensures
            r == usage_percent_spec(
                self.working_set_bytes as int,
                self.total_physical_bytes as int,
            ),
            r <= 100,
    {
        if self.total_physical_bytes == 0 {
            return 0;
        }
        let w = self.working_set_bytes as u128;
        let t = self.total_physical_bytes as u128;
        let p = (w * 100 + t / 2) / t;
        if p > 100 {
            100
        } else {
            p as u32
        }
    }

    /// The badge beside the item label: `"25%"`.
    pub fn percent_label(&self) -> (r: String)
        ensures
            r@ == decimal(
                usage_percent_spec(
                    self.working_set_bytes as int,
                    self.total_physical_bytes as int,
                ) as nat,
            ) + "%"@,
    {
        let mut out = String::new();
        push_decimal(&mut out, self.usage_percent() as u64);
        out.append("%");
        assert(out@ =~= decimal(
            usage_percent_spec(self.working_set_bytes as int, self.total_physical_bytes as int)
                as nat,
        ) + "%"@);
        out
    }

    /// The detail line under the label: `"1.5 GB / 16 GB"`.
    pub fn detail_label(&self) -> (r: String)
        ensures
            r@ == ram_gib_text(self.working_set_bytes as int) + " / "@ + ram_gib_text(
                self.total_physical_bytes as int,
            ),
    {
        let mut out = format_ram_gib(self.working_set_bytes);
        out.append(" / ");
        let total = format_ram_gib(self.total_physical_bytes);
        out.append(total.as_str());
        out
    }
}

} // verus!
