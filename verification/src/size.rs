//! Byte sizes for people.
use crate::text::{decimal, decimal_string};
use vstd::prelude::*;
use vstd::string::*;

verus! {

/// `n / d` to the nearest integer, halves to the even one.
pub open spec fn nearest_even(n: nat, d: nat) -> nat {
    let q = n / d;
    let r = n % d;
    if 2 * r < d {
        q
    } else if 2 * r > d {
        q + 1
    } else {
        q + q % 2
    }
}

/// The distance between neighbouring doubles around `n`: the smallest power
/// of two, from `unit` on, of which `n` holds fewer than 2^53.
pub open spec fn double_unit(n: nat, unit: nat) -> nat
    decreases
            (if n >= unit {
                n - unit
            } else {
                0
            }),
{
    if unit == 0 || n < 9007199254740992 * unit {
        unit
    } else {
        double_unit(n, 2 * unit)
    }
}

/// The double nearest to `n`.
pub open spec fn as_double(n: nat) -> nat {
    nearest_even(n, double_unit(n, 1)) * double_unit(n, 1)
}

/// The bytes of one unit of the given name.
pub open spec fn tenths_text(bytes: nat, unit: nat, name: Seq<char>) -> Seq<char> {
    let tenths = nearest_even(as_double(bytes) * 10, unit);
    decimal(tenths / 10) + "."@ + decimal(tenths % 10) + name
}

/// "512 B", "2.4 KB", "5.7 MB" or "1.2 GB": the size in the largest unit that
/// it reaches, to one decimal.
pub open spec fn size_text(bytes: nat) -> Seq<char> {
    if bytes >= 1073741824 {
        tenths_text(bytes, 1073741824, " GB"@)
    } else if bytes >= 1048576 {
        tenths_text(bytes, 1048576, " MB"@)
    } else if bytes >= 1024 {
        tenths_text(bytes, 1024, " KB"@)
    } else {
        decimal(bytes) + " B"@
    }
}

fn round_div(n: u128, d: u128) -> (r: u128)
    requires
        0 < d,
        n < 0x1000_0000_0000_0000_0000_0000,
        d < 0x1000_0000_0000_0000_0000_0000,
    ensures
        r == nearest_even(n as nat, d as nat),
{
    let q: u128 = n / d;
    let r: u128 = n % d;
    assert(q <= n) by (nonlinear_arith)
        requires
            q == n / d,
            0 < d,
            0 <= n,
    ;
    if 2 * r < d {
        q
    } else if 2 * r > d {
        q + 1
    } else {
        q + q % 2
    }
}

/// The unit that `double_unit` finds leaves room: it is at most twice the
/// share of `n`.
proof fn lemma_unit(n: nat, unit: nat)
    requires
        unit > 0,
        n < 0x1_0000_0000_0000_0000,
        unit <= 2048,
    ensures
        unit <= double_unit(n, unit) <= 4096,
        n < 9007199254740992 * double_unit(n, unit),
    decreases 2048 - unit,
{
    if n >= 9007199254740992 * unit {
        assert(unit < 2048);
        if 2 * unit <= 2048 {
            lemma_unit(n, 2 * unit);
        }
        assert(double_unit(n, 2 * unit) == 2 * unit || 2 * unit <= 2048);
    }
}

fn to_double(n: u64) -> (r: u128)
    ensures
        r == as_double(n as nat),
        r <= 0x2_0000_0000_0000_0000,
{
    let mut unit: u128 = 1;
    while n as u128 >= 9007199254740992 * unit
        invariant
            1 <= unit <= 4096,
            unit <= 2048 || n < 9007199254740992 * unit,
            double_unit(n as nat, unit as nat) == double_unit(n as nat, 1),
        decreases 8192 - unit,
    {
        proof {
            lemma_unit(n as nat, unit as nat);
        }
        unit = 2 * unit;
    }
    let q: u128 = round_div(n as u128, unit);
    proof {
        let m = n as nat;
        let u = unit as nat;
        assert(m / u <= 9007199254740992) by (nonlinear_arith)
            requires
                m < 9007199254740992 * u,
                u > 0,
        ;
        assert(q <= 9007199254740993);
        assert(q * unit <= 9007199254740993 * 4096) by (nonlinear_arith)
            requires
                q <= 9007199254740993,
                unit <= 4096,
        ;
        assert(q * unit <= m + u) by (nonlinear_arith)
            requires
                q <= m / u + 1,
                u == unit,
                u > 0,
        ;
    }
    q * unit
}

fn tenths_string(bytes: u64, unit: u64, name: &str) -> (r: String)
    requires
        1024 <= unit <= 1073741824,
        bytes >= 1073741824 ==> unit == 1073741824,
    ensures
        r@ == tenths_text(bytes as nat, unit as nat, name@),
{
    let d: u128 = to_double(bytes);
    let tenths: u128 = round_div(d * 10, unit as u128);
    assert(tenths <= 0xffff_ffff_ffff_ffff) by {
        let n = (d * 10) as nat;
        let u = unit as nat;
        assert(n / u <= n / 1024) by (nonlinear_arith)
            requires
                u >= 1024,
                n >= 0,
        ;
    }
    let mut s = decimal_string((tenths / 10) as u64);
    s.append(".");
    s.append(decimal_string((tenths % 10) as u64).as_str());
    s.append(name);
    s
}

/// A byte size to one decimal in the unit that fits it.
pub fn human_bytes(bytes: u64) -> (r: String)
    ensures
        r@ == size_text(bytes as nat),
{
    if bytes >= 1073741824 {
        tenths_string(bytes, 1073741824, " GB")
    } else if bytes >= 1048576 {
        tenths_string(bytes, 1048576, " MB")
    } else if bytes >= 1024 {
        tenths_string(bytes, 1024, " KB")
    } else {
        let mut s = decimal_string(bytes);
        s.append(" B");
        s
    }
}

} // verus!
