//! Rendering of registry key names.
//!
//! The fixed keys of the catalog appear as string literals where they are
//! used; the per-level keys (`hw.perflevel<id>.<field>`) are rendered here,
//! with the decimal form of the level id pinned down by `spec_dec_digits`.

use vstd::prelude::*;
use vstd::string::StringExecFns;

verus! {

/// The decimal digit character for `d`, `0 <= d < 10`.
pub open spec fn spec_digit_char(d: int) -> char {
    if d == 0 {
        '0'
    } else if d == 1 {
        '1'
    } else if d == 2 {
        '2'
    } else if d == 3 {
        '3'
    } else if d == 4 {
        '4'
    } else if d == 5 {
        '5'
    } else if d == 6 {
        '6'
    } else if d == 7 {
        '7'
    } else if d == 8 {
        '8'
    } else {
        '9'
    }
}

/// Decimal rendering of `n`: most significant digit first, no leading zeros
/// (a single `'0'` for zero itself).
pub open spec fn spec_dec_digits(n: nat) -> Seq<char>
    decreases n,
{
    if n < 10 {
        seq![spec_digit_char(n as int)]
    } else {
        spec_dec_digits(n / 10) + seq![spec_digit_char((n % 10) as int)]
    }
}

/// The name of one per-level registry key: `hw.perflevel<id><suffix>`.
pub open spec fn spec_perf_key(id: int, suffix: Seq<char>) -> Seq<char> {
    "hw.perflevel"@ + spec_dec_digits(id as nat) + suffix
}

/// The key probed to decide whether performance level `id` exists.
pub open spec fn spec_probe_key(id: int) -> Seq<char> {
    spec_perf_key(id, ".l1icachesize"@)
}

fn digit_str(d: u32) -> (r: &'static str)
    requires
        d < 10,
    ensures
        r@ == seq![spec_digit_char(d as int)],
{
    proof {
        reveal_strlit("0");
        reveal_strlit("1");
        reveal_strlit("2");
        reveal_strlit("3");
        reveal_strlit("4");
        reveal_strlit("5");
        reveal_strlit("6");
        reveal_strlit("7");
        reveal_strlit("8");
        reveal_strlit("9");
    }
    let r: &'static str = match d {
        0 => "0",
        1 => "1",
        2 => "2",
        3 => "3",
        4 => "4",
        5 => "5",
        6 => "6",
        7 => "7",
        8 => "8",
        _ => "9",
    };
    proof {
        assert(r@ =~= seq![spec_digit_char(d as int)]);
    }
    r
}

/// Appends the decimal rendering of `n` to `s`.
fn push_dec_digits(s: &mut String, n: u32)
    ensures
        final(s)@ == old(s)@ + spec_dec_digits(n as nat),
    decreases n,
{
    if n < 10 {
        s.append(digit_str(n));
    } else {
        assert(n / 10 < n) by (nonlinear_arith)
            requires
                n >= 10,
        ;
        push_dec_digits(s, n / 10);
        s.append(digit_str(n % 10));
        proof {
            assert(s@ =~= old(s)@ + spec_dec_digits(n as nat));
        }
    }
}

/// Renders the name of one per-level registry key, `hw.perflevel<id><suffix>`.
pub fn perf_key(id: i32, suffix: &str) -> (r: String)
    requires
        0 <= id,
    ensures
        r@ == spec_perf_key(id as int, suffix@),
{
    let mut s: String = "hw.perflevel".to_owned();
    push_dec_digits(&mut s, id as u32);
    s.append(suffix);
    proof {
        assert(s@ =~= spec_perf_key(id as int, suffix@));
    }
    s
}

} // verus!
