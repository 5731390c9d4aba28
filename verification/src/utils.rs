//! Rendering a duration as `M:SS` text.

use vstd::prelude::*;
use vstd::string::StringExecFns;

verus! {

/// The character for one decimal digit.
pub open spec fn spec_digit_char(d: nat) -> char {
    if d == 0 {
        '0'
    } else if d == 1 {
        '1'
    } else if d == 2 {
        '2'
    } else if d == 3 {
        '3'
    } else if d == 4 {
        '4'
    } else if d == 5 {
        '5'
    } else if d == 6 {
        '6'
    } else if d == 7 {
        '7'
    } else if d == 8 {
        '8'
    } else {
        '9'
    }
}

/// The decimal digits of `n`, most significant first, with no leading
/// zeros (`0` itself is the single digit `0`).
pub open spec fn spec_decimal(n: nat) -> Seq<char>
    decreases n,
{
    if n < 10 {
        seq![spec_digit_char(n)]
    } else {
        spec_decimal(n / 10).push(spec_digit_char(n % 10))
    }
}

/// `M:SS`: whole minutes, a colon, and the leftover seconds padded to two
/// digits.
pub open spec fn spec_format_duration(secs: nat) -> Seq<char> {
    spec_decimal(secs / 60) + seq![':'] + (if secs % 60 < 10 {
        seq!['0']
    } else {
        Seq::<char>::empty()
    }) + spec_decimal(secs % 60)
}

/// One decimal digit as a one-character string slice.
fn digit_str(d: u64) -> (s: &'static str)
    requires
        d < 10,
    ensures
        s@ == seq![spec_digit_char(d as nat)],
{
    let s: &'static str = if d == 0 {
        "0"
    } else if d == 1 {
        "1"
    } else if d == 2 {
        "2"
    } else if d == 3 {
        "3"
    } else if d == 4 {
        "4"
    } else if d == 5 {
        "5"
    } else if d == 6 {
        "6"
    } else if d == 7 {
        "7"
    } else if d == 8 {
        "8"
    } else {
        "9"
    };
    proof {
        reveal_strlit("0");
        reveal_strlit("1");
        reveal_strlit("2");
        reveal_strlit("3");
        reveal_strlit("4");
        reveal_strlit("5");
        reveal_strlit("6");
        reveal_strlit("7");
        reveal_strlit("8");
        reveal_strlit("9");
        assert(s@ =~= seq![spec_digit_char(d as nat)]);
    }
    s
}

/// Append the decimal digits of `n` to `out`.
pub fn push_decimal(out: &mut String, n: u64)
    ensures
        final(out)@ == old(out)@ + spec_decimal(n as nat),
    decreases n,
{
    if n >= 10 {
        push_decimal(out, n / 10);
    }
    out.append(digit_str(n % 10));
    proof {
        assert(out@ =~= old(out)@ + spec_decimal(n as nat));
    }
}

/// Render a duration (seconds) as `M:SS` text, seconds zero-padded to two
/// digits.
pub fn format_duration(dur: u64) -> (out: String)
    ensures
        out@ == spec_format_duration(dur as nat),
{
    let mut out = String::new();
    push_decimal(&mut out, dur / 60);
    out.append(":");
    if dur % 60 < 10 {
        out.append("0");
    }
    push_decimal(&mut out, dur % 60);
    proof {
        reveal_strlit(":");
        reveal_strlit("0");
        assert(out@ =~= spec_format_duration(dur as nat));
    }
    out
}

} // verus!
