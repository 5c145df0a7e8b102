//! The tray tooltip text: `CPU: <usage>%` with the utilization printed to
//! exactly two decimal places. Utilization is carried in hundredths of a
//! percent, so the two decimal places are exact, never rounded.

use vstd::prelude::*;

verus! {

/// The decimal digit character for `d < 10`.
pub open spec fn digit_char(d: nat) -> char {
    if d == 0 {
        '0'
    } else if d == 1 {
        '1'
    } else if d == 2 {
        '2'
    } else if d == 3 {
        '3'
    } else if d == 4 {
        '4'
    } else if d == 5 {
        '5'
    } else if d == 6 {
        '6'
    } else if d == 7 {
        '7'
    } else if d == 8 {
        '8'
    } else {
        '9'
    }
}

/// The decimal digits of `n`, most significant first, with no leading zeros
/// except for `n == 0` itself.
pub open spec fn dec_chars(n: nat) -> Seq<char>
    decreases n,
{
    if n < 10 {
        seq![digit_char(n)]
    } else {
        dec_chars(n / 10) + seq![digit_char(n % 10)]
    }
}

/// The tooltip text for a utilization reading in hundredths of a percent:
/// `CPU: ` then the whole percents, a point, exactly two fractional digits,
/// and a percent sign.
pub open spec fn tooltip_chars(centi: nat) -> Seq<char> {
    seq!['C', 'P', 'U', ':', ' '] + dec_chars(centi / 100) + seq![
        '.',
        digit_char((centi % 100) / 10),
        digit_char(centi % 10),
        '%',
    ]
}

/// Appends the digit character for `d` to `s`.
fn push_digit(s: &mut String, d: u32)
    requires
        d < 10,
    ensures
        final(s)@ == old(s)@ + seq![digit_char(d as nat)],
{
    let lit: &str = match d {
        0 => "0",
        1 => "1",
        2 => "2",
        3 => "3",
        4 => "4",
        5 => "5",
        6 => "6",
        7 => "7",
        8 => "8",
        _ => "9",
    };
    proof {
        reveal_strlit("0");
        reveal_strlit("1");
        reveal_strlit("2");
        reveal_strlit("3");
        reveal_strlit("4");
        reveal_strlit("5");
        reveal_strlit("6");
        reveal_strlit("7");
        reveal_strlit("8");
        reveal_strlit("9");
        assert(lit@ =~= seq![digit_char(d as nat)]);
    }
    s.append(lit);
}

/// Appends the decimal digits of `n`, most significant first, to `s`.
fn push_dec(s: &mut String, n: u32)
    ensures
        final(s)@ == old(s)@ + dec_chars(n as nat),
    decreases n,
{
    if n < 10 {
        push_digit(s, n);
    } else {
        push_dec(s, n / 10);
        push_digit(s, n % 10);
        assert(final(s)@ =~= old(s)@ + dec_chars(n as nat));
    }
}

/// Builds the tooltip text for a utilization reading in hundredths of a
/// percent.
pub fn tooltip_text(usage_centi: u32) -> (r: String)
    ensures
        r@ == tooltip_chars(usage_centi as nat),
{
    let mut s = String::new();
    proof {
        reveal_strlit("CPU: ");
        assert("CPU: "@ =~= seq!['C', 'P', 'U', ':', ' ']);
    }
    s.append("CPU: ");
    push_dec(&mut s, usage_centi / 100);
    proof {
        reveal_strlit(".");
        assert("."@ =~= seq!['.']);
    }
    s.append(".");
    push_digit(&mut s, (usage_centi % 100) / 10);
    push_digit(&mut s, usage_centi % 10);
    proof {
        reveal_strlit("%");
        assert("%"@ =~= seq!['%']);
    }
    s.append("%");
    proof {
        assert((usage_centi % 100) as nat / 10 == (usage_centi as nat % 100) / 10);
        assert(s@ =~= tooltip_chars(usage_centi as nat));
    }
    s
}

} // verus!
