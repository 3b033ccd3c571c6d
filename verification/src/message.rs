//! The wording of an alert.

use vstd::prelude::*;
use vstd::string::*;
use crate::weather::UNITS_PER_MM;

verus! {

/// The character of a decimal digit.
pub open spec fn digit(d: nat) -> char
    recommends
        d < 10,
{
    if d == 0 {
        '0'
    } else if d == 1 {
        '1'
    } else if d == 2 {
        '2'
    } else if d == 3 {
        '3'
    } else if d == 4 {
        '4'
    } else if d == 5 {
        '5'
    } else if d == 6 {
        '6'
    } else if d == 7 {
        '7'
    } else if d == 8 {
        '8'
    } else {
        '9'
    }
}

/// A number in decimal digits, without leading zeros.
pub open spec fn decimal(n: nat) -> Seq<char>
    decreases n,
{
    if n < 10 {
        seq![digit(n)]
    } else {
        decimal(n / 10).push(digit(n % 10))
    }
}

/// An amount of thousandths of a millimetre in millimetres: the whole
/// millimetres, a point, and three decimal places.
pub open spec fn millimetres(amount: nat) -> Seq<char> {
    decimal(amount / (UNITS_PER_MM as nat)) + seq![
        '.',
        digit(amount / 100 % 10),
        digit(amount / 10 % 10),
        digit(amount % 10),
    ]
}

/// The line that announces rain at a location: the location, how many
/// readings report rain, the time, and the smallest and the mean rainfall in
/// millimetres.
pub open spec fn alert_text(
    location: Seq<char>,
    count: nat,
    time: Seq<char>,
    min: nat,
    avg: nat,
) -> Seq<char> {
    "\u{1F4A7}"@ + location + " ("@ + decimal(count) + " stn) at "@ + time + ". Min: "@
        + millimetres(min) + "mm, Avg: "@ + millimetres(avg) + "mm"@
}

/// The text of one decimal digit.
fn digit_text(d: u64) -> (s: &'static str)
    requires
        d < 10,
    ensures
        s@ == seq![digit(d as nat)],
{
    proof {
        reveal_strlit("0");
        reveal_strlit("1");
        reveal_strlit("2");
        reveal_strlit("3");
        reveal_strlit("4");
        reveal_strlit("5");
        reveal_strlit("6");
        reveal_strlit("7");
        reveal_strlit("8");
        reveal_strlit("9");
    }
    let s = if d == 0 {
        "0"
    } else if d == 1 {
        "1"
    } else if d == 2 {
        "2"
    } else if d == 3 {
        "3"
    } else if d == 4 {
        "4"
    } else if d == 5 {
        "5"
    } else if d == 6 {
        "6"
    } else if d == 7 {
        "7"
    } else if d == 8 {
        "8"
    } else {
        "9"
    };
    assert(s@ =~= seq![digit(d as nat)]);
    s
}

/// Appends a number in decimal digits.
fn push_decimal(out: &mut String, n: u64)
    ensures
        final(out)@ == old(out)@ + decimal(n as nat),
    decreases n,
{
    if n >= 10 {
        push_decimal(out, n / 10);
    }
    out.append(digit_text(n % 10));
    assert(final(out)@ =~= old(out)@ + decimal(n as nat));
}

/// Appends an amount of thousandths of a millimetre, in millimetres.
fn push_millimetres(out: &mut String, amount: u32)
    ensures
        final(out)@ == old(out)@ + millimetres(amount as nat),
{
    let a: u64 = amount as u64;
    push_decimal(out, a / (UNITS_PER_MM as u64));
    out.append(".");
    out.append(digit_text(a / 100 % 10));
    out.append(digit_text(a / 10 % 10));
    out.append(digit_text(a % 10));
    proof {
        reveal_strlit(".");
        assert("."@ =~= seq!['.']);
        assert(final(out)@ =~= old(out)@ + millimetres(amount as nat));
    }
}

/// A number in decimal digits.
pub fn render_decimal(n: u64) -> (s: String)
    ensures
        s@ == decimal(n as nat),
{
    let mut s = String::new();
    push_decimal(&mut s, n);
    assert(s@ =~= decimal(n as nat));
    s
}

/// An amount of thousandths of a millimetre, in millimetres with three
/// decimal places.
pub fn render_millimetres(amount: u32) -> (s: String)
    ensures
        s@ == millimetres(amount as nat),
{
    let mut s = String::new();
    push_millimetres(&mut s, amount);
    assert(s@ =~= millimetres(amount as nat));
    s
}

/// The line that announces rain at a location.
pub fn alert_message(location: &str, count: usize, time_label: &str, min: u32, avg: u32) -> (s:
    String)
    ensures
        s@ == alert_text(location@, count as nat, time_label@, min as nat, avg as nat),
{
    let mut s = String::new();
    s.append("\u{1F4A7}");
    s.append(location);
    s.append(" (");
    push_decimal(&mut s, count as u64);
    s.append(" stn) at ");
    s.append(time_label);
    s.append(". Min: ");
    push_millimetres(&mut s, min);
    s.append("mm, Avg: ");
    push_millimetres(&mut s, avg);
    s.append("mm");
    assert(s@ =~= alert_text(location@, count as nat, time_label@, min as nat, avg as nat));
    s
}

} // verus!
