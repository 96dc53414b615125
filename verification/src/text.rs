use vstd::prelude::*;

verus! {

/// The character of a decimal digit `d < 10`.
pub open spec fn digit_char(d: nat) -> char {
    if d == 0 { '0' }
    else if d == 1 { '1' }
    else if d == 2 { '2' }
    else if d == 3 { '3' }
    else if d == 4 { '4' }
    else if d == 5 { '5' }
    else if d == 6 { '6' }
    else if d == 7 { '7' }
    else if d == 8 { '8' }
    else { '9' }
}

/// The value of a decimal digit character, or `None` for any other character.
pub open spec fn char_digit(c: char) -> Option<nat> {
    if '0' <= c && c <= '9' { Some((c as nat - '0' as nat) as nat) } else { None }
}

/// `n` written in decimal, without leading zeros.
pub open spec fn decimal(n: nat) -> Seq<char>
    decreases n,
{
    if n < 10 {
        seq![digit_char(n)]
    } else {
        decimal(n / 10).push(digit_char(n % 10))
    }
}

/// A count of seconds as minutes and two-digit seconds, `m:ss`.
pub open spec fn clock_text(secs: nat) -> Seq<char> {
    decimal(secs / 60) + seq![':', digit_char((secs % 60) / 10), digit_char(secs % 10)]
}

/// Appends one character to a string.
/// Calls `String::push`, which adds the character at the end and changes nothing else.
#[verifier::external_body]
fn push_char(s: &mut String, c: char)
    ensures
        final(s)@ == old(s)@.push(c),
{
    s.push(c);
}

fn digit_to_char(d: u64) -> (c: char)
    requires
        d < 10,
    ensures
        c == digit_char(d as nat),
{
    if d == 0 { '0' }
    else if d == 1 { '1' }
    else if d == 2 { '2' }
    else if d == 3 { '3' }
    else if d == 4 { '4' }
    else if d == 5 { '5' }
    else if d == 6 { '6' }
    else if d == 7 { '7' }
    else if d == 8 { '8' }
    else { '9' }
}

fn push_decimal(out: &mut String, n: u64)
    ensures
        final(out)@ == old(out)@ + decimal(n as nat),
    decreases n,
{
    if n >= 10 {
        push_decimal(out, n / 10);
    }
    let c = digit_to_char(n % 10);
    push_char(out, c);
    proof {
        if n < 10 {
            assert(decimal(n as nat) == seq![digit_char(n as nat)]);
        }
    }
}

/// Appends `secs` as `m:ss` to `out`.
fn push_clock(out: &mut String, secs: u64)
    ensures
        final(out)@ == old(out)@ + clock_text(secs as nat),
{
    push_decimal(out, secs / 60);
    push_char(out, ':');
    let rem = secs % 60;
    push_char(out, digit_to_char(rem / 10));
    push_char(out, digit_to_char(rem % 10));
    assert((secs as nat % 60) % 10 == secs as nat % 10) by (nonlinear_arith);
}

/// The remaining time as the window shows it: minutes, a colon, two-digit seconds.
pub fn format_clock(secs: u64) -> (t: String)
    ensures
        t@ == clock_text(secs as nat),
{
    let mut out = String::new();
    push_clock(&mut out, secs);
    out
}

/// The tray tooltip for a countdown: `Alarm - m:ss`.
pub fn tray_tip(secs: u64) -> (t: String)
    ensures
        t@ == "Alarm - "@ + clock_text(secs as nat),
{
    let mut out = String::from_str("Alarm - ");
    push_clock(&mut out, secs);
    out
}

/// The greyed-out first line of the tray menu: `남은 시간: m:ss`.
pub fn remaining_menu_text(secs: u64) -> (t: String)
    ensures
        t@ == "남은 시간: "@ + clock_text(secs as nat),
{
    let mut out = String::from_str("남은 시간: ");
    push_clock(&mut out, secs);
    out
}

} // verus!
