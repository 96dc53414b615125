use vstd::prelude::*;
use vstd::string::StrSliceExecFns;
use crate::text::{clock_text, decimal, digit_char};

verus! {

/// The countdown length used when neither the command line nor the
/// environment names one.
pub const DEFAULT_RESET_SECS: u64 = 110;

/// The value of a decimal digit character.
pub open spec fn digit_value(c: char) -> nat {
    (c as nat - '0' as nat) as nat
}

/// Whether every character of `d` is an ASCII decimal digit.
pub open spec fn all_digits(d: Seq<char>) -> bool {
    forall|i: int| 0 <= i < d.len() ==> '0' <= #[trigger] d[i] && d[i] <= '9'
}

/// The number that the digits `d` denote in decimal.
pub open spec fn digits_value(d: Seq<char>) -> nat
    decreases d.len(),
{
    if d.len() == 0 {
        0
    } else {
        digits_value(d.drop_last()) * 10 + digit_value(d.last())
    }
}

/// The digits of an unsigned number: the text without one leading `+`.
pub open spec fn unsigned_digits(s: Seq<char>) -> Seq<char> {
    if s.len() > 0 && s[0] == '+' { s.drop_first() } else { s }
}

/// How a text reads as a `u64`: an optional `+`, then one or more decimal
/// digits whose value fits in 64 bits; anything else reads as nothing.
pub open spec fn parse_u64_spec(s: Seq<char>) -> Option<u64> {
    let d = unsigned_digits(s);
    if d.len() > 0 && all_digits(d) && digits_value(d) <= u64::MAX {
        Some(digits_value(d) as u64)
    } else {
        None
    }
}

/// Whether a command-line word asks for the next word to be read as the length.
pub open spec fn is_seconds_flag(a: Seq<char>) -> bool {
    a == "--seconds"@ || a == "-s"@
}

/// The first countdown length that the words `args[i..]` name: the word after
/// `--seconds` or `-s` (a word after such a flag that is no number is skipped
/// together with the flag), or any other word that is a number.
pub open spec fn scan_args(args: Seq<Seq<char>>, i: int) -> Option<u64>
    decreases args.len() - i,
{
    if i < 0 || i >= args.len() {
        None
    } else if is_seconds_flag(args[i]) {
        if i + 1 < args.len() {
            match parse_u64_spec(args[i + 1]) {
                Some(n) => Some(n),
                None => scan_args(args, i + 2),
            }
        } else {
            None
        }
    } else {
        match parse_u64_spec(args[i]) {
            Some(n) => Some(n),
            None => scan_args(args, i + 1),
        }
    }
}

/// The countdown length named by the command line, else by the value of the
/// `DEBUG_TIMER` variable, else none.
pub open spec fn resolve_spec(args: Seq<Seq<char>>, debug_timer: Option<Seq<char>>) -> Option<u64> {
    match scan_args(args, 0) {
        Some(n) => Some(n),
        None => match debug_timer {
            Some(v) => parse_u64_spec(v),
            None => None,
        },
    }
}

/// The views of the command-line words.
pub open spec fn words(args: Seq<String>) -> Seq<Seq<char>> {
    args.map_values(|a: String| a@)
}

/// The view of an optional text.
pub open spec fn opt_text(t: Option<&str>) -> Option<Seq<char>> {
    match t {
        Some(v) => Some(v@),
        None => None,
    }
}

proof fn lemma_prefix_value_le(d: Seq<char>, k: int)
    requires
        0 <= k <= d.len(),
    ensures
        digits_value(d.subrange(0, k)) <= digits_value(d),
    decreases d.len(),
{
    if k < d.len() {
        lemma_prefix_value_le(d.drop_last(), k);
        assert(d.drop_last().subrange(0, k) =~= d.subrange(0, k));
    } else {
        assert(d.subrange(0, k) =~= d);
    }
}

/// Reads a text as a `u64` the way the standard library's `parse::<u64>` does.
pub fn parse_u64(s: &str) -> (r: Option<u64>)
    ensures
        r == parse_u64_spec(s@),
{
    let n = s.unicode_len();
    let mut start: usize = 0;
    if n > 0 && s.get_char(0) == '+' {
        start = 1;
    }
    let ghost d = unsigned_digits(s@);
    assert(d =~= s@.subrange(start as int, n as int));
    if start >= n {
        return None;
    }
    let mut acc: u64 = 0;
    let mut i: usize = start;
    while i < n
        invariant
            n == s@.len(),
            start < n,
            start <= i <= n,
            d == s@.subrange(start as int, n as int),
            d == unsigned_digits(s@),
            all_digits(d.subrange(0, i - start)),
            acc == digits_value(d.subrange(0, i - start)),
        decreases n - i,
    {
        let c = s.get_char(i);
        let ghost k: int = i - start;
        assert(d[k] == c);
        if c < '0' || c > '9' {
            assert(!all_digits(d));
            return None;
        }
        let dv: u64 = (c as u32 - '0' as u32) as u64;
        assert(d.subrange(0, k + 1).drop_last() =~= d.subrange(0, k));
        if acc > (u64::MAX - dv) / 10 {
            proof {
                assert(acc * 10 + dv > u64::MAX) by (nonlinear_arith)
                    requires
                        acc > (u64::MAX - dv) / 10,
                        dv <= 9,
                ;
                if all_digits(d) {
                    lemma_prefix_value_le(d, k + 1);
                }
            }
            return None;
        }
        assert(acc * 10 + dv <= u64::MAX) by (nonlinear_arith)
            requires
                acc <= (u64::MAX - dv) / 10,
                dv <= 9,
        ;
        acc = acc * 10 + dv;
        i += 1;
    }
    assert(d.subrange(0, n - start) =~= d);
    Some(acc)
}

fn same_text(a: &str, b: &str) -> (r: bool)
    ensures
        r == (a@ == b@),
{
    let n = a.unicode_len();
    if n != b.unicode_len() {
        return false;
    }
    let mut i: usize = 0;
    while i < n
        invariant
            n == a@.len(),
            n == b@.len(),
            i <= n,
            forall|j: int| 0 <= j < i ==> a@[j] == b@[j],
        decreases n - i,
    {
        if a.get_char(i) != b.get_char(i) {
            return false;
        }
        i += 1;
    }
    assert(a@ =~= b@);
    true
}

/// The countdown length that the command line `args` (the words after the
/// program's name) or, failing that, the `DEBUG_TIMER` value asks for.
pub fn resolve_reset_secs(args: &Vec<String>, debug_timer: Option<&str>) -> (r: Option<u64>)
    ensures
        r == resolve_spec(words(args@), opt_text(debug_timer)),
{
    let ghost w = words(args@);
    let len = args.len();
    let mut i: usize = 0;
    while i < len
        invariant
            len == args@.len(),
            w == words(args@),
            w.len() == len,
            i <= len + 1,
            scan_args(w, 0) == scan_args(w, i as int),
        decreases len - i,
    {
        let arg = args[i].as_str();
        assert(arg@ == w[i as int]);
        if same_text(arg, "--seconds") || same_text(arg, "-s") {
            if i + 1 < len {
                let v = args[i + 1].as_str();
                assert(v@ == w[i + 1]);
                match parse_u64(v) {
                    Some(n) => return Some(n),
                    None => {},
                }
                i += 2;
            } else {
                i = len;
            }
        } else {
            match parse_u64(arg) {
                Some(n) => return Some(n),
                None => {},
            }
            i += 1;
        }
    }
    match debug_timer {
        Some(v) => parse_u64(v),
        None => None,
    }
}

/// The countdown length the program starts with: the one that
/// [`resolve_reset_secs`] finds, else [`DEFAULT_RESET_SECS`].
pub fn startup_reset_secs(args: &Vec<String>, debug_timer: Option<&str>) -> (secs: u64)
    ensures
        secs == (match resolve_spec(words(args@), opt_text(debug_timer)) {
            Some(n) => n,
            None => DEFAULT_RESET_SECS,
        }),
{
    match resolve_reset_secs(args, debug_timer) {
        Some(n) => n,
        None => DEFAULT_RESET_SECS,
    }
}

proof fn lemma_digit_char_value(d: nat)
    requires
        d < 10,
    ensures
        '0' <= digit_char(d) <= '9',
        digit_value(digit_char(d)) == d,
        digit_char(d) != '+',
{
}

/// Every number written in decimal reads back as itself: its text is a
/// non-empty run of digits, with no sign, whose value is the number.
pub proof fn lemma_decimal_reads_back(n: nat)
    ensures
        decimal(n).len() > 0,
        all_digits(decimal(n)),
        digits_value(decimal(n)) == n,
        decimal(n)[0] != '+',
    decreases n,
{
    if n < 10 {
        lemma_digit_char_value(n);
        assert(decimal(n) == seq![digit_char(n)]);
        assert(decimal(n).drop_last() =~= Seq::<char>::empty());
        assert(digits_value(Seq::<char>::empty()) == 0);
    } else {
        lemma_decimal_reads_back(n / 10);
        lemma_digit_char_value(n % 10);
        let d = decimal(n);
        assert(d == decimal(n / 10).push(digit_char(n % 10)));
        assert(d.drop_last() =~= decimal(n / 10));
        assert(d[0] == decimal(n / 10)[0]);
        assert forall|i: int| 0 <= i < d.len() implies '0' <= #[trigger] d[i] && d[i] <= '9' by {
            if i < d.len() - 1 {
                assert(d[i] == decimal(n / 10)[i]);
            }
        }
    }
}

/// Every `u64`, written in decimal, parses back to itself.
pub proof fn lemma_parse_decimal(n: u64)
    ensures
        parse_u64_spec(decimal(n as nat)) == Some(n),
{
    lemma_decimal_reads_back(n as nat);
    assert(unsigned_digits(decimal(n as nat)) == decimal(n as nat));
}

/// A command line that starts with `--seconds` or `-s` followed by a number
/// runs the countdown for that number of seconds, whatever else follows and
/// whatever the environment says.
pub proof fn lemma_seconds_flag_names_length(
    args: Seq<Seq<char>>,
    debug_timer: Option<Seq<char>>,
    n: u64,
)
    requires
        args.len() >= 2,
        args[0] == "--seconds"@ || args[0] == "-s"@,
        parse_u64_spec(args[1]) == Some(n),
    ensures
        resolve_spec(args, debug_timer) == Some(n),
{
}

/// In particular the flag followed by any `u64` in decimal gives that length.
pub proof fn lemma_seconds_flag_decimal(args: Seq<Seq<char>>, debug_timer: Option<Seq<char>>, n: u64)
    requires
        args.len() >= 2,
        args[0] == "--seconds"@ || args[0] == "-s"@,
        args[1] == decimal(n as nat),
    ensures
        resolve_spec(args, debug_timer) == Some(n),
{
    lemma_parse_decimal(n);
}

/// A command line whose first word is a number (and no flag) runs the
/// countdown for that number of seconds.
pub proof fn lemma_bare_number_names_length(
    args: Seq<Seq<char>>,
    debug_timer: Option<Seq<char>>,
    n: u64,
)
    requires
        args.len() >= 1,
        args[0] != "--seconds"@,
        args[0] != "-s"@,
        parse_u64_spec(args[0]) == Some(n),
    ensures
        resolve_spec(args, debug_timer) == Some(n),
{
}

/// With no command line at all, a `DEBUG_TIMER` value that is a number gives
/// the length, and without one there is none (the program then uses 110).
pub proof fn lemma_empty_command_line(debug_timer: Option<Seq<char>>)
    ensures
        resolve_spec(Seq::empty(), debug_timer) == (match debug_timer {
            Some(v) => parse_u64_spec(v),
            None => None,
        }),
{
}

/// The clock text of any count reads back as that count: the digits before
/// the colon are the whole minutes, and the two digits after it are the
/// remaining seconds.
pub proof fn lemma_clock_text_reads_back(secs: nat)
    ensures
        ({
            let t = clock_text(secs);
            let m = decimal(secs / 60);
            let ss = t.subrange(m.len() as int + 1, t.len() as int);
            &&& t.len() == m.len() + 3
            &&& t.subrange(0, m.len() as int) == m
            &&& digits_value(m) == secs / 60
            &&& t[m.len() as int] == ':'
            &&& ss.len() == 2
            &&& all_digits(ss)
            &&& digits_value(ss) == secs % 60
        }),
{
    lemma_decimal_reads_back(secs / 60);
    let t = clock_text(secs);
    let m = decimal(secs / 60);
    let ss = t.subrange(m.len() as int + 1, t.len() as int);
    let hi = (secs % 60) / 10;
    let lo = secs % 10;
    assert((secs % 60) % 10 == secs % 10) by (nonlinear_arith);
    lemma_digit_char_value(hi);
    lemma_digit_char_value(lo);
    assert(t.subrange(0, m.len() as int) =~= m);
    assert(ss =~= seq![digit_char(hi), digit_char(lo)]);
    assert(ss.drop_last() =~= seq![digit_char(hi)]);
    assert(ss.drop_last().drop_last() =~= Seq::<char>::empty());
    assert(digits_value(Seq::<char>::empty()) == 0);
    assert(digits_value(seq![digit_char(hi)]) == hi);
}

} // verus!
