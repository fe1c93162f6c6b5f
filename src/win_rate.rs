//! Win rates as the build page shows them (`51.23%`), held exactly in
//! hundredths of a percent, and the verdict a build reply gives on them.
use vstd::prelude::*;
use vstd::string::*;
use crate::output::Accent;
use crate::text::{digit_text, nat_text, push_nat};

verus! {

/// The most integer digits a win rate may have.
pub const MAX_WHOLE_DIGITS: usize = 15;

/// A win rate in hundredths of a percent: `5123` is 51.23%.
#[derive(Clone, Copy, Debug, PartialEq, Eq, Structural)]
pub struct WinRate {
    pub hundredths: u64,
}

/// Whether `c` is a decimal digit.
pub open spec fn is_digit(c: char) -> bool {
    '0' <= c && c <= '9'
}

/// Whether every character of `s` is a decimal digit.
pub open spec fn all_digits(s: Seq<char>) -> bool {
    forall|i: int| 0 <= i < s.len() ==> is_digit(#[trigger] s[i])
}

/// The value of a run of decimal digits.
pub open spec fn digits_value(s: Seq<char>) -> nat
    decreases s.len(),
{
    if s.len() == 0 {
        0
    } else {
        digits_value(s.drop_last()) * 10 + ((s.last() as u32 - '0' as u32) as nat)
    }
}

/// `10` to the power `n`.
pub open spec fn pow10(n: nat) -> nat
    decreases n,
{
    if n == 0 {
        1
    } else {
        10 * pow10((n - 1) as nat)
    }
}

/// The position of the first `.` in `t`, or its length where there is none.
pub open spec fn dot_index(t: Seq<char>) -> nat
    decreases t.len(),
{
    if t.len() == 0 {
        0
    } else if t[0] == '.' {
        0
    } else {
        1 + dot_index(t.drop_first())
    }
}

/// The win rate that a number in the form `D+` or `D+.D` or `D+.DD` stands
/// for, in hundredths (at most fifteen integer digits); `None` for any other
/// text.
pub open spec fn parse_hundredths(t: Seq<char>) -> Option<nat> {
    let p = dot_index(t) as int;
    let whole = t.subrange(0, p);
    if p == t.len() {
        if 1 <= t.len() <= MAX_WHOLE_DIGITS && all_digits(t) {
            Some(digits_value(t) * 100)
        } else {
            None
        }
    } else {
        let frac = t.subrange(p + 1, t.len() as int);
        if 1 <= whole.len() <= MAX_WHOLE_DIGITS && all_digits(whole) && 1 <= frac.len() <= 2
            && all_digits(frac) {
            Some(
                digits_value(whole) * 100 + if frac.len() == 1 {
                    digits_value(frac) * 10
                } else {
                    digits_value(frac)
                },
            )
        } else {
            None
        }
    }
}

proof fn lemma_dot_index(t: Seq<char>, p: int)
    requires
        0 <= p <= t.len(),
        forall|k: int| 0 <= k < p ==> t[k] != '.',
        p == t.len() || t[p] == '.',
    ensures
        dot_index(t) == p,
    decreases p,
{
    if p > 0 {
        let rest = t.drop_first();
        assert forall|k: int| 0 <= k < p - 1 implies rest[k] != '.' by {
            assert(rest[k] == t[k + 1]);
        }
        if p < t.len() {
            assert(rest[p - 1] == t[p]);
        }
        lemma_dot_index(rest, p - 1);
    }
}

/// The win rate that the page's text stands for: its last character (the
/// percent sign) is dropped, and text that `parse_hundredths` does not accept
/// (a sign, an exponent, a point without digits on both sides, three or more
/// decimals) counts as zero.
pub open spec fn win_rate_of(text: Seq<char>) -> nat {
    let t = if text.len() == 0 {
        text
    } else {
        text.drop_last()
    };
    match parse_hundredths(t) {
        Some(h) => h,
        None => 0,
    }
}

proof fn lemma_digits_value_bound(s: Seq<char>)
    requires
        all_digits(s),
    ensures
        digits_value(s) < pow10(s.len()),
    decreases s.len(),
{
    if s.len() > 0 {
        let init = s.drop_last();
        assert(all_digits(init)) by {
            assert forall|i: int| 0 <= i < init.len() implies is_digit(#[trigger] init[i]) by {
                assert(init[i] == s[i]);
            }
        }
        lemma_digits_value_bound(init);
        assert(is_digit(s[s.len() - 1]));
    }
}

proof fn lemma_pow10_15()
    ensures
        pow10(15) == 1_000_000_000_000_000,
{
    reveal_with_fuel(pow10, 16);
}

proof fn lemma_pow10_mono(a: nat, b: nat)
    requires
        a <= b,
    ensures
        pow10(a) <= pow10(b),
    decreases b,
{
    if a < b {
        lemma_pow10_mono(a, (b - 1) as nat);
    }
}

/// The value of the digits of `t` from `from` to `to`, or `None` where one
/// is not a digit.
fn digits_in(t: &str, from: usize, to: usize) -> (r: Option<u64>)
    requires
        from <= to <= t@.len(),
        to - from <= MAX_WHOLE_DIGITS,
    ensures
        match r {
            Some(v) => all_digits(t@.subrange(from as int, to as int)) && v as nat == digits_value(
                t@.subrange(from as int, to as int),
            ),
            None => !all_digits(t@.subrange(from as int, to as int)),
        },
{
    let mut v: u64 = 0;
    let mut i: usize = from;
    while i < to
        invariant
            from <= i <= to <= t@.len(),
            to - from <= MAX_WHOLE_DIGITS,
            all_digits(t@.subrange(from as int, i as int)),
            v as nat == digits_value(t@.subrange(from as int, i as int)),
        decreases to - i,
    {
        let c = t.get_char(i);
        if !('0' <= c && c <= '9') {
            assert(t@.subrange(from as int, to as int)[i - from] == c);
            return None;
        }
        let ghost prefix = t@.subrange(from as int, i as int);
        let ghost next = t@.subrange(from as int, i + 1);
        proof {
            assert(next.drop_last() =~= prefix);
            assert(all_digits(next)) by {
                assert forall|k: int| 0 <= k < next.len() implies is_digit(#[trigger] next[k]) by {
                    if k < prefix.len() {
                        assert(next[k] == prefix[k]);
                    }
                }
            }
            lemma_digits_value_bound(prefix);
            lemma_pow10_mono(prefix.len(), 14);
            reveal_with_fuel(pow10, 15);
            assert(v < 100_000_000_000_000);
        }
        v = v * 10 + (c as u32 - '0' as u32) as u64;
        i = i + 1;
    }
    Some(v)
}

/// Reads the win rate that the build page shows, such as `51.23%`: the last
/// character is dropped and the rest must be one to fifteen digits,
/// optionally followed by a point and one or two digits. Any other text counts
/// as zero: a sign, an exponent, a point without digits on both sides, or
/// three or more decimals.
pub fn parse_win_rate(text: &str) -> (r: WinRate)
    ensures
        r.hundredths as nat == win_rate_of(text@),
{
    let len = text.unicode_len();
    let n: usize = if len == 0 {
        0
    } else {
        len - 1
    };
    let ghost t = if text@.len() == 0 {
        text@
    } else {
        text@.drop_last()
    };
    assert(t =~= text@.subrange(0, n as int));
    let mut p: usize = 0;
    while p < n
        invariant
            p <= n,
            n <= text@.len(),
            t == text@.subrange(0, n as int),
            forall|k: int| 0 <= k < p ==> t[k] != '.',
        ensures
            p <= n,
            forall|k: int| 0 <= k < p ==> t[k] != '.',
            p == n || t[p as int] == '.',
        decreases n - p,
    {
        if text.get_char(p) == '.' {
            break;
        }
        p = p + 1;
    }
    proof {
        lemma_dot_index(t, p as int);
    }
    let zero = WinRate { hundredths: 0 };
    if p == n {
        if n < 1 || n > MAX_WHOLE_DIGITS {
            return zero;
        }
        assert(text@.subrange(0, n as int) =~= t);
        match digits_in(text, 0, n) {
            Some(v) => {
                proof {
                    lemma_digits_value_bound(t);
                    lemma_pow10_15();
                    lemma_pow10_mono(t.len(), 15);
                }
                WinRate { hundredths: v * 100 }
            },
            None => zero,
        }
    } else {
        let f = n - (p + 1);
        if p < 1 || p > MAX_WHOLE_DIGITS || f < 1 || f > 2 {
            return zero;
        }
        assert(text@.subrange(0, p as int) =~= t.subrange(0, p as int));
        assert(text@.subrange(p + 1, n as int) =~= t.subrange(p + 1, t.len() as int));
        let whole = match digits_in(text, 0, p) {
            Some(v) => v,
            None => return zero,
        };
        let frac = match digits_in(text, p + 1, n) {
            Some(v) => v,
            None => return zero,
        };
        proof {
            lemma_digits_value_bound(t.subrange(0, p as int));
            lemma_digits_value_bound(t.subrange(p + 1, t.len() as int));
            lemma_pow10_15();
            lemma_pow10_mono(p as nat, 15);
            reveal_with_fuel(pow10, 3);
        }
        let frac_hundredths = if f == 1 {
            frac * 10
        } else {
            frac
        };
        WinRate { hundredths: whole * 100 + frac_hundredths }
    }
}

/// A win rate written as a number: the percent, then a point and the
/// decimals that are not trailing zeros (`5120` is `51.2`, `5100` is `51`).
pub open spec fn win_rate_text(h: nat) -> Seq<char> {
    nat_text(h / 100) + if h % 100 == 0 {
        Seq::empty()
    } else if h % 10 == 0 {
        "."@ + digit_text((h / 10) % 10)
    } else {
        "."@ + digit_text((h / 10) % 10) + digit_text(h % 10)
    }
}

/// Appends a win rate as a number.
pub fn push_win_rate(out: &mut String, rate: WinRate)
    ensures
        final(out)@ == old(out)@ + win_rate_text(rate.hundredths as nat),
{
    let h = rate.hundredths;
    push_nat(out, h / 100);
    if h % 100 != 0 {
        out.append(".");
        push_nat(out, (h / 10) % 10);
        if h % 10 != 0 {
            push_nat(out, h % 10);
        }
    }
    assert(final(out)@ =~= old(out)@ + win_rate_text(h as nat));
}

/// The colour and the verdict of a build reply: above 50% a blue
/// `You better win`, above 48% a gold `Hmm`, else a red `You gon lose`, each
/// followed by the rate in parentheses.
pub open spec fn descriptors(h: nat) -> (Accent, Seq<char>) {
    if h > 5000 {
        (Accent::Blue, "You better win ("@ + win_rate_text(h) + "%)"@)
    } else if h > 4800 {
        (Accent::DarkGold, "Hmm ("@ + win_rate_text(h) + "%)"@)
    } else {
        (Accent::DarkRed, "You gon lose ("@ + win_rate_text(h) + "%)"@)
    }
}

/// The colour and the verdict of a build reply for a win rate.
pub fn get_descriptors(win_rate: WinRate) -> (r: (Accent, String))
    ensures
        r.0 == descriptors(win_rate.hundredths as nat).0,
        r.1@ == descriptors(win_rate.hundredths as nat).1,
{
    let (color, mut text) = if win_rate.hundredths > 5000 {
        (Accent::Blue, String::from_str("You better win ("))
    } else if win_rate.hundredths > 4800 {
        (Accent::DarkGold, String::from_str("Hmm ("))
    } else {
        (Accent::DarkRed, String::from_str("You gon lose ("))
    };
    push_win_rate(&mut text, win_rate);
    text.append("%)");
    (color, text)
}

} // verus!
