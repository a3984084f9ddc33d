//! Numbers in user searches: plain integers, arithmetic, and durations such
//! as `1h30m`, all read as a whole number (durations in seconds).
use vstd::prelude::*;
use crate::text::{i64_decimal, int_decimal, parse_i64, parse_i64_spec, push_char, string_of, to_chars};

verus! {

/// Marks each duration unit that is directly followed by more digits.
pub const INSERT_PLUS_PATTERN: &'static str = "(\\d+)([yMwdhm])(?=\\d)";

/// What replacing, in `text`, every match of the regular expression
/// `pattern` with `rewrite_piece(scale, group 1, group 2)` gives, as
/// `fancy_regex` computes it; `None` where the pattern does not compile or
/// matching fails at run time.
pub uninterp spec fn regex_replace_all(pattern: Seq<char>, text: Seq<char>, scale: Option<i64>) -> Option<Seq<char>>;

/// What `meval::eval_str` gives for `expr`, cast to `i64`; `None` where the
/// expression does not evaluate.
pub uninterp spec fn meval_eval_i64(expr: Seq<char>) -> Option<i64>;

/// The replacement for one regex match: without a scale, the two groups
/// followed by `+`; with a scale, the decimal of group 1 times the scale.
pub open spec fn rewrite_piece_spec(scale: Option<i64>, g1: Seq<char>, g2: Seq<char>) -> Seq<char> {
    match scale {
        None => g1 + g2 + seq!['+'],
        Some(sec) => {
            let n = match parse_i64_spec(g1) {
                Some(v) => v,
                None => 0,
            };
            int_decimal(vstd::wrapping::i64_specs::wrapping_mul(n, sec) as int)
        },
    }
}

/// The replacement for one regex match (see `rewrite_piece_spec`).
pub fn rewrite_piece(scale: Option<i64>, g1: &str, g2: &str) -> (r: String)
    ensures
        r@ == rewrite_piece_spec(scale, g1@, g2@),
{
    match scale {
        None => {
            let a = to_chars(g1);
            let b = to_chars(g2);
            let mut v: Vec<char> = Vec::new();
            crate::text::append_chars(&mut v, &a);
            crate::text::append_chars(&mut v, &b);
            v.push('+');
            assert(v@ =~= g1@ + g2@ + seq!['+']);
            string_of(&v)
        },
        Some(sec) => {
            let c = to_chars(g1);
            let n = match parse_i64(&c) {
                Some(v) => v,
                None => 0,
            };
            let p = n.wrapping_mul(sec);
            let d = i64_decimal(p);
            string_of(&d)
        },
    }
}

/// Calls `fancy_regex::Regex::new(pattern)` and then `try_replacen` with no
/// limit, replacing each match with `rewrite_piece`. Claimed: the result
/// depends on the pattern, the text and the scale alone.
#[verifier::external_body]
fn replace_all(pattern: &str, text: &str, scale: Option<i64>) -> (r: Option<String>)
    ensures
        r matches Some(s) ==> regex_replace_all(pattern@, text@, scale) == Some(s@),
        r is None ==> regex_replace_all(pattern@, text@, scale) is None,
{
    let re = fancy_regex::Regex::new(pattern).ok()?;
    re.try_replacen(text, 0, |caps: &fancy_regex::Captures| {
        rewrite_piece(
            scale,
            caps.get(1).map_or("", |m| m.as_str()),
            caps.get(2).map_or("", |m| m.as_str()),
        )
    }).ok().map(|c| c.into_owned())
}

/// Whether `s` is non-empty and made only of the whitespace that `meval`
/// skips between tokens (space, tab, CR, LF): on such text its tokenizer
/// panics.
pub open spec fn blank(s: Seq<char>) -> bool {
    s.len() > 0 && forall|i: int|
        0 <= i < s.len() ==> (#[trigger] s[i] == ' ' || s[i] == '\t' || s[i] == '\r' || s[i] == '\n')
}

fn blank_exec(s: &str) -> (r: bool)
    ensures
        r == blank(s@),
{
    let c = to_chars(s);
    if c.len() == 0 {
        return false;
    }
    let mut i: usize = 0;
    while i < c.len()
        invariant
            i <= c@.len(),
            c@ == s@,
            forall|j: int| 0 <= j < i ==> (#[trigger] c@[j] == ' ' || c@[j] == '\t' || c@[j] == '\r' || c@[j] == '\n'),
        decreases c.len() - i,
    {
        let x = c[i];
        if !(x == ' ' || x == '\t' || x == '\r' || x == '\n') {
            return false;
        }
        i = i + 1;
    }
    true
}

/// Calls `meval::eval_str` and casts the result to `i64`. Claimed: the
/// result depends on the expression alone. Left out: text made only of
/// whitespace, on which the call panics.
#[verifier::external_body]
fn eval_expression(expr: &str) -> (r: Option<i64>)
    requires
        !blank(expr@),
    ensures
        r == meval_eval_i64(expr@),
{
    meval::eval_str(expr).ok().map(|n| n as i64)
}

/// Number of duration units.
pub const NUM_UNITS: usize = 7;

/// The pattern that finds a number followed by duration unit `i` (years,
/// months, weeks, days, hours, minutes, seconds).
pub open spec fn unit_pattern(i: int) -> Seq<char> {
    if i == 0 {
        "(\\d+)y"@
    } else if i == 1 {
        "(\\d+)M"@
    } else if i == 2 {
        "(\\d+)w"@
    } else if i == 3 {
        "(\\d+)d"@
    } else if i == 4 {
        "(\\d+)h"@
    } else if i == 5 {
        "(\\d+)m"@
    } else {
        "(\\d+)s"@
    }
}

/// Seconds in duration unit `i`.
pub open spec fn unit_seconds(i: int) -> i64 {
    if i == 0 {
        31_536_000
    } else if i == 1 {
        2_592_000
    } else if i == 2 {
        604_800
    } else if i == 3 {
        86_400
    } else if i == 4 {
        3_600
    } else if i == 5 {
        60
    } else {
        1
    }
}

fn unit_at(i: usize) -> (r: (&'static str, i64))
    requires
        i < NUM_UNITS,
    ensures
        r.0@ == unit_pattern(i as int),
        r.1 == unit_seconds(i as int),
{
    if i == 0 {
        ("(\\d+)y", 31_536_000)
    } else if i == 1 {
        ("(\\d+)M", 2_592_000)
    } else if i == 2 {
        ("(\\d+)w", 604_800)
    } else if i == 3 {
        ("(\\d+)d", 86_400)
    } else if i == 4 {
        ("(\\d+)h", 3_600)
    } else if i == 5 {
        ("(\\d+)m", 60)
    } else {
        ("(\\d+)s", 1)
    }
}

/// The text after replacing the first `n` duration units with seconds.
pub open spec fn units_replaced(s: Seq<char>, n: nat) -> Option<Seq<char>>
    decreases n,
{
    if n == 0 {
        Some(s)
    } else {
        match units_replaced(s, (n - 1) as nat) {
            Some(t) => regex_replace_all(unit_pattern(n - 1), t, Some(unit_seconds(n - 1))),
            None => None,
        }
    }
}

proof fn lemma_units_none(s: Seq<char>, n: nat, m: nat)
    requires
        units_replaced(s, n) is None,
        n <= m,
    ensures
        units_replaced(s, m) is None,
    decreases m - n,
{
    if n < m {
        lemma_units_none(s, n + 1, m);
    }
}

/// The number a search value stands for: `+` is put between consecutive
/// durations, each duration becomes its number of seconds, and the
/// resulting expression is evaluated; anything that fails gives 0, and so
/// does an expression made only of whitespace (see `blank`), which is not
/// evaluated.
pub open spec fn coerce_spec(input: Seq<char>) -> i64 {
    match regex_replace_all(INSERT_PLUS_PATTERN@, input, None) {
        None => 0,
        Some(s0) => match units_replaced(s0, NUM_UNITS as nat) {
            None => 0,
            Some(s) => if blank(s) {
                0
            } else {
                match meval_eval_i64(s) {
                    Some(n) => n,
                    None => 0,
                }
            },
        },
    }
}

/// Reads a search value as a number (see `coerce_spec`).
pub fn coerce_to_i64(input: &str) -> (r: i64)
    ensures
        r == coerce_spec(input@),
{
    let first = match replace_all(INSERT_PLUS_PATTERN, input, None) {
        Some(s) => s,
        None => {
            return 0;
        },
    };
    let mut cur = first;
    let mut i: usize = 0;
    while i < NUM_UNITS
        invariant
            i <= NUM_UNITS,
            regex_replace_all(INSERT_PLUS_PATTERN@, input@, None) == Some(first@),
            units_replaced(first@, i as nat) == Some(cur@),
        decreases NUM_UNITS - i,
    {
        let (pattern, seconds) = unit_at(i);
        match replace_all(pattern, cur.as_str(), Some(seconds)) {
            Some(next) => {
                cur = next;
            },
            None => {
                proof {
                    lemma_units_none(first@, (i + 1) as nat, NUM_UNITS as nat);
                }
                return 0;
            },
        }
        i = i + 1;
    }
    if blank_exec(cur.as_str()) {
        return 0;
    }
    match eval_expression(cur.as_str()) {
        Some(n) => n,
        None => 0,
    }
}

} // verus!
