//! Character-level helpers shared by the search parser and the query builder.
//!
//! Text is modelled as `Seq<char>` (the view of `String` and `&str`).
use vstd::prelude::*;

verus! {

/// Number of bytes that the UTF-8 encoding of `c` takes.
pub open spec fn utf8_char_len(c: char) -> nat {
    let v = c as u32;
    if v < 0x80 {
        1
    } else if v < 0x800 {
        2
    } else if v < 0x10000 {
        3
    } else {
        4
    }
}

/// Number of bytes that the UTF-8 encoding of `s` takes (what `str::len` returns).
pub open spec fn utf8_len(s: Seq<char>) -> nat
    decreases s.len(),
{
    if s.len() == 0 {
        0
    } else {
        utf8_len(s.drop_last()) + utf8_char_len(s.last())
    }
}

pub proof fn lemma_utf8_len_concat(a: Seq<char>, b: Seq<char>)
    ensures
        utf8_len(a + b) == utf8_len(a) + utf8_len(b),
    decreases b.len(),
{
    if b.len() == 0 {
        assert(a + b =~= a);
    } else {
        lemma_utf8_len_concat(a, b.drop_last());
        assert((a + b).drop_last() =~= a + b.drop_last());
    }
}

pub proof fn lemma_utf8_len_bounds(s: Seq<char>)
    ensures
        s.len() <= utf8_len(s) <= 4 * s.len(),
    decreases s.len(),
{
    if s.len() > 0 {
        lemma_utf8_len_bounds(s.drop_last());
    }
}

/// UTF-8 length of a single character, as `char::len_utf8` computes it.
pub fn char_utf8_len(c: char) -> (n: usize)
    ensures
        n == utf8_char_len(c),
{
    let v = c as u32;
    if v < 0x80 {
        1
    } else if v < 0x800 {
        2
    } else if v < 0x10000 {
        3
    } else {
        4
    }
}

/// The UTF-8 length of a prefix is at most that of the whole.
pub proof fn lemma_utf8_len_prefix(s: Seq<char>, i: int)
    requires
        0 <= i <= s.len(),
    ensures
        utf8_len(s.take(i)) + utf8_len(s.skip(i)) == utf8_len(s),
        utf8_len(s.take(i)) <= utf8_len(s),
        utf8_len(s.skip(i)) <= utf8_len(s),
{
    lemma_utf8_len_concat(s.take(i), s.skip(i));
    assert(s.take(i) + s.skip(i) =~= s);
}

/// A one-character sequence takes the bytes of its character.
pub proof fn lemma_utf8_len_single(c: char)
    ensures
        utf8_len(seq![c]) == utf8_char_len(c),
{
    let s = seq![c];
    assert(s.drop_last() =~= Seq::<char>::empty());
    assert(utf8_len(s.drop_last()) == 0);
    assert(s.last() == c);
    assert(utf8_len(s) == utf8_len(s.drop_last()) + utf8_char_len(s.last()));
}

/// Dropping the first character removes its bytes.
pub proof fn lemma_utf8_len_skip_first(s: Seq<char>)
    requires
        s.len() > 0,
    ensures
        utf8_len(s.skip(1)) + utf8_char_len(s[0]) == utf8_len(s),
{
    lemma_utf8_len_prefix(s, 1);
    assert(s.take(1) =~= seq![s[0]]);
    lemma_utf8_len_single(s[0]);
}

/// Dropping the last character removes its bytes.
pub proof fn lemma_utf8_len_drop_last(s: Seq<char>)
    requires
        s.len() > 0,
    ensures
        utf8_len(s.drop_last()) + utf8_char_len(s.last()) == utf8_len(s),
{
}

/// UTF-8 length of a character sequence.
pub fn chars_utf8_len(s: &[char]) -> (n: usize)
    requires
        utf8_len(s@) <= usize::MAX,
    ensures
        n == utf8_len(s@),
{
    let mut n: usize = 0;
    let mut i: usize = 0;
    while i < s.len()
        invariant
            i <= s@.len(),
            utf8_len(s@) <= usize::MAX,
            n == utf8_len(s@.take(i as int)),
        decreases s.len() - i,
    {
        proof {
            lemma_utf8_len_prefix(s@, i + 1);
            assert(s@.take(i + 1).drop_last() =~= s@.take(i as int));
        }
        n = n + char_utf8_len(s[i]);
        i = i + 1;
    }
    assert(s@.take(s@.len() as int) =~= s@);
    n
}

/// Whether the UTF-8 encoding of `s` takes more than one byte.
pub fn utf8_len_above_one(s: &[char]) -> (r: bool)
    ensures
        r == (utf8_len(s@) > 1),
{
    proof {
        lemma_utf8_len_bounds(s@);
    }
    if s.len() >= 2 {
        true
    } else if s.len() == 1 {
        proof {
            assert(s@.drop_last() =~= Seq::<char>::empty());
            assert(utf8_len(s@.drop_last()) == 0);
            assert(utf8_len(s@) == utf8_char_len(s@[0]));
        }
        char_utf8_len(s[0]) > 1
    } else {
        false
    }
}

/// Appends one character to a `String`.
#[verifier::external_body]
pub(crate) fn push_char(s: &mut String, c: char)
    ensures
        final(s)@ == old(s)@.push(c),
{
    s.push(c);
}

/// The characters of a string slice, in order.
pub fn to_chars(s: &str) -> (v: Vec<char>)
    ensures
        v@ == s@,
{
    let n = s.unicode_len();
    let mut v: Vec<char> = Vec::new();
    let mut i: usize = 0;
    while i < n
        invariant
            n == s@.len(),
            i <= n,
            v@ =~= s@.take(i as int),
        decreases n - i,
    {
        v.push(s.get_char(i));
        i = i + 1;
    }
    v
}

/// Builds a `String` holding exactly the given characters.
pub fn string_of(v: &[char]) -> (s: String)
    ensures
        s@ == v@,
{
    let mut s = String::new();
    let mut i: usize = 0;
    while i < v.len()
        invariant
            i <= v@.len(),
            s@ =~= v@.take(i as int),
        decreases v.len() - i,
    {
        push_char(&mut s, v[i]);
        i = i + 1;
    }
    s
}

/// Appends the characters of `src` to `dst`.
pub fn append_chars(dst: &mut Vec<char>, src: &[char])
    ensures
        final(dst)@ == old(dst)@ + src@,
{
    let mut i: usize = 0;
    while i < src.len()
        invariant
            i <= src@.len(),
            dst@ =~= old(dst)@ + src@.take(i as int),
        decreases src.len() - i,
    {
        dst.push(src[i]);
        i = i + 1;
    }
}

/// Appends the characters of a string slice to `dst`.
pub fn append_str(dst: &mut Vec<char>, src: &str)
    ensures
        final(dst)@ == old(dst)@ + src@,
{
    let c = to_chars(src);
    append_chars(dst, &c);
}

/// Whether a character sequence equals a string slice.
pub fn eq_lit(s: &[char], lit: &str) -> (r: bool)
    ensures
        r == (s@ == lit@),
{
    let n = lit.unicode_len();
    if n != s.len() {
        return false;
    }
    let mut i: usize = 0;
    while i < n
        invariant
            n == lit@.len(),
            n == s@.len(),
            i <= n,
            forall|j: int| 0 <= j < i ==> s@[j] == lit@[j],
        decreases n - i,
    {
        if s[i] != lit.get_char(i) {
            return false;
        }
        i = i + 1;
    }
    assert(s@ =~= lit@);
    true
}

/// Whether two character sequences are equal.
pub fn eq_chars(a: &[char], b: &[char]) -> (r: bool)
    ensures
        r == (a@ == b@),
{
    if a.len() != b.len() {
        return false;
    }
    let mut i: usize = 0;
    while i < a.len()
        invariant
            a@.len() == b@.len(),
            i <= a@.len(),
            forall|j: int| 0 <= j < i ==> a@[j] == b@[j],
        decreases a.len() - i,
    {
        if a[i] != b[i] {
            return false;
        }
        i = i + 1;
    }
    assert(a@ =~= b@);
    true
}

/// The characters of `s` from index `from` on.
pub fn skip_chars(s: &[char], from: usize) -> (r: Vec<char>)
    requires
        from <= s@.len(),
    ensures
        r@ == s@.skip(from as int),
{
    let mut r: Vec<char> = Vec::new();
    let mut i: usize = from;
    while i < s.len()
        invariant
            from <= i <= s@.len(),
            r@ =~= s@.subrange(from as int, i as int),
        decreases s.len() - i,
    {
        r.push(s[i]);
        i = i + 1;
    }
    r
}

/// A copy of a character sequence.
pub fn copy_chars(s: &[char]) -> (r: Vec<char>)
    ensures
        r@ == s@,
{
    let r = skip_chars(s, 0);
    assert(s@.skip(0) =~= s@);
    r
}

/// The characters of `s` before index `to`.
pub fn take_chars(s: &[char], to: usize) -> (r: Vec<char>)
    requires
        to <= s@.len(),
    ensures
        r@ == s@.take(to as int),
{
    let mut r: Vec<char> = Vec::new();
    let mut i: usize = 0;
    while i < to
        invariant
            i <= to <= s@.len(),
            r@ =~= s@.take(i as int),
        decreases to - i,
    {
        r.push(s[i]);
        i = i + 1;
    }
    r
}

/// The value of a sequence of ASCII decimal digits.
pub open spec fn digits_value(s: Seq<char>) -> int
    decreases s.len(),
{
    if s.len() == 0 {
        0
    } else {
        digits_value(s.drop_last()) * 10 + (s.last() as int - '0' as int)
    }
}

pub open spec fn is_ascii_digit(c: char) -> bool {
    '0' <= c && c <= '9'
}

pub open spec fn all_ascii_digits(s: Seq<char>) -> bool {
    forall|i: int| 0 <= i < s.len() ==> is_ascii_digit(#[trigger] s[i])
}

/// What `<i64 as FromStr>::from_str` gives back: an optional `+` or `-`,
/// then one or more ASCII digits, whose value fits in an `i64`.
pub open spec fn parse_i64_spec(s: Seq<char>) -> Option<i64> {
    let neg = s.len() > 0 && s[0] == '-';
    let body = if s.len() > 0 && (s[0] == '-' || s[0] == '+') {
        s.skip(1)
    } else {
        s
    };
    if body.len() == 0 || !all_ascii_digits(body) {
        None
    } else {
        let v = if neg {
            -digits_value(body)
        } else {
            digits_value(body)
        };
        if i64::MIN <= v <= i64::MAX {
            Some(v as i64)
        } else {
            None
        }
    }
}

proof fn lemma_digits_value_nonneg(s: Seq<char>)
    requires
        all_ascii_digits(s),
    ensures
        digits_value(s) >= 0,
    decreases s.len(),
{
    if s.len() > 0 {
        assert(all_ascii_digits(s.drop_last()));
        assert(is_ascii_digit(s[s.len() - 1]));
        lemma_digits_value_nonneg(s.drop_last());
    }
}

proof fn lemma_digits_value_monotone(s: Seq<char>, i: int)
    requires
        all_ascii_digits(s),
        0 <= i <= s.len(),
    ensures
        digits_value(s.take(i)) <= digits_value(s),
    decreases s.len() - i,
{
    if i < s.len() {
        lemma_digits_value_monotone(s, i + 1);
        let t = s.take(i + 1);
        assert(t.drop_last() =~= s.take(i));
        assert(all_ascii_digits(s.take(i)));
        lemma_digits_value_nonneg(s.take(i));
        assert(is_ascii_digit(s[i]));
        assert(t.last() == s[i]);
        assert(digits_value(t) == digits_value(s.take(i)) * 10 + (s[i] as int - '0' as int));
    } else {
        assert(s.take(i) =~= s);
    }
}

/// `<i64 as FromStr>::from_str(s).ok()`, written out.
pub fn parse_i64(s: &[char]) -> (r: Option<i64>)
    ensures
        r == parse_i64_spec(s@),
{
    let neg = s.len() > 0 && s[0] == '-';
    let start: usize = if s.len() > 0 && (s[0] == '-' || s[0] == '+') {
        1
    } else {
        0
    };
    let ghost body = if s@.len() > 0 && (s@[0] == '-' || s@[0] == '+') {
        s@.skip(1)
    } else {
        s@
    };
    assert(body =~= s@.skip(start as int));
    if start >= s.len() {
        return None;
    }
    // Accumulate the magnitude as a non-positive number when negative, so that
    // `i64::MIN` is reached without overflow.
    let mut acc: i64 = 0;
    let mut i: usize = start;
    while i < s.len()
        invariant
            start <= i <= s@.len(),
            body =~= s@.skip(start as int),
            body == (if s@.len() > 0 && (s@[0] == '-' || s@[0] == '+') {
                s@.skip(1)
            } else {
                s@
            }),
            neg == (s@.len() > 0 && s@[0] == '-'),
            all_ascii_digits(body.take(i - start)),
            acc == (if neg {
                -digits_value(body.take(i - start))
            } else {
                digits_value(body.take(i - start))
            }),
        decreases s.len() - i,
    {
        let c = s[i];
        if !('0' <= c && c <= '9') {
            proof {
                assert(body[i - start] == c);
                assert(!all_ascii_digits(body));
            }
            return None;
        }
        let d = (c as u32 - '0' as u32) as i64;
        let ghost prev = body.take(i - start);
        let ghost next = body.take(i - start + 1);
        proof {
            assert(next.drop_last() =~= prev);
            assert(next.last() == c);
            assert(digits_value(next) == digits_value(prev) * 10 + d);
            assert forall|j: int| 0 <= j < next.len() implies is_ascii_digit(#[trigger] next[j]) by {
                if j < next.len() - 1 {
                    assert(next[j] == prev[j]);
                }
            }
        }
        let step = if neg {
            match acc.checked_mul(10) {
                None => None,
                Some(m) => m.checked_sub(d),
            }
        } else {
            match acc.checked_mul(10) {
                None => None,
                Some(m) => m.checked_add(d),
            }
        };
        match step {
            None => {
                proof {
                    lemma_digits_value_nonneg(prev);
                    if all_ascii_digits(body) {
                        lemma_digits_value_monotone(body, i - start + 1);
                    }
                }
                return None;
            },
            Some(v) => {
                acc = v;
            },
        }
        i = i + 1;
    }
    assert(body.take(i - start) =~= body);
    Some(acc)
}

/// Decimal digits of a non-negative number.
pub open spec fn nat_decimal(n: nat) -> Seq<char>
    decreases n,
{
    if n < 10 {
        seq![(('0' as u32) + n) as char]
    } else {
        nat_decimal(n / 10).push((('0' as u32) + (n % 10)) as char)
    }
}

/// Decimal representation of an integer, as `i64::to_string` writes it.
pub open spec fn int_decimal(n: int) -> Seq<char> {
    if n < 0 {
        seq!['-'] + nat_decimal((-n) as nat)
    } else {
        nat_decimal(n as nat)
    }
}

fn u64_decimal(n: u64) -> (r: Vec<char>)
    ensures
        r@ == nat_decimal(n as nat),
    decreases n,
{
    if n < 10 {
        let c = char_from_digit(n as u32);
        let mut v: Vec<char> = Vec::new();
        v.push(c);
        assert(v@ =~= nat_decimal(n as nat));
        v
    } else {
        let mut v = u64_decimal(n / 10);
        v.push(char_from_digit((n % 10) as u32));
        v
    }
}

fn char_from_digit(d: u32) -> (c: char)
    requires
        d < 10,
    ensures
        c == (('0' as u32) + d) as char,
{
    if d == 0 {
        '0'
    } else if d == 1 {
        '1'
    } else if d == 2 {
        '2'
    } else if d == 3 {
        '3'
    } else if d == 4 {
        '4'
    } else if d == 5 {
        '5'
    } else if d == 6 {
        '6'
    } else if d == 7 {
        '7'
    } else if d == 8 {
        '8'
    } else {
        '9'
    }
}

/// `n.to_string()` for an `i64`, as characters.
pub fn i64_decimal(n: i64) -> (r: Vec<char>)
    ensures
        r@ == int_decimal(n as int),
{
    if n < 0 {
        let m: u64 = if n == i64::MIN {
            9223372036854775808u64
        } else {
            (-n) as u64
        };
        let digits = u64_decimal(m);
        let mut r: Vec<char> = Vec::new();
        r.push('-');
        append_chars(&mut r, &digits);
        assert(r@ =~= seq!['-'] + nat_decimal((-(n as int)) as nat));
        r
    } else {
        u64_decimal(n as u64)
    }
}

/// What `str::to_lowercase` gives back for a string: the Unicode lowercase
/// mapping, which this library does not restate.
pub uninterp spec fn str_to_lowercase(s: Seq<char>) -> Seq<char>;

/// An ASCII character that is not an uppercase letter: its lowercase form is
/// itself.
pub open spec fn is_ascii_caseless_or_lower(c: char) -> bool {
    (c as u32) < 0x80 && !('A' <= c && c <= 'Z')
}

/// Whether `s` is made only of ASCII characters other than uppercase letters.
pub open spec fn is_ascii_lowercase_text(s: Seq<char>) -> bool {
    forall|i: int| 0 <= i < s.len() ==> is_ascii_caseless_or_lower(#[trigger] s[i])
}

/// Whether every character of `s` is ASCII.
pub open spec fn is_ascii_text(s: Seq<char>) -> bool {
    forall|i: int| 0 <= i < s.len() ==> (#[trigger] s[i] as u32) < 0x80
}

/// The ASCII lowercase of `c`: `A`-`Z` become `a`-`z`, anything else stays.
pub open spec fn ascii_lower(c: char) -> char {
    if 'A' <= c && c <= 'Z' {
        ((c as u32) + 32) as char
    } else {
        c
    }
}

/// `s` with each character replaced by its ASCII lowercase.
pub open spec fn ascii_lower_text(s: Seq<char>) -> Seq<char> {
    s.map_values(|c: char| ascii_lower(c))
}

/// The lowercase form of `s` as `str::to_lowercase` gives it.
pub open spec fn lowercase(s: Seq<char>) -> Seq<char> {
    if is_ascii_text(s) {
        ascii_lower_text(s)
    } else {
        str_to_lowercase(s)
    }
}

/// Text made only of ASCII characters other than uppercase letters is its
/// own lowercase form.
pub proof fn lemma_lowercase_plain(s: Seq<char>)
    requires
        is_ascii_lowercase_text(s),
    ensures
        lowercase(s) == s,
{
    assert(is_ascii_text(s)) by {
        assert forall|i: int| 0 <= i < s.len() implies (#[trigger] s[i] as u32) < 0x80 by {
            assert(is_ascii_caseless_or_lower(s[i]));
        }
    }
    assert forall|i: int| 0 <= i < s.len() implies ascii_lower_text(s)[i] == s[i] by {
        assert(is_ascii_caseless_or_lower(s[i]));
    }
    assert(ascii_lower_text(s) =~= s);
}

/// Calls `str::to_lowercase`. Claimed: the result depends on the input
/// alone, and ASCII text is lowered letter by letter: the Unicode lowercase
/// mapping of `A`-`Z` is `a`-`z`, and every other ASCII character maps to
/// itself.
#[verifier::external_body]
pub(crate) fn to_lowercase(s: &str) -> (r: String)
    ensures
        r@ == str_to_lowercase(s@),
        is_ascii_text(s@) ==> r@ == ascii_lower_text(s@),
{
    s.to_lowercase()
}

/// Lowercase form of a character sequence.
pub fn lowercase_chars(s: &[char]) -> (r: Vec<char>)
    ensures
        r@ == lowercase(s@),
{
    let st = string_of(s);
    let low = to_lowercase(st.as_str());
    to_chars(low.as_str())
}

/// `s.split(sep)`: the pieces between separators, empty ones included.
pub open spec fn split_on(s: Seq<char>, sep: char) -> Seq<Seq<char>>
    decreases s.len(),
{
    if s.len() == 0 {
        seq![Seq::empty()]
    } else {
        let p = split_on(s.drop_last(), sep);
        if s.last() == sep {
            p.push(Seq::empty())
        } else {
            p.update(p.len() - 1, p.last().push(s.last()))
        }
    }
}

pub proof fn lemma_split_on_len(s: Seq<char>, sep: char)
    ensures
        split_on(s, sep).len() >= 1,
    decreases s.len(),
{
    if s.len() > 0 {
        lemma_split_on_len(s.drop_last(), sep);
    }
}

/// Whether `sep` does not occur in `s`.
pub open spec fn lacks(s: Seq<char>, sep: char) -> bool {
    forall|j: int| 0 <= j < s.len() ==> s[j] != sep
}

/// Appending text without a separator extends the last piece.
pub proof fn lemma_split_on_extend(p: Seq<char>, b: Seq<char>, sep: char)
    requires
        lacks(b, sep),
    ensures
        split_on(p + b, sep) == split_on(p, sep).update(
            split_on(p, sep).len() - 1,
            split_on(p, sep).last() + b,
        ),
    decreases b.len(),
{
    lemma_split_on_len(p, sep);
    let sp = split_on(p, sep);
    if b.len() == 0 {
        assert(p + b =~= p);
        assert(sp.last() + b =~= sp.last());
        assert(sp.update(sp.len() - 1, sp.last() + b) =~= sp);
    } else {
        let bd = b.drop_last();
        lemma_split_on_extend(p, bd, sep);
        assert((p + b).drop_last() =~= p + bd);
        assert((p + b).last() == b.last());
        let q = split_on(p + bd, sep);
        assert(q.last() == sp.last() + bd);
        assert(q.last().push(b.last()) =~= sp.last() + b);
        assert(q.update(q.len() - 1, q.last().push(b.last())) =~= sp.update(
            sp.len() - 1,
            sp.last() + b,
        ));
    }
}

/// A separator followed by text without one adds that text as a new piece.
pub proof fn lemma_split_on_sep_then(p: Seq<char>, b: Seq<char>, sep: char)
    requires
        lacks(b, sep),
    ensures
        split_on(p.push(sep) + b, sep) == split_on(p, sep).push(b),
{
    let q = p.push(sep);
    assert(q.drop_last() =~= p);
    assert(split_on(q, sep) == split_on(p, sep).push(Seq::<char>::empty()));
    lemma_split_on_extend(q, b, sep);
    assert(Seq::<char>::empty() + b =~= b);
    assert(split_on(p, sep).push(Seq::<char>::empty()).update(split_on(p, sep).len() as int, b)
        =~= split_on(p, sep).push(b));
}

/// Text without a separator is one piece.
pub proof fn lemma_split_on_single(b: Seq<char>, sep: char)
    requires
        lacks(b, sep),
    ensures
        split_on(b, sep) == seq![b],
{
    let e = Seq::<char>::empty();
    lemma_split_on_extend(e, b, sep);
    assert(e + b =~= b);
    assert(split_on(e, sep) == seq![e]);
    assert(seq![e].update(0, e + b) =~= seq![b]);
}

/// The pieces of `s` between the separators `sep`.
pub fn split_on_exec(s: &str, sep: char) -> (r: Vec<Vec<char>>)
    ensures
        r@.map_values(|v: Vec<char>| v@) == split_on(s@, sep),
{
    let cs = to_chars(s);
    let mut r: Vec<Vec<char>> = Vec::new();
    let mut cur: Vec<char> = Vec::new();
    let mut i: usize = 0;
    proof {
        assert(cs@.take(0) =~= Seq::<char>::empty());
        assert(r@.map_values(|v: Vec<char>| v@) =~= split_on(cs@.take(0), sep).drop_last());
    }
    while i < cs.len()
        invariant
            i <= cs@.len(),
            cs@ == s@,
            r@.map_values(|v: Vec<char>| v@) == split_on(cs@.take(i as int), sep).drop_last(),
            cur@ == split_on(cs@.take(i as int), sep).last(),
        decreases cs.len() - i,
    {
        let ghost pre = cs@.take(i as int);
        let ghost pre1 = cs@.take(i + 1);
        proof {
            assert(pre1.drop_last() =~= pre);
            assert(pre1.last() == cs@[i as int]);
            lemma_split_on_len(pre, sep);
        }
        if cs[i] == sep {
            let ghost r0 = r@;
            r.push(cur);
            cur = Vec::new();
            proof {
                assert(split_on(pre1, sep) == split_on(pre, sep).push(Seq::<char>::empty()));
                assert(r@.map_values(|v: Vec<char>| v@) =~= r0.map_values(|v: Vec<char>| v@).push(
                    split_on(pre, sep).last(),
                ));
                assert(split_on(pre, sep).drop_last().push(split_on(pre, sep).last()) =~= split_on(pre, sep));
            }
        } else {
            cur.push(cs[i]);
            proof {
                let sp = split_on(pre, sep);
                assert(split_on(pre1, sep) == sp.update(sp.len() - 1, sp.last().push(cs@[i as int])));
                assert(split_on(pre1, sep).drop_last() =~= sp.drop_last());
            }
        }
        i = i + 1;
    }
    proof {
        assert(cs@.take(cs@.len() as int) =~= cs@);
        lemma_split_on_len(cs@, sep);
    }
    let ghost r0 = r@;
    r.push(cur);
    proof {
        let sp = split_on(cs@, sep);
        assert(r@.map_values(|v: Vec<char>| v@) =~= r0.map_values(|v: Vec<char>| v@).push(sp.last()));
        assert(sp.drop_last().push(sp.last()) =~= sp);
    }
    r
}

/// Whether `c` has the Unicode `White_Space` property, the test that
/// `char::is_whitespace` and `str::trim` apply.
pub open spec fn is_white(c: char) -> bool {
    let n = c as u32;
    ||| 0x9 <= n <= 0xd
    ||| n == 0x20
    ||| n == 0x85
    ||| n == 0xa0
    ||| n == 0x1680
    ||| 0x2000 <= n <= 0x200a
    ||| n == 0x2028
    ||| n == 0x2029
    ||| n == 0x202f
    ||| n == 0x205f
    ||| n == 0x3000
}

pub fn is_white_exec(c: char) -> (r: bool)
    ensures
        r == is_white(c),
{
    let n = c as u32;
    (0x9 <= n && n <= 0xd) || n == 0x20 || n == 0x85 || n == 0xa0 || n == 0x1680
        || (0x2000 <= n && n <= 0x200a) || n == 0x2028 || n == 0x2029 || n == 0x202f
        || n == 0x205f || n == 0x3000
}

/// `s` without its leading white space.
pub open spec fn trim_start(s: Seq<char>) -> Seq<char>
    decreases s.len(),
{
    if s.len() > 0 && is_white(s[0]) {
        trim_start(s.drop_first())
    } else {
        s
    }
}

/// `s` without its trailing white space.
pub open spec fn trim_end(s: Seq<char>) -> Seq<char>
    decreases s.len(),
{
    if s.len() > 0 && is_white(s.last()) {
        trim_end(s.drop_last())
    } else {
        s
    }
}

/// `s` without its leading and trailing white space (what `str::trim` gives).
pub open spec fn str_trim(s: Seq<char>) -> Seq<char> {
    trim_end(trim_start(s))
}

/// The text without its leading and trailing white space.
pub fn trim(s: &str) -> (r: String)
    ensures
        r@ == str_trim(s@),
{
    let cs = to_chars(s);
    let n = cs.len();
    let mut i: usize = 0;
    assert(cs@.subrange(0, n as int) =~= cs@);
    while i < n && is_white_exec(cs[i])
        invariant
            i <= n,
            n == cs@.len(),
            trim_start(cs@) == trim_start(cs@.subrange(i as int, n as int)),
        decreases n - i,
    {
        proof {
            let t = cs@.subrange(i as int, n as int);
            assert(t.drop_first() =~= cs@.subrange(i + 1, n as int));
        }
        i = i + 1;
    }
    let ghost t = cs@.subrange(i as int, n as int);
    proof {
        assert(cs@.subrange(0, n as int) =~= cs@);
        if i < n {
            assert(t[0] == cs@[i as int]);
        } else {
            assert(t =~= Seq::<char>::empty());
        }
        assert(trim_start(cs@) == t);
    }
    let mut j: usize = n;
    while j > i && is_white_exec(cs[j - 1])
        invariant
            i <= j <= n,
            n == cs@.len(),
            t == cs@.subrange(i as int, n as int),
            trim_end(t) == trim_end(cs@.subrange(i as int, j as int)),
        decreases j - i,
    {
        proof {
            let u = cs@.subrange(i as int, j as int);
            assert(u.drop_last() =~= cs@.subrange(i as int, j - 1));
            assert(u.last() == cs@[j - 1]);
        }
        j = j - 1;
    }
    proof {
        assert(t =~= cs@.subrange(i as int, n as int));
        let u = cs@.subrange(i as int, j as int);
        if j > i {
            assert(u.last() == cs@[j - 1]);
        }
        assert(trim_end(u) == u);
    }
    let mut r = String::new();
    let mut k: usize = i;
    while k < j
        invariant
            i <= k <= j <= n,
            n == cs@.len(),
            r@ =~= cs@.subrange(i as int, k as int),
        decreases j - k,
    {
        push_char(&mut r, cs[k]);
        k = k + 1;
    }
    r
}

} // verus!
