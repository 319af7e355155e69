//! Character-level text handling shared by the manifest contract, the
//! report printer and the request router: splitting on a separator,
//! decimal numbers, exact comparison and building `String`s.

use vstd::prelude::*;

verus! {

// ---------------------------------------------------------------------------
// Specifications
// ---------------------------------------------------------------------------

/// Index of the first occurrence of `c` in `s`, or `s.len()` when there is none.
pub open spec fn first_index_of<A>(s: Seq<A>, c: A) -> nat
    decreases s.len(),
{
    if s.len() == 0 {
        0
    } else if s[0] == c {
        0
    } else {
        1 + first_index_of(s.drop_first(), c)
    }
}

/// `str::split_once` with a `char` pattern: the text before the first `c`
/// and the text after it, or `None` when `c` does not occur.
pub open spec fn split_once(s: Seq<char>, c: char) -> Option<(Seq<char>, Seq<char>)> {
    let i = first_index_of(s, c) as int;
    if i < s.len() {
        Some((s.take(i), s.skip(i + 1)))
    } else {
        None
    }
}

/// `str::split` with a `char` pattern: the pieces between the occurrences
/// of `c`. There is always at least one piece; `n` separators give `n + 1`.
pub open spec fn split_all(s: Seq<char>, c: char) -> Seq<Seq<char>>
    decreases s.len(),
{
    if s.len() == 0 {
        seq![Seq::<char>::empty()]
    } else {
        let rest = split_all(s.drop_first(), c);
        if s[0] == c {
            seq![Seq::<char>::empty()] + rest
        } else {
            rest.update(0, seq![s[0]] + rest[0])
        }
    }
}

/// An ASCII decimal digit.
pub open spec fn is_ascii_digit(c: char) -> bool {
    '0' <= c && c <= '9'
}

/// The numeric value of an ASCII decimal digit.
pub open spec fn digit_value(c: char) -> nat {
    ((c as int) - ('0' as int)) as nat
}

/// Every character of `s` is an ASCII decimal digit.
pub open spec fn all_digits(s: Seq<char>) -> bool {
    forall|i: int| 0 <= i < s.len() ==> is_ascii_digit(#[trigger] s[i])
}

/// The value of a string of decimal digits, most significant first.
pub open spec fn digits_value(s: Seq<char>) -> nat
    decreases s.len(),
{
    if s.len() == 0 {
        0
    } else {
        digits_value(s.drop_last()) * 10 + digit_value(s.last())
    }
}

/// `u32`'s `FromStr`: an optional leading `+`, then one or more ASCII
/// digits whose value fits in a `u32`. Anything else is refused.
pub open spec fn parse_u32(s: Seq<char>) -> Option<u32> {
    let digits = if s.len() > 0 && s[0] == '+' {
        s.drop_first()
    } else {
        s
    };
    if digits.len() > 0 && all_digits(digits) && digits_value(digits) <= u32::MAX {
        Some(digits_value(digits) as u32)
    } else {
        None
    }
}

/// The character of a decimal digit `d < 10`.
pub open spec fn digit_char(d: nat) -> char {
    if d == 0 {
        '0'
    } else if d == 1 {
        '1'
    } else if d == 2 {
        '2'
    } else if d == 3 {
        '3'
    } else if d == 4 {
        '4'
    } else if d == 5 {
        '5'
    } else if d == 6 {
        '6'
    } else if d == 7 {
        '7'
    } else if d == 8 {
        '8'
    } else {
        '9'
    }
}

/// The decimal representation of `n` without leading zeros (`Display` of
/// an unsigned integer).
pub open spec fn decimal(n: nat) -> Seq<char>
    decreases n,
{
    if n < 10 {
        seq![digit_char(n)]
    } else {
        decimal(n / 10) + seq![digit_char(n % 10)]
    }
}

/// What `{:?}` prints for a string slice: the text in double quotes, with
/// special and non-printable characters escaped.
pub uninterp spec fn debug_escaped(s: Seq<char>) -> Seq<char>;

/// Text made only of printable ASCII characters (space to `~`) other than
/// the double quote, the backslash and the single quote: `{:?}` escapes none of them.
pub open spec fn plain_text(s: Seq<char>) -> bool {
    forall|i: int|
        0 <= i < s.len() ==> {
            &&& ' ' <= #[trigger] s[i] && s[i] <= '~'
            &&& s[i] != '"'
            &&& s[i] != '\\'
            &&& s[i] != '\''
        }
}

/// `s` between two double quotes.
pub open spec fn quoted(s: Seq<char>) -> Seq<char> {
    seq!['"'] + s + seq!['"']
}

// ---------------------------------------------------------------------------
// Trusted items
// ---------------------------------------------------------------------------

/// `String::push` appends one character at the end of the string.
pub assume_specification[ String::push ](s: &mut String, ch: char)
    ensures
        final(s)@ == old(s)@.push(ch),
;

/// Formats `s` with `{:?}` (std's `Debug` for `str`). The result is named
/// `debug_escaped`; it is stated to be `s` between double quotes when `s` is
/// plain printable ASCII (std's `escape_debug` leaves such characters as
/// they are). Which other characters std escapes, and how, is not stated.
#[verifier::external_body]
pub(crate) fn debug_string(s: &str) -> (r: String)
    ensures
        r@ == debug_escaped(s@),
        plain_text(s@) ==> r@ == quoted(s@),
{
    format!("{:?}", s)
}

// ---------------------------------------------------------------------------
// Lemmas
// ---------------------------------------------------------------------------

/// `split_all` always yields at least one piece.
pub proof fn lemma_split_all_nonempty(s: Seq<char>, c: char)
    ensures
        split_all(s, c).len() >= 1,
    decreases s.len(),
{
    if s.len() > 0 {
        lemma_split_all_nonempty(s.drop_first(), c);
    }
}

/// The first occurrence is where the scan stops.
pub proof fn lemma_first_index_of<A>(s: Seq<A>, c: A, i: int)
    requires
        0 <= i <= s.len(),
        forall|j: int| 0 <= j < i ==> s[j] != c,
        i == s.len() || s[i] == c,
    ensures
        first_index_of(s, c) == i,
    decreases s.len(),
{
    if s.len() > 0 && i > 0 {
        assert forall|j: int| 0 <= j < i - 1 implies s.drop_first()[j] != c by {
            assert(s.drop_first()[j] == s[j + 1]);
        }
        lemma_first_index_of(s.drop_first(), c, i - 1);
    }
}

/// A string of digits is worth at least as much as any of its prefixes.
pub proof fn lemma_digits_value_prefix(s: Seq<char>, k: int)
    requires
        0 <= k <= s.len(),
    ensures
        digits_value(s.take(k)) <= digits_value(s),
    decreases s.len(),
{
    if k < s.len() {
        let t = s.drop_last();
        assert(t.take(k) =~= s.take(k));
        lemma_digits_value_prefix(t, k);
    } else {
        assert(s.take(k) =~= s);
    }
}

/// Extending a digit string by one character.
pub proof fn lemma_digits_value_step(s: Seq<char>, i: int)
    requires
        0 <= i < s.len(),
    ensures
        digits_value(s.take(i + 1)) == digits_value(s.take(i)) * 10 + digit_value(s[i]),
{
    assert(s.take(i + 1).drop_last() =~= s.take(i));
}

// ---------------------------------------------------------------------------
// Executable functions
// ---------------------------------------------------------------------------

/// Copies the characters of `s` into a vector, in order.
pub fn chars_of(s: &str) -> (r: Vec<char>)
    ensures
        r@ == s@,
{
    let mut out: Vec<char> = Vec::new();
    for c in it: s.chars()
        invariant
            out@ == it.seq().take(it.index() as int),
            it.seq() == s@,
    {
        out.push(c);
    }
    out
}

/// Whether two character sequences are equal.
pub fn chars_eq(a: &Vec<char>, b: &Vec<char>) -> (r: bool)
    ensures
        r == (a@ == b@),
{
    if a.len() != b.len() {
        return false;
    }
    let n = a.len();
    for i in 0..n
        invariant
            n == a.len(),
            n == b.len(),
            forall|j: int| 0 <= j < i ==> a@[j] == b@[j],
    {
        if a[i] != b[i] {
            return false;
        }
    }
    assert(a@ =~= b@);
    true
}

/// Whether two string slices hold the same text.
pub fn str_eq(a: &str, b: &str) -> (r: bool)
    ensures
        r == (a@ == b@),
{
    let va = chars_of(a);
    let vb = chars_of(b);
    chars_eq(&va, &vb)
}

/// A new `String` holding the characters of `s`.
pub fn string_of_chars(s: &Vec<char>) -> (r: String)
    ensures
        r@ == s@,
{
    let mut out = String::new();
    let n = s.len();
    for i in 0..n
        invariant
            n == s.len(),
            out@ == s@.take(i as int),
    {
        out.push(s[i]);
        assert(s@.take(i + 1) =~= s@.take(i as int).push(s@[i as int]));
    }
    assert(s@.take(n as int) =~= s@);
    out
}

/// Position of the first `c` in `s`, or `s.len()` when there is none.
pub fn find_char(s: &Vec<char>, c: char) -> (r: usize)
    ensures
        r == first_index_of(s@, c),
        r <= s.len(),
{
    let n = s.len();
    let mut i: usize = 0;
    while i < n
        invariant
            n == s.len(),
            i <= n,
            forall|j: int| 0 <= j < i ==> s@[j] != c,
        decreases n - i,
    {
        if s[i] == c {
            proof {
                lemma_first_index_of(s@, c, i as int);
            }
            return i;
        }
        i = i + 1;
    }
    proof {
        lemma_first_index_of(s@, c, i as int);
    }
    i
}

/// The characters of `s` from `from` (inclusive) to `to` (exclusive).
pub fn slice_chars(s: &Vec<char>, from: usize, to: usize) -> (r: Vec<char>)
    requires
        from <= to <= s.len(),
    ensures
        r@ == s@.subrange(from as int, to as int),
{
    let mut out: Vec<char> = Vec::new();
    let mut i = from;
    while i < to
        invariant
            from <= i <= to,
            to <= s.len(),
            out@ == s@.subrange(from as int, i as int),
        decreases to - i,
    {
        out.push(s[i]);
        assert(s@.subrange(from as int, i + 1) =~= s@.subrange(from as int, i as int).push(
            s@[i as int],
        ));
        i = i + 1;
    }
    out
}

/// `str::split_once` on a character vector.
pub fn split_once_chars(s: &Vec<char>, c: char) -> (r: Option<(Vec<char>, Vec<char>)>)
    ensures
        match r {
            Some((a, b)) => split_once(s@, c) == Some((a@, b@)),
            None => split_once(s@, c) is None,
        },
{
    let i = find_char(s, c);
    if i < s.len() {
        let a = slice_chars(s, 0, i);
        let b = slice_chars(s, i + 1, s.len());
        assert(a@ =~= s@.take(i as int));
        assert(b@ =~= s@.skip(i + 1));
        Some((a, b))
    } else {
        None
    }
}

/// `str::split` on a character vector: every piece between occurrences of `c`.
pub fn split_chars(s: &Vec<char>, c: char) -> (r: Vec<Vec<char>>)
    ensures
        r@.map_values(|p: Vec<char>| p@) == split_all(s@, c),
{
    let n = s.len();
    let mut done: Vec<Vec<char>> = Vec::new();
    let mut cur: Vec<char> = Vec::new();
    let mut i: usize = 0;
    proof {
        assert(s@.skip(0) =~= s@);
        lemma_split_all_nonempty(s@, c);
    }
    while i < n
        invariant
            n == s.len(),
            i <= n,
            split_all(s@, c) =~= done@.map_values(|p: Vec<char>| p@) + seq![
                cur@ + split_all(s@.skip(i as int), c)[0],
            ] + split_all(s@.skip(i as int), c).drop_first(),
        decreases n - i,
    {
        let ghost rest = split_all(s@.skip(i + 1), c);
        proof {
            assert(s@.skip(i as int).drop_first() =~= s@.skip(i + 1));
            assert(s@.skip(i as int)[0] == s@[i as int]);
            lemma_split_all_nonempty(s@.skip(i + 1), c);
        }
        if s[i] == c {
            let ghost old_done = done@;
            let finished = cur;
            done.push(finished);
            cur = Vec::new();
            proof {
                assert(split_all(s@.skip(i as int), c) =~= seq![Seq::<char>::empty()] + rest);
                assert(done@.map_values(|p: Vec<char>| p@) =~= old_done.map_values(
                    |p: Vec<char>| p@,
                ).push(finished@));
                assert(cur@ + rest[0] =~= rest[0]);
            }
        } else {
            let ghost old_cur = cur@;
            cur.push(s[i]);
            proof {
                assert(split_all(s@.skip(i as int), c) =~= rest.update(0, seq![s@[i as int]] + rest[0]));
                assert(old_cur + (seq![s@[i as int]] + rest[0]) =~= cur@ + rest[0]);
                assert(rest.update(0, seq![s@[i as int]] + rest[0]).drop_first() =~= rest.drop_first());
            }
        }
        i = i + 1;
    }
    proof {
        assert(s@.skip(n as int) =~= Seq::<char>::empty());
        assert(cur@ + Seq::<char>::empty() =~= cur@);
    }
    let ghost before = done@;
    done.push(cur);
    assert(done@.map_values(|p: Vec<char>| p@) =~= before.map_values(|p: Vec<char>| p@).push(
        cur@,
    ));
    done
}

/// `u32::from_str` on a character vector.
pub fn parse_u32_chars(s: &Vec<char>) -> (r: Option<u32>)
    ensures
        r == parse_u32(s@),
{
    let n = s.len();
    let start: usize = if n > 0 && s[0] == '+' {
        1
    } else {
        0
    };
    let ghost digits = s@.subrange(start as int, n as int);
    assert(digits =~= (if s@.len() > 0 && s@[0] == '+' {
        s@.drop_first()
    } else {
        s@
    }));
    if start == n {
        return None;
    }
    let mut acc: u64 = 0;
    let mut i = start;
    while i < n
        invariant
            start <= i <= n,
            n == s.len(),
            digits == s@.subrange(start as int, n as int),
            digits == (if s@.len() > 0 && s@[0] == '+' {
                s@.drop_first()
            } else {
                s@
            }),
            acc == digits_value(digits.take(i - start)),
            acc <= u32::MAX,
            all_digits(digits.take(i - start)),
        decreases n - i,
    {
        let c = s[i];
        assert(digits[i - start] == c);
        if !('0' <= c && c <= '9') {
            assert(!all_digits(digits));
            return None;
        }
        let d = (c as u32) - ('0' as u32);
        proof {
            lemma_digits_value_step(digits, i - start);
            assert forall|j: int| 0 <= j < i + 1 - start implies is_ascii_digit(
                #[trigger] digits.take(i + 1 - start)[j],
            ) by {
                if j < i - start {
                    assert(digits.take(i + 1 - start)[j] == digits.take(i - start)[j]);
                }
            }
        }
        acc = acc * 10 + d as u64;
        i = i + 1;
        if acc > 0xffff_ffff {
            proof {
                if all_digits(digits) {
                    lemma_digits_value_prefix(digits, i - start);
                }
            }
            return None;
        }
    }
    assert(digits.take(n - start) =~= digits);
    Some(acc as u32)
}

/// The character of a decimal digit.
pub fn digit_to_char(d: u32) -> (c: char)
    requires
        d < 10,
    ensures
        c == digit_char(d as nat),
{
    if d == 0 {
        '0'
    } else if d == 1 {
        '1'
    } else if d == 2 {
        '2'
    } else if d == 3 {
        '3'
    } else if d == 4 {
        '4'
    } else if d == 5 {
        '5'
    } else if d == 6 {
        '6'
    } else if d == 7 {
        '7'
    } else if d == 8 {
        '8'
    } else {
        '9'
    }
}

/// Appends the decimal representation of `n` to `out`.
pub fn push_decimal(out: &mut String, n: u64)
    ensures
        final(out)@ == old(out)@ + decimal(n as nat),
    decreases n,
{
    if n >= 10 {
        push_decimal(out, n / 10);
    }
    out.push(digit_to_char((n % 10) as u32));
    proof {
        if n >= 10 {
            assert(old(out)@ + decimal(n as nat) =~= old(out)@ + decimal((n / 10) as nat) + seq![
                digit_char((n % 10) as nat),
            ]);
        } else {
            assert(n % 10 == n);
        }
    }
}

} // verus!
