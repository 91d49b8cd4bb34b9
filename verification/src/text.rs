//! Character-level string helpers and decimal parsing.

use vstd::prelude::*;

verus! {

/// `c` is one of the ASCII digits `0`..`9`.
pub open spec fn is_digit(c: char) -> bool {
    '0' <= c && c <= '9'
}

/// Numeric value of an ASCII digit.
pub open spec fn digit_value(c: char) -> nat {
    (c as int - '0' as int) as nat
}

/// Every character of `s` is an ASCII digit.
pub open spec fn all_digits(s: Seq<char>) -> bool {
    forall|i: int| 0 <= i < s.len() ==> is_digit(#[trigger] s[i])
}

/// Decimal value of a string of digits, most significant first.
pub open spec fn decimal_value(s: Seq<char>) -> nat
    decreases s.len(),
{
    if s.len() == 0 {
        0
    } else {
        decimal_value(s.drop_last()) * 10 + digit_value(s.last())
    }
}

/// The digits that an unsigned integer parse reads: one leading `+` is skipped.
pub open spec fn unsigned_body(s: Seq<char>) -> Seq<char> {
    if s.len() > 0 && s[0] == '+' {
        s.drop_first()
    } else {
        s
    }
}

/// What parsing `s` as an unsigned integer no larger than `max` gives:
/// an optional `+`, then at least one digit and nothing else, of value at most `max`.
pub open spec fn parse_unsigned(s: Seq<char>, max: nat) -> Option<nat> {
    let body = unsigned_body(s);
    if body.len() > 0 && all_digits(body) && decimal_value(body) <= max {
        Some(decimal_value(body))
    } else {
        None
    }
}

/// `s` splits at every occurrence of `sep`, as `str::split` with a one-character
/// pattern does; the empty string gives one empty piece.
pub open spec fn split_on(s: Seq<char>, sep: char) -> Seq<Seq<char>>
    decreases s.len(),
{
    if s.len() == 0 {
        seq![Seq::<char>::empty()]
    } else {
        let rest = split_on(s.drop_last(), sep);
        if s.last() == sep {
            rest.push(Seq::<char>::empty())
        } else {
            rest.update(rest.len() - 1, rest.last().push(s.last()))
        }
    }
}

/// `s` contains the character `c`.
pub open spec fn has_char(s: Seq<char>, c: char) -> bool {
    exists|i: int| 0 <= i < s.len() && s[i] == c
}

/// `prefix` is a prefix of `s`.
pub open spec fn is_prefix(prefix: Seq<char>, s: Seq<char>) -> bool {
    prefix.len() <= s.len() && s.subrange(0, prefix.len() as int) == prefix
}

/// `part` occurs in `s`.
pub open spec fn holds_text(s: Seq<char>, part: Seq<char>) -> bool {
    exists|i: int| 0 <= i && i + part.len() <= s.len() && #[trigger] s.subrange(i, i + part.len()) == part
}

/// `suffix` is a suffix of `s`.
pub open spec fn is_suffix(suffix: Seq<char>, s: Seq<char>) -> bool {
    suffix.len() <= s.len() && s.subrange(s.len() - suffix.len(), s.len() as int) == suffix
}

pub proof fn lemma_split_on_nonempty(s: Seq<char>, sep: char)
    ensures
        split_on(s, sep).len() >= 1,
    decreases s.len(),
{
    if s.len() > 0 {
        lemma_split_on_nonempty(s.drop_last(), sep);
    }
}

/// A string that holds the separator splits into at least two pieces.
pub proof fn lemma_split_on_has_two(s: Seq<char>, sep: char)
    requires
        has_char(s, sep),
    ensures
        split_on(s, sep).len() >= 2,
    decreases s.len(),
{
    let i = choose|i: int| 0 <= i < s.len() && s[i] == sep;
    lemma_split_on_nonempty(s.drop_last(), sep);
    if s.last() != sep {
        assert(s.drop_last()[i] == sep);
        lemma_split_on_has_two(s.drop_last(), sep);
    }
}

/// A string without the separator is a single piece.
pub proof fn lemma_split_on_single(s: Seq<char>, sep: char)
    requires
        !has_char(s, sep),
    ensures
        split_on(s, sep).len() == 1,
    decreases s.len(),
{
    if s.len() > 0 {
        assert(s.last() == s[s.len() - 1]);
        assert forall|i: int| 0 <= i < s.drop_last().len() implies s.drop_last()[i] != sep by {
            assert(s.drop_last()[i] == s[i]);
        }
        lemma_split_on_single(s.drop_last(), sep);
    }
}

/// A string without the separator is its own one piece.
pub proof fn lemma_split_on_whole(s: Seq<char>, sep: char)
    requires
        !has_char(s, sep),
    ensures
        split_on(s, sep) == seq![s],
    decreases s.len(),
{
    if s.len() > 0 {
        assert(s.last() == s[s.len() - 1]);
        assert forall|i: int| 0 <= i < s.drop_last().len() implies s.drop_last()[i] != sep by {
            assert(s.drop_last()[i] == s[i]);
        }
        lemma_split_on_whole(s.drop_last(), sep);
        assert(s.drop_last().push(s.last()) =~= s);
        assert(seq![s.drop_last()].update(0, s.drop_last().push(s.last())) =~= seq![s]);
    } else {
        assert(s =~= Seq::<char>::empty());
    }
}

/// Two pieces without the separator, joined by it, split back into those two.
pub proof fn lemma_split_on_joined(a: Seq<char>, b: Seq<char>, sep: char)
    requires
        !has_char(a, sep),
        !has_char(b, sep),
    ensures
        split_on(a + seq![sep] + b, sep) == seq![a, b],
    decreases b.len(),
{
    let x = a + seq![sep] + b;
    if b.len() == 0 {
        assert(b =~= Seq::<char>::empty());
        assert(x =~= a.push(sep));
        assert(x.drop_last() =~= a);
        lemma_split_on_whole(a, sep);
        assert(seq![a].push(Seq::<char>::empty()) =~= seq![a, b]);
    } else {
        assert forall|i: int| 0 <= i < b.drop_last().len() implies b.drop_last()[i] != sep by {
            assert(b.drop_last()[i] == b[i]);
        }
        lemma_split_on_joined(a, b.drop_last(), sep);
        assert(x.drop_last() =~= a + seq![sep] + b.drop_last());
        assert(x.last() == b[b.len() - 1]);
        assert(b.drop_last().push(b.last()) =~= b);
        assert(seq![a, b.drop_last()].update(1, b.drop_last().push(x.last())) =~= seq![a, b]);
    }
}

/// Whether `s` splits at `sep` into more than one piece, that is, holds `sep`.
pub fn has_second_piece(s: &str, sep: char) -> (r: bool)
    ensures
        r == (split_on(s@, sep).len() >= 2),
{
    let r = contains_char(s, sep);
    proof {
        if r {
            lemma_split_on_has_two(s@, sep);
        } else {
            lemma_split_on_single(s@, sep);
        }
    }
    r
}

/// A prefix's characters are the string's first characters.
pub proof fn lemma_prefix_char(prefix: Seq<char>, s: Seq<char>, i: int)
    requires
        is_prefix(prefix, s),
        0 <= i < prefix.len(),
    ensures
        s[i] == prefix[i],
{
    assert(s.subrange(0, prefix.len() as int)[i] == s[i]);
}

proof fn lemma_decimal_value_grows(s: Seq<char>, k: int)
    requires
        0 <= k <= s.len(),
        all_digits(s),
    ensures
        decimal_value(s.take(k)) <= decimal_value(s),
    decreases s.len() - k,
{
    if k < s.len() {
        lemma_decimal_value_grows(s, k + 1);
        assert(s.take(k + 1).drop_last() =~= s.take(k));
    } else {
        assert(s.take(k) =~= s);
    }
}

/// Character-wise equality of two strings.
pub fn str_equal(a: &str, b: &str) -> (r: bool)
    ensures
        r == (a@ == b@),
{
    let n = a.unicode_len();
    let m = b.unicode_len();
    if n != m {
        return false;
    }
    let mut i: usize = 0;
    while i < n
        invariant
            n == a@.len(),
            m == b@.len(),
            n == m,
            i <= n,
            forall|j: int| 0 <= j < i ==> a@[j] == b@[j],
        decreases n - i,
    {
        if a.get_char(i) != b.get_char(i) {
            return false;
        }
        i = i + 1;
    }
    assert(a@ =~= b@);
    true
}

/// Whether `s` begins with `prefix`.
pub fn starts_with(s: &str, prefix: &str) -> (r: bool)
    ensures
        r == is_prefix(prefix@, s@),
{
    let n = s.unicode_len();
    let m = prefix.unicode_len();
    if m > n {
        return false;
    }
    let mut i: usize = 0;
    while i < m
        invariant
            n == s@.len(),
            m == prefix@.len(),
            m <= n,
            i <= m,
            forall|j: int| 0 <= j < i ==> s@[j] == prefix@[j],
        decreases m - i,
    {
        if s.get_char(i) != prefix.get_char(i) {
            assert(s@.subrange(0, m as int)[i as int] != prefix@[i as int]);
            return false;
        }
        i = i + 1;
    }
    assert(s@.subrange(0, m as int) =~= prefix@);
    true
}

/// Whether `s` ends with `suffix`.
pub fn ends_with(s: &str, suffix: &str) -> (r: bool)
    ensures
        r == is_suffix(suffix@, s@),
{
    let n = s.unicode_len();
    let m = suffix.unicode_len();
    if m > n {
        return false;
    }
    let off = n - m;
    let mut i: usize = 0;
    while i < m
        invariant
            n == s@.len(),
            m == suffix@.len(),
            m <= n,
            off == n - m,
            i <= m,
            forall|j: int| 0 <= j < i ==> s@[off + j] == suffix@[j],
        decreases m - i,
    {
        if s.get_char(off + i) != suffix.get_char(i) {
            assert(s@.subrange(off as int, n as int)[i as int] != suffix@[i as int]);
            return false;
        }
        i = i + 1;
    }
    assert(s@.subrange(off as int, n as int) =~= suffix@);
    true
}

/// Whether `s` contains the character `c`.
pub fn contains_char(s: &str, c: char) -> (r: bool)
    ensures
        r == has_char(s@, c),
{
    let n = s.unicode_len();
    let mut i: usize = 0;
    while i < n
        invariant
            n == s@.len(),
            i <= n,
            forall|j: int| 0 <= j < i ==> s@[j] != c,
        decreases n - i,
    {
        if s.get_char(i) == c {
            return true;
        }
        i = i + 1;
    }
    false
}

/// Splits `s` at every `sep`, as `s.split(sep)` collects.
pub fn split_char(s: &str, sep: char) -> (pieces: Vec<String>)
    ensures
        pieces@.map_values(|p: String| p@) == split_on(s@, sep),
{
    let n = s.unicode_len();
    let mut pieces: Vec<String> = Vec::new();
    let mut start: usize = 0;
    let mut i: usize = 0;
    assert(s@.take(0) =~= Seq::<char>::empty());
    assert(pieces@.map_values(|p: String| p@).push(s@.subrange(0, 0)) =~= split_on(
        s@.take(0),
        sep,
    ));
    while i < n
        invariant
            n == s@.len(),
            start <= i <= n,
            pieces@.map_values(|p: String| p@).push(s@.subrange(start as int, i as int))
                == split_on(s@.take(i as int), sep),
        decreases n - i,
    {
        let c = s.get_char(i);
        let ghost before = pieces@.map_values(|p: String| p@);
        assert(s@.take(i + 1).drop_last() =~= s@.take(i as int));
        assert(s@.take(i + 1).last() == c);
        if c == sep {
            let piece = s.substring_char(start, i).to_owned();
            pieces.push(piece);
            assert(pieces@.map_values(|p: String| p@) =~= before.push(
                s@.subrange(start as int, i as int),
            ));
            start = i + 1;
            assert(s@.subrange(start as int, i + 1) =~= Seq::<char>::empty());
        } else {
            assert(s@.subrange(start as int, i + 1) =~= s@.subrange(start as int, i as int).push(
                c,
            ));
            assert(before.push(s@.subrange(start as int, i as int)).update(
                before.len() as int,
                s@.subrange(start as int, i as int).push(c),
            ) =~= before.push(s@.subrange(start as int, i + 1)));
        }
        i = i + 1;
    }
    let last = s.substring_char(start, n).to_owned();
    pieces.push(last);
    assert(s@.take(n as int) =~= s@);
    assert(pieces@.map_values(|p: String| p@) =~= split_on(s@, sep));
    pieces
}

/// Parses `s` as an unsigned decimal no larger than `max`, as `str::parse` does for
/// unsigned integer types.
pub fn parse_decimal(s: &str, max: u32) -> (r: Option<u32>)
    ensures
        r is Some == parse_unsigned(s@, max as nat) is Some,
        r matches Some(v) ==> v == parse_unsigned(s@, max as nat)->0,
{
    let n = s.unicode_len();
    let start: usize = if n > 0 && s.get_char(0) == '+' {
        1
    } else {
        0
    };
    let ghost body = unsigned_body(s@);
    assert(body =~= s@.subrange(start as int, n as int));
    if start == n {
        return None;
    }
    let mut acc: u64 = 0;
    let mut i: usize = start;
    while i < n
        invariant
            n == s@.len(),
            start < n,
            start <= i <= n,
            body == s@.subrange(start as int, n as int),
            body == unsigned_body(s@),
            all_digits(body.take(i - start)),
            acc == decimal_value(body.take(i - start)),
            acc <= max,
        decreases n - i,
    {
        let c = s.get_char(i);
        let k = i - start;
        assert(body[k as int] == c);
        if !('0' <= c && c <= '9') {
            assert(!is_digit(body[k as int]));
            assert(!all_digits(body));
            assert(parse_unsigned(s@, max as nat) is None);
            return None;
        }
        let d = (c as u32 - '0' as u32) as u64;
        assert(body.take(k + 1).drop_last() =~= body.take(k as int));
        assert(body.take(k + 1).last() == c);
        acc = acc * 10 + d;
        assert(all_digits(body.take(k + 1)));
        assert(acc == decimal_value(body.take(k + 1)));
        if acc > max as u64 {
            proof {
                if all_digits(body) {
                    lemma_decimal_value_grows(body, k + 1);
                    assert(decimal_value(body) > max);
                }
                assert(parse_unsigned(s@, max as nat) is None);
            }
            return None;
        }
        i = i + 1;
    }
    assert(body.take(n - start) =~= body);
    Some(acc as u32)
}

/// `s` parsed as a `u32`, as `s.parse::<u32>().ok()`.
pub fn parse_u32(s: &str) -> (r: Option<u32>)
    ensures
        r is Some == parse_unsigned(s@, u32::MAX as nat) is Some,
        r matches Some(v) ==> v == parse_unsigned(s@, u32::MAX as nat)->0,
{
    parse_decimal(s, u32::MAX)
}

/// `s` parsed as a `u8`, as `s.parse::<u8>().ok()`.
pub fn parse_u8(s: &str) -> (r: Option<u8>)
    ensures
        r is Some == parse_unsigned(s@, u8::MAX as nat) is Some,
        r matches Some(v) ==> v == parse_unsigned(s@, u8::MAX as nat)->0,
{
    match parse_decimal(s, 255) {
        Some(v) => Some(v as u8),
        None => None,
    }
}

/// The `k`-th piece of `s` split at `sep`, as `s.split(sep).collect::<Vec<_>>()[k]`.
pub fn split_piece(s: &str, sep: char, k: usize) -> (r: String)
    requires
        k < split_on(s@, sep).len(),
    ensures
        r@ == split_on(s@, sep)[k as int],
{
    let mut pieces = split_char(s, sep);
    assert(pieces@.map_values(|p: String| p@)[k as int] == pieces@[k as int]@);
    pieces.swap_remove(k)
}

} // verus!
