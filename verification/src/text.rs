//! Character-level helpers: substring search, numeric prefixes, decimal
//! parsing and rendering, each specified over `Seq<char>`.
use vstd::prelude::*;

verus! {

broadcast use vstd::string::group_string_axioms;

/// The characters of `s`, in order.
pub fn chars_of(s: &str) -> (v: Vec<char>)
    ensures
        v@ == s@,
{
    let mut v: Vec<char> = Vec::new();
    for c in it: s.chars()
        invariant
            v@ == it.seq().take(it.index()),
            it.seq() == s@,
    {
        v.push(c);
        assert(v@ =~= it.seq().take(it.index() + 1));
    }
    assert(v@ =~= s@);
    v
}


/// `needle` occurs in `hay` starting at position `i`.
pub open spec fn occurs_at(hay: Seq<char>, needle: Seq<char>, i: int) -> bool {
    &&& 0 <= i
    &&& i + needle.len() <= hay.len()
    &&& hay.subrange(i, i + needle.len()) == needle
}

/// `needle` occurs somewhere in `hay` (the empty sequence occurs everywhere).
pub open spec fn seq_contains(hay: Seq<char>, needle: Seq<char>) -> bool {
    exists|i: int| occurs_at(hay, needle, i)
}

/// The first position at or after `from` where `needle` occurs in `hay`.
pub open spec fn find_from(hay: Seq<char>, needle: Seq<char>, from: int) -> Option<int>
    decreases hay.len() + 1 - from,
{
    if from < 0 || from + needle.len() > hay.len() {
        None
    } else if occurs_at(hay, needle, from) {
        Some(from)
    } else {
        find_from(hay, needle, from + 1)
    }
}

/// The first position where `needle` occurs in `hay`.
pub open spec fn find_first(hay: Seq<char>, needle: Seq<char>) -> Option<int> {
    find_from(hay, needle, 0)
}

/// `find_from` returns the least position at or after `from` where the needle occurs.
pub proof fn lemma_find_from(hay: Seq<char>, needle: Seq<char>, from: int)
    requires
        0 <= from,
    ensures
        match find_from(hay, needle, from) {
            Some(i) => from <= i && occurs_at(hay, needle, i) && forall|j: int|
                from <= j < i ==> !occurs_at(hay, needle, j),
            None => forall|j: int| from <= j ==> !occurs_at(hay, needle, j),
        },
    decreases hay.len() + 1 - from,
{
    if from + needle.len() > hay.len() {
    } else if occurs_at(hay, needle, from) {
    } else {
        lemma_find_from(hay, needle, from + 1);
    }
}

/// The first occurrence exists exactly when the needle is contained.
pub proof fn lemma_find_first_contains(hay: Seq<char>, needle: Seq<char>)
    ensures
        find_first(hay, needle) is Some <==> seq_contains(hay, needle),
        find_first(hay, needle) matches Some(i) ==> occurs_at(hay, needle, i),
{
    lemma_find_from(hay, needle, 0);
}

/// An `Option<usize>` seen as an optional integer.
pub open spec fn opt_int(o: Option<usize>) -> Option<int> {
    match o {
        Some(i) => Some(i as int),
        None => None,
    }
}

/// Whether `needle` occurs in `hay` at position `i`.
fn occurs_at_exec(hay: &[char], needle: &[char], i: usize) -> (r: bool)
    requires
        i + needle@.len() <= hay@.len(),
    ensures
        r == occurs_at(hay@, needle@, i as int),
{
    let n = needle.len();
    let hl = hay.len();
    let mut j: usize = 0;
    while j < n
        invariant
            j <= n,
            n == needle@.len(),
            hl == hay@.len(),
            i + n <= hay@.len(),
            forall|k: int| 0 <= k < j ==> hay@[i + k] == needle@[k],
        decreases n - j,
    {
        if hay[i + j] != needle[j] {
            assert(hay@.subrange(i as int, i + n)[j as int] != needle@[j as int]);
            return false;
        }
        j = j + 1;
    }
    assert(hay@.subrange(i as int, i + n) =~= needle@);
    true
}

/// The first position where `needle` occurs in `hay`.
pub fn find_chars(hay: &[char], needle: &[char]) -> (r: Option<usize>)
    ensures
        opt_int(r) == find_first(hay@, needle@),
{
    let h = hay.len();
    let n = needle.len();
    if n > h {
        return None;
    }
    let mut i: usize = 0;
    loop
        invariant
            n <= h,
            i <= h - n,
            h == hay@.len(),
            n == needle@.len(),
            find_first(hay@, needle@) == find_from(hay@, needle@, i as int),
        decreases h - n - i,
    {
        if occurs_at_exec(hay, needle, i) {
            return Some(i);
        }
        if i == h - n {
            assert(find_from(hay@, needle@, i + 1) is None);
            return None;
        }
        i = i + 1;
    }
}

/// Whether `needle` occurs in `hay`.
pub fn contains_chars(hay: &[char], needle: &[char]) -> (r: bool)
    ensures
        r == seq_contains(hay@, needle@),
{
    proof {
        lemma_find_first_contains(hay@, needle@);
    }
    find_chars(hay, needle).is_some()
}

/// Whether the text `hay` contains the text `needle`.
pub fn str_contains(hay: &str, needle: &str) -> (r: bool)
    ensures
        r == seq_contains(hay@, needle@),
{
    let h = chars_of(hay);
    let n = chars_of(needle);
    contains_chars(h.as_slice(), n.as_slice())
}


/// Whether `c` has the Unicode numeric property (general category Nd, Nl or No),
/// as `char::is_numeric` decides it.
pub uninterp spec fn unicode_numeric(c: char) -> bool;

/// Calls `char::is_numeric` (std). The contract claims that the answer depends
/// on the character alone (it is read from the Unicode tables, named
/// `unicode_numeric` here) and that among ASCII characters exactly the digits
/// `'0'..='9'` are numeric, as the general categories make them.
#[verifier::external_body]
fn char_is_numeric(c: char) -> (b: bool)
    ensures
        b == unicode_numeric(c),
        (c as u32) < 128 ==> (b <==> ('0' <= c && c <= '9')),
{
    c.is_numeric()
}

/// Whether `c` is numeric: among ASCII characters exactly the digits, beyond
/// ASCII as the Unicode tables say.
pub open spec fn is_numeric_char(c: char) -> bool {
    if (c as u32) < 128 {
        is_digit(c)
    } else {
        unicode_numeric(c)
    }
}

/// The first position at or after `from` holding a character that is not numeric.
pub open spec fn first_non_numeric_from(s: Seq<char>, from: int) -> Option<int>
    decreases s.len() - from,
{
    if from < 0 || from >= s.len() {
        None
    } else if !is_numeric_char(s[from]) {
        Some(from)
    } else {
        first_non_numeric_from(s, from + 1)
    }
}

/// The first position holding a character that is not numeric.
pub open spec fn first_non_numeric(s: Seq<char>) -> Option<int> {
    first_non_numeric_from(s, 0)
}

/// The first position in `s` whose character is not numeric.
pub fn find_non_numeric(s: &[char]) -> (r: Option<usize>)
    ensures
        opt_int(r) == first_non_numeric(s@),
{
    let n = s.len();
    let mut i: usize = 0;
    while i < n
        invariant
            i <= n,
            n == s@.len(),
            first_non_numeric(s@) == first_non_numeric_from(s@, i as int),
        decreases n - i,
    {
        if !char_is_numeric(s[i]) {
            return Some(i);
        }
        i = i + 1;
    }
    None
}

/// A position found by `first_non_numeric` lies inside the text.
pub proof fn lemma_first_non_numeric_bound(s: Seq<char>)
    ensures
        first_non_numeric(s) matches Some(i) ==> 0 <= i < s.len(),
{
    lemma_first_non_numeric_from_bound(s, 0);
}

proof fn lemma_first_non_numeric_from_bound(s: Seq<char>, from: int)
    requires
        0 <= from,
    ensures
        first_non_numeric_from(s, from) matches Some(i) ==> from <= i < s.len(),
    decreases s.len() - from,
{
    if from < s.len() && is_numeric_char(s[from]) {
        lemma_first_non_numeric_from_bound(s, from + 1);
    }
}

/// `first_non_numeric_from` returns the least position at or after `from`
/// whose character is not numeric.
pub proof fn lemma_first_non_numeric_from(s: Seq<char>, from: int)
    requires
        0 <= from,
    ensures
        match first_non_numeric_from(s, from) {
            Some(i) => from <= i < s.len() && !is_numeric_char(s[i]) && forall|k: int|
                from <= k < i ==> is_numeric_char(#[trigger] s[k]),
            None => forall|k: int| from <= k < s.len() ==> is_numeric_char(#[trigger] s[k]),
        },
    decreases s.len() - from,
{
    if from < s.len() && is_numeric_char(s[from]) {
        lemma_first_non_numeric_from(s, from + 1);
    }
}

/// A numeric run that ends at `e`, before the text does, is what
/// `first_non_numeric` finds.
pub proof fn lemma_first_non_numeric_at(s: Seq<char>, e: int)
    requires
        0 <= e < s.len(),
        !is_numeric_char(s[e]),
        forall|k: int| 0 <= k < e ==> is_numeric_char(#[trigger] s[k]),
    ensures
        first_non_numeric(s) == Some(e),
{
    lemma_first_non_numeric_from(s, 0);
    match first_non_numeric(s) {
        Some(i) => {
            if i < e {
                assert(is_numeric_char(s[i]));
            } else if i > e {
                assert(is_numeric_char(s[e]));
            }
        },
        None => {
            assert(is_numeric_char(s[e]));
        },
    }
}

/// A text that is numeric throughout has no first non-numeric position.
pub proof fn lemma_first_non_numeric_none(s: Seq<char>)
    requires
        forall|k: int| 0 <= k < s.len() ==> is_numeric_char(#[trigger] s[k]),
    ensures
        first_non_numeric(s) is None,
{
    lemma_first_non_numeric_from(s, 0);
}

/// The first occurrence of `needle` is at `p` when it occurs there and nowhere before.
pub proof fn lemma_find_first_at(hay: Seq<char>, needle: Seq<char>, p: int)
    requires
        occurs_at(hay, needle, p),
        forall|j: int| 0 <= j < p ==> !occurs_at(hay, needle, j),
    ensures
        find_first(hay, needle) == Some(p),
{
    lemma_find_from(hay, needle, 0);
    match find_first(hay, needle) {
        Some(i) => {
            if i > p {
                assert(!occurs_at(hay, needle, p));
            }
        },
        None => {
            assert(!occurs_at(hay, needle, p));
        },
    }
}

/// A needle that occurs nowhere has no first occurrence.
pub proof fn lemma_find_first_none(hay: Seq<char>, needle: Seq<char>)
    requires
        forall|j: int| !occurs_at(hay, needle, j),
    ensures
        find_first(hay, needle) is None,
{
    lemma_find_from(hay, needle, 0);
}

/// A one-character needle occurs exactly where that character stands.
pub proof fn lemma_occurs_char(hay: Seq<char>, c: char, j: int)
    ensures
        occurs_at(hay, seq![c], j) <==> (0 <= j < hay.len() && hay[j] == c),
{
    if 0 <= j < hay.len() {
        if hay[j] == c {
            assert(hay.subrange(j, j + 1) =~= seq![c]);
        } else {
            assert(hay.subrange(j, j + 1)[0] != seq![c][0]);
        }
    }
}

/// The first `c` in `hay` is at `p` when `hay[p]` is `c` and no earlier character is.
pub proof fn lemma_find_first_char(hay: Seq<char>, c: char, p: int)
    requires
        0 <= p < hay.len(),
        hay[p] == c,
        forall|j: int| 0 <= j < p ==> hay[j] != c,
    ensures
        find_first(hay, seq![c]) == Some(p),
{
    lemma_occurs_char(hay, c, p);
    assert forall|j: int| 0 <= j < p implies !occurs_at(hay, seq![c], j) by {
        lemma_occurs_char(hay, c, j);
    }
    lemma_find_first_at(hay, seq![c], p);
}

/// A character that `hay` does not hold has no first occurrence.
pub proof fn lemma_find_first_char_none(hay: Seq<char>, c: char)
    requires
        forall|j: int| 0 <= j < hay.len() ==> hay[j] != c,
    ensures
        find_first(hay, seq![c]) is None,
{
    assert forall|j: int| !occurs_at(hay, seq![c], j) by {
        lemma_occurs_char(hay, c, j);
    }
    lemma_find_first_none(hay, seq![c]);
}

/// An ASCII decimal digit.
pub open spec fn is_digit(c: char) -> bool {
    '0' <= c && c <= '9'
}

/// Every character of `s` is an ASCII decimal digit.
pub open spec fn all_digits(s: Seq<char>) -> bool {
    forall|i: int| 0 <= i < s.len() ==> is_digit(#[trigger] s[i])
}

/// The value of an ASCII digit.
pub open spec fn digit_value(c: char) -> int {
    c as int - '0' as int
}

/// The number that the digits `s` spell in base ten (most significant first).
pub open spec fn digits_value(s: Seq<char>) -> int
    decreases s.len(),
{
    if s.len() == 0 {
        0
    } else {
        digits_value(s.drop_last()) * 10 + digit_value(s.last())
    }
}

/// What `u32::from_str` accepts: an optional `+` followed by at least one ASCII
/// digit, whose value fits in a `u32`; anything else (empty text, a sign
/// alone, `-`, any other character, overflow) is refused.
pub open spec fn parse_u32_spec(s: Seq<char>) -> Option<u32> {
    let digits = if s.len() > 0 && s[0] == '+' {
        s.drop_first()
    } else {
        s
    };
    if digits.len() > 0 && all_digits(digits) && digits_value(digits) <= u32::MAX {
        Some(digits_value(digits) as u32)
    } else {
        None
    }
}

/// The value of a string of digits is at least that of any of its prefixes.
proof fn lemma_digits_value_prefix(s: Seq<char>, k: int)
    requires
        all_digits(s),
        0 <= k <= s.len(),
    ensures
        0 <= digits_value(s.subrange(0, k)) <= digits_value(s),
    decreases s.len(),
{
    if s.len() == 0 {
        assert(s.subrange(0, k) =~= s);
    } else if k == s.len() {
        assert(s.subrange(0, k) =~= s);
        lemma_digits_value_nonneg(s);
    } else {
        let t = s.drop_last();
        assert(s.subrange(0, k) =~= t.subrange(0, k));
        assert(all_digits(t)) by {
            assert forall|i: int| 0 <= i < t.len() implies is_digit(#[trigger] t[i]) by {
                assert(t[i] == s[i]);
            }
        }
        lemma_digits_value_prefix(t, k);
        assert(is_digit(s[s.len() - 1]));
    }
}

/// The value of a string of digits is never negative.
proof fn lemma_digits_value_nonneg(s: Seq<char>)
    requires
        all_digits(s),
    ensures
        0 <= digits_value(s),
    decreases s.len(),
{
    if s.len() > 0 {
        let t = s.drop_last();
        assert(all_digits(t)) by {
            assert forall|i: int| 0 <= i < t.len() implies is_digit(#[trigger] t[i]) by {
                assert(t[i] == s[i]);
            }
        }
        lemma_digits_value_nonneg(t);
        assert(is_digit(s[s.len() - 1]));
    }
}

/// Parses decimal text as `u32::from_str` does.
pub fn parse_u32(s: &[char]) -> (r: Option<u32>)
    ensures
        r == parse_u32_spec(s@),
{
    let n = s.len();
    let start: usize = if n > 0 && s[0] == '+' {
        1
    } else {
        0
    };
    let ghost digits = if n > 0 && s@[0] == '+' {
        s@.drop_first()
    } else {
        s@
    };
    assert(digits =~= s@.subrange(start as int, n as int));
    if start == n {
        return None;
    }
    let mut acc: u64 = 0;
    let mut i: usize = start;
    while i < n
        invariant
            start <= i <= n,
            n == s@.len(),
            start < n,
            digits == s@.subrange(start as int, n as int),
            digits == (if s@.len() > 0 && s@[0] == '+' {
                s@.drop_first()
            } else {
                s@
            }),
            all_digits(s@.subrange(start as int, i as int)),
            acc as int == digits_value(s@.subrange(start as int, i as int)),
            acc <= u32::MAX,
        decreases n - i,
    {
        let c = s[i];
        if !('0' <= c && c <= '9') {
            assert(digits[i - start] == c);
            return None;
        }
        let ghost prev = s@.subrange(start as int, i as int);
        let ghost next = s@.subrange(start as int, i + 1);
        assert(next.drop_last() =~= prev);
        assert(all_digits(next)) by {
            assert forall|k: int| 0 <= k < next.len() implies is_digit(#[trigger] next[k]) by {
                if k < prev.len() {
                    assert(next[k] == prev[k]);
                }
            }
        }
        let d: u64 = (c as u32 - '0' as u32) as u64;
        acc = acc * 10 + d;
        if acc > 4294967295u64 {
            proof {
                if all_digits(digits) {
                    assert(next =~= digits.subrange(0, i + 1 - start));
                    lemma_digits_value_prefix(digits, i + 1 - start);
                }
            }
            return None;
        }
        i = i + 1;
    }
    assert(s@.subrange(start as int, i as int) =~= digits);
    Some(acc as u32)
}


/// The ASCII digit for `d` (for `d` below ten).
pub open spec fn digit_char(d: nat) -> char {
    if d == 0 {
        '0'
    } else if d == 1 {
        '1'
    } else if d == 2 {
        '2'
    } else if d == 3 {
        '3'
    } else if d == 4 {
        '4'
    } else if d == 5 {
        '5'
    } else if d == 6 {
        '6'
    } else if d == 7 {
        '7'
    } else if d == 8 {
        '8'
    } else {
        '9'
    }
}

/// The decimal text of `n`, without sign or leading zeros, as integers display.
pub open spec fn decimal(n: nat) -> Seq<char>
    decreases n,
{
    if n < 10 {
        seq![digit_char(n)]
    } else {
        decimal(n / 10).push(digit_char(n % 10))
    }
}

/// The one-character text of the digit `d`.
fn digit_str(d: u64) -> (r: &'static str)
    requires
        d < 10,
    ensures
        r@ == seq![digit_char(d as nat)],
{
    proof {
        reveal_strlit("0");
        reveal_strlit("1");
        reveal_strlit("2");
        reveal_strlit("3");
        reveal_strlit("4");
        reveal_strlit("5");
        reveal_strlit("6");
        reveal_strlit("7");
        reveal_strlit("8");
        reveal_strlit("9");
    }
    let r = match d {
        0 => "0",
        1 => "1",
        2 => "2",
        3 => "3",
        4 => "4",
        5 => "5",
        6 => "6",
        7 => "7",
        8 => "8",
        _ => "9",
    };
    assert(r@ =~= seq![digit_char(d as nat)]);
    r
}

/// The decimal text of `n`.
pub fn decimal_string(n: u64) -> (r: String)
    ensures
        r@ == decimal(n as nat),
    decreases n,
{
    if n < 10 {
        String::from_str(digit_str(n))
    } else {
        let mut r = decimal_string(n / 10);
        r.append(digit_str(n % 10));
        assert(r@ =~= decimal(n as nat));
        r
    }
}

} // verus!
