//! Text helpers on Unicode scalar sequences: comparison, search,
//! splitting, and decimal numbers.

use vstd::prelude::*;
use vstd::string::{StrSliceExecFns, StringExecFns};

verus! {

/// Is `s` equal to `t`?
pub fn str_eq(s: &str, t: &str) -> (eq: bool)
    ensures
        eq == (s@ == t@),
{
    let n = s.unicode_len();
    if n != t.unicode_len() {
        return false;
    }
    let mut i: usize = 0;
    while i < n
        invariant
            n == s@.len(),
            n == t@.len(),
            i <= n,
            forall|j: int| 0 <= j < i ==> s@[j] == t@[j],
        decreases n - i,
    {
        if s.get_char(i) != t.get_char(i) {
            return false;
        }
        i = i + 1;
    }
    assert(s@ =~= t@);
    true
}

/// `needle` occurs in `hay` starting at index `i`.
pub open spec fn occurs_at(hay: Seq<char>, needle: Seq<char>, i: int) -> bool {
    &&& 0 <= i
    &&& i + needle.len() <= hay.len()
    &&& hay.subrange(i, i + needle.len()) == needle
}

/// `needle` occurs somewhere in `hay`.
pub open spec fn spec_contains(hay: Seq<char>, needle: Seq<char>) -> bool {
    exists|i: int| occurs_at(hay, needle, i)
}

/// Does `needle` occur at index `i` of `hay`?
fn matches_at(hay: &str, needle: &str, i: usize) -> (m: bool)
    requires
        i + needle@.len() <= hay@.len(),
        hay@.len() <= usize::MAX,
    ensures
        m == occurs_at(hay@, needle@, i as int),
{
    let n = needle.unicode_len();
    let mut j: usize = 0;
    while j < n
        invariant
            n == needle@.len(),
            i + n <= hay@.len(),
            hay@.len() <= usize::MAX,
            j <= n,
            forall|k: int| 0 <= k < j ==> hay@[i + k] == needle@[k],
        decreases n - j,
    {
        if hay.get_char(i + j) != needle.get_char(j) {
            assert(hay@.subrange(i as int, i + n)[j as int] != needle@[j as int]);
            return false;
        }
        j = j + 1;
    }
    assert(hay@.subrange(i as int, i + n) =~= needle@);
    true
}

/// Does `needle` occur in `hay`?
pub fn contains(hay: &str, needle: &str) -> (found: bool)
    ensures
        found == spec_contains(hay@, needle@),
{
    let h = hay.unicode_len();
    let n = needle.unicode_len();
    if n > h {
        assert forall|i: int| !occurs_at(hay@, needle@, i) by {}
        return false;
    }
    let last = h - n;
    let mut i: usize = 0;
    loop
        invariant
            h == hay@.len(),
            n == needle@.len(),
            last == h - n,
            i <= last,
            forall|k: int| 0 <= k < i ==> !occurs_at(hay@, needle@, k),
        ensures
            forall|k: int| 0 <= k <= last ==> !occurs_at(hay@, needle@, k),
        decreases last - i,
    {
        if matches_at(hay, needle, i) {
            return true;
        }
        if i == last {
            break;
        }
        i = i + 1;
    }
    assert forall|k: int| !occurs_at(hay@, needle@, k) by {
        if 0 <= k <= last {
        }
    }
    false
}

/// The pieces of `s` between the occurrences of `sep`, as `str::split`
/// gives them (one piece for a text without `sep`, an empty piece on each
/// side of a separator at an end).
pub open spec fn split_char(s: Seq<char>, sep: char) -> Seq<Seq<char>>
    decreases s.len(),
{
    if s.len() == 0 {
        seq![Seq::empty()]
    } else {
        let r = split_char(s.drop_last(), sep);
        if s.last() == sep {
            r.push(Seq::empty())
        } else {
            r.update(r.len() - 1, r.last().push(s.last()))
        }
    }
}

/// The split of a text always has at least one piece.
pub proof fn lemma_split_nonempty(s: Seq<char>, sep: char)
    ensures
        split_char(s, sep).len() >= 1,
    decreases s.len(),
{
    if s.len() > 0 {
        lemma_split_nonempty(s.drop_last(), sep);
    }
}

/// Split `s` at each `sep`.
pub fn split(s: &str, sep: char) -> (parts: Vec<String>)
    ensures
        parts@.map_values(|p: String| p@) == split_char(s@, sep),
{
    let n = s.unicode_len();
    let mut parts: Vec<String> = Vec::new();
    let mut start: usize = 0;
    let mut i: usize = 0;
    assert(s@.subrange(0, 0) =~= Seq::<char>::empty());
    assert(parts@.map_values(|p: String| p@) =~= Seq::<Seq<char>>::empty());
    assert(parts@.map_values(|p: String| p@).push(s@.subrange(0, 0)) =~= split_char(
        s@.subrange(0, 0),
        sep,
    ));
    while i < n
        invariant
            n == s@.len(),
            start <= i <= n,
            parts@.map_values(|p: String| p@).push(s@.subrange(start as int, i as int))
                == split_char(s@.subrange(0, i as int), sep),
        decreases n - i,
    {
        let c = s.get_char(i);
        let ghost before = s@.subrange(0, i as int);
        let ghost after = s@.subrange(0, i + 1);
        assert(after.drop_last() =~= before);
        assert(after.last() == c);
        let ghost old_parts = parts@.map_values(|p: String| p@);
        if c == sep {
            let piece = s.substring_char(start, i).to_owned();
            parts.push(piece);
            assert(parts@.map_values(|p: String| p@) =~= old_parts.push(s@.subrange(
                start as int,
                i as int,
            )));
            assert(s@.subrange(i + 1, i + 1) =~= Seq::<char>::empty());
            start = i + 1;
            assert(parts@.map_values(|p: String| p@).push(s@.subrange(start as int, i + 1))
                =~= split_char(after, sep));
        } else {
            assert(s@.subrange(start as int, i + 1) =~= s@.subrange(start as int, i as int).push(
                c,
            ));
            assert(parts@.map_values(|p: String| p@).push(s@.subrange(start as int, i + 1))
                =~= split_char(after, sep));
        }
        i = i + 1;
    }
    let last = s.substring_char(start, n).to_owned();
    parts.push(last);
    assert(s@.subrange(0, n as int) =~= s@);
    assert(parts@.map_values(|p: String| p@) =~= split_char(s@, sep));
    parts
}

/// The text before the first `sep` in `s`, or all of `s` when there is
/// none (the first piece of `split`).
pub fn before_first(s: &str, sep: char) -> (head: &str)
    ensures
        head@ == split_char(s@, sep)[0],
{
    let n = s.unicode_len();
    let mut i: usize = 0;
    while i < n
        invariant
            n == s@.len(),
            i <= n,
            forall|k: int| 0 <= k < i ==> s@[k] != sep,
        ensures
            i <= n,
            forall|k: int| 0 <= k < i ==> s@[k] != sep,
            i < n ==> s@[i as int] == sep,
        decreases n - i,
    {
        if s.get_char(i) == sep {
            break;
        }
        i = i + 1;
    }
    proof {
        lemma_split_nonempty(s@, sep);
        lemma_split_first_piece(s@, sep, i as int);
    }
    s.substring_char(0, i)
}

/// The first piece of a split is the text up to the first separator.
pub proof fn lemma_split_first_piece(s: Seq<char>, sep: char, i: int)
    requires
        0 <= i <= s.len(),
        forall|k: int| 0 <= k < i ==> s[k] != sep,
        i < s.len() ==> s[i] == sep,
    ensures
        split_char(s, sep)[0] == s.subrange(0, i),
    decreases s.len(),
{
    if s.len() > 0 {
        lemma_split_nonempty(s.drop_last(), sep);
        if i == s.len() {
            lemma_split_first_piece(s.drop_last(), sep, i - 1);
            let r = split_char(s.drop_last(), sep);
            if r.len() == 1 {
                assert(s.subrange(0, i) =~= s.drop_last().subrange(0, i - 1).push(s.last()));
            } else {
                assert(false) by {
                    lemma_split_single_without_sep(s.drop_last(), sep);
                }
            }
        } else {
            lemma_split_first_piece(s.drop_last(), sep, i);
            lemma_split_nonempty(s.drop_last(), sep);
            let r = split_char(s.drop_last(), sep);
            if s.last() != sep && r.len() == 1 {
                assert(s[i] == sep);
                assert(i < s.len() - 1);
                lemma_split_single_without_sep(s.drop_last(), sep);
                assert(s.drop_last()[i] == sep);
            }
            assert(s.drop_last().subrange(0, i) =~= s.subrange(0, i));
        }
    }
}

/// A text without the separator splits into itself alone; one with it
/// splits into more than one piece.
pub proof fn lemma_split_single_without_sep(s: Seq<char>, sep: char)
    ensures
        (forall|k: int| 0 <= k < s.len() ==> s[k] != sep) ==> split_char(s, sep) == seq![s],
        (exists|k: int| 0 <= k < s.len() && s[k] == sep) ==> split_char(s, sep).len() > 1,
    decreases s.len(),
{
    if s.len() > 0 {
        lemma_split_single_without_sep(s.drop_last(), sep);
        lemma_split_nonempty(s.drop_last(), sep);
        if forall|k: int| 0 <= k < s.len() ==> s[k] != sep {
            assert(forall|k: int| 0 <= k < s.drop_last().len() ==> s.drop_last()[k] != sep);
            assert(s.drop_last().push(s.last()) =~= s);
            assert(split_char(s, sep) =~= seq![s]);
        }
        if exists|k: int| 0 <= k < s.len() && s[k] == sep {
            let k = choose|k: int| 0 <= k < s.len() && s[k] == sep;
            if k < s.len() - 1 {
                assert(s.drop_last()[k] == sep);
            }
        }
    } else {
        assert(s =~= Seq::<char>::empty());
        assert(split_char(s, sep) =~= seq![s]);
    }
}

/// The decimal digit character of `d` (`d < 10`).
pub open spec fn digit_char(d: nat) -> char {
    (48 + d) as char
}

/// Decimal text of `n`, without sign or leading zeros.
pub open spec fn decimal(n: nat) -> Seq<char>
    decreases n,
{
    if n < 10 {
        seq![digit_char(n)]
    } else {
        decimal(n / 10).push(digit_char(n % 10))
    }
}

/// Is `c` an ASCII decimal digit?
pub open spec fn is_digit(c: char) -> bool {
    '0' <= c <= '9'
}

/// Value of a run of decimal digits.
pub open spec fn digits_value(s: Seq<char>) -> nat
    decreases s.len(),
{
    if s.len() == 0 {
        0
    } else {
        digits_value(s.drop_last()) * 10 + (s.last() as nat - 48) as nat
    }
}

/// The text after an optional leading `+`.
pub open spec fn unsigned_digits(s: Seq<char>) -> Seq<char> {
    if s.len() > 0 && s[0] == '+' {
        s.drop_first()
    } else {
        s
    }
}

/// Every character of `s` is an ASCII digit.
pub open spec fn all_digits(s: Seq<char>) -> bool {
    forall|i: int| 0 <= i < s.len() ==> is_digit(#[trigger] s[i])
}

/// `u32::from_str`: an optional `+` followed by one or more ASCII digits
/// whose value fits in 32 bits; anything else is refused.
pub open spec fn spec_parse_u32(s: Seq<char>) -> Option<u32> {
    let digits = unsigned_digits(s);
    if digits.len() > 0 && all_digits(digits) && digits_value(digits) <= u32::MAX {
        Some(digits_value(digits) as u32)
    } else {
        None
    }
}

/// The value of a run of digits only grows as digits are added.
proof fn lemma_digits_value_prefix(s: Seq<char>, i: int)
    requires
        0 <= i <= s.len(),
        forall|k: int| 0 <= k < s.len() ==> is_digit(s[k]),
    ensures
        digits_value(s.subrange(0, i)) <= digits_value(s),
    decreases s.len() - i,
{
    if i < s.len() {
        lemma_digits_value_prefix(s, i + 1);
        let p = s.subrange(0, i + 1);
        assert(p.drop_last() =~= s.subrange(0, i));
    } else {
        assert(s.subrange(0, i) =~= s);
    }
}

/// Parse a decimal 32-bit number the way `u32::from_str` does.
pub fn parse_u32(s: &str) -> (r: Option<u32>)
    ensures
        r == spec_parse_u32(s@),
{
    let n = s.unicode_len();
    let mut start: usize = 0;
    if n > 0 && s.get_char(0) == '+' {
        start = 1;
    }
    let ghost digits = unsigned_digits(s@);
    assert(digits =~= s@.subrange(start as int, n as int));
    if start == n {
        return None;
    }
    let mut value: u32 = 0;
    let mut i: usize = start;
    while i < n
        invariant
            n == s@.len(),
            start <= i <= n,
            start < n,
            digits == s@.subrange(start as int, n as int),
            digits == unsigned_digits(s@),
            forall|k: int| start <= k < i ==> is_digit(s@[k]),
            value == digits_value(s@.subrange(start as int, i as int)),
        decreases n - i,
    {
        let c = s.get_char(i);
        if !('0' <= c && c <= '9') {
            assert(digits[i - start] == s@[i as int]);
            assert(!is_digit(digits[i - start]));
            assert(!all_digits(digits));
            assert(spec_parse_u32(s@) is None);
            return None;
        }
        let d = (c as u32) - 48;
        let ghost pre = s@.subrange(start as int, i as int);
        let ghost post = s@.subrange(start as int, i + 1);
        assert(post.drop_last() =~= pre);
        assert(post.last() == c);
        if value > 429496729 || (value == 429496729 && d > 5) {
            assert(digits_value(post) > u32::MAX);
            // An overflowing prefix means the full value overflows, or a
            // later character is not a digit: either way it is refused.
            let rest_ok = all_digits_from(s, i + 1);
            proof {
                if rest_ok {
                    assert forall|k: int| 0 <= k < digits.len() implies is_digit(
                        digits[k],
                    ) by {
                        assert(digits[k] == s@[start + k]);
                    }
                    assert(post =~= digits.subrange(0, i + 1 - start));
                    lemma_digits_value_prefix(digits, i + 1 - start);
                } else {
                    let k = choose|k: int| i + 1 <= k < n && !is_digit(s@[k]);
                    assert(digits[k - start] == s@[k]);
                    assert(!all_digits(digits));
                }
                assert(spec_parse_u32(s@) is None);
            }
            return None;
        }
        value = value * 10 + d;
        i = i + 1;
    }
    assert(s@.subrange(start as int, n as int) =~= digits);
    Some(value)
}

/// Are all characters of `s` from index `from` on ASCII digits?
fn all_digits_from(s: &str, from: usize) -> (ok: bool)
    requires
        from <= s@.len(),
    ensures
        ok == forall|k: int| from <= k < s@.len() ==> is_digit(s@[k]),
{
    let n = s.unicode_len();
    let mut i = from;
    while i < n
        invariant
            n == s@.len(),
            from <= i <= n,
            forall|k: int| from <= k < i ==> is_digit(s@[k]),
        decreases n - i,
    {
        let c = s.get_char(i);
        if !('0' <= c && c <= '9') {
            return false;
        }
        i = i + 1;
    }
    true
}


/// The one-character text of the digit `d`.
fn digit_str(d: u32) -> (s: &'static str)
    requires
        d < 10,
    ensures
        s@ == seq![digit_char(d as nat)],
{
    let digits = "0123456789";
    proof {
        reveal_strlit("0123456789");
    }
    let s = digits.substring_char(d as usize, (d + 1) as usize);
    assert(s@ =~= seq![digit_char(d as nat)]);
    s
}

/// Decimal text of `n`, as `u32`'s `Display` writes it.
pub fn decimal_string(n: u32) -> (s: String)
    ensures
        s@ == decimal(n as nat),
    decreases n,
{
    if n < 10 {
        digit_str(n).to_owned()
    } else {
        let mut s = decimal_string(n / 10);
        s.append(digit_str(n % 10));
        s
    }
}

/// `a` followed by `b`.
pub fn join_str(a: &str, b: &str) -> (s: String)
    ensures
        s@ == a@ + b@,
{
    let mut s = a.to_owned();
    s.append(b);
    s
}

} // verus!
