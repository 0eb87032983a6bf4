//! Text primitives shared by the parsers: splitting at a separator, prefixes,
//! and unsigned decimal numbers.

use vstd::prelude::*;
use vstd::std_specs::iter::IteratorSpec;
use vstd::string::StrSliceExecFns;
use vstd::string::StringExecFns;

verus! {

/// The position of the first `sep` in `s`, or `s.len()` where there is none.
pub open spec fn first_index(s: Seq<char>, sep: char) -> int
    decreases s.len(),
{
    if s.len() == 0 || s[0] == sep {
        0
    } else {
        1 + first_index(s.drop_first(), sep)
    }
}

/// What stands before the first `sep`; all of `s` where there is none.
pub open spec fn before_first(s: Seq<char>, sep: char) -> Seq<char> {
    s.take(first_index(s, sep))
}

/// What stands after the first `sep`; empty where there is none.
pub open spec fn after_first(s: Seq<char>, sep: char) -> Seq<char> {
    if s.contains(sep) {
        s.skip(first_index(s, sep) + 1)
    } else {
        Seq::empty()
    }
}

/// `first_index` stays within the sequence, and reaches its end exactly when
/// the separator does not occur.
pub proof fn lemma_first_index_bounds(s: Seq<char>, sep: char)
    ensures
        0 <= first_index(s, sep) <= s.len(),
        first_index(s, sep) < s.len() <==> s.contains(sep),
        first_index(s, sep) < s.len() ==> s[first_index(s, sep)] == sep,
        forall|i: int| 0 <= i < first_index(s, sep) ==> s[i] != sep,
    decreases s.len(),
{
    if s.len() == 0 {
    } else if s[0] == sep {
    } else {
        let rest = s.drop_first();
        lemma_first_index_bounds(rest, sep);
        if rest.contains(sep) {
            let j = choose|j: int| 0 <= j < rest.len() && rest[j] == sep;
            assert(s[j + 1] == sep);
        }
        if s.contains(sep) {
            let j = choose|j: int| 0 <= j < s.len() && s[j] == sep;
            assert(rest[j - 1] == sep);
        }
        assert forall|i: int| 0 <= i < first_index(s, sep) implies s[i] != sep by {
            if i > 0 {
                assert(rest[i - 1] == s[i]);
            }
        }
    }
}

/// A sequence cut at a separator that its head does not hold is cut at the
/// first one.
pub proof fn lemma_first_index_of_parts(head: Seq<char>, sep: char, tail: Seq<char>)
    requires
        !head.contains(sep),
    ensures
        first_index(head + seq![sep] + tail, sep) == head.len(),
        before_first(head + seq![sep] + tail, sep) == head,
        after_first(head + seq![sep] + tail, sep) == tail,
{
    let s = head + seq![sep] + tail;
    lemma_first_index_bounds(s, sep);
    assert(s[head.len() as int] == sep);
    let k = first_index(s, sep);
    if k < head.len() {
        assert(head[k] == s[k]);
        assert(head.contains(sep));
    }
    assert(s.take(k) =~= head);
    assert(s.skip(k + 1) =~= tail);
}

/// The position of the first `sep` among the characters of `s`.
pub fn find_char(s: &str, sep: char) -> (pos: Option<usize>)
    ensures
        match pos {
            Some(k) => k == first_index(s@, sep) && k < s@.len(),
            None => !s@.contains(sep),
        },
{
    broadcast use vstd::string::group_string_axioms;

    let n = s.unicode_len();
    let mut it = s.chars();
    let mut k: usize = 0;
    proof {
        assert(s@.skip(0) =~= s@);
    }
    loop
        invariant
            n == s@.len(),
            k <= n,
            it.remaining() == s@.skip(k as int),
            it.obeys_prophetic_iter_laws(),
            forall|j: int| 0 <= j < k ==> s@[j] != sep,
        decreases n - k,
    {
        match it.next() {
            Some(c) => {
                assert(c == s@[k as int]);
                if c == sep {
                    proof {
                        lemma_first_index_bounds(s@, sep);
                    }
                    return Some(k);
                }
                assert(s@.skip(k as int).drop_first() =~= s@.skip(k as int + 1));
                k += 1;
            },
            None => {
                return None;
            },
        }
    }
}

/// Cuts `s` at its first `sep`: the part before it and the part after it.
pub fn split_first<'a>(s: &'a str, sep: char) -> (parts: Option<(&'a str, &'a str)>)
    ensures
        parts is Some <==> s@.contains(sep),
        match parts {
            Some((head, tail)) => {
                &&& head@ == before_first(s@, sep)
                &&& tail@ == after_first(s@, sep)
                &&& head@.len() < s@.len()
                &&& tail@.len() < s@.len()
            },
            None => true,
        },
{
    match find_char(s, sep) {
        None => None,
        Some(k) => {
            let n = s.unicode_len();
            let head = s.substring_char(0, k);
            let tail = s.substring_char(k + 1, n);
            proof {
                lemma_first_index_bounds(s@, sep);
                assert(s@.subrange(0, k as int) =~= s@.take(k as int));
                assert(s@.subrange(k + 1, n as int) =~= s@.skip(k + 1));
            }
            Some((head, tail))
        },
    }
}

/// What follows `prefix` in `s`, where `s` begins with it.
pub fn strip_prefix<'a>(s: &'a str, prefix: &str) -> (rest: Option<&'a str>)
    ensures
        rest is Some <==> prefix@.is_prefix_of(s@),
        rest is Some ==> rest->0@ == s@.skip(prefix@.len() as int),
{
    broadcast use vstd::string::group_string_axioms;

    let n = s.unicode_len();
    let m = prefix.unicode_len();
    if m > n {
        return None;
    }
    let mut ours = s.chars();
    let mut theirs = prefix.chars();
    let mut k: usize = 0;
    proof {
        assert(s@.skip(0) =~= s@);
        assert(prefix@.skip(0) =~= prefix@);
    }
    while k < m
        invariant
            n == s@.len(),
            m == prefix@.len(),
            k <= m <= n,
            ours.remaining() == s@.skip(k as int),
            theirs.remaining() == prefix@.skip(k as int),
            ours.obeys_prophetic_iter_laws(),
            theirs.obeys_prophetic_iter_laws(),
            forall|j: int| 0 <= j < k ==> s@[j] == prefix@[j],
        decreases m - k,
    {
        let mine = ours.next();
        let other = theirs.next();
        assert(mine == Some(s@[k as int]));
        assert(other == Some(prefix@[k as int]));
        if mine != other {
            proof {
                if prefix@.is_prefix_of(s@) {
                    assert(s@.subrange(0, m as int)[k as int] == prefix@[k as int]);
                }
            }
            return None;
        }
        assert(s@.skip(k as int).drop_first() =~= s@.skip(k as int + 1));
        assert(prefix@.skip(k as int).drop_first() =~= prefix@.skip(k as int + 1));
        k += 1;
    }
    proof {
        assert(prefix@ =~= s@.subrange(0, m as int));
        assert(s@.subrange(m as int, n as int) =~= s@.skip(m as int));
    }
    Some(s.substring_char(m, n))
}

/// Whether `c` is one of the ten decimal digits.
pub open spec fn is_digit(c: char) -> bool {
    '0' <= c <= '9'
}

/// The number that a sequence of decimal digits writes.
pub open spec fn decimal_value(digits: Seq<char>) -> nat
    decreases digits.len(),
{
    if digits.len() == 0 {
        0
    } else {
        (decimal_value(digits.drop_last()) * 10 + (digits.last() as nat - '0' as nat)) as nat
    }
}

/// The digits of `n` in base ten, without leading zeros; `"0"` for zero.
pub open spec fn decimal_digits(n: nat) -> Seq<char>
    decreases n,
{
    if n < 10 {
        seq![('0' as nat + n) as char]
    } else {
        decimal_digits(n / 10).push(('0' as nat + n % 10) as char)
    }
}

/// What `s` means as a `u32`: an optional `+`, then one or more decimal
/// digits whose value fits. Anything else is no number.
pub open spec fn parsed_u32(s: Seq<char>) -> Option<u32> {
    let digits = unsigned_digits(s);
    if digits.len() > 0 && (forall|i: int| 0 <= i < digits.len() ==> is_digit(#[trigger] digits[i]))
        && decimal_value(digits) <= u32::MAX {
        Some(decimal_value(digits) as u32)
    } else {
        None
    }
}

/// The digits that `s` holds behind its optional `+`.
pub open spec fn unsigned_digits(s: Seq<char>) -> Seq<char> {
    if s.len() > 0 && s[0] == '+' {
        s.skip(1)
    } else {
        s
    }
}

/// A number is at least the number that any of its leading digits write.
pub proof fn lemma_decimal_value_grows(digits: Seq<char>, k: int)
    requires
        0 <= k <= digits.len(),
        forall|i: int| 0 <= i < digits.len() ==> is_digit(#[trigger] digits[i]),
    ensures
        decimal_value(digits.take(k)) <= decimal_value(digits),
    decreases digits.len() - k,
{
    if k == digits.len() {
        assert(digits.take(k) =~= digits);
    } else {
        let shorter = digits.drop_last();
        assert(shorter.take(k) =~= digits.take(k));
        assert forall|i: int| 0 <= i < shorter.len() implies is_digit(#[trigger] shorter[i]) by {
            assert(shorter[i] == digits[i]);
        }
        lemma_decimal_value_grows(shorter, k);
        assert(is_digit(digits.last()));
    }
}

/// Reads `s` as a `u32`, as `str::parse` does: an optional `+`, then decimal
/// digits only; no number where there is no digit, another character, or a
/// value that does not fit.
pub fn parse_u32(s: &str) -> (value: Option<u32>)
    ensures
        value == parsed_u32(s@),
{
    let ghost digits = unsigned_digits(s@);
    if !s.is_ascii() {
        proof {
            let i = choose|i: int| 0 <= i < s@.len() && !('\0' <= #[trigger] s@[i] <= '\u{7f}');
            assert(!is_digit(s@[i]));
            if s@[0] == '+' {
                assert(digits[i - 1] == s@[i]);
            }
        }
        return None;
    }
    let n = s.unicode_len();
    let start: usize = if n > 0 && s.get_ascii(0) == 43 {
        1
    } else {
        0
    };
    assert(digits =~= s@.skip(start as int));
    if start == n {
        return None;
    }
    let mut acc: u32 = 0;
    let mut i: usize = start;
    while i < n
        invariant
            s.is_ascii(),
            n == s@.len(),
            start <= i <= n,
            digits == s@.skip(start as int),
            digits == unsigned_digits(s@),
            forall|k: int| 0 <= k < i - start ==> is_digit(#[trigger] digits[k]),
            acc == decimal_value(digits.take(i - start)),
        decreases n - i,
    {
        let b = s.get_ascii(i);
        let ghost c = digits[i - start];
        assert(c == s@[i as int]);
        if b < 48 || b > 57 {
            assert(!is_digit(c));
            return None;
        }
        assert(is_digit(c));
        let d: u32 = (b - 48) as u32;
        assert(d == c as nat - '0' as nat);
        let ghost longer = digits.take(i - start + 1);
        assert(longer.drop_last() =~= digits.take(i - start));
        assert(longer.last() == c);
        assert(decimal_value(longer) == acc * 10 + d);
        if acc > (u32::MAX - d) / 10 {
            proof {
                assert(acc * 10 + d > u32::MAX);
                if forall|k: int| 0 <= k < digits.len() ==> is_digit(#[trigger] digits[k]) {
                    lemma_decimal_value_grows(digits, i - start + 1);
                }
            }
            return None;
        }
        acc = acc * 10 + d;
        i += 1;
    }
    assert(digits.take(i - start) =~= digits);
    Some(acc)
}

/// Writing a number and reading it back gives the number: its digits are
/// digits, at least one, and their value is the number.
pub proof fn lemma_decimal_round_trip(n: nat)
    ensures
        decimal_digits(n).len() >= 1,
        forall|i: int| 0 <= i < decimal_digits(n).len() ==> is_digit(#[trigger] decimal_digits(n)[i]),
        decimal_value(decimal_digits(n)) == n,
    decreases n,
{
    if n < 10 {
        let one = decimal_digits(n);
        assert(one.drop_last() =~= Seq::<char>::empty());
        assert(decimal_value(one.drop_last()) == 0);
    } else {
        lemma_decimal_round_trip(n / 10);
        let shorter = decimal_digits(n / 10);
        let last = ('0' as nat + n % 10) as char;
        let all = shorter.push(last);
        assert(all.drop_last() =~= shorter);
        assert(all.last() == last);
        assert forall|i: int| 0 <= i < all.len() implies is_digit(#[trigger] all[i]) by {
            if i < shorter.len() {
                assert(all[i] == shorter[i]);
            }
        }
    }
}

/// The text of a `u32` is read back as that `u32`.
pub proof fn lemma_parse_reads_decimal(n: u32)
    ensures
        parsed_u32(decimal_digits(n as nat)) == Some(n),
{
    lemma_decimal_round_trip(n as nat);
    let text = decimal_digits(n as nat);
    assert(is_digit(text[0]));
    assert(unsigned_digits(text) == text);
}

/// The text of one decimal digit.
fn digit_text(d: u32) -> (text: &'static str)
    requires
        d < 10,
    ensures
        text@ == seq![('0' as nat + d as nat) as char],
{
    proof {
        reveal_strlit("0");
        reveal_strlit("1");
        reveal_strlit("2");
        reveal_strlit("3");
        reveal_strlit("4");
        reveal_strlit("5");
        reveal_strlit("6");
        reveal_strlit("7");
        reveal_strlit("8");
        reveal_strlit("9");
    }
    let text = match d {
        0 => "0",
        1 => "1",
        2 => "2",
        3 => "3",
        4 => "4",
        5 => "5",
        6 => "6",
        7 => "7",
        8 => "8",
        _ => "9",
    };
    assert(text@ =~= seq![('0' as nat + d as nat) as char]);
    text
}

/// Writes `n` in base ten, without sign or leading zeros.
pub fn decimal_text(n: u32) -> (text: String)
    ensures
        text@ == decimal_digits(n as nat),
    decreases n,
{
    if n < 10 {
        digit_text(n).to_owned()
    } else {
        let mut text = decimal_text(n / 10);
        let last = digit_text(n % 10);
        text.append(last);
        assert(text@ =~= decimal_digits(n as nat / 10).push(('0' as nat + n as nat % 10) as char));
        text
    }
}

} // verus!
