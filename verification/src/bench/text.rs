//! Text scanning for the benchmark's /proc readers: characters of a string,
//! whitespace-separated words, and decimal `u64` fields.

use vstd::prelude::*;
use vstd::std_specs::iter::IteratorSpec;

verus! {

/// `char::is_whitespace`: the Unicode `White_Space` property.
pub open spec fn is_whitespace(c: char) -> bool {
    let u = c as u32;
    (0x09 <= u && u <= 0x0d) || u == 0x20 || u == 0x85 || u == 0xa0 || u == 0x1680 || (0x2000 <= u && u
        <= 0x200a) || u == 0x2028 || u == 0x2029 || u == 0x202f || u == 0x205f || u == 0x3000
}

pub fn char_is_whitespace(c: char) -> (r: bool)
    ensures
        r == is_whitespace(c),
{
    let u = c as u32;
    (0x09 <= u && u <= 0x0d) || u == 0x20 || u == 0x85 || u == 0xa0 || u == 0x1680 || (0x2000 <= u && u
        <= 0x200a) || u == 0x2028 || u == 0x2029 || u == 0x202f || u == 0x205f || u == 0x3000
}

/// The words of `s` after the partial word `cur`: maximal runs of
/// non-whitespace characters, in order.
pub open spec fn words_from(s: Seq<char>, cur: Seq<char>) -> Seq<Seq<char>>
    decreases s.len(),
{
    if s.len() == 0 {
        if cur.len() > 0 { seq![cur] } else { Seq::empty() }
    } else if is_whitespace(s[0]) {
        (if cur.len() > 0 { seq![cur] } else { Seq::empty() }) + words_from(s.drop_first(), Seq::empty())
    } else {
        words_from(s.drop_first(), cur.push(s[0]))
    }
}

/// `str::split_whitespace`: the maximal runs of non-whitespace characters.
pub open spec fn words(s: Seq<char>) -> Seq<Seq<char>> {
    words_from(s, Seq::empty())
}

/// The characters of `s`.
pub fn chars_of(s: &str) -> (v: Vec<char>)
    ensures
        v@ == s@,
{
    broadcast use vstd::string::axiom_spec_iter, vstd::string::next_postcondition;

    let mut chars = s.chars();
    let mut v: Vec<char> = Vec::new();
    loop
        invariant
            chars.obeys_prophetic_iter_laws(),
            v@ + IteratorSpec::remaining(&chars) == s@,
            IteratorSpec::decrease(&chars) is Some,
        decreases IteratorSpec::decrease(&chars)->0,
    {
        let ghost before = IteratorSpec::remaining(&chars);
        match chars.next() {
            Some(c) => {
                v.push(c);
                assert(v@ + IteratorSpec::remaining(&chars) =~= s@);
            },
            None => {
                assert(v@ =~= s@);
                return v;
            },
        }
    }
}

/// The words of `s[start..end]`.
pub fn split_words(s: &Vec<char>, start: usize, end: usize) -> (w: Vec<Vec<char>>)
    requires
        start <= end <= s@.len(),
    ensures
        w@.map_values(|x: Vec<char>| x@) == words(s@.subrange(start as int, end as int)),
{
    let ghost full = s@.subrange(start as int, end as int);
    let mut out: Vec<Vec<char>> = Vec::new();
    let mut cur: Vec<char> = Vec::new();
    let mut i = start;
    assert(full.subrange(0, full.len() as int) =~= full);
    while i < end
        invariant
            start <= i <= end <= s@.len(),
            full == s@.subrange(start as int, end as int),
            words(full) == out@.map_values(|x: Vec<char>| x@) + words_from(s@.subrange(i as int, end as int), cur@),
        decreases end - i,
    {
        let ghost rest = s@.subrange(i as int, end as int);
        assert(rest.drop_first() =~= s@.subrange(i + 1, end as int));
        let c = s[i];
        assert(rest[0] == c);
        if char_is_whitespace(c) {
            let ghost w = out@.map_values(|x: Vec<char>| x@);
            let ghost head = if cur@.len() > 0 { seq![cur@] } else { Seq::<Seq<char>>::empty() };
            assert(words_from(rest, cur@) == head + words_from(rest.drop_first(), Seq::empty()));
            assert(w + (head + words_from(rest.drop_first(), Seq::empty())) =~= (w + head) + words_from(rest.drop_first(), Seq::empty()));
            if cur.len() > 0 {
                let ghost old_out = out@.map_values(|x: Vec<char>| x@);
                let mut word: Vec<char> = Vec::new();
                std::mem::swap(&mut word, &mut cur);
                out.push(word);
                assert(out@.map_values(|x: Vec<char>| x@) =~= old_out + seq![word@]);
            } else {
                assert(w + head =~= w);
            }
            assert(cur@ =~= Seq::<char>::empty());
        } else {
            assert(words_from(rest, cur@) == words_from(rest.drop_first(), cur@.push(c)));
            cur.push(c);
        }
        i = i + 1;
    }
    if cur.len() > 0 {
        let ghost old_out = out@.map_values(|x: Vec<char>| x@);
        out.push(cur);
        assert(out@.map_values(|x: Vec<char>| x@) =~= old_out.push(cur@));
    } else {
        assert(out@.map_values(|x: Vec<char>| x@) + Seq::<Seq<char>>::empty() =~= out@.map_values(|x: Vec<char>| x@));
    }
    out
}

/// Decimal value of a digit string.
pub open spec fn digits_value(d: Seq<char>) -> int
    decreases d.len(),
{
    if d.len() == 0 {
        0
    } else {
        digits_value(d.drop_last()) * 10 + (d.last() as u32 - '0' as u32)
    }
}

pub open spec fn all_digits(d: Seq<char>) -> bool {
    forall|i: int| 0 <= i < d.len() ==> '0' <= #[trigger] d[i] <= '9'
}

/// `u64::from_str`: an optional `+` then one or more decimal digits whose
/// value fits in a `u64`.
pub open spec fn parse_u64(s: Seq<char>) -> Option<u64> {
    let d = if s.len() > 0 && s[0] == '+' { s.drop_first() } else { s };
    if d.len() == 0 || !all_digits(d) || digits_value(d) > u64::MAX {
        None
    } else {
        Some(digits_value(d) as u64)
    }
}

proof fn lemma_digits_value_grows(d: Seq<char>, k: int)
    requires
        all_digits(d),
        0 <= k <= d.len(),
    ensures
        digits_value(d) >= digits_value(d.take(k)),
        digits_value(d.take(k)) >= 0,
    decreases d.len() - k,
{
    if k < d.len() {
        lemma_digits_value_grows(d, k + 1);
        assert(d.take(k + 1).drop_last() =~= d.take(k));
        assert('0' <= d[k] <= '9');
        assert(digits_value(d.take(k + 1)) >= digits_value(d.take(k)) * 10);
        assert(digits_value(d.take(k)) >= 0) by {
            lemma_digits_value_nonneg(d.take(k));
        }
    } else {
        assert(d.take(k) =~= d);
        lemma_digits_value_nonneg(d);
    }
}

proof fn lemma_digits_value_nonneg(d: Seq<char>)
    requires
        all_digits(d),
    ensures
        digits_value(d) >= 0,
    decreases d.len(),
{
    if d.len() > 0 {
        assert(all_digits(d.drop_last()));
        lemma_digits_value_nonneg(d.drop_last());
        assert('0' <= d[d.len() - 1] <= '9');
    }
}

/// Parses a decimal `u64` field the way `u64::from_str` does.
pub fn parse_u64_field(s: &Vec<char>) -> (r: Option<u64>)
    ensures
        r == parse_u64(s@),
{
    let mut start: usize = 0;
    if s.len() > 0 && s[0] == '+' {
        start = 1;
    }
    let ghost d = if s@.len() > 0 && s@[0] == '+' { s@.drop_first() } else { s@ };
    assert(d =~= s@.subrange(start as int, s@.len() as int));
    if start == s.len() {
        return None;
    }
    let mut acc: u64 = 0;
    let mut i = start;
    assert(d.take(0) =~= Seq::<char>::empty());
    while i < s.len()
        invariant
            start <= i <= s@.len(),
            d == (if s@.len() > 0 && s@[0] == '+' { s@.drop_first() } else { s@ }),
            d.len() > 0,
            d =~= s@.subrange(start as int, s@.len() as int),
            all_digits(d.take(i - start)),
            acc == digits_value(d.take(i - start)),
        decreases s@.len() - i,
    {
        let c = s[i];
        if !('0' <= c && c <= '9') {
            assert(d[i - start] == c);
            assert(!all_digits(d));
            assert(parse_u64(s@) is None);
            return None;
        }
        let digit = (c as u32 - '0' as u32) as u64;
        assert(d.take(i - start + 1).drop_last() =~= d.take(i - start));
        assert(all_digits(d.take(i - start + 1)));
        let next = match acc.checked_mul(10) {
            Some(m) => m.checked_add(digit),
            None => None,
        };
        match next {
            Some(v) => {
                acc = v;
            },
            None => {
                proof {
                    assert(d.take(i - start + 1).last() == c);
                    assert(digits_value(d.take(i - start + 1)) == acc * 10 + digit);
                    if all_digits(d) {
                        lemma_digits_value_grows(d, i - start + 1);
                    }
                    assert(parse_u64(s@) is None);
                }
                return None;
            },
        }
        i = i + 1;
    }
    assert(d.take(i - start) =~= d);
    Some(acc)
}

} // verus!
