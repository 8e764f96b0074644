//! Reading decimal numbers and lists of them from text.

use vstd::prelude::*;
use vstd::string::*;
use crate::text::{chars_of, is_white_space, white_space};

verus! {

/// Whether every character of a text is a decimal digit.
pub open spec fn all_digits(s: Seq<char>) -> bool {
    forall|i: int| 0 <= i < s.len() ==> '0' <= #[trigger] s[i] <= '9'
}

/// The number that decimal digits denote.
pub open spec fn digits_value(s: Seq<char>) -> int
    decreases s.len(),
{
    if s.len() == 0 {
        0
    } else {
        digits_value(s.drop_last()) * 10 + (s.last() as int - '0' as int)
    }
}

/// The number that a text denotes: at least one decimal digit, with `+` or,
/// where `signed`, `-` allowed before them. Nothing else is a number.
pub open spec fn number_of(s: Seq<char>, signed: bool) -> Option<int> {
    if s.len() > 0 && s[0] == '+' {
        if s.len() > 1 && all_digits(s.skip(1)) {
            Some(digits_value(s.skip(1)))
        } else {
            None
        }
    } else if s.len() > 0 && s[0] == '-' && signed {
        if s.len() > 1 && all_digits(s.skip(1)) {
            Some(-digits_value(s.skip(1)))
        } else {
            None
        }
    } else if s.len() > 0 && all_digits(s) {
        Some(digits_value(s))
    } else {
        None
    }
}

/// The 64-bit signed number that a text denotes, if it denotes one.
pub open spec fn i64_of(s: Seq<char>) -> Option<i64> {
    match number_of(s, true) {
        Some(v) => if i64::MIN <= v <= i64::MAX {
            Some(v as i64)
        } else {
            None
        },
        None => None,
    }
}

/// The 32-bit unsigned number that a text denotes, if it denotes one.
pub open spec fn u32_of(s: Seq<char>) -> Option<u32> {
    match number_of(s, false) {
        Some(v) => if v <= u32::MAX {
            Some(v as u32)
        } else {
            None
        },
        None => None,
    }
}

/// Digits denote no negative number, and no smaller one than the digits
/// without the last.
pub proof fn lemma_digits_value_grows(s: Seq<char>)
    requires
        all_digits(s),
    ensures
        digits_value(s) >= 0,
        s.len() > 0 ==> digits_value(s) >= digits_value(s.drop_last()),
    decreases s.len(),
{
    if s.len() > 0 {
        assert(all_digits(s.drop_last())) by {
            assert forall|i: int| 0 <= i < s.drop_last().len() implies '0' <= #[trigger] s.drop_last()[i]
                <= '9' by {
                assert(s.drop_last()[i] == s[i]);
            }
        }
        lemma_digits_value_grows(s.drop_last());
        assert('0' <= s[s.len() - 1] <= '9');
    }
}

/// The digits up to a place denote no more than all the digits.
pub proof fn lemma_digits_prefix_value(s: Seq<char>, k: int)
    requires
        all_digits(s),
        0 <= k <= s.len(),
    ensures
        all_digits(s.take(k)),
        0 <= digits_value(s.take(k)) <= digits_value(s),
    decreases s.len() - k,
{
    assert(all_digits(s.take(k)));
    lemma_digits_value_grows(s.take(k));
    if k == s.len() {
        assert(s.take(k) =~= s);
    } else {
        lemma_digits_prefix_value(s, k + 1);
        lemma_digits_value_grows(s.take(k + 1));
        assert(s.take(k + 1).drop_last() =~= s.take(k));
    }
}

/// The value of a decimal digit, if `c` is one.
fn digit_of(c: char) -> (r: Option<u64>)
    ensures
        r is Some <==> '0' <= c <= '9',
        r matches Some(d) ==> d == c as int - '0' as int && d <= 9,
{
    let code = c as u32;
    if 48 <= code && code <= 57 {
        Some((code - 48) as u64)
    } else {
        None
    }
}

/// The number that the digits from `start` on denote, where they are at
/// least one, all of them digits, and the number is at most `limit`.
fn read_digits(chars: &Vec<char>, start: usize, limit: u64) -> (r: Option<u64>)
    requires
        start <= chars.len(),
    ensures
        match r {
            Some(v) => start < chars.len() && all_digits(chars@.skip(start as int)) && v
                == digits_value(chars@.skip(start as int)) && v <= limit,
            None => !(start < chars.len() && all_digits(chars@.skip(start as int))
                && digits_value(chars@.skip(start as int)) <= limit),
        },
{
    let ghost s = chars@.skip(start as int);
    if start >= chars.len() {
        return None;
    }
    let mut value: u64 = 0;
    let mut i: usize = start;
    assert(s.take(0) =~= Seq::empty());
    while i < chars.len()
        invariant
            start <= i <= chars.len(),
            s == chars@.skip(start as int),
            all_digits(s.take(i - start)),
            value == digits_value(s.take(i - start)),
            value <= limit,
        decreases chars.len() - i,
    {
        let c = chars[i];
        let digit = match digit_of(c) {
            Some(d) => d,
            None => {
                assert(s[i - start] == c);
                assert(!all_digits(s));
                return None;
            },
        };
        proof {
            let next = s.take(i - start + 1);
            assert(next.drop_last() =~= s.take(i - start));
            assert(next.last() == c);
            assert(all_digits(next)) by {
                assert forall|j: int| 0 <= j < next.len() implies '0' <= #[trigger] next[j] <= '9' by {
                    if j < next.len() - 1 {
                        assert(s.take(i - start)[j] == next[j]);
                    }
                }
            }
            assert(digits_value(next) == value * 10 + digit);
        }
        if digit > limit || value > (limit - digit) / 10 {
            proof {
                let next = s.take(i - start + 1);
                assert(digits_value(next) > limit);
                if all_digits(s) {
                    lemma_digits_prefix_value(s, i - start + 1);
                }
            }
            return None;
        }
        value = value * 10 + digit;
        i += 1;
    }
    assert(s.take(i - start) =~= s);
    Some(value)
}

/// Reads a 64-bit signed number.
pub fn parse_i64(s: &str) -> (r: Option<i64>)
    ensures
        r == i64_of(s@),
{
    let chars = chars_of(s);
    parse_i64_chars(&chars)
}

/// Reads a 64-bit signed number from characters.
pub fn parse_i64_chars(chars: &Vec<char>) -> (r: Option<i64>)
    ensures
        r == i64_of(chars@),
{
    if chars.len() == 0 {
        return None;
    }
    let first = chars[0];
    if first == '-' {
        match read_digits(chars, 1, 9223372036854775808u64) {
            Some(v) => {
                if v == 9223372036854775808u64 {
                    Some(i64::MIN)
                } else {
                    Some(-(v as i64))
                }
            },
            None => None,
        }
    } else if first == '+' {
        match read_digits(chars, 1, 9223372036854775807u64) {
            Some(v) => Some(v as i64),
            None => {
                proof {
                    if chars@.len() > 1 && all_digits(chars@.skip(1)) {
                        lemma_digits_value_grows(chars@.skip(1));
                    }
                }
                None
            },
        }
    } else {
        assert(chars@.skip(0) =~= chars@);
        match read_digits(chars, 0, 9223372036854775807u64) {
            Some(v) => Some(v as i64),
            None => {
                proof {
                    if all_digits(chars@) {
                        lemma_digits_value_grows(chars@);
                    }
                }
                None
            },
        }
    }
}

/// Reads a 32-bit unsigned number.
pub fn parse_u32(s: &str) -> (r: Option<u32>)
    ensures
        r == u32_of(s@),
{
    let chars = chars_of(s);
    if chars.len() == 0 {
        return None;
    }
    let first = chars[0];
    if first == '+' {
        match read_digits(&chars, 1, 4294967295u64) {
            Some(v) => Some(v as u32),
            None => {
                proof {
                    if chars@.len() > 1 && all_digits(chars@.skip(1)) {
                        lemma_digits_value_grows(chars@.skip(1));
                    }
                }
                None
            },
        }
    } else {
        assert(chars@.skip(0) =~= chars@);
        match read_digits(&chars, 0, 4294967295u64) {
            Some(v) => Some(v as u32),
            None => {
                proof {
                    if all_digits(chars@) {
                        lemma_digits_value_grows(chars@);
                    }
                }
                None
            },
        }
    }
}

/// A text without the white space at its start.
pub open spec fn trimmed_start(s: Seq<char>) -> Seq<char>
    decreases s.len(),
{
    if s.len() > 0 && is_white_space(s[0]) {
        trimmed_start(s.skip(1))
    } else {
        s
    }
}

/// A text without the white space at its end.
pub open spec fn trimmed_end(s: Seq<char>) -> Seq<char>
    decreases s.len(),
{
    if s.len() > 0 && is_white_space(s.last()) {
        trimmed_end(s.drop_last())
    } else {
        s
    }
}

/// A text without the white space at its start and at its end.
pub open spec fn trimmed(s: Seq<char>) -> Seq<char> {
    trimmed_end(trimmed_start(s))
}

/// The characters of a text without the white space at its start and at
/// its end.
pub fn trim_chars(chars: &Vec<char>) -> (r: Vec<char>)
    ensures
        r@ == trimmed(chars@),
{
    let mut start: usize = 0;
    assert(chars@.skip(0) =~= chars@);
    while start < chars.len() && white_space(chars[start])
        invariant
            start <= chars.len(),
            trimmed_start(chars@) == trimmed_start(chars@.skip(start as int)),
        decreases chars.len() - start,
    {
        assert(chars@.skip(start as int).skip(1) =~= chars@.skip(start + 1));
        start += 1;
    }
    assert(trimmed_start(chars@) == chars@.skip(start as int));
    let mut end: usize = chars.len();
    let ghost rest = chars@.skip(start as int);
    assert(rest.take(rest.len() as int) =~= rest);
    while end > start && white_space(chars[end - 1])
        invariant
            start <= end <= chars.len(),
            rest == chars@.skip(start as int),
            trimmed_end(rest) == trimmed_end(rest.take(end - start)),
        decreases end,
    {
        assert(rest.take(end - start).drop_last() =~= rest.take(end - start - 1));
        end -= 1;
    }
    assert(trimmed_end(rest) == rest.take(end - start));
    let mut out: Vec<char> = Vec::new();
    let mut i: usize = start;
    while i < end
        invariant
            start <= i <= end <= chars.len(),
            rest == chars@.skip(start as int),
            out@ == rest.take(i - start),
        decreases end - i,
    {
        out.push(chars[i]);
        assert(rest.take(i - start).push(chars@[i as int]) =~= rest.take(i + 1 - start));
        i += 1;
    }
    out
}

/// The parts of a text between the occurrences of `sep`; a text without
/// `sep` is one part, and so is the empty text.
pub open spec fn split_on(s: Seq<char>, sep: char) -> Seq<Seq<char>>
    decreases s.len(),
{
    if s.len() == 0 {
        seq![Seq::empty()]
    } else {
        let parts = split_on(s.drop_last(), sep);
        if s.last() == sep {
            parts.push(Seq::empty())
        } else {
            parts.drop_last().push(parts.last().push(s.last()))
        }
    }
}

/// The characters of each list of a list.
pub open spec fn char_lists(v: Seq<Vec<char>>) -> Seq<Seq<char>> {
    v.map_values(|p: Vec<char>| p@)
}

/// The parts of a text between the occurrences of `sep`.
pub fn split_chars(chars: &Vec<char>, sep: char) -> (r: Vec<Vec<char>>)
    ensures
        char_lists(r@) == split_on(chars@, sep),
{
    let mut done: Vec<Vec<char>> = Vec::new();
    let mut current: Vec<char> = Vec::new();
    let mut i: usize = 0;
    assert(chars@.take(0) =~= Seq::empty());
    assert(char_lists(done@).push(current@) =~= split_on(chars@.take(0), sep));
    while i < chars.len()
        invariant
            i <= chars.len(),
            char_lists(done@).push(current@) == split_on(chars@.take(i as int), sep),
        decreases chars.len() - i,
    {
        let c = chars[i];
        let ghost before = char_lists(done@).push(current@);
        proof {
            assert(chars@.take(i + 1).drop_last() =~= chars@.take(i as int));
            assert(chars@.take(i + 1).last() == c);
        }
        if c == sep {
            let ghost finished = current@;
            let ghost earlier = done@;
            done.push(current);
            current = Vec::new();
            assert(char_lists(done@) =~= char_lists(earlier).push(finished));
            assert(char_lists(done@).push(current@) =~= before.push(Seq::empty()));
        } else {
            current.push(c);
            assert(char_lists(done@).push(current@) =~= before.drop_last().push(
                before.last().push(c),
            ));
        }
        i += 1;
    }
    assert(chars@.take(i as int) =~= chars@);
    let ghost earlier = done@;
    let ghost finished = current@;
    done.push(current);
    assert(char_lists(done@) =~= char_lists(earlier).push(finished));
    done
}

/// The numbers of a list written with commas between them; white space
/// around a number does not count. `None` where a part is no number.
pub open spec fn numbers_of(parts: Seq<Seq<char>>) -> Option<Seq<i64>>
    decreases parts.len(),
{
    if parts.len() == 0 {
        Some(Seq::empty())
    } else {
        match (numbers_of(parts.drop_last()), i64_of(trimmed(parts.last()))) {
            (Some(numbers), Some(n)) => Some(numbers.push(n)),
            _ => None,
        }
    }
}

/// A failure in some parts is a failure of all.
pub proof fn lemma_numbers_of_prefix(parts: Seq<Seq<char>>, k: int)
    requires
        0 <= k <= parts.len(),
        numbers_of(parts.take(k)) is None,
    ensures
        numbers_of(parts) is None,
    decreases parts.len() - k,
{
    if k < parts.len() {
        assert(parts.take(k + 1).drop_last() =~= parts.take(k));
        lemma_numbers_of_prefix(parts, k + 1);
    } else {
        assert(parts.take(k) =~= parts);
    }
}

/// Reads a list of 64-bit signed numbers written with commas between them.
pub fn parse_i64_list(s: &str) -> (r: Option<Vec<i64>>)
    ensures
        match numbers_of(split_on(s@, ',')) {
            Some(numbers) => r matches Some(v) && v@ == numbers,
            None => r is None,
        },
{
    let chars = chars_of(s);
    let parts = split_chars(&chars, ',');
    let ghost all = split_on(s@, ',');
    let mut out: Vec<i64> = Vec::new();
    let mut i: usize = 0;
    assert(all.take(0) =~= Seq::empty());
    while i < parts.len()
        invariant
            i <= parts.len(),
            char_lists(parts@) == all,
            all == split_on(s@, ','),
            numbers_of(all.take(i as int)) == Some(out@),
        decreases parts.len() - i,
    {
        let part = trim_chars(&parts[i]);
        proof {
            assert(all.take(i + 1).drop_last() =~= all.take(i as int));
            assert(all.take(i + 1).last() == parts@[i as int]@);
        }
        match parse_i64_chars(&part) {
            Some(n) => {
                out.push(n);
                assert(numbers_of(all.take(i + 1)) == Some(out@));
            },
            None => {
                proof {
                    assert(i64_of(trimmed(all.take(i + 1).last())) is None);
                    assert(numbers_of(all.take(i + 1)) is None);
                    lemma_numbers_of_prefix(all, i + 1);
                }
                return None;
            },
        }
        i += 1;
    }
    assert(all.take(i as int) =~= all);
    Some(out)
}

} // verus!
