//! Identifiers: 128-bit time-ordered values written as 25 lowercase base-36
//! characters, zero-padded on the left.

use vstd::prelude::*;
use vstd::string::*;
use vstd::std_specs::cmp::PartialEqSpecImpl;
use crate::text::{chars_of, lemma_lex_less_irreflexive, lex_less, precedes_at};

verus! {

/// Number of characters of every identifier.
pub const ID_WIDTH: usize = 25;

/// Number of bytes of an identifier in its binary storage form.
pub const STORAGE_WIDTH: usize = 16;

/// Why a text or a byte string is not an identifier.
#[derive(Debug, Clone, Copy, PartialEq, Eq)]
pub enum FizzyIdError {
    /// The text is not 25 characters over `[0-9a-z]`.
    InvalidFormat,
    /// A character that is no base-36 digit.
    InvalidChar(char),
    /// The base-36 number does not fit in 128 bits.
    Overflow,
    /// A storage form that is not 16 bytes long.
    InvalidLength(usize),
}

/// Lowercase base-36 digits, the only characters of an identifier.
pub open spec fn is_id_char(c: char) -> bool {
    ('0' <= c && c <= '9') || ('a' <= c && c <= 'z')
}

/// Characters that decoding accepts: base-36 digits in either case.
pub open spec fn is_base36_char(c: char) -> bool {
    is_id_char(c) || ('A' <= c && c <= 'Z')
}

/// The value of a base-36 digit; letters count from 10 in either case.
pub open spec fn digit_value(c: char) -> int {
    if '0' <= c && c <= '9' {
        c as int - '0' as int
    } else if 'a' <= c && c <= 'z' {
        c as int - 'a' as int + 10
    } else {
        c as int - 'A' as int + 10
    }
}

/// The lowercase character of a digit below 36.
pub open spec fn digit_char(d: int) -> char {
    if d < 10 {
        ('0' as int + d) as char
    } else {
        ('a' as int + d - 10) as char
    }
}

/// The number that a big-endian base-36 text denotes.
pub open spec fn base36_value(s: Seq<char>) -> int
    decreases s.len(),
{
    if s.len() == 0 {
        0
    } else {
        base36_value(s.drop_last()) * 36 + digit_value(s.last())
    }
}

/// The shortest lowercase base-36 text of `n`; zero is `"0"`.
pub open spec fn base36_digits(n: int) -> Seq<char>
    decreases n,
{
    if n < 36 {
        seq![digit_char(n)]
    } else {
        base36_digits(n / 36).push(digit_char(n % 36))
    }
}

/// The last `width` base-36 digits of `n`, most significant first.
pub open spec fn base36_fixed(n: int, width: nat) -> Seq<char>
    decreases width,
{
    if width == 0 {
        Seq::empty()
    } else {
        base36_fixed(n / 36, (width - 1) as nat).push(digit_char(n % 36))
    }
}

/// Whether `n` is written in full by `width` base-36 digits.
pub open spec fn fits_width(n: int, width: nat) -> bool
    decreases width,
{
    if width == 0 {
        n == 0
    } else {
        n >= 0 && fits_width(n / 36, (width - 1) as nat)
    }
}

/// `s` with zeros put in front until it is `width` characters long.
pub open spec fn zero_padded(s: Seq<char>, width: nat) -> Seq<char> {
    if s.len() >= width {
        s
    } else {
        Seq::new((width - s.len()) as nat, |i: int| '0') + s
    }
}

/// The identifier text of a 128-bit value.
pub open spec fn encode(n: int) -> Seq<char> {
    base36_fixed(n, ID_WIDTH as nat)
}

/// Whether a text has the shape of an identifier.
pub open spec fn is_id_text(s: Seq<char>) -> bool {
    s.len() == ID_WIDTH && forall|i: int| 0 <= i < s.len() ==> is_id_char(#[trigger] s[i])
}

/// What decoding gives for each text: the value, or the first failure met
/// when reading from the left.
pub open spec fn decoded(s: Seq<char>) -> Result<u128, FizzyIdError>
    decreases s.len(),
{
    if s.len() == 0 {
        Ok(0)
    } else {
        match decoded(s.drop_last()) {
            Err(e) => Err(e),
            Ok(v) => if !is_base36_char(s.last()) {
                Err(FizzyIdError::InvalidChar(s.last()))
            } else if v * 36 + digit_value(s.last()) > u128::MAX {
                Err(FizzyIdError::Overflow)
            } else {
                Ok((v * 36 + digit_value(s.last())) as u128)
            },
        }
    }
}

/// The big-endian bytes of `n`, `width` of them.
pub open spec fn be_bytes(n: int, width: nat) -> Seq<u8>
    decreases width,
{
    if width == 0 {
        Seq::empty()
    } else {
        be_bytes(n / 256, (width - 1) as nat).push((n % 256) as u8)
    }
}

/// The number that big-endian bytes denote.
pub open spec fn be_value(b: Seq<u8>) -> int
    decreases b.len(),
{
    if b.len() == 0 {
        0
    } else {
        be_value(b.drop_last()) * 256 + b.last() as int
    }
}


/// A digit below 36 and its character determine each other.
pub proof fn lemma_digit_char(d: int)
    requires
        0 <= d < 36,
    ensures
        is_id_char(digit_char(d)),
        digit_value(digit_char(d)) == d,
{
}

/// A lowercase digit character is the character of its value.
pub proof fn lemma_digit_value(c: char)
    requires
        is_id_char(c),
    ensures
        0 <= digit_value(c) < 36,
        digit_char(digit_value(c)) == c,
{
}

/// A fixed-width text has its width and holds identifier characters only.
pub proof fn lemma_fixed_shape(n: int, width: nat)
    requires
        n >= 0,
    ensures
        base36_fixed(n, width).len() == width,
        forall|i: int| 0 <= i < width ==> is_id_char(#[trigger] base36_fixed(n, width)[i]),
    decreases width,
{
    if width > 0 {
        lemma_fixed_shape(n / 36, (width - 1) as nat);
        lemma_digit_char(n % 36);
    }
}

/// Reading a fixed-width text gives back the number it was made from.
pub proof fn lemma_fixed_value(n: int, width: nat)
    requires
        fits_width(n, width),
    ensures
        base36_value(base36_fixed(n, width)) == n,
    decreases width,
{
    if width > 0 {
        let head = base36_fixed(n / 36, (width - 1) as nat);
        lemma_fixed_value(n / 36, (width - 1) as nat);
        lemma_digit_char(n % 36);
        assert(head.push(digit_char(n % 36)).drop_last() =~= head);
    }
}

/// Writing the value of an identifier text at its own width gives the text.
pub proof fn lemma_value_fixed(s: Seq<char>)
    requires
        forall|i: int| 0 <= i < s.len() ==> is_id_char(#[trigger] s[i]),
    ensures
        fits_width(base36_value(s), s.len()),
        base36_fixed(base36_value(s), s.len()) == s,
    decreases s.len(),
{
    if s.len() > 0 {
        let init = s.drop_last();
        lemma_value_fixed(init);
        lemma_digit_value(s.last());
        let v = base36_value(s);
        lemma_value_nonnegative(init);
        assert(v / 36 == base36_value(init) && v % 36 == digit_value(s.last())) by {
            let q = base36_value(init);
            let d = digit_value(s.last());
            assert(v == q * 36 + d);
            assert(0 <= d < 36);
        }
        assert(init.push(s.last()) =~= s);
    }
}

/// The value of a text of base-36 characters is not negative, and not below
/// the value of the text without its last character.
pub proof fn lemma_value_nonnegative(s: Seq<char>)
    requires
        forall|i: int| 0 <= i < s.len() ==> is_base36_char(#[trigger] s[i]),
    ensures
        base36_value(s) >= 0,
        s.len() > 0 ==> base36_value(s) >= base36_value(s.drop_last()),
    decreases s.len(),
{
    if s.len() > 0 {
        lemma_value_nonnegative(s.drop_last());
        assert(is_base36_char(s.last()));
        assert(0 <= digit_value(s.last()) < 36);
    }
}

/// Every 128-bit value is written in full by 25 base-36 digits.
pub proof fn lemma_u128_fits(n: int)
    requires
        0 <= n <= u128::MAX,
    ensures
        fits_width(n, ID_WIDTH as nat),
{
    reveal_with_fuel(fits_width, 26);
}

/// Fixed-width texts of one width are ordered as their numbers are.
pub proof fn lemma_fixed_order(a: int, b: int, width: nat)
    requires
        0 <= a < b,
        fits_width(a, width),
        fits_width(b, width),
    ensures
        lex_less(base36_fixed(a, width), base36_fixed(b, width)),
    decreases width,
{
    // no two numbers fit a width of zero
    if width > 0 {
        let w = (width - 1) as nat;
        let ha = base36_fixed(a / 36, w);
        let hb = base36_fixed(b / 36, w);
        let sa = base36_fixed(a, width);
        let sb = base36_fixed(b, width);
        lemma_fixed_shape(a / 36, w);
        lemma_fixed_shape(b / 36, w);
        lemma_digit_char(a % 36);
        lemma_digit_char(b % 36);
        if a / 36 == b / 36 {
            assert(a % 36 < b % 36);
            assert(sa.take(w as int) =~= ha);
            assert(sb.take(w as int) =~= hb);
            assert(precedes_at(sa, sb, w as int));
        } else {
            assert(a / 36 < b / 36);
            lemma_fixed_order(a / 36, b / 36, w);
            let k = choose|k: int| precedes_at(ha, hb, k);
            assert(k < w);
            assert(sa.take(k) =~= ha.take(k));
            assert(sb.take(k) =~= hb.take(k));
            assert(sa[k] == ha[k] && sb[k] == hb[k]);
            assert(precedes_at(sa, sb, k));
        }
    }
}

/// The width-`width` text of zero is all zeros.
pub proof fn lemma_fixed_zero(width: nat)
    ensures
        base36_fixed(0, width) == Seq::new(width, |i: int| '0'),
    decreases width,
{
    if width > 0 {
        lemma_fixed_zero((width - 1) as nat);
    }
    assert(base36_fixed(0, width) =~= Seq::new(width, |i: int| '0'));
}

/// The shortest text of a number that fits a width is no longer than it.
pub proof fn lemma_digits_len(n: int, width: nat)
    requires
        width >= 1,
        fits_width(n, width),
    ensures
        1 <= base36_digits(n).len() <= width,
    decreases width,
{
    if n >= 36 {
        assert(width >= 2) by {
            if width == 1 {
                assert(fits_width(n / 36, 0));
            }
        }
        lemma_digits_len(n / 36, (width - 1) as nat);
    }
}

/// Padding the shortest text with zeros gives the fixed-width text.
pub proof fn lemma_padded_is_fixed(n: int, width: nat)
    requires
        width >= 1,
        fits_width(n, width),
    ensures
        zero_padded(base36_digits(n), width) == base36_fixed(n, width),
    decreases width,
{
    let w = (width - 1) as nat;
    if n < 36 {
        lemma_fixed_zero(w);
        assert(n / 36 == 0 && n % 36 == n);
        assert(zero_padded(base36_digits(n), width) =~= base36_fixed(n, width));
    } else {
        assert(width >= 2) by {
            if width == 1 {
                assert(fits_width(n / 36, 0));
            }
        }
        lemma_padded_is_fixed(n / 36, w);
        lemma_digits_len(n / 36, w);
        lemma_fixed_shape(n / 36, w);
        assert(zero_padded(base36_digits(n), width) =~= zero_padded(base36_digits(n / 36), w).push(
            digit_char(n % 36),
        ));
    }
}

/// Decoding succeeds exactly on texts of base-36 characters whose value fits
/// in 128 bits, and then gives that value.
pub proof fn lemma_decoded(s: Seq<char>)
    ensures
        decoded(s) is Ok <==> (forall|i: int| 0 <= i < s.len() ==> is_base36_char(#[trigger] s[i]))
            && base36_value(s) <= u128::MAX,
        decoded(s) matches Ok(v) ==> v == base36_value(s),
    decreases s.len(),
{
    if s.len() > 0 {
        let init = s.drop_last();
        lemma_decoded(init);
        if forall|i: int| 0 <= i < s.len() ==> is_base36_char(#[trigger] s[i]) {
            assert(forall|i: int| 0 <= i < init.len() ==> is_base36_char(#[trigger] init[i])) by {
                assert forall|i: int| 0 <= i < init.len() implies is_base36_char(
                    #[trigger] init[i],
                ) by {
                    assert(init[i] == s[i]);
                }
            }
            lemma_value_nonnegative(s);
            lemma_value_nonnegative(init);
        }
        if decoded(s) is Ok {
            assert(is_base36_char(s.last()));
            assert forall|i: int| 0 <= i < s.len() implies is_base36_char(#[trigger] s[i]) by {
                if i < init.len() {
                    assert(init[i] == s[i]);
                }
            }
        }
    }
}

/// An identifier: the primary key of every entity.
///
/// `new` wraps any text; the texts that `generate`, `parse` and
/// `from_storage_form` give satisfy `is_valid`.
#[derive(Debug, Hash)]
pub struct FizzyId(String);

impl View for FizzyId {
    type V = Seq<char>;

    closed spec fn view(&self) -> Seq<char> {
        self.0@
    }
}

impl Clone for FizzyId {
    fn clone(&self) -> (r: Self)
        ensures
            r == *self,
    {
        FizzyId(self.0.clone())
    }
}

impl PartialEq for FizzyId {
    fn eq(&self, other: &Self) -> (r: bool) {
        self.0 == other.0
    }
}

impl Eq for FizzyId {

}

impl PartialEqSpecImpl for FizzyId {
    open spec fn obeys_eq_spec() -> bool {
        true
    }

    open spec fn eq_spec(&self, other: &Self) -> bool {
        self@ == other@
    }
}

/// A fresh version-7 UUID as a number. `uuid::Uuid::now_v7` makes the UUID
/// from the system clock, a counter and random bits, and `Uuid::as_u128`
/// packs its sixteen bytes, in order, into one number. The value depends on
/// the time and on chance, so nothing is claimed of it.
#[verifier::external_body]
fn fresh_v7() -> (r: u128) {
    uuid::Uuid::now_v7().as_u128()
}

/// The character of a digit below 36.
fn digit_to_char(d: u8) -> (c: char)
    requires
        d < 36,
    ensures
        c == digit_char(d as int),
{
    if d < 10 {
        (48u8 + d) as char
    } else {
        (87u8 + d) as char
    }
}

/// Whether `c` is a lowercase base-36 digit.
fn id_char(c: char) -> (r: bool)
    ensures
        r == is_id_char(c),
{
    let code = c as u32;
    (48 <= code && code <= 57) || (97 <= code && code <= 122)
}

/// The value of a base-36 digit in either case, if `c` is one.
fn char_to_digit(c: char) -> (r: Option<u8>)
    ensures
        r is Some <==> is_base36_char(c),
        r matches Some(d) ==> d == digit_value(c) && d < 36,
{
    let code = c as u32;
    if 48 <= code && code <= 57 {
        Some((code - 48) as u8)
    } else if 97 <= code && code <= 122 {
        Some((code - 87) as u8)
    } else if 65 <= code && code <= 90 {
        Some((code - 55) as u8)
    } else {
        None
    }
}

impl FizzyId {
    /// Whether this is a well-formed identifier.
    pub open spec fn is_valid(&self) -> bool {
        is_id_text(self@)
    }

    /// Wraps an existing text, such as one read from a store, unchecked.
    pub fn new(id: String) -> (r: Self)
        ensures
            r@ == id@,
    {
        FizzyId(id)
    }

    /// The text of the identifier.
    pub fn as_str(&self) -> (r: &str)
        ensures
            r@ == self@,
    {
        self.0.as_str()
    }

    /// Gives up the identifier for its text.
    pub fn into_inner(self) -> (r: String)
        ensures
            r@ == self@,
    {
        self.0
    }

    /// The shortest lowercase base-36 text of `num`.
    pub fn to_base36(num: u128) -> (r: String)
        ensures
            r@ == base36_digits(num as int),
        decreases num,
    {
        if num < 36 {
            let mut s = String::new();
            s.push(digit_to_char(num as u8));
            assert(s@ =~= base36_digits(num as int));
            s
        } else {
            let mut s = Self::to_base36(num / 36);
            s.push(digit_to_char((num % 36) as u8));
            s
        }
    }

    /// Reads a base-36 number, letters in either case.
    ///
    /// Fails at the first character, from the left, that is no digit or that
    /// takes the number past 128 bits.
    pub fn from_base36(s: &str) -> (r: Result<u128, FizzyIdError>)
        ensures
            r == decoded(s@),
            r is Ok <==> (forall|i: int| 0 <= i < s@.len() ==> is_base36_char(#[trigger] s@[i]))
                && base36_value(s@) <= u128::MAX,
            r matches Ok(v) ==> v == base36_value(s@),
    {
        let chars = chars_of(s);
        let mut result: u128 = 0;
        let mut i: usize = 0;
        while i < chars.len()
            invariant
                i <= chars.len(),
                chars@ == s@,
                decoded(s@.take(i as int)) == Ok::<u128, FizzyIdError>(result),
            decreases chars.len() - i,
        {
            let c = chars[i];
            proof {
                assert(s@.take(i + 1).drop_last() =~= s@.take(i as int));
                assert(s@.take(i + 1).last() == c);
            }
            let val = match char_to_digit(c) {
                Some(d) => d,
                None => {
                    proof {
                        lemma_decoded_prefix_error(s@, i + 1);
                        lemma_decoded(s@);
                    }
                    return Err(FizzyIdError::InvalidChar(c));
                },
            };
            let shifted = match result.checked_mul(36) {
                Some(v) => v,
                None => {
                    proof {
                        lemma_decoded_prefix_error(s@, i + 1);
                        lemma_decoded(s@);
                    }
                    return Err(FizzyIdError::Overflow);
                },
            };
            result = match shifted.checked_add(val as u128) {
                Some(v) => v,
                None => {
                    proof {
                        lemma_decoded_prefix_error(s@, i + 1);
                        lemma_decoded(s@);
                    }
                    return Err(FizzyIdError::Overflow);
                },
            };
            i += 1;
        }
        proof {
            assert(s@.take(i as int) =~= s@);
            lemma_decoded(s@);
        }
        Ok(result)
    }
}

/// A failure in a prefix is the failure of the whole text.
pub proof fn lemma_decoded_prefix_error(s: Seq<char>, k: int)
    requires
        0 <= k <= s.len(),
        decoded(s.take(k)) is Err,
    ensures
        decoded(s) == decoded(s.take(k)),
    decreases s.len() - k,
{
    if k < s.len() {
        assert(s.take(k + 1).drop_last() =~= s.take(k));
        lemma_decoded_prefix_error(s, k + 1);
    } else {
        assert(s.take(k) =~= s);
    }
}

/// Whether `n` is written in full by `width` bytes.
pub open spec fn fits_bytes(n: int, width: nat) -> bool
    decreases width,
{
    if width == 0 {
        n == 0
    } else {
        n >= 0 && fits_bytes(n / 256, (width - 1) as nat)
    }
}

/// Sixteen bytes hold exactly the 128-bit values.
pub proof fn lemma_u128_bytes(n: int)
    ensures
        fits_bytes(n, STORAGE_WIDTH as nat) <==> 0 <= n <= u128::MAX,
{
    reveal_with_fuel(fits_bytes, 17);
}

/// What fits in some bytes fits in one more, also after a further byte is
/// put behind it.
pub proof fn lemma_fits_bytes_grow(n: int, b: int, width: nat)
    requires
        fits_bytes(n, width),
        0 <= b < 256,
    ensures
        fits_bytes(n, width + 1),
        fits_bytes(n * 256 + b, width + 1),
    decreases width,
{
    if width > 0 {
        lemma_fits_bytes_grow(n / 256, 0, (width - 1) as nat);
    }
    assert((n * 256 + b) / 256 == n);
}

/// What fits in fewer bytes fits in more.
pub proof fn lemma_fits_bytes_wider(n: int, width: nat, wider: nat)
    requires
        fits_bytes(n, width),
        width <= wider,
    ensures
        fits_bytes(n, wider),
    decreases wider - width,
{
    if width < wider {
        lemma_fits_bytes_grow(n, 0, width);
        lemma_fits_bytes_wider(n, width + 1, wider);
    }
}

/// The bytes of a number are as many as asked for.
pub proof fn lemma_be_bytes_len(n: int, width: nat)
    ensures
        be_bytes(n, width).len() == width,
    decreases width,
{
    if width > 0 {
        lemma_be_bytes_len(n / 256, (width - 1) as nat);
    }
}

/// Reading the bytes of a number that fits gives the number back.
pub proof fn lemma_be_bytes_value(n: int, width: nat)
    requires
        fits_bytes(n, width),
    ensures
        be_value(be_bytes(n, width)) == n,
    decreases width,
{
    if width > 0 {
        let head = be_bytes(n / 256, (width - 1) as nat);
        lemma_be_bytes_value(n / 256, (width - 1) as nat);
        assert(head.push((n % 256) as u8).drop_last() =~= head);
    }
}

/// The value of some bytes fits in as many bytes, and writing it in as many
/// bytes gives them back.
pub proof fn lemma_be_value_bytes(b: Seq<u8>)
    ensures
        fits_bytes(be_value(b), b.len()),
        be_bytes(be_value(b), b.len()) == b,
    decreases b.len(),
{
    if b.len() > 0 {
        let init = b.drop_last();
        lemma_be_value_bytes(init);
        lemma_fits_bytes_grow(be_value(init), b.last() as int, init.len());
        let v = be_value(b);
        assert(v / 256 == be_value(init) && v % 256 == b.last() as int) by {
            assert(v == be_value(init) * 256 + b.last() as int);
        }
        assert(init.push(b.last()) =~= b);
    }
}

/// The big-endian bytes of the low `width` bytes of `n`.
fn to_be_bytes(n: u128, width: usize) -> (r: Vec<u8>)
    ensures
        r@ == be_bytes(n as int, width as nat),
    decreases width,
{
    if width == 0 {
        Vec::new()
    } else {
        let mut v = to_be_bytes(n / 256, width - 1);
        v.push((n % 256) as u8);
        v
    }
}

/// The number that at most sixteen big-endian bytes denote.
fn from_be_bytes(bytes: &[u8]) -> (r: u128)
    requires
        bytes@.len() <= STORAGE_WIDTH,
    ensures
        r == be_value(bytes@),
{
    let mut acc: u128 = 0;
    let mut i: usize = 0;
    while i < bytes.len()
        invariant
            i <= bytes@.len() <= STORAGE_WIDTH,
            acc == be_value(bytes@.take(i as int)),
        decreases bytes.len() - i,
    {
        proof {
            let next = bytes@.take(i + 1);
            assert(next.drop_last() =~= bytes@.take(i as int));
            lemma_be_value_bytes(next);
            lemma_fits_bytes_wider(be_value(next), next.len(), STORAGE_WIDTH as nat);
            lemma_u128_bytes(be_value(next));
        }
        acc = acc * 256 + bytes[i] as u128;
        i += 1;
    }
    assert(bytes@.take(i as int) =~= bytes@);
    acc
}

/// `s` with zeros in front up to `width` characters.
fn pad_zeros(s: String, width: usize) -> (r: String)
    ensures
        r@ == zero_padded(s@, width as nat),
{
    let body = chars_of(s.as_str());
    if body.len() >= width {
        return s;
    }
    let missing = width - body.len();
    let mut out = String::new();
    let mut i: usize = 0;
    while i < missing
        invariant
            i <= missing,
            out@ == Seq::new(i as nat, |k: int| '0'),
        decreases missing - i,
    {
        out.push('0');
        i += 1;
        assert(out@ =~= Seq::new(i as nat, |k: int| '0'));
    }
    out.append(s.as_str());
    out
}

/// What parsing gives: the text itself where it has the shape of an
/// identifier, and `InvalidFormat` elsewhere.
pub open spec fn parsed(s: Seq<char>) -> Result<Seq<char>, FizzyIdError> {
    if is_id_text(s) {
        Ok(s)
    } else {
        Err(FizzyIdError::InvalidFormat)
    }
}

/// The binary storage form of an identifier text: its number as sixteen
/// big-endian bytes, or the failure of decoding it.
pub open spec fn storage_form(s: Seq<char>) -> Result<Seq<u8>, FizzyIdError> {
    match decoded(s) {
        Ok(v) => Ok(be_bytes(v as int, STORAGE_WIDTH as nat)),
        Err(e) => Err(e),
    }
}

/// The identifier text that a storage form stands for.
pub open spec fn restored(b: Seq<u8>) -> Result<Seq<char>, FizzyIdError> {
    if b.len() == STORAGE_WIDTH {
        Ok(encode(be_value(b)))
    } else {
        Err(FizzyIdError::InvalidLength(b.len() as usize))
    }
}

impl FizzyId {
    /// The identifier of a 128-bit value: its base-36 text, zero-padded to
    /// 25 characters.
    pub fn from_number(num: u128) -> (r: Self)
        ensures
            r@ == encode(num as int),
            r.is_valid(),
    {
        let text = pad_zeros(Self::to_base36(num), ID_WIDTH);
        proof {
            lemma_u128_fits(num as int);
            lemma_padded_is_fixed(num as int, ID_WIDTH as nat);
            lemma_fixed_shape(num as int, ID_WIDTH as nat);
        }
        FizzyId(text)
    }

    /// A new identifier from a fresh version-7 UUID.
    ///
    /// Its value comes from the clock and from chance, so all that is stated
    /// is that it is well formed.
    pub fn generate() -> (r: Self)
        ensures
            r.is_valid(),
            exists|n: u128| r@ == encode(n as int),
    {
        let n = fresh_v7();
        Self::from_number(n)
    }

    /// Accepts exactly the texts of 25 characters over `[0-9a-z]`.
    pub fn parse(raw: &str) -> (r: Result<Self, FizzyIdError>)
        ensures
            match parsed(raw@) {
                Ok(s) => r matches Ok(id) && id@ == s,
                Err(e) => r == Err::<Self, FizzyIdError>(e),
            },
    {
        let chars = chars_of(raw);
        if chars.len() != ID_WIDTH {
            return Err(FizzyIdError::InvalidFormat);
        }
        let mut i: usize = 0;
        while i < chars.len()
            invariant
                i <= chars.len(),
                chars@ == raw@,
                forall|j: int| 0 <= j < i ==> is_id_char(#[trigger] raw@[j]),
            decreases chars.len() - i,
        {
            if !id_char(chars[i]) {
                return Err(FizzyIdError::InvalidFormat);
            }
            i += 1;
        }
        Ok(FizzyId(String::from_str(raw)))
    }

    /// The binary storage form: the identifier's number as sixteen
    /// big-endian bytes.
    pub fn to_storage_form(&self) -> (r: Result<Vec<u8>, FizzyIdError>)
        ensures
            match storage_form(self@) {
                Ok(b) => r matches Ok(bytes) && bytes@ == b,
                Err(e) => r == Err::<Vec<u8>, FizzyIdError>(e),
            },
    {
        match Self::from_base36(self.0.as_str()) {
            Ok(num) => Ok(to_be_bytes(num, STORAGE_WIDTH)),
            Err(e) => Err(e),
        }
    }

    /// The identifier that a binary storage form stands for.
    pub fn from_storage_form(bytes: &[u8]) -> (r: Result<Self, FizzyIdError>)
        ensures
            match restored(bytes@) {
                Ok(s) => r matches Ok(id) && id@ == s && id.is_valid(),
                Err(e) => r == Err::<Self, FizzyIdError>(e),
            },
    {
        if bytes.len() != STORAGE_WIDTH {
            return Err(FizzyIdError::InvalidLength(bytes.len()));
        }
        let num = from_be_bytes(bytes);
        Ok(Self::from_number(num))
    }

    /// The text of the identifier, owned.
    pub fn to_string(&self) -> (r: String)
        ensures
            r@ == self@,
    {
        self.0.clone()
    }
}

/// Parsing the text of a well-formed identifier gives that identifier.
pub proof fn lemma_parse_round_trip(x: Seq<char>)
    requires
        is_id_text(x),
    ensures
        parsed(x) == Ok::<Seq<char>, FizzyIdError>(x),
{
}

/// A well-formed identifier whose number fits in 128 bits has a storage
/// form, and that storage form stands for the same identifier.
pub proof fn lemma_storage_round_trip(x: Seq<char>)
    requires
        is_id_text(x),
        base36_value(x) <= u128::MAX,
    ensures
        storage_form(x) is Ok,
        storage_form(x)->Ok_0.len() == STORAGE_WIDTH,
        restored(storage_form(x)->Ok_0) == Ok::<Seq<char>, FizzyIdError>(x),
{
    lemma_decoded(x);
    let v = decoded(x)->Ok_0 as int;
    lemma_value_nonnegative(x);
    lemma_u128_bytes(v);
    lemma_be_bytes_len(v, STORAGE_WIDTH as nat);
    lemma_be_bytes_value(v, STORAGE_WIDTH as nat);
    lemma_value_fixed(x);
}

/// Every sixteen bytes stand for a well-formed identifier, whose storage
/// form is those bytes.
pub proof fn lemma_restore_round_trip(b: Seq<u8>)
    requires
        b.len() == STORAGE_WIDTH,
    ensures
        restored(b) is Ok,
        is_id_text(restored(b)->Ok_0),
        storage_form(restored(b)->Ok_0) == Ok::<Seq<u8>, FizzyIdError>(b),
{
    let v = be_value(b);
    let x = encode(v);
    lemma_be_value_bytes(b);
    lemma_u128_bytes(v);
    lemma_u128_fits(v);
    lemma_fixed_shape(v, ID_WIDTH as nat);
    lemma_fixed_value(v, ID_WIDTH as nat);
    lemma_decoded(x);
}

/// Identifiers sort as their numbers do: of two 128-bit values, the smaller
/// has the text that comes first.
pub proof fn lemma_encode_preserves_order(a: u128, b: u128)
    requires
        a < b,
    ensures
        lex_less(encode(a as int), encode(b as int)),
        encode(a as int) != encode(b as int),
{
    lemma_u128_fits(a as int);
    lemma_u128_fits(b as int);
    lemma_fixed_order(a as int, b as int, ID_WIDTH as nat);
    lemma_lex_less_irreflexive(encode(a as int), encode(b as int));
}

impl FizzyIdError {
    /// The text of the failure.
    pub open spec fn message(self) -> Seq<char> {
        match self {
            FizzyIdError::InvalidFormat =>
                "Invalid identifier: expected 25 characters over 0-9 and a-z"@,
            FizzyIdError::InvalidChar(c) => "Invalid char: '"@ + seq![c] + "' in Base36 string"@,
            FizzyIdError::Overflow => "Base36 number to large for u128"@,
            FizzyIdError::InvalidLength(n) => "Invalid FizzyId length in DB: Expected 16 bytes, got "@
                + crate::text::decimal_digits(n as int),
        }
    }

    /// The text of the failure.
    pub fn to_string(&self) -> (r: String)
        ensures
            r@ == self.message(),
    {
        match self {
            FizzyIdError::InvalidFormat => String::from_str(
                "Invalid identifier: expected 25 characters over 0-9 and a-z",
            ),
            FizzyIdError::InvalidChar(c) => {
                let mut out = String::from_str("Invalid char: '");
                out.push(*c);
                out.append("' in Base36 string");
                assert(out@ =~= self.message());
                out
            },
            FizzyIdError::Overflow => String::from_str("Base36 number to large for u128"),
            FizzyIdError::InvalidLength(n) => {
                let mut out = String::from_str(
                    "Invalid FizzyId length in DB: Expected 16 bytes, got ",
                );
                crate::text::push_decimal_digits(&mut out, *n as u64);
                out
            },
        }
    }
}

impl From<String> for FizzyId {
    fn from(s: String) -> (r: Self) {
        FizzyId(s)
    }
}

impl vstd::std_specs::convert::FromSpecImpl<String> for FizzyId {
    open spec fn obeys_from_spec() -> bool {
        true
    }

    open spec fn from_spec(s: String) -> Self {
        FizzyId::wrapping(s)
    }
}

impl FizzyId {
    /// The identifier that wraps a text.
    pub closed spec fn wrapping(s: String) -> FizzyId {
        FizzyId(s)
    }

    /// The identifier that wraps a text has the characters of the text.
    pub proof fn lemma_wrapping(s: String)
        ensures
            Self::wrapping(s)@ == s@,
    {
    }
}

impl<'a> From<&'a str> for FizzyId {
    fn from(s: &'a str) -> (r: Self) {
        FizzyId(String::from_str(s))
    }
}

impl AsRef<str> for FizzyId {
    fn as_ref(&self) -> (r: &str)
        ensures
            r@ == self@,
    {
        self.0.as_str()
    }
}

impl<'a> vstd::std_specs::convert::FromSpecImpl<&'a str> for FizzyId {
    open spec fn obeys_from_spec() -> bool {
        false
    }

    open spec fn from_spec(s: &'a str) -> Self {
        arbitrary()
    }
}

} // verus!
