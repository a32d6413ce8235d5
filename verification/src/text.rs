//! Text primitives shared by the rest of the crate: string equality, ASCII
//! classification and decimal numbers, each with a model over `Seq<char>`.

use vstd::prelude::*;
use vstd::string::*;
use vstd::utf8::*;

verus! {

/// The characters that a sequence of bytes stands for when each byte is read
/// as one code point below 256.
pub open spec fn bytes_as_chars(bytes: Seq<u8>) -> Seq<char> {
    Seq::new(bytes.len(), |i: int| bytes[i] as char)
}

/// Equality of string slices, decided on their UTF-8 encodings.
pub fn str_eq(a: &str, b: &str) -> (r: bool)
    ensures
        r == (a@ == b@),
{
    let x = a.as_bytes();
    let y = b.as_bytes();
    proof {
        encode_utf8_decode_utf8(a@);
        encode_utf8_decode_utf8(b@);
    }
    if x.len() != y.len() {
        return false;
    }
    let mut i: usize = 0;
    while i < x.len()
        invariant
            i <= x.len(),
            x.len() == y.len(),
            x@ == a.spec_bytes(),
            y@ == b.spec_bytes(),
            forall|j: int| 0 <= j < i ==> x@[j] == y@[j],
        decreases x.len() - i,
    {
        if x[i] != y[i] {
            assert(x@[i as int] != y@[i as int]);
            return false;
        }
        i += 1;
    }
    assert(x@ =~= y@);
    true
}

/// An owned copy of a string slice.
pub fn owned(s: &str) -> (r: String)
    ensures
        r@ == s@,
{
    s.to_owned()
}

/// `String::push` of the standard library: the string afterwards is the
/// string before, with the character at its end.
pub assume_specification[ std::string::String::push ](s: &mut std::string::String, c: char)
    ensures
        final(s)@ == old(s)@.push(c),
;

/// `left` followed by `right`.
pub fn joined(left: &str, right: &str) -> (r: String)
    ensures
        r@ == left@ + right@,
{
    owned(left).concat(right)
}

/// An ASCII digit.
pub open spec fn is_digit(c: char) -> bool {
    '0' <= c <= '9'
}

/// The number that a digit stands for.
pub open spec fn digit_value(c: char) -> nat
    recommends
        is_digit(c),
{
    (c as int - '0' as int) as nat
}

/// The digit that stands for a number below ten.
pub open spec fn digit_char(d: nat) -> char
    recommends
        d < 10,
{
    (d + 48) as char
}

/// Digits only.
pub open spec fn all_digits(s: Seq<char>) -> bool {
    forall|i: int| 0 <= i < s.len() ==> is_digit(#[trigger] s[i])
}

/// A decimal numeral: one digit or more, nothing else.
pub open spec fn is_decimal(s: Seq<char>) -> bool {
    s.len() > 0 && all_digits(s)
}

/// The number that a sequence of digits denotes, most significant first.
pub open spec fn decimal_value(s: Seq<char>) -> nat
    decreases s.len(),
{
    if s.len() == 0 {
        0
    } else {
        10 * decimal_value(s.drop_last()) + digit_value(s.last())
    }
}

/// The shortest decimal numeral of a number.
pub open spec fn decimal_text(n: nat) -> Seq<char>
    decreases n,
{
    if n < 10 {
        seq![digit_char(n)]
    } else {
        decimal_text(n / 10).push(digit_char(n % 10))
    }
}

/// `decimal_text` writes a numeral, and `decimal_value` reads it back.
pub proof fn lemma_decimal_text_value(n: nat)
    ensures
        is_decimal(decimal_text(n)),
        decimal_value(decimal_text(n)) == n,
    decreases n,
{
    if n < 10 {
        let s = decimal_text(n);
        assert(s.len() == 1);
        assert(s.drop_last() =~= Seq::<char>::empty());
        assert(decimal_value(s.drop_last()) == 0);
        assert(s.last() == digit_char(n));
    } else {
        lemma_decimal_text_value(n / 10);
        let p = decimal_text(n / 10);
        let s = p.push(digit_char(n % 10));
        assert(s.drop_last() =~= p);
        assert(s.last() == digit_char(n % 10));
        assert forall|i: int| 0 <= i < s.len() implies is_digit(#[trigger] s[i]) by {
            if i < p.len() {
                assert(s[i] == p[i]);
            }
        }
    }
}

/// Reading one more digit never lowers the value.
pub proof fn lemma_decimal_value_push(s: Seq<char>, c: char)
    requires
        is_digit(c),
    ensures
        decimal_value(s.push(c)) == 10 * decimal_value(s) + digit_value(c),
        decimal_value(s.push(c)) >= decimal_value(s),
{
    assert(s.push(c).drop_last() =~= s);
    assert(s.push(c).last() == c);
}

/// The decimal numeral of `n` as ASCII bytes.
pub fn format_decimal(n: u64) -> (r: Vec<u8>)
    ensures
        bytes_as_chars(r@) == decimal_text(n as nat),
        r@.len() >= 1,
    decreases n,
{
    if n < 10 {
        let d: u8 = (n + 48) as u8;
        let r = vec![d];
        assert(bytes_as_chars(r@) =~= decimal_text(n as nat));
        r
    } else {
        let mut r = format_decimal(n / 10);
        let d: u8 = (n % 10 + 48) as u8;
        let ghost before = r@;
        r.push(d);
        assert(bytes_as_chars(r@) =~= bytes_as_chars(before).push(digit_char((n % 10) as nat)));
        r
    }
}

fn digit_str(d: u64) -> (r: &'static str)
    requires
        d < 10,
    ensures
        r@ == seq![digit_char(d as nat)],
{
    proof {
        reveal_strlit("0");
        reveal_strlit("1");
        reveal_strlit("2");
        reveal_strlit("3");
        reveal_strlit("4");
        reveal_strlit("5");
        reveal_strlit("6");
        reveal_strlit("7");
        reveal_strlit("8");
        reveal_strlit("9");
    }
    let r = if d == 0 {
        "0"
    } else if d == 1 {
        "1"
    } else if d == 2 {
        "2"
    } else if d == 3 {
        "3"
    } else if d == 4 {
        "4"
    } else if d == 5 {
        "5"
    } else if d == 6 {
        "6"
    } else if d == 7 {
        "7"
    } else if d == 8 {
        "8"
    } else {
        "9"
    };
    assert(r@ =~= seq![digit_char(d as nat)]);
    r
}

/// The decimal numeral of `n` as a string.
pub fn decimal_string(n: u64) -> (r: String)
    ensures
        r@ == decimal_text(n as nat),
    decreases n,
{
    if n < 10 {
        owned(digit_str(n))
    } else {
        let mut r = decimal_string(n / 10);
        r.append(digit_str(n % 10));
        assert(r@ =~= decimal_text((n / 10) as nat).push(digit_char((n % 10) as nat)));
        r
    }
}

/// What reading a decimal numeral under a ceiling gives.
#[derive(Clone, Copy, Debug, PartialEq, Eq, Structural)]
pub enum Decimal {
    /// The text is a numeral and its value is within the ceiling.
    Value(u64),
    /// The text is a numeral and its value is above the ceiling.
    TooLarge,
    /// The text is empty or holds something other than digits.
    Invalid,
}

/// What reading a text as a decimal numeral no greater than `limit` gives.
pub open spec fn spec_parse_decimal(s: Seq<char>, limit: nat) -> Decimal {
    if !is_decimal(s) {
        Decimal::Invalid
    } else if decimal_value(s) > limit {
        Decimal::TooLarge
    } else {
        Decimal::Value(decimal_value(s) as u64)
    }
}

/// Reads `bytes[from..to]` as a decimal numeral no greater than `limit`.
pub fn parse_decimal(bytes: &[u8], from: usize, to: usize, limit: u64) -> (r: Decimal)
    requires
        from <= to <= bytes.len(),
    ensures
        r == spec_parse_decimal(bytes_as_chars(bytes@.subrange(from as int, to as int)), limit as nat),
{
    let ghost s = bytes_as_chars(bytes@.subrange(from as int, to as int));
    if from == to {
        return Decimal::Invalid;
    }
    let mut acc: u64 = 0;
    let mut over: bool = false;
    let mut i: usize = from;
    while i < to
        invariant
            from <= i <= to <= bytes.len(),
            s == bytes_as_chars(bytes@.subrange(from as int, to as int)),
            all_digits(s.take(i - from)),
            !over ==> acc == decimal_value(s.take(i - from)) && acc <= limit,
            over ==> decimal_value(s.take(i - from)) > limit,
        decreases to - i,
    {
        let b: u8 = bytes[i];
        assert(s[i - from] == b as char);
        if b < 48 || b > 57 {
            assert(!is_digit(s[i - from]));
            return Decimal::Invalid;
        }
        let d: u64 = (b - 48) as u64;
        proof {
            let p = s.take(i - from);
            let c = s[i - from];
            assert(s.take(i - from + 1) =~= p.push(c));
            lemma_decimal_value_push(p, c);
            assert(digit_value(c) == d);
            assert forall|j: int| 0 <= j < p.push(c).len() implies is_digit(#[trigger] p.push(c)[j]) by {
                if j < p.len() {
                    assert(p.push(c)[j] == p[j]);
                }
            }
        }
        if !over {
            if d > limit || acc > (limit - d) / 10 {
                over = true;
            } else {
                acc = acc * 10 + d;
            }
        }
        i += 1;
    }
    assert(s.take(to - from) =~= s);
    if over {
        Decimal::TooLarge
    } else {
        Decimal::Value(acc)
    }
}

/// The bytes of an ASCII string are its characters.
pub proof fn lemma_ascii_bytes_as_chars(s: &str)
    requires
        is_ascii(s),
    ensures
        bytes_as_chars(s.spec_bytes()) == s@,
{
    is_ascii_chars_encode_utf8(s@);
    assert forall|i: int| 0 <= i < s@.len() implies #[trigger] bytes_as_chars(s.spec_bytes())[i]
        == s@[i] by {
        assert(s@[i] as u8 == encode_utf8(s@)[i]);
        assert('\0' <= s@[i] <= '\u{7f}');
    }
    assert(bytes_as_chars(s.spec_bytes()) =~= s@);
}

/// Digits are ASCII.
pub proof fn lemma_digits_are_ascii(s: Seq<char>)
    requires
        all_digits(s),
    ensures
        is_ascii_chars(s),
{
    assert forall|i: int| 0 <= i < s.len() implies '\0' <= #[trigger] s[i] <= '\u{7f}' by {
        assert(is_digit(s[i]));
    }
}

/// The number that a text denotes as an unsigned integer up to `limit`:
/// digits, which may have `+` in front.
pub open spec fn unsigned_value(s: Seq<char>, limit: nat) -> Option<nat> {
    let digits = if s.len() > 0 && s[0] == '+' {
        s.skip(1)
    } else {
        s
    };
    if is_decimal(digits) && decimal_value(digits) <= limit {
        Some(decimal_value(digits))
    } else {
        None
    }
}

/// The port that a text denotes.
pub open spec fn spec_parse_u16(s: Seq<char>) -> Option<u16> {
    match unsigned_value(s, 65535) {
        Some(v) => Some(v as u16),
        None => None,
    }
}

/// Reads a text as an unsigned integer of 16 bits.
pub fn parse_u16(s: &str) -> (r: Option<u16>)
    ensures
        r == spec_parse_u16(s@),
{
    let bytes = s.as_bytes();
    if !s.is_ascii() {
        proof {
            let digits = if s@.len() > 0 && s@[0] == '+' {
                s@.skip(1)
            } else {
                s@
            };
            if is_decimal(digits) {
                lemma_digits_are_ascii(digits);
                assert forall|i: int| 0 <= i < s@.len() implies '\0' <= #[trigger] s@[i]
                    <= '\u{7f}' by {
                    if s@[0] == '+' {
                        if i > 0 {
                            assert(s@[i] == s@.skip(1)[i - 1]);
                        }
                    }
                }
            }
        }
        return None;
    }
    proof {
        lemma_ascii_bytes_as_chars(s);
    }
    let n: usize = bytes.len();
    let from: usize = if n > 0 && bytes[0] == 43 {
        1
    } else {
        0
    };
    proof {
        if from == 1 {
            assert(s@[0] == '+');
            assert(bytes_as_chars(bytes@.subrange(1, n as int)) =~= s@.skip(1));
        } else {
            assert(n > 0 ==> s@[0] != '+');
            assert(bytes_as_chars(bytes@.subrange(0, n as int)) =~= s@);
        }
    }
    match parse_decimal(bytes, from, n, 65535) {
        Decimal::Value(v) => Some(v as u16),
        _ => None,
    }
}

/// Whether `s` ends with `suffix`.
pub open spec fn spec_ends_with(s: Seq<char>, suffix: Seq<char>) -> bool {
    s.len() >= suffix.len() && s.subrange(s.len() - suffix.len(), s.len() as int) == suffix
}

/// Whether `s` ends with `suffix`.
pub fn ends_with(s: &str, suffix: &str) -> (r: bool)
    ensures
        r == spec_ends_with(s@, suffix@),
{
    let n = s.unicode_len();
    let m = suffix.unicode_len();
    if n < m {
        return false;
    }
    let ghost tail = s@.subrange(n - m, n as int);
    let mut i: usize = 0;
    while i < m
        invariant
            i <= m <= n,
            n == s@.len(),
            m == suffix@.len(),
            tail == s@.subrange(n - m, n as int),
            forall|j: int| 0 <= j < i ==> tail[j] == suffix@[j],
        decreases m - i,
    {
        if s.get_char(n - m + i) != suffix.get_char(i) {
            assert(tail[i as int] != suffix@[i as int]);
            return false;
        }
        i += 1;
    }
    assert(tail =~= suffix@);
    true
}

/// The first index at or after `from` at which `s` holds `c`, or the length
/// of `s` where it holds none.
pub open spec fn index_of(s: Seq<char>, c: char, from: int) -> int
    decreases s.len() - from,
{
    if 0 <= from < s.len() && s[from] != c {
        index_of(s, c, from + 1)
    } else {
        from
    }
}

/// The first index at which `s` holds `c`, if it holds one.
pub fn find_char(s: &str, c: char) -> (r: Option<usize>)
    ensures
        r is Some <==> index_of(s@, c, 0) < s@.len(),
        r is Some ==> r->0 == index_of(s@, c, 0),
{
    let n = s.unicode_len();
    let mut i: usize = 0;
    while i < n
        invariant
            i <= n,
            n == s@.len(),
            index_of(s@, c, 0) == index_of(s@, c, i as int),
        decreases n - i,
    {
        if s.get_char(i) == c {
            return Some(i);
        }
        i += 1;
    }
    None
}

} // verus!
