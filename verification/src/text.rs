//! Text helpers used when SQL is assembled and when database text is read:
//! joining, decimal rendering, and decimal parsing of unsigned integers.

use vstd::prelude::*;
use vstd::utf8::is_ascii_chars;

verus! {

/// The parts of `parts`, in order, with `sep` between each two neighbours.
pub open spec fn joined(parts: Seq<Seq<char>>, sep: Seq<char>) -> Seq<char>
    decreases parts.len(),
{
    if parts.len() == 0 {
        Seq::empty()
    } else if parts.len() == 1 {
        parts[0]
    } else {
        joined(parts.drop_last(), sep) + sep + parts.last()
    }
}

/// The character sequences of a sequence of strings.
pub open spec fn texts_view(v: Seq<String>) -> Seq<Seq<char>> {
    v.map_values(|s: String| s@)
}

/// Joins `parts` with `sep` between neighbours (as `slice::join` does).
pub fn join_texts(parts: &Vec<String>, sep: &str) -> (res: String)
    ensures
        res@ == joined(texts_view(parts@), sep@),
{
    let mut res = String::new();
    let mut i: usize = 0;
    while i < parts.len()
        invariant
            i <= parts.len(),
            res@ == joined(texts_view(parts@).take(i as int), sep@),
        decreases parts.len() - i,
    {
        let ghost before = res@;
        if i != 0 {
            res.append(sep);
        }
        res.append(parts[i].as_str());
        proof {
            let all = texts_view(parts@);
            assert(all.take(i + 1).drop_last() =~= all.take(i as int));
            assert(all.take(i + 1).last() == parts@[i as int]@);
            if i == 0 {
                assert(before =~= Seq::<char>::empty());
                assert(res@ =~= parts@[0]@);
            }
        }
        i += 1;
    }
    assert(texts_view(parts@).take(parts.len() as int) =~= texts_view(parts@));
    res
}

/// True exactly when both texts hold the same characters.
pub fn same_text(a: &str, b: &str) -> (res: bool)
    ensures
        res == (a@ == b@),
{
    let x = a.to_owned();
    let y = b.to_owned();
    x == y
}

/// The ASCII character of a decimal digit.
pub open spec fn digit_char(d: int) -> char {
    if d == 0 {
        '0'
    } else if d == 1 {
        '1'
    } else if d == 2 {
        '2'
    } else if d == 3 {
        '3'
    } else if d == 4 {
        '4'
    } else if d == 5 {
        '5'
    } else if d == 6 {
        '6'
    } else if d == 7 {
        '7'
    } else if d == 8 {
        '8'
    } else {
        '9'
    }
}

/// The decimal notation of `n`, without sign or leading zeros.
pub open spec fn decimal_chars(n: nat) -> Seq<char>
    decreases n,
{
    if n < 10 {
        seq![digit_char(n as int)]
    } else {
        decimal_chars(n / 10).push(digit_char((n % 10) as int))
    }
}

fn digit_text(d: u64) -> (res: &'static str)
    requires
        d < 10,
    ensures
        res@ == seq![digit_char(d as int)],
{
    proof {
        reveal_strlit("0");
        reveal_strlit("1");
        reveal_strlit("2");
        reveal_strlit("3");
        reveal_strlit("4");
        reveal_strlit("5");
        reveal_strlit("6");
        reveal_strlit("7");
        reveal_strlit("8");
        reveal_strlit("9");
    }
    if d == 0 {
        "0"
    } else if d == 1 {
        "1"
    } else if d == 2 {
        "2"
    } else if d == 3 {
        "3"
    } else if d == 4 {
        "4"
    } else if d == 5 {
        "5"
    } else if d == 6 {
        "6"
    } else if d == 7 {
        "7"
    } else if d == 8 {
        "8"
    } else {
        "9"
    }
}

/// Renders `n` in decimal, as `n.to_string()` does.
pub fn decimal_text(n: u64) -> (res: String)
    ensures
        res@ == decimal_chars(n as nat),
    decreases n,
{
    if n < 10 {
        String::from_str(digit_text(n))
    } else {
        let mut res = decimal_text(n / 10);
        res.append(digit_text(n % 10));
        res
    }
}


/// The kinds of failure of decimal integer parsing (those of `IntErrorKind`
/// that an unsigned parse can give).
#[derive(Clone, Copy, Debug, PartialEq, Eq, Structural)]
pub enum IntTextError {
    /// The text is empty.
    Empty,
    /// A character that is not a decimal digit, or a sign with no digits.
    InvalidDigit,
    /// The value does not fit in 64 bits.
    PosOverflow,
}

/// True for the ASCII digits `0` to `9`.
pub open spec fn is_digit(c: char) -> bool {
    '0' <= c && c <= '9'
}

/// The value of an ASCII digit.
pub open spec fn digit_value(c: char) -> int {
    c as int - '0' as int
}

/// Reads `d` left to right as decimal digits into a value that must stay
/// within `u64`; the first offending character decides the error.
pub open spec fn digits_value(d: Seq<char>) -> Result<nat, IntTextError>
    decreases d.len(),
{
    if d.len() == 0 {
        Ok(0)
    } else {
        match digits_value(d.drop_last()) {
            Err(e) => Err(e),
            Ok(v) => if !is_digit(d.last()) {
                Err(IntTextError::InvalidDigit)
            } else if v * 10 + digit_value(d.last()) > u64::MAX {
                Err(IntTextError::PosOverflow)
            } else {
                Ok((v * 10 + digit_value(d.last())) as nat)
            },
        }
    }
}

/// What `u64::from_str` gives for `s`: an optional `+` then at least one
/// decimal digit, with a value that fits in 64 bits.
pub open spec fn u64_from_text(s: Seq<char>) -> Result<u64, IntTextError> {
    if s.len() == 0 {
        Err(IntTextError::Empty)
    } else if s.len() == 1 && (s[0] == '+' || s[0] == '-') {
        Err(IntTextError::InvalidDigit)
    } else {
        let d = if s[0] == '+' { s.drop_first() } else { s };
        match digits_value(d) {
            Ok(v) => Ok(v as u64),
            Err(e) => Err(e),
        }
    }
}

/// The message that `ParseIntError` displays for each kind.
pub open spec fn int_error_message(e: IntTextError) -> Seq<char> {
    match e {
        IntTextError::Empty => "cannot parse integer from empty string"@,
        IntTextError::InvalidDigit => "invalid digit found in string"@,
        IntTextError::PosOverflow => "number too large to fit in target type"@,
    }
}

/// An error met while reading a prefix is the error of the whole text.
proof fn lemma_digits_error_extends(d: Seq<char>, k: int)
    requires
        0 <= k <= d.len(),
        digits_value(d.take(k)) is Err,
    ensures
        digits_value(d) == digits_value(d.take(k)),
    decreases d.len(),
{
    if k < d.len() {
        assert(d.drop_last().take(k) =~= d.take(k));
        lemma_digits_error_extends(d.drop_last(), k);
    } else {
        assert(d.take(k) =~= d);
    }
}

/// Parses `s` as `u64::from_str` does.
pub fn parse_u64_text(s: &str) -> (res: Result<u64, IntTextError>)
    ensures
        res == u64_from_text(s@),
{
    let n = s.unicode_len();
    if n == 0 {
        return Err(IntTextError::Empty);
    }
    let first = s.get_char(0);
    if n == 1 && (first == '+' || first == '-') {
        return Err(IntTextError::InvalidDigit);
    }
    let start: usize = if first == '+' { 1 } else { 0 };
    let ghost d = s@.subrange(start as int, n as int);
    assert(d =~= (if s@[0] == '+' { s@.drop_first() } else { s@ }));
    let mut acc: u64 = 0;
    let mut i: usize = start;
    assert(d.take(0) =~= Seq::<char>::empty());
    while i < n
        invariant
            start <= i <= n,
            n == s@.len(),
            d == s@.subrange(start as int, n as int),
            digits_value(d.take(i - start)) == Ok::<nat, IntTextError>(acc as nat),
            s@.len() > 0,
            !(s@.len() == 1 && (s@[0] == '+' || s@[0] == '-')),
            d =~= (if s@[0] == '+' { s@.drop_first() } else { s@ }),
        decreases n - i,
    {
        let c = s.get_char(i);
        let ghost k = i - start;
        assert(d.take(k + 1).drop_last() =~= d.take(k));
        assert(d.take(k + 1).last() == c);
        if !('0' <= c && c <= '9') {
            proof {
                assert(digits_value(d.take(k + 1)) == Err::<nat, IntTextError>(
                    IntTextError::InvalidDigit,
                ));
                lemma_digits_error_extends(d, k + 1);
            }
            return Err(IntTextError::InvalidDigit);
        }
        let v = (c as u32 - '0' as u32) as u64;
        assert(v == digit_value(c));
        match acc.checked_mul(10) {
            None => {
                proof {
                    assert(digits_value(d.take(k + 1)) == Err::<nat, IntTextError>(
                        IntTextError::PosOverflow,
                    ));
                    lemma_digits_error_extends(d, k + 1);
                }
                return Err(IntTextError::PosOverflow);
            },
            Some(m) => match m.checked_add(v) {
                None => {
                    proof {
                        assert(digits_value(d.take(k + 1)) == Err::<nat, IntTextError>(
                            IntTextError::PosOverflow,
                        ));
                        lemma_digits_error_extends(d, k + 1);
                    }
                    return Err(IntTextError::PosOverflow);
                },
                Some(next) => {
                    acc = next;
                },
            },
        }
        i += 1;
    }
    assert(d.take(n - start) =~= d);
    Ok(acc)
}

proof fn lemma_digit_char(d: int)
    requires
        0 <= d < 10,
    ensures
        is_digit(digit_char(d)),
        digit_value(digit_char(d)) == d,
        digit_char(d) != '+',
        digit_char(d) != '-',
{
}

proof fn lemma_digits_of_decimal(n: nat)
    requires
        n <= u64::MAX,
    ensures
        digits_value(decimal_chars(n)) == Ok::<nat, IntTextError>(n),
        decimal_chars(n).len() > 0,
        is_digit(decimal_chars(n)[0]),
    decreases n,
{
    if n < 10 {
        lemma_digit_char(n as int);
        let s = decimal_chars(n);
        assert(s.drop_last() =~= Seq::<char>::empty());
        assert(digits_value(s.drop_last()) == Ok::<nat, IntTextError>(0));
        assert(s.last() == digit_char(n as int));
        assert(digit_value(s.last()) == n);
    } else {
        lemma_digit_char((n % 10) as int);
        lemma_digits_of_decimal(n / 10);
        let s = decimal_chars(n);
        assert(s.drop_last() =~= decimal_chars(n / 10));
        assert(s[0] == decimal_chars(n / 10)[0]);
        assert(n == (n / 10) * 10 + n % 10);
        assert(s.last() == digit_char((n % 10) as int));
    }
}

/// Decimal rendering and decimal parsing are inverse: reading back the
/// decimal text of any `u64` gives that number.
pub proof fn law_decimal_text_reads_back(n: u64)
    ensures
        u64_from_text(decimal_chars(n as nat)) == Ok::<u64, IntTextError>(n),
{
    lemma_digits_of_decimal(n as nat);
    let s = decimal_chars(n as nat);
    lemma_digit_char(digit_value(s[0]));
}


/// The result of `str::to_lowercase` on a text: its Unicode lowercase
/// mapping (which, for instance, turns a capital sigma that ends a word into
/// the final small sigma).
pub uninterp spec fn unicode_lowercase(text: Seq<char>) -> Seq<char>;

/// An ASCII capital letter made small; every other character unchanged.
pub open spec fn ascii_lower_char(c: char) -> char {
    if 'A' <= c && c <= 'Z' {
        ((c as int) + 32) as char
    } else {
        c
    }
}

/// Every ASCII capital letter of `text` made small.
pub open spec fn ascii_lowercase(text: Seq<char>) -> Seq<char> {
    text.map_values(|c: char| ascii_lower_char(c))
}

/// What `str::to_lowercase` gives: on ASCII text, the ASCII lowercase;
/// otherwise the Unicode mapping, by its name.
pub open spec fn lowercase_text(text: Seq<char>) -> Seq<char> {
    if is_ascii_chars(text) {
        ascii_lowercase(text)
    } else {
        unicode_lowercase(text)
    }
}

/// Calls `str::to_lowercase`. The contract names its result, and states the
/// one case that the Unicode tables settle in a few lines: ASCII text comes
/// back with its capital letters made small. The rest of the case tables is
/// not written out here.
#[verifier::external_body]
pub(crate) fn to_lowercase_text(text: &str) -> (res: String)
    ensures
        res@ == unicode_lowercase(text@),
        is_ascii_chars(text@) ==> res@ == ascii_lowercase(text@),
{
    text.to_lowercase()
}

} // verus!
