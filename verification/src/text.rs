//! Characters of strings, and the decimal integers that strings spell.

use vstd::prelude::*;
use vstd::std_specs::iter::IteratorSpec;
use vstd::string::StringExecFns;

verus! {

/// Whether a character is one of the ten decimal digits.
pub open spec fn is_digit(c: char) -> bool {
    '0' <= c && c <= '9'
}

/// The value of a decimal digit.
pub open spec fn digit_value(c: char) -> nat {
    (c as int - '0' as int) as nat
}

/// Whether a text holds decimal digits only.
pub open spec fn all_digits(s: Seq<char>) -> bool {
    forall|i: int| 0 <= i < s.len() ==> is_digit(#[trigger] s[i])
}

/// The number that a row of decimal digits spells; leading zeros count for
/// nothing.
pub open spec fn digits_value(digits: Seq<char>) -> nat
    decreases digits.len(),
{
    if digits.len() == 0 {
        0
    } else {
        10 * digits_value(digits.drop_last()) + digit_value(digits.last())
    }
}

/// The integer that a text spells: a sign, `+` or `-`, or none, and then one
/// digit or more, and nothing else. `None` for every other text.
pub open spec fn signed_decimal(s: Seq<char>) -> Option<int> {
    if s.len() > 0 && (s[0] == '+' || s[0] == '-') {
        let digits = s.subrange(1, s.len() as int);
        if digits.len() > 0 && all_digits(digits) {
            if s[0] == '-' {
                Some(-(digits_value(digits) as int))
            } else {
                Some(digits_value(digits) as int)
            }
        } else {
            None
        }
    } else if s.len() > 0 && all_digits(s) {
        Some(digits_value(s) as int)
    } else {
        None
    }
}

/// The integer that a text spells where no `-` is admitted: `+` or nothing, and
/// then one digit or more.
pub open spec fn unsigned_decimal(s: Seq<char>) -> Option<int> {
    if s.len() > 0 && s[0] == '-' {
        None
    } else {
        signed_decimal(s)
    }
}

/// The `u64` that a text spells, if it spells one.
pub open spec fn text_u64(s: Seq<char>) -> Option<u64> {
    match unsigned_decimal(s) {
        Some(n) => if n <= u64::MAX {
            Some(n as u64)
        } else {
            None
        },
        None => None,
    }
}

/// The `i64` that a text spells, if it spells one.
pub open spec fn text_i64(s: Seq<char>) -> Option<i64> {
    match signed_decimal(s) {
        Some(n) => if i64::MIN <= n <= i64::MAX {
            Some(n as i64)
        } else {
            None
        },
        None => None,
    }
}

/// The `i32` that a text spells, if it spells one.
pub open spec fn text_i32(s: Seq<char>) -> Option<i32> {
    match signed_decimal(s) {
        Some(n) => if i32::MIN <= n <= i32::MAX {
            Some(n as i32)
        } else {
            None
        },
        None => None,
    }
}

/// A row of digits spells at least what any of its beginnings spells.
proof fn lemma_digits_value_grows(digits: Seq<char>, k: int)
    requires
        0 <= k <= digits.len(),
    ensures
        digits_value(digits.subrange(0, k)) <= digits_value(digits),
    decreases digits.len() - k,
{
    if k == digits.len() {
        assert(digits.subrange(0, k) == digits);
    } else {
        lemma_digits_value_grows(digits.drop_last(), k);
        assert(digits.drop_last().subrange(0, k) == digits.subrange(0, k));
    }
}

/// The characters of a string, in order.
pub fn chars_of(s: &str) -> (chars: Vec<char>)
    ensures
        chars@ == s@,
{
    let mut chars: Vec<char> = Vec::new();
    let mut rest = s.chars();
    loop
        invariant
            rest.obeys_prophetic_iter_laws(),
            rest.decrease() is Some,
            chars@ + rest.remaining() == s@,
        decreases rest.decrease()->0,
    {
        match rest.next() {
            Some(c) => {
                chars.push(c);
            },
            None => {
                return chars;
            },
        }
    }
}

/// Whether `c` occurs among `chars`.
pub fn contains(chars: &Vec<char>, c: char) -> (found: bool)
    ensures
        found == chars@.contains(c),
{
    let mut i: usize = 0;
    while i < chars.len()
        invariant
            i <= chars.len(),
            forall|j: int| 0 <= j < i ==> chars@[j] != c,
        decreases chars.len() - i,
    {
        if chars[i] == c {
            return true;
        }
        i += 1;
    }
    false
}

/// What the digits from `from` on spell, where there is at least one, nothing
/// but digits follows, and the number is at most `limit`.
pub open spec fn digits_within(chars: Seq<char>, from: int, limit: u64) -> Option<u64> {
    let digits = chars.subrange(from, chars.len() as int);
    if digits.len() > 0 && all_digits(digits) && digits_value(digits) <= limit {
        Some(digits_value(digits) as u64)
    } else {
        None
    }
}

/// Reads the digits from `from` to the end as a number of at most `limit`.
fn read_digits(chars: &Vec<char>, from: usize, limit: u64) -> (r: Option<u64>)
    requires
        from <= chars.len(),
    ensures
        r == digits_within(chars@, from as int, limit),
{
    let ghost digits = chars@.subrange(from as int, chars.len() as int);
    if from == chars.len() {
        return None;
    }
    let mut value: u64 = 0;
    let mut i: usize = from;
    while i < chars.len()
        invariant
            from <= i <= chars.len(),
            digits == chars@.subrange(from as int, chars.len() as int),
            all_digits(chars@.subrange(from as int, i as int)),
            value == digits_value(chars@.subrange(from as int, i as int)),
            value <= limit,
        decreases chars.len() - i,
    {
        let c = chars[i];
        let ghost before = chars@.subrange(from as int, i as int);
        let ghost upto = chars@.subrange(from as int, i + 1);
        proof {
            assert(upto.drop_last() == before);
            assert(upto.last() == c);
            assert(digits.subrange(0, i + 1 - from) == upto);
        }
        if c < '0' || c > '9' {
            proof {
                assert(digits[i - from] == c);
            }
            return None;
        }
        let digit: u64 = (c as u64) - ('0' as u64);
        let next = match value.checked_mul(10) {
            Some(tenfold) => tenfold.checked_add(digit),
            None => None,
        };
        match next {
            Some(n) if n <= limit => {
                value = n;
            },
            _ => {
                proof {
                    if all_digits(digits) {
                        lemma_digits_value_grows(digits, i + 1 - from);
                    }
                }
                return None;
            },
        }
        proof {
            assert forall|j: int| 0 <= j < upto.len() implies is_digit(#[trigger] upto[j]) by {
                if j < before.len() {
                    assert(upto[j] == before[j]);
                }
            }
        }
        i += 1;
    }
    proof {
        assert(chars@.subrange(from as int, i as int) == digits);
    }
    Some(value)
}

/// What the characters spell as a `u64`.
pub fn chars_u64(chars: &Vec<char>) -> (r: Option<u64>)
    ensures
        r == text_u64(chars@),
{
    if chars.len() == 0 {
        return None;
    }
    if chars[0] == '+' {
        read_digits(chars, 1, u64::MAX)
    } else {
        proof {
            assert(chars@.subrange(0, chars.len() as int) == chars@);
            if chars@[0] == '-' {
                assert(!is_digit(chars@[0]));
            }
        }
        read_digits(chars, 0, u64::MAX)
    }
}

/// What the characters spell as an `i64`.
pub fn chars_i64(chars: &Vec<char>) -> (r: Option<i64>)
    ensures
        r == text_i64(chars@),
{
    if chars.len() == 0 {
        return None;
    }
    if chars[0] == '-' {
        match read_digits(chars, 1, 0x8000_0000_0000_0000) {
            Some(magnitude) => {
                if magnitude == 0x8000_0000_0000_0000 {
                    Some(i64::MIN)
                } else {
                    Some(-(magnitude as i64))
                }
            },
            None => None,
        }
    } else if chars[0] == '+' {
        match read_digits(chars, 1, 0x7fff_ffff_ffff_ffff) {
            Some(magnitude) => Some(magnitude as i64),
            None => None,
        }
    } else {
        proof {
            assert(chars@.subrange(0, chars.len() as int) == chars@);
        }
        match read_digits(chars, 0, 0x7fff_ffff_ffff_ffff) {
            Some(magnitude) => Some(magnitude as i64),
            None => None,
        }
    }
}

/// What the characters spell as an `i32`.
pub fn chars_i32(chars: &Vec<char>) -> (r: Option<i32>)
    ensures
        r == text_i32(chars@),
{
    match chars_i64(chars) {
        Some(n) => {
            if -0x8000_0000 <= n && n <= 0x7fff_ffff {
                Some(n as i32)
            } else {
                None
            }
        },
        None => None,
    }
}

/// What a string spells as a `u64`: `+` or nothing, then decimal digits.
pub fn parse_u64(s: &str) -> (r: Option<u64>)
    ensures
        r == text_u64(s@),
{
    let chars = chars_of(s);
    chars_u64(&chars)
}

/// What a string spells as an `i64`: `+`, `-` or nothing, then decimal digits.
pub fn parse_i64(s: &str) -> (r: Option<i64>)
    ensures
        r == text_i64(s@),
{
    let chars = chars_of(s);
    chars_i64(&chars)
}

/// What a string spells as an `i32`: `+`, `-` or nothing, then decimal digits.
pub fn parse_i32(s: &str) -> (r: Option<i32>)
    ensures
        r == text_i32(s@),
{
    let chars = chars_of(s);
    chars_i32(&chars)
}

/// A character with the upper-case letters `A` to `Z` made lower-case, and every
/// other character as it is.
pub open spec fn lower(c: char) -> char {
    if 'A' <= c && c <= 'Z' {
        (c as u8 + 32) as char
    } else {
        c
    }
}

/// A text with each character made lower-case by [`lower`].
pub open spec fn lowered(s: Seq<char>) -> Seq<char> {
    Seq::new(s.len(), |i: int| lower(s[i]))
}

/// Makes an upper-case letter `A` to `Z` lower-case.
pub fn lower_char(c: char) -> (l: char)
    ensures
        l == lower(c),
{
    if c >= 'A' && c <= 'Z' {
        ((c as u8) + 32) as char
    } else {
        c
    }
}

/// Whether `chars`, made lower-case, is the text `name`.
pub fn spells(chars: &Vec<char>, name: &str) -> (same: bool)
    ensures
        same == (lowered(chars@) == name@),
{
    let wanted = chars_of(name);
    if chars.len() != wanted.len() {
        return false;
    }
    let mut i: usize = 0;
    while i < chars.len()
        invariant
            i <= chars.len(),
            chars.len() == wanted.len(),
            wanted@ == name@,
            forall|j: int| 0 <= j < i ==> lower(chars@[j]) == wanted@[j],
        decreases chars.len() - i,
    {
        if lower_char(chars[i]) != wanted[i] {
            assert(lowered(chars@)[i as int] != name@[i as int]);
            return false;
        }
        i += 1;
    }
    assert(lowered(chars@) =~= name@);
    true
}

/// The decimal digit for a value below ten.
pub open spec fn digit_char(d: nat) -> char {
    ('0' as nat + d) as char
}

/// A natural number in decimal digits, without leading zeros.
pub open spec fn nat_text(n: nat) -> Seq<char>
    decreases n,
{
    if n < 10 {
        seq![digit_char(n)]
    } else {
        nat_text(n / 10).push(digit_char(n % 10))
    }
}

/// An integer in decimal digits, with `-` in front if it is negative.
pub open spec fn int_text(n: int) -> Seq<char> {
    if n < 0 {
        seq!['-'] + nat_text((-n) as nat)
    } else {
        nat_text(n as nat)
    }
}

/// The decimal digit for a value below ten, as a string.
fn digit_str(d: u64) -> (s: &'static str)
    requires
        d < 10,
    ensures
        s@ == seq![digit_char(d as nat)],
{
    proof {
        reveal_strlit("0");
        reveal_strlit("1");
        reveal_strlit("2");
        reveal_strlit("3");
        reveal_strlit("4");
        reveal_strlit("5");
        reveal_strlit("6");
        reveal_strlit("7");
        reveal_strlit("8");
        reveal_strlit("9");
    }
    let s = if d == 0 {
        "0"
    } else if d == 1 {
        "1"
    } else if d == 2 {
        "2"
    } else if d == 3 {
        "3"
    } else if d == 4 {
        "4"
    } else if d == 5 {
        "5"
    } else if d == 6 {
        "6"
    } else if d == 7 {
        "7"
    } else if d == 8 {
        "8"
    } else {
        "9"
    };
    assert(s@ =~= seq![digit_char(d as nat)]);
    s
}

/// A `u64` in decimal digits.
pub fn u64_text(n: u64) -> (s: String)
    ensures
        s@ == nat_text(n as nat),
    decreases n,
{
    if n < 10 {
        digit_str(n).to_owned()
    } else {
        let mut s = u64_text(n / 10);
        s.append(digit_str(n % 10));
        s
    }
}

/// An `i64` in decimal digits, with `-` in front if it is negative.
pub fn i64_text(n: i64) -> (s: String)
    ensures
        s@ == int_text(n as int),
{
    if n < 0 {
        proof {
            reveal_strlit("-");
        }
        let magnitude: u64 = ((-(n + 1)) as u64) + 1;
        let mut s = "-".to_owned();
        s.append(u64_text(magnitude).as_str());
        assert(s@ =~= seq!['-'] + nat_text(magnitude as nat));
        s
    } else {
        u64_text(n as u64)
    }
}

} // verus!
