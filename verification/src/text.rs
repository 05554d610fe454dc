//! Text: decimal numerals, reading them back, and searching.
use vstd::prelude::*;

verus! {

/// The characters of a text, one by one.
pub fn chars_of(text: &str) -> (chars: Vec<char>)
    ensures
        chars@ == text@,
{
    let mut chars: Vec<char> = Vec::new();
    for c in it: text.chars()
        invariant
            it.seq() == text@,
            chars@ == text@.take(it.index() as int),
    {
        chars.push(c);
    }
    chars
}

/// The decimal digit that stands for `d`, for `0 <= d <= 9`.
pub open spec fn digit_char(d: int) -> char {
    if d == 0 {
        '0'
    } else if d == 1 {
        '1'
    } else if d == 2 {
        '2'
    } else if d == 3 {
        '3'
    } else if d == 4 {
        '4'
    } else if d == 5 {
        '5'
    } else if d == 6 {
        '6'
    } else if d == 7 {
        '7'
    } else if d == 8 {
        '8'
    } else {
        '9'
    }
}

/// The decimal numeral of a natural number: no sign, no leading zero but
/// for zero itself.
pub open spec fn natural_text(n: nat) -> Seq<char>
    decreases n,
{
    if n < 10 {
        seq![digit_char(n as int)]
    } else {
        natural_text(n / 10).push(digit_char((n % 10) as int))
    }
}

/// The decimal numeral of an integer: a minus sign before the numeral of a
/// negative number's magnitude.
pub open spec fn integer_text(n: int) -> Seq<char> {
    if n < 0 {
        seq!['-'] + natural_text((-n) as nat)
    } else {
        natural_text(n as nat)
    }
}

fn digit_str(d: u64) -> (text: &'static str)
    requires
        d < 10,
    ensures
        text@ == seq![digit_char(d as int)],
{
    proof {
        reveal_strlit("0");
        reveal_strlit("1");
        reveal_strlit("2");
        reveal_strlit("3");
        reveal_strlit("4");
        reveal_strlit("5");
        reveal_strlit("6");
        reveal_strlit("7");
        reveal_strlit("8");
        reveal_strlit("9");
    }
    let text = if d == 0 {
        "0"
    } else if d == 1 {
        "1"
    } else if d == 2 {
        "2"
    } else if d == 3 {
        "3"
    } else if d == 4 {
        "4"
    } else if d == 5 {
        "5"
    } else if d == 6 {
        "6"
    } else if d == 7 {
        "7"
    } else if d == 8 {
        "8"
    } else {
        "9"
    };
    assert(text@ =~= seq![digit_char(d as int)]);
    text
}

/// Writes a natural number in decimal.
pub fn natural_string(n: u64) -> (text: String)
    ensures
        text@ == natural_text(n as nat),
    decreases n,
{
    if n < 10 {
        String::from_str(digit_str(n))
    } else {
        let mut text = natural_string(n / 10);
        text.append(digit_str(n % 10));
        text
    }
}

/// Writes an integer in decimal.
pub fn integer_string(n: i64) -> (text: String)
    ensures
        text@ == integer_text(n as int),
{
    if n < 0 {
        let magnitude: u64 = ((-(n + 1)) as u64) + 1;
        let digits = natural_string(magnitude);
        proof {
            reveal_strlit("-");
        }
        let text = String::from_str("-").concat(digits.as_str());
        assert(text@ =~= integer_text(n as int));
        text
    } else {
        natural_string(n as u64)
    }
}

/// Whether the character is one of the ten decimal digits.
pub open spec fn is_digit(c: char) -> bool {
    '0' <= c <= '9'
}

/// The number that a decimal digit stands for.
pub open spec fn digit_value(c: char) -> int {
    c as int - '0' as int
}

/// The number that a run of decimal digits stands for; the empty run stands
/// for zero.
pub open spec fn digits_value(digits: Seq<char>) -> int
    decreases digits.len(),
{
    if digits.len() == 0 {
        0
    } else {
        digits_value(digits.drop_last()) * 10 + digit_value(digits.last())
    }
}

/// Whether the text is a run of decimal digits and of nothing else.
pub open spec fn all_digits(digits: Seq<char>) -> bool {
    forall|i: int| 0 <= i < digits.len() ==> is_digit(#[trigger] digits[i])
}

/// The integer that a text denotes: one sign at most, `+` or `-`, and then
/// one decimal digit or more, with nothing before, between or after. Any
/// other text denotes none.
pub open spec fn numeral_value(text: Seq<char>) -> Option<int> {
    if text.len() > 0 && (text[0] == '-' || text[0] == '+') {
        let digits = text.subrange(1, text.len() as int);
        if digits.len() > 0 && all_digits(digits) {
            if text[0] == '-' {
                Some(-digits_value(digits))
            } else {
                Some(digits_value(digits))
            }
        } else {
            None
        }
    } else if text.len() > 0 && all_digits(text) {
        Some(digits_value(text))
    } else {
        None
    }
}

/// The integer that a text denotes, where it denotes one that `i64` holds.
pub open spec fn integer_of_text(text: Seq<char>) -> Option<i64> {
    match numeral_value(text) {
        Some(value) => if i64::MIN <= value <= i64::MAX {
            Some(value as i64)
        } else {
            None
        },
        None => None,
    }
}

/// A run of digits stands for at least what any of its prefixes stands for.
pub proof fn lemma_digits_value_grows(digits: Seq<char>, k: int)
    requires
        all_digits(digits),
        0 <= k <= digits.len(),
    ensures
        0 <= digits_value(digits.take(k)) <= digits_value(digits),
    decreases digits.len() - k,
{
    if k == digits.len() {
        assert(digits.take(k) =~= digits);
        lemma_digits_value_nonnegative(digits);
    } else {
        lemma_digits_value_grows(digits, k + 1);
        let longer = digits.take(k + 1);
        assert(longer.drop_last() =~= digits.take(k));
        assert(is_digit(digits[k]));
        assert(longer.last() == digits[k]);
        lemma_digits_value_nonnegative(digits.take(k));
    }
}

/// A run of digits stands for a natural number.
pub proof fn lemma_digits_value_nonnegative(digits: Seq<char>)
    requires
        all_digits(digits),
    ensures
        0 <= digits_value(digits),
    decreases digits.len(),
{
    if digits.len() > 0 {
        assert(is_digit(digits.last()));
        lemma_digits_value_nonnegative(digits.drop_last());
    }
}

/// Reads a decimal integer as `str::parse::<i64>` does: `None` where the text
/// is no numeral or the number does not fit.
pub fn parse_integer(text: &str) -> (r: Option<i64>)
    ensures
        r == integer_of_text(text@),
{
    let chars = chars_of(text);
    let n = chars.len();
    if n == 0 {
        return None;
    }
    let negative = chars[0] == '-';
    let start: usize = if chars[0] == '-' || chars[0] == '+' {
        1
    } else {
        0
    };
    if start == n {
        return None;
    }
    let ghost digits = chars@.subrange(start as int, n as int);
    let limit: u64 = if negative {
        9223372036854775808
    } else {
        9223372036854775807
    };
    let mut magnitude: u64 = 0;
    let mut i: usize = start;
    while i < n
        invariant
            start <= i <= n,
            start < n,
            n == chars@.len(),
            chars@ == text@,
            negative == (chars@[0] == '-'),
            start == (if chars@[0] == '-' || chars@[0] == '+' {
                1int
            } else {
                0int
            }),
            digits == chars@.subrange(start as int, n as int),
            all_digits(digits.take(i - start)),
            magnitude == digits_value(digits.take(i - start)),
            magnitude <= limit,
            limit == (if negative {
                9223372036854775808int
            } else {
                9223372036854775807int
            }),
        decreases n - i,
    {
        let c = chars[i];
        if !('0' <= c && c <= '9') {
            assert(!is_digit(digits[i - start]));
            return None;
        }
        let d: u64 = (c as u8 - 48) as u64;
        assert(d == digit_value(c) && d <= 9);
        proof {
            let longer = digits.take(i - start + 1);
            assert(longer.drop_last() =~= digits.take(i - start));
            assert(longer.last() == c);
            assert(digits_value(longer) == magnitude * 10 + d);
            assert forall|k: int| 0 <= k < longer.len() implies is_digit(#[trigger] longer[k]) by {
                if k < i - start {
                    assert(is_digit(digits.take(i - start)[k]));
                }
            }
        }
        if magnitude > (limit - d) / 10 {
            proof {
                let longer = digits.take(i - start + 1);
                assert(digits_value(longer) > limit);
                if start == 0 {
                    assert(digits =~= text@);
                }
                if all_digits(digits) {
                    lemma_digits_value_grows(digits, i - start + 1);
                }
            }
            return None;
        }
        magnitude = magnitude * 10 + d;
        i += 1;
    }
    proof {
        assert(digits.take(n - start) =~= digits);
        if start == 0 {
            assert(digits =~= text@);
        }
    }
    if negative {
        if magnitude == 9223372036854775808 {
            Some(i64::MIN)
        } else {
            Some(-(magnitude as i64))
        }
    } else {
        Some(magnitude as i64)
    }
}

/// Whether `needle` stands in `haystack` at offset `at`.
pub open spec fn occurs_at(needle: Seq<char>, haystack: Seq<char>, at: int) -> bool {
    0 <= at && at + needle.len() <= haystack.len() && haystack.subrange(
        at,
        at + needle.len(),
    ) == needle
}

/// Whether `needle` stands somewhere in `haystack`, letter for letter.
pub open spec fn occurs_in(needle: Seq<char>, haystack: Seq<char>) -> bool {
    exists|at: int| occurs_at(needle, haystack, at)
}

/// Whether `haystack` holds `needle` as a substring, as `str::contains` does
/// for a text pattern. The empty text is in every text.
pub fn contains_text(haystack: &str, needle: &str) -> (found: bool)
    ensures
        found == occurs_in(needle@, haystack@),
{
    let hay = chars_of(haystack);
    let pin = chars_of(needle);
    if pin.len() == 0 {
        assert(haystack@.subrange(0, 0) =~= needle@);
        assert(occurs_at(needle@, haystack@, 0));
        return true;
    }
    if pin.len() > hay.len() {
        assert forall|at: int| !occurs_at(needle@, haystack@, at) by {}
        return false;
    }
    let last: usize = hay.len() - pin.len();
    let mut at: usize = 0;
    while at <= last
        invariant
            hay@ == haystack@,
            pin@ == needle@,
            last == hay@.len() - pin@.len(),
            0 < pin@.len() <= hay@.len() <= usize::MAX,
            at <= last + 1,
            forall|k: int| 0 <= k < at ==> !occurs_at(needle@, haystack@, k),
        decreases last + 1 - at,
    {
        let mut j: usize = 0;
        while j < pin.len() && hay[at + j] == pin[j]
            invariant
                hay@ == haystack@,
                pin@ == needle@,
                last == hay@.len() - pin@.len(),
                0 < pin@.len() <= hay@.len() <= usize::MAX,
                at <= last,
                j <= pin@.len(),
                forall|k: int| 0 <= k < j ==> hay@[at + k] == pin@[k],
            decreases pin@.len() - j,
        {
            j += 1;
        }
        if j == pin.len() {
            assert(haystack@.subrange(at as int, at + needle@.len()) =~= needle@);
            assert(occurs_at(needle@, haystack@, at as int));
            return true;
        }
        assert(!occurs_at(needle@, haystack@, at as int)) by {
            if occurs_at(needle@, haystack@, at as int) {
                let found = haystack@.subrange(at as int, at + needle@.len());
                assert(found[j as int] == needle@[j as int]);
            }
        }
        at += 1;
    }
    assert forall|k: int| !occurs_at(needle@, haystack@, k) by {}
    false
}

} // verus!
