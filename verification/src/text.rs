//! Small operations on text, stated over sequences of characters.

use vstd::prelude::*;

verus! {

/// The text of an optional string, where there is one.
pub open spec fn text_of(value: Option<String>) -> Option<Seq<char>> {
    match value {
        Some(s) => Some(s@),
        None => None,
    }
}

/// Whether two texts hold the same characters.
pub fn same_text(a: &str, b: &str) -> (r: bool)
    ensures
        r == (a@ == b@),
{
    let n = a.unicode_len();
    if n != b.unicode_len() {
        return false;
    }
    let mut i: usize = 0;
    while i < n
        invariant
            n == a@.len(),
            n == b@.len(),
            i <= n,
            forall|j: int| 0 <= j < i ==> a@[j] == b@[j],
        decreases n - i,
    {
        if a.get_char(i) != b.get_char(i) {
            return false;
        }
        i = i + 1;
    }
    assert(a@ =~= b@);
    true
}

/// A copy of an optional string.
pub fn copy_of(value: &Option<String>) -> (r: Option<String>)
    ensures
        r == *value,
{
    match value {
        Some(s) => Some(s.clone()),
        None => None,
    }
}

/// Whether `c` is one of the ten decimal digits.
pub open spec fn is_digit(c: char) -> bool {
    '0' <= c && c <= '9'
}

/// The number that a decimal digit stands for.
pub open spec fn digit_value(c: char) -> nat {
    (c as u32 - '0' as u32) as nat
}

/// The number that a run of decimal digits stands for, the most significant
/// digit first. The empty run stands for zero.
pub open spec fn digits_value(digits: Seq<char>) -> nat
    decreases digits.len(),
{
    if digits.len() == 0 {
        0
    } else {
        digits_value(digits.drop_last()) * 10 + digit_value(digits.last())
    }
}

/// The part of a numeral that follows its optional plus sign.
pub open spec fn numeral_digits(text: Seq<char>) -> Seq<char> {
    if text.len() > 0 && text[0] == '+' {
        text.subrange(1, text.len() as int)
    } else {
        text
    }
}

/// Whether `text` is a numeral: an optional plus sign, then one decimal digit or more.
pub open spec fn is_numeral(text: Seq<char>) -> bool {
    let digits = numeral_digits(text);
    digits.len() > 0 && forall|i: int| 0 <= i < digits.len() ==> is_digit(#[trigger] digits[i])
}

/// The number that `text` stands for: that of a numeral whose value is at
/// most `limit`, and nothing for any other text.
pub open spec fn numeral_value(text: Seq<char>, limit: nat) -> Option<nat> {
    if is_numeral(text) && digits_value(numeral_digits(text)) <= limit {
        Some(digits_value(numeral_digits(text)))
    } else {
        None
    }
}

/// A longer run of digits never stands for a smaller number than the run it starts with.
pub proof fn lemma_digits_value_grows(digits: Seq<char>, k: int)
    requires
        0 <= k <= digits.len(),
    ensures
        digits_value(digits.subrange(0, k)) <= digits_value(digits),
    decreases digits.len() - k,
{
    if k == digits.len() {
        assert(digits.subrange(0, k) =~= digits);
    } else {
        lemma_digits_value_grows(digits, k + 1);
        let longer = digits.subrange(0, k + 1);
        assert(longer.drop_last() =~= digits.subrange(0, k));
    }
}

/// Reads a numeral of at most `limit`.
pub fn parse_number(text: &str, limit: u64) -> (r: Option<u64>)
    ensures
        match r {
            Some(n) => numeral_value(text@, limit as nat) == Some(n as nat),
            None => numeral_value(text@, limit as nat) is None,
        },
{
    let n = text.unicode_len();
    let start: usize = if n > 0 && text.get_char(0) == '+' { 1 } else { 0 };
    if start == n {
        return None;
    }
    let ghost digits = numeral_digits(text@);
    assert(digits =~= text@.subrange(start as int, n as int));
    let mut value: u64 = 0;
    let mut i: usize = start;
    while i < n
        invariant
            n == text@.len(),
            start <= i <= n,
            digits == numeral_digits(text@),
            digits == text@.subrange(start as int, n as int),
            forall|j: int| 0 <= j < i - start ==> is_digit(#[trigger] digits[j]),
            value as nat == digits_value(digits.subrange(0, i - start)),
            value <= limit,
        decreases n - i,
    {
        let c = text.get_char(i);
        assert(c == digits[i - start]);
        let ghost longer = digits.subrange(0, i - start + 1);
        assert(longer.drop_last() =~= digits.subrange(0, i - start));
        assert(longer.last() == c);
        if !('0' <= c && c <= '9') {
            assert(!is_digit(digits[i - start]));
            return None;
        }
        let d: u64 = (c as u32 - '0' as u32) as u64;
        if d > limit || value > (limit - d) / 10 {
            proof {
                lemma_digits_value_grows(digits, i - start + 1);
                if is_numeral(text@) {
                    assert(digits_value(longer) == value * 10 + d);
                    assert(digits_value(longer) > limit) by (nonlinear_arith)
                        requires
                            digits_value(longer) == value * 10 + d,
                            d > limit || value > (limit - d) / 10,
                    ;
                }
            }
            return None;
        }
        assert(value * 10 + d <= limit) by (nonlinear_arith)
            requires
                value <= (limit - d) / 10,
                d <= limit,
        ;
        value = value * 10 + d;
        i = i + 1;
    }
    assert(digits.subrange(0, n - start) =~= digits);
    Some(value)
}

/// What a text says of a flag: `true` sets it, `false` leaves it unset,
/// and no other text says anything.
pub open spec fn flag_of(text: Seq<char>) -> Option<bool> {
    if text == "true"@ {
        Some(true)
    } else if text == "false"@ {
        Some(false)
    } else {
        None
    }
}

/// Reads what a text says of a flag.
pub fn parse_flag(text: &str) -> (r: Option<bool>)
    ensures
        r == flag_of(text@),
{
    if same_text(text, "true") {
        Some(true)
    } else if same_text(text, "false") {
        Some(false)
    } else {
        None
    }
}

/// A base path with a relative path under it: the two joined by one `/`,
/// which is left out where the base is empty or ends in `/` already.
pub open spec fn joined(base: Seq<char>, rest: Seq<char>) -> Seq<char> {
    if base.len() == 0 || base.last() == '/' {
        base + rest
    } else {
        base + seq!['/'] + rest
    }
}

/// Joins a base path and a relative path under it.
pub fn join_path(base: &str, rest: &str) -> (r: String)
    ensures
        r@ == joined(base@, rest@),
{
    let n = base.unicode_len();
    let mut path = String::from_str(base);
    if n > 0 && base.get_char(n - 1) != '/' {
        proof {
            reveal_strlit("/");
            assert("/"@ =~= seq!['/']);
        }
        path = path.concat("/");
    }
    path.concat(rest)
}

} // verus!
