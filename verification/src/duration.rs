//! Spans of time, as the user writes them: `2h 37min`, `4.2s`, `1week`.

use crate::text::is_digit;
use vstd::prelude::*;

verus! {

/// `humantime::DurationError`, the reason for which `humantime` refuses a
/// text. Nothing is read from it.
#[verifier::external_type_specification]
#[verifier::external_body]
pub struct ExDurationError(humantime::DurationError);

/// The span of time that `humantime::parse_duration` reads out of `text`,
/// as whole seconds and the nanoseconds beyond them; nothing where it
/// refuses `text`.
pub uninterp spec fn humantime_duration(text: Seq<char>) -> Option<(u64, u32)>;

/// The most decimal digits that a text may hold to be read as a span of
/// time. With so few digits the spans of the text add up to fewer seconds
/// than 64 bits hold, whatever their units: the longest unit, the year,
/// has fewer than 32 million seconds.
pub const MAX_DURATION_DIGITS: usize = 11;

/// A span of time.
#[derive(Debug, Clone, Copy, PartialEq, Eq, Structural)]
pub struct Duration {
    /// The whole seconds of the span.
    pub secs: u64,
    /// The nanoseconds beyond the whole seconds: fewer than make a second.
    pub subsec_nanos: u32,
}

/// How many decimal digits `text` holds.
pub open spec fn digit_count(text: Seq<char>) -> nat
    decreases text.len(),
{
    if text.len() == 0 {
        0
    } else {
        digit_count(text.drop_last()) + if is_digit(text.last()) {
            1nat
        } else {
            0nat
        }
    }
}

/// The span of time that `text` stands for: what `humantime` reads out of
/// it, if it holds no more than `MAX_DURATION_DIGITS` digits.
pub open spec fn duration_of(text: Seq<char>) -> Option<Duration> {
    if digit_count(text) > MAX_DURATION_DIGITS {
        None
    } else {
        match humantime_duration(text) {
            Some((secs, subsec_nanos)) => Some(Duration { secs, subsec_nanos }),
            None => None,
        }
    }
}

/// Calls `humantime::parse_duration` and takes the span it returns apart
/// into seconds and nanoseconds. The contract names the result and claims
/// of it what `std::time::Duration` documents: the nanoseconds are fewer
/// than a second's. `humantime` adds the spans of a text up in a
/// `std::time::Duration`, whose constructor panics when a full second of
/// nanoseconds is carried into seconds that are at their largest; a text
/// of no more than `MAX_DURATION_DIGITS` digits cannot add up to so many
/// seconds, and no other text is handed over.
#[verifier::external_body]
fn parse_duration(text: &str) -> (r: Result<(u64, u32), humantime::DurationError>)
    requires
        digit_count(text@) <= MAX_DURATION_DIGITS,
    ensures
        match r {
            Ok(parts) => humantime_duration(text@) == Some(parts) && parts.1 < 1_000_000_000,
            Err(_) => humantime_duration(text@) is None,
        },
{
    match humantime::parse_duration(text) {
        Ok(span) => Ok((span.as_secs(), span.subsec_nanos())),
        Err(e) => Err(e),
    }
}

/// Counts the decimal digits of `text`, up to one more than `MAX_DURATION_DIGITS`.
fn count_digits(text: &str) -> (r: usize)
    ensures
        r <= MAX_DURATION_DIGITS + 1,
        r <= MAX_DURATION_DIGITS ==> r == digit_count(text@),
        r > MAX_DURATION_DIGITS ==> digit_count(text@) > MAX_DURATION_DIGITS,
{
    let n = text.unicode_len();
    let mut count: usize = 0;
    let mut i: usize = 0;
    assert(text@.subrange(0, 0) =~= Seq::<char>::empty());
    while i < n
        invariant
            n == text@.len(),
            i <= n,
            count <= MAX_DURATION_DIGITS,
            count == digit_count(text@.subrange(0, i as int)),
        decreases n - i,
    {
        let c = text.get_char(i);
        let ghost longer = text@.subrange(0, i + 1);
        assert(longer.drop_last() =~= text@.subrange(0, i as int));
        assert(longer.last() == c);
        if '0' <= c && c <= '9' {
            count = count + 1;
            if count > MAX_DURATION_DIGITS {
                proof {
                    lemma_digit_count_grows(text@, i + 1);
                }
                return count;
            }
        }
        i = i + 1;
    }
    assert(text@.subrange(0, n as int) =~= text@);
    count
}

/// A text holds at least as many digits as any text it starts with.
pub proof fn lemma_digit_count_grows(text: Seq<char>, k: int)
    requires
        0 <= k <= text.len(),
    ensures
        digit_count(text.subrange(0, k)) <= digit_count(text),
    decreases text.len() - k,
{
    if k == text.len() {
        assert(text.subrange(0, k) =~= text);
    } else {
        lemma_digit_count_grows(text, k + 1);
        assert(text.subrange(0, k + 1).drop_last() =~= text.subrange(0, k));
    }
}

impl Duration {
    /// Whether the nanoseconds are fewer than those of a second.
    pub open spec fn well_formed(&self) -> bool {
        self.subsec_nanos < 1_000_000_000
    }

    /// The empty span.
    pub open spec fn zero_span() -> Duration {
        Duration { secs: 0, subsec_nanos: 0 }
    }

    /// The empty span.
    pub fn zero() -> (r: Duration)
        ensures
            r == Duration::zero_span(),
            r.well_formed(),
    {
        Duration { secs: 0, subsec_nanos: 0 }
    }

    /// Whether the span is empty.
    pub fn is_zero(&self) -> (r: bool)
        ensures
            r == (*self == Duration::zero_span()),
    {
        self.secs == 0 && self.subsec_nanos == 0
    }

    /// The span that `reading` holds, where `humantime` has read one.
    fn from_reading(reading: Result<(u64, u32), humantime::DurationError>) -> (r: Option<
        Duration,
    >)
        ensures
            r == match reading {
                Ok((secs, subsec_nanos)) => Some(Duration { secs, subsec_nanos }),
                Err(_) => None,
            },
    {
        match reading {
            Ok((secs, subsec_nanos)) => Some(Duration { secs, subsec_nanos }),
            Err(_) => None,
        }
    }

    /// Reads a span of time. A text with more than `MAX_DURATION_DIGITS`
    /// digits is refused unread.
    pub fn parse(text: &str) -> (r: Option<Duration>)
        ensures
            r == duration_of(text@),
            r matches Some(span) ==> span.well_formed(),
    {
        if count_digits(text) > MAX_DURATION_DIGITS {
            None
        } else {
            Duration::from_reading(parse_duration(text))
        }
    }
}

} // verus!
