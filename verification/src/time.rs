//! Timestamps taken from the local clock.

use vstd::prelude::*;

verus! {

/// Whether `c` is one of the ten ASCII digits.
pub open spec fn is_digit(c: char) -> bool {
    '0' <= c && c <= '9'
}

/// Whether `s` is exactly two ASCII digits.
pub open spec fn two_digits(s: Seq<char>) -> bool {
    s.len() == 2 && is_digit(s[0]) && is_digit(s[1])
}

/// The number that two ASCII digits write.
pub open spec fn two_digit_value(s: Seq<char>) -> int {
    (s[0] as int - '0' as int) * 10 + (s[1] as int - '0' as int)
}

/// Whether `s` is two ASCII digits that write a number from `low` to `high`.
pub open spec fn two_digits_within(s: Seq<char>, low: int, high: int) -> bool {
    two_digits(s) && low <= two_digit_value(s) <= high
}

/// The text `YYYY-MM-DD/HH:MM:SS` built from its six parts.
pub open spec fn stamp_of(
    year: Seq<char>,
    month: Seq<char>,
    day: Seq<char>,
    hours: Seq<char>,
    minutes: Seq<char>,
    seconds: Seq<char>,
) -> Seq<char> {
    year + seq!['-'] + month + seq!['-'] + day + seq!['/'] + hours + seq![':'] + minutes
        + seq![':'] + seconds
}

/// Whether `s` is a timestamp: a year of at least four characters and five
/// two-digit fields, each within its range, joined as `YYYY-MM-DD/HH:MM:SS`.
pub open spec fn is_stamp(s: Seq<char>) -> bool {
    exists|t: TimeNow| #[trigger] t.well_formed() && s == t.stamp()
}

/// The local time at one moment, each part already rendered as text.
pub struct TimeNow {
    pub year: String,
    pub month: String,
    pub day: String,
    pub hours: String,
    pub minutes: String,
    pub seconds: String,
}

impl TimeNow {
    /// The year has at least four characters and every other part is two
    /// digits within its range: a month from 01 to 12, a day from 01 to 31,
    /// an hour from 00 to 23, a minute from 00 to 59 and a second from 00 to
    /// 60, the last for a leap second.
    pub open spec fn well_formed(&self) -> bool {
        &&& self.year@.len() >= 4
        &&& two_digits_within(self.month@, 1, 12)
        &&& two_digits_within(self.day@, 1, 31)
        &&& two_digits_within(self.hours@, 0, 23)
        &&& two_digits_within(self.minutes@, 0, 59)
        &&& two_digits_within(self.seconds@, 0, 60)
    }

    /// The timestamp text of this moment.
    pub open spec fn stamp(&self) -> Seq<char> {
        stamp_of(
            self.year@,
            self.month@,
            self.day@,
            self.hours@,
            self.minutes@,
            self.seconds@,
        )
    }

    /// Reads the local clock through `chrono::offset::Local::now` and renders
    /// each part with chrono's `format`. Trusted: chrono writes `%m`, `%d`,
    /// `%H`, `%M` and `%S` as two zero-padded digits, each within the range
    /// of its field, and `%Y` with at least four characters. Nothing is
    /// claimed about which moment comes back.
    #[verifier::external_body]
    pub fn new() -> (r: TimeNow)
        ensures
            r.well_formed(),
    {
        let time = chrono::offset::Local::now();
        let date = time.date_naive();
        let curr_time = time.time();
        TimeNow {
            year: format!("{}", date.format("%Y")),
            month: format!("{}", date.format("%m")),
            day: format!("{}", date.format("%d")),
            hours: format!("{}", curr_time.format("%H")),
            minutes: format!("{}", curr_time.format("%M")),
            seconds: format!("{}", curr_time.format("%S")),
        }
    }

    /// Joins the six parts into `YYYY-MM-DD/HH:MM:SS`.
    pub fn render(&self) -> (r: String)
        ensures
            r@ == self.stamp(),
    {
        proof {
            reveal_strlit("-");
            reveal_strlit("/");
            reveal_strlit(":");
        }
        let mut out: String = self.year.clone();
        out.append("-");
        out.append(self.month.as_str());
        out.append("-");
        out.append(self.day.as_str());
        out.append("/");
        out.append(self.hours.as_str());
        out.append(":");
        out.append(self.minutes.as_str());
        out.append(":");
        out.append(self.seconds.as_str());
        assert("-"@ =~= seq!['-']);
        assert("/"@ =~= seq!['/']);
        assert(":"@ =~= seq![':']);
        out
    }
}

/// The current local time as `YYYY-MM-DD/HH:MM:SS`.
pub fn get_time() -> (r: String)
    ensures
        is_stamp(r@),
{
    let now = TimeNow::new();
    now.render()
}

} // verus!
