//! The moment a record was captured, as a plain UTC calendar time, and its
//! RFC 3339 rendering with an explicit `+00:00` offset at second precision.

use crate::digits::append_four_digits;
use crate::digits::append_two_digits;
use crate::digits::four_digits;
use crate::digits::lemma_add_newline_free;
use crate::digits::lemma_four_digits_newline_free;
use crate::digits::lemma_two_digits_newline_free;
use crate::digits::two_digits;
use vstd::prelude::*;
use vstd::string::StringExecFns;

verus! {

/// A UTC calendar time at second precision.
#[derive(Clone, Copy, PartialEq, Eq, Structural, Debug)]
pub struct Timestamp {
    pub year: u16,
    pub month: u8,
    pub day: u8,
    pub hour: u8,
    pub minute: u8,
    pub second: u8,
}

/// Whether `y` is a leap year of the Gregorian calendar.
pub open spec fn spec_is_leap_year(y: nat) -> bool {
    (y % 4 == 0 && y % 100 != 0) || y % 400 == 0
}

/// The number of days of month `m` in year `y`.
pub open spec fn spec_days_in_month(y: nat, m: nat) -> nat {
    if m == 2 {
        if spec_is_leap_year(y) {
            29
        } else {
            28
        }
    } else if m == 4 || m == 6 || m == 9 || m == 11 {
        30
    } else {
        31
    }
}

impl Timestamp {
    /// A well-formed timestamp is a real moment of the Gregorian calendar
    /// whose year has at most four digits.
    pub open spec fn well_formed(self) -> bool {
        &&& self.year <= 9999
        &&& 1 <= self.month <= 12
        &&& 1 <= self.day <= spec_days_in_month(self.year as nat, self.month as nat)
        &&& self.hour <= 23
        &&& self.minute <= 59
        &&& self.second <= 59
    }

    /// The RFC 3339 rendering of this timestamp: date and time of day at
    /// second precision, joined by `T`, with the explicit UTC offset `+00:00`.
    pub open spec fn spec_rfc3339(self) -> Seq<char> {
        four_digits(self.year as nat) + "-"@ + two_digits(self.month as nat) + "-"@ + two_digits(
            self.day as nat,
        ) + "T"@ + two_digits(self.hour as nat) + ":"@ + two_digits(self.minute as nat) + ":"@
            + two_digits(self.second as nat) + "+00:00"@
    }

    /// Builds a timestamp from its fields; returns it exactly when the fields
    /// name a real calendar moment with a four-digit year.
    pub fn new(year: u16, month: u8, day: u8, hour: u8, minute: u8, second: u8) -> (r: Option<
        Timestamp,
    >)
        ensures
            ({
                let t = (Timestamp { year, month, day, hour, minute, second });
                if t.well_formed() {
                    r == Some(t)
                } else {
                    r is None
                }
            }),
    {
        if year <= 9999 && 1 <= month && month <= 12 && hour <= 23 && minute <= 59 && second <= 59
            && 1 <= day && day <= days_in_month(year, month) {
            Some(Timestamp { year, month, day, hour, minute, second })
        } else {
            None
        }
    }

    /// Renders this timestamp in its RFC 3339 form.
    pub fn to_rfc3339(&self) -> (s: String)
        requires
            self.well_formed(),
        ensures
            s@ == self.spec_rfc3339(),
    {
        let mut s = String::new();
        append_four_digits(&mut s, self.year);
        s.append("-");
        append_two_digits(&mut s, self.month);
        s.append("-");
        append_two_digits(&mut s, self.day);
        s.append("T");
        append_two_digits(&mut s, self.hour);
        s.append(":");
        append_two_digits(&mut s, self.minute);
        s.append(":");
        append_two_digits(&mut s, self.second);
        s.append("+00:00");
        proof {
            assert(s@ =~= self.spec_rfc3339());
        }
        s
    }
}

/// An RFC 3339 rendering is a single line: it holds no newline.
pub proof fn lemma_rfc3339_newline_free(t: Timestamp)
    ensures
        !t.spec_rfc3339().contains('\n'),
{
    reveal_strlit("-");
    reveal_strlit("T");
    reveal_strlit(":");
    reveal_strlit("+00:00");
    lemma_four_digits_newline_free(t.year as nat);
    lemma_two_digits_newline_free(t.month as nat);
    lemma_two_digits_newline_free(t.day as nat);
    lemma_two_digits_newline_free(t.hour as nat);
    lemma_two_digits_newline_free(t.minute as nat);
    lemma_two_digits_newline_free(t.second as nat);
    lemma_strlit_pieces_newline_free();
    let p1 = four_digits(t.year as nat) + "-"@;
    lemma_add_newline_free(four_digits(t.year as nat), "-"@);
    let p2 = p1 + two_digits(t.month as nat);
    lemma_add_newline_free(p1, two_digits(t.month as nat));
    let p3 = p2 + "-"@;
    lemma_add_newline_free(p2, "-"@);
    let p4 = p3 + two_digits(t.day as nat);
    lemma_add_newline_free(p3, two_digits(t.day as nat));
    let p5 = p4 + "T"@;
    lemma_add_newline_free(p4, "T"@);
    let p6 = p5 + two_digits(t.hour as nat);
    lemma_add_newline_free(p5, two_digits(t.hour as nat));
    let p7 = p6 + ":"@;
    lemma_add_newline_free(p6, ":"@);
    let p8 = p7 + two_digits(t.minute as nat);
    lemma_add_newline_free(p7, two_digits(t.minute as nat));
    let p9 = p8 + ":"@;
    lemma_add_newline_free(p8, ":"@);
    let p10 = p9 + two_digits(t.second as nat);
    lemma_add_newline_free(p9, two_digits(t.second as nat));
    lemma_add_newline_free(p10, "+00:00"@);
}

/// The literal pieces of an RFC 3339 rendering hold no newline.
proof fn lemma_strlit_pieces_newline_free()
    ensures
        !"-"@.contains('\n'),
        !"T"@.contains('\n'),
        !":"@.contains('\n'),
        !"+00:00"@.contains('\n'),
{
    reveal_strlit("-");
    reveal_strlit("T");
    reveal_strlit(":");
    reveal_strlit("+00:00");
    if "-"@.contains('\n') {
        let i = choose|i: int| 0 <= i < "-"@.len() && "-"@[i] == '\n';
    }
    if "T"@.contains('\n') {
        let i = choose|i: int| 0 <= i < "T"@.len() && "T"@[i] == '\n';
    }
    if ":"@.contains('\n') {
        let i = choose|i: int| 0 <= i < ":"@.len() && ":"@[i] == '\n';
    }
    if "+00:00"@.contains('\n') {
        let i = choose|i: int| 0 <= i < "+00:00"@.len() && "+00:00"@[i] == '\n';
    }
}

/// Whether `year` is a leap year of the Gregorian calendar.
pub fn is_leap_year(year: u16) -> (r: bool)
    ensures
        r == spec_is_leap_year(year as nat),
{
    (year % 4 == 0 && year % 100 != 0) || year % 400 == 0
}

/// The number of days of month `month` in year `year`.
pub fn days_in_month(year: u16, month: u8) -> (d: u8)
    requires
        1 <= month <= 12,
    ensures
        d as nat == spec_days_in_month(year as nat, month as nat),
{
    if month == 2 {
        if is_leap_year(year) {
            29
        } else {
            28
        }
    } else if month == 4 || month == 6 || month == 9 || month == 11 {
        30
    } else {
        31
    }
}

} // verus!
