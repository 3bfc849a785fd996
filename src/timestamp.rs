//! A moment of local time as plain calendar fields, and its rendering as the
//! name of a batch directory.
use vstd::prelude::*;
use crate::text::{decimal, lemma_decimal_injective, lemma_decimal_shape, lemma_pad_injective, pad2, pad4};

verus! {

/// A local date and time of day, to the second.
#[derive(Clone, Copy, Debug, PartialEq, Eq, Structural)]
pub struct Timestamp {
    pub year: i32,
    pub month: u32,
    pub day: u32,
    pub hour: u32,
    pub minute: u32,
    pub second: u32,
}

/// Leap years of the proleptic Gregorian calendar.
pub open spec fn is_leap_year(y: int) -> bool {
    y % 4 == 0 && (y % 100 != 0 || y % 400 == 0)
}

pub open spec fn days_in_month(y: int, m: int) -> int {
    if m == 2 {
        if is_leap_year(y) {
            29
        } else {
            28
        }
    } else if m == 4 || m == 6 || m == 9 || m == 11 {
        30
    } else {
        31
    }
}

/// The year as `%Y` writes it: four digits with leading zeros inside
/// 0..=9999, and otherwise a sign followed by at least four digits.
pub open spec fn year_text(y: int) -> Seq<char> {
    if 0 <= y < 10000 {
        pad4(y)
    } else {
        let m = if y < 0 { -y } else { y };
        seq![if y < 0 { '-' } else { '+' }] + if m < 10000 { pad4(m) } else { decimal(m as nat) }
    }
}

/// The directory name of a moment: `YYYY-MM-DD_HH-MM-SS`.
pub open spec fn stamp_text(t: Timestamp) -> Seq<char> {
    year_text(t.year as int) + seq!['-'] + pad2(t.month as int) + seq!['-'] + pad2(t.day as int)
        + seq!['_'] + pad2(t.hour as int) + seq!['-'] + pad2(t.minute as int) + seq!['-']
        + pad2(t.second as int)
}

impl Timestamp {
    /// A real calendar date, inside the years that chrono's dates cover, and
    /// a time of day without leap second.
    pub open spec fn wf(&self) -> bool {
        &&& -262143 <= self.year <= 262142
        &&& 1 <= self.month <= 12
        &&& 1 <= self.day <= days_in_month(self.year as int, self.month as int)
        &&& self.hour < 24
        &&& self.minute < 60
        &&& self.second < 60
    }

    /// Whether this is a valid moment.
    pub fn is_valid(&self) -> (r: bool)
        ensures
            r == self.wf(),
    {
        if self.year < -262143 || self.year > 262142 || self.month < 1 || self.month > 12 {
            return false;
        }
        let y = self.year;
        let leap = y % 4 == 0 && (y % 100 != 0 || y % 400 == 0);
        let days: u32 = if self.month == 2 {
            if leap {
                29
            } else {
                28
            }
        } else if self.month == 4 || self.month == 6 || self.month == 9 || self.month == 11 {
            30
        } else {
            31
        };
        1 <= self.day && self.day <= days && self.hour < 24 && self.minute < 60 && self.second < 60
    }
}

/// What follows the year in a directory name: always fifteen characters.
pub open spec fn clock_text(t: Timestamp) -> Seq<char> {
    seq!['-'] + pad2(t.month as int) + seq!['-'] + pad2(t.day as int) + seq!['_'] + pad2(
        t.hour as int,
    ) + seq!['-'] + pad2(t.minute as int) + seq!['-'] + pad2(t.second as int)
}

proof fn lemma_year_text_injective(a: int, b: int)
    requires
        year_text(a) == year_text(b),
    ensures
        a == b,
{
    let ma = if a < 0 { -a } else { a };
    let mb = if b < 0 { -b } else { b };
    lemma_decimal_shape(ma as nat);
    lemma_decimal_shape(mb as nat);
    let ya = year_text(a);
    let yb = year_text(b);
    let ina = 0 <= a < 10000;
    let inb = 0 <= b < 10000;
    if ina && inb {
        lemma_pad_injective(a, b);
    } else if ina && !inb {
        assert(ya[0] == yb[0]);
    } else if !ina && inb {
        assert(ya[0] == yb[0]);
    } else {
        assert(ya[0] == yb[0]);
        let ta = ya.subrange(1, ya.len() as int);
        let tb = yb.subrange(1, yb.len() as int);
        assert(ta == tb);
        let da = if ma < 10000 { pad4(ma) } else { decimal(ma as nat) };
        let db = if mb < 10000 { pad4(mb) } else { decimal(mb as nat) };
        assert(ta =~= da);
        assert(tb =~= db);
        if ma < 10000 && mb < 10000 {
            lemma_pad_injective(ma, mb);
        } else if ma >= 10000 && mb >= 10000 {
            lemma_decimal_injective(ma as nat, mb as nat);
        }
    }
}

/// Distinct moments have distinct directory names.
#[verifier::rlimit(60)]
pub proof fn lemma_stamp_injective(t1: Timestamp, t2: Timestamp)
    requires
        t1.wf(),
        t2.wf(),
        stamp_text(t1) == stamp_text(t2),
    ensures
        t1 == t2,
{
    let s1 = stamp_text(t1);
    let s2 = stamp_text(t2);
    let y1 = year_text(t1.year as int);
    let y2 = year_text(t2.year as int);
    let c1 = clock_text(t1);
    let c2 = clock_text(t2);
    assert(s1 =~= y1 + c1);
    assert(s2 =~= y2 + c2);
    assert(c1.len() == 15 && c2.len() == 15);
    assert(y1 =~= s1.subrange(0, y1.len() as int));
    assert(y2 =~= s2.subrange(0, y2.len() as int));
    lemma_year_text_injective(t1.year as int, t2.year as int);
    assert(c1 =~= s1.subrange(y1.len() as int, s1.len() as int));
    assert(c2 =~= s2.subrange(y2.len() as int, s2.len() as int));
    assert(c1.subrange(1, 3) =~= pad2(t1.month as int));
    assert(c2.subrange(1, 3) =~= pad2(t2.month as int));
    assert(c1.subrange(4, 6) =~= pad2(t1.day as int));
    assert(c2.subrange(4, 6) =~= pad2(t2.day as int));
    assert(c1.subrange(7, 9) =~= pad2(t1.hour as int));
    assert(c2.subrange(7, 9) =~= pad2(t2.hour as int));
    assert(c1.subrange(10, 12) =~= pad2(t1.minute as int));
    assert(c2.subrange(10, 12) =~= pad2(t2.minute as int));
    assert(c1.subrange(13, 15) =~= pad2(t1.second as int));
    assert(c2.subrange(13, 15) =~= pad2(t2.second as int));
    lemma_pad_injective(t1.month as int, t2.month as int);
    lemma_pad_injective(t1.day as int, t2.day as int);
    lemma_pad_injective(t1.hour as int, t2.hour as int);
    lemma_pad_injective(t1.minute as int, t2.minute as int);
    lemma_pad_injective(t1.second as int, t2.second as int);
}

/// Relies on chrono's NaiveDate::from_ymd_opt and and_hms_opt, which accept
/// every valid date and time of day, and on formatting the result with
/// "%Y-%m-%d_%H-%M-%S": each of month, day, hour, minute and second in two
/// zero-padded digits, the year as `year_text` says.
#[verifier::external_body]
fn format_stamp(t: &Timestamp) -> (r: String)
    requires
        t.wf(),
    ensures
        r@ == stamp_text(*t),
{
    let date = chrono::NaiveDate::from_ymd_opt(t.year, t.month, t.day).unwrap();
    let moment = date.and_hms_opt(t.hour, t.minute, t.second).unwrap();
    moment.format("%Y-%m-%d_%H-%M-%S").to_string()
}

/// The directory name of the moment `t`.
pub fn stamp_of(t: &Timestamp) -> (r: String)
    requires
        t.wf(),
    ensures
        r@ == stamp_text(*t),
{
    format_stamp(t)
}

/// The directory name of `t`, when `t` is a valid moment.
pub fn stamp_if_valid(t: &Timestamp) -> (r: Option<String>)
    ensures
        r is Some <==> t.wf(),
        r matches Some(s) ==> s@ == stamp_text(*t),
{
    if t.is_valid() {
        Some(format_stamp(t))
    } else {
        None
    }
}

} // verus!
