//! Calendar dates, their order, and the value a metadata field can hold.
use chrono::Datelike;
use vstd::prelude::*;

verus! {

/// A calendar date without time of day or offset.
#[derive(Clone, Copy, Debug, PartialEq, Eq, Structural, Hash)]
pub struct CalendarDate {
    pub year: u16,
    pub month: u8,
    pub day: u8,
}

impl CalendarDate {
    /// Month and day lie in their calendar ranges.
    pub open spec fn wf(self) -> bool {
        1 <= self.month <= 12 && 1 <= self.day <= 31
    }
}

/// Relies on `chrono::Local::now` and `chrono::Datelike`: the date on the
/// local clock now, whose month lies in 1..=12 and whose day in 1..=31.
#[verifier::external_body]
fn local_date_now() -> (r: CalendarDate)
    ensures
        r.wf(),
{
    let now = chrono::Local::now();
    CalendarDate { year: now.year() as u16, month: now.month() as u8, day: now.day() as u8 }
}

impl CalendarDate {
    /// Today on the local clock. A run reads it once and hands it on, so
    /// that all its pages are judged against the same day.
    pub fn today() -> (r: Self)
        ensures
            r.wf(),
    {
        local_date_now()
    }
}

/// `a` comes strictly before `b`: years first, then months, then days.
pub open spec fn date_lt(a: CalendarDate, b: CalendarDate) -> bool {
    ||| a.year < b.year
    ||| a.year == b.year && a.month < b.month
    ||| a.year == b.year && a.month == b.month && a.day < b.day
}

/// `a` is `b` or comes before it.
pub open spec fn date_le(a: CalendarDate, b: CalendarDate) -> bool {
    date_lt(a, b) || a == b
}

/// True when `a` is strictly before `b`.
pub fn is_less_than_date(a: &CalendarDate, b: &CalendarDate) -> (r: bool)
    ensures
        r == date_lt(*a, *b),
{
    if a.year != b.year {
        a.year < b.year
    } else if a.month != b.month {
        a.month < b.month
    } else {
        a.day < b.day
    }
}

/// True when `a` and `b` are the same calendar date.
pub fn is_equal_date(a: &CalendarDate, b: &CalendarDate) -> (r: bool)
    ensures
        r == (*a == *b),
{
    a.year == b.year && a.month == b.month && a.day == b.day
}

/// True when `a` is `b` or comes before it.
pub fn is_less_than_or_equal_date(a: &CalendarDate, b: &CalendarDate) -> (r: bool)
    ensures
        r == date_le(*a, *b),
{
    is_less_than_date(a, b) || is_equal_date(a, b)
}

/// The value of a metadata field as read from the front matter.
#[derive(Clone, Copy, Debug, PartialEq, Eq, Structural)]
pub enum FieldValue {
    /// The key is not there.
    Absent,
    /// The key is there, but its value is not a date.
    InvalidType,
    /// The key holds this date.
    Date(CalendarDate),
}

/// The character of the decimal digit `d`.
pub open spec fn digit_char(d: int) -> char {
    seq!['0', '1', '2', '3', '4', '5', '6', '7', '8', '9'][d]
}

/// `n` written in decimal, without leading zeros.
pub open spec fn decimal(n: nat) -> Seq<char>
    decreases n,
{
    if n < 10 {
        seq![digit_char(n as int)]
    } else {
        decimal(n / 10) + seq![digit_char((n % 10) as int)]
    }
}

/// `n` written in decimal, with zeros in front up to `width` characters.
pub open spec fn zero_padded(n: nat, width: nat) -> Seq<char> {
    let digits = decimal(n);
    let zeros = if digits.len() < width {
        (width - digits.len()) as nat
    } else {
        0
    };
    Seq::new(zeros, |_i: int| '0') + digits
}

/// A date written `YYYY-MM-DD`.
pub open spec fn date_text(d: CalendarDate) -> Seq<char> {
    zero_padded(d.year as nat, 4) + seq!['-'] + zero_padded(d.month as nat, 2) + seq!['-']
        + zero_padded(d.day as nat, 2)
}

fn digit_str(d: u16) -> (r: &'static str)
    requires
        d < 10,
    ensures
        r@ == seq![digit_char(d as int)],
{
    proof {
        reveal_strlit("0");
        reveal_strlit("1");
        reveal_strlit("2");
        reveal_strlit("3");
        reveal_strlit("4");
        reveal_strlit("5");
        reveal_strlit("6");
        reveal_strlit("7");
        reveal_strlit("8");
        reveal_strlit("9");
    }
    let r = if d == 0 {
        "0"
    } else if d == 1 {
        "1"
    } else if d == 2 {
        "2"
    } else if d == 3 {
        "3"
    } else if d == 4 {
        "4"
    } else if d == 5 {
        "5"
    } else if d == 6 {
        "6"
    } else if d == 7 {
        "7"
    } else if d == 8 {
        "8"
    } else {
        "9"
    };
    assert(r@ =~= seq![digit_char(d as int)]);
    r
}

fn decimal_len(n: u16) -> (r: usize)
    ensures
        r == decimal(n as nat).len(),
        n < 10 ==> r == 1,
        n < 100 ==> r <= 2,
        n < 1000 ==> r <= 3,
        n < 10000 ==> r <= 4,
        r <= 5,
    decreases n,
{
    if n < 10 {
        1
    } else {
        decimal_len(n / 10) + 1
    }
}

fn append_decimal(s: &mut String, n: u16)
    ensures
        final(s)@ == old(s)@ + decimal(n as nat),
    decreases n,
{
    if n >= 10 {
        append_decimal(s, n / 10);
    }
    s.append(digit_str(n % 10));
    assert(s@ =~= old(s)@ + decimal(n as nat));
}

fn append_zero_padded(s: &mut String, n: u16, width: usize)
    ensures
        final(s)@ == old(s)@ + zero_padded(n as nat, width as nat),
{
    let ghost start = s@;
    let len = decimal_len(n);
    let mut i = len;
    while i < width
        invariant
            len == decimal(n as nat).len(),
            len <= i,
            i <= width || i == len,
            s@ == start + Seq::new((i - len) as nat, |_i: int| '0'),
        decreases width - i,
    {
        proof {
            reveal_strlit("0");
        }
        s.append("0");
        assert(s@ =~= start + Seq::new((i + 1 - len) as nat, |_i: int| '0'));
        i += 1;
    }
    append_decimal(s, n);
    assert(s@ =~= start + zero_padded(n as nat, width as nat));
}

/// A date for messages, written `YYYY-MM-DD`; `None` where there is none.
pub fn date_to_display(d: Option<CalendarDate>) -> (r: String)
    ensures
        d matches Some(d) ==> r@ == date_text(d),
        d is None ==> r@ == "None"@,
{
    match d {
        None => "None".to_owned(),
        Some(d) => {
            proof {
                reveal_strlit("-");
            }
            let mut text = String::new();
            append_zero_padded(&mut text, d.year, 4);
            text.append("-");
            append_zero_padded(&mut text, d.month as u16, 2);
            text.append("-");
            append_zero_padded(&mut text, d.day as u16, 2);
            assert(text@ =~= date_text(d));
            text
        },
    }
}

} // verus!
