//! Reading the date of a page's last recorded edit from what the history
//! query (`git log -1 --format=%cs`) printed.
use vstd::prelude::*;

use crate::date::CalendarDate;
use crate::error::ProcessError;

verus! {

/// `c` is an ASCII decimal digit.
pub open spec fn is_digit(c: char) -> bool {
    '0' <= c <= '9'
}

/// The value of the digit `c`.
pub open spec fn digit_value(c: char) -> int {
    c as int - '0' as int
}

/// `s` holds `n` digits from `i` on.
pub open spec fn digits_at(s: Seq<char>, i: int, n: int) -> bool {
    forall|k: int| i <= k < i + n ==> is_digit(#[trigger] s[k])
}

/// The number the two digits at `i` write.
pub open spec fn two_digit_value(s: Seq<char>, i: int) -> int {
    10 * digit_value(s[i]) + digit_value(s[i + 1])
}

/// The number the four digits at `i` write.
pub open spec fn four_digit_value(s: Seq<char>, i: int) -> int {
    100 * two_digit_value(s, i) + two_digit_value(s, i + 2)
}

/// The date that `s` opens with, written `YYYY-MM-DD`, where its month and
/// day lie in their calendar ranges.
pub open spec fn history_date(s: Seq<char>) -> Option<CalendarDate> {
    if s.len() >= 10 && digits_at(s, 0, 4) && s[4] == '-' && digits_at(s, 5, 2) && s[7] == '-'
        && digits_at(s, 8, 2) {
        let d = CalendarDate {
            year: four_digit_value(s, 0) as u16,
            month: two_digit_value(s, 5) as u8,
            day: two_digit_value(s, 8) as u8,
        };
        if d.wf() {
            Some(d)
        } else {
            None
        }
    } else {
        None
    }
}

fn digit_at(cs: &Vec<char>, i: usize) -> (r: Option<u8>)
    requires
        i < cs.len(),
    ensures
        r is Some <==> is_digit(cs@[i as int]),
        r matches Some(d) ==> d == digit_value(cs@[i as int]),
{
    let c = cs[i];
    if '0' <= c && c <= '9' {
        Some((c as u32 - '0' as u32) as u8)
    } else {
        None
    }
}

fn two_digits_at(cs: &Vec<char>, i: usize) -> (r: Option<u8>)
    requires
        i + 2 <= cs.len(),
    ensures
        r is Some <==> digits_at(cs@, i as int, 2),
        r matches Some(v) ==> v == two_digit_value(cs@, i as int),
{
    match (digit_at(cs, i), digit_at(cs, i + 1)) {
        (Some(a), Some(b)) => Some(10 * a + b),
        _ => None,
    }
}

/// Reads what the history query printed for one file: no output means the
/// file has no recorded edit; otherwise the output must open with the date
/// of the last edit.
pub fn parse_git_date(output: &str) -> (r: Result<Option<CalendarDate>, ProcessError>)
    ensures
        output@.len() == 0 ==> r == Ok::<Option<CalendarDate>, ProcessError>(None),
        output@.len() > 0 ==> r == match history_date(output@) {
            Some(d) => Ok::<Option<CalendarDate>, ProcessError>(Some(d)),
            None => Err(ProcessError::InvalidHistoryDate),
        },
{
    let cs = crate::front_matter::chars_of(output);
    if cs.len() == 0 {
        return Ok(None);
    }
    if cs.len() < 10 || cs[4] != '-' || cs[7] != '-' {
        return Err(ProcessError::InvalidHistoryDate);
    }
    let parts = (
        two_digits_at(&cs, 0),
        two_digits_at(&cs, 2),
        two_digits_at(&cs, 5),
        two_digits_at(&cs, 8),
    );
    if let (Some(hi), Some(lo), Some(month), Some(day)) = parts {
        let date = CalendarDate { year: 100 * (hi as u16) + lo as u16, month, day };
        if 1 <= month && month <= 12 && 1 <= day && day <= 31 {
            return Ok(Some(date));
        }
    }
    Err(ProcessError::InvalidHistoryDate)
}

} // verus!
