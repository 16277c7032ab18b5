//! The date reconciliation engine: from the fields a page holds, its last
//! recorded edit and today's date, the `date` and `updated` values the page
//! should hold, and whether they differ from what it holds now.
use vstd::prelude::*;

use crate::date::{
    date_le, date_lt, is_equal_date, is_less_than_date, is_less_than_or_equal_date, CalendarDate,
    FieldValue,
};
use crate::error::ProcessError;

verus! {

/// What reconciliation decided for one page.
#[derive(Clone, Copy, Debug, PartialEq, Eq, Structural)]
pub struct Reconciliation {
    /// The value `date` must hold.
    pub date: CalendarDate,
    /// The value `updated` must hold, or `None` where the key must go.
    pub updated: Option<CalendarDate>,
    /// Whether either field differs from what the page holds now.
    pub changed: bool,
}

/// `date` as trusted: a date that is not in the future, else nothing.
pub open spec fn sanitized_date(date_field: FieldValue, today: CalendarDate) -> Option<CalendarDate> {
    match date_field {
        FieldValue::Date(d) => if date_lt(today, d) { None } else { Some(d) },
        _ => None,
    }
}

/// `updated` as trusted. A value that is not a date, that comes before
/// `date`, or that lies in the future becomes today; an absent one stays
/// absent.
pub open spec fn sanitized_updated(
    date_field: FieldValue,
    updated_field: FieldValue,
    today: CalendarDate,
) -> Option<CalendarDate> {
    match updated_field {
        FieldValue::Absent => None,
        FieldValue::InvalidType => Some(today),
        FieldValue::Date(u) => {
            let before_date = match date_field {
                FieldValue::Date(d) => date_lt(u, d),
                _ => false,
            };
            if before_date || date_lt(today, u) { Some(today) } else { Some(u) }
        },
    }
}

/// The value for `updated` when it is only needed if `d` is not today.
pub open spec fn updated_unless_today(d: CalendarDate, today: CalendarDate) -> Option<CalendarDate> {
    if d == today { None } else { Some(today) }
}

/// The decision table over the last edit and the sanitized fields.
pub open spec fn decide(
    last: Option<CalendarDate>,
    date: Option<CalendarDate>,
    updated: Option<CalendarDate>,
    today: CalendarDate,
) -> (CalendarDate, Option<CalendarDate>) {
    match (last, date, updated) {
        (None, None, _) => (today, None),
        (None, Some(d), _) => (d, updated_unless_today(d, today)),
        (Some(l), None, _) => (l, updated_unless_today(l, today)),
        (Some(l), Some(d), None) => (d, if date_le(l, d) { None } else { Some(today) }),
        (Some(l), Some(d), Some(u)) => (
            d,
            if d == today {
                None
            } else if date_le(l, u) {
                Some(u)
            } else {
                Some(today)
            },
        ),
    }
}

/// The new `date` and `updated` for the given inputs.
pub open spec fn new_dates(
    last: Option<CalendarDate>,
    date_field: FieldValue,
    updated_field: FieldValue,
    today: CalendarDate,
) -> (CalendarDate, Option<CalendarDate>) {
    decide(
        last,
        sanitized_date(date_field, today),
        sanitized_updated(date_field, updated_field, today),
        today,
    )
}

/// The fields as read already equal the new values: `date` holds the new
/// date, and `updated` holds the new value or is absent where none is due.
pub open spec fn same_as_original(
    date_field: FieldValue,
    updated_field: FieldValue,
    new_date: CalendarDate,
    new_updated: Option<CalendarDate>,
) -> bool {
    &&& date_field == FieldValue::Date(new_date)
    &&& match (updated_field, new_updated) {
        (FieldValue::Absent, None) => true,
        (FieldValue::Date(u), Some(n)) => u == n,
        _ => false,
    }
}

/// The last edit is not after today.
pub open spec fn last_edit_valid(last: Option<CalendarDate>, today: CalendarDate) -> bool {
    match last {
        Some(l) => date_le(l, today),
        None => true,
    }
}

/// The full outcome of reconciling valid inputs.
pub open spec fn reconciliation(
    last: Option<CalendarDate>,
    date_field: FieldValue,
    updated_field: FieldValue,
    today: CalendarDate,
) -> Reconciliation {
    let (d, u) = new_dates(last, date_field, updated_field, today);
    Reconciliation { date: d, updated: u, changed: !same_as_original(date_field, updated_field, d, u) }
}

/// The field value that stands for an optional date: the date, or no key.
pub open spec fn as_field(d: Option<CalendarDate>) -> FieldValue {
    match d {
        Some(d) => FieldValue::Date(d),
        None => FieldValue::Absent,
    }
}

/// Sanitizing never yields a date after today: a `date` in the future is
/// dropped, and an `updated` in the future becomes today.
pub proof fn lemma_sanitize_never_future(
    date_field: FieldValue,
    updated_field: FieldValue,
    today: CalendarDate,
)
    ensures
        sanitized_date(date_field, today) matches Some(d) ==> date_le(d, today),
        sanitized_updated(date_field, updated_field, today) matches Some(u) ==> date_le(u, today),
        date_field is Date && date_lt(today, date_field->Date_0) ==> sanitized_date(
            date_field,
            today,
        ) is None,
        updated_field is Date && date_lt(today, updated_field->Date_0) ==> sanitized_updated(
            date_field,
            updated_field,
            today,
        ) == Some(today),
{
}

/// For any fields, once the last edit is not after today: the new `date` is
/// not after today, and a new `updated` lies between the new `date` and
/// today.
pub proof fn lemma_reconciliation_ordered(
    last: Option<CalendarDate>,
    date_field: FieldValue,
    updated_field: FieldValue,
    today: CalendarDate,
)
    requires
        last_edit_valid(last, today),
    ensures
        date_le(reconciliation(last, date_field, updated_field, today).date, today),
        reconciliation(last, date_field, updated_field, today).updated matches Some(u) ==> date_le(
            reconciliation(last, date_field, updated_field, today).date,
            u,
        ) && date_le(u, today),
{
}

/// Reconciling what a reconciliation produced, with the same last edit and
/// the same today, keeps both values and finds nothing to change.
pub proof fn lemma_reconciliation_idempotent(
    last: Option<CalendarDate>,
    date_field: FieldValue,
    updated_field: FieldValue,
    today: CalendarDate,
)
    requires
        last_edit_valid(last, today),
    ensures
        ({
            let first = reconciliation(last, date_field, updated_field, today);
            let again = reconciliation(
                last,
                FieldValue::Date(first.date),
                as_field(first.updated),
                today,
            );
            &&& again.date == first.date
            &&& again.updated == first.updated
            &&& !again.changed
        }),
{
    lemma_reconciliation_ordered(last, date_field, updated_field, today);
}

/// Applies the sanitization rules to the fields as read.
pub fn sanitize(date_field: FieldValue, updated_field: FieldValue, today: CalendarDate) -> (r: (
    Option<CalendarDate>,
    Option<CalendarDate>,
))
    ensures
        r.0 == sanitized_date(date_field, today),
        r.1 == sanitized_updated(date_field, updated_field, today),
        r.0 matches Some(d) ==> date_le(d, today),
        r.1 matches Some(u) ==> date_le(u, today),
        r matches (Some(d), Some(u)) ==> date_le(d, u),
{
    // A value of the wrong type: `date` is dropped, `updated` becomes today.
    let mut date = match date_field {
        FieldValue::Date(d) => Some(d),
        _ => None,
    };
    let mut updated = match updated_field {
        FieldValue::Absent => None,
        FieldValue::InvalidType => Some(today),
        FieldValue::Date(u) => Some(u),
    };
    // `updated` before `date` is never right: it becomes today.
    if let (Some(u), Some(d)) = (updated, date) {
        if is_less_than_date(&u, &d) {
            updated = Some(today);
        }
    }
    // A publish date in the future is not trusted.
    if let Some(d) = date {
        if is_less_than_date(&today, &d) {
            date = None;
        }
    }
    // Nor is an `updated` in the future.
    if let Some(u) = updated {
        if is_less_than_date(&today, &u) {
            updated = Some(today);
        }
    }
    (date, updated)
}

/// Computes the new `date` and `updated` from the last edit and the fields
/// as read.
pub fn calculate_new_date_and_updated(
    date_field: FieldValue,
    updated_field: FieldValue,
    last_edit_date: Option<CalendarDate>,
    today: CalendarDate,
) -> (r: (CalendarDate, Option<CalendarDate>))
    requires
        last_edit_valid(last_edit_date, today),
    ensures
        r == new_dates(last_edit_date, date_field, updated_field, today),
{
    let (date, updated) = sanitize(date_field, updated_field, today);
    match (last_edit_date, date, updated) {
        (None, None, _) => (today, None),
        (None, Some(d), _) => {
            if is_equal_date(&d, &today) {
                (d, None)
            } else {
                (d, Some(today))
            }
        },
        (Some(l), None, _) => {
            if is_equal_date(&l, &today) {
                (l, None)
            } else {
                (l, Some(today))
            }
        },
        (Some(l), Some(d), None) => {
            if is_less_than_or_equal_date(&l, &d) {
                (d, None)
            } else {
                (d, Some(today))
            }
        },
        (Some(l), Some(d), Some(u)) => {
            if is_equal_date(&d, &today) {
                (d, None)
            } else if is_less_than_or_equal_date(&l, &u) {
                (d, Some(u))
            } else {
                (d, Some(today))
            }
        },
    }
}

/// True when the fields as read already hold the new values.
pub fn is_new_same_as_org(
    org_date: FieldValue,
    org_updated: FieldValue,
    new_date: &CalendarDate,
    new_updated: &Option<CalendarDate>,
) -> (r: bool)
    ensures
        r == same_as_original(org_date, org_updated, *new_date, *new_updated),
{
    let is_date_same = match org_date {
        FieldValue::Date(d) => is_equal_date(&d, new_date),
        _ => false,
    };
    let is_updated_same = match (org_updated, new_updated) {
        (FieldValue::Absent, None) => true,
        (FieldValue::Date(u), Some(n)) => is_equal_date(&u, n),
        _ => false,
    };
    is_date_same && is_updated_same
}

/// Reconciles one page's fields. Fails when the last edit lies after today,
/// which no history of a sane clock can report.
pub fn reconcile(
    last_edit_date: Option<CalendarDate>,
    date_field: FieldValue,
    updated_field: FieldValue,
    today: CalendarDate,
) -> (r: Result<Reconciliation, ProcessError>)
    ensures
        last_edit_valid(last_edit_date, today) ==> r == Ok::<Reconciliation, ProcessError>(
            reconciliation(last_edit_date, date_field, updated_field, today),
        ),
        !last_edit_valid(last_edit_date, today) ==> r == Err::<Reconciliation, ProcessError>(
            (ProcessError::LastEditInFuture { last_edit: last_edit_date->Some_0, today }),
        ),
{
    if let Some(last_edit) = last_edit_date {
        if is_less_than_date(&today, &last_edit) {
            return Err(ProcessError::LastEditInFuture { last_edit, today });
        }
    }
    let (date, updated) = calculate_new_date_and_updated(
        date_field,
        updated_field,
        last_edit_date,
        today,
    );
    let changed = !is_new_same_as_org(date_field, updated_field, &date, &updated);
    Ok(Reconciliation { date, updated, changed })
}

} // verus!
