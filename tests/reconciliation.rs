use zola_chrono::date::{is_less_than_or_equal_date, CalendarDate, FieldValue};
use zola_chrono::error::ProcessError;
use zola_chrono::reconcile::{reconcile, sanitize, Reconciliation};

const P1: CalendarDate = CalendarDate { year: 2001, month: 1, day: 1 };
const P2: CalendarDate = CalendarDate { year: 2002, month: 1, day: 1 };
const FUTURE: CalendarDate = CalendarDate { year: 4000, month: 1, day: 1 };

fn fixed_today() -> CalendarDate {
    CalendarDate { year: 2024, month: 6, day: 15 }
}

fn run(last: Option<CalendarDate>, date: FieldValue, updated: FieldValue) -> Reconciliation {
    reconcile(last, date, updated, fixed_today()).expect("last edit is not in the future")
}

#[test]
fn scenario_no_history_no_fields() {
    let r = run(None, FieldValue::Absent, FieldValue::Absent);
    assert_eq!(r, Reconciliation { date: fixed_today(), updated: None, changed: true });
}

#[test]
fn scenario_history_but_no_fields() {
    let r = run(Some(P2), FieldValue::Absent, FieldValue::Absent);
    assert_eq!(r, Reconciliation { date: P2, updated: Some(fixed_today()), changed: true });
}

#[test]
fn scenario_date_equals_last_edit() {
    let r = run(Some(P2), FieldValue::Date(P2), FieldValue::Absent);
    assert_eq!(r, Reconciliation { date: P2, updated: None, changed: false });
}

#[test]
fn scenario_edit_after_date() {
    let r = run(Some(P2), FieldValue::Date(P1), FieldValue::Absent);
    assert_eq!(r, Reconciliation { date: P1, updated: Some(fixed_today()), changed: true });
}

#[test]
fn scenario_date_of_wrong_type() {
    let r = run(None, FieldValue::InvalidType, FieldValue::Absent);
    assert_eq!(r, Reconciliation { date: fixed_today(), updated: None, changed: true });
}

#[test]
fn scenario_future_date() {
    let r = run(None, FieldValue::Date(FUTURE), FieldValue::Absent);
    assert_eq!(r, Reconciliation { date: fixed_today(), updated: None, changed: true });
}

#[test]
fn last_edit_in_future_is_refused() {
    let r = reconcile(Some(FUTURE), FieldValue::Absent, FieldValue::Absent, fixed_today());
    assert_eq!(
        r,
        Err(ProcessError::LastEditInFuture { last_edit: FUTURE, today: fixed_today() })
    );
}

#[test]
fn last_edit_today_is_accepted() {
    let today = fixed_today();
    let r = reconcile(Some(today), FieldValue::Absent, FieldValue::Absent, today);
    assert_eq!(r, Ok(Reconciliation { date: today, updated: None, changed: true }));
}

#[test]
fn invalid_updated_becomes_today() {
    let r = run(Some(P2), FieldValue::Date(P1), FieldValue::InvalidType);
    assert_eq!(r, Reconciliation { date: P1, updated: Some(fixed_today()), changed: true });
}

#[test]
fn updated_before_date_becomes_today() {
    assert_eq!(
        sanitize(FieldValue::Date(P2), FieldValue::Date(P1), fixed_today()),
        (Some(P2), Some(fixed_today()))
    );
}

#[test]
fn sanitize_never_yields_future() {
    assert_eq!(
        sanitize(FieldValue::Date(FUTURE), FieldValue::Date(FUTURE), fixed_today()),
        (None, Some(fixed_today()))
    );
    assert_eq!(
        sanitize(FieldValue::InvalidType, FieldValue::Absent, fixed_today()),
        (None, None)
    );
    assert_eq!(
        sanitize(FieldValue::Date(P1), FieldValue::Date(P2), fixed_today()),
        (Some(P1), Some(P2))
    );
}

fn all_inputs() -> Vec<(Option<CalendarDate>, FieldValue, FieldValue)> {
    let dates = [P1, P2, fixed_today(), FUTURE];
    let mut fields = vec![FieldValue::Absent, FieldValue::InvalidType];
    fields.extend(dates.iter().map(|d| FieldValue::Date(*d)));
    let lasts = [None, Some(P1), Some(P2), Some(fixed_today())];
    let mut inputs = Vec::new();
    for last in lasts {
        for date in &fields {
            for updated in &fields {
                inputs.push((last, *date, *updated));
            }
        }
    }
    inputs
}

#[test]
fn outputs_are_ordered_and_not_in_future() {
    let today = fixed_today();
    for (last, date, updated) in all_inputs() {
        let r = run(last, date, updated);
        assert!(is_less_than_or_equal_date(&r.date, &today));
        if let Some(u) = r.updated {
            assert!(is_less_than_or_equal_date(&r.date, &u));
            assert!(is_less_than_or_equal_date(&u, &today));
        }
    }
}

#[test]
fn reconciling_twice_changes_nothing() {
    for (last, date, updated) in all_inputs() {
        let first = run(last, date, updated);
        let again_updated = match first.updated {
            Some(u) => FieldValue::Date(u),
            None => FieldValue::Absent,
        };
        let again = run(last, FieldValue::Date(first.date), again_updated);
        assert_eq!(again.date, first.date);
        assert_eq!(again.updated, first.updated);
        assert!(!again.changed);
    }
}

#[test]
fn fresh_updated_is_kept() {
    let r = run(Some(P1), FieldValue::Date(P1), FieldValue::Date(P2));
    assert_eq!(r, Reconciliation { date: P1, updated: Some(P2), changed: false });
}

#[test]
fn stale_updated_moves_to_today() {
    let r = run(Some(P2), FieldValue::Date(P1), FieldValue::Date(P1));
    assert_eq!(r, Reconciliation { date: P1, updated: Some(fixed_today()), changed: true });
}
