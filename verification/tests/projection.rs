use aurum::date::{add_days, iso_date_string, month_length, Date};
use aurum::forecast::{balance_string, forecast_of_balance, project, project_from};
use aurum::store::StoreError;

#[test]
fn projection_decays_linearly_from_the_start() {
    let today = Date { year: 2025, month: 1, day: 1 };
    let points = project_from(today, 250_000);

    assert_eq!(points.len(), 30);
    assert_eq!(points[0].date, Date { year: 2025, month: 1, day: 1 });
    assert_eq!(points[0].balance_cents, 250_000);
    assert_eq!(points[1].date, Date { year: 2025, month: 1, day: 2 });
    assert_eq!(points[1].balance_cents, 248_375);
    assert_eq!(points[29].date, Date { year: 2025, month: 1, day: 30 });
    assert_eq!(points[29].balance_cents, 202_875);
}

#[test]
fn projection_is_deterministic() {
    let today = Date { year: 2025, month: 6, day: 15 };
    let first = project_from(today, 123_456);
    let second = project_from(today, 123_456);
    assert_eq!(first, second);
}

#[test]
fn projection_crosses_a_leap_day() {
    let today = Date { year: 2024, month: 2, day: 28 };
    let points = project_from(today, 0);

    assert_eq!(points[1].date, Date { year: 2024, month: 2, day: 29 });
    assert_eq!(points[2].date, Date { year: 2024, month: 3, day: 1 });
}

#[test]
fn projection_crosses_a_year_boundary() {
    let today = Date { year: 2023, month: 12, day: 15 };
    let points = project_from(today, 0);

    assert_eq!(points[16].date, Date { year: 2023, month: 12, day: 31 });
    assert_eq!(points[17].date, Date { year: 2024, month: 1, day: 1 });
}

#[test]
fn projection_of_a_negative_balance_keeps_decaying() {
    let today = Date { year: 2025, month: 3, day: 10 };
    let points = project_from(today, -1_000);

    assert_eq!(points[0].balance_cents, -1_000);
    assert_eq!(points[1].balance_cents, -2_625);
}

#[test]
fn projection_from_today_has_30_points() {
    let points = project(0);

    assert_eq!(points.len(), 30);
    assert_eq!(points[0].balance_cents, 0);
    assert_eq!(points[1].balance_cents, -1_625);
}

#[test]
fn month_lengths_follow_the_leap_rule() {
    assert_eq!(month_length(2023, 2), 28);
    assert_eq!(month_length(2024, 2), 29);
    assert_eq!(month_length(1900, 2), 28);
    assert_eq!(month_length(2000, 2), 29);
    assert_eq!(month_length(2025, 1), 31);
    assert_eq!(month_length(2025, 4), 30);
    assert_eq!(month_length(2025, 12), 31);
}

#[test]
fn balances_in_range_are_projected() {
    let points = forecast_of_balance(250_000).expect("an in-range balance should project");

    assert_eq!(points.len(), 30);
    assert_eq!(points[0].balance_cents, 250_000);
    assert_eq!(points[1].balance_cents, 248_375);

    let boundary = forecast_of_balance(i64::MIN + 47_125)
        .expect("the lowest in-range balance should project");
    assert_eq!(boundary[29].balance_cents, i64::MIN);
}

#[test]
fn balances_below_range_fail_the_read() {
    let err = forecast_of_balance(i64::MIN).unwrap_err();
    assert_eq!(err, StoreError::ReadFailed);

    let err = forecast_of_balance(i64::MIN + 47_124).unwrap_err();
    assert_eq!(err, StoreError::ReadFailed);
}

#[test]
fn balance_rendering_is_exact() {
    assert_eq!(balance_string(250_000), "2500.00");
    assert_eq!(balance_string(248_375), "2483.75");
    assert_eq!(balance_string(-1_625), "-16.25");
    assert_eq!(balance_string(0), "0.00");
    assert_eq!(balance_string(5), "0.05");
    assert_eq!(balance_string(-5), "-0.05");
}

#[test]
fn iso_rendering_pads_every_field() {
    assert_eq!(
        iso_date_string(Date { year: 2025, month: 1, day: 5 }),
        "2025-01-05"
    );
    assert_eq!(
        iso_date_string(Date { year: 1, month: 12, day: 31 }),
        "0001-12-31"
    );
    assert_eq!(
        iso_date_string(Date { year: 9999, month: 10, day: 9 }),
        "9999-10-09"
    );
}

#[test]
fn adding_days_rolls_months_and_years() {
    let feb = Date { year: 2024, month: 2, day: 28 };
    assert_eq!(add_days(feb, 2), Date { year: 2024, month: 3, day: 1 });

    let december = Date { year: 2023, month: 12, day: 31 };
    assert_eq!(add_days(december, 1), Date { year: 2024, month: 1, day: 1 });

    let midsummer = Date { year: 2025, month: 6, day: 15 };
    assert_eq!(add_days(midsummer, 0), midsummer);
    assert_eq!(add_days(midsummer, 30), Date { year: 2025, month: 7, day: 15 });
}
