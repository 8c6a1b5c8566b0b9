//! Day-by-day projection of the liquid balance: a fixed 30-point series
//! starting from today, decaying linearly by 16.25 currency units (1625
//! cents) per day, each point cent-rounded.
//!
//! Balances are integer cent counts, so every projected point carries at
//! most two decimal digits of currency precision by construction.

use vstd::prelude::*;
use vstd::string::StringExecFns;

use crate::date::Date;
use crate::date::date_plus;
use crate::date::digit_char;
use crate::date::digit_str;
use crate::date::hyphen_str;
use crate::date::next_day;
use crate::date::two_digit_chars;
use crate::date::valid_date;
use crate::store::StoreError;
use crate::store::liquid_starting_balance;

verus! {

/// The daily linear decay, in cents (16.25 currency units per day).
pub const DAILY_DECAY_CENTS: i64 = 1625;

/// One projected point: a calendar date and the balance forecast for it, in
/// cents.
#[derive(Clone, Copy, Debug, PartialEq, Eq, Structural)]
pub struct ForecastPoint {
    pub date: Date,
    pub balance_cents: i64,
}

/// The balance projected `offset` days out from a starting balance of
/// `start` cents: the start less 1625 cents per elapsed day.
pub open spec fn projected_balance(start: int, offset: int) -> int {
    start - 1625 * offset
}

/// What a projection from `today` with starting balance `start` (in cents)
/// is: exactly 30 points, point `i` dated `i` days after `today` and
/// carrying the linearly decayed balance.
pub open spec fn is_projection(points: Seq<ForecastPoint>, today: Date, start: int) -> bool {
    &&& points.len() == 30
    &&& forall|i: int|
        0 <= i < 30 ==> {
            &&& (#[trigger] points[i]).date == date_plus(today, i as nat)
            &&& points[i].balance_cents as int == projected_balance(start, i)
        }
}

/// A projection begins at its starting balance unchanged, and by its final
/// point has strictly decreased: point 0 carries `start` exactly and point
/// 29 carries strictly less than point 0.
pub proof fn lemma_projection_endpoints(points: Seq<ForecastPoint>, today: Date, start: int)
    requires
        is_projection(points, today, start),
    ensures
        points[0].balance_cents == start,
        points[29].balance_cents < points[0].balance_cents,
{
    assert(points[0].balance_cents as int == projected_balance(start, 0));
    assert(points[29].balance_cents as int == projected_balance(start, 29));
}

/// A projection is determined by its day and starting balance: two
/// projections from the same `today` and the same `start` are equal.
pub proof fn lemma_projection_deterministic(
    a: Seq<ForecastPoint>,
    b: Seq<ForecastPoint>,
    today: Date,
    start: int,
)
    requires
        is_projection(a, today, start),
        is_projection(b, today, start),
    ensures
        a =~= b,
{
    assert forall|i: int| 0 <= i < 30 implies a[i] == b[i] by {
        assert(a[i].date == b[i].date);
        assert(a[i].balance_cents == b[i].balance_cents);
    }
}

/// The projection of `start_cents` beginning at the given day: 30 points of
/// linearly decaying, cent-exact balances on consecutive dates.
pub fn project_from(today: Date, start_cents: i64) -> (points: Vec<ForecastPoint>)
    requires
        valid_date(today),
        today.year + 30 <= i32::MAX,
        projected_balance(start_cents as int, 29) >= i64::MIN,
    ensures
        is_projection(points@, today, start_cents as int),
{
    let mut points: Vec<ForecastPoint> = Vec::new();
    let mut cur: Date = today;
    let mut i: u32 = 0;
    while i < 30
        invariant
            i <= 30,
            valid_date(today),
            today.year + 30 <= i32::MAX,
            projected_balance(start_cents as int, 29) >= i64::MIN,
            points@.len() == i,
            valid_date(cur),
            cur == date_plus(today, i as nat),
            cur.year <= today.year + i,
            forall|j: int|
                0 <= j < i ==> {
                    &&& (#[trigger] points@[j]).date == date_plus(today, j as nat)
                    &&& points@[j].balance_cents as int == projected_balance(
                        start_cents as int,
                        j,
                    )
                },
        decreases 30 - i,
    {
        let decay: i64 = DAILY_DECAY_CENTS * (i as i64);
        let balance: i64 = start_cents - decay;
        points.push(ForecastPoint { date: cur, balance_cents: balance });
        cur = next_day(cur);
        i = i + 1;
    }
    points
}

/// The 30-day projection of `start_cents` beginning today (UTC). Whatever
/// day the clock reports, the result is the projection anchored at its own
/// first point's date, whose balance is `start_cents` unchanged.
pub fn project(start_cents: i64) -> (points: Vec<ForecastPoint>)
    requires
        projected_balance(start_cents as int, 29) >= i64::MIN,
    ensures
        points@.len() == 30,
        valid_date(points@[0].date),
        is_projection(points@, points@[0].date, start_cents as int),
{
    let today: Date = today_utc();
    let points: Vec<ForecastPoint> = project_from(today, start_cents);
    proof {
        assert(points@[0].date == date_plus(today, 0));
    }
    points
}

/// What the forecast makes of each balance the read can yield: a balance
/// whose final projected point still fits the cent range gives the 30-day
/// projection starting from it, anchored at today; any other balance gives
/// a failed read, and nothing else ever does.
pub fn forecast_of_balance(start_cents: i64) -> (r: Result<Vec<ForecastPoint>, StoreError>)
    ensures
        projected_balance(start_cents as int, 29) >= i64::MIN ==> {
            &&& r is Ok
            &&& r->Ok_0@.len() == 30
            &&& valid_date(r->Ok_0@[0].date)
            &&& r->Ok_0@[0].balance_cents == start_cents
            &&& is_projection(r->Ok_0@, r->Ok_0@[0].date, start_cents as int)
        },
        projected_balance(start_cents as int, 29) < i64::MIN ==> (r is Err && r->Err_0
            == StoreError::ReadFailed),
{
    if start_cents >= i64::MIN + 47125 {
        let points: Vec<ForecastPoint> = project(start_cents);
        proof {
            assert(points@[0].balance_cents as int == projected_balance(start_cents as int, 0));
        }
        Ok(points)
    } else {
        Err(StoreError::ReadFailed)
    }
}

/// The composed forecast: read the liquid starting balance from the store
/// at `path`, then project it 30 days out with `forecast_of_balance`, whose
/// contract fixes the outcome for every balance the read can yield; a read
/// error is handed on as it came. On success the result is a projection
/// anchored at its own first point, whose balance is the balance that was
/// read.
pub fn forecast(path: &str) -> (r: Result<Vec<ForecastPoint>, StoreError>)
    ensures
        r is Ok ==> {
            &&& r->Ok_0@.len() == 30
            &&& valid_date(r->Ok_0@[0].date)
            &&& is_projection(r->Ok_0@, r->Ok_0@[0].date, r->Ok_0@[0].balance_cents as int)
        },
        r is Err ==> (r->Err_0 == StoreError::OpenFailed || r->Err_0 == StoreError::ReadFailed),
{
    match liquid_starting_balance(path) {
        Ok(start_cents) => forecast_of_balance(start_cents),
        Err(e) => Err(e),
    }
}

/// The decimal digits of `n`, most significant first, with no leading
/// zeros except for `n == 0` itself.
pub open spec fn dec_digit_chars(n: nat) -> Seq<char>
    decreases n,
{
    if n < 10 {
        seq![digit_char(n as int)]
    } else {
        dec_digit_chars(n / 10).push(digit_char((n % 10) as int))
    }
}

/// The balance `cents` written as a decimal currency amount: a minus sign
/// when it is negative, the whole units, a dot, and exactly two cent
/// digits.
pub open spec fn balance_chars(cents: int) -> Seq<char> {
    let magnitude = if cents < 0 {
        -cents
    } else {
        cents
    };
    let sign: Seq<char> = if cents < 0 {
        seq!['-']
    } else {
        Seq::empty()
    };
    sign + dec_digit_chars((magnitude / 100) as nat) + seq!['.'] + two_digit_chars(magnitude % 100)
}

/// `n` written in decimal, most significant digit first.
fn dec_digits_string(n: u64) -> (r: String)
    ensures
        r@ == dec_digit_chars(n as nat),
    decreases n,
{
    if n < 10 {
        String::from_str(digit_str(n as u32))
    } else {
        let mut s: String = dec_digits_string(n / 10);
        s.append(digit_str((n % 10) as u32));
        proof {
            assert(s@ =~= dec_digit_chars(n as nat));
        }
        s
    }
}

/// A decimal point as a borrowed string.
fn dot_str() -> (r: &'static str)
    ensures
        r@ == seq!['.'],
{
    proof {
        reveal_strlit(".");
    }
    "."
}

/// `cents` written as a decimal currency string, such as `2500.00` or
/// `-16.25`.
pub fn balance_string(cents: i64) -> (r: String)
    ensures
        r@ == balance_chars(cents as int),
{
    let magnitude: u64 = if cents >= 0 {
        cents as u64
    } else {
        (-(cents as i128)) as u64
    };
    let mut s: String = if cents < 0 {
        String::from_str(hyphen_str())
    } else {
        String::new()
    };
    let whole: String = dec_digits_string(magnitude / 100);
    s.append(whole.as_str());
    s.append(dot_str());
    let frac: u64 = magnitude % 100;
    s.append(digit_str((frac / 10) as u32));
    s.append(digit_str((frac % 10) as u32));
    proof {
        assert(s@ =~= balance_chars(cents as int));
    }
    s
}

/// Today's UTC calendar date, taken from the platform clock; when the
/// clock reports a moment no date in range can carry (before the Unix
/// epoch, or absurdly far in the future), the epoch date stands in. Either
/// way the result is a valid date.
fn today_utc() -> (d: Date)
    ensures
        valid_date(d),
        -262143 <= d.year <= 262142,
{
    let fallback: Date = Date { year: 1970, month: 1, day: 1 };
    match epoch_seconds_now() {
        Some(seconds) => match date_of_epoch_seconds(seconds) {
            Some(today) => today,
            None => fallback,
        },
        None => fallback,
    }
}

/// Relies on std::time::SystemTime::now; `duration_since` against the Unix
/// epoch, `as_secs` and a checked narrowing convert its result to plain
/// seconds. None when the clock stands before the epoch or past what `i64`
/// seconds can carry; an elapsed duration is never negative.
#[verifier::external_body]
fn epoch_seconds_now() -> (r: Option<i64>)
    ensures
        r is Some ==> r->Some_0 >= 0,
{
    let elapsed = std::time::SystemTime::now().duration_since(std::time::UNIX_EPOCH);
    match elapsed {
        Ok(duration) => i64::try_from(duration.as_secs()).ok(),
        Err(_) => None,
    }
}

/// Relies on chrono::DateTime::from_timestamp, whose documentation returns
/// None on an out-of-range number of seconds; `date_naive` and the
/// chrono::Datelike accessors year, month and day convert its result.
/// chrono hands out only real proleptic Gregorian dates, within its
/// supported year range.
#[verifier::external_body]
fn date_of_epoch_seconds(seconds: i64) -> (r: Option<Date>)
    ensures
        r is Some ==> valid_date(r->Some_0) && -262143 <= r->Some_0.year <= 262142,
{
    match chrono::DateTime::from_timestamp(seconds, 0) {
        Some(moment) => {
            let now = moment.date_naive();
            Some(Date {
                year: chrono::Datelike::year(&now),
                month: chrono::Datelike::month(&now) as u8,
                day: chrono::Datelike::day(&now) as u8,
            })
        },
        None => None,
    }
}

} // verus!
