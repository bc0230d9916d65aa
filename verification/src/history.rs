//! Averaged measurements over a window of time.

use vstd::prelude::*;
use vstd::string::*;

use crate::decimal::Micro;
use crate::text::same_text;

verus! {

/// A window of history that a client can ask for.
#[derive(Debug, Clone, Copy, PartialEq, Eq, Structural)]
pub enum Range {
    Hour,
    Day,
    Week,
    Month,
}

/// The window that a text names.
pub open spec fn range_named(s: Seq<char>) -> Option<Range> {
    if s == "hour"@ {
        Some(Range::Hour)
    } else if s == "day"@ {
        Some(Range::Day)
    } else if s == "week"@ {
        Some(Range::Week)
    } else if s == "month"@ {
        Some(Range::Month)
    } else {
        None
    }
}

impl Range {
    /// The name of the window.
    pub open spec fn spec_name(self) -> Seq<char> {
        match self {
            Range::Hour => "hour"@,
            Range::Day => "day"@,
            Range::Week => "week"@,
            Range::Month => "month"@,
        }
    }

    /// How far back the window reaches, as an SQL interval.
    pub open spec fn window(self) -> Seq<char> {
        match self {
            Range::Hour => "1 hour"@,
            Range::Day => "1 day"@,
            Range::Week => "7 days"@,
            Range::Month => "30 days"@,
        }
    }

    /// What is averaged into one row, as an SQL interval.
    pub open spec fn bucket(self) -> Seq<char> {
        match self {
            Range::Hour => "1 minute"@,
            Range::Day => "5 minutes"@,
            Range::Week => "1 hour"@,
            Range::Month => "6 hours"@,
        }
    }

    /// The window that a text names.
    pub fn from_str(s: &str) -> (range: Result<Range, ()>)
        ensures
            match range {
                Ok(range) => range_named(s@) == Some(range),
                Err(()) => range_named(s@) is None,
            },
    {
        if same_text(s, "hour") {
            Ok(Range::Hour)
        } else if same_text(s, "day") {
            Ok(Range::Day)
        } else if same_text(s, "week") {
            Ok(Range::Week)
        } else if same_text(s, "month") {
            Ok(Range::Month)
        } else {
            Err(())
        }
    }

    /// The name of the window.
    pub fn name(self) -> (name: &'static str)
        ensures
            name@ == self.spec_name(),
    {
        match self {
            Range::Hour => "hour",
            Range::Day => "day",
            Range::Week => "week",
            Range::Month => "month",
        }
    }

    /// How far back the window reaches, and what is averaged into one row.
    pub fn bounds(self) -> (bounds: (&'static str, &'static str))
        ensures
            bounds.0@ == self.window(),
            bounds.1@ == self.bucket(),
    {
        match self {
            Range::Hour => ("1 hour", "1 minute"),
            Range::Day => ("1 day", "5 minutes"),
            Range::Week => ("7 days", "1 hour"),
            Range::Month => ("30 days", "6 hours"),
        }
    }
}

/// A window is found again under its name.
pub proof fn law_range_is_named(range: Range)
    ensures
        range_named(range.spec_name()) == Some(range),
{
    reveal_strlit("hour");
    reveal_strlit("day");
    reveal_strlit("week");
    reveal_strlit("month");
    assert("hour"@[0] == 'h' && "week"@[0] == 'w');
    assert("day"@.len() == 3 && "hour"@.len() == 4 && "week"@.len() == 4 && "month"@.len() == 5);
}

// ---------------------------------------------------------------------------
// The query
// ---------------------------------------------------------------------------
/// The query up to the length of the window.
pub const SQL_BEFORE_WINDOW: &'static str = r#"
WITH params AS (
    SELECT
        now() - INTERVAL '"#;

/// The query between the length of the window and that of a row.
pub const SQL_BEFORE_BUCKET: &'static str = r#"' AS since,
        INTERVAL '"#;

/// The query behind the length of a row.
pub const SQL_AFTER_BUCKET: &'static str = r#"' AS bsize
),
axis AS (
    SELECT date_bin((SELECT bsize FROM params), g, TIMESTAMPTZ 'epoch') AS ts
    FROM (SELECT (SELECT since FROM params) AS s, now() AS e) p,
    LATERAL generate_series(p.s, p.e, (SELECT bsize FROM params)) g
    GROUP BY 1
),
s40 AS (
    SELECT date_bin((SELECT bsize FROM params), ts, TIMESTAMPTZ 'epoch') AS b,
           AVG(bus_v)::REAL AS v, AVG(current_ma)::REAL AS ma
    FROM sensor_samples
    WHERE ts > (SELECT since FROM params) AND address = 64
    GROUP BY b
),
s41 AS (
    SELECT date_bin((SELECT bsize FROM params), ts, TIMESTAMPTZ 'epoch') AS b,
           AVG(bus_v)::REAL AS v, AVG(current_ma)::REAL AS ma
    FROM sensor_samples
    WHERE ts > (SELECT since FROM params) AND address = 65
    GROUP BY b
),
u AS (
    SELECT date_bin((SELECT bsize FROM params), ts, TIMESTAMPTZ 'epoch') AS b,
           AVG(input_v)::REAL AS input_v, AVG(battery_v)::REAL AS battery_v
    FROM ups_samples
    WHERE ts > (SELECT since FROM params)
    GROUP BY b
),
w AS (
    SELECT date_bin((SELECT bsize FROM params), ts, TIMESTAMPTZ 'epoch') AS b,
           AVG(temp_c)::REAL AS temp_c,
           AVG(cloud_cover_pct)::REAL AS cloud_pct,
           AVG(shortwave_wm2)::REAL AS radiation
    FROM weather_samples
    WHERE ts > (SELECT since FROM params)
    GROUP BY b
)
SELECT
    axis.ts AS ts,
    s40.v AS s40_v, s40.ma AS s40_ma,
    s41.v AS s41_v, s41.ma AS s41_ma,
    u.input_v AS ups_in_v, u.battery_v AS ups_batt_v,
    w.temp_c AS w_temp, w.cloud_pct AS w_cloud, w.radiation AS w_rad
FROM axis
LEFT JOIN s40 ON s40.b = axis.ts
LEFT JOIN s41 ON s41.b = axis.ts
LEFT JOIN u   ON u.b   = axis.ts
LEFT JOIN w   ON w.b   = axis.ts
ORDER BY axis.ts
"#;

/// The query that averages every measurement of a window, a row per bucket.
pub fn history_query(range: Range) -> (sql: String)
    ensures
        sql@ == SQL_BEFORE_WINDOW@ + range.window() + SQL_BEFORE_BUCKET@ + range.bucket()
            + SQL_AFTER_BUCKET@,
{
    let (window, bucket) = range.bounds();
    let mut sql: String = SQL_BEFORE_WINDOW.to_owned();
    sql.append(window);
    sql.append(SQL_BEFORE_BUCKET);
    sql.append(bucket);
    sql.append(SQL_AFTER_BUCKET);
    sql
}

// ---------------------------------------------------------------------------
// The answer
// ---------------------------------------------------------------------------
/// One row of the answer: the averages over one bucket that begins at `ts`, in
/// seconds since 1970.
#[derive(Debug, Clone, Copy, PartialEq, Eq)]
pub struct HistoryRow {
    pub ts: i64,
    pub sensor_grid_v: Option<Micro>,
    pub sensor_grid_ma: Option<Micro>,
    pub sensor_solar_v: Option<Micro>,
    pub sensor_solar_ma: Option<Micro>,
    pub ups_input_v: Option<Micro>,
    pub ups_battery_v: Option<Micro>,
    pub weather_temp_c: Option<Micro>,
    pub weather_cloud_pct: Option<Micro>,
    pub weather_radiation: Option<Micro>,
}

/// The answer to a client, a column per quantity. Every column is as long as
/// `ts`.
#[derive(Debug)]
pub struct HistoryPayload {
    pub range: &'static str,
    pub bucket: &'static str,
    pub ts: Vec<i64>,
    pub sensor_grid_v: Vec<Option<Micro>>,
    pub sensor_grid_ma: Vec<Option<Micro>>,
    pub sensor_solar_v: Vec<Option<Micro>>,
    pub sensor_solar_ma: Vec<Option<Micro>>,
    pub ups_input_v: Vec<Option<Micro>>,
    pub ups_battery_v: Vec<Option<Micro>>,
    pub weather_temp_c: Vec<Option<Micro>>,
    pub weather_cloud_pct: Vec<Option<Micro>>,
    pub weather_radiation: Vec<Option<Micro>>,
}

impl HistoryPayload {
    /// The columns hold the rows, one entry per row and in their order.
    pub open spec fn holds(&self, rows: Seq<HistoryRow>) -> bool {
        &&& self.ts@ =~= rows.map_values(|row: HistoryRow| row.ts)
        &&& self.sensor_grid_v@ =~= rows.map_values(|row: HistoryRow| row.sensor_grid_v)
        &&& self.sensor_grid_ma@ =~= rows.map_values(|row: HistoryRow| row.sensor_grid_ma)
        &&& self.sensor_solar_v@ =~= rows.map_values(|row: HistoryRow| row.sensor_solar_v)
        &&& self.sensor_solar_ma@ =~= rows.map_values(|row: HistoryRow| row.sensor_solar_ma)
        &&& self.ups_input_v@ =~= rows.map_values(|row: HistoryRow| row.ups_input_v)
        &&& self.ups_battery_v@ =~= rows.map_values(|row: HistoryRow| row.ups_battery_v)
        &&& self.weather_temp_c@ =~= rows.map_values(|row: HistoryRow| row.weather_temp_c)
        &&& self.weather_cloud_pct@ =~= rows.map_values(|row: HistoryRow| row.weather_cloud_pct)
        &&& self.weather_radiation@ =~= rows.map_values(|row: HistoryRow| row.weather_radiation)
    }

    /// The columns have one length.
    pub open spec fn is_even(&self) -> bool {
        &&& self.sensor_grid_v@.len() == self.ts@.len()
        &&& self.sensor_grid_ma@.len() == self.ts@.len()
        &&& self.sensor_solar_v@.len() == self.ts@.len()
        &&& self.sensor_solar_ma@.len() == self.ts@.len()
        &&& self.ups_input_v@.len() == self.ts@.len()
        &&& self.ups_battery_v@.len() == self.ts@.len()
        &&& self.weather_temp_c@.len() == self.ts@.len()
        &&& self.weather_cloud_pct@.len() == self.ts@.len()
        &&& self.weather_radiation@.len() == self.ts@.len()
    }
}

/// The times of the rows rise from row to row.
pub open spec fn times_rise(times: Seq<i64>) -> bool {
    forall|i: int, j: int| 0 <= i < j < times.len() ==> times[i] < times[j]
}

/// Turns the rows of an answer into columns. The order of the rows is that of the
/// query, by time and one row per bucket; times that rise there rise in the answer.
pub fn history_payload(range: Range, rows: &[HistoryRow]) -> (payload: HistoryPayload)
    ensures
        payload.range@ == range.spec_name(),
        payload.bucket@ == range.bucket(),
        payload.holds(rows@),
        payload.is_even(),
        range_named(payload.range@) == Some(range),
        times_rise(rows@.map_values(|row: HistoryRow| row.ts)) ==> times_rise(payload.ts@),
{
    proof {
        law_range_is_named(range);
    }
    let (_, bucket) = range.bounds();
    let mut payload: HistoryPayload = HistoryPayload {
        range: range.name(),
        bucket,
        ts: Vec::new(),
        sensor_grid_v: Vec::new(),
        sensor_grid_ma: Vec::new(),
        sensor_solar_v: Vec::new(),
        sensor_solar_ma: Vec::new(),
        ups_input_v: Vec::new(),
        ups_battery_v: Vec::new(),
        weather_temp_c: Vec::new(),
        weather_cloud_pct: Vec::new(),
        weather_radiation: Vec::new(),
    };
    let mut i: usize = 0;
    while i < rows.len()
        invariant
            i <= rows@.len(),
            payload.range@ == range.spec_name(),
            payload.bucket@ == range.bucket(),
            payload.holds(rows@.take(i as int)),
        decreases rows@.len() - i,
    {
        let row: HistoryRow = rows[i];
        payload.ts.push(row.ts);
        payload.sensor_grid_v.push(row.sensor_grid_v);
        payload.sensor_grid_ma.push(row.sensor_grid_ma);
        payload.sensor_solar_v.push(row.sensor_solar_v);
        payload.sensor_solar_ma.push(row.sensor_solar_ma);
        payload.ups_input_v.push(row.ups_input_v);
        payload.ups_battery_v.push(row.ups_battery_v);
        payload.weather_temp_c.push(row.weather_temp_c);
        payload.weather_cloud_pct.push(row.weather_cloud_pct);
        payload.weather_radiation.push(row.weather_radiation);
        i = i + 1;
        assert(rows@.take(i as int) =~= rows@.take(i - 1).push(row));
        assert(payload.holds(rows@.take(i as int)));
    }
    assert(rows@.take(rows@.len() as int) =~= rows@);
    payload
}

/// An answer is made of its rows and nothing else: it has an entry per row in every
/// column, at the place of the row; a quantity that a bucket lacks leaves a gap there
/// and shifts nothing. Rows whose times rise make an answer whose times rise.
pub proof fn law_history_follows_its_rows(payload: HistoryPayload, rows: Seq<HistoryRow>)
    requires
        payload.holds(rows),
    ensures
        payload.is_even(),
        payload.ts@.len() == rows.len(),
        forall|i: int|
            0 <= i < rows.len() ==> {
                let row = #[trigger] rows[i];
                &&& payload.ts@[i] == row.ts
                &&& payload.sensor_grid_v@[i] == row.sensor_grid_v
                &&& payload.sensor_grid_ma@[i] == row.sensor_grid_ma
                &&& payload.sensor_solar_v@[i] == row.sensor_solar_v
                &&& payload.sensor_solar_ma@[i] == row.sensor_solar_ma
                &&& payload.ups_input_v@[i] == row.ups_input_v
                &&& payload.ups_battery_v@[i] == row.ups_battery_v
                &&& payload.weather_temp_c@[i] == row.weather_temp_c
                &&& payload.weather_cloud_pct@[i] == row.weather_cloud_pct
                &&& payload.weather_radiation@[i] == row.weather_radiation
            },
        (forall|i: int, j: int|
            0 <= i < j < rows.len() ==> (#[trigger] rows[i]).ts < (#[trigger] rows[j]).ts)
            ==> times_rise(payload.ts@),
{
    assert forall|i: int| 0 <= i < rows.len() implies payload.ts@[i] == (#[trigger] rows[i]).ts by {}
    if forall|i: int, j: int|
        0 <= i < j < rows.len() ==> (#[trigger] rows[i]).ts < (#[trigger] rows[j]).ts {
        assert forall|i: int, j: int| 0 <= i < j < payload.ts@.len() implies payload.ts@[i]
            < payload.ts@[j] by {
            assert(rows[i].ts < rows[j].ts);
        }
    }
}

} // verus!
