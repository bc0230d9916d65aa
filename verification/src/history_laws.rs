//! What the history is asked for.

use vstd::prelude::*;

use crate::history::{SQL_AFTER_BUCKET, SQL_BEFORE_BUCKET, SQL_BEFORE_WINDOW};

verus! {

/// The query has a row per bucket of the window, by time, whether anything was measured in
/// it or not. It averages voltage and current of the sensors 64 and 65, input and battery
/// voltage of the power supply, and temperature, cloud cover and irradiance.
pub proof fn law_query_averages_every_quantity()
    ensures
        SQL_BEFORE_WINDOW@ == r#"
WITH params AS (
    SELECT
        now() - INTERVAL '"#@,
        SQL_BEFORE_BUCKET@ == r#"' AS since,
        INTERVAL '"#@,
        SQL_AFTER_BUCKET@ == r#"' AS bsize
),
axis AS (
    SELECT date_bin((SELECT bsize FROM params), g, TIMESTAMPTZ 'epoch') AS ts
    FROM (SELECT (SELECT since FROM params) AS s, now() AS e) p,
    LATERAL generate_series(p.s, p.e, (SELECT bsize FROM params)) g
    GROUP BY 1
),
s40 AS (
    SELECT date_bin((SELECT bsize FROM params), ts, TIMESTAMPTZ 'epoch') AS b,
           AVG(bus_v)::REAL AS v, AVG(current_ma)::REAL AS ma
    FROM sensor_samples
    WHERE ts > (SELECT since FROM params) AND address = 64
    GROUP BY b
),
s41 AS (
    SELECT date_bin((SELECT bsize FROM params), ts, TIMESTAMPTZ 'epoch') AS b,
           AVG(bus_v)::REAL AS v, AVG(current_ma)::REAL AS ma
    FROM sensor_samples
    WHERE ts > (SELECT since FROM params) AND address = 65
    GROUP BY b
),
u AS (
    SELECT date_bin((SELECT bsize FROM params), ts, TIMESTAMPTZ 'epoch') AS b,
           AVG(input_v)::REAL AS input_v, AVG(battery_v)::REAL AS battery_v
    FROM ups_samples
    WHERE ts > (SELECT since FROM params)
    GROUP BY b
),
w AS (
    SELECT date_bin((SELECT bsize FROM params), ts, TIMESTAMPTZ 'epoch') AS b,
           AVG(temp_c)::REAL AS temp_c,
           AVG(cloud_cover_pct)::REAL AS cloud_pct,
           AVG(shortwave_wm2)::REAL AS radiation
    FROM weather_samples
    WHERE ts > (SELECT since FROM params)
    GROUP BY b
)
SELECT
    axis.ts AS ts,
    s40.v AS s40_v, s40.ma AS s40_ma,
    s41.v AS s41_v, s41.ma AS s41_ma,
    u.input_v AS ups_in_v, u.battery_v AS ups_batt_v,
    w.temp_c AS w_temp, w.cloud_pct AS w_cloud, w.radiation AS w_rad
FROM axis
LEFT JOIN s40 ON s40.b = axis.ts
LEFT JOIN s41 ON s41.b = axis.ts
LEFT JOIN u   ON u.b   = axis.ts
LEFT JOIN w   ON w.b   = axis.ts
ORDER BY axis.ts
"#@,
{
}

} // verus!
