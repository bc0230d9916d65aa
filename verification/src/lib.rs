//! Decision logic of a small solar / grid changeover unit.

pub mod auto;
pub mod auto_laws;
pub mod clock;
pub mod clock_laws;
pub mod db;
pub mod decimal;
pub mod decimal_laws;
pub mod decision_laws;
pub mod history;
pub mod history_laws;
pub mod record_laws;
pub mod recorder;
pub mod relay;
pub mod relay_laws;
pub mod routes;
pub mod sensors;
pub mod settings_laws;
pub mod state;
pub mod state_laws;
pub mod text;
pub mod tick;
pub mod tick_laws;
pub mod ups;
pub mod ups_laws;
pub mod watchdog;
pub mod weather;
pub mod weather_laws;
