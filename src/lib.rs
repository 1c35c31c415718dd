//! Measurement harness for program scenarios: the coordination protocol with the
//! child under test, the counter bundles and their aggregation, the per-mode
//! measurement schedules, the output records and the stdout verification.

pub mod text;
pub mod language;
pub mod metric;
pub mod bundle;
pub mod schedule;
pub mod channel;
pub mod outcome;
pub mod record;
pub mod table;
pub mod scenario;
pub mod encoding;
pub mod driver;
pub mod config;
