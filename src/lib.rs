//! Alerting core for a time-series metrics store: compiles alert lookups to
//! SQL, evaluates thresholds, drives the incident lifecycle, keeps the
//! registry of running alert tasks and reconciles it with a change feed.

pub mod alert;
pub mod query;
pub mod text;
pub mod incident;
pub mod threshold;
pub mod registry;
pub mod cdc;
pub mod mail;
pub mod monitor;
pub mod supervise;
