//! Verified core of the TPT Ignis plasma-diagnostics suite.

pub mod halo;
pub mod msgpack;
pub mod oracle;
pub mod schema;
pub mod text;
pub mod topology;
pub mod udf;
pub mod ui;
pub mod ui_laws;
pub mod widgets;
pub mod units;
