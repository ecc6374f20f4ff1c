//! Sequential capture of table rows into a tamper-evident hash chain,
//! with canonical JSON records ready to be anchored in a content-addressed store.

pub mod decimal;
pub mod cell;
pub mod chain;
pub mod record;
pub mod cursor;
pub mod pipeline;
