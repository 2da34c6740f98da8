//! Verified core of a catalog dump pipeline: decoding of delimited catalog
//! tables into typed records, a bounded-concurrency fetch planner, and a
//! transactional loader that inserts records in dependency order.

pub mod types;
pub mod record;
pub mod catalog;
pub mod decode;
pub mod db;
pub mod fetch;
