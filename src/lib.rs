//! A harness for benchmarking object-store downloads: a shared budget of work
//! units that workers claim one at a time, the totals each worker keeps, and
//! the report that folds them into one line per run.
pub mod budget;
pub mod key;
pub mod report;
pub mod sweep;
pub mod worker;
