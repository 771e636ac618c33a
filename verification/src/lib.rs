//! Library of the gworkerd job worker: the rules by which it takes jobs from a queue,
//! reports their runs, keeps their records, and answers its monitoring interface.

pub mod text;
pub mod uuid;
pub mod clock;
pub mod config;
pub mod worker;
pub mod processor;
pub mod record_backend;
pub mod result_backend;
pub mod consumer;
pub mod basic_consumer;
pub mod monitor;
pub mod basic_monitor;
