//! Planning, sequencing and reporting for an insert benchmark against an
//! embedded relational store.
//!
//! The library decides what has to be done and in which order; a driver
//! performs the work on the file system and on the storage engine and hands
//! back what happened.

pub mod bootstrap;
pub mod error;
pub mod plan;
pub mod protocol;
pub mod record;
pub mod report;
pub mod run;
pub mod text;
pub mod throughput;
pub mod worker;
