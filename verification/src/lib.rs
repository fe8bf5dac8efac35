//! Home network speed test.
pub mod color;
pub mod config;
pub mod error;
pub mod history;
pub mod latency;
pub mod net;
pub mod number;
pub mod reading;
pub mod report;
pub mod result;
pub mod run;
pub mod select;
pub mod settings;
pub mod text;
pub mod time;
pub mod transfer;
