//! Helpers for command-line programs: a verbosity level that maps to a log
//! filter, and a timestamp that accepts epoch seconds, epoch milliseconds or
//! the English output of `date`.

pub mod decimal;
pub mod offsets;
pub mod error;
pub mod timestamp;
pub mod verbosity;

pub use error::Error;
pub use offsets::tz_name_to_offset;
pub use timestamp::Timestamp;
pub use verbosity::{select_log_level_filter, LogLevel, Verbosity};
