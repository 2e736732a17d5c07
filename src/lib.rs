//! Desktop activity tracking: turns a stream of foreground-window samples
//! into attributed usage records.

pub mod parser;
pub mod platform;
pub mod resolver;
pub mod schedule;
pub mod segmenter;
pub mod text;
pub mod timestamp;
pub mod tracker;
pub mod usage;
