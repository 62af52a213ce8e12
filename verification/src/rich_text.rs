pub mod colorize;
pub mod format;
pub mod text;
