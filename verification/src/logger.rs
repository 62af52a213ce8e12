pub mod logger;
pub mod string;
