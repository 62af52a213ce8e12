pub mod number;
