pub mod digit_vec;
pub mod error;
pub mod laws;
pub mod pesel;
