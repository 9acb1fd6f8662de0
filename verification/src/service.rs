pub mod parse;
pub mod transaction;
