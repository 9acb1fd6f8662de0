pub mod base;
pub mod id;
pub mod memory;
pub mod model;
pub mod session;
