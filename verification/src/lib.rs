//! Bank-statement transactions: the domain model, the capability traits that a
//! storage backend implements, a service facade over one backend, and the
//! ingestion of statement rows into that service.

pub mod database;
pub mod import;
pub mod models;
pub mod reader;
pub mod service;
pub mod statement;
