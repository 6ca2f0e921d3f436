//! Verified core of a mailer that reads occurrence records from per-company
//! databases and sends one e-mail per occurrence.

pub mod error;
pub mod text;
pub mod datetime;
pub mod chunks;
pub mod ini;
pub mod email;
pub mod table;
pub mod operation;
pub mod report;

pub use error::{MissignFieldError, TableProcessError};
