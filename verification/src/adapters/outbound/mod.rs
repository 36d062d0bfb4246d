pub mod payment;
pub mod sqlite;
