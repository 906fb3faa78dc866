//! An immutable, singly linked chain of customer records with shared
//! ownership. A record is identified by its `uuid` alone.

pub mod laws;
pub mod record;
pub mod traversal;
