//! In-memory student records: the categorical types [`data::Gender`] and
//! [`data::GradeLevel`] with their display-name mappings, the flat
//! [`data::Student`] record, and its validating constructor.

pub mod data;
