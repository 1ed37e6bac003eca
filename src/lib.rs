//! Small, fully specified building blocks: decimal text, a described person,
//! a status report, string and slice helpers.
pub mod text;
pub mod person;
pub mod status;
pub mod sequences;
pub mod strings;
pub mod reports;
