//! Bookkeeping for a small company: its employees, their roles, and the
//! vacation-day balance that each of them draws on.
pub mod company;
pub mod enums;
pub mod errors;
pub mod structs;

pub use company::Company;
pub use structs::{Employee, Person};
