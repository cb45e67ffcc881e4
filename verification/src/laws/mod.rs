//! What holds of the procedures whatever they are answered.

pub mod change;
pub mod chores;
pub mod claims;
pub mod exclude;
pub mod gc;
pub mod jj;
pub mod lease;
pub mod leases;
pub mod lines;
pub mod listings;
pub mod log;
pub mod names;
pub mod pool;
pub mod pr;
pub mod readings;
pub mod refusals;
pub mod replay;
pub mod reports;
pub mod repos;
pub mod requests;
pub mod reset;
pub mod slots;
pub mod steps;
pub mod wording;
pub mod workspace;
