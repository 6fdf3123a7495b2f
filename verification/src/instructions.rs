pub mod common;
pub mod initialize;
pub mod proposal;
pub mod query;
pub mod rules;
