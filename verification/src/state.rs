pub mod governance;
pub mod proposal;
pub mod rules;
pub mod vote;
