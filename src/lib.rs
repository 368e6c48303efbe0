//! Classification and ranking of issue-tracker records gathered from the
//! repositories of one owner.

pub mod component;
pub mod date;
pub mod issue;
pub mod rank;
pub mod pipeline;
pub mod laws;
pub mod row;
