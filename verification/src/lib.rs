pub mod arrow;
pub mod config;
pub mod error;
pub mod metadata;
pub mod partitioning;
pub mod physical_plan;
pub mod predicate;
pub mod table;
pub mod task;
pub mod text;
