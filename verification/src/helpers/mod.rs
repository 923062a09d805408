pub mod explore;
pub mod attributes;
