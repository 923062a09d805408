pub mod set;
pub mod filters;
pub mod nested_query;
