pub mod utils;
pub mod field_tag;
pub mod filter_tag;
pub mod set_tag;
pub mod param_tag;
pub mod value_tag;
pub mod unless_conflict_tag;
pub mod backlink_field_tag;
pub mod result_field_tag;
pub mod builders;
