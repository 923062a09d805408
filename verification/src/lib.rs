//! The rules of the EdgeDB query macros: how the declarations of inserts,
//! selects, updates, deletes, file queries, results, enums, filters and sets are
//! read from the fields and attributes of a struct, what each may and may not
//! say, and the EdgeQL text that each part of a query contributes.
//!
//! A declaration is handed over as plain values (`model`): the fields with their
//! names, types and attributes. Each reader returns the declaration it reads or
//! the first error, and its contract states both exactly.

use vstd::prelude::*;

pub mod model;
pub mod constants;
pub mod error;
pub mod text;
pub mod type_utils;
pub mod attributes_utils;
pub mod meta_data;
pub mod queries;
pub mod tags;
pub mod statements;
pub mod impl_builder;
pub mod insert_query;
pub mod select_query;
pub mod update_query;
pub mod delete_query;
pub mod query_result;
pub mod file_query;
pub mod edgedb_enum;
pub mod edgedb_filters;
pub mod edgedb_sets;
pub mod helpers;
pub mod laws;
pub mod value_laws;

verus! {
} // verus!
