use vstd::prelude::*;
use vstd::string::*;

verus! {

// Keywords of attributes and of EdgeQL.
pub const SPACE: &'static str = " ";
pub const SCALAR_TYPE: &'static str = "$scalar_type$";
pub const EDGEQL: &'static str = "$edgeql$";
pub const OPTION: &'static str = "Option";
pub const VEC: &'static str = "Vec";
pub const INSERT: &'static str = "insert";
pub const SELECT: &'static str = "select";
pub const DELETE: &'static str = "delete";
pub const UPDATE: &'static str = "update";
pub const DEFAULT_MODULE: &'static str = "default";
pub const MODULE: &'static str = "module";
pub const TABLE: &'static str = "table";
pub const RESULT: &'static str = "result";
pub const SRC: &'static str = "src";
pub const SCALAR: &'static str = "scalar";
pub const SET: &'static str = "set";
pub const SETS: &'static str = "sets";
pub const OPTIONS: &'static str = "options";
pub const FILTERS: &'static str = "filters";
pub const FILTER: &'static str = "filter";
pub const AND_FILTER: &'static str = "and_filter";
pub const OR_FILTER: &'static str = "or_filter";
pub const OPERATOR: &'static str = "operator";
pub const VALUE: &'static str = "value";
pub const BACKLINK: &'static str = "back_link";
pub const TARGET_TABLE: &'static str = "target_table";
pub const SOURCE_TABLE: &'static str = "source_table";
pub const TARGET_COLUMN: &'static str = "target_column";
pub const FIELD: &'static str = "field";
pub const WRAPPER_FN: &'static str = "wrapper_fn";
pub const COLUMN_NAME: &'static str = "column_name";
pub const DEFAULT_VALUE: &'static str = "default_value";
pub const SET_OPTION: &'static str = "option";
pub const LINK_PROPERTY: &'static str = "link_property";
pub const NESTED_QUERY: &'static str = "nested_query";
pub const LIMIT_1: &'static str = " limit 1";
pub const UNLESS_CONFLICT: &'static str = "unless_conflict";
pub const PARAM: &'static str = "param";
pub const AND: &'static str = " and";
pub const OR: &'static str = " or";
pub const AT: &'static str = "@";
pub const ID: &'static str = "id";
pub const TYPE: &'static str = "type";
pub const ENUM: &'static str = "enum";
pub const NAME: &'static str = "name";
pub const BASIC_RESULT: &'static str = "BasicResult";
pub const META: &'static str = "meta";
pub const QUERY: &'static str = "query";
pub const CONJUNCTIVE: &'static str = "conjunctive";
pub const ORDER_BY: &'static str = "order_by";
pub const ORDER_DIR: &'static str = "order_dir";
pub const LIMIT: &'static str = "limit";
pub const ASSIGNMENT: &'static str = "assignment";
pub const TABLENAME_MARK: &'static str = "__tablename__";
pub const PARAM_PATTERN: &'static str = "\\B(\\$\\w+)\\b";

/// The message for a parameter pattern that does not compile.
pub const INVALID_PARAM_PATTERN: &'static str = "The query parameter pattern is not a valid regular expression";

// Operators of filters.
pub const EXISTS: &'static str = "exists";
pub const NOT_EXISTS: &'static str = "notexists";
pub const BANG_EXISTS: &'static str = "!exists";
pub const IS: &'static str = "is";
pub const EQUAL: &'static str = "=";
pub const IS_NOT: &'static str = "isnot";
pub const NOT_EQUAL: &'static str = "!=";
pub const LIKE: &'static str = "like";
pub const ILIKE: &'static str = "ilike";
pub const STRING: &'static str = "String";
pub const IN: &'static str = "in";
pub const NOT_IN: &'static str = "notin";
pub const GREATER_THAN: &'static str = "greaterthan";
pub const GREATER_THAN_OR_EQUAL: &'static str = "greaterthanorequal";
pub const SUP_SIGN: &'static str = ">";
pub const SUP_OR_EQ_SIGN: &'static str = ">=";
pub const LESSER_THAN: &'static str = "lesserthan";
pub const LESSER_THAN_OR_EQUAL: &'static str = "lesserthanorequal";
pub const INF_SIGN: &'static str = "<";
pub const INF_OR_EQ_SIGN: &'static str = "<=";

// Options of sets.
pub const ASSIGN: &'static str = "assign";
pub const ASSIGN_SIGN: &'static str = ":=";
pub const CONCAT: &'static str = "concat";
pub const CONCAT_SIGN: &'static str = "++";
pub const PUSH: &'static str = "push";
pub const PUSH_SIGN: &'static str = "+=";

// Messages.
pub const EXPECT_META: &'static str = "Expected a meta attribute";
pub const EXPECT_NON_EMPTY_LIT: &'static str = "Expected a non-empty string literal";
pub const EXPECT_LIT: &'static str = "Expected a string literal";
pub const EXPECT_TABLE: &'static str = "Expected a table name";
pub const EXPECT_SRC: &'static str = "Expected a src value";
pub const EXPECT_VALUE: &'static str = "Expected a query value";
pub const EXPECT_OPERATOR: &'static str = "Expected filter operator attribute `#[filter(operator = \"...\")]`";
pub const UNSUPPORTED_ATTRIBUTE: &'static str = "Unsupported attribute";
pub const FIRST_FILTER_EXPECTED: &'static str = "Expected first filter attribute `#[filter(...)]`";
pub const AND_OR_FILTER_EXPECTED: &'static str = "Expected `and` or `or` filter attribute `#[and_filter(...)]` or `#[or_filter(...)]`";
pub const ONLY_ONE_KIND_OF_TAG_EXPECTED: &'static str = "Only one of the following tags is expected";
pub const INVALID_INSERT_TAG: &'static str = "\n    Invalid insert field tag.\n    Expected \"field\", \"nested_query\" or \"unless_conflict\"\n";
pub const INVALID_FIELD_TAG: &'static str = "\n    Invalid field tag option.\n    Expected \"column_name\" , \"param\" or \"scalar\"\n";
pub const INVALID_BACKLINK_TAG: &'static str = "\n    Invalid backlink tag option.\n    Expected \"module\" , \"source_table\", \"target_table\", \"target_column\" or \"result\"\n";
pub const INVALID_SELECT_TAG: &'static str = "\n    Invalid select field tag.\n    Expected \"filter\", \"and_filter\", \"or_filter\", \"filters\" or \"options\"\n";
pub const INVALID_UPDATE_TAG: &'static str = "\n    Invalid update field tag.\n    Expected \"filter\", \"and_filter\", \"or_filter\", \"filters\", \"set\" or \"sets\"\n";
pub const INVALID_FILTER_TAG: &'static str = "\n    Invalid filter tag option.\n    Expected \"operator\", or \"wrapper_fn\"\n";
pub const INVALID_SET_OPTION: &'static str = "\n    Invalid set option.\n    Expected \"assign\", \"=\", \"concat\", \"++\" , \"push\" or \"+=\"\n";
pub const INVALID_SET_TAG_OPTION: &'static str = "\n    Invalid set tag option.\n    Expected \"option\"\n";
pub const INVALID_RESULT_FIELD_TAG: &'static str = "\n    Invalid result's field tag.\n    Expected \"field\", \"back_link\" or nothing\n";
pub const INVALID_ENUM_VARIANT_TAG: &'static str = "\n    Invalid enum's variant tag.\n    Expected \"value\"\n";
pub const INVALID_DELETE_TAG: &'static str = "\n    Invalid delete field tag.\n    Expected \"filter\", \"and_filter\", \"or_filter\"or \"filters\"\n";
pub const INVALID_FILTERS_TAG: &'static str = "\n    Invalid filters field tag.\n    Expected \"filter\", \"and_filter\" or \"or_filter\"\n";
pub const INVALID_SETS_TAG: &'static str = "\n    Invalid sets tag.\n    Expected \"set\"\n";
pub const PUSH_OPTION_ONLY_FOR_VEC: &'static str = "Push option only accepts a Vec type";
pub const EXPECT_LIT_OR_NAMED_LIT: &'static str = "Expected a literal or a named string literal";
pub const EXPECT_NAMED_LIT: &'static str = "Expected a named string literal";
pub const EXPECT_LIT_STR: &'static str = "Expected a string literal";
pub const EXPECT_LIT_BOOL: &'static str = "Expected a boolean literal";
pub const INVALID_TYPE_TUPLE_FOR_OPERATOR: &'static str = "Invalid type () for operator";
pub const ONLY_TYPE_FOR_OPERATOR: &'static str = " operator only accepts a type ";
pub const INVALID_OPERATOR: &'static str = "\n    Invalid operator.\n    Expected \"Exists\", \"NotExists\", \"Is\", \"IsNot\", \"Like\", \"ILike\", \"In\", \"NotIn\", \"GreaterThan\", \"GreaterThanOrEqual\", \"LesserThan\", \"LesserThanOrEqual\"\n ";
pub const EXPECTED_ONLY_TAGS: &'static str = "Expected only the following tags";
pub const ONLY_ONE_OPTIONS_TAG_EXPECTED: &'static str = "SelectQuery can only have one options field";
pub const ONLY_ONE_FILTERS_TAG_EXPECTED: &'static str = "SelectQuery can only have one filters field";
pub const ONLY_ONE_SETS_TAG_EXPECTED: &'static str = "UpdateQuery can only have one sets field";
pub const EITHER_ONE_FILTERS_OR_FILTER_TAG_EXPECTED: &'static str = "SelectQuery can only have either one `filters` or one or more `filter` fields";
pub const EITHER_ONE_SETS_OR_SET_TAG_EXPECTED: &'static str = "UpdateQuery can only have either one `sets` or one or more `set` or `nested_query` fields";
pub const EXPECTED_AT_LEAST_ONE_SET_FIELD: &'static str = "UpdateQuery must have at least one field with #[set] attribute or with no attribute";
pub const EXPECTED_ID_FIELD: &'static str = "Expected an `id` field";
pub const LINK_PROPERTY_NAME: &'static str = "Only link property column can have name starting with @";
pub const ONLY_ONE_UNLESS_CONFLICT: &'static str = "InsertQuery can only have one unless_conflict field";


/// The attributes of EdgeDB types, each with the (value, option) pair that it
/// may carry: `type` with (`enum`, `name`), and `result` with none.
pub fn edgedb_attributes() -> (r: Vec<(String, Option<(String, String)>)>)
    ensures
        r@.len() == 2,
        r@[0].0@ == TYPE@,
        r@[0].1 matches Some(p) && p.0@ == ENUM@ && p.1@ == NAME@,
        r@[1].0@ == RESULT@,
        r@[1].1 is None,
{
    let mut hlps: Vec<(String, Option<(String, String)>)> = Vec::new();
    hlps.push((String::from_str(TYPE), Some((String::from_str(ENUM), String::from_str(NAME)))));
    hlps.push((String::from_str(RESULT), None));
    hlps
}

} // verus!
