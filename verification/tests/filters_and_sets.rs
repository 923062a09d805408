use edgedb_query_derive::edgedb_filters::{filter_parts, filter_parts_edgeql, FilterPart};
use edgedb_query_derive::edgedb_sets::{set_parts, set_parts_edgeql, SetPart};
use edgedb_query_derive::edgedb_filters::EdgedbFilters;
use edgedb_query_derive::edgedb_sets::EdgedbSets;
use edgedb_query_derive::model::{AttrMeta, Attribute, FieldDecl, Lit, NestedMeta, PathArgs, RustType};
use edgedb_query_derive::statements::filters::{FilterStatement, QueryFilter, QueryFilterStatement};
use edgedb_query_derive::statements::nested_query::{NestedQueryField, NestedQueryParentType};
use edgedb_query_derive::statements::set::{SetStatement, UpdateSetStatement};

fn ty(name: &str) -> RustType {
    RustType::Path { segments: vec![name.to_string()], first_args: PathArgs::NoArgs }
}

fn wrapped(wrapper: &str, name: &str) -> RustType {
    RustType::Path { segments: vec![wrapper.to_string()], first_args: PathArgs::AngleType(Box::new(ty(name))) }
}

fn field(index: usize, name: &str, t: RustType, attrs: Vec<Attribute>) -> FieldDecl {
    FieldDecl { index, ident: Some(name.to_string()), ty: t, attrs }
}

fn attr(name: &str, args: Vec<(&str, &str)>) -> Attribute {
    Attribute {
        path: vec![name.to_string()],
        meta: AttrMeta::List(
            args.into_iter()
                .map(|(k, v)| NestedMeta::NameValue(vec![k.to_string()], Lit::Str(v.to_string())))
                .collect(),
        ),
    }
}

fn bare(name: &str) -> Attribute {
    Attribute { path: vec![name.to_string()], meta: AttrMeta::Path }
}

fn err_of<T>(r: Result<T, edgedb_query_derive::error::MacroError>) -> String {
    match r {
        Ok(_) => panic!("an error was expected"),
        Err(e) => e.message,
    }
}

fn my_filter_fields() -> Vec<FieldDecl> {
    vec![
        field(
            0,
            "name",
            ty("String"),
            vec![
                attr("field", vec![("column_name", "identity.first_name"), ("param", "first_name")]),
                attr("filter", vec![("operator", "="), ("wrapper_fn", "str_lower")]),
            ],
        ),
        field(1, "age", ty("i8"), vec![attr("and_filter", vec![("operator", ">=")])]),
        field(2, "friends", ty("FindFriends"), vec![bare("nested_query"), attr("and_filter", vec![("operator", "in")])]),
    ]
}

#[test]
pub fn test_filter() {
    let filters = match EdgedbFilters::parse("MyFilter".to_string(), &my_filter_fields()) {
        Ok(f) => f,
        Err(e) => panic!("{}", e.message),
    };
    let nested = vec![
        String::new(),
        String::new(),
        "select default::Person filter default::Person.name like (select <str>$name)".to_string(),
    ];
    let query = match filters.to_edgeql("users::User", &nested) {
        Ok(q) => q,
        Err(e) => panic!("{}", e.message),
    };
    assert_eq!(query, "filter str_lower(users::User.identity.first_name) = (select <str>$first_name) and users::User.age >= (select <int16>$age) and .friends in (select default::Person filter default::Person.name like (select <str>$name))");
    let labels: Vec<String> = filters.filter_statement.get_parameter_labels().into_iter().map(|p| p.1).collect();
    assert_eq!(labels, vec!["first_name", "age", "friends"]);
}

#[test]
pub fn filters_refuse_a_repeated_label() {
    let fields = vec![
        field(0, "name", ty("String"), vec![attr("filter", vec![("operator", "=")])]),
        field(1, "other", ty("String"), vec![attr("field", vec![("param", "name")]), attr("or_filter", vec![("operator", "=")])]),
    ];
    assert_eq!(err_of(EdgedbFilters::parse("F".to_string(), &fields)), "Duplicate parameter label `name`");
}

#[test]
pub fn first_filter_must_be_filter() {
    let fields = vec![field(0, "name", ty("String"), vec![attr("and_filter", vec![("operator", "=")])])];
    assert_eq!(
        err_of(EdgedbFilters::parse("F".to_string(), &fields)),
        "Expected first filter attribute `#[filter(...)]`"
    );
}

#[test]
pub fn later_filter_must_join() {
    let fields = vec![
        field(0, "name", ty("String"), vec![attr("filter", vec![("operator", "=")])]),
        field(1, "age", ty("i32"), vec![attr("filter", vec![("operator", "=")])]),
    ];
    assert_eq!(
        err_of(EdgedbFilters::parse("F".to_string(), &fields)),
        "Expected `and` or `or` filter attribute `#[and_filter(...)]` or `#[or_filter(...)]`"
    );
}

#[test]
pub fn filter_statement_exists_and_in() {
    let name = field(0, "name", RustType::Tuple, vec![attr("filter", vec![("operator", "Exists")])]);
    let f = match QueryFilter::try_from(&name, true, false) {
        Ok(f) => f,
        Err(e) => panic!("{}", e.message),
    };
    assert_eq!(f.build_statement("users::User", false).ok().unwrap(), " exists users::User.name");
    let tags = field(1, "tags", wrapped("Vec", "String"), vec![attr("or_filter", vec![("operator", "In")])]);
    let f = match QueryFilter::try_from(&tags, false, false) {
        Ok(f) => f,
        Err(e) => panic!("{}", e.message),
    };
    assert_eq!(f.build_statement("users::User", false).ok().unwrap(), " or users::User.tags in (select <array<str>>$tags)");
}

#[test]
pub fn like_needs_a_string() {
    let f = field(0, "age", ty("i32"), vec![attr("filter", vec![("operator", "Like")])]);
    assert_eq!(err_of(QueryFilter::try_from(&f, true, false)), "like  operator only accepts a type  String");
}

#[test]
pub fn nested_filter_keeps_its_mark() {
    let f = field(0, "friend", ty("FindFriend"), vec![bare("nested_query"), attr("filter", vec![("operator", "=")])]);
    let mut n = match NestedQueryField::try_from(&f, NestedQueryParentType::Filter(true)) {
        Ok(n) => n,
        Err(e) => panic!("{}", e.message),
    };
    n.set_parent_table_name("users::User".to_string());
    assert_eq!(n.build_statement().ok().unwrap(), " users::User.friend = ($edgeql$)");
    let stmt = FilterStatement::ManyFilter(vec![QueryFilterStatement::NestedQuery(n)]);
    assert_eq!(stmt.get_parameter_labels(), vec![("friend".to_string(), "friend".to_string())]);
}

#[test]
pub fn nested_insert_statement() {
    let f = field(0, "wallet", ty("Wallet"), vec![bare("nested_query")]);
    let n = match NestedQueryField::try_from(&f, NestedQueryParentType::Query) {
        Ok(n) => n,
        Err(e) => panic!("{}", e.message),
    };
    assert_eq!(n.build_statement().ok().unwrap(), "wallet := ($edgeql$), ");
}

fn my_set_fields() -> Vec<FieldDecl> {
    vec![
        field(
            0,
            "name",
            ty("String"),
            vec![
                attr("field", vec![("column_name", "first_name"), ("param", "user_name"), ("scalar", "<str>")]),
                attr("set", vec![("option", "Concat")]),
            ],
        ),
        field(1, "status", ty("Status"), vec![attr("field", vec![("scalar", "default::State")])]),
        field(
            2,
            "users",
            ty("FindUsers"),
            vec![bare("nested_query"), attr("set", vec![("option", ":=")]), attr("field", vec![("column_name", "u")])],
        ),
    ]
}

#[test]
pub fn test_set() {
    let sets = match EdgedbSets::parse("MySet".to_string(), &my_set_fields()) {
        Ok(s) => s,
        Err(e) => panic!("{}", e.message),
    };
    let nested = vec![
        String::new(),
        String::new(),
        "select users::User filter users::User.name = (select <str>$name)".to_string(),
    ];
    assert_eq!(
        "set { first_name := .first_name ++ (select <str>$user_name), status := (select <default::State>$status), u := (select users::User filter users::User.name = (select <str>$name)) }",
        sets.to_edgeql(&nested)
    );
}

#[test]
pub fn push_needs_a_vec() {
    let fields = vec![field(0, "name", ty("String"), vec![attr("set", vec![("option", "push")])])];
    assert_eq!(err_of(EdgedbSets::parse("S".to_string(), &fields)), "Push option only accepts a Vec type");
}

#[test]
pub fn push_on_a_vec() {
    let f = field(0, "tags", wrapped("Vec", "String"), vec![attr("set", vec![("option", "+=")])]);
    let s = match SetStatement::try_from(&f) {
        Ok(s) => s,
        Err(e) => panic!("{}", e.message),
    };
    assert_eq!(s.build_statement(), "tags += (select <array<str>>$tags), ");
}

#[test]
pub fn sets_refuse_other_attributes() {
    let fields = vec![field(0, "name", ty("String"), vec![attr("filter", vec![("operator", "=")])])];
    let r = EdgedbSets::parse("S".to_string(), &fields);
    assert_eq!(err_of(r), "\n    Invalid sets tag.\n    Expected \"set\"\n");
}

#[test]
pub fn sets_labels_skip_nested() {
    let sets = match EdgedbSets::parse("MySet".to_string(), &my_set_fields()) {
        Ok(s) => s,
        Err(e) => panic!("{}", e.message),
    };
    match &sets.set_statement {
        UpdateSetStatement::ManySet(v) => assert_eq!(v.len(), 3),
        _ => panic!("three sets were expected"),
    }
    let labels: Vec<String> = sets.set_statement.get_parameter_labels().into_iter().map(|p| p.1).collect();
    assert_eq!(labels, vec!["user_name", "status"]);
}

#[test]
pub fn set_parts_fill_in_nested_queries() {
    let sets = EdgedbSets::parse("MySet".to_string(), &my_set_fields()).ok().unwrap();
    let parts = set_parts(&sets.set_statement);
    assert_eq!(parts.len(), 3);
    assert!(matches!(&parts[0], SetPart::Fixed(t) if t == "first_name := .first_name ++ (select <str>$user_name), "));
    assert!(matches!(&parts[2], SetPart::Nested(t) if t == "u := ($edgeql$), "));
    let nested = vec![String::new(), String::new(), "select X".to_string()];
    assert_eq!(
        set_parts_edgeql(&parts, &nested),
        "set { first_name := .first_name ++ (select <str>$user_name), status := (select <default::State>$status), u := (select X) }"
    );
}

#[test]
pub fn filter_parts_fill_in_the_table() {
    let filters = EdgedbFilters::parse("MyFilter".to_string(), &my_filter_fields()).ok().unwrap();
    let parts = filter_parts(&filters.filter_statement).ok().unwrap();
    assert_eq!(parts.len(), 3);
    assert!(matches!(&parts[1], FilterPart::Column(t) if t == " and __tablename__.age >= (select <int16>$age)"));
    assert!(matches!(&parts[2], FilterPart::Nested(_)));
    let nested = vec![String::new(), String::new(), "select X".to_string()];
    assert_eq!(
        filter_parts_edgeql(&parts, "users::User", &nested),
        "filter str_lower(users::User.identity.first_name) = (select <str>$first_name) and users::User.age >= (select <int16>$age) and .friends in (select X)"
    );
}
