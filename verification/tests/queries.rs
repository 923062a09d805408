use edgedb_query_derive::delete_query::DeleteQuery;
use edgedb_query_derive::file_query::FileQuery;
use edgedb_query_derive::impl_builder::{FieldCat, QueryPiece};
use edgedb_query_derive::insert_query::InsertQuery;
use edgedb_query_derive::meta_data::{DataType, QueryMetaData, QueryMetaDataBuilder, SourceRead, SrcFile, SrcValue, TableInfo, TableInfoBuilder};
use edgedb_query_derive::model::{AttrMeta, Attribute, FieldDecl, Lit, NestedMeta, PathArgs, RustType};
use edgedb_query_derive::select_query::SelectQuery;
use edgedb_query_derive::update_query::UpdateQuery;

fn ty(name: &str) -> RustType {
    RustType::Path { segments: vec![name.to_string()], first_args: PathArgs::NoArgs }
}

fn wrapped(wrapper: &str, name: &str) -> RustType {
    RustType::Path { segments: vec![wrapper.to_string()], first_args: PathArgs::AngleType(Box::new(ty(name))) }
}

fn field(index: usize, name: &str, t: RustType, attrs: Vec<Attribute>) -> FieldDecl {
    FieldDecl { index, ident: Some(name.to_string()), ty: t, attrs }
}

fn attr(name: &str, args: Vec<(&str, &str)>) -> Attribute {
    Attribute {
        path: vec![name.to_string()],
        meta: AttrMeta::List(
            args.into_iter()
                .map(|(k, v)| NestedMeta::NameValue(vec![k.to_string()], Lit::Str(v.to_string())))
                .collect(),
        ),
    }
}

fn bare(name: &str) -> Attribute {
    Attribute { path: vec![name.to_string()], meta: AttrMeta::Path }
}

fn param(v: &str) -> Attribute {
    Attribute { path: vec!["param".to_string()], meta: AttrMeta::List(vec![NestedMeta::Lit(Lit::Str(v.to_string()))]) }
}

fn args(v: Vec<(&str, &str)>) -> Vec<(String, Lit)> {
    v.into_iter().map(|(k, x)| (k.to_string(), Lit::Str(x.to_string()))).collect()
}

fn err_of<T>(r: Result<T, edgedb_query_derive::error::MacroError>) -> String {
    match r {
        Ok(_) => panic!("an error was expected"),
        Err(e) => e.message,
    }
}

fn insert_fields() -> Vec<FieldDecl> {
    vec![
        field(0, "name", ty("String"), vec![attr("field", vec![("param", "first_name")])]),
        field(1, "surname", wrapped("Option", "String"), vec![]),
        field(2, "age", ty("i32"), vec![]),
        field(3, "major", ty("bool"), vec![]),
        field(4, "vs", wrapped("Vec", "String"), vec![]),
        field(5, "gender", ty("Sex"), vec![attr("field", vec![("scalar", "<users::Gender>")])]),
        field(6, "wallet", ty("Wallet"), vec![bare("nested_query")]),
        field(7, "find_user", wrapped("UnlessConflictElse", "FindUser"), vec![attr("unless_conflict", vec![("on", "name, surname")])]),
    ]
}

#[test]
pub fn insert_user_statements() {
    let q = match InsertQuery::parse("InsertUser".to_string(), &insert_fields()) {
        Ok(q) => q,
        Err(e) => panic!("{}", e.message),
    };
    let labels: Vec<String> = q.get_param_labels().into_iter().map(|p| p.1).collect();
    assert_eq!(labels, vec!["first_name", "surname", "age", "major", "vs", "gender"]);
    assert_eq!(q.unless_conflict_statement.as_ref().unwrap().on_fields(), "name,surname");
    let fields = q.impl_fields();
    assert_eq!(fields.len(), 8);
    assert!(matches!(fields[6].field_cat, FieldCat::Nested));
    assert!(matches!(fields[7].field_cat, FieldCat::Conflict));
    match &fields[0].field_cat {
        FieldCat::Simple(p) => assert_eq!(p, "first_name"),
        _ => panic!("a parameter was expected"),
    }
}

#[test]
pub fn insert_init_edgeql() {
    let mut q = match InsertQuery::parse("InsertUser".to_string(), &insert_fields()) {
        Ok(q) => q,
        Err(e) => panic!("{}", e.message),
    };
    assert_eq!(err_of(q.init_edgeql()), "Expected a meta attribute");
    let meta = QueryMetaData::parse(&args(vec![("module", "users"), ("table", "User"), ("result", "UserResult")])).ok().unwrap();
    q.with_meta(meta);
    assert_eq!(q.init_edgeql().ok().unwrap(), "select ( insert users::User {");
    let meta = QueryMetaData::parse(&args(vec![("table", "User")])).ok().unwrap();
    q.with_meta(meta);
    assert_eq!(q.init_edgeql().ok().unwrap(), "insert default::User {");
}

#[test]
pub fn insert_refuses_an_unknown_conflict_column() {
    let fields = vec![
        field(0, "name", ty("String"), vec![]),
        field(1, "find", ty("Find"), vec![attr("unless_conflict", vec![("on", "name, age")])]),
    ];
    assert_eq!(
        err_of(InsertQuery::parse("I".to_string(), &fields)),
        "Following names are not column names : [\n    \"age\",\n]"
    );
}

#[test]
pub fn insert_refuses_two_conflict_fields() {
    let fields = vec![
        field(0, "a", ty("A"), vec![attr("unless_conflict", vec![("on", "x")])]),
        field(1, "b", ty("B"), vec![attr("unless_conflict", vec![("on", "x")])]),
    ];
    assert_eq!(err_of(InsertQuery::parse("I".to_string(), &fields)), "InsertQuery can only have one unless_conflict field");
}

#[test]
pub fn insert_refuses_other_tags_and_repeated_labels() {
    let fields = vec![field(0, "a", ty("String"), vec![attr("filter", vec![("operator", "=")])])];
    assert_eq!(
        err_of(InsertQuery::parse("I".to_string(), &fields)),
        "\n    Invalid insert field tag.\n    Expected \"field\", \"nested_query\" or \"unless_conflict\"\n"
    );
    let fields = vec![
        field(0, "a", ty("String"), vec![]),
        field(1, "b", ty("String"), vec![attr("field", vec![("param", "a")])]),
    ];
    assert_eq!(err_of(InsertQuery::parse("I".to_string(), &fields)), "Duplicate parameter label `a`");
}

#[test]
pub fn insert_statement_of_a_column() {
    let q = match InsertQuery::parse("I".to_string(), &vec![field(0, "age", ty("i16"), vec![attr("field", vec![("column_name", "years")])])]) {
        Ok(q) => q,
        Err(e) => panic!("{}", e.message),
    };
    match &q.statements[0] {
        edgedb_query_derive::insert_query::InsertStatement::SimpleField(f) => {
            assert_eq!(f.build_statement(), "years := (select <int16>$age), ")
        },
        _ => panic!("a column was expected"),
    }
    let q = match InsertQuery::parse("I".to_string(), &vec![field(0, "age", ty("u8"), vec![attr("field", vec![("scalar", "<int16>")])])]) {
        Ok(q) => q,
        Err(e) => panic!("{}", e.message),
    };
    match &q.statements[0] {
        edgedb_query_derive::insert_query::InsertStatement::SimpleField(f) => {
            assert_eq!(f.build_statement(), "age := (select <int16>$age), ")
        },
        _ => panic!("a column was expected"),
    }
}

#[test]
pub fn select_with_options_and_filters() {
    let fields = vec![
        field(0, "options", ty("SelectOptions"), vec![bare("options")]),
        field(1, "name", ty("String"), vec![attr("filter", vec![("operator", "Is")])]),
        field(2, "age", ty("i16"), vec![attr("or_filter", vec![("operator", "<")])]),
    ];
    let q = match SelectQuery::parse("FindUsers".to_string(), &fields) {
        Ok(q) => q,
        Err(e) => panic!("{}", e.message),
    };
    assert!(q.options.is_some());
    assert!(!q.options.as_ref().unwrap().is_optional());
    let f = q.impl_fields();
    assert_eq!(f.len(), 3);
    assert!(matches!(f[2].field_cat, FieldCat::Ignore));
}

#[test]
pub fn select_refuses_two_options_and_mixed_filters() {
    let fields = vec![
        field(0, "a", ty("O"), vec![bare("options")]),
        field(1, "b", ty("O"), vec![bare("options")]),
    ];
    assert_eq!(err_of(SelectQuery::parse("S".to_string(), &fields)), "SelectQuery can only have one options field");
    let fields = vec![
        field(0, "f", ty("MyFilter"), vec![bare("filters")]),
        field(1, "name", ty("String"), vec![attr("filter", vec![("operator", "Is")])]),
    ];
    assert_eq!(
        err_of(SelectQuery::parse("S".to_string(), &fields)),
        "SelectQuery can only have either one `filters` or one or more `filter` fields"
    );
    let fields = vec![field(0, "f", ty("MyFilter"), vec![bare("filters")]), field(1, "g", ty("MyFilter"), vec![bare("filters")])];
    assert_eq!(err_of(SelectQuery::parse("S".to_string(), &fields)), "SelectQuery can only have one filters field");
}

#[test]
pub fn update_needs_a_set() {
    let fields = vec![field(0, "name", ty("String"), vec![attr("filter", vec![("operator", "Is")])])];
    assert_eq!(
        err_of(UpdateQuery::parse("U".to_string(), &fields)),
        "UpdateQuery must have at least one field with #[set] attribute or with no attribute"
    );
}

#[test]
pub fn update_filters_then_sets() {
    let fields = vec![
        field(0, "name", ty("String"), vec![]),
        field(1, "age", ty("i16"), vec![attr("set", vec![("option", "assign")])]),
        field(2, "user_name", ty("String"), vec![attr("field", vec![("column_name", "name")]), attr("filter", vec![("operator", "Is")])]),
    ];
    let mut q = match UpdateQuery::parse("U".to_string(), &fields) {
        Ok(q) => q,
        Err(e) => panic!("{}", e.message),
    };
    let labels: Vec<String> = q.get_param_labels().into_iter().map(|p| p.1).collect();
    assert_eq!(labels, vec!["user_name", "name", "age"]);
    q.with_meta(QueryMetaData::parse(&args(vec![("module", "users"), ("table", "User")])).ok().unwrap());
    assert_eq!(q.init_edgeql().ok().unwrap(), "update users::User");
    assert_eq!(q.impl_fields().len(), 3);
}

#[test]
pub fn delete_with_filters() {
    let fields = vec![field(0, "name", ty("String"), vec![attr("filter", vec![("operator", "Is")])])];
    let mut q = match DeleteQuery::parse("D".to_string(), &fields) {
        Ok(q) => q,
        Err(e) => panic!("{}", e.message),
    };
    q.with_meta(TableInfo::parse(&args(vec![("module", "users"), ("table", "User")])).ok().unwrap());
    assert_eq!(q.meta.as_ref().unwrap().table_name(), "users::User");
    assert_eq!(q.get_param_labels(), vec![("name".to_string(), "name".to_string())]);
    let fields = vec![field(0, "name", ty("String"), vec![attr("set", vec![])])];
    assert_eq!(
        err_of(DeleteQuery::parse("D".to_string(), &fields)),
        "\n    Invalid delete field tag.\n    Expected \"filter\", \"and_filter\", \"or_filter\"or \"filters\"\n"
    );
}

#[test]
pub fn meta_arguments() {
    assert_eq!(err_of(TableInfo::parse(&args(vec![("module", "users")]))), "Expected a table name");
    assert_eq!(err_of(TableInfo::parse(&args(vec![("result", "R")]))), "Unsupported attribute `result`");
    assert_eq!(err_of(TableInfo::parse(&args(vec![("table", "")]))), "Expected a non-empty string literal");
    let bad = vec![("table".to_string(), Lit::Bool(true))];
    assert_eq!(err_of(TableInfo::parse(&bad)), "Expected a string literal");
    let m = QueryMetaData::parse(&args(vec![("table", "User"), ("result", "R")])).ok().unwrap();
    assert!(m.has_result());
    assert_eq!(m.result(), "R");
    assert_eq!(m.table_name(), "default::User");
    let f = SrcFile::parse(&args(vec![("src", "q.edgeql")])).ok().unwrap();
    assert_eq!(f.0, "q.edgeql");
    assert_eq!(err_of(SrcFile::parse(&args(vec![]))), "Expected a src value");
    let v = SrcValue::parse(&args(vec![("value", "select 1")])).ok().unwrap();
    assert_eq!(v.get_content().ok().unwrap(), "select 1");
    assert_eq!(err_of(SrcValue::parse(&args(vec![("src", "x")]))), "Unsupported attribute `src`");
}

fn file_fields() -> Vec<FieldDecl> {
    vec![
        field(0, "name", ty("String"), vec![param("user_name")]),
        field(1, "age", ty("i16"), vec![]),
        field(2, "friend", ty("String"), vec![param("friend_name")]),
    ]
}

#[test]
pub fn file_query_parameters() {
    let q = match FileQuery::parse("AddUser".to_string(), &file_fields()) {
        Ok(q) => q,
        Err(e) => panic!("{}", e.message),
    };
    assert_eq!(q.param_values(), vec!["user_name", "age", "friend_name"]);
    let content = "insert users::User { name := <str>$user_name, age := <int16>$age, friend := (select users::User filter .name = <str>$friend_name) }";
    assert!(q.validate(content).is_ok());
    assert!(std::ptr::eq(q.validate(content).ok().unwrap(), &q));
    let swapped = "insert users::User { age := <int16>$age, name := <str>$user_name, friend := (select users::User filter .name = <str>$friend_name) }";
    assert_eq!(err_of(q.validate(swapped)), "Query parameters must be in the same order as struct attributes");
    let missing = "insert users::User { name := <str>$user_name, age := <int16>$age }";
    assert_eq!(
        err_of(q.validate(missing)),
        "\n                    Following struct attributes do not appear as query parameters : [\n    \"friend_name\",\n]\n                "
    );
    let extra = "insert users::User { name := <str>$user_name, age := <int16>$age, x := <str>$other, friend := <str>$friend_name }";
    assert_eq!(
        err_of(q.validate(extra)),
        "\n                    Following query parameters do not appear as struct attribute : [\n    \"other\",\n]\n                "
    );
}

#[test]
pub fn source_file_reading() {
    let f = SrcFile("q.edgeql".to_string());
    assert_eq!(f.get_content(SourceRead::Content("select 1".to_string())).ok().unwrap(), "select 1");
    assert_eq!(err_of(f.get_content(SourceRead::Content(String::new()))), "Source file content cannot be empty");
    assert_eq!(err_of(f.get_content(SourceRead::NotFound("/x/q.edgeql".to_string()))), "Source file '/x/q.edgeql' is not found");
    assert_eq!(err_of(f.get_content(SourceRead::ReadFailed)), "Cannot read source file");
    assert_eq!(err_of(f.get_content(SourceRead::NoCurrentDir)), "Failed to retrieve current project dir ");
}

#[test]
pub fn meta_builders_keep_their_kinds() {
    let mut b = TableInfoBuilder::new();
    b.arg(DataType::Result, "R".to_string());
    assert_eq!(err_of(b.build()), "Expected a table name");
    b.arg(DataType::Table, "User".to_string());
    let t = b.build().ok().unwrap();
    assert_eq!(t.table_name(), "default::User");
    let mut q = QueryMetaDataBuilder::new();
    q.arg(DataType::Table, "User".to_string());
    q.arg(DataType::Module, "users".to_string());
    q.arg(DataType::Result, "R".to_string());
    let m = q.build().ok().unwrap();
    assert_eq!(m.table_name(), "users::User");
    assert_eq!(m.result, Some("R".to_string()));
}

fn pieces_text(r: Result<Vec<QueryPiece>, edgedb_query_derive::error::MacroError>) -> Vec<String> {
    match r {
        Err(e) => panic!("{}", e.message),
        Ok(v) => v
            .into_iter()
            .map(|p| match p {
                QueryPiece::Text(t) => format!("text:{}", t),
                QueryPiece::Statement(i) => format!("statement:{}", i),
                QueryPiece::Conflict => "conflict".to_string(),
                QueryPiece::Filters => "filters".to_string(),
                QueryPiece::Sets => "sets".to_string(),
                QueryPiece::Options => "options".to_string(),
                QueryPiece::Shape => "shape".to_string(),
            })
            .collect(),
    }
}

#[test]
pub fn query_pieces_in_order() {
    let mut q = InsertQuery::parse("InsertUser".to_string(), &insert_fields()).ok().unwrap();
    assert_eq!(err_of(q.edgeql_pieces()), "Expected a meta attribute");
    q.with_meta(QueryMetaData::parse(&args(vec![("module", "users"), ("table", "User"), ("result", "UserResult")])).ok().unwrap());
    assert_eq!(
        pieces_text(q.edgeql_pieces()),
        vec![
            "text:select ( insert users::User {", "statement:0", "statement:1", "statement:2", "statement:3", "statement:4",
            "statement:5", "statement:6", "text:}", "conflict", "text: )", "shape",
        ]
    );
    let mut plain = InsertQuery::parse("I".to_string(), &vec![field(0, "name", ty("String"), vec![])]).ok().unwrap();
    plain.with_meta(QueryMetaData::parse(&args(vec![("table", "User")])).ok().unwrap());
    assert_eq!(pieces_text(plain.edgeql_pieces()), vec!["text:insert default::User {", "statement:0", "text:}"]);

    let fields = vec![
        field(0, "options", ty("SelectOptions"), vec![bare("options")]),
        field(1, "name", ty("String"), vec![attr("filter", vec![("operator", "Is")])]),
    ];
    let mut s = SelectQuery::parse("FindUsers".to_string(), &fields).ok().unwrap();
    assert_eq!(err_of(s.edgeql_pieces()), "Expected a meta attribute");
    s.with_meta(QueryMetaData::parse(&args(vec![("module", "users"), ("table", "User"), ("result", "UserResult")])).ok().unwrap());
    assert_eq!(pieces_text(s.edgeql_pieces()), vec!["shape", "text: ", "filters", "options"]);
    let mut bare_select = SelectQuery::parse("All".to_string(), &vec![]).ok().unwrap();
    bare_select.with_meta(QueryMetaData::parse(&args(vec![("table", "User")])).ok().unwrap());
    assert!(pieces_text(bare_select.edgeql_pieces()).is_empty());

    let fields = vec![
        field(0, "age", ty("i16"), vec![attr("set", vec![("option", "assign")])]),
        field(1, "name", ty("String"), vec![attr("filter", vec![("operator", "Is")])]),
    ];
    let mut u = UpdateQuery::parse("U".to_string(), &fields).ok().unwrap();
    u.with_meta(QueryMetaData::parse(&args(vec![("module", "users"), ("table", "User")])).ok().unwrap());
    assert_eq!(pieces_text(u.edgeql_pieces()), vec!["text:update users::User", "filters", "text: ", "sets"]);

    let mut d = DeleteQuery::parse("D".to_string(), &vec![]).ok().unwrap();
    assert_eq!(err_of(d.edgeql_pieces()), "Expected a meta attribute");
    d.with_meta(TableInfo::parse(&args(vec![("module", "users"), ("table", "User")])).ok().unwrap());
    assert!(pieces_text(d.edgeql_pieces()).is_empty());
    let mut d = DeleteQuery::parse("D".to_string(), &vec![field(0, "age", ty("i16"), vec![attr("filter", vec![("operator", "=")])])]).ok().unwrap();
    d.with_meta(TableInfo::parse(&args(vec![("table", "User")])).ok().unwrap());
    assert_eq!(pieces_text(d.edgeql_pieces()), vec!["filters"]);
}
