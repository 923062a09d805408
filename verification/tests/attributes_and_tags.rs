use edgedb_query_derive::text::trim;
use edgedb_query_derive::helpers::attributes::format_type;
use edgedb_query_derive::constants::edgedb_attributes;
use edgedb_query_derive::edgedb_enum::EdgedbEnum;
use edgedb_query_derive::helpers::attributes::{
    Conjunctive, EdgeDbMeta, EdgeDbType, EdgeEnumValue, Filter, Filters, Operator, Options, QueryResult, QueryShape,
    ResultField, SetField, SetOption as AssignmentOption,
};
use edgedb_query_derive::model::{AttrMeta, Attribute, FieldDecl, Lit, NestedMeta, PathArgs, RustType, VariantDecl};
use edgedb_query_derive::queries::check_duplicate_parameter_labels;
use edgedb_query_derive::tags::filter_tag::SelectFilterOperator;
use edgedb_query_derive::tags::set_tag::SetOption;
use edgedb_query_derive::text::{parse_u32, remove_chars, replace_str, split_char, u32_to_decimal};
use edgedb_query_derive::type_utils::{get_scalar, match_scalar, scalar_types};

fn ty(name: &str) -> RustType {
    RustType::Path { segments: vec![name.to_string()], first_args: PathArgs::NoArgs }
}

fn field(name: &str, t: RustType, attrs: Vec<Attribute>) -> FieldDecl {
    FieldDecl { index: 0, ident: Some(name.to_string()), ty: t, attrs }
}

fn attr(name: &str, args: Vec<(&str, Lit)>) -> Attribute {
    Attribute {
        path: vec![name.to_string()],
        meta: AttrMeta::List(args.into_iter().map(|(k, v)| NestedMeta::NameValue(vec![k.to_string()], v)).collect()),
    }
}

fn s(v: &str) -> Lit {
    Lit::Str(v.to_string())
}

fn err_of<T>(r: Result<T, edgedb_query_derive::error::MacroError>) -> String {
    match r {
        Ok(_) => panic!("an error was expected"),
        Err(e) => e.message,
    }
}

#[test]
pub fn meta_value_needs_a_table() {
    let f = field("__meta__", RustType::Tuple, vec![attr("meta", vec![("module", s("users")), ("table", s("User"))])]);
    let m = EdgeDbMeta::from_field(&f);
    assert!(m.is_valid());
    assert_eq!(m.value(), Some("users::User".to_string()));
    let m = EdgeDbMeta { module: None, table: Some("Todos".to_string()) };
    assert_eq!(m.value(), Some("default::Todos".to_string()));
    let m = EdgeDbMeta { module: Some("x".to_string()), table: None };
    assert!(!m.is_valid());
    assert_eq!(m.value(), None);
}

#[test]
pub fn scalar_types_and_casts() {
    let enum_field = field("status", ty("Status"), vec![attr("scalar", vec![("type", s("enum")), ("name", s("Status"))])]);
    let t = EdgeDbType::from_field(&enum_field);
    assert!(t.exist && t.is_enum() && t.is_valid());
    assert_eq!(t.value(), Some("<default::Status>".to_string()));
    assert_eq!(EdgeDbType::get_type(&enum_field).ok().unwrap(), "<default::Status>");
    assert_eq!(
        EdgeDbType::build_field_assignment(&enum_field).ok().unwrap(),
        "status := (select <default::Status>$status), "
    );
    let plain = field("age", ty("i16"), vec![]);
    assert_eq!(EdgeDbType::get_type(&plain).ok().unwrap(), "$scalar_type$");
    let typed = field("age", ty("i16"), vec![attr("scalar", vec![("type", s("int16"))])]);
    assert_eq!(EdgeDbType::get_type(&typed).ok().unwrap(), "<int16>");
    let no_name = field("s", ty("S"), vec![attr("scalar", vec![("type", s("enum"))])]);
    assert_eq!(
        err_of(EdgeDbType::get_type(&no_name)),
        "\n                    If the scalar type is enum you must specify its name and its module as follow :\n                    #[scalar(type=\"enum\", name=\"...\", module=\"\")]\n                "
    );
    let no_type = field("s", ty("S"), vec![attr("scalar", vec![("name", s("X"))])]);
    assert_eq!(
        err_of(EdgeDbType::get_type(&no_type)),
        "\n                    Please specify the scalar type by adding\n                    #[scalar(type=\"\")]\n                "
    );
}

#[test]
pub fn enum_values() {
    let v = VariantDecl { ident: "Male".to_string(), attrs: vec![Attribute { path: vec!["value".to_string()], meta: AttrMeta::List(vec![NestedMeta::Lit(s("male"))]) }] };
    assert_eq!(EdgeEnumValue::from_variant(&v).ok().unwrap().value, Some("male".to_string()));
    let empty = VariantDecl { ident: "Male".to_string(), attrs: vec![Attribute { path: vec!["value".to_string()], meta: AttrMeta::List(vec![NestedMeta::Lit(s(""))]) }] };
    assert_eq!(err_of(EdgeEnumValue::from_variant(&empty)), " Please specify a non empty value #[value(\"...\")] for enum variant Male ");
    let none = VariantDecl { ident: "Open".to_string(), attrs: vec![] };
    assert_eq!(EdgeEnumValue::from_variant(&none).ok().unwrap().value, None);
    let e = EdgedbEnum::parse("Sex".to_string(), &vec![v, none]).ok().unwrap();
    assert_eq!(e.to_edgeql(0), "male");
    assert_eq!(e.to_edgeql(1), "Open");
    let bad = VariantDecl { ident: "X".to_string(), attrs: vec![attr("field", vec![])] };
    assert_eq!(err_of(EdgedbEnum::parse("E".to_string(), &vec![bad])), "\n    Invalid enum's variant tag.\n    Expected \"value\"\n");
}

#[test]
pub fn attribute_operators() {
    let name = field("name", ty("String"), vec![attr("filter", vec![("operator", s("Like"))])]);
    assert!(matches!(Operator::from_str(&name, "Like"), Ok(Operator::Like)));
    assert!(matches!(Operator::from_str(&name, ">="), Ok(Operator::GreaterThanOrEqual)));
    assert_eq!(err_of(Operator::from_str(&name, "In")), "Filter type In is only accepted for field of type Vec");
    assert_eq!(err_of(Operator::from_str(&name, "Exists")), "Filter type Exists is only accepted for field of type ()");
    let unit = field("name", RustType::Tuple, vec![attr("filter", vec![])]);
    assert_eq!(err_of(Operator::from_str(&unit, "Is")), "Type () is not accepted for Filter type Is");
    assert!(err_of(Operator::from_str(&name, "Between")).starts_with("\n                    Between is not a valid filter type."));
    assert_eq!(
        Operator::Is.build("users::User", &name, None, Some("str_lower".to_string())).ok().unwrap(),
        " str_lower(users::User.name) = (select $scalar_type$$name)"
    );
    assert_eq!(Operator::Exists.build("T", &unit, Some("n".to_string()), None).ok().unwrap(), " exists T.n");
}

#[test]
pub fn attribute_filters() {
    let first = field("name", ty("String"), vec![attr("filter", vec![("operator", s("Is")), ("column_name", s("n"))])]);
    let f = Filter::from_field(&first, 0).ok().unwrap();
    assert!(f.conjunctive.is_none());
    assert_eq!(Filter::build_filter_assignment("T", &first, 0).ok().unwrap(), " T.n = (select $scalar_type$$name)");
    assert!(err_of(Filter::from_field(&first, 1)).contains("Please specify conjunctive option"));
    let second = field("age", ty("i16"), vec![attr("filter", vec![("operator", s("<")), ("conjunctive", s("Or"))])]);
    assert_eq!(Filter::build_filter_assignment("T", &second, 1).ok().unwrap(), " or T.age < (select $scalar_type$$age)");
    let bad = field("age", ty("i16"), vec![attr("filter", vec![("operator", s("<")), ("conjunctive", s("Xor"))])]);
    assert!(err_of(Filter::from_field(&bad, 1)).contains("Xor is not a valid conjunctive type."));
    let none = field("age", ty("i16"), vec![]);
    assert_eq!(err_of(Filter::from_field(&none, 0)), "Please please add #[filter(operator=\"...\",)] attribute to field age");
    assert_eq!(Conjunctive::And.to_string(), "and");
    let marked = field("f", ty("F"), vec![Attribute { path: vec!["filters".to_string()], meta: AttrMeta::Path }]);
    assert!(Filters::from_field(&marked).is_some());
    assert!(Options::from_field(&marked).is_none());
}

#[test]
pub fn attribute_result_options() {
    let f = field(
        "__result__",
        RustType::Tuple,
        vec![attr("result", vec![("type", s("UserResult")), ("order_by", s("name")), ("order_dir", s("desc")), ("limit", Lit::Int("10".to_string()))])],
    );
    let r = QueryResult::from_field(&f).ok().unwrap();
    assert!(r.has_result_type());
    assert_eq!(r.to_ident(), "UserResult");
    assert_eq!(r.complete_select_query("users::User"), " order by users::User.name desc limit 10");
    let bad_dir = field("r", RustType::Tuple, vec![attr("result", vec![("order_by", s("name")), ("order_dir", s("up"))])]);
    assert_eq!(err_of(QueryResult::from_field(&bad_dir)), "Only value 'asc' or 'desc' are accepted for attribute order_dir");
    let dir_only = field("r", RustType::Tuple, vec![attr("result", vec![("order_dir", s("asc"))])]);
    assert_eq!(err_of(QueryResult::from_field(&dir_only)), "order_by is required when order_dir is specified.");
    let bad_limit = field("r", RustType::Tuple, vec![attr("result", vec![("limit", s("ten"))])]);
    assert_eq!(err_of(QueryResult::from_field(&bad_limit)), "Limit attribute must be a number");
    let plain = QueryResult::from_field(&field("r", RustType::Tuple, vec![])).ok().unwrap();
    assert_eq!(plain.to_ident(), "BasicResult");
    assert_eq!(plain.complete_select_query("T"), "");
}

#[test]
pub fn attribute_shapes_and_fields() {
    let f = field(
        "friends",
        ty("Vec"),
        vec![attr(
            "back_link",
            vec![("module", s("users")), ("source_table", s("User")), ("target_table", s("Friend")), ("target_column", s("friend")), ("result", s("Friend"))],
        )],
    );
    let (q, r) = QueryShape::build_assignment(&f).ok().unwrap();
    assert_eq!(q, "select users::User.<friend[is users::Friend]");
    assert_eq!(r, "Friend");
    let missing = field("friends", ty("Vec"), vec![attr("back_link", vec![("module", s("users"))])]);
    assert_eq!(
        err_of(QueryShape::from_field(&missing)),
        "\n                Please add source_table attribute to query_shape macro on field friends\n            "
    );
    let login = field("login", ty("String"), vec![attr("field", vec![("column_name", s("pseudo")), ("wrapper_fn", s("str_upper"))])]);
    assert_eq!(ResultField::build_statement(&login).ok().unwrap(), "login := (select $scalar_type$str_upper(.pseudo))");
    let same = field("login", ty("String"), vec![attr("field", vec![("column_name", s("login")), ("default_value", s("x"))])]);
    assert_eq!(err_of(ResultField::from_field(&same)), "default_value cannot be applied to the field login");
    let concat = field("name", ty("String"), vec![attr("field", vec![("assignment", s("Concat"))])]);
    assert!(matches!(SetField::from_field(&concat).ok().unwrap().option, AssignmentOption::Concat));
    assert_eq!(
        SetField::build_field_assignment(&concat).ok().unwrap(),
        "name := .name ++ (select $scalar_type$$name), "
    );
    let push = field("name", ty("String"), vec![attr("field", vec![("assignment", s("push"))])]);
    assert_eq!(err_of(SetField::build_field_assignment(&push)), "Push option is only allowed for vec type");
}

#[test]
pub fn attribute_table() {
    let a = edgedb_attributes();
    assert_eq!(a.len(), 2);
    assert_eq!(a[0].0, "type");
    assert_eq!(a[0].1, Some(("enum".to_string(), "name".to_string())));
    assert_eq!(a[1], ("result".to_string(), None));
}

#[test]
pub fn set_option_signs_read_back() {
    let v = RustType::Path { segments: vec!["Vec".to_string()], first_args: PathArgs::AngleType(Box::new(ty("String"))) };
    for o in [SetOption::Assign, SetOption::Concat, SetOption::Push] {
        let back = SetOption::from_keyword(&v, o.statement()).ok().unwrap();
        assert_eq!(back, o);
    }
    assert_eq!(err_of(SetOption::try_from(&ty("String"), "PUSH")), "Push option only accepts a Vec type");
}

#[test]
pub fn operator_texts_read_back() {
    let ops = [
        SelectFilterOperator::Is,
        SelectFilterOperator::IsNot,
        SelectFilterOperator::Like,
        SelectFilterOperator::ILike,
        SelectFilterOperator::In,
        SelectFilterOperator::GreaterThan,
        SelectFilterOperator::LesserThan,
        SelectFilterOperator::GreaterThanOrEqual,
        SelectFilterOperator::LesserThanOrEqual,
        SelectFilterOperator::Exists,
    ];
    for o in ops {
        assert_eq!(SelectFilterOperator::from_keyword_unchecked(o.statement()), Some(o));
    }
    assert_eq!(SelectFilterOperator::from_keyword_unchecked(SelectFilterOperator::NotIn.statement()), None);
}

#[test]
pub fn duplicate_labels_name_the_first() {
    let p = |a: &str, b: &str| (a.to_string(), b.to_string());
    assert!(check_duplicate_parameter_labels(&vec![p("a", "x"), p("b", "y")]).is_ok());
    let e = check_duplicate_parameter_labels(&vec![p("a", "x"), p("b", "y"), p("c", "y"), p("d", "x")]);
    assert_eq!(err_of(e), "Duplicate parameter label `x`");
}

#[test]
pub fn scalars_of_types() {
    assert_eq!(scalar_types().len(), 17);
    assert_eq!(get_scalar(&ty("String")).ok().unwrap(), "<str>");
    let v = RustType::Path { segments: vec!["Vec".to_string()], first_args: PathArgs::AngleType(Box::new(ty("i64"))) };
    assert_eq!(get_scalar(&v).ok().unwrap(), "<array<int64>>");
    assert_eq!(get_scalar(&RustType::Tuple).ok().unwrap(), "");
    assert_eq!(err_of(get_scalar(&ty("Wallet"))), "Unsupported typo: Wallet");
    assert!(match_scalar(&ty("i32"), "<int32>").is_ok());
    assert!(match_scalar(&ty("u8"), "<int16>").is_ok());
    assert_eq!(err_of(match_scalar(&ty("i32"), "str")), "Rust type i32 does not match with scalar  type: str");
}

#[test]
pub fn text_helpers() {
    assert_eq!(replace_str("a$x$b$x$", "$x$", "Z"), "aZbZ");
    assert_eq!(replace_str("aaa", "aa", "b"), "ba");
    assert_eq!(remove_chars("f(x)", '(', ')'), "fx");
    assert_eq!(split_char("a,,b", ','), vec!["a", "", "b"]);
    assert_eq!(parse_u32("+42"), Some(42));
    assert_eq!(parse_u32("4294967295"), Some(u32::MAX));
    assert_eq!(parse_u32("4294967296"), None);
    assert_eq!(parse_u32("+"), None);
    assert_eq!(parse_u32("-1"), None);
    assert_eq!(u32_to_decimal(0), "0");
    assert_eq!(u32_to_decimal(1200), "1200");
}

#[test]
pub fn operators_read_back_from_their_text() {
    let string = ty("String");
    let vec = RustType::Path { segments: vec!["Vec".to_string()], first_args: PathArgs::AngleType(Box::new(ty("String"))) };
    let unit = RustType::Tuple;
    let age = ty("i16");
    for (t, text) in [
        (&age, "="), (&age, "!="), (&age, ">"), (&age, ">="), (&age, "<"), (&age, "<="),
        (&string, "like"), (&string, "ilike"), (&vec, "in"), (&unit, "exists"),
    ] {
        let o = SelectFilterOperator::try_from(t, text).ok().unwrap();
        assert_eq!(o.statement(), text);
    }
    assert_eq!(SelectFilterOperator::try_from(&string, "LIKE").ok().unwrap().statement(), "like");
}

#[test]
pub fn trimmed_types_are_bracketed() {
    assert_eq!(trim("  int32 \t\n"), "int32");
    assert_eq!(trim("\u{3000}a b\u{a0}"), "a b");
    assert_eq!(trim("   "), "");
    assert_eq!(format_type(" int32 "), "< int32 >");
    assert_eq!(format_type("<str> "), "<str> ");
    assert_eq!(format_type(" str>"), "< str>");
    for t in [" int32 ", "<str> ", " str>", "", "  "] {
        let f = format_type(t);
        let tr = f.trim();
        assert!(tr.starts_with('<') && tr.ends_with('>'));
    }
}

#[test]
pub fn operator_spellings_agree() {
    let small = ty("i8");
    for text in ["GreaterThan", "greaterthan", ">"] {
        assert!(matches!(SelectFilterOperator::try_from(&small, text), Ok(SelectFilterOperator::GreaterThan)));
    }
    let unit = RustType::Tuple;
    for text in ["NotExists", "notexists", "!exists"] {
        assert!(matches!(SelectFilterOperator::try_from(&unit, text), Ok(SelectFilterOperator::NotExists)));
        assert!(SelectFilterOperator::try_from(&small, text).is_err());
    }
}
