use edgedb_query_derive::meta_data::{DataType, MetaFlags};
use edgedb_query_derive::model::{AttrMeta, Attribute, FieldDecl, Lit, NestedMeta, PathArgs, RustType};
use edgedb_query_derive::query_result::{format_scalar, ResultField, ResultTags};
use edgedb_query_derive::tags::backlink_field_tag::BackLinkFieldTagOptions;
use edgedb_query_derive::tags::builders::{build_tags_from_field, read_field_tag, TagBuilders};
use edgedb_query_derive::tags::field_tag::FieldTagBuilder;
use edgedb_query_derive::tags::result_field_tag::ResultFieldTagOptions;
use edgedb_query_derive::tags::unless_conflict_tag::UnlessConflictTagOptions;

fn ty(name: &str) -> RustType {
    RustType::Path { segments: vec![name.to_string()], first_args: PathArgs::NoArgs }
}

fn field(name: &str, t: RustType, attrs: Vec<Attribute>) -> FieldDecl {
    FieldDecl { index: 0, ident: Some(name.to_string()), ty: t, attrs }
}

fn attr(name: &str, args: Vec<(&str, Lit)>) -> Attribute {
    Attribute {
        path: vec![name.to_string()],
        meta: AttrMeta::List(args.into_iter().map(|(k, v)| NestedMeta::NameValue(vec![k.to_string()], v)).collect()),
    }
}

fn s(v: &str) -> Lit {
    Lit::Str(v.to_string())
}

fn p(name: &str) -> Vec<String> {
    vec![name.to_string()]
}

fn err_of<T>(r: Result<T, edgedb_query_derive::error::MacroError>) -> String {
    match r {
        Ok(_) => panic!("an error was expected"),
        Err(e) => e.message,
    }
}

#[test]
pub fn field_tag_of_a_link_property() {
    let f = field("login", ty("String"), vec![attr("field", vec![("link_property", Lit::Bool(true))])]);
    let b = read_field_tag(&f.attrs).ok().unwrap();
    let t = b.build(&f).ok().unwrap();
    assert_eq!(t.column_name, "@login");
    assert_eq!(t.parameter_label, "login");
    assert_eq!(t.scalar_type, "<str>");
    let g = field("login", ty("String"), vec![attr("field", vec![("column_name", s("@x")), ("link_property", Lit::Bool(false))])]);
    let b = read_field_tag(&g.attrs).ok().unwrap();
    assert_eq!(err_of(b.build(&g)), "Only link property column can have name starting with @");
}

#[test]
pub fn field_tag_scalar_is_bracketed_and_checked() {
    let f = field("age", ty("i32"), vec![attr("field", vec![("scalar", s("int32"))])]);
    let t = read_field_tag(&f.attrs).ok().unwrap().build(&f).ok().unwrap();
    assert_eq!(t.scalar_type, "<int32>");
    let g = field("age", ty("i32"), vec![attr("field", vec![("scalar", s("<str>"))])]);
    assert_eq!(
        err_of(read_field_tag(&g.attrs).ok().unwrap().build(&g)),
        "Rust type i32 does not match with scalar  type: str"
    );
}

#[test]
pub fn field_tag_options_refused() {
    let mut b = FieldTagBuilder::new();
    assert_eq!(err_of(b.arg(&p("column_name"), &s(""))), "Expected a non-empty string literal");
    assert_eq!(err_of(b.arg(&p("link_property"), &s("yes"))), "Expected a boolean literal");
    assert_eq!(err_of(b.arg(&p("param"), &Lit::Bool(true))), "Expected a string literal");
    assert_eq!(
        err_of(b.arg(&p("colour"), &s("x"))),
        "\n    Invalid field tag option.\n    Expected \"column_name\" , \"param\" or \"scalar\"\n"
    );
}

#[test]
pub fn one_tag_of_a_kind() {
    let f = field("a", ty("String"), vec![attr("filter", vec![("operator", s("="))]), attr("and_filter", vec![("operator", s("="))])]);
    let mut b = TagBuilders::FilterBuilder(edgedb_query_derive::tags::filter_tag::FilterTagBuilder::new());
    assert_eq!(
        err_of(build_tags_from_field(&f.attrs, &mut b)),
        "Only one of the following tags is expected, [\n    \"filter\",\n    \"and_filter\",\n    \"or_filter\",\n]"
    );
}

#[test]
pub fn option_readers() {
    assert!(matches!(BackLinkFieldTagOptions::try_from(&p("module"), &s("users")), Ok(BackLinkFieldTagOptions::Module(m)) if m == "users"));
    assert_eq!(err_of(BackLinkFieldTagOptions::try_from(&p("module"), &Lit::Bool(true))), "Expected a named string literal");
    assert!(matches!(ResultFieldTagOptions::try_from(&p("link_property"), &Lit::Bool(true)), Ok(ResultFieldTagOptions::LinkProperty(true))));
    assert_eq!(err_of(ResultFieldTagOptions::try_from(&p("wrapper_fn"), &Lit::Bool(true))), "Expected a string literal");
    assert!(matches!(UnlessConflictTagOptions::try_from(&p("on"), &s("a, b")), Ok(UnlessConflictTagOptions::On(v)) if v == "a, b"));
    assert!(matches!(UnlessConflictTagOptions::try_from(&p("on"), &Lit::Bool(true)), Ok(UnlessConflictTagOptions::On(v)) if v.is_empty()));
    assert_eq!(
        err_of(UnlessConflictTagOptions::try_from(&p("off"), &s("a"))),
        "\n    Invalid field tag option.\n    Expected \"column_name\" , \"param\" or \"scalar\"\n"
    );
}

#[test]
pub fn meta_data_kinds() {
    let all = MetaFlags { with_result: true, with_src: true, with_value: true };
    assert!(matches!(DataType::try_from("result", all), Ok(DataType::Result)));
    let none = MetaFlags { with_result: false, with_src: false, with_value: false };
    assert_eq!(err_of(DataType::try_from("value", none)), "Unsupported attribute `value`");
    assert_eq!(err_of(DataType::try_from("colour", all)), "Unsupported attribute `colour`");
}

#[test]
pub fn result_fields_refused() {
    let empty = field("login", ty("String"), vec![Attribute { path: p("field"), meta: AttrMeta::List(vec![]) }]);
    assert_eq!(
        err_of(ResultField::try_from(&empty)),
        "#[field] must have at least column_name, wrapper_fn or link_property attribute"
    );
    let other = field("login", ty("String"), vec![attr("filter", vec![])]);
    assert_eq!(
        err_of(ResultField::try_from(&other)),
        "\n    Invalid result's field tag.\n    Expected \"field\", \"back_link\" or nothing\n"
    );
    let mixed = field("login", ty("String"), vec![attr("field", vec![("column_name", s("pseudo"))]), attr("filter", vec![])]);
    assert_eq!(err_of(ResultField::try_from(&mixed)), "Expected only the following tags `[\"field\"]`");
    let partial = field("friend", ty("Friend"), vec![attr("back_link", vec![("module", s("users")), ("source_table", s("User"))])]);
    assert_eq!(err_of(ResultField::try_from(&partial)), "Option target_table expected");
    let full = field(
        "friend",
        RustType::Path { segments: p("Vec"), first_args: PathArgs::AngleType(Box::new(ty("Friend"))) },
        vec![attr("back_link", vec![("source_table", s("User")), ("target_table", s("Friend")), ("target_column", s("friend"))])],
    );
    let r = ResultField::try_from(&full).ok().unwrap();
    assert!(matches!(&r.tag, ResultTags::BackLink(t) if t.module == "default"));
    assert_eq!(r.backlink_result_type(), Some("Friend".to_string()));
}

#[test]
pub fn scalars_formatted() {
    assert_eq!(format_scalar(""), "");
    assert_eq!(format_scalar("str"), "<str>");
    assert_eq!(format_scalar("<str>"), "<str>");
    assert_eq!(format_scalar("<array<str> "), "<array<str> ");
    assert_eq!(format_scalar("<str "), "<str >");
}
