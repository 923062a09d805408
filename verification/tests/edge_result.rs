use edgedb_query_derive::query_result::{result_shape, ShapePart};
use edgedb_query_derive::model::{AttrMeta, Attribute, FieldDecl, Lit, NestedMeta, PathArgs, RustType};
use edgedb_query_derive::query_result::QueryResult;

fn ty(name: &str) -> RustType {
    RustType::Path { segments: vec![name.to_string()], first_args: PathArgs::NoArgs }
}

fn vec_of(name: &str) -> RustType {
    RustType::Path { segments: vec!["Vec".to_string()], first_args: PathArgs::AngleType(Box::new(ty(name))) }
}

fn field(index: usize, name: &str, t: RustType, attrs: Vec<Attribute>) -> FieldDecl {
    FieldDecl { index, ident: Some(name.to_string()), ty: t, attrs }
}

fn attr(name: &str, args: Vec<(&str, Lit)>) -> Attribute {
    Attribute {
        path: vec![name.to_string()],
        meta: AttrMeta::List(
            args.into_iter().map(|(k, v)| NestedMeta::NameValue(vec![k.to_string()], v)).collect(),
        ),
    }
}

fn s(v: &str) -> Lit {
    Lit::Str(v.to_string())
}

fn back_link() -> Attribute {
    attr(
        "back_link",
        vec![
            ("module", s("users")),
            ("source_table", s("User")),
            ("target_table", s("Friend")),
            ("target_column", s("friend")),
        ],
    )
}

fn parse(name: &str, fields: Vec<FieldDecl>) -> QueryResult {
    match QueryResult::parse(name.to_string(), &fields) {
        Ok(r) => r,
        Err(e) => panic!("{}", e.message),
    }
}

fn shape_of(r: &QueryResult, env: Vec<&str>) -> String {
    let env: Vec<String> = env.into_iter().map(|e| e.to_string()).collect();
    r.shape(&env)
}

fn identity() -> QueryResult {
    parse(
        "Identity",
        vec![field(0, "id", ty("Uuid"), vec![]), field(1, "name", ty("String"), vec![]), field(2, "age", ty("i16"), vec![])],
    )
}

fn identity_shape() -> String {
    shape_of(&identity(), vec!["", "", ""])
}

fn friend_shape() -> String {
    let friend = parse("Friend", vec![field(0, "id", ty("Uuid"), vec![]), field(1, "surname", ty("String"), vec![])]);
    shape_of(&friend, vec!["", ""])
}

#[test]
pub fn test_shape() {
    let r = identity();
    let shape = identity_shape();
    let fields = r.returning_fields();
    assert_eq!(shape, "{id,name,age}");
    assert_eq!(fields, vec!["id", "name", "age"]);
}

#[test]
pub fn test_nested_shape() {
    let r = parse(
        "User",
        vec![
            field(0, "id", ty("Uuid"), vec![]),
            field(1, "login", ty("String"), vec![attr("field", vec![("link_property", Lit::Bool(true))])]),
            field(2, "identity", ty("Identity"), vec![]),
        ],
    );
    let shape = shape_of(&r, vec!["", "str", identity_shape().as_str()]);
    let fields = r.returning_fields();
    assert_eq!(shape, "{id,@login,identity : {id,name,age}}");
    assert_eq!(fields, vec!["id", "login", "identity"]);
}

#[test]
pub fn test_nested_query_shape_vec() {
    let r = parse(
        "UserWithFriends",
        vec![
            field(0, "id", ty("Uuid"), vec![]),
            field(1, "login", ty("String"), vec![]),
            field(2, "identity", ty("Identity"), vec![]),
            field(3, "friends", vec_of("Friend"), vec![back_link()]),
        ],
    );
    let shape = shape_of(&r, vec!["", "", identity_shape().as_str(), friend_shape().as_str()]);
    let fields = r.returning_fields();
    assert_eq!(
        shape,
        "{id,login,identity : {id,name,age},friends := (select users::User.<friend[is users::Friend]{id,surname})}"
    );
    assert_eq!(fields, vec!["id", "login", "identity", "friends"]);
}

#[test]
pub fn test_nested_query_shape() {
    let r = parse(
        "UserWithFriend",
        vec![
            field(0, "id", ty("Uuid"), vec![]),
            field(1, "login", ty("String"), vec![]),
            field(2, "identity", ty("Identity"), vec![]),
            field(3, "friend", ty("Friend"), vec![back_link()]),
        ],
    );
    let shape = shape_of(&r, vec!["", "", identity_shape().as_str(), friend_shape().as_str()]);
    assert_eq!(
        shape,
        "{id,login,identity : {id,name,age},friend := (select users::User.<friend[is users::Friend]{id,surname} limit 1)}"
    )
}

#[test]
pub fn test_nested_query_shape_wrapperfn() {
    let r = parse(
        "UserWithFriendAndWrapperFn",
        vec![
            field(0, "id", ty("Uuid"), vec![]),
            field(1, "login", ty("String"), vec![attr("field", vec![("wrapper_fn", s("str_upper"))])]),
            field(2, "identity", ty("Identity"), vec![]),
            field(3, "friend", ty("Friend"), vec![back_link()]),
        ],
    );
    let shape = shape_of(&r, vec!["", "str", identity_shape().as_str(), friend_shape().as_str()]);
    assert_eq!(
        shape,
        "{id,login := (select <str>str_upper(.login)),identity : {id,name,age},friend := (select users::User.<friend[is users::Friend]{id,surname} limit 1)}"
    )
}

#[test]
pub fn test_nested_query_shape_field() {
    let r = parse(
        "UserWithFriendAndField",
        vec![
            field(0, "id", ty("Uuid"), vec![]),
            field(1, "login", ty("String"), vec![attr("field", vec![("column_name", s("pseudo"))])]),
            field(2, "identity", ty("Identity"), vec![]),
            field(3, "friend", ty("Friend"), vec![back_link()]),
        ],
    );
    let shape = shape_of(&r, vec!["", "str", identity_shape().as_str(), friend_shape().as_str()]);
    assert_eq!(
        shape,
        "{id,login := .pseudo,identity : {id,name,age},friend := (select users::User.<friend[is users::Friend]{id,surname} limit 1)}"
    )
}

#[test]
pub fn test_nested_query_shape_field_and_wrapper() {
    let r = parse(
        "UserWithFriendAndFieldAndWrapperFn",
        vec![
            field(0, "id", ty("Uuid"), vec![]),
            field(
                1,
                "login",
                ty("String"),
                vec![attr("field", vec![("column_name", s("pseudo")), ("wrapper_fn", s("str_upper"))])],
            ),
            field(2, "identity", ty("Identity"), vec![]),
            field(3, "friend", ty("Friend"), vec![back_link()]),
        ],
    );
    let shape = shape_of(&r, vec!["", "str", identity_shape().as_str(), friend_shape().as_str()]);
    assert_eq!(
        shape,
        "{id,login := (select <str>str_upper(.pseudo)),identity : {id,name,age},friend := (select users::User.<friend[is users::Friend]{id,surname} limit 1)}"
    )
}

#[test]
pub fn test_with_default() {
    let r = parse(
        "UserWithDefault",
        vec![
            field(0, "id", ty("Uuid"), vec![]),
            field(
                1,
                "login",
                ty("String"),
                vec![attr(
                    "field",
                    vec![("column_name", s("pseudo")), ("wrapper_fn", s("str_upper")), ("default_value", s("john"))],
                )],
            ),
        ],
    );
    let shape = shape_of(&r, vec!["", "str"]);
    assert_eq!(shape, "{id,login := (select <str>str_upper(.pseudo)) ?? (select <str>'john')}")
}

#[test]
pub fn result_without_id() {
    let r = parse("User", vec![field(0, "name", ty("String"), vec![])]);
    assert_eq!(r.id_field(), None);
    assert_eq!(shape_of(&r, vec![""]), "{name}");
    assert_eq!(identity().id_field(), Some(0));
}

#[test]
pub fn shape_parts_of_fields() {
    let r = parse(
        "User",
        vec![
            field(0, "id", ty("Uuid"), vec![]),
            field(1, "login", ty("String"), vec![attr("field", vec![("column_name", s("pseudo"))])]),
            field(2, "friend", ty("Friend"), vec![back_link()]),
        ],
    );
    let parts = r.shape_parts();
    assert!(matches!(&parts[0], ShapePart::Plain(n) if n == "id"));
    assert!(matches!(&parts[1], ShapePart::Scalar(t) if t == "login := .pseudo"));
    assert!(matches!(&parts[2], ShapePart::Linked(h, false) if h == "friend := (select users::User.<friend[is users::Friend]"));
    let env = vec![String::new(), "str".to_string(), "{id}".to_string()];
    assert_eq!(
        result_shape(&parts, &env),
        "{id,login := .pseudo,friend := (select users::User.<friend[is users::Friend]{id} limit 1)}"
    );
}
