use vstd::prelude::*;
use vstd::string::*;

use crate::error::MacroError;
use crate::model::{ArgsV, PathArgs, RustType, TypeV};
use crate::text::{remove_chars, str_eq, str_is_empty, without_chars};

verus! {

/// The type is named `name`: a path of one segment with that identifier, or
/// any tuple type when `name` is `()`.
pub open spec fn type_is_named(t: TypeV, name: Seq<char>) -> bool {
    match t {
        TypeV::Path(segs, _) => segs.len() == 1 && segs[0] == name,
        TypeV::Tuple => name == "()"@,
        TypeV::Other => false,
    }
}

/// The type has a name: it is a tuple, or a path with at least one segment.
pub open spec fn type_name_defined(t: TypeV) -> bool {
    match t {
        TypeV::Path(segs, _) => segs.len() > 0,
        TypeV::Tuple => true,
        TypeV::Other => false,
    }
}

/// The name of a type: the first segment of a path, or `()` for a tuple.
pub open spec fn name_of_type(t: TypeV) -> Seq<char> {
    match t {
        TypeV::Path(segs, _) => segs[0],
        TypeV::Tuple => "()"@,
        TypeV::Other => Seq::empty(),
    }
}

/// The type written first between the angle brackets of the first segment.
pub open spec fn wrapped_type(t: TypeV) -> TypeV {
    match t {
        TypeV::Path(_, ArgsV::AngleType(b)) => *b,
        _ => t,
    }
}

/// `Option` and `Vec` types carry a type as first generic argument.
pub open spec fn inner_type_defined(t: TypeV) -> bool {
    (type_is_named(t, "Option"@) || type_is_named(t, "Vec"@)) ==> t matches TypeV::Path(
        _,
        ArgsV::AngleType(_),
    )
}

/// The type inside `Option<..>` or `Vec<..>`, or the type itself otherwise.
pub open spec fn inner_type(t: TypeV) -> TypeV {
    if type_is_named(t, "Option"@) || type_is_named(t, "Vec"@) {
        wrapped_type(t)
    } else {
        t
    }
}

/// The scalar of the type can be looked up without a panic.
pub open spec fn scalar_defined(t: TypeV) -> bool {
    inner_type_defined(t) && type_name_defined(inner_type(t))
}

/// The table of Rust type names and the EdgeDB scalar types that they stand for.
pub open spec fn scalar_table() -> Seq<(Seq<char>, Seq<char>)> {
    seq![
        ("String"@, "str"@),
        ("i8"@, "int16"@),
        ("i16"@, "int16"@),
        ("i32"@, "int32"@),
        ("i64"@, "int64"@),
        ("f32"@, "float32"@),
        ("f64"@, "float64"@),
        ("bool"@, "bool"@),
        ("uuid::Uuid"@, "uuid"@),
        ("serde_json::Value"@, "json"@),
        ("chrono::DateTime<chrono::Utc>"@, "datetime"@),
        ("chrono::DateTime<chrono::Local>"@, "cal::local_datetime"@),
        ("chrono::Duration"@, "<duration>"@),
        ("chrono::Date<chrono::Local>"@, "cal::local_date"@),
        ("chrono::NaiveTime"@, "cal::local_time"@),
        ("chrono::NaiveDate"@, "cal::local_date"@),
        ("()"@, ""@),
    ]
}

/// The second component of the first pair of `tbl` whose first component is `name`.
pub open spec fn lookup(tbl: Seq<(Seq<char>, Seq<char>)>, name: Seq<char>) -> Option<Seq<char>>
    decreases tbl.len(),
{
    if tbl.len() == 0 {
        None
    } else if tbl[0].0 == name {
        Some(tbl[0].1)
    } else {
        lookup(tbl.drop_first(), name)
    }
}

/// Some pair of the table has `s` as its scalar type.
pub open spec fn is_known_scalar(s: Seq<char>) -> bool {
    exists|i: int| 0 <= i < scalar_table().len() && scalar_table()[i].1 == s
}

/// The scalar cast that a field of type `t` gets, or the error message.
pub open spec fn scalar_of(t: TypeV) -> Result<Seq<char>, Seq<char>> {
    match lookup(scalar_table(), name_of_type(inner_type(t))) {
        Some(s) => Ok(
            if type_is_named(t, "Vec"@) {
                "<array<"@ + s + ">>"@
            } else if s.len() == 0 {
                s
            } else {
                "<"@ + s + ">"@
            },
        ),
        None => Err("Unsupported typo: "@ + name_of_type(t)),
    }
}

/// The error that a scalar type `sc` given for a field of type `t` gets.
pub open spec fn scalar_mismatch(t: TypeV, sc: Seq<char>) -> Seq<char> {
    "Rust type "@ + name_of_type(t) + " does not match with scalar  type: "@ + sc
}

/// Whether a scalar type written on a field agrees with the field's Rust type.
/// Only a scalar of the table, written on a field whose Rust type has a scalar of
/// its own, is checked; any other is accepted as written.
pub open spec fn match_scalar_spec(t: TypeV, scalar: Seq<char>) -> Result<(), Seq<char>> {
    let sc = without_chars(scalar, '<', '>');
    if !is_known_scalar(sc) {
        Ok(())
    } else {
        match scalar_of(t) {
            Err(_) => Ok(()),
            Ok(found) => {
                let expected = if type_is_named(t, "Vec"@) {
                    "<array<"@ + sc + ">>"@
                } else {
                    sc
                };
                if without_chars(found, '<', '>') == without_chars(expected, '<', '>') {
                    Ok(())
                } else {
                    Err(scalar_mismatch(t, expected))
                }
            },
        }
    }
}

/// Check if a type name is equal to the given name.
pub fn is_type_name(ty: &RustType, name: &str) -> (r: bool)
    ensures
        r == type_is_named(ty@, name@),
{
    match ty {
        RustType::Path { segments, .. } => {
            if segments.len() == 1 {
                str_eq(segments[0].as_str(), name)
            } else {
                false
            }
        },
        RustType::Tuple => {
            let r = str_eq(name, "()");
            r
        },
        RustType::Other => false,
    }
}

/// The name of the given type.
pub fn get_type_name(ty: &RustType) -> (r: String)
    requires
        type_name_defined(ty@),
    ensures
        r@ == name_of_type(ty@),
{
    match ty {
        RustType::Path { segments, .. } => segments[0].clone(),
        RustType::Tuple => String::from_str("()"),
        RustType::Other => String::new(),
    }
}

/// The type within a given wrapper such as `Option` or `Vec`.
pub fn get_wrapped_type(ty: &RustType, wrapper: &str) -> (r: RustType)
    requires
        type_is_named(ty@, wrapper@),
        ty@ matches TypeV::Path(_, ArgsV::AngleType(_)),
    ensures
        r@ == wrapped_type(ty@),
{
    match ty {
        RustType::Path { first_args: PathArgs::AngleType(t), .. } => (**t).copy(),
        _ => ty.copy(),
    }
}

/// The type inside `Option` or `Vec`, or the type itself.
pub fn get_type(ty: &RustType) -> (r: RustType)
    requires
        inner_type_defined(ty@),
    ensures
        r@ == inner_type(ty@),
{
    if is_type_name(ty, "Option") {
        get_wrapped_type(ty, "Option")
    } else if is_type_name(ty, "Vec") {
        get_wrapped_type(ty, "Vec")
    } else {
        ty.copy()
    }
}

/// Whether the scalar of `ty` can be looked up without a panic.
pub fn is_scalar_defined(ty: &RustType) -> (r: bool)
    ensures
        r == scalar_defined(ty@),
{
    let wrapped = is_type_name(ty, "Option") || is_type_name(ty, "Vec");
    if wrapped {
        match ty {
            RustType::Path { first_args: PathArgs::AngleType(t), .. } => {
                assert(wrapped_type(ty@) == t@);
                match &**t {
                    RustType::Path { segments, .. } => {
                        assert(crate::text::views(segments@).len() == segments@.len());
                        segments.len() > 0
                    },
                    RustType::Tuple => true,
                    RustType::Other => false,
                }
            },
            _ => false,
        }
    } else {
        match ty {
            RustType::Path { segments, .. } => {
                assert(crate::text::views(segments@).len() == segments@.len());
                segments.len() > 0
            },
            RustType::Tuple => true,
            RustType::Other => false,
        }
    }
}

/// The pairs of Rust type names and EdgeDB scalar types.
pub fn scalar_types() -> (r: Vec<(String, String)>)
    ensures
        r@.map_values(|p: (String, String)| (p.0@, p.1@)) == scalar_table(),
{
    let mut v: Vec<(String, String)> = Vec::new();
    v.push((String::from_str("String"), String::from_str("str")));
    v.push((String::from_str("i8"), String::from_str("int16")));
    v.push((String::from_str("i16"), String::from_str("int16")));
    v.push((String::from_str("i32"), String::from_str("int32")));
    v.push((String::from_str("i64"), String::from_str("int64")));
    v.push((String::from_str("f32"), String::from_str("float32")));
    v.push((String::from_str("f64"), String::from_str("float64")));
    v.push((String::from_str("bool"), String::from_str("bool")));
    v.push((String::from_str("uuid::Uuid"), String::from_str("uuid")));
    v.push((String::from_str("serde_json::Value"), String::from_str("json")));
    v.push((String::from_str("chrono::DateTime<chrono::Utc>"), String::from_str("datetime")));
    v.push(
        (
            String::from_str("chrono::DateTime<chrono::Local>"),
            String::from_str("cal::local_datetime"),
        ),
    );
    v.push((String::from_str("chrono::Duration"), String::from_str("<duration>")));
    v.push((String::from_str("chrono::Date<chrono::Local>"), String::from_str("cal::local_date")));
    v.push((String::from_str("chrono::NaiveTime"), String::from_str("cal::local_time")));
    v.push((String::from_str("chrono::NaiveDate"), String::from_str("cal::local_date")));
    v.push((String::from_str("()"), String::from_str("")));
    assert(v@.map_values(|p: (String, String)| (p.0@, p.1@)) =~= scalar_table());
    v
}

/// The scalar type paired with `name` in the table, if any.
fn lookup_scalar(name: &str) -> (r: Option<String>)
    ensures
        match r {
            Some(s) => lookup(scalar_table(), name@) == Some(s@),
            None => lookup(scalar_table(), name@) is None,
        },
{
    let tbl = scalar_types();
    let ghost t = tbl@.map_values(|p: (String, String)| (p.0@, p.1@));
    let mut i: usize = 0;
    assert(t.skip(0) =~= t);
    while i < tbl.len()
        invariant
            i <= tbl.len(),
            t == tbl@.map_values(|p: (String, String)| (p.0@, p.1@)),
            t == scalar_table(),
            lookup(scalar_table(), name@) == lookup(t.skip(i as int), name@),
        decreases tbl.len() - i,
    {
        assert(t.skip(i as int)[0] == t[i as int]);
        assert(t.skip(i as int).drop_first() =~= t.skip(i + 1));
        if str_eq(tbl[i].0.as_str(), name) {
            return Some(tbl[i].1.clone());
        }
        i = i + 1;
    }
    None
}

/// Whether some pair of the table has `s` as its scalar type.
fn known_scalar(s: &str) -> (r: bool)
    ensures
        r == is_known_scalar(s@),
{
    let tbl = scalar_types();
    let ghost t = tbl@.map_values(|p: (String, String)| (p.0@, p.1@));
    let mut i: usize = 0;
    while i < tbl.len()
        invariant
            i <= tbl.len(),
            t == tbl@.map_values(|p: (String, String)| (p.0@, p.1@)),
            t == scalar_table(),
            forall|j: int| 0 <= j < i ==> scalar_table()[j].1 != s@,
        decreases tbl.len() - i,
    {
        if str_eq(tbl[i].1.as_str(), s) {
            assert(scalar_table()[i as int].1 == s@);
            return true;
        }
        i = i + 1;
    }
    false
}

/// The scalar cast for a field of type `ty`, such as `<str>` for a `String`
/// or `<array<int32>>` for a `Vec<i32>`.
pub fn get_scalar(ty: &RustType) -> (r: Result<String, MacroError>)
    requires
        scalar_defined(ty@),
    ensures
        match r {
            Ok(s) => scalar_of(ty@) == Ok::<Seq<char>, Seq<char>>(s@),
            Err(e) => scalar_of(ty@) == Err::<Seq<char>, Seq<char>>(e.message@),
        },
{
    let inner = get_type(ty);
    let name = get_type_name(&inner);
    match lookup_scalar(name.as_str()) {
        Some(s) => {
            if is_type_name(ty, "Vec") {
                let mut out = String::from_str("<array<");
                out.append(s.as_str());
                out.append(">>");
                Ok(out)
            } else if str_is_empty(s.as_str()) {
                Ok(s)
            } else {
                let mut out = String::from_str("<");
                out.append(s.as_str());
                out.append(">");
                Ok(out)
            }
        },
        None => {
            let tn = get_type_name(ty);
            Err(MacroError::new2("Unsupported typo: ", tn.as_str()))
        },
    }
}

/// The message for a scalar that does not fit the type.
fn mismatch(ty: &RustType, sc: &str) -> (e: MacroError)
    requires
        type_name_defined(ty@),
    ensures
        e.message@ == scalar_mismatch(ty@, sc@),
{
    let tn = get_type_name(ty);
    let mut m = String::from_str("Rust type ");
    m.append(tn.as_str());
    m.append(" does not match with scalar  type: ");
    m.append(sc);
    MacroError { message: m }
}

/// Checks that the scalar type written on a field agrees with its Rust type.
pub fn match_scalar(ty: &RustType, scalar: &str) -> (r: Result<(), MacroError>)
    requires
        scalar_defined(ty@),
    ensures
        match r {
            Ok(_) => match_scalar_spec(ty@, scalar@) is Ok,
            Err(e) => match_scalar_spec(ty@, scalar@) == Err::<(), Seq<char>>(e.message@),
        },
{
    let sc = remove_chars(scalar, '<', '>');
    if !known_scalar(sc.as_str()) {
        return Ok(());
    }
    match get_scalar(ty) {
        Err(_) => Ok(()),
        Ok(found) => {
            let expected = if is_type_name(ty, "Vec") {
                let mut e = String::from_str("<array<");
                e.append(sc.as_str());
                e.append(">>");
                e
            } else {
                sc
            };
            let a = remove_chars(found.as_str(), '<', '>');
            let b = remove_chars(expected.as_str(), '<', '>');
            if a == b {
                Ok(())
            } else {
                Err(mismatch(ty, expected.as_str()))
            }
        },
    }
}

} // verus!
