use vstd::prelude::*;
use vstd::string::*;

use crate::model::{Lit, TypeV};
use crate::tags::filter_tag::{FilterOptionV, SelectFilterOperator, filter_option_spec, operator_keyword, operator_statement};
use crate::text::without_chars;
use crate::tags::result_field_tag::{apply_link, result_field_statement};
use crate::tags::set_tag::{SetOption, set_option_spec, set_option_statement};
use crate::type_utils::{inner_type, lookup, name_of_type, scalar_of, scalar_table, type_is_named};
use crate::laws::law_operator_text_round_trip;
use crate::constants::{SCALAR_TYPE, ASSIGN, ASSIGN_SIGN, CONCAT, CONCAT_SIGN, PUSH, PUSH_SIGN, VEC, BANG_EXISTS, EQUAL, EXISTS, ILIKE, IN, IS, IS_NOT, LIKE, NOT_EQUAL, NOT_EXISTS, NOT_IN};

verus! {

/// A text from which no occurrence of `a` or `b` is taken keeps its characters.
proof fn lemma_without_absent(s: Seq<char>, a: char, b: char)
    requires
        forall|i: int| 0 <= i < s.len() ==> s[i] != a && s[i] != b,
    ensures
        without_chars(s, a, b) == s,
    decreases s.len(),
{
    if s.len() > 0 {
        lemma_without_absent(s.drop_last(), a, b);
        assert(s.drop_last().push(s.last()) =~= s);
    }
}

/// Taking `a` and `b` out of a text leaves none of them.
proof fn lemma_without_leaves_none(s: Seq<char>, a: char, b: char)
    ensures
        forall|i: int| 0 <= i < without_chars(s, a, b).len() ==> without_chars(s, a, b)[i] != a && without_chars(s, a, b)[i] != b,
    decreases s.len(),
{
    if s.len() > 0 {
        lemma_without_leaves_none(s.drop_last(), a, b);
        let r = without_chars(s.drop_last(), a, b);
        if !(s.last() == a || s.last() == b) {
            assert(without_chars(s, a, b) == r.push(s.last()));
            assert forall|i: int| 0 <= i < r.push(s.last()).len() implies r.push(s.last())[i] != a && r.push(s.last())[i] != b by {
                if i < r.len() {
                    assert(r.push(s.last())[i] == r[i]);
                }
            }
        }
    }
}

/// Taking the spaces out of two words joined by one space joins the words.
proof fn lemma_two_words(x: Seq<char>, y: Seq<char>)
    requires
        forall|i: int| 0 <= i < x.len() ==> x[i] != ' ',
        forall|i: int| 0 <= i < y.len() ==> y[i] != ' ',
    ensures
        without_chars(x + seq![' '] + y, ' ', ' ') == x + y,
{
    let sp = seq![' '];
    lemma_without_concat(x + sp, y, ' ', ' ');
    lemma_without_concat(x, sp, ' ', ' ');
    lemma_without_absent(x, ' ', ' ');
    lemma_without_absent(y, ' ', ' ');
    assert(sp.drop_last() =~= Seq::<char>::empty());
    assert(without_chars(Seq::<char>::empty(), ' ', ' ') == Seq::<char>::empty());
    assert(sp.last() == ' ');
    assert(without_chars(sp, ' ', ' ') == Seq::<char>::empty());
    assert(x + Seq::<char>::empty() =~= x);
}

/// Taking characters out of two texts put together takes them out of each.
proof fn lemma_without_concat(x: Seq<char>, y: Seq<char>, a: char, b: char)
    ensures
        without_chars(x + y, a, b) == without_chars(x, a, b) + without_chars(y, a, b),
    decreases y.len(),
{
    if y.len() == 0 {
        assert(x + y =~= x);
        assert(without_chars(x, a, b) + without_chars(y, a, b) =~= without_chars(x, a, b));
    } else {
        assert((x + y).drop_last() =~= x + y.drop_last());
        assert((x + y).last() == y.last());
        lemma_without_concat(x, y.drop_last(), a, b);
        let l = without_chars(x, a, b);
        let r = without_chars(y.drop_last(), a, b);
        if y.last() == a || y.last() == b {
        } else {
            assert((l + r).push(y.last()) =~= l + r.push(y.last()));
        }
    }
}

/// The EdgeQL text of every filter operator, written without its spaces, is a
/// keyword that names that same operator. So no two operators share a text,
/// and a negation (`not exists`, `not in`) keeps its `not`.
pub proof fn law_operator_text_names_operator(o: SelectFilterOperator)
    ensures
        operator_keyword(without_chars(operator_statement(o), ' ', ' ')) == Some(o),
{
    let s = operator_statement(o);
    match o {
        SelectFilterOperator::NotIn => {
            reveal_strlit("not in");
            reveal_strlit("not");
            reveal_strlit("in");
            reveal_strlit("notin");
            assert(s =~= "not"@ + seq![' '] + "in"@);
            lemma_two_words("not"@, "in"@);
            assert("not"@ + "in"@ =~= "notin"@);
            lemma_keyword_notin();
        },
        SelectFilterOperator::NotExists => {
            reveal_strlit("not exists");
            reveal_strlit("not");
            reveal_strlit("exists");
            reveal_strlit("notexists");
            assert(s =~= "not"@ + seq![' '] + "exists"@);
            lemma_two_words("not"@, "exists"@);
            assert("not"@ + "exists"@ =~= "notexists"@);
            lemma_keyword_notexists();
        },
        _ => {
            reveal_strlit("=");
            reveal_strlit("!=");
            reveal_strlit("like");
            reveal_strlit("ilike");
            reveal_strlit("in");
            reveal_strlit(">");
            reveal_strlit("<");
            reveal_strlit(">=");
            reveal_strlit("<=");
            reveal_strlit("exists");
            assert(forall|i: int| 0 <= i < s.len() ==> s[i] != ' ');
            lemma_without_absent(s, ' ', ' ');
            law_operator_text_round_trip(o);
        },
    }
}

/// `notin` names the operator `NotIn`.
proof fn lemma_keyword_notin()
    ensures
        operator_keyword("notin"@) == Some(SelectFilterOperator::NotIn),
{
    reveal_strlit("notin");
    keyword_constants();
    let k: Seq<char> = "notin"@;
    assert(k.len() == 5 && k[0] == 'n' && k[1] == 'o');
    assert(k =~= NOT_IN@);
}

/// `notexists` names the operator `NotExists`.
proof fn lemma_keyword_notexists()
    ensures
        operator_keyword("notexists"@) == Some(SelectFilterOperator::NotExists),
{
    reveal_strlit("notexists");
    keyword_constants();
    let k: Seq<char> = "notexists"@;
    assert(k.len() == 9 && k[0] == 'n' && k[1] == 'o');
    assert(k =~= NOT_EXISTS@);
}

/// The lengths and first letters of the operator keywords.
proof fn keyword_constants()
    ensures
        EXISTS@.len() == 6 && EXISTS@[0] == 'e',
        NOT_EXISTS@ == "notexists"@,
        NOT_IN@ == "notin"@,
        BANG_EXISTS@.len() == 7,
        IS@.len() == 2 && IS@[0] == 'i' && IS@[1] == 's',
        EQUAL@.len() == 1,
        IS_NOT@.len() == 5 && IS_NOT@[0] == 'i',
        NOT_EQUAL@.len() == 2 && NOT_EQUAL@[0] == '!',
        LIKE@.len() == 4,
        ILIKE@.len() == 5 && ILIKE@[0] == 'i',
        IN@.len() == 2 && IN@[0] == 'i',
        "notin"@.len() == 5 && "notin"@[0] == 'n',
        "notexists"@.len() == 9 && "notexists"@[0] == 'n' && "notexists"@[1] == 'o',
{
    reveal_strlit("exists");
    reveal_strlit("notexists");
    reveal_strlit("notin");
    reveal_strlit("!exists");
    reveal_strlit("is");
    reveal_strlit("=");
    reveal_strlit("isnot");
    reveal_strlit("!=");
    reveal_strlit("like");
    reveal_strlit("ilike");
    reveal_strlit("in");
}

/// Two filter operators with the same EdgeQL text are the same operator.
pub proof fn law_operator_texts_distinct(o1: SelectFilterOperator, o2: SelectFilterOperator)
    requires
        operator_statement(o1) == operator_statement(o2),
    ensures
        o1 == o2,
{
    law_operator_text_names_operator(o1);
    law_operator_text_names_operator(o2);
}

/// The keyword that names a set option in `#[set(option = "...")]`.
pub open spec fn set_option_keyword(o: SetOption) -> Seq<char> {
    match o {
        SetOption::Assign => "assign"@,
        SetOption::Concat => "concat"@,
        SetOption::Push => "push"@,
    }
}

/// The sign that a set option writes between a column and its new value.
pub open spec fn set_option_sign(o: SetOption) -> Seq<char> {
    match o {
        SetOption::Assign => ":="@,
        SetOption::Concat => "++"@,
        SetOption::Push => "+="@,
    }
}

/// Each keyword of a set option (`assign`, `concat`, `push`) names that option,
/// as its sign (`:=`, `++`, `+=`) does, and the option writes that sign: a push
/// on a `Vec` field, the others on any field.
pub proof fn law_set_option_keywords(t: TypeV, o: SetOption)
    requires
        o == SetOption::Push ==> type_is_named(t, "Vec"@),
    ensures
        set_option_spec(t, set_option_keyword(o)) == Ok::<SetOption, Seq<char>>(o),
        set_option_spec(t, set_option_sign(o)) == Ok::<SetOption, Seq<char>>(o),
        set_option_statement(o) == set_option_sign(o),
{
    reveal_strlit("assign");
    reveal_strlit(":=");
    reveal_strlit("concat");
    reveal_strlit("++");
    reveal_strlit("push");
    reveal_strlit("+=");
    reveal_strlit("Vec");
    let a: Seq<char> = "assign"@;
    let c: Seq<char> = "concat"@;
    let p: Seq<char> = "push"@;
    assert(a.len() == 6 && c.len() == 6 && p.len() == 4 && a[0] == 'a' && c[0] == 'c');
    let sa: Seq<char> = ":="@;
    let sc: Seq<char> = "++"@;
    let sp: Seq<char> = "+="@;
    assert(sa[0] == ':' && sc[0] == '+' && sp[0] == '+' && sc[1] == '+' && sp[1] == '=');
    assert(ASSIGN@ =~= a && CONCAT@ =~= c && PUSH@ =~= p);
    assert(ASSIGN_SIGN@ =~= sa && CONCAT_SIGN@ =~= sc && PUSH_SIGN@ =~= sp);
    assert(VEC@ =~= "Vec"@);
}

/// A wrapper function read from a filter attribute holds no parenthesis, so the
/// filter writes it as `wrapper(column)`; one written without parentheses is
/// kept as written.
pub proof fn law_wrapper_fn_without_parentheses(name: Seq<char>, lit: Lit, w: Seq<char>)
    requires
        filter_option_spec(name, lit) == Ok::<FilterOptionV, Seq<char>>(FilterOptionV::WrapperFn(w)),
    ensures
        forall|i: int| 0 <= i < w.len() ==> w[i] != '(' && w[i] != ')',
        lit matches Lit::Str(v) && ((forall|i: int| 0 <= i < v@.len() ==> v@[i] != '(' && v@[i] != ')') ==> w == v@),
{
    if let Lit::Str(v) = lit {
        lemma_without_leaves_none(v@, '(', ')');
        if forall|i: int| 0 <= i < v@.len() ==> v@[i] != '(' && v@[i] != ')' {
            lemma_without_absent(v@, '(', ')');
        }
    }
}

/// `sub` occurs in `s`, starting at some position.
pub open spec fn occurs_in(sub: Seq<char>, s: Seq<char>) -> bool {
    exists|i: int| 0 <= i && i + sub.len() <= s.len() && #[trigger] s.subrange(i, i + sub.len()) == sub
}

/// A text occurs in any text that holds it between two others.
proof fn lemma_occurs_mid(x: Seq<char>, sub: Seq<char>, y: Seq<char>)
    ensures
        occurs_in(sub, x + sub + y),
{
    let s = x + sub + y;
    assert(s.subrange(x.len() as int, (x.len() + sub.len()) as int) =~= sub);
}

/// A text that occurs in `s` occurs in `s` followed by more text.
proof fn lemma_occurs_extend(sub: Seq<char>, s: Seq<char>, t: Seq<char>)
    requires
        occurs_in(sub, s),
    ensures
        occurs_in(sub, s + t),
{
    let i = choose|i: int| 0 <= i && i + sub.len() <= s.len() && #[trigger] s.subrange(i, i + sub.len()) == sub;
    assert((s + t).subrange(i, i + sub.len()) =~= s.subrange(i, i + sub.len()));
}

/// A result field read through a link property reads its column with a leading
/// `@`, whatever the form of its shape element (the field itself, a renamed
/// column, a column passed through a function, with or without a default): the
/// element holds `@` followed by the column (the field's name when no column is
/// named).
pub proof fn law_link_property_read_with_at(
    column: Option<Seq<char>>,
    wrapper: Option<Seq<char>>,
    default: Option<Seq<char>>,
    f: Seq<char>,
)
    ensures
        occurs_in(
            seq!['@'] + match column { Some(c) => c, None => f },
            result_field_statement(column, wrapper, default, true, f),
        ),
{
    reveal_strlit("@");
    let at: Seq<char> = "@"@;
    assert(at =~= seq!['@']);
    let col = match column { Some(c) => c, None => f };
    let sub = seq!['@'] + col;
    let s0 = match (column, wrapper) {
        (Some(c), None) => if c != f {
            f + " := ."@ + apply_link(true, c)
        } else {
            apply_link(true, f)
        },
        (None, Some(w)) => f + " := (select "@ + SCALAR_TYPE@ + w + "(."@ + apply_link(true, f) + "))"@,
        (Some(c), Some(w)) => f + " := (select "@ + SCALAR_TYPE@ + w + "(."@ + apply_link(true, c) + "))"@,
        (None, None) => apply_link(true, f),
    };
    match (column, wrapper) {
        (Some(c), None) => {
            if c != f {
                assert(s0 =~= (f + " := ."@) + sub + Seq::<char>::empty());
                lemma_occurs_mid(f + " := ."@, sub, Seq::<char>::empty());
            } else {
                assert(s0 =~= Seq::<char>::empty() + sub + Seq::<char>::empty());
                lemma_occurs_mid(Seq::<char>::empty(), sub, Seq::<char>::empty());
            }
        },
        (None, Some(w)) => {
            let x = f + " := (select "@ + SCALAR_TYPE@ + w + "(."@;
            assert(s0 =~= x + sub + "))"@);
            lemma_occurs_mid(x, sub, "))"@);
        },
        (Some(c), Some(w)) => {
            let x = f + " := (select "@ + SCALAR_TYPE@ + w + "(."@;
            assert(s0 =~= x + sub + "))"@);
            lemma_occurs_mid(x, sub, "))"@);
        },
        (None, None) => {
            assert(s0 =~= Seq::<char>::empty() + sub + Seq::<char>::empty());
            lemma_occurs_mid(Seq::<char>::empty(), sub, Seq::<char>::empty());
        },
    }
    match default {
        Some(v) => {
            lemma_occurs_extend(sub, s0, " ?? (select "@ + SCALAR_TYPE@ + "'"@ + v + "')"@);
            assert(result_field_statement(column, wrapper, default, true, f)
                == s0 + (" ?? (select "@ + SCALAR_TYPE@ + "'"@ + v + "')"@));
        },
        None => {},
    }
}

/// The scalar type that each Rust type name stands for in the table.
proof fn lemma_scalar_table_entries()
    ensures
        lookup(scalar_table(), "String"@) == Some("str"@),
        lookup(scalar_table(), "i8"@) == Some("int16"@),
        lookup(scalar_table(), "i16"@) == Some("int16"@),
        lookup(scalar_table(), "i32"@) == Some("int32"@),
        lookup(scalar_table(), "i64"@) == Some("int64"@),
        lookup(scalar_table(), "f32"@) == Some("float32"@),
        lookup(scalar_table(), "f64"@) == Some("float64"@),
        lookup(scalar_table(), "bool"@) == Some("bool"@),
        lookup(scalar_table(), "uuid::Uuid"@) == Some("uuid"@),
        lookup(scalar_table(), "serde_json::Value"@) == Some("json"@),
        lookup(scalar_table(), "chrono::DateTime<chrono::Utc>"@) == Some("datetime"@),
        lookup(scalar_table(), "chrono::DateTime<chrono::Local>"@) == Some("cal::local_datetime"@),
        lookup(scalar_table(), "chrono::Duration"@) == Some("<duration>"@),
        lookup(scalar_table(), "chrono::Date<chrono::Local>"@) == Some("cal::local_date"@),
        lookup(scalar_table(), "chrono::NaiveTime"@) == Some("cal::local_time"@),
        lookup(scalar_table(), "chrono::NaiveDate"@) == Some("cal::local_date"@),
        lookup(scalar_table(), "()"@) == Some(""@),
{
    reveal_strlit("");
    reveal_strlit("()");
    reveal_strlit("<duration>");
    reveal_strlit("String");
    reveal_strlit("bool");
    reveal_strlit("cal::local_date");
    reveal_strlit("cal::local_datetime");
    reveal_strlit("cal::local_time");
    reveal_strlit("chrono::Date<chrono::Local>");
    reveal_strlit("chrono::DateTime<chrono::Local>");
    reveal_strlit("chrono::DateTime<chrono::Utc>");
    reveal_strlit("chrono::Duration");
    reveal_strlit("chrono::NaiveDate");
    reveal_strlit("chrono::NaiveTime");
    reveal_strlit("datetime");
    reveal_strlit("f32");
    reveal_strlit("f64");
    reveal_strlit("float32");
    reveal_strlit("float64");
    reveal_strlit("i16");
    reveal_strlit("i32");
    reveal_strlit("i64");
    reveal_strlit("i8");
    reveal_strlit("int16");
    reveal_strlit("int32");
    reveal_strlit("int64");
    reveal_strlit("json");
    reveal_strlit("serde_json::Value");
    reveal_strlit("str");
    reveal_strlit("uuid");
    reveal_strlit("uuid::Uuid");
    assert("i8"@ != "String"@) by { assert("i8"@.len() == 2 && "String"@.len() == 6); }
    assert("i16"@ != "String"@) by { assert("i16"@.len() == 3 && "String"@.len() == 6); }
    assert("i16"@ != "i8"@) by { assert("i16"@.len() == 3 && "i8"@.len() == 2); }
    assert("i32"@ != "String"@) by { assert("i32"@.len() == 3 && "String"@.len() == 6); }
    assert("i32"@ != "i8"@) by { assert("i32"@.len() == 3 && "i8"@.len() == 2); }
    assert("i32"@ != "i16"@) by { assert("i32"@[1] == '3' && "i16"@[1] == '1'); }
    assert("i64"@ != "String"@) by { assert("i64"@.len() == 3 && "String"@.len() == 6); }
    assert("i64"@ != "i8"@) by { assert("i64"@.len() == 3 && "i8"@.len() == 2); }
    assert("i64"@ != "i16"@) by { assert("i64"@[1] == '6' && "i16"@[1] == '1'); }
    assert("i64"@ != "i32"@) by { assert("i64"@[1] == '6' && "i32"@[1] == '3'); }
    assert("f32"@ != "String"@) by { assert("f32"@.len() == 3 && "String"@.len() == 6); }
    assert("f32"@ != "i8"@) by { assert("f32"@.len() == 3 && "i8"@.len() == 2); }
    assert("f32"@ != "i16"@) by { assert("f32"@[0] == 'f' && "i16"@[0] == 'i'); }
    assert("f32"@ != "i32"@) by { assert("f32"@[0] == 'f' && "i32"@[0] == 'i'); }
    assert("f32"@ != "i64"@) by { assert("f32"@[0] == 'f' && "i64"@[0] == 'i'); }
    assert("f64"@ != "String"@) by { assert("f64"@.len() == 3 && "String"@.len() == 6); }
    assert("f64"@ != "i8"@) by { assert("f64"@.len() == 3 && "i8"@.len() == 2); }
    assert("f64"@ != "i16"@) by { assert("f64"@[0] == 'f' && "i16"@[0] == 'i'); }
    assert("f64"@ != "i32"@) by { assert("f64"@[0] == 'f' && "i32"@[0] == 'i'); }
    assert("f64"@ != "i64"@) by { assert("f64"@[0] == 'f' && "i64"@[0] == 'i'); }
    assert("f64"@ != "f32"@) by { assert("f64"@[1] == '6' && "f32"@[1] == '3'); }
    assert("bool"@ != "String"@) by { assert("bool"@.len() == 4 && "String"@.len() == 6); }
    assert("bool"@ != "i8"@) by { assert("bool"@.len() == 4 && "i8"@.len() == 2); }
    assert("bool"@ != "i16"@) by { assert("bool"@.len() == 4 && "i16"@.len() == 3); }
    assert("bool"@ != "i32"@) by { assert("bool"@.len() == 4 && "i32"@.len() == 3); }
    assert("bool"@ != "i64"@) by { assert("bool"@.len() == 4 && "i64"@.len() == 3); }
    assert("bool"@ != "f32"@) by { assert("bool"@.len() == 4 && "f32"@.len() == 3); }
    assert("bool"@ != "f64"@) by { assert("bool"@.len() == 4 && "f64"@.len() == 3); }
    assert("uuid::Uuid"@ != "String"@) by { assert("uuid::Uuid"@.len() == 10 && "String"@.len() == 6); }
    assert("uuid::Uuid"@ != "i8"@) by { assert("uuid::Uuid"@.len() == 10 && "i8"@.len() == 2); }
    assert("uuid::Uuid"@ != "i16"@) by { assert("uuid::Uuid"@.len() == 10 && "i16"@.len() == 3); }
    assert("uuid::Uuid"@ != "i32"@) by { assert("uuid::Uuid"@.len() == 10 && "i32"@.len() == 3); }
    assert("uuid::Uuid"@ != "i64"@) by { assert("uuid::Uuid"@.len() == 10 && "i64"@.len() == 3); }
    assert("uuid::Uuid"@ != "f32"@) by { assert("uuid::Uuid"@.len() == 10 && "f32"@.len() == 3); }
    assert("uuid::Uuid"@ != "f64"@) by { assert("uuid::Uuid"@.len() == 10 && "f64"@.len() == 3); }
    assert("uuid::Uuid"@ != "bool"@) by { assert("uuid::Uuid"@.len() == 10 && "bool"@.len() == 4); }
    assert("serde_json::Value"@ != "String"@) by { assert("serde_json::Value"@.len() == 17 && "String"@.len() == 6); }
    assert("serde_json::Value"@ != "i8"@) by { assert("serde_json::Value"@.len() == 17 && "i8"@.len() == 2); }
    assert("serde_json::Value"@ != "i16"@) by { assert("serde_json::Value"@.len() == 17 && "i16"@.len() == 3); }
    assert("serde_json::Value"@ != "i32"@) by { assert("serde_json::Value"@.len() == 17 && "i32"@.len() == 3); }
    assert("serde_json::Value"@ != "i64"@) by { assert("serde_json::Value"@.len() == 17 && "i64"@.len() == 3); }
    assert("serde_json::Value"@ != "f32"@) by { assert("serde_json::Value"@.len() == 17 && "f32"@.len() == 3); }
    assert("serde_json::Value"@ != "f64"@) by { assert("serde_json::Value"@.len() == 17 && "f64"@.len() == 3); }
    assert("serde_json::Value"@ != "bool"@) by { assert("serde_json::Value"@.len() == 17 && "bool"@.len() == 4); }
    assert("serde_json::Value"@ != "uuid::Uuid"@) by { assert("serde_json::Value"@.len() == 17 && "uuid::Uuid"@.len() == 10); }
    assert("chrono::DateTime<chrono::Utc>"@ != "String"@) by { assert("chrono::DateTime<chrono::Utc>"@.len() == 29 && "String"@.len() == 6); }
    assert("chrono::DateTime<chrono::Utc>"@ != "i8"@) by { assert("chrono::DateTime<chrono::Utc>"@.len() == 29 && "i8"@.len() == 2); }
    assert("chrono::DateTime<chrono::Utc>"@ != "i16"@) by { assert("chrono::DateTime<chrono::Utc>"@.len() == 29 && "i16"@.len() == 3); }
    assert("chrono::DateTime<chrono::Utc>"@ != "i32"@) by { assert("chrono::DateTime<chrono::Utc>"@.len() == 29 && "i32"@.len() == 3); }
    assert("chrono::DateTime<chrono::Utc>"@ != "i64"@) by { assert("chrono::DateTime<chrono::Utc>"@.len() == 29 && "i64"@.len() == 3); }
    assert("chrono::DateTime<chrono::Utc>"@ != "f32"@) by { assert("chrono::DateTime<chrono::Utc>"@.len() == 29 && "f32"@.len() == 3); }
    assert("chrono::DateTime<chrono::Utc>"@ != "f64"@) by { assert("chrono::DateTime<chrono::Utc>"@.len() == 29 && "f64"@.len() == 3); }
    assert("chrono::DateTime<chrono::Utc>"@ != "bool"@) by { assert("chrono::DateTime<chrono::Utc>"@.len() == 29 && "bool"@.len() == 4); }
    assert("chrono::DateTime<chrono::Utc>"@ != "uuid::Uuid"@) by { assert("chrono::DateTime<chrono::Utc>"@.len() == 29 && "uuid::Uuid"@.len() == 10); }
    assert("chrono::DateTime<chrono::Utc>"@ != "serde_json::Value"@) by { assert("chrono::DateTime<chrono::Utc>"@.len() == 29 && "serde_json::Value"@.len() == 17); }
    assert("chrono::DateTime<chrono::Local>"@ != "String"@) by { assert("chrono::DateTime<chrono::Local>"@.len() == 31 && "String"@.len() == 6); }
    assert("chrono::DateTime<chrono::Local>"@ != "i8"@) by { assert("chrono::DateTime<chrono::Local>"@.len() == 31 && "i8"@.len() == 2); }
    assert("chrono::DateTime<chrono::Local>"@ != "i16"@) by { assert("chrono::DateTime<chrono::Local>"@.len() == 31 && "i16"@.len() == 3); }
    assert("chrono::DateTime<chrono::Local>"@ != "i32"@) by { assert("chrono::DateTime<chrono::Local>"@.len() == 31 && "i32"@.len() == 3); }
    assert("chrono::DateTime<chrono::Local>"@ != "i64"@) by { assert("chrono::DateTime<chrono::Local>"@.len() == 31 && "i64"@.len() == 3); }
    assert("chrono::DateTime<chrono::Local>"@ != "f32"@) by { assert("chrono::DateTime<chrono::Local>"@.len() == 31 && "f32"@.len() == 3); }
    assert("chrono::DateTime<chrono::Local>"@ != "f64"@) by { assert("chrono::DateTime<chrono::Local>"@.len() == 31 && "f64"@.len() == 3); }
    assert("chrono::DateTime<chrono::Local>"@ != "bool"@) by { assert("chrono::DateTime<chrono::Local>"@.len() == 31 && "bool"@.len() == 4); }
    assert("chrono::DateTime<chrono::Local>"@ != "uuid::Uuid"@) by { assert("chrono::DateTime<chrono::Local>"@.len() == 31 && "uuid::Uuid"@.len() == 10); }
    assert("chrono::DateTime<chrono::Local>"@ != "serde_json::Value"@) by { assert("chrono::DateTime<chrono::Local>"@.len() == 31 && "serde_json::Value"@.len() == 17); }
    assert("chrono::DateTime<chrono::Local>"@ != "chrono::DateTime<chrono::Utc>"@) by { assert("chrono::DateTime<chrono::Local>"@.len() == 31 && "chrono::DateTime<chrono::Utc>"@.len() == 29); }
    assert("chrono::Duration"@ != "String"@) by { assert("chrono::Duration"@.len() == 16 && "String"@.len() == 6); }
    assert("chrono::Duration"@ != "i8"@) by { assert("chrono::Duration"@.len() == 16 && "i8"@.len() == 2); }
    assert("chrono::Duration"@ != "i16"@) by { assert("chrono::Duration"@.len() == 16 && "i16"@.len() == 3); }
    assert("chrono::Duration"@ != "i32"@) by { assert("chrono::Duration"@.len() == 16 && "i32"@.len() == 3); }
    assert("chrono::Duration"@ != "i64"@) by { assert("chrono::Duration"@.len() == 16 && "i64"@.len() == 3); }
    assert("chrono::Duration"@ != "f32"@) by { assert("chrono::Duration"@.len() == 16 && "f32"@.len() == 3); }
    assert("chrono::Duration"@ != "f64"@) by { assert("chrono::Duration"@.len() == 16 && "f64"@.len() == 3); }
    assert("chrono::Duration"@ != "bool"@) by { assert("chrono::Duration"@.len() == 16 && "bool"@.len() == 4); }
    assert("chrono::Duration"@ != "uuid::Uuid"@) by { assert("chrono::Duration"@.len() == 16 && "uuid::Uuid"@.len() == 10); }
    assert("chrono::Duration"@ != "serde_json::Value"@) by { assert("chrono::Duration"@.len() == 16 && "serde_json::Value"@.len() == 17); }
    assert("chrono::Duration"@ != "chrono::DateTime<chrono::Utc>"@) by { assert("chrono::Duration"@.len() == 16 && "chrono::DateTime<chrono::Utc>"@.len() == 29); }
    assert("chrono::Duration"@ != "chrono::DateTime<chrono::Local>"@) by { assert("chrono::Duration"@.len() == 16 && "chrono::DateTime<chrono::Local>"@.len() == 31); }
    assert("chrono::Date<chrono::Local>"@ != "String"@) by { assert("chrono::Date<chrono::Local>"@.len() == 27 && "String"@.len() == 6); }
    assert("chrono::Date<chrono::Local>"@ != "i8"@) by { assert("chrono::Date<chrono::Local>"@.len() == 27 && "i8"@.len() == 2); }
    assert("chrono::Date<chrono::Local>"@ != "i16"@) by { assert("chrono::Date<chrono::Local>"@.len() == 27 && "i16"@.len() == 3); }
    assert("chrono::Date<chrono::Local>"@ != "i32"@) by { assert("chrono::Date<chrono::Local>"@.len() == 27 && "i32"@.len() == 3); }
    assert("chrono::Date<chrono::Local>"@ != "i64"@) by { assert("chrono::Date<chrono::Local>"@.len() == 27 && "i64"@.len() == 3); }
    assert("chrono::Date<chrono::Local>"@ != "f32"@) by { assert("chrono::Date<chrono::Local>"@.len() == 27 && "f32"@.len() == 3); }
    assert("chrono::Date<chrono::Local>"@ != "f64"@) by { assert("chrono::Date<chrono::Local>"@.len() == 27 && "f64"@.len() == 3); }
    assert("chrono::Date<chrono::Local>"@ != "bool"@) by { assert("chrono::Date<chrono::Local>"@.len() == 27 && "bool"@.len() == 4); }
    assert("chrono::Date<chrono::Local>"@ != "uuid::Uuid"@) by { assert("chrono::Date<chrono::Local>"@.len() == 27 && "uuid::Uuid"@.len() == 10); }
    assert("chrono::Date<chrono::Local>"@ != "serde_json::Value"@) by { assert("chrono::Date<chrono::Local>"@.len() == 27 && "serde_json::Value"@.len() == 17); }
    assert("chrono::Date<chrono::Local>"@ != "chrono::DateTime<chrono::Utc>"@) by { assert("chrono::Date<chrono::Local>"@.len() == 27 && "chrono::DateTime<chrono::Utc>"@.len() == 29); }
    assert("chrono::Date<chrono::Local>"@ != "chrono::DateTime<chrono::Local>"@) by { assert("chrono::Date<chrono::Local>"@.len() == 27 && "chrono::DateTime<chrono::Local>"@.len() == 31); }
    assert("chrono::Date<chrono::Local>"@ != "chrono::Duration"@) by { assert("chrono::Date<chrono::Local>"@.len() == 27 && "chrono::Duration"@.len() == 16); }
    assert("chrono::NaiveTime"@ != "String"@) by { assert("chrono::NaiveTime"@.len() == 17 && "String"@.len() == 6); }
    assert("chrono::NaiveTime"@ != "i8"@) by { assert("chrono::NaiveTime"@.len() == 17 && "i8"@.len() == 2); }
    assert("chrono::NaiveTime"@ != "i16"@) by { assert("chrono::NaiveTime"@.len() == 17 && "i16"@.len() == 3); }
    assert("chrono::NaiveTime"@ != "i32"@) by { assert("chrono::NaiveTime"@.len() == 17 && "i32"@.len() == 3); }
    assert("chrono::NaiveTime"@ != "i64"@) by { assert("chrono::NaiveTime"@.len() == 17 && "i64"@.len() == 3); }
    assert("chrono::NaiveTime"@ != "f32"@) by { assert("chrono::NaiveTime"@.len() == 17 && "f32"@.len() == 3); }
    assert("chrono::NaiveTime"@ != "f64"@) by { assert("chrono::NaiveTime"@.len() == 17 && "f64"@.len() == 3); }
    assert("chrono::NaiveTime"@ != "bool"@) by { assert("chrono::NaiveTime"@.len() == 17 && "bool"@.len() == 4); }
    assert("chrono::NaiveTime"@ != "uuid::Uuid"@) by { assert("chrono::NaiveTime"@.len() == 17 && "uuid::Uuid"@.len() == 10); }
    assert("chrono::NaiveTime"@ != "serde_json::Value"@) by { assert("chrono::NaiveTime"@[0] == 'c' && "serde_json::Value"@[0] == 's'); }
    assert("chrono::NaiveTime"@ != "chrono::DateTime<chrono::Utc>"@) by { assert("chrono::NaiveTime"@.len() == 17 && "chrono::DateTime<chrono::Utc>"@.len() == 29); }
    assert("chrono::NaiveTime"@ != "chrono::DateTime<chrono::Local>"@) by { assert("chrono::NaiveTime"@.len() == 17 && "chrono::DateTime<chrono::Local>"@.len() == 31); }
    assert("chrono::NaiveTime"@ != "chrono::Duration"@) by { assert("chrono::NaiveTime"@.len() == 17 && "chrono::Duration"@.len() == 16); }
    assert("chrono::NaiveTime"@ != "chrono::Date<chrono::Local>"@) by { assert("chrono::NaiveTime"@.len() == 17 && "chrono::Date<chrono::Local>"@.len() == 27); }
    assert("chrono::NaiveDate"@ != "String"@) by { assert("chrono::NaiveDate"@.len() == 17 && "String"@.len() == 6); }
    assert("chrono::NaiveDate"@ != "i8"@) by { assert("chrono::NaiveDate"@.len() == 17 && "i8"@.len() == 2); }
    assert("chrono::NaiveDate"@ != "i16"@) by { assert("chrono::NaiveDate"@.len() == 17 && "i16"@.len() == 3); }
    assert("chrono::NaiveDate"@ != "i32"@) by { assert("chrono::NaiveDate"@.len() == 17 && "i32"@.len() == 3); }
    assert("chrono::NaiveDate"@ != "i64"@) by { assert("chrono::NaiveDate"@.len() == 17 && "i64"@.len() == 3); }
    assert("chrono::NaiveDate"@ != "f32"@) by { assert("chrono::NaiveDate"@.len() == 17 && "f32"@.len() == 3); }
    assert("chrono::NaiveDate"@ != "f64"@) by { assert("chrono::NaiveDate"@.len() == 17 && "f64"@.len() == 3); }
    assert("chrono::NaiveDate"@ != "bool"@) by { assert("chrono::NaiveDate"@.len() == 17 && "bool"@.len() == 4); }
    assert("chrono::NaiveDate"@ != "uuid::Uuid"@) by { assert("chrono::NaiveDate"@.len() == 17 && "uuid::Uuid"@.len() == 10); }
    assert("chrono::NaiveDate"@ != "serde_json::Value"@) by { assert("chrono::NaiveDate"@[0] == 'c' && "serde_json::Value"@[0] == 's'); }
    assert("chrono::NaiveDate"@ != "chrono::DateTime<chrono::Utc>"@) by { assert("chrono::NaiveDate"@.len() == 17 && "chrono::DateTime<chrono::Utc>"@.len() == 29); }
    assert("chrono::NaiveDate"@ != "chrono::DateTime<chrono::Local>"@) by { assert("chrono::NaiveDate"@.len() == 17 && "chrono::DateTime<chrono::Local>"@.len() == 31); }
    assert("chrono::NaiveDate"@ != "chrono::Duration"@) by { assert("chrono::NaiveDate"@.len() == 17 && "chrono::Duration"@.len() == 16); }
    assert("chrono::NaiveDate"@ != "chrono::Date<chrono::Local>"@) by { assert("chrono::NaiveDate"@.len() == 17 && "chrono::Date<chrono::Local>"@.len() == 27); }
    assert("chrono::NaiveDate"@ != "chrono::NaiveTime"@) by { assert("chrono::NaiveDate"@[13] == 'D' && "chrono::NaiveTime"@[13] == 'T'); }
    assert("()"@ != "String"@) by { assert("()"@.len() == 2 && "String"@.len() == 6); }
    assert("()"@ != "i8"@) by { assert("()"@[0] == '(' && "i8"@[0] == 'i'); }
    assert("()"@ != "i16"@) by { assert("()"@.len() == 2 && "i16"@.len() == 3); }
    assert("()"@ != "i32"@) by { assert("()"@.len() == 2 && "i32"@.len() == 3); }
    assert("()"@ != "i64"@) by { assert("()"@.len() == 2 && "i64"@.len() == 3); }
    assert("()"@ != "f32"@) by { assert("()"@.len() == 2 && "f32"@.len() == 3); }
    assert("()"@ != "f64"@) by { assert("()"@.len() == 2 && "f64"@.len() == 3); }
    assert("()"@ != "bool"@) by { assert("()"@.len() == 2 && "bool"@.len() == 4); }
    assert("()"@ != "uuid::Uuid"@) by { assert("()"@.len() == 2 && "uuid::Uuid"@.len() == 10); }
    assert("()"@ != "serde_json::Value"@) by { assert("()"@.len() == 2 && "serde_json::Value"@.len() == 17); }
    assert("()"@ != "chrono::DateTime<chrono::Utc>"@) by { assert("()"@.len() == 2 && "chrono::DateTime<chrono::Utc>"@.len() == 29); }
    assert("()"@ != "chrono::DateTime<chrono::Local>"@) by { assert("()"@.len() == 2 && "chrono::DateTime<chrono::Local>"@.len() == 31); }
    assert("()"@ != "chrono::Duration"@) by { assert("()"@.len() == 2 && "chrono::Duration"@.len() == 16); }
    assert("()"@ != "chrono::Date<chrono::Local>"@) by { assert("()"@.len() == 2 && "chrono::Date<chrono::Local>"@.len() == 27); }
    assert("()"@ != "chrono::NaiveTime"@) by { assert("()"@.len() == 2 && "chrono::NaiveTime"@.len() == 17); }
    assert("()"@ != "chrono::NaiveDate"@) by { assert("()"@.len() == 2 && "chrono::NaiveDate"@.len() == 17); }
    let t0 = scalar_table();
    let t1 = t0.drop_first();
    let t2 = t1.drop_first();
    let t3 = t2.drop_first();
    let t4 = t3.drop_first();
    let t5 = t4.drop_first();
    let t6 = t5.drop_first();
    let t7 = t6.drop_first();
    let t8 = t7.drop_first();
    let t9 = t8.drop_first();
    let t10 = t9.drop_first();
    let t11 = t10.drop_first();
    let t12 = t11.drop_first();
    let t13 = t12.drop_first();
    let t14 = t13.drop_first();
    let t15 = t14.drop_first();
    let t16 = t15.drop_first();
    assert(t0[0] == ("String"@, "str"@));
    assert(t1[0] == ("i8"@, "int16"@));
    assert(t2[0] == ("i16"@, "int16"@));
    assert(t3[0] == ("i32"@, "int32"@));
    assert(t4[0] == ("i64"@, "int64"@));
    assert(t5[0] == ("f32"@, "float32"@));
    assert(t6[0] == ("f64"@, "float64"@));
    assert(t7[0] == ("bool"@, "bool"@));
    assert(t8[0] == ("uuid::Uuid"@, "uuid"@));
    assert(t9[0] == ("serde_json::Value"@, "json"@));
    assert(t10[0] == ("chrono::DateTime<chrono::Utc>"@, "datetime"@));
    assert(t11[0] == ("chrono::DateTime<chrono::Local>"@, "cal::local_datetime"@));
    assert(t12[0] == ("chrono::Duration"@, "<duration>"@));
    assert(t13[0] == ("chrono::Date<chrono::Local>"@, "cal::local_date"@));
    assert(t14[0] == ("chrono::NaiveTime"@, "cal::local_time"@));
    assert(t15[0] == ("chrono::NaiveDate"@, "cal::local_date"@));
    assert(t16[0] == ("()"@, ""@));
    assert(lookup(t0, "String"@) == Some("str"@));
    assert(lookup(t0, "i8"@) == lookup(t1, "i8"@));
    assert(lookup(t1, "i8"@) == Some("int16"@));
    assert(lookup(t0, "i16"@) == lookup(t1, "i16"@));
    assert(lookup(t1, "i16"@) == lookup(t2, "i16"@));
    assert(lookup(t2, "i16"@) == Some("int16"@));
    assert(lookup(t0, "i32"@) == lookup(t1, "i32"@));
    assert(lookup(t1, "i32"@) == lookup(t2, "i32"@));
    assert(lookup(t2, "i32"@) == lookup(t3, "i32"@));
    assert(lookup(t3, "i32"@) == Some("int32"@));
    assert(lookup(t0, "i64"@) == lookup(t1, "i64"@));
    assert(lookup(t1, "i64"@) == lookup(t2, "i64"@));
    assert(lookup(t2, "i64"@) == lookup(t3, "i64"@));
    assert(lookup(t3, "i64"@) == lookup(t4, "i64"@));
    assert(lookup(t4, "i64"@) == Some("int64"@));
    assert(lookup(t0, "f32"@) == lookup(t1, "f32"@));
    assert(lookup(t1, "f32"@) == lookup(t2, "f32"@));
    assert(lookup(t2, "f32"@) == lookup(t3, "f32"@));
    assert(lookup(t3, "f32"@) == lookup(t4, "f32"@));
    assert(lookup(t4, "f32"@) == lookup(t5, "f32"@));
    assert(lookup(t5, "f32"@) == Some("float32"@));
    assert(lookup(t0, "f64"@) == lookup(t1, "f64"@));
    assert(lookup(t1, "f64"@) == lookup(t2, "f64"@));
    assert(lookup(t2, "f64"@) == lookup(t3, "f64"@));
    assert(lookup(t3, "f64"@) == lookup(t4, "f64"@));
    assert(lookup(t4, "f64"@) == lookup(t5, "f64"@));
    assert(lookup(t5, "f64"@) == lookup(t6, "f64"@));
    assert(lookup(t6, "f64"@) == Some("float64"@));
    assert(lookup(t0, "bool"@) == lookup(t1, "bool"@));
    assert(lookup(t1, "bool"@) == lookup(t2, "bool"@));
    assert(lookup(t2, "bool"@) == lookup(t3, "bool"@));
    assert(lookup(t3, "bool"@) == lookup(t4, "bool"@));
    assert(lookup(t4, "bool"@) == lookup(t5, "bool"@));
    assert(lookup(t5, "bool"@) == lookup(t6, "bool"@));
    assert(lookup(t6, "bool"@) == lookup(t7, "bool"@));
    assert(lookup(t7, "bool"@) == Some("bool"@));
    assert(lookup(t0, "uuid::Uuid"@) == lookup(t1, "uuid::Uuid"@));
    assert(lookup(t1, "uuid::Uuid"@) == lookup(t2, "uuid::Uuid"@));
    assert(lookup(t2, "uuid::Uuid"@) == lookup(t3, "uuid::Uuid"@));
    assert(lookup(t3, "uuid::Uuid"@) == lookup(t4, "uuid::Uuid"@));
    assert(lookup(t4, "uuid::Uuid"@) == lookup(t5, "uuid::Uuid"@));
    assert(lookup(t5, "uuid::Uuid"@) == lookup(t6, "uuid::Uuid"@));
    assert(lookup(t6, "uuid::Uuid"@) == lookup(t7, "uuid::Uuid"@));
    assert(lookup(t7, "uuid::Uuid"@) == lookup(t8, "uuid::Uuid"@));
    assert(lookup(t8, "uuid::Uuid"@) == Some("uuid"@));
    assert(lookup(t0, "serde_json::Value"@) == lookup(t1, "serde_json::Value"@));
    assert(lookup(t1, "serde_json::Value"@) == lookup(t2, "serde_json::Value"@));
    assert(lookup(t2, "serde_json::Value"@) == lookup(t3, "serde_json::Value"@));
    assert(lookup(t3, "serde_json::Value"@) == lookup(t4, "serde_json::Value"@));
    assert(lookup(t4, "serde_json::Value"@) == lookup(t5, "serde_json::Value"@));
    assert(lookup(t5, "serde_json::Value"@) == lookup(t6, "serde_json::Value"@));
    assert(lookup(t6, "serde_json::Value"@) == lookup(t7, "serde_json::Value"@));
    assert(lookup(t7, "serde_json::Value"@) == lookup(t8, "serde_json::Value"@));
    assert(lookup(t8, "serde_json::Value"@) == lookup(t9, "serde_json::Value"@));
    assert(lookup(t9, "serde_json::Value"@) == Some("json"@));
    assert(lookup(t0, "chrono::DateTime<chrono::Utc>"@) == lookup(t1, "chrono::DateTime<chrono::Utc>"@));
    assert(lookup(t1, "chrono::DateTime<chrono::Utc>"@) == lookup(t2, "chrono::DateTime<chrono::Utc>"@));
    assert(lookup(t2, "chrono::DateTime<chrono::Utc>"@) == lookup(t3, "chrono::DateTime<chrono::Utc>"@));
    assert(lookup(t3, "chrono::DateTime<chrono::Utc>"@) == lookup(t4, "chrono::DateTime<chrono::Utc>"@));
    assert(lookup(t4, "chrono::DateTime<chrono::Utc>"@) == lookup(t5, "chrono::DateTime<chrono::Utc>"@));
    assert(lookup(t5, "chrono::DateTime<chrono::Utc>"@) == lookup(t6, "chrono::DateTime<chrono::Utc>"@));
    assert(lookup(t6, "chrono::DateTime<chrono::Utc>"@) == lookup(t7, "chrono::DateTime<chrono::Utc>"@));
    assert(lookup(t7, "chrono::DateTime<chrono::Utc>"@) == lookup(t8, "chrono::DateTime<chrono::Utc>"@));
    assert(lookup(t8, "chrono::DateTime<chrono::Utc>"@) == lookup(t9, "chrono::DateTime<chrono::Utc>"@));
    assert(lookup(t9, "chrono::DateTime<chrono::Utc>"@) == lookup(t10, "chrono::DateTime<chrono::Utc>"@));
    assert(lookup(t10, "chrono::DateTime<chrono::Utc>"@) == Some("datetime"@));
    assert(lookup(t0, "chrono::DateTime<chrono::Local>"@) == lookup(t1, "chrono::DateTime<chrono::Local>"@));
    assert(lookup(t1, "chrono::DateTime<chrono::Local>"@) == lookup(t2, "chrono::DateTime<chrono::Local>"@));
    assert(lookup(t2, "chrono::DateTime<chrono::Local>"@) == lookup(t3, "chrono::DateTime<chrono::Local>"@));
    assert(lookup(t3, "chrono::DateTime<chrono::Local>"@) == lookup(t4, "chrono::DateTime<chrono::Local>"@));
    assert(lookup(t4, "chrono::DateTime<chrono::Local>"@) == lookup(t5, "chrono::DateTime<chrono::Local>"@));
    assert(lookup(t5, "chrono::DateTime<chrono::Local>"@) == lookup(t6, "chrono::DateTime<chrono::Local>"@));
    assert(lookup(t6, "chrono::DateTime<chrono::Local>"@) == lookup(t7, "chrono::DateTime<chrono::Local>"@));
    assert(lookup(t7, "chrono::DateTime<chrono::Local>"@) == lookup(t8, "chrono::DateTime<chrono::Local>"@));
    assert(lookup(t8, "chrono::DateTime<chrono::Local>"@) == lookup(t9, "chrono::DateTime<chrono::Local>"@));
    assert(lookup(t9, "chrono::DateTime<chrono::Local>"@) == lookup(t10, "chrono::DateTime<chrono::Local>"@));
    assert(lookup(t10, "chrono::DateTime<chrono::Local>"@) == lookup(t11, "chrono::DateTime<chrono::Local>"@));
    assert(lookup(t11, "chrono::DateTime<chrono::Local>"@) == Some("cal::local_datetime"@));
    assert(lookup(t0, "chrono::Duration"@) == lookup(t1, "chrono::Duration"@));
    assert(lookup(t1, "chrono::Duration"@) == lookup(t2, "chrono::Duration"@));
    assert(lookup(t2, "chrono::Duration"@) == lookup(t3, "chrono::Duration"@));
    assert(lookup(t3, "chrono::Duration"@) == lookup(t4, "chrono::Duration"@));
    assert(lookup(t4, "chrono::Duration"@) == lookup(t5, "chrono::Duration"@));
    assert(lookup(t5, "chrono::Duration"@) == lookup(t6, "chrono::Duration"@));
    assert(lookup(t6, "chrono::Duration"@) == lookup(t7, "chrono::Duration"@));
    assert(lookup(t7, "chrono::Duration"@) == lookup(t8, "chrono::Duration"@));
    assert(lookup(t8, "chrono::Duration"@) == lookup(t9, "chrono::Duration"@));
    assert(lookup(t9, "chrono::Duration"@) == lookup(t10, "chrono::Duration"@));
    assert(lookup(t10, "chrono::Duration"@) == lookup(t11, "chrono::Duration"@));
    assert(lookup(t11, "chrono::Duration"@) == lookup(t12, "chrono::Duration"@));
    assert(lookup(t12, "chrono::Duration"@) == Some("<duration>"@));
    assert(lookup(t0, "chrono::Date<chrono::Local>"@) == lookup(t1, "chrono::Date<chrono::Local>"@));
    assert(lookup(t1, "chrono::Date<chrono::Local>"@) == lookup(t2, "chrono::Date<chrono::Local>"@));
    assert(lookup(t2, "chrono::Date<chrono::Local>"@) == lookup(t3, "chrono::Date<chrono::Local>"@));
    assert(lookup(t3, "chrono::Date<chrono::Local>"@) == lookup(t4, "chrono::Date<chrono::Local>"@));
    assert(lookup(t4, "chrono::Date<chrono::Local>"@) == lookup(t5, "chrono::Date<chrono::Local>"@));
    assert(lookup(t5, "chrono::Date<chrono::Local>"@) == lookup(t6, "chrono::Date<chrono::Local>"@));
    assert(lookup(t6, "chrono::Date<chrono::Local>"@) == lookup(t7, "chrono::Date<chrono::Local>"@));
    assert(lookup(t7, "chrono::Date<chrono::Local>"@) == lookup(t8, "chrono::Date<chrono::Local>"@));
    assert(lookup(t8, "chrono::Date<chrono::Local>"@) == lookup(t9, "chrono::Date<chrono::Local>"@));
    assert(lookup(t9, "chrono::Date<chrono::Local>"@) == lookup(t10, "chrono::Date<chrono::Local>"@));
    assert(lookup(t10, "chrono::Date<chrono::Local>"@) == lookup(t11, "chrono::Date<chrono::Local>"@));
    assert(lookup(t11, "chrono::Date<chrono::Local>"@) == lookup(t12, "chrono::Date<chrono::Local>"@));
    assert(lookup(t12, "chrono::Date<chrono::Local>"@) == lookup(t13, "chrono::Date<chrono::Local>"@));
    assert(lookup(t13, "chrono::Date<chrono::Local>"@) == Some("cal::local_date"@));
    assert(lookup(t0, "chrono::NaiveTime"@) == lookup(t1, "chrono::NaiveTime"@));
    assert(lookup(t1, "chrono::NaiveTime"@) == lookup(t2, "chrono::NaiveTime"@));
    assert(lookup(t2, "chrono::NaiveTime"@) == lookup(t3, "chrono::NaiveTime"@));
    assert(lookup(t3, "chrono::NaiveTime"@) == lookup(t4, "chrono::NaiveTime"@));
    assert(lookup(t4, "chrono::NaiveTime"@) == lookup(t5, "chrono::NaiveTime"@));
    assert(lookup(t5, "chrono::NaiveTime"@) == lookup(t6, "chrono::NaiveTime"@));
    assert(lookup(t6, "chrono::NaiveTime"@) == lookup(t7, "chrono::NaiveTime"@));
    assert(lookup(t7, "chrono::NaiveTime"@) == lookup(t8, "chrono::NaiveTime"@));
    assert(lookup(t8, "chrono::NaiveTime"@) == lookup(t9, "chrono::NaiveTime"@));
    assert(lookup(t9, "chrono::NaiveTime"@) == lookup(t10, "chrono::NaiveTime"@));
    assert(lookup(t10, "chrono::NaiveTime"@) == lookup(t11, "chrono::NaiveTime"@));
    assert(lookup(t11, "chrono::NaiveTime"@) == lookup(t12, "chrono::NaiveTime"@));
    assert(lookup(t12, "chrono::NaiveTime"@) == lookup(t13, "chrono::NaiveTime"@));
    assert(lookup(t13, "chrono::NaiveTime"@) == lookup(t14, "chrono::NaiveTime"@));
    assert(lookup(t14, "chrono::NaiveTime"@) == Some("cal::local_time"@));
    assert(lookup(t0, "chrono::NaiveDate"@) == lookup(t1, "chrono::NaiveDate"@));
    assert(lookup(t1, "chrono::NaiveDate"@) == lookup(t2, "chrono::NaiveDate"@));
    assert(lookup(t2, "chrono::NaiveDate"@) == lookup(t3, "chrono::NaiveDate"@));
    assert(lookup(t3, "chrono::NaiveDate"@) == lookup(t4, "chrono::NaiveDate"@));
    assert(lookup(t4, "chrono::NaiveDate"@) == lookup(t5, "chrono::NaiveDate"@));
    assert(lookup(t5, "chrono::NaiveDate"@) == lookup(t6, "chrono::NaiveDate"@));
    assert(lookup(t6, "chrono::NaiveDate"@) == lookup(t7, "chrono::NaiveDate"@));
    assert(lookup(t7, "chrono::NaiveDate"@) == lookup(t8, "chrono::NaiveDate"@));
    assert(lookup(t8, "chrono::NaiveDate"@) == lookup(t9, "chrono::NaiveDate"@));
    assert(lookup(t9, "chrono::NaiveDate"@) == lookup(t10, "chrono::NaiveDate"@));
    assert(lookup(t10, "chrono::NaiveDate"@) == lookup(t11, "chrono::NaiveDate"@));
    assert(lookup(t11, "chrono::NaiveDate"@) == lookup(t12, "chrono::NaiveDate"@));
    assert(lookup(t12, "chrono::NaiveDate"@) == lookup(t13, "chrono::NaiveDate"@));
    assert(lookup(t13, "chrono::NaiveDate"@) == lookup(t14, "chrono::NaiveDate"@));
    assert(lookup(t14, "chrono::NaiveDate"@) == lookup(t15, "chrono::NaiveDate"@));
    assert(lookup(t15, "chrono::NaiveDate"@) == Some("cal::local_date"@));
    assert(lookup(t0, "()"@) == lookup(t1, "()"@));
    assert(lookup(t1, "()"@) == lookup(t2, "()"@));
    assert(lookup(t2, "()"@) == lookup(t3, "()"@));
    assert(lookup(t3, "()"@) == lookup(t4, "()"@));
    assert(lookup(t4, "()"@) == lookup(t5, "()"@));
    assert(lookup(t5, "()"@) == lookup(t6, "()"@));
    assert(lookup(t6, "()"@) == lookup(t7, "()"@));
    assert(lookup(t7, "()"@) == lookup(t8, "()"@));
    assert(lookup(t8, "()"@) == lookup(t9, "()"@));
    assert(lookup(t9, "()"@) == lookup(t10, "()"@));
    assert(lookup(t10, "()"@) == lookup(t11, "()"@));
    assert(lookup(t11, "()"@) == lookup(t12, "()"@));
    assert(lookup(t12, "()"@) == lookup(t13, "()"@));
    assert(lookup(t13, "()"@) == lookup(t14, "()"@));
    assert(lookup(t14, "()"@) == lookup(t15, "()"@));
    assert(lookup(t15, "()"@) == lookup(t16, "()"@));
    assert(lookup(t16, "()"@) == Some(""@));
}

/// The cast that a field gets from its Rust type: `<str>` for `String`,
/// `<int16>` for `i8` and `i16`, `<int32>` for `i32`, `<int64>` for `i64`,
/// `<float32>` for `f32`, `<float64>` for `f64`, `<bool>` for `bool`, and so on for
/// the other supported types (the table writes the duration already in angle
/// brackets, and these are kept); nothing for `()`.
pub proof fn law_scalar_casts(t: TypeV)
    ensures
        !type_is_named(t, "Vec"@) && name_of_type(inner_type(t)) == "String"@ ==> scalar_of(t) == Ok::<Seq<char>, Seq<char>>("<str>"@),
        !type_is_named(t, "Vec"@) && name_of_type(inner_type(t)) == "i8"@ ==> scalar_of(t) == Ok::<Seq<char>, Seq<char>>("<int16>"@),
        !type_is_named(t, "Vec"@) && name_of_type(inner_type(t)) == "i16"@ ==> scalar_of(t) == Ok::<Seq<char>, Seq<char>>("<int16>"@),
        !type_is_named(t, "Vec"@) && name_of_type(inner_type(t)) == "i32"@ ==> scalar_of(t) == Ok::<Seq<char>, Seq<char>>("<int32>"@),
        !type_is_named(t, "Vec"@) && name_of_type(inner_type(t)) == "i64"@ ==> scalar_of(t) == Ok::<Seq<char>, Seq<char>>("<int64>"@),
        !type_is_named(t, "Vec"@) && name_of_type(inner_type(t)) == "f32"@ ==> scalar_of(t) == Ok::<Seq<char>, Seq<char>>("<float32>"@),
        !type_is_named(t, "Vec"@) && name_of_type(inner_type(t)) == "f64"@ ==> scalar_of(t) == Ok::<Seq<char>, Seq<char>>("<float64>"@),
        !type_is_named(t, "Vec"@) && name_of_type(inner_type(t)) == "bool"@ ==> scalar_of(t) == Ok::<Seq<char>, Seq<char>>("<bool>"@),
        !type_is_named(t, "Vec"@) && name_of_type(inner_type(t)) == "uuid::Uuid"@ ==> scalar_of(t) == Ok::<Seq<char>, Seq<char>>("<uuid>"@),
        !type_is_named(t, "Vec"@) && name_of_type(inner_type(t)) == "serde_json::Value"@ ==> scalar_of(t) == Ok::<Seq<char>, Seq<char>>("<json>"@),
        !type_is_named(t, "Vec"@) && name_of_type(inner_type(t)) == "chrono::DateTime<chrono::Utc>"@ ==> scalar_of(t) == Ok::<Seq<char>, Seq<char>>("<datetime>"@),
        !type_is_named(t, "Vec"@) && name_of_type(inner_type(t)) == "chrono::DateTime<chrono::Local>"@ ==> scalar_of(t) == Ok::<Seq<char>, Seq<char>>("<cal::local_datetime>"@),
        !type_is_named(t, "Vec"@) && name_of_type(inner_type(t)) == "chrono::Duration"@ ==> scalar_of(t) == Ok::<Seq<char>, Seq<char>>("<<duration>>"@),
        !type_is_named(t, "Vec"@) && name_of_type(inner_type(t)) == "chrono::Date<chrono::Local>"@ ==> scalar_of(t) == Ok::<Seq<char>, Seq<char>>("<cal::local_date>"@),
        !type_is_named(t, "Vec"@) && name_of_type(inner_type(t)) == "chrono::NaiveTime"@ ==> scalar_of(t) == Ok::<Seq<char>, Seq<char>>("<cal::local_time>"@),
        !type_is_named(t, "Vec"@) && name_of_type(inner_type(t)) == "chrono::NaiveDate"@ ==> scalar_of(t) == Ok::<Seq<char>, Seq<char>>("<cal::local_date>"@),
        !type_is_named(t, "Vec"@) && name_of_type(inner_type(t)) == "()"@ ==> scalar_of(t) == Ok::<Seq<char>, Seq<char>>(""@),
{
    lemma_scalar_table_entries();
    reveal_strlit("Vec");
    reveal_strlit("<");
    reveal_strlit(">");
    reveal_strlit("");
    reveal_strlit("()");
    reveal_strlit("<<duration>>");
    reveal_strlit("<array<<duration>>>");
    reveal_strlit("<array<>>");
    reveal_strlit("<array<bool>>");
    reveal_strlit("<array<cal::local_date>>");
    reveal_strlit("<array<cal::local_datetime>>");
    reveal_strlit("<array<cal::local_time>>");
    reveal_strlit("<array<datetime>>");
    reveal_strlit("<array<float32>>");
    reveal_strlit("<array<float64>>");
    reveal_strlit("<array<int16>>");
    reveal_strlit("<array<int32>>");
    reveal_strlit("<array<int64>>");
    reveal_strlit("<array<json>>");
    reveal_strlit("<array<str>>");
    reveal_strlit("<array<uuid>>");
    reveal_strlit("<bool>");
    reveal_strlit("<cal::local_date>");
    reveal_strlit("<cal::local_datetime>");
    reveal_strlit("<cal::local_time>");
    reveal_strlit("<datetime>");
    reveal_strlit("<duration>");
    reveal_strlit("<float32>");
    reveal_strlit("<float64>");
    reveal_strlit("<int16>");
    reveal_strlit("<int32>");
    reveal_strlit("<int64>");
    reveal_strlit("<json>");
    reveal_strlit("<str>");
    reveal_strlit("<uuid>");
    reveal_strlit("String");
    reveal_strlit("bool");
    reveal_strlit("cal::local_date");
    reveal_strlit("cal::local_datetime");
    reveal_strlit("cal::local_time");
    reveal_strlit("chrono::Date<chrono::Local>");
    reveal_strlit("chrono::DateTime<chrono::Local>");
    reveal_strlit("chrono::DateTime<chrono::Utc>");
    reveal_strlit("chrono::Duration");
    reveal_strlit("chrono::NaiveDate");
    reveal_strlit("chrono::NaiveTime");
    reveal_strlit("datetime");
    reveal_strlit("f32");
    reveal_strlit("f64");
    reveal_strlit("float32");
    reveal_strlit("float64");
    reveal_strlit("i16");
    reveal_strlit("i32");
    reveal_strlit("i64");
    reveal_strlit("i8");
    reveal_strlit("int16");
    reveal_strlit("int32");
    reveal_strlit("int64");
    reveal_strlit("json");
    reveal_strlit("serde_json::Value");
    reveal_strlit("str");
    reveal_strlit("uuid");
    reveal_strlit("uuid::Uuid");
    assert("<"@ + "str"@ + ">"@ =~= "<str>"@);
    assert("<"@ + "int16"@ + ">"@ =~= "<int16>"@);
    assert("<"@ + "int16"@ + ">"@ =~= "<int16>"@);
    assert("<"@ + "int32"@ + ">"@ =~= "<int32>"@);
    assert("<"@ + "int64"@ + ">"@ =~= "<int64>"@);
    assert("<"@ + "float32"@ + ">"@ =~= "<float32>"@);
    assert("<"@ + "float64"@ + ">"@ =~= "<float64>"@);
    assert("<"@ + "bool"@ + ">"@ =~= "<bool>"@);
    assert("<"@ + "uuid"@ + ">"@ =~= "<uuid>"@);
    assert("<"@ + "json"@ + ">"@ =~= "<json>"@);
    assert("<"@ + "datetime"@ + ">"@ =~= "<datetime>"@);
    assert("<"@ + "cal::local_datetime"@ + ">"@ =~= "<cal::local_datetime>"@);
    assert("<"@ + "<duration>"@ + ">"@ =~= "<<duration>>"@);
    assert("<"@ + "cal::local_date"@ + ">"@ =~= "<cal::local_date>"@);
    assert("<"@ + "cal::local_time"@ + ">"@ =~= "<cal::local_time>"@);
    assert("<"@ + "cal::local_date"@ + ">"@ =~= "<cal::local_date>"@);
}

/// The cast that a `Vec` field gets: the array of its element's scalar, such as
/// `<array<str>>` for `Vec<String>` and `<array<float64>>` for `Vec<f64>`.
pub proof fn law_vec_scalar_casts(t: TypeV)
    ensures
        type_is_named(t, "Vec"@) && name_of_type(inner_type(t)) == "String"@ ==> scalar_of(t) == Ok::<Seq<char>, Seq<char>>("<array<str>>"@),
        type_is_named(t, "Vec"@) && name_of_type(inner_type(t)) == "i8"@ ==> scalar_of(t) == Ok::<Seq<char>, Seq<char>>("<array<int16>>"@),
        type_is_named(t, "Vec"@) && name_of_type(inner_type(t)) == "i16"@ ==> scalar_of(t) == Ok::<Seq<char>, Seq<char>>("<array<int16>>"@),
        type_is_named(t, "Vec"@) && name_of_type(inner_type(t)) == "i32"@ ==> scalar_of(t) == Ok::<Seq<char>, Seq<char>>("<array<int32>>"@),
        type_is_named(t, "Vec"@) && name_of_type(inner_type(t)) == "i64"@ ==> scalar_of(t) == Ok::<Seq<char>, Seq<char>>("<array<int64>>"@),
        type_is_named(t, "Vec"@) && name_of_type(inner_type(t)) == "f32"@ ==> scalar_of(t) == Ok::<Seq<char>, Seq<char>>("<array<float32>>"@),
        type_is_named(t, "Vec"@) && name_of_type(inner_type(t)) == "f64"@ ==> scalar_of(t) == Ok::<Seq<char>, Seq<char>>("<array<float64>>"@),
        type_is_named(t, "Vec"@) && name_of_type(inner_type(t)) == "bool"@ ==> scalar_of(t) == Ok::<Seq<char>, Seq<char>>("<array<bool>>"@),
        type_is_named(t, "Vec"@) && name_of_type(inner_type(t)) == "uuid::Uuid"@ ==> scalar_of(t) == Ok::<Seq<char>, Seq<char>>("<array<uuid>>"@),
        type_is_named(t, "Vec"@) && name_of_type(inner_type(t)) == "serde_json::Value"@ ==> scalar_of(t) == Ok::<Seq<char>, Seq<char>>("<array<json>>"@),
        type_is_named(t, "Vec"@) && name_of_type(inner_type(t)) == "chrono::DateTime<chrono::Utc>"@ ==> scalar_of(t) == Ok::<Seq<char>, Seq<char>>("<array<datetime>>"@),
        type_is_named(t, "Vec"@) && name_of_type(inner_type(t)) == "chrono::DateTime<chrono::Local>"@ ==> scalar_of(t) == Ok::<Seq<char>, Seq<char>>("<array<cal::local_datetime>>"@),
        type_is_named(t, "Vec"@) && name_of_type(inner_type(t)) == "chrono::Duration"@ ==> scalar_of(t) == Ok::<Seq<char>, Seq<char>>("<array<<duration>>>"@),
        type_is_named(t, "Vec"@) && name_of_type(inner_type(t)) == "chrono::Date<chrono::Local>"@ ==> scalar_of(t) == Ok::<Seq<char>, Seq<char>>("<array<cal::local_date>>"@),
        type_is_named(t, "Vec"@) && name_of_type(inner_type(t)) == "chrono::NaiveTime"@ ==> scalar_of(t) == Ok::<Seq<char>, Seq<char>>("<array<cal::local_time>>"@),
        type_is_named(t, "Vec"@) && name_of_type(inner_type(t)) == "chrono::NaiveDate"@ ==> scalar_of(t) == Ok::<Seq<char>, Seq<char>>("<array<cal::local_date>>"@),
        type_is_named(t, "Vec"@) && name_of_type(inner_type(t)) == "()"@ ==> scalar_of(t) == Ok::<Seq<char>, Seq<char>>("<array<>>"@),
{
    lemma_scalar_table_entries();
    reveal_strlit("Vec");
    reveal_strlit("<array<");
    reveal_strlit(">>");
    reveal_strlit("");
    reveal_strlit("()");
    reveal_strlit("<<duration>>");
    reveal_strlit("<array<<duration>>>");
    reveal_strlit("<array<>>");
    reveal_strlit("<array<bool>>");
    reveal_strlit("<array<cal::local_date>>");
    reveal_strlit("<array<cal::local_datetime>>");
    reveal_strlit("<array<cal::local_time>>");
    reveal_strlit("<array<datetime>>");
    reveal_strlit("<array<float32>>");
    reveal_strlit("<array<float64>>");
    reveal_strlit("<array<int16>>");
    reveal_strlit("<array<int32>>");
    reveal_strlit("<array<int64>>");
    reveal_strlit("<array<json>>");
    reveal_strlit("<array<str>>");
    reveal_strlit("<array<uuid>>");
    reveal_strlit("<bool>");
    reveal_strlit("<cal::local_date>");
    reveal_strlit("<cal::local_datetime>");
    reveal_strlit("<cal::local_time>");
    reveal_strlit("<datetime>");
    reveal_strlit("<duration>");
    reveal_strlit("<float32>");
    reveal_strlit("<float64>");
    reveal_strlit("<int16>");
    reveal_strlit("<int32>");
    reveal_strlit("<int64>");
    reveal_strlit("<json>");
    reveal_strlit("<str>");
    reveal_strlit("<uuid>");
    reveal_strlit("String");
    reveal_strlit("bool");
    reveal_strlit("cal::local_date");
    reveal_strlit("cal::local_datetime");
    reveal_strlit("cal::local_time");
    reveal_strlit("chrono::Date<chrono::Local>");
    reveal_strlit("chrono::DateTime<chrono::Local>");
    reveal_strlit("chrono::DateTime<chrono::Utc>");
    reveal_strlit("chrono::Duration");
    reveal_strlit("chrono::NaiveDate");
    reveal_strlit("chrono::NaiveTime");
    reveal_strlit("datetime");
    reveal_strlit("f32");
    reveal_strlit("f64");
    reveal_strlit("float32");
    reveal_strlit("float64");
    reveal_strlit("i16");
    reveal_strlit("i32");
    reveal_strlit("i64");
    reveal_strlit("i8");
    reveal_strlit("int16");
    reveal_strlit("int32");
    reveal_strlit("int64");
    reveal_strlit("json");
    reveal_strlit("serde_json::Value");
    reveal_strlit("str");
    reveal_strlit("uuid");
    reveal_strlit("uuid::Uuid");
    assert("<array<"@ + "str"@ + ">>"@ =~= "<array<str>>"@);
    assert("<array<"@ + "int16"@ + ">>"@ =~= "<array<int16>>"@);
    assert("<array<"@ + "int16"@ + ">>"@ =~= "<array<int16>>"@);
    assert("<array<"@ + "int32"@ + ">>"@ =~= "<array<int32>>"@);
    assert("<array<"@ + "int64"@ + ">>"@ =~= "<array<int64>>"@);
    assert("<array<"@ + "float32"@ + ">>"@ =~= "<array<float32>>"@);
    assert("<array<"@ + "float64"@ + ">>"@ =~= "<array<float64>>"@);
    assert("<array<"@ + "bool"@ + ">>"@ =~= "<array<bool>>"@);
    assert("<array<"@ + "uuid"@ + ">>"@ =~= "<array<uuid>>"@);
    assert("<array<"@ + "json"@ + ">>"@ =~= "<array<json>>"@);
    assert("<array<"@ + "datetime"@ + ">>"@ =~= "<array<datetime>>"@);
    assert("<array<"@ + "cal::local_datetime"@ + ">>"@ =~= "<array<cal::local_datetime>>"@);
    assert("<array<"@ + "<duration>"@ + ">>"@ =~= "<array<<duration>>>"@);
    assert("<array<"@ + "cal::local_date"@ + ">>"@ =~= "<array<cal::local_date>>"@);
    assert("<array<"@ + "cal::local_time"@ + ">>"@ =~= "<array<cal::local_time>>"@);
    assert("<array<"@ + "cal::local_date"@ + ">>"@ =~= "<array<cal::local_date>>"@);
    assert("<array<"@ + ""@ + ">>"@ =~= "<array<>>"@);
}

} // verus!
