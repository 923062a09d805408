use vstd::prelude::*;
use vstd::string::*;

use crate::constants::{EXISTS, NOT_EXISTS, BANG_EXISTS, IS, EQUAL, IS_NOT, NOT_EQUAL, LIKE, ILIKE, IN, NOT_IN, GREATER_THAN, SUP_SIGN, GREATER_THAN_OR_EQUAL, SUP_OR_EQ_SIGN, LESSER_THAN, INF_SIGN, LESSER_THAN_OR_EQUAL, INF_OR_EQ_SIGN, ASSIGN, ASSIGN_SIGN, CONCAT, CONCAT_SIGN, PARAM_PATTERN, PUSH, PUSH_SIGN, STRING, UNLESS_CONFLICT, VEC};
use crate::delete_query::delete_query_spec;
use crate::edgedb_filters::edgedb_filters_spec;
use crate::file_query::{regex_matches, validate_spec};
use crate::insert_query::{InsertQueryV, insert_columns, insert_params, insert_query_spec, insert_stmts_spec, second_of, ucs_spec};
use crate::model::{FieldDecl, TypeV};
use crate::queries::{duplicate_check_spec, labels_distinct};
use crate::query_result::{ResultFieldV, shape_elements, shape_spec};
use crate::select_query::select_query_spec;
use crate::statements::filters::{
    FilterRequiredQuery, QueryFilterStatementV, filter_field_step, filter_labels, query_filter_spec,
    query_filters_spec,
};
use crate::statements::nested_query::{NestedQueryParentType, nested_query_spec};
use crate::tags::filter_tag::{FilterTagsV, SelectFilterOperator, filter_tags_spec, operator_keyword, operator_spec, operator_statement};
use crate::tags::set_tag::{SetOption, set_option_spec, set_option_statement};
use crate::tags::unless_conflict_tag::unless_conflict_spec;
use crate::tags::utils::column_name_spec;
use crate::text::{
    ascii_lower, ends_with_char, is_ascii_text, is_white_space, lower, not_among, starts_with_char, trim_end_spec, trim_start_spec,
    trimmed, without_chars,
};
use crate::helpers::attributes::{EdgeDbTypeV, format_type_spec};
use crate::type_utils::type_is_named;
use crate::update_query::{UpdateQueryV, update_params, update_query_spec};

verus! {

/// A check that accepts a list of labels has found no label twice.
pub proof fn lemma_accepted_labels_distinct(labels: Seq<Seq<char>>)
    requires
        duplicate_check_spec(labels) is Ok,
    ensures
        labels_distinct(labels),
{
}

/// No parameter label occurs twice in an insert that is accepted.
pub proof fn law_insert_labels_distinct(fields: Seq<FieldDecl>)
    requires
        insert_query_spec(fields) is Ok,
    ensures
        labels_distinct(second_of(insert_params(insert_query_spec(fields)->Ok_0.statements))),
{
}

/// No parameter label occurs twice in a select that is accepted.
pub proof fn law_select_labels_distinct(fields: Seq<FieldDecl>)
    requires
        select_query_spec(fields) is Ok,
    ensures
        labels_distinct(second_of(filter_labels(select_query_spec(fields)->Ok_0.filter))),
{
}

/// No parameter label occurs twice in an update that is accepted, its filters'
/// and its sets' taken together.
pub proof fn law_update_labels_distinct(fields: Seq<FieldDecl>)
    requires
        update_query_spec(fields) is Ok,
    ensures
        labels_distinct(second_of(update_params(update_query_spec(fields)->Ok_0))),
{
}

/// No parameter label occurs twice in a delete that is accepted.
pub proof fn law_delete_labels_distinct(fields: Seq<FieldDecl>)
    requires
        delete_query_spec(fields) is Ok,
    ensures
        labels_distinct(second_of(filter_labels(delete_query_spec(fields)->Ok_0))),
{
}

/// An update that is accepted sets something.
pub proof fn law_update_sets_something(fields: Seq<FieldDecl>)
    requires
        update_query_spec(fields) is Ok,
    ensures
        !(update_query_spec(fields)->Ok_0.sets is NoSet),
{
}

/// A filter read as the first one is a `filter`, any later one an `and_filter`
/// or an `or_filter`.
pub proof fn lemma_filter_first(field: FieldDecl, first: bool, nested: bool)
    requires
        query_filter_spec(field, first, nested) is Ok,
    ensures
        (query_filter_spec(field, first, nested)->Ok_0.filter is First) == first,
{
}

/// The filter of a statement: that of the column, or that read for the nested query.
pub open spec fn statement_filter(s: QueryFilterStatementV) -> FilterTagsV {
    match s {
        QueryFilterStatementV::Simple(f) => f.filter,
        QueryFilterStatementV::Nested(n) => n.filter->Some_0.filter,
    }
}

/// In the filters read from the fields of a query, the first one, and only the
/// first, is a `filter`; every other is an `and_filter` or an `or_filter`; and
/// every filter on a nested query carries the filter read from its field.
pub proof fn law_only_first_filter_is_first(
    fields: Seq<FieldDecl>,
    exclude: Seq<Seq<char>>,
    query: FilterRequiredQuery,
    error_msg: Seq<char>,
    one_filters: bool,
)
    requires
        query_filters_spec(fields, exclude, query, error_msg, one_filters) is Ok,
    ensures
        forall|i: int| #![trigger query_filters_spec(fields, exclude, query, error_msg, one_filters)->Ok_0[i]]
            0 <= i < query_filters_spec(fields, exclude, query, error_msg, one_filters)->Ok_0.len() ==> {
                let s = query_filters_spec(fields, exclude, query, error_msg, one_filters)->Ok_0[i];
                &&& (s is Nested ==> s->Nested_0.filter is Some)
                &&& (statement_filter(s) is First) == (i == 0)
            },
    decreases fields.len(),
{
    if fields.len() > 0 {
        let pre = fields.drop_last();
        law_only_first_filter_is_first(pre, exclude, query, error_msg, one_filters);
        let acc = query_filters_spec(pre, exclude, query, error_msg, one_filters)->Ok_0;
        let f = fields.last();
        let v = query_filters_spec(fields, exclude, query, error_msg, one_filters)->Ok_0;
        assert(v == filter_field_step(acc, f, exclude, query, error_msg, one_filters)->Ok_0);
        if v.len() > acc.len() {
            assert(v.len() == acc.len() + 1);
            let s = v.last();
            match s {
                QueryFilterStatementV::Simple(q) => {
                    assert(query_filter_spec(f, acc.len() == 0, false) == Ok::<_, Seq<char>>(q));
                    lemma_filter_first(f, acc.len() == 0, false);
                },
                QueryFilterStatementV::Nested(n) => {
                    assert(nested_query_spec(f, NestedQueryParentType::Filter(acc.len() == 0)) == Ok::<_, Seq<char>>(n));
                    lemma_filter_first(f, acc.len() == 0, true);
                },
            }
            assert forall|i: int| 0 <= i < acc.len() implies #[trigger] v[i] == acc[i] by {}
        } else {
            assert(v == acc);
        }
    }
}

/// A list with no string left out by `cols` has all its strings in `cols`.
pub proof fn lemma_none_left_out(v: Seq<Seq<char>>, cols: Seq<Seq<char>>)
    requires
        not_among(v, cols).len() == 0,
    ensures
        forall|i: int| 0 <= i < v.len() ==> cols.contains(#[trigger] v[i]),
    decreases v.len(),
{
    if v.len() > 0 {
        let pre = v.drop_last();
        if !cols.contains(v.last()) {
            assert(not_among(v, cols) == not_among(pre, cols).push(v.last()));
        }
        lemma_none_left_out(pre, cols);
        assert forall|i: int| 0 <= i < v.len() implies cols.contains(#[trigger] v[i]) by {
            if i < v.len() - 1 {
                assert(v[i] == pre[i]);
            }
        }
    }
}

/// Every conflict column of an accepted insert is one of the columns it sets.
pub proof fn law_conflict_columns_are_columns(fields: Seq<FieldDecl>)
    requires
        insert_query_spec(fields) is Ok,
        insert_query_spec(fields)->Ok_0.unless_conflict is Some,
    ensures
        forall|i: int| 0 <= i < insert_query_spec(fields)->Ok_0.unless_conflict->Some_0.on.len()
            ==> insert_columns(insert_query_spec(fields)->Ok_0.statements).contains(
                #[trigger] insert_query_spec(fields)->Ok_0.unless_conflict->Some_0.on[i],
            ),
{
    let q = insert_query_spec(fields)->Ok_0;
    let uf = crate::queries::fields_with_attr(fields, UNLESS_CONFLICT@);
    let cols = insert_columns(q.statements);
    let u = q.unless_conflict->Some_0;
    assert(uf.len() == 1);
    let on = crate::tags::builders::unless_conflict_builder_spec(uf[0].attrs@)->Ok_0;
    assert(unless_conflict_spec(on, cols) == Ok::<Seq<Seq<char>>, Seq<char>>(u.on));
    lemma_none_left_out(u.on, cols);
}

/// A query text that a file query accepts names exactly the struct's
/// parameters, in the struct's order: the matches of the parameter pattern, each
/// with its `$` dropped.
pub proof fn law_file_params_exact(content: Seq<char>, params: Seq<Seq<char>>)
    requires
        validate_spec(content, params) is Ok,
    ensures
        regex_matches(PARAM_PATTERN@, content) matches Some(m)
            && m.map_values(|s: Seq<char>| without_chars(s, '$', '$')) == params,
{
}

/// Reading back the sign of a set option gives the option (a push only on a `Vec`).
pub proof fn law_set_option_sign_round_trip(t: TypeV, o: SetOption)
    requires
        o == SetOption::Push ==> type_is_named(t, VEC@),
    ensures
        set_option_spec(t, set_option_statement(o)) == Ok::<SetOption, Seq<char>>(o),
{
    reveal_strlit("assign");
    reveal_strlit(":=");
    reveal_strlit("concat");
    reveal_strlit("++");
    reveal_strlit("push");
    reveal_strlit("+=");
    assert(ASSIGN@ == "assign"@ && ASSIGN_SIGN@ == ":="@ && CONCAT@ == "concat"@);
    assert(CONCAT_SIGN@ == "++"@ && PUSH@ == "push"@ && PUSH_SIGN@ == "+="@);
    assert(ASSIGN@.len() == 6 && CONCAT@.len() == 6 && PUSH@.len() == 4);
    assert(ASSIGN_SIGN@[0] == ':' && CONCAT_SIGN@[1] == '+' && PUSH_SIGN@[1] == '=');
    assert(CONCAT_SIGN@[0] == '+' && PUSH_SIGN@[0] == '+' && ASSIGN_SIGN@[1] == '=');
}

/// Reading back the EdgeQL text of a filter operator gives the operator, for every
/// operator but the two negations written in two words.
pub proof fn law_operator_text_round_trip(o: SelectFilterOperator)
    requires
        o != SelectFilterOperator::NotIn,
        o != SelectFilterOperator::NotExists,
    ensures
        operator_keyword(operator_statement(o)) == Some(o),
{
    reveal_strlit("exists");
    reveal_strlit("notexists");
    reveal_strlit("!exists");
    reveal_strlit("is");
    reveal_strlit("=");
    reveal_strlit("isnot");
    reveal_strlit("!=");
    reveal_strlit("like");
    reveal_strlit("ilike");
    reveal_strlit("in");
    reveal_strlit("notin");
    reveal_strlit("greaterthan");
    reveal_strlit(">");
    reveal_strlit("greaterthanorequal");
    reveal_strlit(">=");
    reveal_strlit("lesserthan");
    reveal_strlit("<");
    reveal_strlit("lesserthanorequal");
    reveal_strlit("<=");
    reveal_strlit("not in");
    reveal_strlit("not exists");
    assert(EXISTS@.len() == 6 && EXISTS@[0] == 'e' && EXISTS@[1] == 'x');
    assert(NOT_EXISTS@.len() == 9 && NOT_EXISTS@[0] == 'n' && NOT_EXISTS@[1] == 'o');
    assert(BANG_EXISTS@.len() == 7 && BANG_EXISTS@[0] == '!' && BANG_EXISTS@[1] == 'e');
    assert(IS@.len() == 2 && IS@[0] == 'i' && IS@[1] == 's');
    assert(EQUAL@.len() == 1 && EQUAL@[0] == '=');
    assert(IS_NOT@.len() == 5 && IS_NOT@[0] == 'i' && IS_NOT@[1] == 's');
    assert(NOT_EQUAL@.len() == 2 && NOT_EQUAL@[0] == '!' && NOT_EQUAL@[1] == '=');
    assert(LIKE@.len() == 4 && LIKE@[0] == 'l' && LIKE@[1] == 'i');
    assert(ILIKE@.len() == 5 && ILIKE@[0] == 'i' && ILIKE@[1] == 'l');
    assert(IN@.len() == 2 && IN@[0] == 'i' && IN@[1] == 'n');
    assert(NOT_IN@.len() == 5 && NOT_IN@[0] == 'n' && NOT_IN@[1] == 'o');
    assert(GREATER_THAN@.len() == 11 && GREATER_THAN@[0] == 'g' && GREATER_THAN@[1] == 'r');
    assert(SUP_SIGN@.len() == 1 && SUP_SIGN@[0] == '>');
    assert(GREATER_THAN_OR_EQUAL@.len() == 18 && GREATER_THAN_OR_EQUAL@[0] == 'g' && GREATER_THAN_OR_EQUAL@[1] == 'r');
    assert(SUP_OR_EQ_SIGN@.len() == 2 && SUP_OR_EQ_SIGN@[0] == '>' && SUP_OR_EQ_SIGN@[1] == '=');
    assert(LESSER_THAN@.len() == 10 && LESSER_THAN@[0] == 'l' && LESSER_THAN@[1] == 'e');
    assert(INF_SIGN@.len() == 1 && INF_SIGN@[0] == '<');
    assert(LESSER_THAN_OR_EQUAL@.len() == 17 && LESSER_THAN_OR_EQUAL@[0] == 'l' && LESSER_THAN_OR_EQUAL@[1] == 'e');
    assert(INF_OR_EQ_SIGN@.len() == 2 && INF_OR_EQ_SIGN@[0] == '<' && INF_OR_EQ_SIGN@[1] == '=');
}

/// The column of a link property starts with `@`, and computing the column
/// again from it changes nothing.
pub proof fn law_link_property_column(column: Option<Seq<char>>, link: Option<bool>, name: Seq<char>)
    ensures
        link == Some(true) ==> starts_with_char(column_name_spec(column, link, name), '@'),
        column_name_spec(Some(column_name_spec(column, link, name)), link, name) == column_name_spec(column, link, name),
{
    reveal_strlit("@");
}

/// The shape of a result with fields is braced: it starts with `{` and ends with `}`.
pub proof fn law_shape_braced(fields: Seq<ResultFieldV>, env: Seq<Seq<char>>)
    requires
        fields.len() > 0,
    ensures
        shape_spec(fields, env)[0] == '{',
        shape_spec(fields, env).last() == '}',
{
    reveal_strlit("{");
    reveal_strlit("}");
    reveal_strlit(",");
    let e = shape_elements(fields, env);
    assert(e.len() > 0);
    let s = "{"@ + e;
    assert(s.len() >= 2);
    assert(s.drop_last()[0] == '{');
}

/// The type of a field on which a filter operator is accepted: `()` for
/// `exists`, `String` for `like` and `ilike`, `Vec` for `in`, any type but `()`
/// for the others.
pub open spec fn operator_accepted(t: TypeV, o: SelectFilterOperator) -> bool {
    match o {
        SelectFilterOperator::Exists | SelectFilterOperator::NotExists => type_is_named(t, "()"@),
        SelectFilterOperator::Like | SelectFilterOperator::ILike => type_is_named(t, STRING@) && !type_is_named(t, "()"@),
        SelectFilterOperator::In | SelectFilterOperator::NotIn => type_is_named(t, VEC@) && !type_is_named(t, "()"@),
        _ => !type_is_named(t, "()"@),
    }
}

/// Reading an operator written as its own EdgeQL text, on a field of a type that
/// the operator accepts, gives the operator back, for every operator but the two
/// negations written in two words.
pub proof fn law_operator_read_back(t: TypeV, o: SelectFilterOperator)
    requires
        o != SelectFilterOperator::NotIn,
        o != SelectFilterOperator::NotExists,
        operator_accepted(t, o),
    ensures
        operator_spec(t, lower(operator_statement(o)), operator_statement(o)) == Ok::<SelectFilterOperator, Seq<char>>(o),
{
    let s = operator_statement(o);
    reveal_strlit("=");
    reveal_strlit("!=");
    reveal_strlit("like");
    reveal_strlit("ilike");
    reveal_strlit("in");
    reveal_strlit(">");
    reveal_strlit("<");
    reveal_strlit(">=");
    reveal_strlit("<=");
    reveal_strlit("exists");
    assert(is_ascii_text(s));
    assert(ascii_lower(s) =~= s);
    law_operator_text_round_trip(o);
    lemma_keyword_outcome(t, s, s, o);
}

/// A text that starts with a character other than white space loses nothing at
/// its start when trimmed.
proof fn lemma_trim_start_kept(s: Seq<char>)
    requires
        s.len() > 0,
        !is_white_space(s[0]),
    ensures
        trim_start_spec(s) == s,
{
}

/// A text that ends with a character other than white space loses nothing at
/// its end when trimmed.
proof fn lemma_trim_end_kept(s: Seq<char>)
    requires
        s.len() > 0,
        !is_white_space(s.last()),
    ensures
        trim_end_spec(s) == s,
{
}

/// Cutting trailing white space leaves a prefix; one that starts with a
/// character other than white space keeps it.
proof fn lemma_trim_end_prefix(s: Seq<char>)
    ensures
        trim_end_spec(s).len() <= s.len(),
        trim_end_spec(s) == s.subrange(0, trim_end_spec(s).len() as int),
        s.len() > 0 && !is_white_space(s[0]) ==> trim_end_spec(s).len() > 0,
    decreases s.len(),
{
    if s.len() > 0 && is_white_space(s.last()) {
        lemma_trim_end_prefix(s.drop_last());
        let t = trim_end_spec(s.drop_last());
        assert(s.drop_last().subrange(0, t.len() as int) =~= s.subrange(0, t.len() as int));
    } else {
        assert(s.subrange(0, s.len() as int) =~= s);
    }
}

/// Cutting leading white space off a text followed by more text, where the first
/// text keeps something, cuts only from the first.
proof fn lemma_trim_start_append(a: Seq<char>, b: Seq<char>)
    requires
        trim_start_spec(a).len() > 0,
    ensures
        trim_start_spec(a + b) == trim_start_spec(a) + b,
    decreases a.len(),
{
    if a.len() > 0 && is_white_space(a[0]) {
        assert((a + b).drop_first() =~= a.drop_first() + b);
        lemma_trim_start_append(a.drop_first(), b);
    } else {
        assert(a.len() > 0);
    }
}

/// A type written by `format_type_spec` is, once trimmed, bracketed: it starts
/// with `<` and ends with `>`.
pub proof fn law_format_type_bracketed(i: Seq<char>)
    ensures
        starts_with_char(trimmed(format_type_spec(i)), '<'),
        ends_with_char(trimmed(format_type_spec(i)), '>'),
{
    reveal_strlit("<");
    reveal_strlit(">");
    let gt: Seq<char> = ">"@;
    assert(gt.len() == 1 && gt[0] == '>');
    let lt: Seq<char> = "<"@;
    assert(lt.len() == 1 && lt[0] == '<');
    assert(!is_white_space('<') && !is_white_space('>'));
    if starts_with_char(trimmed(i), '<') {
        lemma_trim_end_prefix(trim_start_spec(i));
        let ts = trim_start_spec(i);
        assert(ts.len() > 0);
        assert(ts[0] == trimmed(i)[0]);
        if !ends_with_char(trimmed(i), '>') {
            let s2 = i + gt;
            lemma_trim_start_append(i, gt);
            assert(trim_start_spec(s2) == ts + gt);
            assert((ts + gt).last() == '>');
            lemma_trim_end_kept(ts + gt);
            assert(trimmed(s2) == ts + gt);
            assert(format_type_spec(i) == s2);
        }
    } else {
        let s = lt + i;
        assert(s[0] == '<');
        lemma_trim_start_kept(s);
        lemma_trim_end_prefix(s);
        assert(trimmed(s)[0] == '<');
        if !ends_with_char(trimmed(s), '>') {
            let s2 = s + gt;
            assert(s2[0] == '<' && s2.last() == '>');
            lemma_trim_start_kept(s2);
            lemma_trim_end_kept(s2);
            assert(format_type_spec(i) == s2);
        }
    }
}

/// The cast that a scalar attribute gives, where it gives one, is bracketed
/// once trimmed: it starts with `<` and ends with `>`.
pub proof fn law_scalar_cast_bracketed(t: EdgeDbTypeV)
    ensures
        t.value() matches Some(v) ==> starts_with_char(trimmed(v), '<') && ends_with_char(trimmed(v), '>'),
{
    if let Some(v) = t.value() {
        if t.is_enum() {
            law_format_type_bracketed(match t.module { Some(m) => m, None => "default"@ } + "::"@ + t.name->Some_0);
        } else {
            law_format_type_bracketed(t.ty->Some_0);
        }
    }
}

/// Where a keyword names an operator, reading it for a field gives that operator
/// exactly when the field's type accepts it, and an error otherwise.
proof fn lemma_keyword_outcome(t: TypeV, k: Seq<char>, s: Seq<char>, o: SelectFilterOperator)
    requires
        operator_keyword(k) == Some(o),
    ensures
        (operator_spec(t, k, s) is Ok) == operator_accepted(t, o),
        operator_spec(t, k, s) is Ok ==> operator_spec(t, k, s) == Ok::<SelectFilterOperator, Seq<char>>(o),
{
}

/// Two spellings of an operator that name the same operator once lower-cased
/// (such as `GreaterThan`, `greaterthan` and `>`) give the same outcome on a
/// field: both the same operator, or both an error.
pub proof fn law_operator_spellings_agree(t: TypeV, s1: Seq<char>, s2: Seq<char>)
    requires
        operator_keyword(lower(s1)) is Some,
        operator_keyword(lower(s1)) == operator_keyword(lower(s2)),
    ensures
        (operator_spec(t, lower(s1), s1) is Ok) == (operator_spec(t, lower(s2), s2) is Ok),
        operator_spec(t, lower(s1), s1) is Ok ==> operator_spec(t, lower(s1), s1) == operator_spec(t, lower(s2), s2),
{
    let o = operator_keyword(lower(s1))->Some_0;
    lemma_keyword_outcome(t, lower(s1), s1, o);
    lemma_keyword_outcome(t, lower(s2), s2, o);
}

} // verus!
