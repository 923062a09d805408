use vstd::prelude::*;
use vstd::string::*;

use crate::constants::{EDGEQL, FILTER, INVALID_FILTERS_TAG, TABLENAME_MARK};
use crate::error::MacroError;
use crate::insert_query::second_of;
use crate::model::FieldDecl;
use crate::queries::{check_duplicate_parameter_labels, duplicate_check_spec, labels_of};
use crate::statements::filters::{
    FilterRequiredQuery, FilterStatement, FilterStatementV, QueryFilterStatement, QueryFilterStatementV,
    filter_labels, filter_statement_spec, filter_statement_wf, filter_views, filters_from_fields,
    filters_from_fields_spec,
};
use crate::statements::nested_query::nested_statement_spec;
use crate::tags::builders::fields_wf;
use crate::text::{replace_all, replace_str, views};
use crate::type_utils::scalar_defined;

verus! {

/// A struct of filters that a query can take as one field.
pub struct EdgedbFilters {
    pub ident: String,
    pub filter_statement: FilterStatement,
}

/// The filters read from the fields of a struct, with no parameter label twice.
pub open spec fn edgedb_filters_spec(fields: Seq<FieldDecl>) -> Result<FilterStatementV, Seq<char>> {
    match filters_from_fields_spec(fields, Seq::empty(), FilterRequiredQuery::Other, INVALID_FILTERS_TAG@) {
        Err(m) => Err(m),
        Ok(f) => match duplicate_check_spec(second_of(filter_labels(f))) {
            Err(m) => Err(m),
            Ok(_) => Ok(f),
        },
    }
}

/// The EdgeQL of one filter on `table`: a filter on a column is written for the
/// table mark, which is then replaced by the table; a nested query's mark is
/// replaced by `nested`, the EdgeQL of the nested query.
pub open spec fn filter_clause_spec(s: QueryFilterStatementV, table: Seq<char>, nested: Seq<char>) -> Result<Seq<char>, Seq<char>> {
    match s {
        QueryFilterStatementV::Simple(f) => match filter_statement_spec(f, TABLENAME_MARK@, false) {
            Err(m) => Err(m),
            Ok(st) => Ok(replace_all(st, TABLENAME_MARK@, table)),
        },
        QueryFilterStatementV::Nested(n) => Ok(replace_all(nested_statement_spec(n), EDGEQL@, nested)),
    }
}

/// The filter clauses one after the other, or the first error.
pub open spec fn filter_clauses(v: Seq<QueryFilterStatementV>, table: Seq<char>, nested: Seq<Seq<char>>) -> Result<Seq<char>, Seq<char>>
    decreases v.len(),
{
    if v.len() == 0 {
        Ok(Seq::empty())
    } else {
        match filter_clauses(v.drop_last(), table, nested) {
            Err(m) => Err(m),
            Ok(pre) => match filter_clause_spec(v.last(), table, nested[v.len() - 1]) {
                Err(m) => Err(m),
                Ok(c) => Ok(pre + c),
            },
        }
    }
}

/// The EdgeQL of the filters on `table`: `filter` and the clauses, or nothing
/// when there is no filter.
pub open spec fn filters_edgeql_spec(s: FilterStatementV, table: Seq<char>, nested: Seq<Seq<char>>) -> Result<Seq<char>, Seq<char>> {
    match s {
        FilterStatementV::ManyFilter(v) => match filter_clauses(v, table, nested) {
            Err(m) => Err(m),
            Ok(c) => Ok(FILTER@ + c),
        },
        _ => Ok(Seq::empty()),
    }
}

/// What a filter writes, with the table and the EdgeQL of its nested query left
/// open.
pub enum FilterPart {
    /// The clause of a filter on a column, written for the table mark.
    Column(String),
    /// The clause of a filter on a nested query, in which the nested query's
    /// EdgeQL takes the place of `$edgeql$`.
    Nested(String),
}

/// The mathematical form of a `FilterPart`.
pub enum FilterPartV {
    Column(Seq<char>),
    Nested(Seq<char>),
}

impl View for FilterPart {
    type V = FilterPartV;

    open spec fn view(&self) -> FilterPartV {
        match self {
            FilterPart::Column(t) => FilterPartV::Column(t@),
            FilterPart::Nested(t) => FilterPartV::Nested(t@),
        }
    }
}

/// The views of a list of filter parts.
pub open spec fn filter_parts_views(v: Seq<FilterPart>) -> Seq<FilterPartV> {
    v.map_values(|p: FilterPart| p@)
}

/// The part that a filter writes, or the error of its statement.
pub open spec fn filter_part_of(s: QueryFilterStatementV) -> Result<FilterPartV, Seq<char>> {
    match s {
        QueryFilterStatementV::Simple(f) => match filter_statement_spec(f, TABLENAME_MARK@, false) {
            Err(m) => Err(m),
            Ok(st) => Ok(FilterPartV::Column(st)),
        },
        QueryFilterStatementV::Nested(n) => Ok(FilterPartV::Nested(nested_statement_spec(n))),
    }
}

/// The parts of the filters, in order, or the first error.
pub open spec fn filter_parts_spec(v: Seq<QueryFilterStatementV>) -> Result<Seq<FilterPartV>, Seq<char>>
    decreases v.len(),
{
    if v.len() == 0 {
        Ok(Seq::empty())
    } else {
        match filter_parts_spec(v.drop_last()) {
            Err(m) => Err(m),
            Ok(pre) => match filter_part_of(v.last()) {
                Err(m) => Err(m),
                Ok(p) => Ok(pre.push(p)),
            },
        }
    }
}

/// The clause that a part writes on `table`, given the EdgeQL of its nested query.
pub open spec fn filter_part_clause(p: FilterPartV, table: Seq<char>, nested: Seq<char>) -> Seq<char> {
    match p {
        FilterPartV::Column(t) => replace_all(t, TABLENAME_MARK@, table),
        FilterPartV::Nested(t) => replace_all(t, EDGEQL@, nested),
    }
}

/// The clauses of the parts one after the other.
pub open spec fn filter_parts_clauses(v: Seq<FilterPartV>, table: Seq<char>, nested: Seq<Seq<char>>) -> Seq<char>
    decreases v.len(),
{
    if v.len() == 0 {
        Seq::empty()
    } else {
        filter_parts_clauses(v.drop_last(), table, nested) + filter_part_clause(v.last(), table, nested[v.len() - 1])
    }
}

/// Once a prefix of the filters gives an error, all of them give it.
proof fn lemma_parts_err_prefix(v: Seq<QueryFilterStatementV>, j: int)
    requires
        0 <= j <= v.len(),
        filter_parts_spec(v.subrange(0, j)) is Err,
    ensures
        filter_parts_spec(v) == filter_parts_spec(v.subrange(0, j)),
    decreases v.len() - j,
{
    if j < v.len() {
        assert(v.subrange(0, j + 1).drop_last() =~= v.subrange(0, j));
        lemma_parts_err_prefix(v, j + 1);
    } else {
        assert(v.subrange(0, j) =~= v);
    }
}

/// The parts of the filters write their clauses, and fail where the clauses fail.
proof fn lemma_filter_parts(v: Seq<QueryFilterStatementV>, table: Seq<char>, nested: Seq<Seq<char>>)
    ensures
        match filter_parts_spec(v) {
            Ok(ps) => filter_clauses(v, table, nested) == Ok::<Seq<char>, Seq<char>>(filter_parts_clauses(ps, table, nested))
                && ps.len() == v.len(),
            Err(m) => filter_clauses(v, table, nested) == Err::<Seq<char>, Seq<char>>(m),
        },
    decreases v.len(),
{
    if v.len() > 0 {
        lemma_filter_parts(v.drop_last(), table, nested);
        if let Ok(ps) = filter_parts_spec(v) {
            assert(ps.drop_last() == filter_parts_spec(v.drop_last())->Ok_0);
        }
    }
}

/// The parts of a filter statement: one per filter for filters written field by
/// field, none otherwise; or the first error.
pub fn filter_parts(stmt: &FilterStatement) -> (r: Result<Vec<FilterPart>, MacroError>)
    requires
        filter_statement_wf(stmt@),
    ensures
        match stmt@ {
            FilterStatementV::ManyFilter(v) => match r {
                Ok(p) => filter_parts_spec(v) == Ok::<Seq<FilterPartV>, Seq<char>>(filter_parts_views(p@)),
                Err(e) => filter_parts_spec(v) == Err::<Seq<FilterPartV>, Seq<char>>(e.message@),
            },
            _ => r matches Ok(p) && p@.len() == 0,
        },
{
    let mut r: Vec<FilterPart> = Vec::new();
    match stmt {
        FilterStatement::ManyFilter(filters) => {
            let ghost v = filter_views(filters@);
            let mut i: usize = 0;
            assert(v.subrange(0, 0) =~= Seq::<QueryFilterStatementV>::empty());
            assert(filter_parts_views(r@) =~= Seq::<FilterPartV>::empty());
            while i < filters.len()
                invariant
                    i <= filters.len(),
                    v == filter_views(filters@),
                    stmt@ == FilterStatementV::ManyFilter(v),
                    forall|j: int| 0 <= j < v.len() ==> (#[trigger] v[j]).wf(),
                    filter_parts_spec(v.subrange(0, i as int)) == Ok::<Seq<FilterPartV>, Seq<char>>(filter_parts_views(r@)),
                decreases filters.len() - i,
            {
                assert(v.subrange(0, i + 1).drop_last() =~= v.subrange(0, i as int));
                assert(v.subrange(0, i + 1).last() == filters@[i as int]@);
                assert(v[i as int].wf());
                let part = match &filters[i] {
                    QueryFilterStatement::SimpleField(f) => match f.build_statement(TABLENAME_MARK, false) {
                        Ok(x) => FilterPart::Column(x),
                        Err(e) => {
                            proof {
                                lemma_parts_err_prefix(v, i + 1);
                            }
                            return Err(e);
                        },
                    },
                    QueryFilterStatement::NestedQuery(n) => {
                        let st = match n.build_statement() {
                            Ok(x) => x,
                            Err(_) => String::new(),
                        };
                        FilterPart::Nested(st)
                    },
                };
                let ghost before = filter_parts_views(r@);
                r.push(part);
                assert(filter_parts_views(r@) =~= before.push(part@));
                i = i + 1;
            }
            assert(v.subrange(0, filters.len() as int) =~= v);
        },
        _ => {},
    }
    Ok(r)
}

/// The EdgeQL that the parts write on `table_name`: `filter` and the clauses;
/// `nested` holds, for each part, the EdgeQL of its nested query (unused for a
/// part on a column).
pub fn filter_parts_edgeql(parts: &Vec<FilterPart>, table_name: &str, nested: &Vec<String>) -> (r: String)
    requires
        nested@.len() == parts@.len(),
    ensures
        r@ == FILTER@ + filter_parts_clauses(filter_parts_views(parts@), table_name@, views(nested@)),
{
    let ghost v = filter_parts_views(parts@);
    let ghost nv = views(nested@);
    let mut s = String::from_str(FILTER);
    let mut i: usize = 0;
    assert(v.subrange(0, 0) =~= Seq::<FilterPartV>::empty());
    proof {
        reveal_strlit("__tablename__");
        reveal_strlit("$edgeql$");
    }
    while i < parts.len()
        invariant
            i <= parts.len(),
            v == filter_parts_views(parts@),
            nv == views(nested@),
            nested@.len() == v.len(),
            TABLENAME_MARK@.len() > 0,
            EDGEQL@.len() > 0,
            s@ == FILTER@ + filter_parts_clauses(v.subrange(0, i as int), table_name@, nv),
        decreases parts.len() - i,
    {
        assert(v.subrange(0, i + 1).drop_last() =~= v.subrange(0, i as int));
        assert(v.subrange(0, i + 1).last() == parts@[i as int]@);
        assert(nv[i as int] == nested@[i as int]@);
        let clause = match &parts[i] {
            FilterPart::Column(t) => replace_str(t.as_str(), TABLENAME_MARK, table_name),
            FilterPart::Nested(t) => replace_str(t.as_str(), EDGEQL, nested[i].as_str()),
        };
        s.append(clause.as_str());
        assert(s@ =~= FILTER@ + filter_parts_clauses(v.subrange(0, i + 1), table_name@, nv));
        i = i + 1;
    }
    assert(v.subrange(0, parts.len() as int) =~= v);
    s
}

impl EdgedbFilters {
    /// The filters read from the fields of the struct named `ident`.
    pub fn parse(ident: String, fields: &Vec<FieldDecl>) -> (r: Result<EdgedbFilters, MacroError>)
        requires
            fields_wf(fields@),
        ensures
            match r {
                Ok(f) => edgedb_filters_spec(fields@) == Ok::<FilterStatementV, Seq<char>>(f.filter_statement@)
                    && f.ident@ == ident@ && filter_statement_wf(f.filter_statement@),
                Err(e) => edgedb_filters_spec(fields@) == Err::<FilterStatementV, Seq<char>>(e.message@),
            },
    {
        let exclude: Vec<String> = Vec::new();
        assert(views(exclude@) =~= Seq::<Seq<char>>::empty());
        let filter_statement = match filters_from_fields(fields, &exclude, FilterRequiredQuery::Other, INVALID_FILTERS_TAG) {
            Ok(f) => f,
            Err(e) => return Err(e),
        };
        let labels = filter_statement.get_parameter_labels();
        assert(labels_of(labels@) =~= second_of(filter_labels(filter_statement@)));
        match check_duplicate_parameter_labels(&labels) {
            Err(e) => Err(e),
            Ok(_) => Ok(EdgedbFilters { ident, filter_statement }),
        }
    }

    /// The EdgeQL of the filters on `table_name`; `nested` holds, for each filter,
    /// the EdgeQL of its nested query (unused for a filter on a column).
    pub fn to_edgeql(&self, table_name: &str, nested: &Vec<String>) -> (r: Result<String, MacroError>)
        requires
            filter_statement_wf(self.filter_statement@),
            self.filter_statement@ matches FilterStatementV::ManyFilter(v) ==> nested@.len() == v.len(),
        ensures
            match r {
                Ok(s) => filters_edgeql_spec(self.filter_statement@, table_name@, views(nested@)) == Ok::<Seq<char>, Seq<char>>(s@),
                Err(e) => filters_edgeql_spec(self.filter_statement@, table_name@, views(nested@)) == Err::<Seq<char>, Seq<char>>(e.message@),
            },
    {
        match &self.filter_statement {
            FilterStatement::ManyFilter(filters) => {
                proof {
                    lemma_filter_parts(filter_views(filters@), table_name@, views(nested@));
                }
                let parts = match filter_parts(&self.filter_statement) {
                    Ok(p) => p,
                    Err(e) => return Err(e),
                };
                Ok(filter_parts_edgeql(&parts, table_name, nested))
            },
            _ => Ok(String::new()),
        }
    }
}

} // verus!
