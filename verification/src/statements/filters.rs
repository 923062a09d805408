use vstd::prelude::*;
use vstd::string::*;

use crate::attributes_utils::{attrs_have, has_any_attr, has_any_attribute, has_attr, has_none_attribute};
use crate::constants::{
    AND_FILTER, EDGEQL, EITHER_ONE_FILTERS_OR_FILTER_TAG_EXPECTED, FIELD, FILTER, FILTERS, NESTED_QUERY,
    ONLY_ONE_FILTERS_TAG_EXPECTED, OR_FILTER, SELECT,
};
use crate::error::MacroError;
use crate::impl_builder::{FieldCat, FieldCatV, ImplBuilderField, ImplBuilderFieldV, impl_fields_views};
use crate::model::FieldDecl;
use crate::queries::{QueryField, QueryFieldV, query_field_spec};
use crate::statements::nested_query::{
    NestedQueryField, NestedQueryFieldV, NestedQueryParentType, nested_query_spec,
};
use crate::tags::builders::{field_builder_spec, field_wf, fields_wf, filter_builder_spec, read_field_tag, read_filter_tag};
use crate::tags::field_tag::{FieldTag, FieldTagV, field_tag_spec, nested_field_tag_spec};
use crate::tags::filter_tag::{FilterTags, FilterTagsV, filter_tags_spec, is_exist_operator, operator_statement};
use crate::text::views;
use crate::type_utils::{get_scalar, scalar_defined, scalar_of};

verus! {

/// A field of a query that filters on a column.
pub struct QueryFilter {
    pub field: QueryField,
    pub field_tag: FieldTag,
    pub filter_tag: FilterTags,
}

/// The mathematical form of a `QueryFilter`.
pub struct QueryFilterV {
    pub field: QueryFieldV,
    pub field_tag: FieldTagV,
    pub filter: FilterTagsV,
}

impl View for QueryFilter {
    type V = QueryFilterV;

    open spec fn view(&self) -> QueryFilterV {
        QueryFilterV { field: self.field@, field_tag: self.field_tag@, filter: self.filter_tag@ }
    }
}

/// The tags that a filter field may carry.
pub open spec fn filter_field_tags() -> Seq<Seq<char>> {
    seq![FIELD@, FILTER@, AND_FILTER@, OR_FILTER@, NESTED_QUERY@]
}

/// The filter read from `field`, or the first error. `first` says that no filter
/// comes before it; the field of a nested query gets no scalar cast and its
/// operator is not checked against its type.
pub open spec fn query_filter_spec(field: FieldDecl, first: bool, nested: bool) -> Result<QueryFilterV, Seq<char>> {
    match field_builder_spec(field.attrs@) {
        Err(m) => Err(m),
        Ok(fb) => match filter_builder_spec(field.attrs@) {
            Err(m) => Err(m),
            Ok(ob) => match query_field_spec(field, filter_field_tags()) {
                Err(m) => Err(m),
                Ok(qf) => match (if nested { nested_field_tag_spec(fb, field.name()) } else { field_tag_spec(fb, field.name(), field.ty@) }) {
                    Err(m) => Err(m),
                    Ok(ft) => match filter_tags_spec(ob, field.attrs@, field.ty@, first, !nested) {
                        Err(m) => Err(m),
                        Ok(t) => Ok(QueryFilterV { field: qf, field_tag: ft, filter: t }),
                    },
                },
            },
        },
    }
}

/// The EdgeQL of a filter on `table`: its joining word, then the column (passed
/// through the wrapper function, if any), the operator and the value: the cast
/// parameter, or the `$edgeql$` mark for a nested query. An existence test has no
/// value.
pub open spec fn filter_statement_spec(f: QueryFilterV, table: Seq<char>, nested: bool) -> Result<Seq<char>, Seq<char>> {
    let op = f.filter.tag().operator;
    let column = table + "."@ + f.field_tag.column_name;
    let wrapped = match f.filter.tag().wrapper_fn {
        Some(w) => w + "("@ + column + ")"@,
        None => column,
    };
    let head = f.filter.conjunctive() + " "@;
    if !nested && scalar_of(f.field.ty) is Err {
        Err(scalar_of(f.field.ty)->Err_0)
    } else if is_exist_operator(op) {
        Ok(head + operator_statement(op) + " "@ + column)
    } else {
        let value = if nested {
            EDGEQL@
        } else {
            SELECT@ + " "@ + scalar_of(f.field.ty)->Ok_0 + "$"@ + f.field_tag.parameter_label
        };
        Ok(head + wrapped + " "@ + operator_statement(op) + " ("@ + value + ")"@)
    }
}

impl QueryFilter {
    /// The EdgeQL of the filter on `table_name`; `is_nested` when the value is a
    /// nested query.
    pub fn build_statement(&self, table_name: &str, is_nested: bool) -> (r: Result<String, MacroError>)
        requires
            !is_nested ==> scalar_defined(self.field.ty@),
        ensures
            match r {
                Ok(s) => filter_statement_spec(self@, table_name@, is_nested) == Ok::<Seq<char>, Seq<char>>(s@),
                Err(e) => filter_statement_spec(self@, table_name@, is_nested) == Err::<Seq<char>, Seq<char>>(e.message@),
            },
    {
        let operator = self.filter_tag.operator();
        let symbol = operator.statement();
        let ty = if is_nested {
            String::new()
        } else {
            match get_scalar(&self.field.ty) {
                Ok(s) => s,
                Err(e) => return Err(e),
            }
        };
        let mut column = String::from_str(table_name);
        column.append(".");
        column.append(self.field_tag.column_name.as_str());
        let wrapped = match self.filter_tag.wrapper_fn() {
            Some(w) => {
                let mut s = w;
                s.append("(");
                s.append(column.as_str());
                s.append(")");
                s
            },
            None => column.clone(),
        };
        let mut s = String::from_str(self.filter_tag.conjunctive());
        s.append(" ");
        if operator.check_exist() {
            s.append(symbol);
            s.append(" ");
            s.append(column.as_str());
        } else {
            let value = if is_nested {
                String::from_str(EDGEQL)
            } else {
                let mut v = String::from_str(SELECT);
                v.append(" ");
                v.append(ty.as_str());
                v.append("$");
                v.append(self.field_tag.parameter_label.as_str());
                v
            };
            s.append(wrapped.as_str());
            s.append(" ");
            s.append(symbol);
            s.append(" (");
            s.append(value.as_str());
            s.append(")");
        }
        Ok(s)
    }

    /// A copy of the filter.
    pub fn copy(&self) -> (r: QueryFilter)
        ensures
            r@ == self@,
    {
        QueryFilter { field: self.field.copy(), field_tag: self.field_tag.copy(), filter_tag: self.filter_tag.copy() }
    }

    /// The filter read from `field`; `first` when no filter comes before it,
    /// `nested` when its value is a nested query.
    pub fn try_from(field: &FieldDecl, first: bool, nested: bool) -> (r: Result<QueryFilter, MacroError>)
        requires
            field_wf(*field),
        ensures
            match r {
                Ok(f) => query_filter_spec(*field, first, nested) == Ok::<QueryFilterV, Seq<char>>(f@),
                Err(e) => query_filter_spec(*field, first, nested) == Err::<QueryFilterV, Seq<char>>(e.message@),
            },
    {
        let fb = match read_field_tag(&field.attrs) {
            Ok(b) => b,
            Err(e) => return Err(e),
        };
        let ob = match read_filter_tag(&field.attrs) {
            Ok(b) => b,
            Err(e) => return Err(e),
        };
        let mut tags: Vec<String> = Vec::new();
        tags.push(String::from_str(FIELD));
        tags.push(String::from_str(FILTER));
        tags.push(String::from_str(AND_FILTER));
        tags.push(String::from_str(OR_FILTER));
        tags.push(String::from_str(NESTED_QUERY));
        assert(views(tags@) =~= filter_field_tags());
        let qf = match QueryField::try_from(field, &tags) {
            Ok(q) => q,
            Err(e) => return Err(e),
        };
        let ft = if nested {
            fb.build_nested(field)
        } else {
            fb.build(field)
        };
        let ft = match ft {
            Ok(t) => t,
            Err(e) => return Err(e),
        };
        let t = match ob.build(field, first, !nested) {
            Ok(t) => t,
            Err(e) => return Err(e),
        };
        Ok(QueryFilter { field: qf, field_tag: ft, filter_tag: t })
    }
}

/// A filter of a query: on a column from a field, or on a nested query.
pub enum QueryFilterStatement {
    SimpleField(QueryFilter),
    NestedQuery(NestedQueryField),
}

/// The mathematical form of a `QueryFilterStatement`.
pub enum QueryFilterStatementV {
    Simple(QueryFilterV),
    Nested(NestedQueryFieldV),
}

impl View for QueryFilterStatement {
    type V = QueryFilterStatementV;

    open spec fn view(&self) -> QueryFilterStatementV {
        match self {
            QueryFilterStatement::SimpleField(f) => QueryFilterStatementV::Simple(f@),
            QueryFilterStatement::NestedQuery(n) => QueryFilterStatementV::Nested(n@),
        }
    }
}

impl QueryFilterStatementV {
    /// The field of the filter.
    pub open spec fn field(self) -> QueryFieldV {
        match self {
            QueryFilterStatementV::Simple(f) => f.field,
            QueryFilterStatementV::Nested(n) => n.field,
        }
    }

    /// A filter on a nested query carries the filter read from its field, and the
    /// type of a filter on a column has a scalar that can be looked up.
    pub open spec fn wf(self) -> bool {
        match self {
            QueryFilterStatementV::Simple(f) => scalar_defined(f.field.ty),
            QueryFilterStatementV::Nested(n) => n.filter is Some,
        }
    }

    /// The field tag of the filter.
    pub open spec fn field_tag(self) -> FieldTagV {
        match self {
            QueryFilterStatementV::Simple(f) => f.field_tag,
            QueryFilterStatementV::Nested(n) => n.filter->Some_0.field_tag,
        }
    }
}

/// The EdgeQL of a filter statement on `table`.
pub open spec fn filter_stmt_spec(s: QueryFilterStatementV, table: Seq<char>) -> Result<Seq<char>, Seq<char>> {
    match s {
        QueryFilterStatementV::Simple(f) => filter_statement_spec(f, table, false),
        QueryFilterStatementV::Nested(n) => Ok(crate::statements::nested_query::nested_statement_spec(n)),
    }
}

impl QueryFilterStatement {
    /// The field of the filter.
    pub fn field(&self) -> (r: QueryField)
        ensures
            r@ == self@.field(),
    {
        match self {
            QueryFilterStatement::SimpleField(f) => f.field.copy(),
            QueryFilterStatement::NestedQuery(n) => n.field.copy(),
        }
    }

    /// The field tag of the filter.
    pub fn field_tag(&self) -> (r: FieldTag)
        requires
            self@.wf(),
        ensures
            r@ == self@.field_tag(),
    {
        match self {
            QueryFilterStatement::SimpleField(f) => f.field_tag.copy(),
            QueryFilterStatement::NestedQuery(n) => match &n.filter {
                Some(f) => f.field_tag.copy(),
                None => FieldTag { column_name: String::new(), parameter_label: String::new(), scalar_type: String::new() },
            },
        }
    }

    /// The EdgeQL of the filter on `table_name`.
    pub fn build_statement(&self, table_name: &str) -> (r: Result<String, MacroError>)
        requires
            self@.wf(),
        ensures
            match r {
                Ok(s) => filter_stmt_spec(self@, table_name@) == Ok::<Seq<char>, Seq<char>>(s@),
                Err(e) => filter_stmt_spec(self@, table_name@) == Err::<Seq<char>, Seq<char>>(e.message@),
            },
    {
        match self {
            QueryFilterStatement::SimpleField(f) => f.build_statement(table_name, false),
            QueryFilterStatement::NestedQuery(n) => n.build_statement(),
        }
    }

    /// A copy of the filter.
    pub fn copy(&self) -> (r: QueryFilterStatement)
        ensures
            r@ == self@,
    {
        match self {
            QueryFilterStatement::SimpleField(f) => QueryFilterStatement::SimpleField(f.copy()),
            QueryFilterStatement::NestedQuery(n) => QueryFilterStatement::NestedQuery(n.copy()),
        }
    }
}

/// The field of a query that holds all its filters, as one value.
pub struct QueryFilters {
    pub field: QueryField,
}

impl QueryFilters {
    /// The filters field read from `field`; it may carry no attribute but `filters`.
    pub fn try_from(field: &FieldDecl) -> (r: Result<QueryFilters, MacroError>)
        requires
            field_wf(*field),
        ensures
            match r {
                Ok(f) => query_field_spec(*field, seq![FILTERS@]) == Ok::<QueryFieldV, Seq<char>>(f.field@),
                Err(e) => query_field_spec(*field, seq![FILTERS@]) == Err::<QueryFieldV, Seq<char>>(e.message@),
            },
    {
        let mut tags: Vec<String> = Vec::new();
        tags.push(String::from_str(FILTERS));
        assert(views(tags@) =~= seq![FILTERS@]);
        match QueryField::try_from(field, &tags) {
            Ok(q) => Ok(QueryFilters { field: q }),
            Err(e) => Err(e),
        }
    }
}

/// How a query filters: not at all, by its filter fields, or by one field that
/// holds all its filters.
pub enum FilterStatement {
    NoFilter,
    ManyFilter(Vec<QueryFilterStatement>),
    OneFilters(QueryFilters),
}

/// The mathematical form of a `FilterStatement`.
pub enum FilterStatementV {
    NoFilter,
    ManyFilter(Seq<QueryFilterStatementV>),
    OneFilters(QueryFieldV),
}

/// The views of a list of filters.
pub open spec fn filter_views(v: Seq<QueryFilterStatement>) -> Seq<QueryFilterStatementV> {
    v.map_values(|s: QueryFilterStatement| s@)
}

impl View for FilterStatement {
    type V = FilterStatementV;

    open spec fn view(&self) -> FilterStatementV {
        match self {
            FilterStatement::NoFilter => FilterStatementV::NoFilter,
            FilterStatement::ManyFilter(v) => FilterStatementV::ManyFilter(filter_views(v@)),
            FilterStatement::OneFilters(f) => FilterStatementV::OneFilters(f.field@),
        }
    }
}

/// Every filter of the statement is well formed.
pub open spec fn filter_statement_wf(s: FilterStatementV) -> bool {
    match s {
        FilterStatementV::ManyFilter(v) => forall|i: int| 0 <= i < v.len() ==> (#[trigger] v[i]).wf(),
        _ => true,
    }
}

/// The (field name, parameter label) pairs of the filters.
pub open spec fn filter_labels(s: FilterStatementV) -> Seq<(Seq<char>, Seq<char>)> {
    match s {
        FilterStatementV::ManyFilter(v) => v.map_values(|f: QueryFilterStatementV| (f.field().ident, f.field_tag().parameter_label)),
        _ => Seq::empty(),
    }
}

/// The pairs of a list of (field name, parameter label) by their views.
pub open spec fn pair_views(v: Seq<(String, String)>) -> Seq<(Seq<char>, Seq<char>)> {
    v.map_values(|p: (String, String)| (p.0@, p.1@))
}

impl FilterStatement {
    /// The (field name, parameter label) pairs of the filters, in their order.
    pub fn get_parameter_labels(&self) -> (r: Vec<(String, String)>)
        requires
            filter_statement_wf(self@),
        ensures
            pair_views(r@) == filter_labels(self@),
    {
        let mut r: Vec<(String, String)> = Vec::new();
        if let FilterStatement::ManyFilter(filters) = self {
            let mut i: usize = 0;
            while i < filters.len()
                invariant
                    i <= filters.len(),
                    filter_statement_wf(self@),
                    *self == FilterStatement::ManyFilter(*filters),
                    pair_views(r@) == filter_labels(self@).subrange(0, i as int),
                decreases filters.len() - i,
            {
                assert(filter_views(filters@)[i as int] == filters@[i as int]@);
                assert(filter_views(filters@)[i as int].wf());
                let f = filters[i].field();
                let t = filters[i].field_tag();
                let ghost before = pair_views(r@);
                r.push((f.ident, t.parameter_label));
                assert(pair_views(r@) =~= before.push((f@.ident, t@.parameter_label)));
                assert(pair_views(r@) =~= filter_labels(self@).subrange(0, i + 1));
                i = i + 1;
            }
            assert(filter_labels(self@).subrange(0, filters.len() as int) =~= filter_labels(self@));
        } else {
            assert(pair_views(r@) =~= filter_labels(self@));
        }
        r
    }

    /// Refuses two filters with the same parameter label.
    pub fn check_duplicate_parameter_labels(&self) -> (r: Result<(), MacroError>)
        requires
            filter_statement_wf(self@),
        ensures
            r is Ok <==> crate::queries::labels_distinct(filter_labels(self@).map_values(|p: (Seq<char>, Seq<char>)| p.1)),
    {
        let labels = self.get_parameter_labels();
        let r = crate::queries::check_duplicate_parameter_labels(&labels);
        assert(crate::queries::labels_of(labels@) =~= filter_labels(self@).map_values(|p: (Seq<char>, Seq<char>)| p.1));
        r
    }

    /// Records the table of the query on every filter on a nested query.
    pub fn set_table_name(&mut self, table_name: &str)
        ensures
            final(self)@ == with_parent_table(old(self)@, table_name@),
    {
        if let FilterStatement::ManyFilter(filters) = self {
            let ghost old_v = filter_views(filters@);
            let mut out: Vec<QueryFilterStatement> = Vec::new();
            let mut i: usize = 0;
            while i < filters.len()
                invariant
                    i <= filters.len(),
                    old_v == filter_views(filters@),
                    filter_views(out@) == old_v.subrange(0, i as int).map_values(|s: QueryFilterStatementV| with_parent(s, table_name@)),
                decreases filters.len() - i,
            {
                let mut s = filters[i].copy();
                if let QueryFilterStatement::NestedQuery(n) = &mut s {
                    n.set_parent_table_name(String::from_str(table_name));
                }
                let ghost before = filter_views(out@);
                out.push(s);
                assert(filter_views(out@) =~= before.push(with_parent(old_v[i as int], table_name@)));
                assert(filter_views(out@) =~= old_v.subrange(0, i + 1).map_values(|s: QueryFilterStatementV| with_parent(s, table_name@)));
                i = i + 1;
            }
            assert(old_v.subrange(0, filters.len() as int) =~= old_v);
            *filters = out;
        }
    }
}

/// The fields of the struct of a query, by the filters they hold.
pub open spec fn filter_impl_fields(s: FilterStatementV) -> Seq<ImplBuilderFieldV> {
    match s {
        FilterStatementV::NoFilter => Seq::empty(),
        FilterStatementV::OneFilters(f) => seq![ImplBuilderFieldV { field: f, field_cat: FieldCatV::Nested }],
        FilterStatementV::ManyFilter(v) => v.map_values(|x: QueryFilterStatementV| match x {
            QueryFilterStatementV::Simple(f) => ImplBuilderFieldV { field: f.field, field_cat: FieldCatV::Simple(f.field_tag.parameter_label) },
            QueryFilterStatementV::Nested(n) => ImplBuilderFieldV { field: n.field, field_cat: FieldCatV::Nested },
        }),
    }
}

impl FilterStatement {
    /// The fields of the struct of the query, by the filters they hold.
    pub fn to_impl_builder_field(&self) -> (r: Vec<ImplBuilderField>)
        ensures
            impl_fields_views(r@) == filter_impl_fields(self@),
    {
        let mut r: Vec<ImplBuilderField> = Vec::new();
        match self {
            FilterStatement::NoFilter => {
                assert(impl_fields_views(r@) =~= filter_impl_fields(self@));
            },
            FilterStatement::OneFilters(s) => {
                r.push(ImplBuilderField { field: s.field.copy(), field_cat: FieldCat::Nested });
                assert(impl_fields_views(r@) =~= filter_impl_fields(self@));
            },
            FilterStatement::ManyFilter(filters) => {
                let mut i: usize = 0;
                while i < filters.len()
                    invariant
                        i <= filters.len(),
                        *self == FilterStatement::ManyFilter(*filters),
                        impl_fields_views(r@) == filter_impl_fields(self@).subrange(0, i as int),
                    decreases filters.len() - i,
                {
                    let f = match &filters[i] {
                        QueryFilterStatement::SimpleField(q) => ImplBuilderField {
                            field: q.field.copy(),
                            field_cat: FieldCat::Simple(q.field_tag.parameter_label.clone()),
                        },
                        QueryFilterStatement::NestedQuery(n) => ImplBuilderField { field: n.field.copy(), field_cat: FieldCat::Nested },
                    };
                    let ghost before = impl_fields_views(r@);
                    r.push(f);
                    assert(impl_fields_views(r@) =~= before.push(f@));
                    assert(impl_fields_views(r@) =~= filter_impl_fields(self@).subrange(0, i + 1));
                    i = i + 1;
                }
                assert(filter_impl_fields(self@).subrange(0, filters.len() as int) =~= filter_impl_fields(self@));
            },
        }
        r
    }
}

/// A filter with the table of its query recorded, when it is a nested query.
pub open spec fn with_parent(s: QueryFilterStatementV, table: Seq<char>) -> QueryFilterStatementV {
    match s {
        QueryFilterStatementV::Nested(n) => QueryFilterStatementV::Nested(NestedQueryFieldV { parent_table_name: Some(table), ..n }),
        _ => s,
    }
}

/// A filter statement with the table of its query recorded on its nested queries.
pub open spec fn with_parent_table(s: FilterStatementV, table: Seq<char>) -> FilterStatementV {
    match s {
        FilterStatementV::ManyFilter(v) => FilterStatementV::ManyFilter(v.map_values(|f: QueryFilterStatementV| with_parent(f, table))),
        _ => s,
    }
}

/// The kind of query whose fields are read for filters.
#[derive(Clone, Copy, PartialEq, Eq, Structural, Debug)]
pub enum FilterRequiredQuery {
    Select,
    Update,
    Delete,
    Other,
}

/// The filters after one more field. A field with no attribute, with an excluded
/// one, or with `filters` is passed over, as is a field of an update that only
/// carries `field`; a nested query or a filter attribute gives a filter, anything
/// else `error_msg`. `one_filters` when a `filters` field was found.
pub open spec fn filter_field_step(
    acc: Seq<QueryFilterStatementV>,
    f: FieldDecl,
    exclude: Seq<Seq<char>>,
    query: FilterRequiredQuery,
    error_msg: Seq<char>,
    one_filters: bool,
) -> Result<Seq<QueryFilterStatementV>, Seq<char>> {
    let attrs = f.attrs@;
    if attrs.len() > 0 && !has_any_attr(attrs, exclude) && !has_attr(attrs, FILTERS@) {
        if query == FilterRequiredQuery::Update && attrs.len() == 1 && has_attr(attrs, FIELD@) {
            Ok(acc)
        } else if has_attr(attrs, NESTED_QUERY@) {
            match nested_query_spec(f, NestedQueryParentType::Filter(acc.len() == 0)) {
                Err(m) => Err(m),
                Ok(n) => Ok(acc.push(QueryFilterStatementV::Nested(n))),
            }
        } else if has_any_attr(attrs, seq![FILTER@, AND_FILTER@, OR_FILTER@]) {
            if one_filters {
                Err(EITHER_ONE_FILTERS_OR_FILTER_TAG_EXPECTED@)
            } else {
                match query_filter_spec(f, acc.len() == 0, false) {
                    Err(m) => Err(m),
                    Ok(q) => Ok(acc.push(QueryFilterStatementV::Simple(q))),
                }
            }
        } else {
            Err(error_msg)
        }
    } else {
        Ok(acc)
    }
}

/// The filters read from the fields, in their order, or the first error.
pub open spec fn query_filters_spec(
    fields: Seq<FieldDecl>,
    exclude: Seq<Seq<char>>,
    query: FilterRequiredQuery,
    error_msg: Seq<char>,
    one_filters: bool,
) -> Result<Seq<QueryFilterStatementV>, Seq<char>>
    decreases fields.len(),
{
    if fields.len() == 0 {
        Ok(Seq::empty())
    } else {
        match query_filters_spec(fields.drop_last(), exclude, query, error_msg, one_filters) {
            Err(m) => Err(m),
            Ok(acc) => filter_field_step(acc, fields.last(), exclude, query, error_msg, one_filters),
        }
    }
}

/// Once a prefix of the fields gives an error, all of them give it.
proof fn lemma_filters_err_prefix(
    fields: Seq<FieldDecl>,
    exclude: Seq<Seq<char>>,
    query: FilterRequiredQuery,
    error_msg: Seq<char>,
    one_filters: bool,
    j: int,
)
    requires
        0 <= j <= fields.len(),
        query_filters_spec(fields.subrange(0, j), exclude, query, error_msg, one_filters) is Err,
    ensures
        query_filters_spec(fields, exclude, query, error_msg, one_filters)
            == query_filters_spec(fields.subrange(0, j), exclude, query, error_msg, one_filters),
    decreases fields.len() - j,
{
    if j < fields.len() {
        assert(fields.subrange(0, j + 1).drop_last() =~= fields.subrange(0, j));
        lemma_filters_err_prefix(fields, exclude, query, error_msg, one_filters, j + 1);
    } else {
        assert(fields.subrange(0, j) =~= fields);
    }
}

/// Every filter that the fields give is well formed.
proof fn lemma_filters_wf(
    fields: Seq<FieldDecl>,
    exclude: Seq<Seq<char>>,
    query: FilterRequiredQuery,
    error_msg: Seq<char>,
    one_filters: bool,
)
    requires
        fields_wf(fields),
        query_filters_spec(fields, exclude, query, error_msg, one_filters) is Ok,
    ensures
        forall|i: int| 0 <= i < query_filters_spec(fields, exclude, query, error_msg, one_filters)->Ok_0.len()
            ==> (#[trigger] query_filters_spec(fields, exclude, query, error_msg, one_filters)->Ok_0[i]).wf(),
    decreases fields.len(),
{
    if fields.len() > 0 {
        let pre = fields.drop_last();
        assert forall|i: int| 0 <= i < pre.len() implies #[trigger] field_wf(pre[i]) by {
            assert(pre[i] == fields[i]);
        }
        lemma_filters_wf(pre, exclude, query, error_msg, one_filters);
        assert(field_wf(fields[fields.len() - 1]));
    }
}

/// The filter fields of a query: those among `fields` with an attribute, none of
/// `exclude_tags` and no `filters`. `one_filters` when a `filters` field was found.
pub fn get_query_filters(
    fields: &Vec<FieldDecl>,
    exclude_tags: &Vec<String>,
    query: FilterRequiredQuery,
    error_msg: &str,
    one_filters: bool,
) -> (r: Result<Vec<QueryFilterStatement>, MacroError>)
    requires
        fields_wf(fields@),
    ensures
        match r {
            Ok(v) => query_filters_spec(fields@, views(exclude_tags@), query, error_msg@, one_filters)
                == Ok::<Seq<QueryFilterStatementV>, Seq<char>>(filter_views(v@)),
            Err(e) => query_filters_spec(fields@, views(exclude_tags@), query, error_msg@, one_filters)
                == Err::<Seq<QueryFilterStatementV>, Seq<char>>(e.message@),
        },
{
    let ghost ex = views(exclude_tags@);
    let mut filters: Vec<QueryFilterStatement> = Vec::new();
    let mut i: usize = 0;
    let mut kinds: Vec<String> = Vec::new();
    kinds.push(String::from_str(FILTER));
    kinds.push(String::from_str(AND_FILTER));
    kinds.push(String::from_str(OR_FILTER));
    assert(views(kinds@) =~= seq![FILTER@, AND_FILTER@, OR_FILTER@]);
    assert(fields@.subrange(0, 0) =~= Seq::<FieldDecl>::empty());
    assert(filter_views(filters@) =~= Seq::<QueryFilterStatementV>::empty());
    while i < fields.len()
        invariant
            i <= fields.len(),
            fields_wf(fields@),
            ex == views(exclude_tags@),
            views(kinds@) == seq![FILTER@, AND_FILTER@, OR_FILTER@],
            query_filters_spec(fields@.subrange(0, i as int), ex, query, error_msg@, one_filters)
                == Ok::<Seq<QueryFilterStatementV>, Seq<char>>(filter_views(filters@)),
        decreases fields.len() - i,
    {
        let field = &fields[i];
        assert(field_wf(fields@[i as int]));
        assert(fields@.subrange(0, i + 1).drop_last() =~= fields@.subrange(0, i as int));
        assert(fields@.subrange(0, i + 1).last() == fields@[i as int]);
        let ghost acc = filter_views(filters@);
        if field.attrs.len() > 0 && has_none_attribute(field, exclude_tags) && !attrs_have(&field.attrs, FILTERS) {
            if query == FilterRequiredQuery::Update && field.attrs.len() == 1 && attrs_have(&field.attrs, FIELD) {
            } else if attrs_have(&field.attrs, NESTED_QUERY) {
                let first = filters.len() == 0;
                match NestedQueryField::try_from(field, NestedQueryParentType::Filter(first)) {
                    Err(e) => {
                        proof { lemma_filters_err_prefix(fields@, ex, query, error_msg@, one_filters, i + 1); }
                        return Err(e);
                    },
                    Ok(n) => {
                        filters.push(QueryFilterStatement::NestedQuery(n));
                        assert(filter_views(filters@) =~= acc.push(filters@.last()@));
                    },
                }
            } else if has_any_attribute(field, &kinds) {
                if one_filters {
                    proof { lemma_filters_err_prefix(fields@, ex, query, error_msg@, one_filters, i + 1); }
                    return Err(MacroError::new(EITHER_ONE_FILTERS_OR_FILTER_TAG_EXPECTED));
                }
                let first = filters.len() == 0;
                match QueryFilter::try_from(field, first, false) {
                    Err(e) => {
                        proof { lemma_filters_err_prefix(fields@, ex, query, error_msg@, one_filters, i + 1); }
                        return Err(e);
                    },
                    Ok(q) => {
                        filters.push(QueryFilterStatement::SimpleField(q));
                        assert(filter_views(filters@) =~= acc.push(filters@.last()@));
                    },
                }
            } else {
                proof { lemma_filters_err_prefix(fields@, ex, query, error_msg@, one_filters, i + 1); }
                return Err(MacroError::new(error_msg));
            }
        }
        i = i + 1;
    }
    assert(fields@.subrange(0, fields.len() as int) =~= fields@);
    Ok(filters)
}

/// The fields of the list that carry `filters`, in their order.
pub open spec fn filters_fields(fields: Seq<FieldDecl>) -> Seq<FieldDecl>
    decreases fields.len(),
{
    if fields.len() == 0 {
        Seq::empty()
    } else if has_attr(fields.last().attrs@, FILTERS@) {
        filters_fields(fields.drop_last()).push(fields.last())
    } else {
        filters_fields(fields.drop_last())
    }
}

/// How the fields of a query filter: a query other than `Other` may have one
/// `filters` field (two are refused); the filter fields, if any, make the
/// statement, and may not stand beside a `filters` field.
pub open spec fn filters_from_fields_spec(
    fields: Seq<FieldDecl>,
    exclude: Seq<Seq<char>>,
    query: FilterRequiredQuery,
    error_msg: Seq<char>,
) -> Result<FilterStatementV, Seq<char>> {
    let ff = filters_fields(fields);
    let pre: Result<FilterStatementV, Seq<char>> = if query == FilterRequiredQuery::Other || ff.len() == 0 {
        Ok(FilterStatementV::NoFilter)
    } else if ff.len() == 1 {
        match query_field_spec(ff[0], seq![FILTERS@]) {
            Ok(q) => Ok(FilterStatementV::OneFilters(q)),
            Err(m) => Err(m),
        }
    } else {
        Err(ONLY_ONE_FILTERS_TAG_EXPECTED@)
    };
    match pre {
        Err(m) => Err(m),
        Ok(stmt) => match query_filters_spec(fields, exclude, query, error_msg, stmt is OneFilters) {
            Err(m) => Err(m),
            Ok(fs) => Ok(
                if fs.len() > 0 {
                    FilterStatementV::ManyFilter(fs)
                } else {
                    stmt
                },
            ),
        },
    }
}

/// The first field that carries `filters` is the first of `filters_fields`.
proof fn lemma_filters_fields_index(fields: Seq<FieldDecl>, i: int, k: int)
    requires
        0 <= i <= fields.len(),
        0 <= k,
        filters_fields(fields.subrange(0, i)).len() == k,
    ensures
        k <= filters_fields(fields).len(),
        forall|j: int| 0 <= j < k ==> filters_fields(fields)[j] == #[trigger] filters_fields(fields.subrange(0, i))[j],
    decreases fields.len() - i,
{
    if i < fields.len() {
        let s1 = fields.subrange(0, i + 1);
        assert(s1.drop_last() =~= fields.subrange(0, i));
        let k1 = filters_fields(s1).len() as int;
        lemma_filters_fields_index(fields, i + 1, k1);
        assert forall|j: int| 0 <= j < k implies filters_fields(fields)[j] == #[trigger] filters_fields(fields.subrange(0, i))[j] by {
            assert(filters_fields(s1)[j] == filters_fields(fields.subrange(0, i))[j]);
        }
    } else {
        assert(fields.subrange(0, i) =~= fields);
    }
}

/// How the fields of a query filter; see `filters_from_fields_spec`.
pub fn filters_from_fields(
    fields: &Vec<FieldDecl>,
    exclude_tags: &Vec<String>,
    query: FilterRequiredQuery,
    error_msg: &str,
) -> (r: Result<FilterStatement, MacroError>)
    requires
        fields_wf(fields@),
    ensures
        match r {
            Ok(s) => filters_from_fields_spec(fields@, views(exclude_tags@), query, error_msg@) == Ok::<FilterStatementV, Seq<char>>(s@)
                && filter_statement_wf(s@),
            Err(e) => filters_from_fields_spec(fields@, views(exclude_tags@), query, error_msg@) == Err::<FilterStatementV, Seq<char>>(e.message@),
        },
{
    let mut stmt = FilterStatement::NoFilter;
    let needs_filters = match query {
        FilterRequiredQuery::Other => false,
        _ => true,
    };
    if needs_filters {
        let mut first: Option<usize> = None;
        let mut count: usize = 0;
        let mut i: usize = 0;
        assert(fields@.subrange(0, 0) =~= Seq::<FieldDecl>::empty());
        while i < fields.len()
            invariant
                i <= fields.len(),
                count <= i,
                query != FilterRequiredQuery::Other,
                count == filters_fields(fields@.subrange(0, i as int)).len(),
                count <= 1,
                match first {
                    None => count == 0,
                    Some(j) => count == 1 && j < i && filters_fields(fields@.subrange(0, i as int))[0] == fields@[j as int],
                },
            decreases fields.len() - i,
        {
            assert(fields@.subrange(0, i + 1).drop_last() =~= fields@.subrange(0, i as int));
            assert(fields@.subrange(0, i + 1).last() == fields@[i as int]);
            if attrs_have(&fields[i].attrs, FILTERS) {
                if count == 1 {
                    proof {
                        assert(filters_fields(fields@.subrange(0, i + 1)).len() == 2);
                        lemma_filters_fields_index(fields@, i + 1, 2);
                        assert(filters_fields(fields@).len() >= 2);
                        assert(query != FilterRequiredQuery::Other);
                        assert(filters_from_fields_spec(fields@, views(exclude_tags@), query, error_msg@)
                            == Err::<FilterStatementV, Seq<char>>(ONLY_ONE_FILTERS_TAG_EXPECTED@));
                    }
                    return Err(MacroError::new(ONLY_ONE_FILTERS_TAG_EXPECTED));
                }
                first = Some(i);
                count = 1;
            }
            i = i + 1;
        }
        assert(fields@.subrange(0, fields.len() as int) =~= fields@);
        if let Some(j) = first {
            assert(field_wf(fields@[j as int]));
            match QueryFilters::try_from(&fields[j]) {
                Ok(f) => {
                    stmt = FilterStatement::OneFilters(f);
                },
                Err(e) => return Err(e),
            }
        }
    }
    let one = match stmt {
        FilterStatement::OneFilters(_) => true,
        _ => false,
    };
    let filters = match get_query_filters(fields, exclude_tags, query, error_msg, one) {
        Ok(f) => f,
        Err(e) => return Err(e),
    };
    proof {
        lemma_filters_wf(fields@, views(exclude_tags@), query, error_msg@, one);
    }
    if filters.len() > 0 {
        stmt = FilterStatement::ManyFilter(filters);
    }
    Ok(stmt)
}

} // verus!
