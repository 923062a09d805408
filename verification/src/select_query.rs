use vstd::prelude::*;
use vstd::string::*;

use crate::constants::{EXPECT_META, INVALID_SELECT_TAG, ONLY_ONE_OPTIONS_TAG_EXPECTED, OPTION, OPTIONS};
use crate::error::MacroError;
use crate::impl_builder::{
    FieldCat, FieldCatV, ImplBuilderField, ImplBuilderFieldV, QueryPiece, QueryPieceV, impl_fields_views, pieces_views,
};
use crate::meta_data::QueryMetaData;
use crate::model::FieldDecl;
use crate::queries::{
    QueryField, QueryFieldV, check_duplicate_parameter_labels, duplicate_check_spec, fields_with_attr,
    labels_of, query_field_spec, single_field_with,
};
use crate::statements::filters::{
    FilterRequiredQuery, FilterStatement, FilterStatementV, filter_impl_fields, filter_labels,
    filter_statement_wf, filters_from_fields, filters_from_fields_spec, pair_views,
};
use crate::tags::builders::{field_wf, fields_wf};
use crate::insert_query::second_of;
use crate::text::views;
use crate::type_utils::{is_type_name, type_is_named};

verus! {

/// The field of a select that holds its ordering, paging and limit options.
pub struct SelectOptions {
    pub field: QueryField,
}

/// The pieces of the EdgeQL of a select that follow its table; see
/// `SelectQuery::edgeql_pieces`.
pub open spec fn select_pieces_spec(has_result: bool, has_filters: bool, has_options: bool) -> Seq<QueryPieceV> {
    (if has_result { seq![QueryPieceV::Shape] } else { Seq::empty() })
        + (if has_filters && has_result { seq![QueryPieceV::Text(" "@)] } else { Seq::empty() })
        + (if has_filters { seq![QueryPieceV::Filters] } else { Seq::empty() })
        + (if has_options { seq![QueryPieceV::Options] } else { Seq::empty() })
}

impl SelectOptions {
    /// The options field read from `field`; it may carry no attribute but `options`.
    pub fn try_from(field: &FieldDecl) -> (r: Result<SelectOptions, MacroError>)
        requires
            field_wf(*field),
        ensures
            match r {
                Ok(o) => query_field_spec(*field, seq![OPTIONS@]) == Ok::<QueryFieldV, Seq<char>>(o.field@),
                Err(e) => query_field_spec(*field, seq![OPTIONS@]) == Err::<QueryFieldV, Seq<char>>(e.message@),
            },
    {
        let mut tags: Vec<String> = Vec::new();
        tags.push(String::from_str(OPTIONS));
        assert(views(tags@) =~= seq![OPTIONS@]);
        match QueryField::try_from(field, &tags) {
            Ok(q) => Ok(SelectOptions { field: q }),
            Err(e) => Err(e),
        }
    }

    /// Whether the options are optional (an `Option<..>` field).
    pub fn is_optional(&self) -> (r: bool)
        ensures
            r == type_is_named(self.field@.ty, OPTION@),
    {
        is_type_name(&self.field.ty, OPTION)
    }
}

/// A select declaration.
pub struct SelectQuery {
    pub ident: String,
    pub meta: Option<QueryMetaData>,
    pub filter_statement: FilterStatement,
    pub options: Option<SelectOptions>,
}

/// The mathematical form of what a select declaration says.
pub struct SelectQueryV {
    pub filter: FilterStatementV,
    pub options: Option<QueryFieldV>,
}

impl SelectQuery {
    /// What the declaration says: its filters and its options field.
    pub open spec fn spec_body(&self) -> SelectQueryV {
        SelectQueryV {
            filter: self.filter_statement@,
            options: match self.options {
                Some(o) => Some(o.field@),
                None => None,
            },
        }
    }
}

/// The select read from the fields of a struct: at most one options field, its
/// filters, and no parameter label twice.
pub open spec fn select_query_spec(fields: Seq<FieldDecl>) -> Result<SelectQueryV, Seq<char>> {
    let of = fields_with_attr(fields, OPTIONS@);
    let o: Result<Option<QueryFieldV>, Seq<char>> = if of.len() > 1 {
        Err(ONLY_ONE_OPTIONS_TAG_EXPECTED@)
    } else if of.len() == 1 {
        match query_field_spec(of[0], seq![OPTIONS@]) {
            Err(m) => Err(m),
            Ok(q) => Ok(Some(q)),
        }
    } else {
        Ok(None)
    };
    match o {
        Err(m) => Err(m),
        Ok(o) => match filters_from_fields_spec(fields, seq![OPTIONS@], FilterRequiredQuery::Select, INVALID_SELECT_TAG@) {
            Err(m) => Err(m),
            Ok(f) => match duplicate_check_spec(second_of(filter_labels(f))) {
                Err(m) => Err(m),
                Ok(_) => Ok(SelectQueryV { filter: f, options: o }),
            },
        },
    }
}

/// The fields of the struct of a select, with the way each is passed; the
/// options field passes no parameter.
pub open spec fn select_impl_fields(q: SelectQueryV) -> Seq<ImplBuilderFieldV> {
    match q.options {
        Some(o) => filter_impl_fields(q.filter).push(ImplBuilderFieldV { field: o, field_cat: FieldCatV::Ignore }),
        None => filter_impl_fields(q.filter),
    }
}

impl SelectQuery {
    /// A select named `ident` with nothing read yet.
    pub fn new(ident: String) -> (r: SelectQuery)
        ensures
            r.ident@ == ident@,
            r.meta is None,
            r.filter_statement@ == FilterStatementV::NoFilter,
            r.options is None,
    {
        SelectQuery { ident, meta: None, filter_statement: FilterStatement::NoFilter, options: None }
    }

    /// Records the arguments of the macro.
    pub fn with_meta(&mut self, meta: QueryMetaData)
        ensures
            final(self).meta == Some(meta),
            final(self).ident == old(self).ident,
            final(self).spec_body() == old(self).spec_body(),
    {
        self.meta = Some(meta);
    }

    /// The (field name, parameter label) pairs of the filters.
    pub fn get_param_labels(&self) -> (r: Vec<(String, String)>)
        requires
            filter_statement_wf(self.filter_statement@),
        ensures
            pair_views(r@) == filter_labels(self.filter_statement@),
    {
        self.filter_statement.get_parameter_labels()
    }

    /// The select read from the fields of the struct named `ident`.
    pub fn parse(ident: String, fields: &Vec<FieldDecl>) -> (r: Result<SelectQuery, MacroError>)
        requires
            fields_wf(fields@),
        ensures
            match r {
                Ok(q) => select_query_spec(fields@) == Ok::<SelectQueryV, Seq<char>>(q.spec_body()) && q.ident@ == ident@
                    && q.meta is None && filter_statement_wf(q.filter_statement@),
                Err(e) => select_query_spec(fields@) == Err::<SelectQueryV, Seq<char>>(e.message@),
            },
    {
        let options = match single_field_with(fields, OPTIONS) {
            Err(_) => return Err(MacroError::new(ONLY_ONE_OPTIONS_TAG_EXPECTED)),
            Ok(None) => None,
            Ok(Some(j)) => {
                assert(field_wf(fields@[j as int]));
                match SelectOptions::try_from(&fields[j]) {
                    Ok(o) => Some(o),
                    Err(e) => return Err(e),
                }
            },
        };
        let mut exclude: Vec<String> = Vec::new();
        exclude.push(String::from_str(OPTIONS));
        assert(views(exclude@) =~= seq![OPTIONS@]);
        let filter_statement = match filters_from_fields(fields, &exclude, FilterRequiredQuery::Select, INVALID_SELECT_TAG) {
            Ok(f) => f,
            Err(e) => return Err(e),
        };
        let query = SelectQuery { ident, meta: None, filter_statement, options };
        let labels = query.get_param_labels();
        assert(labels_of(labels@) =~= second_of(filter_labels(query.filter_statement@)));
        match check_duplicate_parameter_labels(&labels) {
            Err(e) => Err(e),
            Ok(_) => Ok(query),
        }
    }

    /// The fields of the struct of the select, with the way each is passed.
    pub fn impl_fields(&self) -> (r: Vec<ImplBuilderField>)
        ensures
            impl_fields_views(r@) == select_impl_fields(self.spec_body()),
    {
        let mut r = self.filter_statement.to_impl_builder_field();
        if let Some(o) = &self.options {
            let ghost before = impl_fields_views(r@);
            let f = ImplBuilderField { field: o.field.copy(), field_cat: FieldCat::Ignore };
            r.push(f);
            assert(impl_fields_views(r@) =~= before.push(f@));
        }
        r
    }

    /// The pieces of the EdgeQL of the select that follow its table, in order:
    /// the result's shape where a result is named, a space between it and the
    /// filters, the filters if any, and the options if any.
    pub fn edgeql_pieces(&self) -> (r: Result<Vec<QueryPiece>, MacroError>)
        ensures
            match self.meta {
                None => r matches Err(e) && e.message@ == EXPECT_META@,
                Some(m) => r matches Ok(v) && pieces_views(v@) == select_pieces_spec(
                    m.result is Some,
                    self.filter_statement@ != FilterStatementV::NoFilter,
                    self.options is Some,
                ),
            },
    {
        let has_result = match &self.meta {
            Some(m) => m.has_result(),
            None => return Err(MacroError::new(EXPECT_META)),
        };
        let has_filters = match &self.filter_statement {
            FilterStatement::NoFilter => false,
            _ => true,
        };
        let mut v: Vec<QueryPiece> = Vec::new();
        if has_result {
            v.push(QueryPiece::Shape);
        }
        if has_filters && has_result {
            v.push(QueryPiece::Text(String::from_str(" ")));
        }
        if has_filters {
            v.push(QueryPiece::Filters);
        }
        if self.options.is_some() {
            v.push(QueryPiece::Options);
        }
        proof {
            reveal_strlit(" ");
            assert(pieces_views(v@) =~= select_pieces_spec(has_result, has_filters, self.options is Some));
        }
        Ok(v)
    }
}

} // verus!
