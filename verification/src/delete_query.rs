use vstd::prelude::*;
use vstd::string::*;

use crate::constants::{EXPECT_META, INVALID_DELETE_TAG};
use crate::error::MacroError;
use crate::impl_builder::{ImplBuilderField, QueryPiece, QueryPieceV, impl_fields_views, pieces_views};
use crate::insert_query::second_of;
use crate::meta_data::{TableInfo, table_name_spec};
use crate::model::FieldDecl;
use crate::queries::{check_duplicate_parameter_labels, duplicate_check_spec, labels_of};
use crate::statements::filters::{
    FilterRequiredQuery, FilterStatement, FilterStatementV, filter_impl_fields, filter_labels,
    filter_statement_wf, filters_from_fields, filters_from_fields_spec, pair_views, with_parent_table,
};
use crate::tags::builders::fields_wf;
use crate::text::views;

verus! {

/// A delete declaration.
pub struct DeleteQuery {
    pub ident: String,
    pub meta: Option<TableInfo>,
    pub filter_statement: FilterStatement,
}

/// The delete read from the fields of a struct: its filters, with no parameter
/// label twice.
pub open spec fn delete_query_spec(fields: Seq<FieldDecl>) -> Result<FilterStatementV, Seq<char>> {
    match filters_from_fields_spec(fields, Seq::empty(), FilterRequiredQuery::Delete, INVALID_DELETE_TAG@) {
        Err(m) => Err(m),
        Ok(f) => match duplicate_check_spec(second_of(filter_labels(f))) {
            Err(m) => Err(m),
            Ok(_) => Ok(f),
        },
    }
}

impl DeleteQuery {
    /// A delete named `ident` with nothing read yet.
    pub fn new(ident: String) -> (r: DeleteQuery)
        ensures
            r.ident@ == ident@,
            r.meta is None,
            r.filter_statement@ == FilterStatementV::NoFilter,
    {
        DeleteQuery { ident, meta: None, filter_statement: FilterStatement::NoFilter }
    }

    /// Records the table of the delete, on the delete and on the filters on
    /// nested queries.
    pub fn with_meta(&mut self, meta: TableInfo)
        ensures
            final(self).meta matches Some(m) && m.module@ == meta.module@ && m.table@ == meta.table@,
            final(self).ident == old(self).ident,
            final(self).filter_statement@ == with_parent_table(old(self).filter_statement@, table_name_spec(meta.module@, meta.table@)),
    {
        let name = meta.table_name();
        self.meta = Some(meta);
        self.filter_statement.set_table_name(name.as_str());
    }

    /// The (field name, parameter label) pairs of the filters.
    pub fn get_param_labels(&self) -> (r: Vec<(String, String)>)
        requires
            filter_statement_wf(self.filter_statement@),
        ensures
            pair_views(r@) == filter_labels(self.filter_statement@),
    {
        self.filter_statement.get_parameter_labels()
    }

    /// The delete read from the fields of the struct named `ident`.
    pub fn parse(ident: String, fields: &Vec<FieldDecl>) -> (r: Result<DeleteQuery, MacroError>)
        requires
            fields_wf(fields@),
        ensures
            match r {
                Ok(q) => delete_query_spec(fields@) == Ok::<FilterStatementV, Seq<char>>(q.filter_statement@) && q.ident@ == ident@
                    && q.meta is None && filter_statement_wf(q.filter_statement@),
                Err(e) => delete_query_spec(fields@) == Err::<FilterStatementV, Seq<char>>(e.message@),
            },
    {
        let exclude: Vec<String> = Vec::new();
        assert(views(exclude@) =~= Seq::<Seq<char>>::empty());
        let filter_statement = match filters_from_fields(fields, &exclude, FilterRequiredQuery::Delete, INVALID_DELETE_TAG) {
            Ok(f) => f,
            Err(e) => return Err(e),
        };
        let query = DeleteQuery { ident, meta: None, filter_statement };
        let labels = query.get_param_labels();
        assert(labels_of(labels@) =~= second_of(filter_labels(query.filter_statement@)));
        match check_duplicate_parameter_labels(&labels) {
            Err(e) => Err(e),
            Ok(_) => Ok(query),
        }
    }

    /// The fields of the struct of the delete, with the way each is passed.
    pub fn impl_fields(&self) -> (r: Vec<ImplBuilderField>)
        ensures
            impl_fields_views(r@) == filter_impl_fields(self.filter_statement@),
    {
        self.filter_statement.to_impl_builder_field()
    }

    /// The pieces of the EdgeQL of the delete that follow its table: the
    /// filters, if any.
    pub fn edgeql_pieces(&self) -> (r: Result<Vec<QueryPiece>, MacroError>)
        ensures
            match self.meta {
                None => r matches Err(e) && e.message@ == EXPECT_META@,
                Some(_) => r matches Ok(v) && pieces_views(v@) == (if self.filter_statement@ != FilterStatementV::NoFilter {
                    seq![QueryPieceV::Filters]
                } else {
                    Seq::<QueryPieceV>::empty()
                }),
            },
    {
        if self.meta.is_none() {
            return Err(MacroError::new(EXPECT_META));
        }
        let has_filters = match &self.filter_statement {
            FilterStatement::NoFilter => false,
            _ => true,
        };
        let mut v: Vec<QueryPiece> = Vec::new();
        if has_filters {
            v.push(QueryPiece::Filters);
        }
        assert(pieces_views(v@) =~= (if has_filters { seq![QueryPieceV::Filters] } else { Seq::<QueryPieceV>::empty() }));
        Ok(v)
    }
}

} // verus!
