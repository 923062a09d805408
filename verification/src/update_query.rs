use vstd::prelude::*;
use vstd::string::*;

use crate::constants::{
    AND_FILTER, EXPECTED_AT_LEAST_ONE_SET_FIELD, EXPECT_META, FILTER, FILTERS, INVALID_UPDATE_TAG,
    NESTED_QUERY, OR_FILTER, SET, SETS, UPDATE,
};
use crate::error::MacroError;
use crate::impl_builder::{ImplBuilderField, ImplBuilderFieldV, QueryPiece, QueryPieceV, impl_fields_views, pieces_views};
use crate::insert_query::second_of;
use crate::meta_data::{QueryMetaData, table_name_spec};
use crate::model::FieldDecl;
use crate::queries::{check_duplicate_parameter_labels, duplicate_check_spec, labels_of};
use crate::statements::filters::{
    FilterRequiredQuery, FilterStatement, FilterStatementV, filter_impl_fields, filter_labels,
    filter_statement_wf, filters_from_fields, filters_from_fields_spec, pair_views,
};
use crate::statements::set::{
    UpdateSetStatement, UpdateSetStatementV, set_impl_fields, set_labels, sets_from_fields,
    sets_from_fields_spec,
};
use crate::tags::builders::fields_wf;
use crate::text::views;

verus! {

/// An update declaration.
pub struct UpdateQuery {
    pub ident: String,
    pub meta: Option<QueryMetaData>,
    pub filter_statement: FilterStatement,
    pub set_statement: UpdateSetStatement,
}

/// The mathematical form of what an update declaration says.
pub struct UpdateQueryV {
    pub filter: FilterStatementV,
    pub sets: UpdateSetStatementV,
}

/// The pieces of the EdgeQL of an update that starts with `init`; see
/// `UpdateQuery::edgeql_pieces`.
pub open spec fn update_pieces_spec(init: Seq<char>, has_filters: bool) -> Seq<QueryPieceV> {
    seq![QueryPieceV::Text(init)] + (if has_filters { seq![QueryPieceV::Filters] } else { Seq::empty() })
        + seq![QueryPieceV::Text(" "@), QueryPieceV::Sets]
}

impl UpdateQuery {
    /// What the declaration says: its filters and its sets.
    pub open spec fn spec_body(&self) -> UpdateQueryV {
        UpdateQueryV { filter: self.filter_statement@, sets: self.set_statement@ }
    }
}

/// The (field name, parameter label) pairs of the sets from fields.
pub open spec fn update_set_labels(s: UpdateSetStatementV) -> Seq<(Seq<char>, Seq<char>)> {
    match s {
        UpdateSetStatementV::ManySet(v) => set_labels(v),
        _ => Seq::empty(),
    }
}

/// The (field name, parameter label) pairs of an update: its filters', then its sets'.
pub open spec fn update_params(q: UpdateQueryV) -> Seq<(Seq<char>, Seq<char>)> {
    filter_labels(q.filter) + update_set_labels(q.sets)
}

/// The tags that the filters of an update pass over.
pub open spec fn update_filter_exclude() -> Seq<Seq<char>> {
    seq![SET@, SETS@, NESTED_QUERY@]
}

/// The tags that the sets of an update pass over.
pub open spec fn update_set_exclude() -> Seq<Seq<char>> {
    seq![FILTER@, FILTERS@, AND_FILTER@, OR_FILTER@]
}

/// The update read from the fields of a struct: its filters, its sets (it must
/// set something), and no parameter label twice.
pub open spec fn update_query_spec(fields: Seq<FieldDecl>) -> Result<UpdateQueryV, Seq<char>> {
    match filters_from_fields_spec(fields, update_filter_exclude(), FilterRequiredQuery::Update, INVALID_UPDATE_TAG@) {
        Err(m) => Err(m),
        Ok(f) => match sets_from_fields_spec(fields, update_set_exclude(), false, INVALID_UPDATE_TAG@) {
            Err(m) => Err(m),
            Ok(s) => if s is NoSet {
                Err(EXPECTED_AT_LEAST_ONE_SET_FIELD@)
            } else {
                let q = UpdateQueryV { filter: f, sets: s };
                match duplicate_check_spec(second_of(update_params(q))) {
                    Err(m) => Err(m),
                    Ok(_) => Ok(q),
                }
            },
        },
    }
}

/// The fields of the struct of an update: those of its filters, then of its sets.
pub open spec fn update_impl_fields(q: UpdateQueryV) -> Seq<ImplBuilderFieldV> {
    filter_impl_fields(q.filter) + set_impl_fields(q.sets)
}

impl UpdateQuery {
    /// An update named `ident` with nothing read yet.
    pub fn new(ident: String) -> (r: UpdateQuery)
        ensures
            r.ident@ == ident@,
            r.meta is None,
            r.filter_statement@ == FilterStatementV::NoFilter,
            r.set_statement@ == UpdateSetStatementV::NoSet,
    {
        UpdateQuery { ident, meta: None, filter_statement: FilterStatement::NoFilter, set_statement: UpdateSetStatement::NoSet }
    }

    /// Records the arguments of the macro.
    pub fn with_meta(&mut self, meta: QueryMetaData)
        ensures
            final(self).meta == Some(meta),
            final(self).ident == old(self).ident,
            final(self).spec_body() == old(self).spec_body(),
    {
        self.meta = Some(meta);
    }

    /// The (field name, parameter label) pairs of the filters, then of the sets.
    pub fn get_param_labels(&self) -> (r: Vec<(String, String)>)
        requires
            filter_statement_wf(self.filter_statement@),
        ensures
            pair_views(r@) == update_params(self.spec_body()),
    {
        let mut p = self.filter_statement.get_parameter_labels();
        let mut v = self.set_statement.get_parameter_labels();
        let ghost a = pair_views(p@);
        let ghost b = pair_views(v@);
        p.append(&mut v);
        assert(pair_views(p@) =~= a + b);
        p
    }

    /// The update read from the fields of the struct named `ident`.
    pub fn parse(ident: String, fields: &Vec<FieldDecl>) -> (r: Result<UpdateQuery, MacroError>)
        requires
            fields_wf(fields@),
        ensures
            match r {
                Ok(q) => update_query_spec(fields@) == Ok::<UpdateQueryV, Seq<char>>(q.spec_body()) && q.ident@ == ident@
                    && q.meta is None && filter_statement_wf(q.filter_statement@),
                Err(e) => update_query_spec(fields@) == Err::<UpdateQueryV, Seq<char>>(e.message@),
            },
    {
        let mut fx: Vec<String> = Vec::new();
        fx.push(String::from_str(SET));
        fx.push(String::from_str(SETS));
        fx.push(String::from_str(NESTED_QUERY));
        assert(views(fx@) =~= update_filter_exclude());
        let filter_statement = match filters_from_fields(fields, &fx, FilterRequiredQuery::Update, INVALID_UPDATE_TAG) {
            Ok(f) => f,
            Err(e) => return Err(e),
        };
        let mut sx: Vec<String> = Vec::new();
        sx.push(String::from_str(FILTER));
        sx.push(String::from_str(FILTERS));
        sx.push(String::from_str(AND_FILTER));
        sx.push(String::from_str(OR_FILTER));
        assert(views(sx@) =~= update_set_exclude());
        let set_statement = match sets_from_fields(fields, &sx, false, INVALID_UPDATE_TAG) {
            Ok(s) => s,
            Err(e) => return Err(e),
        };
        if let UpdateSetStatement::NoSet = set_statement {
            return Err(MacroError::new(EXPECTED_AT_LEAST_ONE_SET_FIELD));
        }
        let query = UpdateQuery { ident, meta: None, filter_statement, set_statement };
        let labels = query.get_param_labels();
        assert(labels_of(labels@) =~= second_of(update_params(query.spec_body())));
        match check_duplicate_parameter_labels(&labels) {
            Err(e) => Err(e),
            Ok(_) => Ok(query),
        }
    }

    /// The start of the EdgeQL of the update, `update module::table`; the macro's
    /// arguments must have been recorded.
    pub fn init_edgeql(&self) -> (r: Result<String, MacroError>)
        ensures
            match self.meta {
                None => r matches Err(e) && e.message@ == EXPECT_META@,
                Some(m) => r matches Ok(s) && s@ == UPDATE@ + " "@ + table_name_spec(m.meta.module@, m.meta.table@),
            },
    {
        match &self.meta {
            None => Err(MacroError::new(EXPECT_META)),
            Some(m) => {
                let table = m.table_name();
                let mut s = String::from_str(UPDATE);
                s.append(" ");
                s.append(table.as_str());
                Ok(s)
            },
        }
    }

    /// The fields of the struct of the update, with the way each is passed.
    pub fn impl_fields(&self) -> (r: Vec<ImplBuilderField>)
        ensures
            impl_fields_views(r@) == update_impl_fields(self.spec_body()),
    {
        let mut r = self.filter_statement.to_impl_builder_field();
        let mut s = self.set_statement.to_impl_builder_field();
        let ghost a = impl_fields_views(r@);
        let ghost b = impl_fields_views(s@);
        r.append(&mut s);
        assert(impl_fields_views(r@) =~= a + b);
        r
    }

    /// The pieces of the EdgeQL of the update, in order: its start, the filters
    /// if any, a space and the `set { ... }`.
    pub fn edgeql_pieces(&self) -> (r: Result<Vec<QueryPiece>, MacroError>)
        ensures
            match self.meta {
                None => r matches Err(e) && e.message@ == EXPECT_META@,
                Some(m) => r matches Ok(v) && pieces_views(v@) == update_pieces_spec(
                    UPDATE@ + " "@ + table_name_spec(m.meta.module@, m.meta.table@),
                    self.filter_statement@ != FilterStatementV::NoFilter,
                ),
            },
    {
        let init = match self.init_edgeql() {
            Ok(s) => s,
            Err(e) => return Err(e),
        };
        let has_filters = match &self.filter_statement {
            FilterStatement::NoFilter => false,
            _ => true,
        };
        let mut v: Vec<QueryPiece> = Vec::new();
        v.push(QueryPiece::Text(init));
        if has_filters {
            v.push(QueryPiece::Filters);
        }
        v.push(QueryPiece::Text(String::from_str(" ")));
        v.push(QueryPiece::Sets);
        proof {
            reveal_strlit(" ");
            assert(pieces_views(v@) =~= update_pieces_spec(v@[0]@->Text_0, has_filters));
        }
        Ok(v)
    }
}

} // verus!
