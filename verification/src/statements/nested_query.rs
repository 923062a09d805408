use vstd::prelude::*;
use vstd::string::*;

use crate::constants::{EDGEQL, NESTED_QUERY};
use crate::error::MacroError;
use crate::model::FieldDecl;
use crate::queries::{QueryField, QueryFieldV, query_field_spec};
use crate::statements::filters::{QueryFilter, QueryFilterV, filter_statement_spec, query_filter_spec};
use crate::statements::set::{UpdateSet, UpdateSetV, set_statement_spec, update_set_spec};
use crate::tags::builders::field_wf;
use crate::text::{copy_opt, ov, views};

verus! {

/// A field whose value is itself a query, inserted, set or filtered on.
pub struct NestedQueryField {
    pub field: QueryField,
    pub set: Option<UpdateSet>,
    pub filter: Option<QueryFilter>,
    pub parent_table_name: Option<String>,
}

/// The mathematical form of a `NestedQueryField`.
pub struct NestedQueryFieldV {
    pub field: QueryFieldV,
    pub set: Option<UpdateSetV>,
    pub filter: Option<QueryFilterV>,
    pub parent_table_name: Option<Seq<char>>,
}

impl View for NestedQueryField {
    type V = NestedQueryFieldV;

    open spec fn view(&self) -> NestedQueryFieldV {
        NestedQueryFieldV {
            field: self.field@,
            set: match self.set {
                Some(s) => Some(s@),
                None => None,
            },
            filter: match self.filter {
                Some(f) => Some(f@),
                None => None,
            },
            parent_table_name: ov(self.parent_table_name),
        }
    }
}

/// Where a nested query stands: inserted as a whole, as the value of a set, or
/// as the value of a filter (`true` for the first filter).
#[derive(Clone, Copy, PartialEq, Eq, Structural, Debug)]
pub enum NestedQueryParentType {
    Query,
    SetValue,
    Filter(bool),
}

/// The nested query read from `field`, or the first error.
pub open spec fn nested_query_spec(field: FieldDecl, parent: NestedQueryParentType) -> Result<NestedQueryFieldV, Seq<char>> {
    match parent {
        NestedQueryParentType::Query => match query_field_spec(field, seq![NESTED_QUERY@]) {
            Err(m) => Err(m),
            Ok(q) => Ok(NestedQueryFieldV { field: q, set: None, filter: None, parent_table_name: None }),
        },
        NestedQueryParentType::SetValue => match update_set_spec(field, true) {
            Err(m) => Err(m),
            Ok(s) => Ok(NestedQueryFieldV { field: s.field, set: Some(s), filter: None, parent_table_name: None }),
        },
        NestedQueryParentType::Filter(first) => match query_filter_spec(field, first, true) {
            Err(m) => Err(m),
            Ok(f) => Ok(NestedQueryFieldV { field: f.field, set: None, filter: Some(f), parent_table_name: None }),
        },
    }
}

/// The EdgeQL of a nested query's place in its parent, the nested query itself
/// left as the `$edgeql$` mark.
pub open spec fn nested_statement_spec(n: NestedQueryFieldV) -> Seq<char> {
    match n.set {
        Some(s) => set_statement_spec(s, true),
        None => match n.filter {
            Some(f) => filter_statement_spec(f, match n.parent_table_name {
                Some(t) => t,
                None => Seq::empty(),
            }, true)->Ok_0,
            None => n.field.ident + " := ("@ + EDGEQL@ + "), "@,
        },
    }
}

impl NestedQueryField {
    /// The nested query read from `field`.
    pub fn try_from(field: &FieldDecl, parent: NestedQueryParentType) -> (r: Result<NestedQueryField, MacroError>)
        requires
            field_wf(*field),
        ensures
            match r {
                Ok(n) => nested_query_spec(*field, parent) == Ok::<NestedQueryFieldV, Seq<char>>(n@),
                Err(e) => nested_query_spec(*field, parent) == Err::<NestedQueryFieldV, Seq<char>>(e.message@),
            },
    {
        match parent {
            NestedQueryParentType::Query => {
                let mut tags: Vec<String> = Vec::new();
                tags.push(String::from_str(NESTED_QUERY));
                assert(views(tags@) =~= seq![NESTED_QUERY@]);
                match QueryField::try_from(field, &tags) {
                    Err(e) => Err(e),
                    Ok(q) => Ok(NestedQueryField { field: q, set: None, filter: None, parent_table_name: None }),
                }
            },
            NestedQueryParentType::SetValue => match UpdateSet::try_from(field, true) {
                Err(e) => Err(e),
                Ok(s) => {
                    let f = s.field.copy();
                    Ok(NestedQueryField { field: f, set: Some(s), filter: None, parent_table_name: None })
                },
            },
            NestedQueryParentType::Filter(first) => match QueryFilter::try_from(field, first, true) {
                Err(e) => Err(e),
                Ok(q) => {
                    let f = q.field.copy();
                    Ok(NestedQueryField { field: f, set: None, filter: Some(q), parent_table_name: None })
                },
            },
        }
    }

    /// Records the table of the query that holds this one.
    pub fn set_parent_table_name(&mut self, name: String)
        ensures
            final(self)@ == (NestedQueryFieldV { parent_table_name: Some(name@), ..old(self)@ }),
    {
        self.parent_table_name = Some(name);
    }

    /// The EdgeQL of the nested query's place in its parent: the set or the filter
    /// it is the value of, or `name := ($edgeql$), ` when it is inserted.
    pub fn build_statement(&self) -> (r: Result<String, MacroError>)
        ensures
            r matches Ok(s) && s@ == nested_statement_spec(self@),
    {
        if let Some(set) = &self.set {
            Ok(set.build_statement(true))
        } else if let Some(filter) = &self.filter {
            let table = match &self.parent_table_name {
                Some(t) => t.clone(),
                None => String::new(),
            };
            filter.build_statement(table.as_str(), true)
        } else {
            let mut s = self.field.ident.clone();
            s.append(" := (");
            s.append(EDGEQL);
            s.append("), ");
            Ok(s)
        }
    }

    /// A copy of the nested query.
    pub fn copy(&self) -> (r: NestedQueryField)
        ensures
            r@ == self@,
    {
        NestedQueryField {
            field: self.field.copy(),
            set: match &self.set {
                Some(s) => Some(s.copy()),
                None => None,
            },
            filter: match &self.filter {
                Some(f) => Some(f.copy()),
                None => None,
            },
            parent_table_name: copy_opt(&self.parent_table_name),
        }
    }
}

} // verus!
