use vstd::prelude::*;
use vstd::string::*;

use crate::attributes_utils::{attrs_have, has_attr};
use crate::constants::{
    EXPECT_META, FIELD, INSERT, INVALID_INSERT_TAG, NESTED_QUERY, ONLY_ONE_UNLESS_CONFLICT, SELECT,
    UNLESS_CONFLICT,
};
use crate::error::MacroError;
use crate::impl_builder::{
    FieldCat, FieldCatV, ImplBuilderField, ImplBuilderFieldV, QueryPiece, QueryPieceV, impl_fields_views, pieces_views,
    statement_pieces,
};
use crate::meta_data::{QueryMetaData, table_name_spec};
use crate::model::FieldDecl;
use crate::queries::{
    QueryField, QueryFieldV, check_duplicate_parameter_labels, duplicate_check_spec, fields_with_attr,
    labels_of, query_field_spec, single_field_with,
};
use crate::statements::filters::pair_views;
use crate::statements::nested_query::{NestedQueryField, NestedQueryFieldV, NestedQueryParentType, nested_query_spec};
use crate::tags::builders::{
    field_builder_spec, field_wf, fields_wf, read_field_tag, read_unless_conflict_tag,
    unless_conflict_builder_spec,
};
use crate::tags::field_tag::{FieldTag, FieldTagV, field_tag_spec};
use crate::tags::unless_conflict_tag::{UnlessConflictTag, unless_conflict_spec};
use crate::text::views;

verus! {

/// A field of an insert that sets a column from its value.
pub struct InsertField {
    pub field: QueryField,
    pub tag: FieldTag,
}

/// The mathematical form of an `InsertField`.
pub struct InsertFieldV {
    pub field: QueryFieldV,
    pub tag: FieldTagV,
}

impl View for InsertField {
    type V = InsertFieldV;

    open spec fn view(&self) -> InsertFieldV {
        InsertFieldV { field: self.field@, tag: self.tag@ }
    }
}

/// The insert field read from `field`, or the first error.
pub open spec fn insert_field_spec(field: FieldDecl) -> Result<InsertFieldV, Seq<char>> {
    match field_builder_spec(field.attrs@) {
        Err(m) => Err(m),
        Ok(fb) => match query_field_spec(field, seq![FIELD@]) {
            Err(m) => Err(m),
            Ok(q) => match field_tag_spec(fb, field.name(), field.ty@) {
                Err(m) => Err(m),
                Ok(t) => Ok(InsertFieldV { field: q, tag: t }),
            },
        },
    }
}

/// `column := (select <scalar>$param), `
pub open spec fn insert_statement_spec(f: InsertFieldV) -> Seq<char> {
    f.tag.column_name + " := ("@ + SELECT@ + " "@ + f.tag.scalar_type + "$"@ + f.tag.parameter_label + "), "@
}

impl InsertField {
    /// The EdgeQL that sets the column from the parameter.
    pub fn build_statement(&self) -> (r: String)
        ensures
            r@ == insert_statement_spec(self@),
    {
        let mut s = self.tag.column_name.clone();
        s.append(" := (");
        s.append(SELECT);
        s.append(" ");
        s.append(self.tag.scalar_type.as_str());
        s.append("$");
        s.append(self.tag.parameter_label.as_str());
        s.append("), ");
        s
    }

    /// The insert field read from `field`.
    pub fn try_from(field: &FieldDecl) -> (r: Result<InsertField, MacroError>)
        requires
            field_wf(*field),
        ensures
            match r {
                Ok(f) => insert_field_spec(*field) == Ok::<InsertFieldV, Seq<char>>(f@),
                Err(e) => insert_field_spec(*field) == Err::<InsertFieldV, Seq<char>>(e.message@),
            },
    {
        let fb = match read_field_tag(&field.attrs) {
            Ok(b) => b,
            Err(e) => return Err(e),
        };
        let mut tags: Vec<String> = Vec::new();
        tags.push(String::from_str(FIELD));
        assert(views(tags@) =~= seq![FIELD@]);
        let q = match QueryField::try_from(field, &tags) {
            Ok(q) => q,
            Err(e) => return Err(e),
        };
        match fb.build(field) {
            Ok(t) => Ok(InsertField { field: q, tag: t }),
            Err(e) => Err(e),
        }
    }
}

/// What an insert does with a field: sets a column from it, or inserts the
/// nested query it holds.
pub enum InsertStatement {
    SimpleField(InsertField),
    NestedQuery(NestedQueryField),
}

/// The mathematical form of an `InsertStatement`.
pub enum InsertStatementV {
    Simple(InsertFieldV),
    Nested(NestedQueryFieldV),
}

impl View for InsertStatement {
    type V = InsertStatementV;

    open spec fn view(&self) -> InsertStatementV {
        match self {
            InsertStatement::SimpleField(f) => InsertStatementV::Simple(f@),
            InsertStatement::NestedQuery(n) => InsertStatementV::Nested(n@),
        }
    }
}

/// The statement read from `field`: a nested query, a column (for a field with
/// `field` or no attribute), or the error for any other attribute.
pub open spec fn insert_stmt_spec(field: FieldDecl) -> Result<InsertStatementV, Seq<char>> {
    if has_attr(field.attrs@, NESTED_QUERY@) {
        match nested_query_spec(field, NestedQueryParentType::Query) {
            Err(m) => Err(m),
            Ok(n) => Ok(InsertStatementV::Nested(n)),
        }
    } else if has_attr(field.attrs@, FIELD@) || field.attrs@.len() == 0 {
        match insert_field_spec(field) {
            Err(m) => Err(m),
            Ok(f) => Ok(InsertStatementV::Simple(f)),
        }
    } else {
        Err(INVALID_INSERT_TAG@)
    }
}

impl InsertStatement {
    /// The field name and parameter label of a column set from a field.
    pub fn param_field(&self) -> (r: Option<(String, String)>)
        ensures
            match self@ {
                InsertStatementV::Simple(f) => r matches Some(p) && p.0@ == f.field.ident && p.1@ == f.tag.parameter_label,
                InsertStatementV::Nested(_) => r is None,
            },
    {
        match self {
            InsertStatement::SimpleField(f) => Some((f.field.ident.clone(), f.tag.parameter_label.clone())),
            InsertStatement::NestedQuery(_) => None,
        }
    }

    /// The column set from a field.
    pub fn column_name(&self) -> (r: Option<String>)
        ensures
            match self@ {
                InsertStatementV::Simple(f) => r matches Some(c) && c@ == f.tag.column_name,
                InsertStatementV::Nested(_) => r is None,
            },
    {
        match self {
            InsertStatement::SimpleField(f) => Some(f.tag.column_name.clone()),
            InsertStatement::NestedQuery(_) => None,
        }
    }

    /// The statement read from `field`.
    pub fn try_from(field: &FieldDecl) -> (r: Result<InsertStatement, MacroError>)
        requires
            field_wf(*field),
        ensures
            match r {
                Ok(s) => insert_stmt_spec(*field) == Ok::<InsertStatementV, Seq<char>>(s@),
                Err(e) => insert_stmt_spec(*field) == Err::<InsertStatementV, Seq<char>>(e.message@),
            },
    {
        if attrs_have(&field.attrs, NESTED_QUERY) {
            match NestedQueryField::try_from(field, NestedQueryParentType::Query) {
                Ok(n) => Ok(InsertStatement::NestedQuery(n)),
                Err(e) => Err(e),
            }
        } else if attrs_have(&field.attrs, FIELD) || field.attrs.len() == 0 {
            match InsertField::try_from(field) {
                Ok(f) => Ok(InsertStatement::SimpleField(f)),
                Err(e) => Err(e),
            }
        } else {
            Err(MacroError::new(INVALID_INSERT_TAG))
        }
    }
}

/// The field of an insert that says what to do on a conflict, with the columns
/// that decide it.
pub struct UnlessConflictElseStatement {
    pub field: QueryField,
    pub tag: UnlessConflictTag,
}

/// The mathematical form of an `UnlessConflictElseStatement`.
pub struct UnlessConflictElseStatementV {
    pub field: QueryFieldV,
    pub on: Seq<Seq<char>>,
}

impl View for UnlessConflictElseStatement {
    type V = UnlessConflictElseStatementV;

    open spec fn view(&self) -> UnlessConflictElseStatementV {
        UnlessConflictElseStatementV { field: self.field@, on: views(self.tag.on@) }
    }
}

/// The conflict statement read from `field`, for an insert of `columns`.
pub open spec fn ucs_spec(field: FieldDecl, columns: Seq<Seq<char>>) -> Result<UnlessConflictElseStatementV, Seq<char>> {
    match unless_conflict_builder_spec(field.attrs@) {
        Err(m) => Err(m),
        Ok(on) => match query_field_spec(field, seq![UNLESS_CONFLICT@]) {
            Err(m) => Err(m),
            Ok(q) => match unless_conflict_spec(on, columns) {
                Err(m) => Err(m),
                Ok(ons) => Ok(UnlessConflictElseStatementV { field: q, on: ons }),
            },
        },
    }
}

/// The strings joined, with a comma between two.
pub open spec fn join_commas(v: Seq<Seq<char>>) -> Seq<char>
    decreases v.len(),
{
    if v.len() == 0 {
        Seq::empty()
    } else if v.len() == 1 {
        v[0]
    } else {
        join_commas(v.drop_last()) + ","@ + v.last()
    }
}

impl UnlessConflictElseStatement {
    /// The conflict statement read from `field`, for an insert of `columns`.
    pub fn try_from(field: &FieldDecl, columns: &Vec<String>) -> (r: Result<UnlessConflictElseStatement, MacroError>)
        requires
            field_wf(*field),
        ensures
            match r {
                Ok(u) => ucs_spec(*field, views(columns@)) == Ok::<UnlessConflictElseStatementV, Seq<char>>(u@),
                Err(e) => ucs_spec(*field, views(columns@)) == Err::<UnlessConflictElseStatementV, Seq<char>>(e.message@),
            },
    {
        let b = match read_unless_conflict_tag(&field.attrs) {
            Ok(b) => b,
            Err(e) => return Err(e),
        };
        let mut tags: Vec<String> = Vec::new();
        tags.push(String::from_str(UNLESS_CONFLICT));
        assert(views(tags@) =~= seq![UNLESS_CONFLICT@]);
        let q = match QueryField::try_from(field, &tags) {
            Ok(q) => q,
            Err(e) => return Err(e),
        };
        match b.build(field, columns) {
            Ok(t) => Ok(UnlessConflictElseStatement { field: q, tag: t }),
            Err(e) => Err(e),
        }
    }

    /// The conflict columns, joined by commas.
    pub fn on_fields(&self) -> (r: String)
        ensures
            r@ == join_commas(self@.on),
    {
        let mut s = String::new();
        let mut i: usize = 0;
        while i < self.tag.on.len()
            invariant
                i <= self.tag.on.len(),
                s@ == join_commas(views(self.tag.on@).subrange(0, i as int)),
            decreases self.tag.on.len() - i,
        {
            let ghost pre = views(self.tag.on@).subrange(0, i as int);
            assert(views(self.tag.on@).subrange(0, i + 1).drop_last() =~= pre);
            assert(views(self.tag.on@)[i as int] == self.tag.on@[i as int]@);
            if i > 0 {
                s.append(",");
            } else {
                assert(pre =~= Seq::<Seq<char>>::empty());
            }
            s.append(self.tag.on[i].as_str());
            i = i + 1;
        }
        assert(views(self.tag.on@).subrange(0, self.tag.on.len() as int) =~= views(self.tag.on@));
        s
    }
}

/// The statements of an insert, one per field but the conflict field, in order,
/// or the first error.
pub open spec fn insert_stmts_spec(fields: Seq<FieldDecl>) -> Result<Seq<InsertStatementV>, Seq<char>>
    decreases fields.len(),
{
    if fields.len() == 0 {
        Ok(Seq::empty())
    } else {
        match insert_stmts_spec(fields.drop_last()) {
            Err(m) => Err(m),
            Ok(acc) => if has_attr(fields.last().attrs@, UNLESS_CONFLICT@) {
                Ok(acc)
            } else {
                match insert_stmt_spec(fields.last()) {
                    Err(m) => Err(m),
                    Ok(s) => Ok(acc.push(s)),
                }
            },
        }
    }
}

/// The columns set from fields, in order.
pub open spec fn insert_columns(st: Seq<InsertStatementV>) -> Seq<Seq<char>>
    decreases st.len(),
{
    if st.len() == 0 {
        Seq::empty()
    } else {
        match st.last() {
            InsertStatementV::Simple(f) => insert_columns(st.drop_last()).push(f.tag.column_name),
            InsertStatementV::Nested(_) => insert_columns(st.drop_last()),
        }
    }
}

/// The (field name, parameter label) pairs of the columns set from fields, in order.
pub open spec fn insert_params(st: Seq<InsertStatementV>) -> Seq<(Seq<char>, Seq<char>)>
    decreases st.len(),
{
    if st.len() == 0 {
        Seq::empty()
    } else {
        match st.last() {
            InsertStatementV::Simple(f) => insert_params(st.drop_last()).push((f.field.ident, f.tag.parameter_label)),
            InsertStatementV::Nested(_) => insert_params(st.drop_last()),
        }
    }
}

/// The labels of a list of (field name, parameter label) pairs.
pub open spec fn second_of(v: Seq<(Seq<char>, Seq<char>)>) -> Seq<Seq<char>> {
    v.map_values(|p: (Seq<char>, Seq<char>)| p.1)
}

/// An insert declaration.
pub struct InsertQuery {
    pub ident: String,
    pub meta: Option<QueryMetaData>,
    pub statements: Vec<InsertStatement>,
    pub unless_conflict_statement: Option<UnlessConflictElseStatement>,
}

/// The mathematical form of what an insert declaration says.
pub struct InsertQueryV {
    pub statements: Seq<InsertStatementV>,
    pub unless_conflict: Option<UnlessConflictElseStatementV>,
}

/// The views of a list of insert statements.
pub open spec fn insert_views(v: Seq<InsertStatement>) -> Seq<InsertStatementV> {
    v.map_values(|s: InsertStatement| s@)
}

impl InsertQuery {
    /// What the declaration says: its statements and its conflict statement.
    pub open spec fn spec_body(&self) -> InsertQueryV {
        InsertQueryV {
            statements: insert_views(self.statements@),
            unless_conflict: match self.unless_conflict_statement {
                Some(u) => Some(u@),
                None => None,
            },
        }
    }
}

/// The insert read from the fields of a struct: at most one conflict field, a
/// statement for every other field, the conflict columns among those set, and no
/// parameter label twice.
pub open spec fn insert_query_spec(fields: Seq<FieldDecl>) -> Result<InsertQueryV, Seq<char>> {
    let uf = fields_with_attr(fields, UNLESS_CONFLICT@);
    if uf.len() > 1 {
        Err(ONLY_ONE_UNLESS_CONFLICT@)
    } else {
        match insert_stmts_spec(fields) {
            Err(m) => Err(m),
            Ok(st) => {
                let u: Result<Option<UnlessConflictElseStatementV>, Seq<char>> = if uf.len() == 1 {
                    match ucs_spec(uf[0], insert_columns(st)) {
                        Err(m) => Err(m),
                        Ok(u) => Ok(Some(u)),
                    }
                } else {
                    Ok(None)
                };
                match u {
                    Err(m) => Err(m),
                    Ok(u) => match duplicate_check_spec(second_of(insert_params(st))) {
                        Err(m) => Err(m),
                        Ok(_) => Ok(InsertQueryV { statements: st, unless_conflict: u }),
                    },
                }
            },
        }
    }
}

/// The start of the EdgeQL of an insert into `table`; an insert that returns a
/// result is wrapped in a select.
pub open spec fn insert_init_spec(table: Seq<char>, has_result: bool) -> Seq<char> {
    if has_result {
        SELECT@ + " ( "@ + INSERT@ + " "@ + table + " {"@
    } else {
        INSERT@ + " "@ + table + " {"@
    }
}

/// The pieces of the EdgeQL of an insert that starts with `init` and has `n`
/// elements; see `InsertQuery::edgeql_pieces`.
pub open spec fn insert_pieces_spec(init: Seq<char>, n: nat, conflict: bool, has_result: bool) -> Seq<QueryPieceV> {
    seq![QueryPieceV::Text(init)] + statement_pieces(n) + seq![QueryPieceV::Text("}"@)]
        + (if conflict { seq![QueryPieceV::Conflict] } else { Seq::empty() })
        + (if has_result { seq![QueryPieceV::Text(" )"@), QueryPieceV::Shape] } else { Seq::empty() })
}

/// The fields of the struct of an insert, with the way each is passed.
pub open spec fn insert_impl_fields(q: InsertQueryV) -> Seq<ImplBuilderFieldV> {
    let base = q.statements.map_values(|s: InsertStatementV| match s {
        InsertStatementV::Simple(f) => ImplBuilderFieldV { field: f.field, field_cat: FieldCatV::Simple(f.tag.parameter_label) },
        InsertStatementV::Nested(n) => ImplBuilderFieldV { field: n.field, field_cat: FieldCatV::Nested },
    });
    match q.unless_conflict {
        Some(u) => base.push(ImplBuilderFieldV { field: u.field, field_cat: FieldCatV::Conflict }),
        None => base,
    }
}

/// Once a prefix of the fields gives an error, all of them give it.
proof fn lemma_insert_err_prefix(fields: Seq<FieldDecl>, j: int)
    requires
        0 <= j <= fields.len(),
        insert_stmts_spec(fields.subrange(0, j)) is Err,
    ensures
        insert_stmts_spec(fields) == insert_stmts_spec(fields.subrange(0, j)),
    decreases fields.len() - j,
{
    if j < fields.len() {
        assert(fields.subrange(0, j + 1).drop_last() =~= fields.subrange(0, j));
        lemma_insert_err_prefix(fields, j + 1);
    } else {
        assert(fields.subrange(0, j) =~= fields);
    }
}

impl InsertQuery {
    /// An insert named `ident` with nothing read yet.
    pub fn new(ident: String) -> (r: InsertQuery)
        ensures
            r.ident@ == ident@,
            r.meta is None,
            r.statements@.len() == 0,
            r.unless_conflict_statement is None,
    {
        InsertQuery { ident, meta: None, statements: Vec::new(), unless_conflict_statement: None }
    }

    /// Records the arguments of the macro.
    pub fn with_meta(&mut self, meta: QueryMetaData)
        ensures
            final(self).meta == Some(meta),
            final(self).ident == old(self).ident,
            final(self).statements == old(self).statements,
            final(self).unless_conflict_statement == old(self).unless_conflict_statement,
    {
        self.meta = Some(meta);
    }

    /// The (field name, parameter label) pairs of the columns set from fields.
    pub fn get_param_labels(&self) -> (r: Vec<(String, String)>)
        ensures
            pair_views(r@) == insert_params(insert_views(self.statements@)),
    {
        let mut r: Vec<(String, String)> = Vec::new();
        let mut i: usize = 0;
        assert(insert_views(self.statements@).subrange(0, 0) =~= Seq::<InsertStatementV>::empty());
        while i < self.statements.len()
            invariant
                i <= self.statements.len(),
                pair_views(r@) == insert_params(insert_views(self.statements@).subrange(0, i as int)),
            decreases self.statements.len() - i,
        {
            assert(insert_views(self.statements@).subrange(0, i + 1).drop_last() =~= insert_views(self.statements@).subrange(0, i as int));
            assert(insert_views(self.statements@).subrange(0, i + 1).last() == self.statements@[i as int]@);
            let ghost before = pair_views(r@);
            if let Some(p) = self.statements[i].param_field() {
                r.push(p);
                assert(pair_views(r@) =~= before.push((r@.last().0@, r@.last().1@)));
            }
            i = i + 1;
        }
        assert(insert_views(self.statements@).subrange(0, self.statements.len() as int) =~= insert_views(self.statements@));
        r
    }

    /// The insert read from the fields of the struct named `ident`.
    pub fn parse(ident: String, fields: &Vec<FieldDecl>) -> (r: Result<InsertQuery, MacroError>)
        requires
            fields_wf(fields@),
        ensures
            match r {
                Ok(q) => insert_query_spec(fields@) == Ok::<InsertQueryV, Seq<char>>(q.spec_body()) && q.ident@ == ident@
                    && q.meta is None,
                Err(e) => insert_query_spec(fields@) == Err::<InsertQueryV, Seq<char>>(e.message@),
            },
    {
        let unless = match single_field_with(fields, UNLESS_CONFLICT) {
            Err(_) => return Err(MacroError::new(ONLY_ONE_UNLESS_CONFLICT)),
            Ok(u) => u,
        };
        let mut statements: Vec<InsertStatement> = Vec::new();
        let mut i: usize = 0;
        assert(fields@.subrange(0, 0) =~= Seq::<FieldDecl>::empty());
        assert(insert_views(statements@) =~= Seq::<InsertStatementV>::empty());
        while i < fields.len()
            invariant
                i <= fields.len(),
                fields_wf(fields@),
                fields_with_attr(fields@, UNLESS_CONFLICT@).len() <= 1,
                insert_stmts_spec(fields@.subrange(0, i as int)) == Ok::<Seq<InsertStatementV>, Seq<char>>(insert_views(statements@)),
            decreases fields.len() - i,
        {
            assert(fields@.subrange(0, i + 1).drop_last() =~= fields@.subrange(0, i as int));
            assert(fields@.subrange(0, i + 1).last() == fields@[i as int]);
            assert(field_wf(fields@[i as int]));
            if !attrs_have(&fields[i].attrs, UNLESS_CONFLICT) {
                match InsertStatement::try_from(&fields[i]) {
                    Err(e) => {
                        proof { lemma_insert_err_prefix(fields@, i + 1); }
                        return Err(e);
                    },
                    Ok(s) => {
                        let ghost before = insert_views(statements@);
                        statements.push(s);
                        assert(insert_views(statements@) =~= before.push(statements@.last()@));
                    },
                }
            }
            i = i + 1;
        }
        assert(fields@.subrange(0, fields.len() as int) =~= fields@);
        let ghost st = insert_views(statements@);
        let mut columns: Vec<String> = Vec::new();
        let mut k: usize = 0;
        assert(st.subrange(0, 0) =~= Seq::<InsertStatementV>::empty());
        while k < statements.len()
            invariant
                k <= statements.len(),
                st == insert_views(statements@),
                views(columns@) == insert_columns(st.subrange(0, k as int)),
            decreases statements.len() - k,
        {
            assert(st.subrange(0, k + 1).drop_last() =~= st.subrange(0, k as int));
            assert(st.subrange(0, k + 1).last() == statements@[k as int]@);
            let ghost before = views(columns@);
            if let Some(c) = statements[k].column_name() {
                columns.push(c);
                assert(views(columns@) =~= before.push(columns@.last()@));
            }
            k = k + 1;
        }
        assert(st.subrange(0, statements.len() as int) =~= st);
        let ucs = match unless {
            Some(j) => {
                assert(field_wf(fields@[j as int]));
                match UnlessConflictElseStatement::try_from(&fields[j], &columns) {
                    Ok(u) => Some(u),
                    Err(e) => return Err(e),
                }
            },
            None => None,
        };
        let query = InsertQuery { ident, meta: None, statements, unless_conflict_statement: ucs };
        let labels = query.get_param_labels();
        assert(labels_of(labels@) =~= second_of(insert_params(st)));
        match check_duplicate_parameter_labels(&labels) {
            Err(e) => Err(e),
            Ok(_) => Ok(query),
        }
    }

    /// The start of the EdgeQL of the insert; the macro's arguments must have
    /// been recorded.
    pub fn init_edgeql(&self) -> (r: Result<String, MacroError>)
        ensures
            match self.meta {
                None => r matches Err(e) && e.message@ == EXPECT_META@,
                Some(m) => r matches Ok(s) && s@ == insert_init_spec(
                    table_name_spec(m.meta.module@, m.meta.table@),
                    m.result is Some,
                ),
            },
    {
        match &self.meta {
            None => Err(MacroError::new(EXPECT_META)),
            Some(m) => {
                let table = m.table_name();
                let mut s = if m.has_result() {
                    let mut t = String::from_str(SELECT);
                    t.append(" ( ");
                    t.append(INSERT);
                    t
                } else {
                    String::from_str(INSERT)
                };
                s.append(" ");
                s.append(table.as_str());
                s.append(" {");
                Ok(s)
            },
        }
    }

    /// The fields of the struct of the insert, with the way each is passed.
    pub fn impl_fields(&self) -> (r: Vec<ImplBuilderField>)
        ensures
            impl_fields_views(r@) == insert_impl_fields(self.spec_body()),
    {
        let mut r: Vec<ImplBuilderField> = Vec::new();
        let ghost base = self.spec_body().statements.map_values(|s: InsertStatementV| match s {
            InsertStatementV::Simple(f) => ImplBuilderFieldV { field: f.field, field_cat: FieldCatV::Simple(f.tag.parameter_label) },
            InsertStatementV::Nested(n) => ImplBuilderFieldV { field: n.field, field_cat: FieldCatV::Nested },
        });
        let mut i: usize = 0;
        while i < self.statements.len()
            invariant
                i <= self.statements.len(),
                base == self.spec_body().statements.map_values(|s: InsertStatementV| match s {
                    InsertStatementV::Simple(f) => ImplBuilderFieldV { field: f.field, field_cat: FieldCatV::Simple(f.tag.parameter_label) },
                    InsertStatementV::Nested(n) => ImplBuilderFieldV { field: n.field, field_cat: FieldCatV::Nested },
                }),
                impl_fields_views(r@) == base.subrange(0, i as int),
            decreases self.statements.len() - i,
        {
            let f = match &self.statements[i] {
                InsertStatement::SimpleField(s) => ImplBuilderField {
                    field: s.field.copy(),
                    field_cat: FieldCat::Simple(s.tag.parameter_label.clone()),
                },
                InsertStatement::NestedQuery(n) => ImplBuilderField { field: n.field.copy(), field_cat: FieldCat::Nested },
            };
            let ghost before = impl_fields_views(r@);
            r.push(f);
            assert(impl_fields_views(r@) =~= before.push(f@));
            assert(impl_fields_views(r@) =~= base.subrange(0, i + 1));
            i = i + 1;
        }
        assert(base.subrange(0, self.statements.len() as int) =~= base);
        if let Some(u) = &self.unless_conflict_statement {
            let ghost before = impl_fields_views(r@);
            let f = ImplBuilderField { field: u.field.copy(), field_cat: FieldCat::Conflict };
            r.push(f);
            assert(impl_fields_views(r@) =~= before.push(f@));
        }
        r
    }

    /// The pieces of the EdgeQL of the insert, in order: its start, the
    /// assignment of each element, `}`, the conflict clause if any, and, where a
    /// result is named, ` )` and the result's shape.
    pub fn edgeql_pieces(&self) -> (r: Result<Vec<QueryPiece>, MacroError>)
        ensures
            match self.meta {
                None => r matches Err(e) && e.message@ == EXPECT_META@,
                Some(m) => r matches Ok(v) && pieces_views(v@) == insert_pieces_spec(
                    insert_init_spec(table_name_spec(m.meta.module@, m.meta.table@), m.result is Some),
                    self.statements@.len(),
                    self.unless_conflict_statement is Some,
                    m.result is Some,
                ),
            },
    {
        let init = match self.init_edgeql() {
            Ok(s) => s,
            Err(e) => return Err(e),
        };
        let has_result = match &self.meta {
            Some(m) => m.has_result(),
            None => false,
        };
        let mut v: Vec<QueryPiece> = Vec::new();
        v.push(QueryPiece::Text(init));
        let ghost head = pieces_views(v@);
        let mut i: usize = 0;
        assert(pieces_views(v@) =~= head + statement_pieces(0));
        while i < self.statements.len()
            invariant
                i <= self.statements.len(),
                pieces_views(v@) == head + statement_pieces(i as nat),
            decreases self.statements.len() - i,
        {
            let ghost before = pieces_views(v@);
            v.push(QueryPiece::Statement(i));
            assert(pieces_views(v@) =~= before.push(QueryPieceV::Statement(i)));
            assert(statement_pieces((i + 1) as nat) =~= statement_pieces(i as nat).push(QueryPieceV::Statement(i)));
            i = i + 1;
        }
        proof {
            reveal_strlit("}");
            reveal_strlit(" )");
        }
        v.push(QueryPiece::Text(String::from_str("}")));
        if self.unless_conflict_statement.is_some() {
            v.push(QueryPiece::Conflict);
        }
        if has_result {
            v.push(QueryPiece::Text(String::from_str(" )")));
            v.push(QueryPiece::Shape);
        }
        proof {
            let n = self.statements@.len();
            let c = self.unless_conflict_statement is Some;
            let base = head + statement_pieces(n) + seq![QueryPieceV::Text("}"@)];
            let with_c = base + (if c { seq![QueryPieceV::Conflict] } else { Seq::empty() });
            assert(pieces_views(v@) =~= with_c + (if has_result { seq![QueryPieceV::Text(" )"@), QueryPieceV::Shape] } else { Seq::empty() }));
        }
        Ok(v)
    }
}

} // verus!
