use vstd::prelude::*;
use vstd::string::*;

use crate::attributes_utils::{attrs_have, has_any_attr, has_any_attribute, has_attr, has_none_attribute, names2};
use crate::constants::{
    EDGEQL, EITHER_ONE_SETS_OR_SET_TAG_EXPECTED, FIELD, INVALID_UPDATE_TAG, NESTED_QUERY,
    ONLY_ONE_SETS_TAG_EXPECTED, SELECT, SET, SETS,
};
use crate::impl_builder::{FieldCat, FieldCatV, ImplBuilderField, ImplBuilderFieldV, impl_fields_views};
use crate::statements::nested_query::{NestedQueryField, NestedQueryFieldV, NestedQueryParentType, nested_query_spec};
use crate::tags::builders::fields_wf;
use crate::error::MacroError;
use crate::model::FieldDecl;
use crate::queries::{QueryField, QueryFieldV, query_field_spec};
use crate::tags::builders::{field_builder_spec, field_wf, read_field_tag, read_set_tag, set_builder_spec};
use crate::tags::field_tag::{FieldTag, FieldTagV, field_tag_spec, nested_field_tag_spec};
use crate::tags::set_tag::{SetOption, SetTag, set_tag_spec};
use crate::text::views;

verus! {

/// A column that an update sets from a field.
pub struct UpdateSet {
    pub field: QueryField,
    pub field_tag: FieldTag,
    pub set_tag: SetTag,
}

/// The mathematical form of an `UpdateSet`.
pub struct UpdateSetV {
    pub field: QueryFieldV,
    pub field_tag: FieldTagV,
    pub option: SetOption,
}

impl View for UpdateSet {
    type V = UpdateSetV;

    open spec fn view(&self) -> UpdateSetV {
        UpdateSetV { field: self.field@, field_tag: self.field_tag@, option: self.set_tag.option }
    }
}

/// The EdgeQL that sets the column: from the field's parameter, cast to its
/// scalar, or from the nested query (left as the `$edgeql$` mark); each ends with `, `.
pub open spec fn set_statement_spec(s: UpdateSetV, nested: bool) -> Seq<char> {
    let col = s.field_tag.column_name;
    let value = if nested {
        EDGEQL@
    } else {
        SELECT@ + " "@ + s.field_tag.scalar_type + "$"@ + s.field_tag.parameter_label
    };
    match s.option {
        SetOption::Assign => col + " := ("@ + value + "), "@,
        SetOption::Concat => col + " := ."@ + col + " ++ ("@ + value + "), "@,
        SetOption::Push => col + " += ("@ + value + "), "@,
    }
}

/// The tags that a set field may carry.
pub open spec fn set_tags(nested: bool) -> Seq<Seq<char>> {
    if nested {
        seq![FIELD@, SET@, NESTED_QUERY@]
    } else {
        seq![FIELD@, SET@]
    }
}

/// The set read from `field`, or the first error; the field of a nested query
/// gets no scalar cast.
pub open spec fn update_set_spec(field: FieldDecl, nested: bool) -> Result<UpdateSetV, Seq<char>> {
    match field_builder_spec(field.attrs@) {
        Err(m) => Err(m),
        Ok(fb) => match set_builder_spec(field.attrs@) {
            Err(m) => Err(m),
            Ok(sb) => match query_field_spec(field, set_tags(nested)) {
                Err(m) => Err(m),
                Ok(qf) => match (if nested { nested_field_tag_spec(fb, field.name()) } else { field_tag_spec(fb, field.name(), field.ty@) }) {
                    Err(m) => Err(m),
                    Ok(ft) => match set_tag_spec(sb, field.ty@) {
                        Err(m) => Err(m),
                        Ok(o) => Ok(UpdateSetV { field: qf, field_tag: ft, option: o }),
                    },
                },
            },
        },
    }
}

impl UpdateSet {
    /// The EdgeQL that sets the column.
    pub fn build_statement(&self, nested: bool) -> (r: String)
        ensures
            r@ == set_statement_spec(self@, nested),
    {
        let col = self.field_tag.column_name.as_str();
        let value = if nested {
            String::from_str(EDGEQL)
        } else {
            let mut v = String::from_str(SELECT);
            v.append(" ");
            v.append(self.field_tag.scalar_type.as_str());
            v.append("$");
            v.append(self.field_tag.parameter_label.as_str());
            v
        };
        let mut s = String::from_str(col);
        match self.set_tag.option {
            SetOption::Assign => {
                s.append(" := (");
            },
            SetOption::Concat => {
                s.append(" := .");
                s.append(col);
                s.append(" ++ (");
            },
            SetOption::Push => {
                s.append(" += (");
            },
        }
        s.append(value.as_str());
        s.append("), ");
        s
    }

    /// A copy of the set.
    pub fn copy(&self) -> (r: UpdateSet)
        ensures
            r@ == self@,
    {
        UpdateSet { field: self.field.copy(), field_tag: self.field_tag.copy(), set_tag: SetTag { option: self.set_tag.option } }
    }

    /// The set read from `field`; `nested` when the field holds a nested query.
    pub fn try_from(field: &FieldDecl, nested: bool) -> (r: Result<UpdateSet, MacroError>)
        requires
            field_wf(*field),
        ensures
            match r {
                Ok(s) => update_set_spec(*field, nested) == Ok::<UpdateSetV, Seq<char>>(s@),
                Err(e) => update_set_spec(*field, nested) == Err::<UpdateSetV, Seq<char>>(e.message@),
            },
    {
        let fb = match read_field_tag(&field.attrs) {
            Ok(b) => b,
            Err(e) => return Err(e),
        };
        let sb = match read_set_tag(&field.attrs) {
            Ok(b) => b,
            Err(e) => return Err(e),
        };
        let tags = if nested {
            let mut t = names2(FIELD, SET);
            let ghost before = views(t@);
            t.push(String::from_str(NESTED_QUERY));
            assert(views(t@) =~= before.push(NESTED_QUERY@));
            t
        } else {
            let t = names2(FIELD, SET);
            assert(views(t@) =~= set_tags(nested));
            t
        };
        assert(views(tags@) == set_tags(nested));
        let qf = match QueryField::try_from(field, &tags) {
            Ok(q) => q,
            Err(e) => return Err(e),
        };
        let ft = if nested {
            fb.build_nested(field)
        } else {
            fb.build(field)
        };
        let ft = match ft {
            Ok(t) => t,
            Err(e) => return Err(e),
        };
        let st = match sb.build(field) {
            Ok(t) => t,
            Err(e) => return Err(e),
        };
        Ok(UpdateSet { field: qf, field_tag: ft, set_tag: st })
    }
}


/// A column that an update sets: from a field, or from a nested query.
pub enum SetStatement {
    SimpleField(UpdateSet),
    NestedQuery(NestedQueryField),
}

/// The mathematical form of a `SetStatement`.
pub enum SetStatementV {
    Simple(UpdateSetV),
    Nested(NestedQueryFieldV),
}

impl View for SetStatement {
    type V = SetStatementV;

    open spec fn view(&self) -> SetStatementV {
        match self {
            SetStatement::SimpleField(s) => SetStatementV::Simple(s@),
            SetStatement::NestedQuery(n) => SetStatementV::Nested(n@),
        }
    }
}

/// The set read from `field`: a nested query, a set from the field (which may
/// carry `set`, `field` or nothing), or the error for any other attribute.
pub open spec fn set_stmt_spec(field: FieldDecl) -> Result<SetStatementV, Seq<char>> {
    if has_attr(field.attrs@, NESTED_QUERY@) {
        match nested_query_spec(field, NestedQueryParentType::SetValue) {
            Err(m) => Err(m),
            Ok(n) => Ok(SetStatementV::Nested(n)),
        }
    } else if has_any_attr(field.attrs@, seq![SET@, FIELD@]) || field.attrs@.len() == 0 {
        match update_set_spec(field, false) {
            Err(m) => Err(m),
            Ok(u) => Ok(SetStatementV::Simple(u)),
        }
    } else {
        Err(INVALID_UPDATE_TAG@)
    }
}

impl SetStatement {
    /// The field name and parameter label of a set from a field.
    pub fn param_field(&self) -> (r: Option<(String, String)>)
        ensures
            match self@ {
                SetStatementV::Simple(u) => r matches Some(p) && p.0@ == u.field.ident && p.1@ == u.field_tag.parameter_label,
                SetStatementV::Nested(_) => r is None,
            },
    {
        match self {
            SetStatement::SimpleField(f) => Some((f.field.ident.clone(), f.field_tag.parameter_label.clone())),
            SetStatement::NestedQuery(_) => None,
        }
    }

    /// The set read from `field`.
    pub fn try_from(field: &FieldDecl) -> (r: Result<SetStatement, MacroError>)
        requires
            field_wf(*field),
        ensures
            match r {
                Ok(s) => set_stmt_spec(*field) == Ok::<SetStatementV, Seq<char>>(s@),
                Err(e) => set_stmt_spec(*field) == Err::<SetStatementV, Seq<char>>(e.message@),
            },
    {
        if attrs_have(&field.attrs, NESTED_QUERY) {
            match NestedQueryField::try_from(field, NestedQueryParentType::SetValue) {
                Ok(n) => Ok(SetStatement::NestedQuery(n)),
                Err(e) => Err(e),
            }
        } else if has_any_attribute(field, &names2(SET, FIELD)) || field.attrs.len() == 0 {
            match UpdateSet::try_from(field, false) {
                Ok(u) => Ok(SetStatement::SimpleField(u)),
                Err(e) => Err(e),
            }
        } else {
            Err(MacroError::new(INVALID_UPDATE_TAG))
        }
    }

    /// The EdgeQL that sets the column, ending with `, `; a nested query is left
    /// as the `$edgeql$` mark.
    pub fn build_statement(&self) -> (r: String)
        ensures
            r@ == match self@ {
                SetStatementV::Simple(u) => set_statement_spec(u, false),
                SetStatementV::Nested(n) => crate::statements::nested_query::nested_statement_spec(n),
            },
    {
        match self {
            SetStatement::SimpleField(u) => u.build_statement(false),
            SetStatement::NestedQuery(n) => match n.build_statement() {
                Ok(s) => s,
                Err(_) => String::new(),
            },
        }
    }
}

/// The field of an update that holds all its sets, as one value.
pub struct UpdateSets {
    pub field: QueryField,
}

impl UpdateSets {
    /// The sets field read from `field`; it may carry no attribute but `sets`.
    pub fn try_from(field: &FieldDecl) -> (r: Result<UpdateSets, MacroError>)
        requires
            field_wf(*field),
        ensures
            match r {
                Ok(f) => query_field_spec(*field, seq![SETS@]) == Ok::<QueryFieldV, Seq<char>>(f.field@),
                Err(e) => query_field_spec(*field, seq![SETS@]) == Err::<QueryFieldV, Seq<char>>(e.message@),
            },
    {
        let mut tags: Vec<String> = Vec::new();
        tags.push(String::from_str(SETS));
        assert(views(tags@) =~= seq![SETS@]);
        match QueryField::try_from(field, &tags) {
            Ok(q) => Ok(UpdateSets { field: q }),
            Err(e) => Err(e),
        }
    }
}

/// What an update sets: nothing, the sets held by one field, or one column per field.
pub enum UpdateSetStatement {
    NoSet,
    OneSets(UpdateSets),
    ManySet(Vec<SetStatement>),
}

/// The mathematical form of an `UpdateSetStatement`.
pub enum UpdateSetStatementV {
    NoSet,
    OneSets(QueryFieldV),
    ManySet(Seq<SetStatementV>),
}

/// The views of a list of sets.
pub open spec fn set_views(v: Seq<SetStatement>) -> Seq<SetStatementV> {
    v.map_values(|s: SetStatement| s@)
}

impl View for UpdateSetStatement {
    type V = UpdateSetStatementV;

    open spec fn view(&self) -> UpdateSetStatementV {
        match self {
            UpdateSetStatement::NoSet => UpdateSetStatementV::NoSet,
            UpdateSetStatement::OneSets(f) => UpdateSetStatementV::OneSets(f.field@),
            UpdateSetStatement::ManySet(v) => UpdateSetStatementV::ManySet(set_views(v@)),
        }
    }
}

/// The (field name, parameter label) pairs of the sets from fields, in order.
pub open spec fn set_labels(v: Seq<SetStatementV>) -> Seq<(Seq<char>, Seq<char>)>
    decreases v.len(),
{
    if v.len() == 0 {
        Seq::empty()
    } else {
        match v.last() {
            SetStatementV::Simple(u) => set_labels(v.drop_last()).push((u.field.ident, u.field_tag.parameter_label)),
            SetStatementV::Nested(_) => set_labels(v.drop_last()),
        }
    }
}

/// The fields of the struct of an update, by the sets they hold.
pub open spec fn set_impl_fields(s: UpdateSetStatementV) -> Seq<ImplBuilderFieldV> {
    match s {
        UpdateSetStatementV::NoSet => Seq::empty(),
        UpdateSetStatementV::OneSets(f) => seq![ImplBuilderFieldV { field: f, field_cat: FieldCatV::Nested }],
        UpdateSetStatementV::ManySet(v) => v.map_values(|x: SetStatementV| match x {
            SetStatementV::Simple(u) => ImplBuilderFieldV { field: u.field, field_cat: FieldCatV::Simple(u.field_tag.parameter_label) },
            SetStatementV::Nested(n) => ImplBuilderFieldV { field: n.field, field_cat: FieldCatV::Nested },
        }),
    }
}

impl UpdateSetStatement {
    /// The (field name, parameter label) pairs of the sets from fields, in order.
    pub fn get_parameter_labels(&self) -> (r: Vec<(String, String)>)
        ensures
            crate::statements::filters::pair_views(r@) == match self@ {
                UpdateSetStatementV::ManySet(v) => set_labels(v),
                _ => Seq::empty(),
            },
    {
        let mut r: Vec<(String, String)> = Vec::new();
        if let UpdateSetStatement::ManySet(sets) = self {
            let mut i: usize = 0;
            assert(set_views(sets@).subrange(0, 0) =~= Seq::<SetStatementV>::empty());
            while i < sets.len()
                invariant
                    i <= sets.len(),
                    crate::statements::filters::pair_views(r@) == set_labels(set_views(sets@).subrange(0, i as int)),
                decreases sets.len() - i,
            {
                assert(set_views(sets@).subrange(0, i + 1).drop_last() =~= set_views(sets@).subrange(0, i as int));
                assert(set_views(sets@).subrange(0, i + 1).last() == sets@[i as int]@);
                let ghost before = crate::statements::filters::pair_views(r@);
                if let Some(p) = sets[i].param_field() {
                    r.push(p);
                    assert(crate::statements::filters::pair_views(r@) =~= before.push((r@.last().0@, r@.last().1@)));
                }
                i = i + 1;
            }
            assert(set_views(sets@).subrange(0, sets.len() as int) =~= set_views(sets@));
        } else {
            assert(crate::statements::filters::pair_views(r@) =~= Seq::<(Seq<char>, Seq<char>)>::empty());
        }
        r
    }

    /// The fields of the struct of the update, by the sets they hold.
    pub fn to_impl_builder_field(&self) -> (r: Vec<ImplBuilderField>)
        ensures
            impl_fields_views(r@) == set_impl_fields(self@),
    {
        let mut r: Vec<ImplBuilderField> = Vec::new();
        match self {
            UpdateSetStatement::NoSet => {
                assert(impl_fields_views(r@) =~= set_impl_fields(self@));
            },
            UpdateSetStatement::OneSets(s) => {
                r.push(ImplBuilderField { field: s.field.copy(), field_cat: FieldCat::Nested });
                assert(impl_fields_views(r@) =~= set_impl_fields(self@));
            },
            UpdateSetStatement::ManySet(sets) => {
                let mut i: usize = 0;
                while i < sets.len()
                    invariant
                        i <= sets.len(),
                        *self == UpdateSetStatement::ManySet(*sets),
                        impl_fields_views(r@) == set_impl_fields(self@).subrange(0, i as int),
                    decreases sets.len() - i,
                {
                    let f = match &sets[i] {
                        SetStatement::SimpleField(u) => ImplBuilderField {
                            field: u.field.copy(),
                            field_cat: FieldCat::Simple(u.field_tag.parameter_label.clone()),
                        },
                        SetStatement::NestedQuery(n) => ImplBuilderField { field: n.field.copy(), field_cat: FieldCat::Nested },
                    };
                    let ghost before = impl_fields_views(r@);
                    r.push(f);
                    assert(impl_fields_views(r@) =~= before.push(f@));
                    assert(impl_fields_views(r@) =~= set_impl_fields(self@).subrange(0, i + 1));
                    i = i + 1;
                }
                assert(set_impl_fields(self@).subrange(0, sets.len() as int) =~= set_impl_fields(self@));
            },
        }
        r
    }
}

/// The sets after one more field. A field with an excluded attribute or with
/// `sets` is passed over; one with `set`, `nested_query`, `field` or nothing gives
/// a set, any other `error_msg`. `one_sets` when a `sets` field was found.
pub open spec fn set_field_step(
    acc: Seq<SetStatementV>,
    f: FieldDecl,
    exclude: Seq<Seq<char>>,
    error_msg: Seq<char>,
    one_sets: bool,
) -> Result<Seq<SetStatementV>, Seq<char>> {
    let attrs = f.attrs@;
    if !has_any_attr(attrs, exclude) && !has_attr(attrs, SETS@) {
        if has_any_attr(attrs, seq![SET@, NESTED_QUERY@, FIELD@]) || attrs.len() == 0 {
            if one_sets {
                Err(EITHER_ONE_SETS_OR_SET_TAG_EXPECTED@)
            } else {
                match set_stmt_spec(f) {
                    Err(m) => Err(m),
                    Ok(s) => Ok(acc.push(s)),
                }
            }
        } else {
            Err(error_msg)
        }
    } else {
        Ok(acc)
    }
}

/// The sets read from the fields, in their order, or the first error.
pub open spec fn query_sets_spec(fields: Seq<FieldDecl>, exclude: Seq<Seq<char>>, error_msg: Seq<char>, one_sets: bool) -> Result<Seq<SetStatementV>, Seq<char>>
    decreases fields.len(),
{
    if fields.len() == 0 {
        Ok(Seq::empty())
    } else {
        match query_sets_spec(fields.drop_last(), exclude, error_msg, one_sets) {
            Err(m) => Err(m),
            Ok(acc) => set_field_step(acc, fields.last(), exclude, error_msg, one_sets),
        }
    }
}

/// Once a prefix of the fields gives an error, all of them give it.
proof fn lemma_sets_err_prefix(fields: Seq<FieldDecl>, exclude: Seq<Seq<char>>, error_msg: Seq<char>, one_sets: bool, j: int)
    requires
        0 <= j <= fields.len(),
        query_sets_spec(fields.subrange(0, j), exclude, error_msg, one_sets) is Err,
    ensures
        query_sets_spec(fields, exclude, error_msg, one_sets) == query_sets_spec(fields.subrange(0, j), exclude, error_msg, one_sets),
    decreases fields.len() - j,
{
    if j < fields.len() {
        assert(fields.subrange(0, j + 1).drop_last() =~= fields.subrange(0, j));
        lemma_sets_err_prefix(fields, exclude, error_msg, one_sets, j + 1);
    } else {
        assert(fields.subrange(0, j) =~= fields);
    }
}

/// The fields of the list that carry `sets`, in their order.
pub open spec fn sets_fields(fields: Seq<FieldDecl>) -> Seq<FieldDecl>
    decreases fields.len(),
{
    if fields.len() == 0 {
        Seq::empty()
    } else if has_attr(fields.last().attrs@, SETS@) {
        sets_fields(fields.drop_last()).push(fields.last())
    } else {
        sets_fields(fields.drop_last())
    }
}

/// The list of sets fields only grows as fields are added.
proof fn lemma_sets_fields_grow(fields: Seq<FieldDecl>, i: int)
    requires
        0 <= i <= fields.len(),
    ensures
        sets_fields(fields.subrange(0, i)).len() <= sets_fields(fields).len(),
        forall|j: int| 0 <= j < sets_fields(fields.subrange(0, i)).len()
            ==> sets_fields(fields)[j] == #[trigger] sets_fields(fields.subrange(0, i))[j],
    decreases fields.len() - i,
{
    if i < fields.len() {
        let s1 = fields.subrange(0, i + 1);
        assert(s1.drop_last() =~= fields.subrange(0, i));
        lemma_sets_fields_grow(fields, i + 1);
        assert forall|j: int| 0 <= j < sets_fields(fields.subrange(0, i)).len()
            implies sets_fields(fields)[j] == #[trigger] sets_fields(fields.subrange(0, i))[j] by {
            assert(sets_fields(s1)[j] == sets_fields(fields.subrange(0, i))[j]);
        }
    } else {
        assert(fields.subrange(0, i) =~= fields);
    }
}

/// What the fields of an update set: unless the fields are those of a `sets`
/// struct, one `sets` field may hold them all (two are refused); the set fields,
/// if any, make the statement, and may not stand beside a `sets` field.
pub open spec fn sets_from_fields_spec(fields: Seq<FieldDecl>, exclude: Seq<Seq<char>>, from_sets: bool, error_msg: Seq<char>) -> Result<UpdateSetStatementV, Seq<char>> {
    let sf = sets_fields(fields);
    let pre: Result<UpdateSetStatementV, Seq<char>> = if from_sets || sf.len() == 0 {
        Ok(UpdateSetStatementV::NoSet)
    } else if sf.len() == 1 {
        match query_field_spec(sf[0], seq![SETS@]) {
            Ok(q) => Ok(UpdateSetStatementV::OneSets(q)),
            Err(m) => Err(m),
        }
    } else {
        Err(ONLY_ONE_SETS_TAG_EXPECTED@)
    };
    match pre {
        Err(m) => Err(m),
        Ok(stmt) => match query_sets_spec(fields, exclude, error_msg, stmt is OneSets) {
            Err(m) => Err(m),
            Ok(v) => Ok(if v.len() > 0 { UpdateSetStatementV::ManySet(v) } else { stmt }),
        },
    }
}

/// The set fields of an update, in their order; see `set_field_step`.
pub fn get_query_sets(fields: &Vec<FieldDecl>, exclude_tags: &Vec<String>, error_msg: &str, one_sets: bool) -> (r: Result<Vec<SetStatement>, MacroError>)
    requires
        fields_wf(fields@),
    ensures
        match r {
            Ok(v) => query_sets_spec(fields@, views(exclude_tags@), error_msg@, one_sets) == Ok::<Seq<SetStatementV>, Seq<char>>(set_views(v@)),
            Err(e) => query_sets_spec(fields@, views(exclude_tags@), error_msg@, one_sets) == Err::<Seq<SetStatementV>, Seq<char>>(e.message@),
        },
{
    let ghost ex = views(exclude_tags@);
    let mut sets: Vec<SetStatement> = Vec::new();
    let mut i: usize = 0;
    assert(fields@.subrange(0, 0) =~= Seq::<FieldDecl>::empty());
    assert(set_views(sets@) =~= Seq::<SetStatementV>::empty());
    let mut kinds: Vec<String> = names2(SET, NESTED_QUERY);
    let ghost k0 = views(kinds@);
    kinds.push(String::from_str(FIELD));
    assert(views(kinds@) =~= seq![SET@, NESTED_QUERY@, FIELD@]) by {
        assert(views(kinds@) =~= k0.push(FIELD@));
    }
    while i < fields.len()
        invariant
            i <= fields.len(),
            fields_wf(fields@),
            ex == views(exclude_tags@),
            views(kinds@) == seq![SET@, NESTED_QUERY@, FIELD@],
            query_sets_spec(fields@.subrange(0, i as int), ex, error_msg@, one_sets) == Ok::<Seq<SetStatementV>, Seq<char>>(set_views(sets@)),
        decreases fields.len() - i,
    {
        let field = &fields[i];
        assert(field_wf(fields@[i as int]));
        assert(fields@.subrange(0, i + 1).drop_last() =~= fields@.subrange(0, i as int));
        assert(fields@.subrange(0, i + 1).last() == fields@[i as int]);
        let ghost acc = set_views(sets@);
        if has_none_attribute(field, exclude_tags) && !attrs_have(&field.attrs, SETS) {
            if has_any_attribute(field, &kinds) || field.attrs.len() == 0 {
                if one_sets {
                    proof { lemma_sets_err_prefix(fields@, ex, error_msg@, one_sets, i + 1); }
                    return Err(MacroError::new(EITHER_ONE_SETS_OR_SET_TAG_EXPECTED));
                }
                match SetStatement::try_from(field) {
                    Err(e) => {
                        proof { lemma_sets_err_prefix(fields@, ex, error_msg@, one_sets, i + 1); }
                        return Err(e);
                    },
                    Ok(s) => {
                        sets.push(s);
                        assert(set_views(sets@) =~= acc.push(sets@.last()@));
                    },
                }
            } else {
                proof { lemma_sets_err_prefix(fields@, ex, error_msg@, one_sets, i + 1); }
                return Err(MacroError::new(error_msg));
            }
        }
        i = i + 1;
    }
    assert(fields@.subrange(0, fields.len() as int) =~= fields@);
    Ok(sets)
}

/// What the fields of an update set; see `sets_from_fields_spec`.
pub fn sets_from_fields(fields: &Vec<FieldDecl>, exclude_tags: &Vec<String>, from_sets: bool, error_msg: &str) -> (r: Result<UpdateSetStatement, MacroError>)
    requires
        fields_wf(fields@),
    ensures
        match r {
            Ok(s) => sets_from_fields_spec(fields@, views(exclude_tags@), from_sets, error_msg@) == Ok::<UpdateSetStatementV, Seq<char>>(s@),
            Err(e) => sets_from_fields_spec(fields@, views(exclude_tags@), from_sets, error_msg@) == Err::<UpdateSetStatementV, Seq<char>>(e.message@),
        },
{
    let ghost ex = views(exclude_tags@);
    let mut stmt = UpdateSetStatement::NoSet;
    if !from_sets {
        let mut first: Option<usize> = None;
        let mut i: usize = 0;
        assert(fields@.subrange(0, 0) =~= Seq::<FieldDecl>::empty());
        while i < fields.len()
            invariant
                i <= fields.len(),
                !from_sets,
                match first {
                    None => sets_fields(fields@.subrange(0, i as int)).len() == 0,
                    Some(j) => sets_fields(fields@.subrange(0, i as int)).len() == 1 && j < i
                        && sets_fields(fields@.subrange(0, i as int))[0] == fields@[j as int],
                },
            decreases fields.len() - i,
        {
            assert(fields@.subrange(0, i + 1).drop_last() =~= fields@.subrange(0, i as int));
            assert(fields@.subrange(0, i + 1).last() == fields@[i as int]);
            if attrs_have(&fields[i].attrs, SETS) {
                if first.is_some() {
                    proof {
                        assert(sets_fields(fields@.subrange(0, i + 1)).len() == 2);
                        lemma_sets_fields_grow(fields@, i + 1);
                        assert(sets_from_fields_spec(fields@, ex, from_sets, error_msg@)
                            == Err::<UpdateSetStatementV, Seq<char>>(ONLY_ONE_SETS_TAG_EXPECTED@));
                    }
                    return Err(MacroError::new(ONLY_ONE_SETS_TAG_EXPECTED));
                }
                first = Some(i);
            }
            i = i + 1;
        }
        assert(fields@.subrange(0, fields.len() as int) =~= fields@);
        if let Some(j) = first {
            assert(field_wf(fields@[j as int]));
            match UpdateSets::try_from(&fields[j]) {
                Ok(s) => {
                    stmt = UpdateSetStatement::OneSets(s);
                },
                Err(e) => return Err(e),
            }
        }
    }
    let one_sets = match stmt {
        UpdateSetStatement::OneSets(_) => true,
        _ => false,
    };
    let sets = match get_query_sets(fields, exclude_tags, error_msg, one_sets) {
        Ok(v) => v,
        Err(e) => return Err(e),
    };
    if sets.len() > 0 {
        stmt = UpdateSetStatement::ManySet(sets);
    }
    Ok(stmt)
}

} // verus!
