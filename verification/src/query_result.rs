use vstd::prelude::*;
use vstd::string::*;

use crate::attributes_utils::{attrs_have, has_attr};
use crate::constants::{BACKLINK, FIELD, ID, INVALID_RESULT_FIELD_TAG, LIMIT_1, SCALAR_TYPE, VEC};
use crate::error::MacroError;
use crate::model::FieldDecl;
use crate::queries::{QueryField, QueryFieldV, query_field_spec};
use crate::tags::backlink_field_tag::{BackLinkFieldTag, backlink_spec, backlink_statement};
use crate::tags::builders::{
    backlink_builder_spec, field_wf, fields_wf, read_backlink_tag, read_result_field_tag,
    result_field_builder_spec,
};
use crate::tags::result_field_tag::{ResultFieldTag, empty_field_message, result_field_statement};
use crate::text::{
    ends_with_char, ov, replace_all, replace_str, starts_with_char, str_eq, str_ends_with_char,
    str_is_empty, str_starts_with_char, trim, trimmed, views,
};
use crate::type_utils::{get_type, get_type_name, inner_type, name_of_type, is_type_name, type_is_named};

verus! {

/// What the attribute of a result field says: nothing, `#[field(...)]`, or
/// `#[back_link(...)]`.
pub enum ResultTags {
    NoTag,
    FieldTag(ResultFieldTag),
    BackLink(BackLinkFieldTag),
}

/// The mathematical form of a `ResultFieldTag`.
pub struct ResultFieldTagV {
    pub column_name: Option<Seq<char>>,
    pub wrapper_fn: Option<Seq<char>>,
    pub default_value: Option<Seq<char>>,
    pub link_property: bool,
}

/// The mathematical form of a `BackLinkFieldTag`.
pub struct BackLinkV {
    pub module: Seq<char>,
    pub source_table: Seq<char>,
    pub target_table: Seq<char>,
    pub target_column: Seq<char>,
    pub result: Option<Seq<char>>,
}

/// The mathematical form of a `ResultTags`.
pub enum ResultTagsV {
    NoTag,
    FieldTag(ResultFieldTagV),
    BackLink(BackLinkV),
}

impl View for ResultTags {
    type V = ResultTagsV;

    open spec fn view(&self) -> ResultTagsV {
        match self {
            ResultTags::NoTag => ResultTagsV::NoTag,
            ResultTags::FieldTag(t) => ResultTagsV::FieldTag(
                ResultFieldTagV {
                    column_name: ov(t.column_name),
                    wrapper_fn: ov(t.wrapper_fn),
                    default_value: ov(t.default_value),
                    link_property: t.link_property,
                },
            ),
            ResultTags::BackLink(t) => ResultTagsV::BackLink(
                BackLinkV {
                    module: t.module@,
                    source_table: t.source_table@,
                    target_table: t.target_table@,
                    target_column: t.target_column@,
                    result: ov(t.result),
                },
            ),
        }
    }
}

/// A field of a query result.
pub struct ResultField {
    pub field: QueryField,
    pub tag: ResultTags,
}

/// The mathematical form of a `ResultField`.
pub struct ResultFieldV {
    pub field: QueryFieldV,
    pub tag: ResultTagsV,
}

impl View for ResultField {
    type V = ResultFieldV;

    open spec fn view(&self) -> ResultFieldV {
        ResultFieldV { field: self.field@, tag: self.tag@ }
    }
}

/// The result field read from `field`: one with no attribute, with `#[field]`
/// (which must set something), or with `#[back_link]`; any other attribute is refused.
pub open spec fn result_field_spec(field: FieldDecl) -> Result<ResultFieldV, Seq<char>> {
    let attrs = field.attrs@;
    if attrs.len() == 0 {
        match query_field_spec(field, Seq::empty()) {
            Err(m) => Err(m),
            Ok(q) => Ok(ResultFieldV { field: q, tag: ResultTagsV::NoTag }),
        }
    } else if has_attr(attrs, FIELD@) {
        match result_field_builder_spec(attrs) {
            Err(m) => Err(m),
            Ok(b) => match query_field_spec(field, seq![FIELD@]) {
                Err(m) => Err(m),
                Ok(q) => if b.all_none() {
                    Err(empty_field_message())
                } else {
                    Ok(
                        ResultFieldV {
                            field: q,
                            tag: ResultTagsV::FieldTag(
                                ResultFieldTagV {
                                    column_name: b.column_name,
                                    wrapper_fn: b.wrapper_fn,
                                    default_value: b.default_value,
                                    link_property: b.link_property == Some(true),
                                },
                            ),
                        },
                    )
                },
            },
        }
    } else if has_attr(attrs, BACKLINK@) {
        match backlink_builder_spec(attrs) {
            Err(m) => Err(m),
            Ok(b) => match query_field_spec(field, seq![BACKLINK@]) {
                Err(m) => Err(m),
                Ok(q) => match backlink_spec(b) {
                    Err(m) => Err(m),
                    Ok(t) => Ok(
                        ResultFieldV {
                            field: q,
                            tag: ResultTagsV::BackLink(
                                BackLinkV { module: t.0, source_table: t.1, target_table: t.2, target_column: t.3, result: t.4 },
                            ),
                        },
                    ),
                },
            },
        }
    } else {
        Err(INVALID_RESULT_FIELD_TAG@)
    }
}

/// The cast of a field as the shape uses it: a non-empty cast gets the angle
/// brackets it lacks (the closing one judged on the trimmed text).
pub open spec fn format_scalar_spec(s: Seq<char>) -> Seq<char> {
    if s.len() == 0 {
        s
    } else {
        let s1 = if starts_with_char(s, '<') {
            s
        } else {
            "<"@ + s
        };
        if ends_with_char(trimmed(s1), '>') {
            s1
        } else {
            s1 + ">"@
        }
    }
}

/// What a field of a result writes in the shape, with what its type gives left
/// open.
pub enum ShapePart {
    /// An untagged field: its name, then ` : ` and its type's shape where that is
    /// not empty.
    Plain(String),
    /// A `#[field]`: its statement, in which the type's cast, bracketed, takes the
    /// place of `$scalar_type$`.
    Scalar(String),
    /// A back link: the text before the linked result's shape, and whether the
    /// field holds many results (else ` limit 1` follows the shape).
    Linked(String, bool),
}

/// The mathematical form of a `ShapePart`.
pub enum ShapePartV {
    Plain(Seq<char>),
    Scalar(Seq<char>),
    Linked(Seq<char>, bool),
}

impl View for ShapePart {
    type V = ShapePartV;

    open spec fn view(&self) -> ShapePartV {
        match self {
            ShapePart::Plain(n) => ShapePartV::Plain(n@),
            ShapePart::Scalar(t) => ShapePartV::Scalar(t@),
            ShapePart::Linked(h, many) => ShapePartV::Linked(h@, *many),
        }
    }
}

/// The views of a list of parts.
pub open spec fn parts_views(v: Seq<ShapePart>) -> Seq<ShapePartV> {
    v.map_values(|p: ShapePart| p@)
}

/// The part of the shape that a result field writes.
pub open spec fn part_of(f: ResultFieldV) -> ShapePartV {
    let name = f.field.ident;
    match f.tag {
        ResultTagsV::NoTag => ShapePartV::Plain(name),
        ResultTagsV::FieldTag(t) => ShapePartV::Scalar(
            result_field_statement(t.column_name, t.wrapper_fn, t.default_value, t.link_property, name),
        ),
        ResultTagsV::BackLink(t) => ShapePartV::Linked(
            name + " := ("@ + backlink_statement(t.module, t.source_table, t.target_column, t.target_table),
            type_is_named(f.field.ty, VEC@),
        ),
    }
}

/// The element of the shape that a part writes, given what the field's type
/// gives (`e`): its own shape for an untagged field, its scalar for a
/// `#[field]`, the shape of the linked result for a back link.
pub open spec fn part_element(p: ShapePartV, e: Seq<char>) -> Seq<char> {
    match p {
        ShapePartV::Plain(name) => if e.len() == 0 {
            name
        } else {
            name + " : "@ + e
        },
        ShapePartV::Scalar(stmt) => replace_all(stmt, SCALAR_TYPE@, format_scalar_spec(e)),
        ShapePartV::Linked(head, many) => head + e + (if many {
            Seq::<char>::empty()
        } else {
            LIMIT_1@
        }) + ")"@,
    }
}

/// The element of the shape for a result field, given what its type gives.
pub open spec fn shape_element(f: ResultFieldV, e: Seq<char>) -> Seq<char> {
    part_element(part_of(f), e)
}

/// The elements written by the parts, each followed by a comma.
pub open spec fn parts_elements(parts: Seq<ShapePartV>, env: Seq<Seq<char>>) -> Seq<char>
    decreases parts.len(),
{
    if parts.len() == 0 {
        Seq::empty()
    } else {
        parts_elements(parts.drop_last(), env) + part_element(parts.last(), env[parts.len() - 1]) + ","@
    }
}

/// The shape that the parts write: `{`, the elements separated by commas, `}`.
/// As in `shape_spec`, no parts give the shape `}`, the `{` being the character
/// dropped.
pub open spec fn parts_shape_spec(parts: Seq<ShapePartV>, env: Seq<Seq<char>>) -> Seq<char> {
    ("{"@ + parts_elements(parts, env)).drop_last() + "}"@
}

/// The elements of the shape, each followed by a comma.
pub open spec fn shape_elements(fields: Seq<ResultFieldV>, env: Seq<Seq<char>>) -> Seq<char>
    decreases fields.len(),
{
    if fields.len() == 0 {
        Seq::empty()
    } else {
        shape_elements(fields.drop_last(), env) + shape_element(fields.last(), env[fields.len() - 1]) + ","@
    }
}

/// The shape of a result: `{`, the elements separated by commas, `}`. The last
/// character before `}` is dropped, the last comma where there are fields; a
/// result with no fields thus drops the `{` itself and has the shape `}`.
pub open spec fn shape_spec(fields: Seq<ResultFieldV>, env: Seq<Seq<char>>) -> Seq<char> {
    ("{"@ + shape_elements(fields, env)).drop_last() + "}"@
}

/// The parts of the fields write the elements of the fields.
proof fn lemma_parts_elements(fields: Seq<ResultFieldV>, env: Seq<Seq<char>>)
    ensures
        parts_elements(fields.map_values(|f: ResultFieldV| part_of(f)), env) == shape_elements(fields, env),
    decreases fields.len(),
{
    let parts = fields.map_values(|f: ResultFieldV| part_of(f));
    if fields.len() > 0 {
        assert(parts.drop_last() =~= fields.drop_last().map_values(|f: ResultFieldV| part_of(f)));
        lemma_parts_elements(fields.drop_last(), env);
    }
}

/// The shape that the parts write, from what each part's type gives (`env`,
/// one entry per part).
pub fn result_shape(parts: &Vec<ShapePart>, env: &Vec<String>) -> (r: String)
    requires
        env@.len() == parts@.len(),
    ensures
        r@ == parts_shape_spec(parts_views(parts@), views(env@)),
{
    let ghost v = parts_views(parts@);
    let ghost ev = views(env@);
    let mut s = String::from_str("{");
    let mut i: usize = 0;
    assert(v.subrange(0, 0) =~= Seq::<ShapePartV>::empty());
    while i < parts.len()
        invariant
            i <= parts.len(),
            env@.len() == parts@.len(),
            v == parts_views(parts@),
            ev == views(env@),
            s@ == "{"@ + parts_elements(v.subrange(0, i as int), ev),
        decreases parts.len() - i,
    {
        assert(v.subrange(0, i + 1).drop_last() =~= v.subrange(0, i as int));
        assert(v.subrange(0, i + 1).last() == parts@[i as int]@);
        assert(ev[i as int] == env@[i as int]@);
        let el = parts[i].element(env[i].as_str());
        s.append(el.as_str());
        s.append(",");
        assert(s@ =~= "{"@ + parts_elements(v.subrange(0, i + 1), ev));
        i = i + 1;
    }
    assert(v.subrange(0, parts.len() as int) =~= v);
    proof {
        reveal_strlit("{");
    }
    let n = s.unicode_len();
    let mut out = s.substring_char(0, n - 1).to_string();
    assert(out@ =~= s@.drop_last());
    out.append("}");
    out
}

impl ShapePart {
    /// The element of the shape that the part writes; see `part_element`.
    pub fn element(&self, e: &str) -> (r: String)
        ensures
            r@ == part_element(self@, e@),
    {
        match self {
            ShapePart::Plain(name) => {
                if str_is_empty(e) {
                    name.clone()
                } else {
                    let mut s = name.clone();
                    s.append(" : ");
                    s.append(e);
                    s
                }
            },
            ShapePart::Scalar(stmt) => {
                let scalar = format_scalar(e);
                proof {
                    reveal_strlit("$scalar_type$");
                }
                replace_str(stmt.as_str(), SCALAR_TYPE, scalar.as_str())
            },
            ShapePart::Linked(head, many) => {
                let mut s = head.clone();
                s.append(e);
                if !*many {
                    s.append(LIMIT_1);
                }
                s.append(")");
                s
            },
        }
    }
}

/// A query result declaration.
pub struct QueryResult {
    pub ident: String,
    pub fields: Vec<ResultField>,
}

/// The views of a list of result fields.
pub open spec fn result_views(v: Seq<ResultField>) -> Seq<ResultFieldV> {
    v.map_values(|f: ResultField| f@)
}

/// The result fields read from the fields, in order, or the first error.
pub open spec fn result_fields_spec(fields: Seq<FieldDecl>) -> Result<Seq<ResultFieldV>, Seq<char>>
    decreases fields.len(),
{
    if fields.len() == 0 {
        Ok(Seq::empty())
    } else {
        match result_fields_spec(fields.drop_last()) {
            Err(m) => Err(m),
            Ok(acc) => match result_field_spec(fields.last()) {
                Err(m) => Err(m),
                Ok(f) => Ok(acc.push(f)),
            },
        }
    }
}

/// Once a prefix of the fields gives an error, all of them give it.
proof fn lemma_result_err_prefix(fields: Seq<FieldDecl>, j: int)
    requires
        0 <= j <= fields.len(),
        result_fields_spec(fields.subrange(0, j)) is Err,
    ensures
        result_fields_spec(fields) == result_fields_spec(fields.subrange(0, j)),
    decreases fields.len() - j,
{
    if j < fields.len() {
        assert(fields.subrange(0, j + 1).drop_last() =~= fields.subrange(0, j));
        lemma_result_err_prefix(fields, j + 1);
    } else {
        assert(fields.subrange(0, j) =~= fields);
    }
}

/// The position of the first field named `id`, if any.
pub open spec fn id_position(fields: Seq<ResultFieldV>) -> Option<int> {
    if exists|i: int| 0 <= i < fields.len() && fields[i].field.ident == ID@ {
        Some(choose|i: int| 0 <= i < fields.len() && fields[i].field.ident == ID@
            && forall|j: int| 0 <= j < i ==> fields[j].field.ident != ID@)
    } else {
        None
    }
}

/// The cast of a field with its angle brackets added; see `format_scalar_spec`.
pub fn format_scalar(s: &str) -> (r: String)
    ensures
        r@ == format_scalar_spec(s@),
{
    if str_is_empty(s) {
        return String::from_str(s);
    }
    let mut s1 = if str_starts_with_char(s, '<') {
        String::from_str(s)
    } else {
        let mut t = String::from_str("<");
        t.append(s);
        t
    };
    let t = trim(s1.as_str());
    if !str_ends_with_char(t.as_str(), '>') {
        s1.append(">");
    }
    s1
}

impl ResultField {
    /// The result field read from `field`.
    pub fn try_from(field: &FieldDecl) -> (r: Result<ResultField, MacroError>)
        requires
            field_wf(*field),
        ensures
            match r {
                Ok(f) => result_field_spec(*field) == Ok::<ResultFieldV, Seq<char>>(f@),
                Err(e) => result_field_spec(*field) == Err::<ResultFieldV, Seq<char>>(e.message@),
            },
    {
        if field.attrs.len() == 0 {
            let tags: Vec<String> = Vec::new();
            assert(views(tags@) =~= Seq::<Seq<char>>::empty());
            match QueryField::try_from(field, &tags) {
                Ok(q) => Ok(ResultField { field: q, tag: ResultTags::NoTag }),
                Err(e) => Err(e),
            }
        } else if attrs_have(&field.attrs, FIELD) {
            let b = match read_result_field_tag(&field.attrs) {
                Ok(b) => b,
                Err(e) => return Err(e),
            };
            let mut tags: Vec<String> = Vec::new();
            tags.push(String::from_str(FIELD));
            assert(views(tags@) =~= seq![FIELD@]);
            let q = match QueryField::try_from(field, &tags) {
                Ok(q) => q,
                Err(e) => return Err(e),
            };
            match b.build(field) {
                Ok(t) => Ok(ResultField { field: q, tag: ResultTags::FieldTag(t) }),
                Err(e) => Err(e),
            }
        } else if attrs_have(&field.attrs, BACKLINK) {
            let b = match read_backlink_tag(&field.attrs) {
                Ok(b) => b,
                Err(e) => return Err(e),
            };
            let mut tags: Vec<String> = Vec::new();
            tags.push(String::from_str(BACKLINK));
            assert(views(tags@) =~= seq![BACKLINK@]);
            let q = match QueryField::try_from(field, &tags) {
                Ok(q) => q,
                Err(e) => return Err(e),
            };
            match b.build(field) {
                Ok(t) => Ok(ResultField { field: q, tag: ResultTags::BackLink(t) }),
                Err(e) => Err(e),
            }
        } else {
            Err(MacroError::new(INVALID_RESULT_FIELD_TAG))
        }
    }

    /// The part of the shape that the field writes.
    pub fn shape_part(&self) -> (r: ShapePart)
        ensures
            r@ == part_of(self@),
    {
        let name = self.field.ident.as_str();
        match &self.tag {
            ResultTags::NoTag => ShapePart::Plain(String::from_str(name)),
            ResultTags::FieldTag(t) => ShapePart::Scalar(t.build_statement(name)),
            ResultTags::BackLink(t) => {
                let ql = t.build_statement();
                let mut s = String::from_str(name);
                s.append(" := (");
                s.append(ql.as_str());
                ShapePart::Linked(s, is_type_name(&self.field.ty, VEC))
            },
        }
    }

    /// The element of the shape for the field, from what its type gives (see
    /// `shape_element`).
    pub fn shape_element(&self, e: &str) -> (r: String)
        ensures
            r@ == shape_element(self@, e@),
    {
        self.shape_part().element(e)
    }

    /// The type whose shape a back link uses: the one written as `result`, or the
    /// type of the field (inside its `Vec` or `Option`).
    pub fn backlink_result_type(&self) -> (r: Option<String>)
        requires
            crate::type_utils::scalar_defined(self.field@.ty),
        ensures
            match self@.tag {
                ResultTagsV::BackLink(t) => r matches Some(s) && s@ == match t.result {
                    Some(x) => x,
                    None => name_of_type(inner_type(self.field@.ty)),
                },
                _ => r is None,
            },
    {
        match &self.tag {
            ResultTags::BackLink(t) => match &t.result {
                Some(x) => Some(x.clone()),
                None => {
                    let inner = get_type(&self.field.ty);
                    Some(get_type_name(&inner))
                },
            },
            _ => None,
        }
    }
}

impl QueryResult {
    /// The result read from the fields of the struct named `ident`.
    pub fn parse(ident: String, fields: &Vec<FieldDecl>) -> (r: Result<QueryResult, MacroError>)
        requires
            fields_wf(fields@),
        ensures
            match r {
                Ok(q) => result_fields_spec(fields@) == Ok::<Seq<ResultFieldV>, Seq<char>>(result_views(q.fields@))
                    && q.ident@ == ident@,
                Err(e) => result_fields_spec(fields@) == Err::<Seq<ResultFieldV>, Seq<char>>(e.message@),
            },
    {
        let mut out: Vec<ResultField> = Vec::new();
        let mut i: usize = 0;
        assert(fields@.subrange(0, 0) =~= Seq::<FieldDecl>::empty());
        assert(result_views(out@) =~= Seq::<ResultFieldV>::empty());
        while i < fields.len()
            invariant
                i <= fields.len(),
                fields_wf(fields@),
                result_fields_spec(fields@.subrange(0, i as int)) == Ok::<Seq<ResultFieldV>, Seq<char>>(result_views(out@)),
            decreases fields.len() - i,
        {
            assert(fields@.subrange(0, i + 1).drop_last() =~= fields@.subrange(0, i as int));
            assert(fields@.subrange(0, i + 1).last() == fields@[i as int]);
            assert(field_wf(fields@[i as int]));
            match ResultField::try_from(&fields[i]) {
                Err(e) => {
                    proof { lemma_result_err_prefix(fields@, i + 1); }
                    return Err(e);
                },
                Ok(f) => {
                    let ghost before = result_views(out@);
                    out.push(f);
                    assert(result_views(out@) =~= before.push(out@.last()@));
                },
            }
            i = i + 1;
        }
        assert(fields@.subrange(0, fields.len() as int) =~= fields@);
        Ok(QueryResult { ident, fields: out })
    }

    /// The position of the first field named `id`, if the result has one.
    pub fn id_field(&self) -> (r: Option<usize>)
        ensures
            match id_position(result_views(self.fields@)) {
                Some(i) => r == Some(i as usize),
                None => r is None,
            },
    {
        let ghost v = result_views(self.fields@);
        let mut i: usize = 0;
        while i < self.fields.len()
            invariant
                i <= self.fields.len(),
                v == result_views(self.fields@),
                forall|j: int| 0 <= j < i ==> v[j].field.ident != ID@,
            decreases self.fields.len() - i,
        {
            assert(v[i as int] == self.fields@[i as int]@);
            if str_eq(self.fields[i].field.ident.as_str(), ID) {
                proof {
                    let c = choose|k: int| 0 <= k < v.len() && v[k].field.ident == ID@
                        && forall|j: int| 0 <= j < k ==> v[j].field.ident != ID@;
                    assert(0 <= c < v.len() && v[c].field.ident == ID@ && forall|j: int| 0 <= j < c ==> v[j].field.ident != ID@);
                    if c < i {
                        assert(v[c].field.ident != ID@);
                    } else if c > i {
                        assert(v[i as int].field.ident != ID@);
                    }
                }
                return Some(i);
            }
            i = i + 1;
        }
        None
    }

    /// The parts of the shape that the fields write, in order.
    pub fn shape_parts(&self) -> (r: Vec<ShapePart>)
        ensures
            parts_views(r@) == result_views(self.fields@).map_values(|f: ResultFieldV| part_of(f)),
    {
        let ghost target = result_views(self.fields@).map_values(|f: ResultFieldV| part_of(f));
        let mut r: Vec<ShapePart> = Vec::new();
        let mut i: usize = 0;
        while i < self.fields.len()
            invariant
                i <= self.fields.len(),
                target == result_views(self.fields@).map_values(|f: ResultFieldV| part_of(f)),
                parts_views(r@) == target.subrange(0, i as int),
            decreases self.fields.len() - i,
        {
            let ghost before = parts_views(r@);
            assert(result_views(self.fields@)[i as int] == self.fields@[i as int]@);
            let p = self.fields[i].shape_part();
            r.push(p);
            assert(parts_views(r@) =~= before.push(p@));
            assert(parts_views(r@) =~= target.subrange(0, i + 1));
            i = i + 1;
        }
        assert(target.subrange(0, self.fields.len() as int) =~= target);
        r
    }

    /// The shape of the result, from what the type of each field gives (`env`,
    /// one entry per field; see `shape_element`).
    pub fn shape(&self, env: &Vec<String>) -> (r: String)
        requires
            env@.len() == self.fields@.len(),
        ensures
            r@ == shape_spec(result_views(self.fields@), views(env@)),
    {
        let parts = self.shape_parts();
        proof {
            lemma_parts_elements(result_views(self.fields@), views(env@));
        }
        result_shape(&parts, env)
    }

    /// The names of the fields, in order.
    pub fn returning_fields(&self) -> (r: Vec<String>)
        ensures
            views(r@) == result_views(self.fields@).map_values(|f: ResultFieldV| f.field.ident),
    {
        let mut r: Vec<String> = Vec::new();
        let mut i: usize = 0;
        while i < self.fields.len()
            invariant
                i <= self.fields.len(),
                views(r@) == result_views(self.fields@).map_values(|f: ResultFieldV| f.field.ident).subrange(0, i as int),
            decreases self.fields.len() - i,
        {
            let ghost before = views(r@);
            assert(result_views(self.fields@)[i as int] == self.fields@[i as int]@);
            let id = self.fields[i].field.ident.clone();
            r.push(id);
            assert(views(r@) =~= before.push(id@));
            assert(views(r@) =~= result_views(self.fields@).map_values(|f: ResultFieldV| f.field.ident).subrange(0, i + 1));
            i = i + 1;
        }
        assert(result_views(self.fields@).map_values(|f: ResultFieldV| f.field.ident).subrange(0, self.fields.len() as int)
            =~= result_views(self.fields@).map_values(|f: ResultFieldV| f.field.ident));
        r
    }
}

} // verus!
