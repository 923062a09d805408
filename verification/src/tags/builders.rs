use vstd::prelude::*;
use vstd::string::*;

use crate::constants::{
    EXPECT_LIT_OR_NAMED_LIT, EXPECT_LIT_STR, EXPECT_NAMED_LIT, EXPECT_NON_EMPTY_LIT,
    ONLY_ONE_KIND_OF_TAG_EXPECTED, UNLESS_CONFLICT,
};
use crate::error::MacroError;
use crate::model::{AttrMeta, Attribute, Lit, NestedMeta, simple_attrs};
use crate::tags::backlink_field_tag::{BackLinkBuilderV, BackLinkFieldTagBuilder, backlink_option_spec};
use crate::tags::field_tag::{FieldTagBuilder, FieldTagBuilderV, field_option_spec};
use crate::tags::filter_tag::{FilterTagBuilder, FilterTagBuilderV, filter_option_spec};
use crate::tags::param_tag::ParamTagBuilder;
use crate::tags::value_tag::EnumValueTagBuilder;
use crate::tags::result_field_tag::{ResultFieldBuilderV, ResultFieldTagBuilder, result_field_option_spec};
use crate::tags::set_tag::{SetTagBuilder, set_tag_option_spec};
use crate::tags::unless_conflict_tag::{UnlessConflictTagBuilder, unless_conflict_option_spec};
use crate::text::{contains_str, debug_list_pretty, format_debug_list_pretty, ov, str_eq, str_is_empty, views};
use crate::attributes_utils::path_ident_equals;

verus! {

/// The builder that reads one kind of attribute.
pub enum TagBuilders {
    FieldBuilder(FieldTagBuilder),
    FilterBuilder(FilterTagBuilder),
    SetBuilder(SetTagBuilder),
    ParamBuilder(ParamTagBuilder),
    ResultFieldBuilder(ResultFieldTagBuilder),
    BackLinkFieldBuilder(BackLinkFieldTagBuilder),
    EnumValueBuilder(EnumValueTagBuilder),
    UnlessConflictBuilder(UnlessConflictTagBuilder),
}

/// The mathematical form of a `TagBuilders`.
pub enum TagBuildersV {
    Field(FieldTagBuilderV),
    Filter(FilterTagBuilderV),
    SetOpt(Option<Seq<char>>),
    Param(Option<Seq<char>>),
    ResultField(ResultFieldBuilderV),
    BackLink(BackLinkBuilderV),
    EnumValue(Option<Seq<char>>),
    UnlessConflict(Option<Seq<char>>),
}

impl View for TagBuilders {
    type V = TagBuildersV;

    open spec fn view(&self) -> TagBuildersV {
        match self {
            TagBuilders::FieldBuilder(b) => TagBuildersV::Field(b@),
            TagBuilders::FilterBuilder(b) => TagBuildersV::Filter(b@),
            TagBuilders::SetBuilder(b) => TagBuildersV::SetOpt(ov(b.option)),
            TagBuilders::ParamBuilder(b) => TagBuildersV::Param(ov(b.value)),
            TagBuilders::ResultFieldBuilder(b) => TagBuildersV::ResultField(b@),
            TagBuilders::BackLinkFieldBuilder(b) => TagBuildersV::BackLink(b@),
            TagBuilders::EnumValueBuilder(b) => TagBuildersV::EnumValue(ov(b.value)),
            TagBuilders::UnlessConflictBuilder(b) => TagBuildersV::UnlessConflict(ov(b.on)),
        }
    }
}

/// The attribute names that a builder reads.
pub open spec fn tag_names_spec(b: TagBuildersV) -> Seq<Seq<char>> {
    match b {
        TagBuildersV::Field(_) => seq![crate::constants::FIELD@],
        TagBuildersV::Filter(_) => seq![crate::constants::FILTER@, crate::constants::AND_FILTER@, crate::constants::OR_FILTER@],
        TagBuildersV::SetOpt(_) => seq![crate::constants::SET@],
        TagBuildersV::Param(_) => seq![crate::constants::PARAM@],
        TagBuildersV::ResultField(_) => seq![crate::constants::FIELD@],
        TagBuildersV::BackLink(_) => seq![crate::constants::BACKLINK@],
        TagBuildersV::EnumValue(_) => seq![crate::constants::VALUE@],
        TagBuildersV::UnlessConflict(_) => seq![UNLESS_CONFLICT@],
    }
}

/// A bare string literal sets the value of a `param` or `value` builder.
pub open spec fn lit_arg_spec(b: TagBuildersV, s: Seq<char>) -> Result<TagBuildersV, Seq<char>> {
    match b {
        TagBuildersV::Param(_) => if s.len() == 0 {
            Err(EXPECT_NON_EMPTY_LIT@)
        } else {
            Ok(TagBuildersV::Param(Some(s)))
        },
        TagBuildersV::EnumValue(_) => if s.len() == 0 {
            Err(EXPECT_NON_EMPTY_LIT@)
        } else {
            Ok(TagBuildersV::EnumValue(Some(s)))
        },
        _ => Err(EXPECT_NAMED_LIT@),
    }
}

/// `name = lit` sets an option of a builder that reads named options.
pub open spec fn named_arg_spec(b: TagBuildersV, name: Seq<char>, lit: Lit) -> Result<TagBuildersV, Seq<char>> {
    match b {
        TagBuildersV::Field(fb) => match field_option_spec(name, lit) {
            Ok(o) => Ok(TagBuildersV::Field(fb.with(o))),
            Err(m) => Err(m),
        },
        TagBuildersV::Filter(fb) => match filter_option_spec(name, lit) {
            Ok(o) => Ok(TagBuildersV::Filter(fb.with(o))),
            Err(m) => Err(m),
        },
        TagBuildersV::SetOpt(_) => match set_tag_option_spec(name, lit) {
            Ok(v) => Ok(TagBuildersV::SetOpt(Some(v))),
            Err(m) => Err(m),
        },
        TagBuildersV::ResultField(rb) => match result_field_option_spec(name, lit) {
            Ok(o) => Ok(TagBuildersV::ResultField(rb.with(o))),
            Err(m) => Err(m),
        },
        TagBuildersV::BackLink(bb) => match backlink_option_spec(name, lit) {
            Ok(o) => Ok(TagBuildersV::BackLink(bb.with(o))),
            Err(m) => Err(m),
        },
        TagBuildersV::UnlessConflict(_) => match unless_conflict_option_spec(name, lit) {
            Ok(v) => Ok(TagBuildersV::UnlessConflict(Some(v))),
            Err(m) => Err(m),
        },
        _ => Err(EXPECT_LIT_STR@),
    }
}

/// The builder after one element of an attribute's list, or the error.
pub open spec fn arg_spec(b: TagBuildersV, n: NestedMeta) -> Result<TagBuildersV, Seq<char>> {
    match n {
        NestedMeta::Lit(Lit::Str(s)) => lit_arg_spec(b, s@),
        NestedMeta::NameValue(path, lit) => named_arg_spec(b, path@[0]@, lit),
        _ => Err(EXPECT_LIT_OR_NAMED_LIT@),
    }
}

/// The builder after the elements of a list, taken in order; the first error stops it.
pub open spec fn args_spec(b: TagBuildersV, ns: Seq<NestedMeta>) -> Result<TagBuildersV, Seq<char>>
    decreases ns.len(),
{
    if ns.len() == 0 {
        Ok(b)
    } else {
        match args_spec(b, ns.drop_last()) {
            Err(m) => Err(m),
            Ok(b2) => arg_spec(b2, ns.last()),
        }
    }
}

/// Every `name = lit` element of a list has a single-identifier name.
pub open spec fn simple_nested(ns: Seq<NestedMeta>) -> bool {
    forall|i: int| 0 <= i < ns.len() ==> (#[trigger] ns[i] matches NestedMeta::NameValue(path, _) ==> path@.len() == 1)
}

/// A field that a query macro can read: it has a name, its attributes are well
/// formed, and the scalar of its type can be looked up.
pub open spec fn field_wf(f: crate::model::FieldDecl) -> bool {
    &&& f.named()
    &&& attrs_wf(f.attrs@)
    &&& crate::type_utils::scalar_defined(f.ty@)
}

/// Every field of the list can be read by a query macro.
pub open spec fn fields_wf(fields: Seq<crate::model::FieldDecl>) -> bool {
    forall|i: int| 0 <= i < fields.len() ==> #[trigger] field_wf(fields[i])
}

/// The attributes of a field or a variant are well formed: single-identifier
/// paths, inside and out.
pub open spec fn attrs_wf(attrs: Seq<Attribute>) -> bool {
    &&& simple_attrs(attrs)
    &&& forall|i: int| 0 <= i < attrs.len() ==> (#[trigger] attrs[i].meta matches AttrMeta::List(ns) ==> simple_nested(ns@))
}

/// The builder after the one attribute that it reads.
pub open spec fn attr_spec(b: TagBuildersV, att: Attribute) -> Result<TagBuildersV, Seq<char>> {
    match att.meta {
        AttrMeta::Invalid(m) => Err(m@),
        AttrMeta::List(ns) => args_spec(b, ns@),
        _ => if att.is_named(UNLESS_CONFLICT@) {
            Ok(b)
        } else {
            Err(EXPECT_NAMED_LIT@)
        },
    }
}

/// The attributes of the list whose names a builder reads, in their order.
pub open spec fn matching_attrs(attrs: Seq<Attribute>, names: Seq<Seq<char>>) -> Seq<Attribute>
    decreases attrs.len(),
{
    if attrs.len() == 0 {
        Seq::empty()
    } else {
        let r = matching_attrs(attrs.drop_last(), names);
        if names.contains(attrs.last().name()) {
            r.push(attrs.last())
        } else {
            r
        }
    }
}

/// The builder after reading the attributes of a field or a variant: at most one
/// of the kinds it reads may be there.
pub open spec fn build_tags_spec(b: TagBuildersV, attrs: Seq<Attribute>) -> Result<TagBuildersV, Seq<char>> {
    let m = matching_attrs(attrs, tag_names_spec(b));
    if m.len() > 1 {
        Err(ONLY_ONE_KIND_OF_TAG_EXPECTED@ + ", "@ + debug_list_pretty(tag_names_spec(b)))
    } else if m.len() == 1 {
        attr_spec(b, m[0])
    } else {
        Ok(b)
    }
}

impl TagBuilders {
    /// The attribute names that this builder reads.
    pub fn tag_names(&self) -> (r: Vec<String>)
        ensures
            views(r@) == tag_names_spec(self@),
    {
        match self {
            TagBuilders::FieldBuilder(b) => b.tag_names(),
            TagBuilders::FilterBuilder(b) => b.tag_names(),
            TagBuilders::SetBuilder(b) => b.tag_names(),
            TagBuilders::ParamBuilder(b) => b.tag_names(),
            TagBuilders::ResultFieldBuilder(b) => b.tag_names(),
            TagBuilders::BackLinkFieldBuilder(b) => b.tag_names(),
            TagBuilders::EnumValueBuilder(b) => b.tag_names(),
            TagBuilders::UnlessConflictBuilder(b) => b.tag_names(),
        }
    }

    /// Takes one element of the attribute's list.
    pub fn arg(&mut self, nested: &NestedMeta) -> (r: Result<(), MacroError>)
        requires
            nested matches NestedMeta::NameValue(path, _) ==> path@.len() == 1,
        ensures
            match arg_spec(old(self)@, *nested) {
                Ok(b) => r is Ok && final(self)@ == b,
                Err(m) => r matches Err(e) && e.message@ == m,
            },
    {
        match nested {
            NestedMeta::Lit(Lit::Str(lit)) => match self {
                TagBuilders::ParamBuilder(builder) => builder.arg(lit),
                TagBuilders::EnumValueBuilder(builder) => builder.arg(lit),
                _ => Err(MacroError::new(EXPECT_NAMED_LIT)),
            },
            NestedMeta::NameValue(path, lit) => match self {
                TagBuilders::FieldBuilder(builder) => builder.arg(path, lit),
                TagBuilders::FilterBuilder(builder) => builder.arg(path, lit),
                TagBuilders::SetBuilder(builder) => builder.arg(path, lit),
                TagBuilders::ResultFieldBuilder(builder) => builder.arg(path, lit),
                TagBuilders::BackLinkFieldBuilder(builder) => builder.arg(path, lit),
                TagBuilders::UnlessConflictBuilder(builder) => builder.arg(path, lit),
                _ => Err(MacroError::new(EXPECT_LIT_STR)),
            },
            _ => Err(MacroError::new(EXPECT_LIT_OR_NAMED_LIT)),
        }
    }
}

/// The field builder after reading a field's attributes.
pub open spec fn field_builder_spec(attrs: Seq<Attribute>) -> Result<FieldTagBuilderV, Seq<char>> {
    match build_tags_spec(TagBuildersV::Field(FieldTagBuilderV::empty()), attrs) {
        Ok(TagBuildersV::Field(x)) => Ok(x),
        Ok(_) => Err(Seq::empty()),
        Err(m) => Err(m),
    }
}

/// The filter builder after reading a field's attributes.
pub open spec fn filter_builder_spec(attrs: Seq<Attribute>) -> Result<FilterTagBuilderV, Seq<char>> {
    match build_tags_spec(TagBuildersV::Filter(FilterTagBuilderV::empty()), attrs) {
        Ok(TagBuildersV::Filter(x)) => Ok(x),
        Ok(_) => Err(Seq::empty()),
        Err(m) => Err(m),
    }
}

/// The option of `#[set(...)]` after reading a field's attributes.
pub open spec fn set_builder_spec(attrs: Seq<Attribute>) -> Result<Option<Seq<char>>, Seq<char>> {
    match build_tags_spec(TagBuildersV::SetOpt(None), attrs) {
        Ok(TagBuildersV::SetOpt(x)) => Ok(x),
        Ok(_) => Err(Seq::empty()),
        Err(m) => Err(m),
    }
}

/// The value of `#[param(...)]` after reading a field's attributes.
pub open spec fn param_builder_spec(attrs: Seq<Attribute>) -> Result<Option<Seq<char>>, Seq<char>> {
    match build_tags_spec(TagBuildersV::Param(None), attrs) {
        Ok(TagBuildersV::Param(x)) => Ok(x),
        Ok(_) => Err(Seq::empty()),
        Err(m) => Err(m),
    }
}

/// The value of `#[value(...)]` after reading a variant's attributes.
pub open spec fn value_builder_spec(attrs: Seq<Attribute>) -> Result<Option<Seq<char>>, Seq<char>> {
    match build_tags_spec(TagBuildersV::EnumValue(None), attrs) {
        Ok(TagBuildersV::EnumValue(x)) => Ok(x),
        Ok(_) => Err(Seq::empty()),
        Err(m) => Err(m),
    }
}

/// The result-field builder after reading a field's attributes.
pub open spec fn result_field_builder_spec(attrs: Seq<Attribute>) -> Result<ResultFieldBuilderV, Seq<char>> {
    match build_tags_spec(TagBuildersV::ResultField(ResultFieldBuilderV::empty()), attrs) {
        Ok(TagBuildersV::ResultField(x)) => Ok(x),
        Ok(_) => Err(Seq::empty()),
        Err(m) => Err(m),
    }
}

/// The back-link builder after reading a field's attributes.
pub open spec fn backlink_builder_spec(attrs: Seq<Attribute>) -> Result<BackLinkBuilderV, Seq<char>> {
    match build_tags_spec(TagBuildersV::BackLink(BackLinkBuilderV::empty()), attrs) {
        Ok(TagBuildersV::BackLink(x)) => Ok(x),
        Ok(_) => Err(Seq::empty()),
        Err(m) => Err(m),
    }
}

/// The option of `#[unless_conflict(...)]` after reading a field's attributes.
pub open spec fn unless_conflict_builder_spec(attrs: Seq<Attribute>) -> Result<Option<Seq<char>>, Seq<char>> {
    match build_tags_spec(TagBuildersV::UnlessConflict(None), attrs) {
        Ok(TagBuildersV::UnlessConflict(x)) => Ok(x),
        Ok(_) => Err(Seq::empty()),
        Err(m) => Err(m),
    }
}

/// Reads the `#[field(...)]` attribute of a query field.
pub fn read_field_tag(attrs: &Vec<Attribute>) -> (r: Result<FieldTagBuilder, MacroError>)
    requires
        attrs_wf(attrs@),
    ensures
        match r {
            Ok(b) => field_builder_spec(attrs@) == Ok::<FieldTagBuilderV, Seq<char>>(b@),
            Err(e) => field_builder_spec(attrs@) == Err::<FieldTagBuilderV, Seq<char>>(e.message@),
        },
{
    let mut b = TagBuilders::FieldBuilder(FieldTagBuilder::new());
    proof { lemma_build_keeps_kind(b@, attrs@); }
    match build_tags_from_field(attrs, &mut b) {
        Err(e) => Err(e),
        Ok(_) => match b {
            TagBuilders::FieldBuilder(x) => Ok(x),
            _ => Err(MacroError::new("")),
        },
    }
}

/// Reads the filter attribute of a query field.
pub fn read_filter_tag(attrs: &Vec<Attribute>) -> (r: Result<FilterTagBuilder, MacroError>)
    requires
        attrs_wf(attrs@),
    ensures
        match r {
            Ok(b) => filter_builder_spec(attrs@) == Ok::<FilterTagBuilderV, Seq<char>>(b@),
            Err(e) => filter_builder_spec(attrs@) == Err::<FilterTagBuilderV, Seq<char>>(e.message@),
        },
{
    let mut b = TagBuilders::FilterBuilder(FilterTagBuilder::new());
    proof { lemma_build_keeps_kind(b@, attrs@); }
    match build_tags_from_field(attrs, &mut b) {
        Err(e) => Err(e),
        Ok(_) => match b {
            TagBuilders::FilterBuilder(x) => Ok(x),
            _ => Err(MacroError::new("")),
        },
    }
}

/// Reads the `#[set(...)]` attribute of a query field.
pub fn read_set_tag(attrs: &Vec<Attribute>) -> (r: Result<SetTagBuilder, MacroError>)
    requires
        attrs_wf(attrs@),
    ensures
        match r {
            Ok(b) => set_builder_spec(attrs@) == Ok::<Option<Seq<char>>, Seq<char>>(ov(b.option)),
            Err(e) => set_builder_spec(attrs@) == Err::<Option<Seq<char>>, Seq<char>>(e.message@),
        },
{
    let mut b = TagBuilders::SetBuilder(SetTagBuilder::new());
    proof { lemma_build_keeps_kind(b@, attrs@); }
    match build_tags_from_field(attrs, &mut b) {
        Err(e) => Err(e),
        Ok(_) => match b {
            TagBuilders::SetBuilder(x) => Ok(x),
            _ => Err(MacroError::new("")),
        },
    }
}

/// Reads the `#[param(...)]` attribute of a query field.
pub fn read_param_tag(attrs: &Vec<Attribute>) -> (r: Result<ParamTagBuilder, MacroError>)
    requires
        attrs_wf(attrs@),
    ensures
        match r {
            Ok(b) => param_builder_spec(attrs@) == Ok::<Option<Seq<char>>, Seq<char>>(ov(b.value)),
            Err(e) => param_builder_spec(attrs@) == Err::<Option<Seq<char>>, Seq<char>>(e.message@),
        },
{
    let mut b = TagBuilders::ParamBuilder(ParamTagBuilder::new());
    proof { lemma_build_keeps_kind(b@, attrs@); }
    match build_tags_from_field(attrs, &mut b) {
        Err(e) => Err(e),
        Ok(_) => match b {
            TagBuilders::ParamBuilder(x) => Ok(x),
            _ => Err(MacroError::new("")),
        },
    }
}

/// Reads the `#[value(...)]` attribute of an enum variant.
pub fn read_value_tag(attrs: &Vec<Attribute>) -> (r: Result<EnumValueTagBuilder, MacroError>)
    requires
        attrs_wf(attrs@),
    ensures
        match r {
            Ok(b) => value_builder_spec(attrs@) == Ok::<Option<Seq<char>>, Seq<char>>(ov(b.value)),
            Err(e) => value_builder_spec(attrs@) == Err::<Option<Seq<char>>, Seq<char>>(e.message@),
        },
{
    let mut b = TagBuilders::EnumValueBuilder(EnumValueTagBuilder::new());
    proof { lemma_build_keeps_kind(b@, attrs@); }
    match build_tags_from_field(attrs, &mut b) {
        Err(e) => Err(e),
        Ok(_) => match b {
            TagBuilders::EnumValueBuilder(x) => Ok(x),
            _ => Err(MacroError::new("")),
        },
    }
}

/// Reads the `#[field(...)]` attribute of a result field.
pub fn read_result_field_tag(attrs: &Vec<Attribute>) -> (r: Result<ResultFieldTagBuilder, MacroError>)
    requires
        attrs_wf(attrs@),
    ensures
        match r {
            Ok(b) => result_field_builder_spec(attrs@) == Ok::<ResultFieldBuilderV, Seq<char>>(b@),
            Err(e) => result_field_builder_spec(attrs@) == Err::<ResultFieldBuilderV, Seq<char>>(e.message@),
        },
{
    let mut b = TagBuilders::ResultFieldBuilder(ResultFieldTagBuilder::new());
    proof { lemma_build_keeps_kind(b@, attrs@); }
    match build_tags_from_field(attrs, &mut b) {
        Err(e) => Err(e),
        Ok(_) => match b {
            TagBuilders::ResultFieldBuilder(x) => Ok(x),
            _ => Err(MacroError::new("")),
        },
    }
}

/// Reads the `#[back_link(...)]` attribute of a result field.
pub fn read_backlink_tag(attrs: &Vec<Attribute>) -> (r: Result<BackLinkFieldTagBuilder, MacroError>)
    requires
        attrs_wf(attrs@),
    ensures
        match r {
            Ok(b) => backlink_builder_spec(attrs@) == Ok::<BackLinkBuilderV, Seq<char>>(b@),
            Err(e) => backlink_builder_spec(attrs@) == Err::<BackLinkBuilderV, Seq<char>>(e.message@),
        },
{
    let mut b = TagBuilders::BackLinkFieldBuilder(BackLinkFieldTagBuilder::new());
    proof { lemma_build_keeps_kind(b@, attrs@); }
    match build_tags_from_field(attrs, &mut b) {
        Err(e) => Err(e),
        Ok(_) => match b {
            TagBuilders::BackLinkFieldBuilder(x) => Ok(x),
            _ => Err(MacroError::new("")),
        },
    }
}

/// Reads the `#[unless_conflict(...)]` attribute of an insert field.
pub fn read_unless_conflict_tag(attrs: &Vec<Attribute>) -> (r: Result<UnlessConflictTagBuilder, MacroError>)
    requires
        attrs_wf(attrs@),
    ensures
        match r {
            Ok(b) => unless_conflict_builder_spec(attrs@) == Ok::<Option<Seq<char>>, Seq<char>>(ov(b.on)),
            Err(e) => unless_conflict_builder_spec(attrs@) == Err::<Option<Seq<char>>, Seq<char>>(e.message@),
        },
{
    let mut b = TagBuilders::UnlessConflictBuilder(UnlessConflictTagBuilder::new());
    proof { lemma_build_keeps_kind(b@, attrs@); }
    match build_tags_from_field(attrs, &mut b) {
        Err(e) => Err(e),
        Ok(_) => match b {
            TagBuilders::UnlessConflictBuilder(x) => Ok(x),
            _ => Err(MacroError::new("")),
        },
    }
}

/// Reads into `builder` the one attribute of `attrs` that it reads, if any;
/// more than one such attribute is refused.
pub fn build_tags_from_field(attrs: &Vec<Attribute>, builder: &mut TagBuilders) -> (r: Result<(), MacroError>)
    requires
        attrs_wf(attrs@),
    ensures
        match build_tags_spec(old(builder)@, attrs@) {
            Ok(b) => r is Ok && final(builder)@ == b,
            Err(m) => r matches Err(e) && e.message@ == m,
        },
{
    let names = builder.tag_names();
    let ghost b0 = builder@;
    let mut count: usize = 0;
    let mut first: usize = 0;
    let mut i: usize = 0;
    while i < attrs.len()
        invariant
            i <= attrs.len(),
            attrs_wf(attrs@),
            views(names@) == tag_names_spec(b0),
            count == matching_attrs(attrs@.subrange(0, i as int), tag_names_spec(b0)).len(),
            count <= 1,
            count == 1 ==> first < i && matching_attrs(attrs@.subrange(0, i as int), tag_names_spec(b0))[0] == attrs@[first as int],
            builder@ == b0,
        decreases attrs.len() - i,
    {
        let ghost pre = attrs@.subrange(0, i as int);
        assert(attrs@.subrange(0, i + 1).drop_last() =~= pre);
        assert(attrs@.subrange(0, i + 1).last() == attrs@[i as int]);
        assert(attrs@[i as int].is_simple());
        if contains_str(&names, attrs[i].path[0].as_str()) {
            if count == 1 {
                let d = format_debug_list_pretty(&names);
                let mut m = String::from_str(ONLY_ONE_KIND_OF_TAG_EXPECTED);
                m.append(", ");
                m.append(d.as_str());
                proof {
                    lemma_matching_grows(attrs@, tag_names_spec(b0), (i + 1) as int);
                }
                return Err(MacroError { message: m });
            }
            count = 1;
            first = i;
        }
        i = i + 1;
    }
    assert(attrs@.subrange(0, attrs.len() as int) =~= attrs@);
    if count == 0 {
        return Ok(());
    }
    let att = &attrs[first];
    match &att.meta {
        AttrMeta::Invalid(m) => Err(MacroError { message: m.clone() }),
        AttrMeta::List(ns) => {
            assert(simple_nested(ns@));
            assert(matching_attrs(attrs@, tag_names_spec(b0)).len() == 1);
            assert(matching_attrs(attrs@, tag_names_spec(b0))[0] == attrs@[first as int]);
            assert(build_tags_spec(b0, attrs@) == attr_spec(b0, attrs@[first as int]));
            assert(build_tags_spec(b0, attrs@) == args_spec(b0, ns@));
            let mut k: usize = 0;
            while k < ns.len()
                invariant
                    k <= ns.len(),
                    simple_nested(ns@),
                    build_tags_spec(old(builder)@, attrs@) == args_spec(b0, ns@),
                    args_spec(b0, ns@.subrange(0, k as int)) == Ok::<TagBuildersV, Seq<char>>(builder@),
                decreases ns.len() - k,
            {
                assert(ns@.subrange(0, k + 1).drop_last() =~= ns@.subrange(0, k as int));
                assert(ns@.subrange(0, k + 1).last() == ns@[k as int]);
                assert(ns@[k as int] matches NestedMeta::NameValue(path, _) ==> path@.len() == 1);
                let ghost before = builder@;
                assert(args_spec(b0, ns@.subrange(0, k + 1)) == arg_spec(before, ns@[k as int]));
                match builder.arg(&ns[k]) {
                    Err(e) => {
                        proof {
                            lemma_args_err_prefix(b0, ns@, (k + 1) as int);
                        }
                        return Err(e);
                    },
                    Ok(_) => {},
                }
                k = k + 1;
            }
            assert(ns@.subrange(0, ns.len() as int) =~= ns@);
            Ok(())
        },
        _ => {
            if let Some((true, _)) = path_ident_equals(&att.path, UNLESS_CONFLICT) {
                Ok(())
            } else {
                Err(MacroError::new(EXPECT_NAMED_LIT))
            }
        },
    }
}

/// Two builders read the same kind of attribute.
pub open spec fn same_kind(a: TagBuildersV, b: TagBuildersV) -> bool {
    match (a, b) {
        (TagBuildersV::Field(_), TagBuildersV::Field(_)) => true,
        (TagBuildersV::Filter(_), TagBuildersV::Filter(_)) => true,
        (TagBuildersV::SetOpt(_), TagBuildersV::SetOpt(_)) => true,
        (TagBuildersV::Param(_), TagBuildersV::Param(_)) => true,
        (TagBuildersV::ResultField(_), TagBuildersV::ResultField(_)) => true,
        (TagBuildersV::BackLink(_), TagBuildersV::BackLink(_)) => true,
        (TagBuildersV::EnumValue(_), TagBuildersV::EnumValue(_)) => true,
        (TagBuildersV::UnlessConflict(_), TagBuildersV::UnlessConflict(_)) => true,
        _ => false,
    }
}

/// Reading attributes never changes the kind of a builder.
pub proof fn lemma_build_keeps_kind(b: TagBuildersV, attrs: Seq<Attribute>)
    ensures
        build_tags_spec(b, attrs) matches Ok(b2) ==> same_kind(b, b2),
{
    let m = matching_attrs(attrs, tag_names_spec(b));
    if m.len() == 1 {
        if let AttrMeta::List(ns) = m[0].meta {
            lemma_args_keep_kind(b, ns@);
        }
    }
}

/// Reading the elements of a list never changes the kind of a builder.
pub proof fn lemma_args_keep_kind(b: TagBuildersV, ns: Seq<NestedMeta>)
    ensures
        args_spec(b, ns) matches Ok(b2) ==> same_kind(b, b2),
    decreases ns.len(),
{
    if ns.len() > 0 {
        lemma_args_keep_kind(b, ns.drop_last());
    }
}

/// Once the elements of a prefix give an error, the whole list gives it.
proof fn lemma_args_err_prefix(b: TagBuildersV, ns: Seq<NestedMeta>, j: int)
    requires
        0 <= j <= ns.len(),
        args_spec(b, ns.subrange(0, j)) is Err,
    ensures
        args_spec(b, ns) == args_spec(b, ns.subrange(0, j)),
    decreases ns.len() - j,
{
    if j < ns.len() {
        assert(ns.subrange(0, j + 1).drop_last() =~= ns.subrange(0, j));
        lemma_args_err_prefix(b, ns, j + 1);
    } else {
        assert(ns.subrange(0, j) =~= ns);
    }
}

/// Matching on a longer prefix never gives fewer attributes.
proof fn lemma_matching_grows(attrs: Seq<Attribute>, names: Seq<Seq<char>>, j: int)
    requires
        0 <= j <= attrs.len(),
    ensures
        matching_attrs(attrs.subrange(0, j), names).len() <= matching_attrs(attrs, names).len(),
    decreases attrs.len() - j,
{
    if j < attrs.len() {
        lemma_matching_grows(attrs, names, j + 1);
        assert(attrs.subrange(0, j + 1).drop_last() =~= attrs.subrange(0, j));
    } else {
        assert(attrs.subrange(0, j) =~= attrs);
    }
}


/// Whether every `name = lit` element of a list has a single-identifier name.
pub fn nested_are_simple(ns: &Vec<NestedMeta>) -> (r: bool)
    ensures
        r == simple_nested(ns@),
{
    let mut i: usize = 0;
    while i < ns.len()
        invariant
            i <= ns.len(),
            forall|j: int| 0 <= j < i ==> (#[trigger] ns@[j] matches NestedMeta::NameValue(path, _) ==> path@.len() == 1),
        decreases ns.len() - i,
    {
        if let NestedMeta::NameValue(path, _) = &ns[i] {
            if path.len() != 1 {
                return false;
            }
        }
        i = i + 1;
    }
    true
}

/// Whether the attributes are well formed; see `attrs_wf`.
pub fn attrs_are_wf(attrs: &Vec<Attribute>) -> (r: bool)
    ensures
        r == attrs_wf(attrs@),
{
    let mut i: usize = 0;
    while i < attrs.len()
        invariant
            i <= attrs.len(),
            forall|j: int| 0 <= j < i ==> #[trigger] attrs@[j].is_simple(),
            forall|j: int| 0 <= j < i ==> (#[trigger] attrs@[j].meta matches AttrMeta::List(ns) ==> simple_nested(ns@)),
        decreases attrs.len() - i,
    {
        if attrs[i].path.len() != 1 {
            assert(!attrs@[i as int].is_simple());
            return false;
        }
        if let AttrMeta::List(ns) = &attrs[i].meta {
            if !nested_are_simple(ns) {
                return false;
            }
        }
        i = i + 1;
    }
    true
}

/// Whether a query macro can read the field; see `field_wf`.
pub fn field_is_readable(f: &crate::model::FieldDecl) -> (r: bool)
    ensures
        r == field_wf(*f),
{
    f.ident.is_some() && attrs_are_wf(&f.attrs) && crate::type_utils::is_scalar_defined(&f.ty)
}

/// Whether a query macro can read all the fields; see `fields_wf`.
pub fn fields_are_readable(fields: &Vec<crate::model::FieldDecl>) -> (r: bool)
    ensures
        r == fields_wf(fields@),
{
    let mut i: usize = 0;
    while i < fields.len()
        invariant
            i <= fields.len(),
            forall|j: int| 0 <= j < i ==> #[trigger] field_wf(fields@[j]),
        decreases fields.len() - i,
    {
        if !field_is_readable(&fields[i]) {
            return false;
        }
        i = i + 1;
    }
    true
}

} // verus!
