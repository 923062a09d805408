use vstd::prelude::*;
use vstd::string::*;

use crate::attributes_utils::path_ident_equals;
use crate::constants::{INVALID_ENUM_VARIANT_TAG, VALUE};
use crate::error::MacroError;
use crate::model::{AttrMeta, Attribute, VariantDecl};
use crate::tags::builders::{nested_are_simple, read_value_tag, simple_nested, value_builder_spec};
use crate::tags::value_tag::ValueTag;

verus! {

/// A variant of an EdgeDB enum: its name and the text it stands for.
pub struct EdgedbEnumVariant {
    pub value: String,
    pub tag: ValueTag,
}

/// An EdgeDB enum declaration.
pub struct EdgedbEnum {
    pub ident: String,
    pub variants: Vec<EdgedbEnumVariant>,
}

/// The nested lists of the attributes name their options by single identifiers.
pub open spec fn nested_wf(attrs: Seq<Attribute>) -> bool {
    forall|i: int| 0 <= i < attrs.len() ==> (#[trigger] attrs[i].meta matches AttrMeta::List(ns) ==> simple_nested(ns@))
}

/// Every variant's attributes name their options by single identifiers.
pub open spec fn variants_wf(variants: Seq<VariantDecl>) -> bool {
    forall|i: int| 0 <= i < variants.len() ==> nested_wf(#[trigger] variants[i].attrs@)
}

/// The variant carries an attribute other than `value`.
pub open spec fn has_foreign_attr(attrs: Seq<Attribute>) -> bool {
    exists|i: int| 0 <= i < attrs.len() && !(#[trigger] attrs[i].is_named(VALUE@))
}

/// The (variant name, text) pair of a variant: the text written in `#[value("...")]`,
/// or else the name; a variant with another attribute is refused.
pub open spec fn variant_spec(v: VariantDecl) -> Result<(Seq<char>, Seq<char>), Seq<char>> {
    if has_foreign_attr(v.attrs@) {
        Err(INVALID_ENUM_VARIANT_TAG@)
    } else {
        match value_builder_spec(v.attrs@) {
            Err(m) => Err(m),
            Ok(x) => Ok((v.ident@, match x { Some(t) => t, None => v.ident@ })),
        }
    }
}

/// The variants read in order, or the first error.
pub open spec fn enum_spec(variants: Seq<VariantDecl>) -> Result<Seq<(Seq<char>, Seq<char>)>, Seq<char>>
    decreases variants.len(),
{
    if variants.len() == 0 {
        Ok(Seq::empty())
    } else {
        match enum_spec(variants.drop_last()) {
            Err(m) => Err(m),
            Ok(acc) => match variant_spec(variants.last()) {
                Err(m) => Err(m),
                Ok(p) => Ok(acc.push(p)),
            },
        }
    }
}

/// Once a prefix of the variants gives an error, all of them give it.
proof fn lemma_enum_err_prefix(variants: Seq<VariantDecl>, j: int)
    requires
        0 <= j <= variants.len(),
        enum_spec(variants.subrange(0, j)) is Err,
    ensures
        enum_spec(variants) == enum_spec(variants.subrange(0, j)),
    decreases variants.len() - j,
{
    if j < variants.len() {
        assert(variants.subrange(0, j + 1).drop_last() =~= variants.subrange(0, j));
        lemma_enum_err_prefix(variants, j + 1);
    } else {
        assert(variants.subrange(0, j) =~= variants);
    }
}

/// The (variant name, text) pairs of a list of variants.
pub open spec fn variant_views(v: Seq<EdgedbEnumVariant>) -> Seq<(Seq<char>, Seq<char>)> {
    v.map_values(|x: EdgedbEnumVariant| (x.value@, x.tag.0@))
}

/// Whether every attribute is `value`.
fn only_value_attrs(attrs: &Vec<Attribute>) -> (r: bool)
    ensures
        r == !has_foreign_attr(attrs@),
{
    let mut i: usize = 0;
    while i < attrs.len()
        invariant
            i <= attrs.len(),
            forall|j: int| 0 <= j < i ==> (#[trigger] attrs@[j]).is_named(VALUE@),
        decreases attrs.len() - i,
    {
        match path_ident_equals(&attrs[i].path, VALUE) {
            Some((true, _)) => {},
            _ => {
                assert(!attrs@[i as int].is_named(VALUE@));
                return false;
            },
        }
        i = i + 1;
    }
    true
}

/// Whether every variant's attributes name their options by single identifiers;
/// see `variants_wf`.
pub fn variants_are_readable(variants: &Vec<VariantDecl>) -> (r: bool)
    ensures
        r == variants_wf(variants@),
{
    let mut i: usize = 0;
    while i < variants.len()
        invariant
            i <= variants.len(),
            forall|j: int| 0 <= j < i ==> nested_wf(#[trigger] variants@[j].attrs@),
        decreases variants.len() - i,
    {
        let attrs = &variants[i].attrs;
        let mut k: usize = 0;
        while k < attrs.len()
            invariant
                k <= attrs.len(),
                i < variants@.len(),
                attrs@ == variants@[i as int].attrs@,
                forall|j: int| 0 <= j < k ==> (#[trigger] attrs@[j].meta matches AttrMeta::List(ns) ==> simple_nested(ns@)),
            decreases attrs.len() - k,
        {
            if let AttrMeta::List(ns) = &attrs[k].meta {
                if !nested_are_simple(ns) {
                    assert(!nested_wf(variants@[i as int].attrs@));
                    return false;
                }
            }
            k = k + 1;
        }
        i = i + 1;
    }
    true
}

impl EdgedbEnum {
    /// The enum read from the variants of the enum named `ident`.
    pub fn parse(ident: String, variants: &Vec<VariantDecl>) -> (r: Result<EdgedbEnum, MacroError>)
        requires
            variants_wf(variants@),
        ensures
            match r {
                Ok(e) => enum_spec(variants@) == Ok::<Seq<(Seq<char>, Seq<char>)>, Seq<char>>(variant_views(e.variants@))
                    && e.ident@ == ident@,
                Err(e) => enum_spec(variants@) == Err::<Seq<(Seq<char>, Seq<char>)>, Seq<char>>(e.message@),
            },
    {
        let mut out: Vec<EdgedbEnumVariant> = Vec::new();
        let mut i: usize = 0;
        assert(variants@.subrange(0, 0) =~= Seq::<VariantDecl>::empty());
        assert(variant_views(out@) =~= Seq::<(Seq<char>, Seq<char>)>::empty());
        while i < variants.len()
            invariant
                i <= variants.len(),
                variants_wf(variants@),
                enum_spec(variants@.subrange(0, i as int)) == Ok::<Seq<(Seq<char>, Seq<char>)>, Seq<char>>(variant_views(out@)),
            decreases variants.len() - i,
        {
            let v = &variants[i];
            assert(variants@.subrange(0, i + 1).drop_last() =~= variants@.subrange(0, i as int));
            assert(variants@.subrange(0, i + 1).last() == variants@[i as int]);
            assert(nested_wf(variants@[i as int].attrs@));
            if !only_value_attrs(&v.attrs) {
                proof { lemma_enum_err_prefix(variants@, i + 1); }
                return Err(MacroError::new(INVALID_ENUM_VARIANT_TAG));
            }
            assert forall|j: int| 0 <= j < v.attrs@.len() implies #[trigger] v.attrs@[j].is_simple() by {
                assert(v.attrs@[j].is_named(VALUE@));
            }
            let b = match read_value_tag(&v.attrs) {
                Ok(b) => b,
                Err(e) => {
                    proof { lemma_enum_err_prefix(variants@, i + 1); }
                    return Err(e);
                },
            };
            let tag = b.build(v);
            let ghost before = variant_views(out@);
            let x = EdgedbEnumVariant { value: v.ident.clone(), tag };
            out.push(x);
            assert(variant_views(out@) =~= before.push((x.value@, x.tag.0@)));
            i = i + 1;
        }
        assert(variants@.subrange(0, variants.len() as int) =~= variants@);
        Ok(EdgedbEnum { ident, variants: out })
    }

    /// The text that the variant at `i` stands for.
    pub fn to_edgeql(&self, i: usize) -> (r: String)
        requires
            i < self.variants@.len(),
        ensures
            r@ == variant_views(self.variants@)[i as int].1,
    {
        self.variants[i].tag.0.clone()
    }
}

} // verus!
