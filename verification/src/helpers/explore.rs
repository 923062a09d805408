use vstd::prelude::*;
use vstd::string::*;

use crate::attributes_utils::path_ident_equals;
use crate::model::{AttrMeta, Attribute, Lit, NestedMeta};
use crate::text::ov;

verus! {

/// The value written as `key = "..."` in a list of options, the last one written.
pub open spec fn nested_str_value(ns: Seq<NestedMeta>, key: Seq<char>) -> Option<Seq<char>>
    decreases ns.len(),
{
    if ns.len() == 0 {
        None
    } else {
        match ns.last() {
            NestedMeta::NameValue(p, Lit::Str(v)) => if p@.len() == 1 && p@[0]@ == key {
                Some(v@)
            } else {
                nested_str_value(ns.drop_last(), key)
            },
            _ => nested_str_value(ns.drop_last(), key),
        }
    }
}

/// The value written as `key = "..."` or `key = 123` in a list of options, the
/// last one written; an integer by its decimal digits.
pub open spec fn nested_num_value(ns: Seq<NestedMeta>, key: Seq<char>) -> Option<Seq<char>>
    decreases ns.len(),
{
    if ns.len() == 0 {
        None
    } else {
        match ns.last() {
            NestedMeta::NameValue(p, Lit::Str(v)) => if p@.len() == 1 && p@[0]@ == key {
                Some(v@)
            } else {
                nested_num_value(ns.drop_last(), key)
            },
            NestedMeta::NameValue(p, Lit::Int(v)) => if p@.len() == 1 && p@[0]@ == key {
                Some(v@)
            } else {
                nested_num_value(ns.drop_last(), key)
            },
            _ => nested_num_value(ns.drop_last(), key),
        }
    }
}

/// The value of `key` in the attributes `#[name(...)]`: the one written last.
pub open spec fn attr_str_value(attrs: Seq<Attribute>, name: Seq<char>, key: Seq<char>) -> Option<Seq<char>>
    decreases attrs.len(),
{
    if attrs.len() == 0 {
        None
    } else {
        let here = match attrs.last().meta {
            AttrMeta::List(ns) => if attrs.last().is_named(name) {
                nested_str_value(ns@, key)
            } else {
                None
            },
            _ => None,
        };
        if here is Some {
            here
        } else {
            attr_str_value(attrs.drop_last(), name, key)
        }
    }
}

/// The value of `key`, a string or an integer, in the attributes `#[name(...)]`:
/// the one written last.
pub open spec fn attr_num_value(attrs: Seq<Attribute>, name: Seq<char>, key: Seq<char>) -> Option<Seq<char>>
    decreases attrs.len(),
{
    if attrs.len() == 0 {
        None
    } else {
        let here = match attrs.last().meta {
            AttrMeta::List(ns) => if attrs.last().is_named(name) {
                nested_num_value(ns@, key)
            } else {
                None
            },
            _ => None,
        };
        if here is Some {
            here
        } else {
            attr_num_value(attrs.drop_last(), name, key)
        }
    }
}

/// An attribute `#[name]` or `#[name(...)]` is written.
pub open spec fn attr_written(attrs: Seq<Attribute>, name: Seq<char>) -> bool {
    exists|i: int| 0 <= i < attrs.len() && #[trigger] attrs[i].is_named(name)
        && (attrs[i].meta is Path || attrs[i].meta is List)
}

/// A bare attribute `#[name]` is written.
pub open spec fn attr_path_written(attrs: Seq<Attribute>, name: Seq<char>) -> bool {
    exists|i: int| 0 <= i < attrs.len() && #[trigger] attrs[i].is_named(name) && attrs[i].meta is Path
}

/// The value of `key` in a list of options; see `nested_str_value`.
fn find_nested(ns: &Vec<NestedMeta>, key: &str, numbers: bool) -> (r: Option<String>)
    ensures
        ov(r) == if numbers { nested_num_value(ns@, key@) } else { nested_str_value(ns@, key@) },
{
    let mut r: Option<String> = None;
    let mut i: usize = 0;
    assert(ns@.subrange(0, 0) =~= Seq::<NestedMeta>::empty());
    while i < ns.len()
        invariant
            i <= ns.len(),
            ov(r) == if numbers { nested_num_value(ns@.subrange(0, i as int), key@) } else { nested_str_value(ns@.subrange(0, i as int), key@) },
        decreases ns.len() - i,
    {
        assert(ns@.subrange(0, i + 1).drop_last() =~= ns@.subrange(0, i as int));
        assert(ns@.subrange(0, i + 1).last() == ns@[i as int]);
        match &ns[i] {
            NestedMeta::NameValue(p, Lit::Str(v)) => {
                if let Some((true, _)) = path_ident_equals(p, key) {
                    r = Some(v.clone());
                }
            },
            NestedMeta::NameValue(p, Lit::Int(v)) => {
                if numbers {
                    if let Some((true, _)) = path_ident_equals(p, key) {
                        r = Some(v.clone());
                    }
                }
            },
            _ => {},
        }
        i = i + 1;
    }
    assert(ns@.subrange(0, ns.len() as int) =~= ns@);
    r
}

/// The value of `key` in the attributes `#[name(...)]`; see `attr_str_value`
/// and, with `numbers`, `attr_num_value`.
pub fn find_attr_value(attrs: &Vec<Attribute>, name: &str, key: &str, numbers: bool) -> (r: Option<String>)
    ensures
        ov(r) == if numbers { attr_num_value(attrs@, name@, key@) } else { attr_str_value(attrs@, name@, key@) },
{
    let mut r: Option<String> = None;
    let mut i: usize = 0;
    assert(attrs@.subrange(0, 0) =~= Seq::<Attribute>::empty());
    while i < attrs.len()
        invariant
            i <= attrs.len(),
            ov(r) == if numbers { attr_num_value(attrs@.subrange(0, i as int), name@, key@) } else { attr_str_value(attrs@.subrange(0, i as int), name@, key@) },
        decreases attrs.len() - i,
    {
        assert(attrs@.subrange(0, i + 1).drop_last() =~= attrs@.subrange(0, i as int));
        assert(attrs@.subrange(0, i + 1).last() == attrs@[i as int]);
        if let AttrMeta::List(ns) = &attrs[i].meta {
            if let Some((true, _)) = path_ident_equals(&attrs[i].path, name) {
                assert(attrs@[i as int].is_named(name@));
                let v = find_nested(ns, key, numbers);
                if v.is_some() {
                    r = v;
                }
            }
        }
        i = i + 1;
    }
    assert(attrs@.subrange(0, attrs.len() as int) =~= attrs@);
    r
}

/// Whether `#[name]` or `#[name(...)]` is written.
pub fn is_attr_written(attrs: &Vec<Attribute>, name: &str) -> (r: bool)
    ensures
        r == attr_written(attrs@, name@),
{
    let mut i: usize = 0;
    while i < attrs.len()
        invariant
            i <= attrs.len(),
            forall|j: int| 0 <= j < i ==> !(#[trigger] attrs@[j].is_named(name@) && (attrs@[j].meta is Path || attrs@[j].meta is List)),
        decreases attrs.len() - i,
    {
        let kind = match &attrs[i].meta {
            AttrMeta::Path => true,
            AttrMeta::List(_) => true,
            _ => false,
        };
        if kind {
            if let Some((true, _)) = path_ident_equals(&attrs[i].path, name) {
                assert(attrs@[i as int].is_named(name@));
                return true;
            }
        }
        i = i + 1;
    }
    false
}

/// Whether a bare `#[name]` is written.
pub fn is_path_attr_written(attrs: &Vec<Attribute>, name: &str) -> (r: bool)
    ensures
        r == attr_path_written(attrs@, name@),
{
    let mut i: usize = 0;
    while i < attrs.len()
        invariant
            i <= attrs.len(),
            forall|j: int| 0 <= j < i ==> !(#[trigger] attrs@[j].is_named(name@) && attrs@[j].meta is Path),
        decreases attrs.len() - i,
    {
        if let AttrMeta::Path = &attrs[i].meta {
            if let Some((true, _)) = path_ident_equals(&attrs[i].path, name) {
                assert(attrs@[i as int].is_named(name@));
                return true;
            }
        }
        i = i + 1;
    }
    false
}

} // verus!
