use vstd::prelude::*;
use vstd::string::*;

use crate::model::{Attribute, FieldDecl, simple_attrs};
use crate::text::{contains_str, str_eq, views};

verus! {

/// Some attribute of the list is named `n`.
pub open spec fn has_attr(attrs: Seq<Attribute>, n: Seq<char>) -> bool {
    exists|i: int| 0 <= i < attrs.len() && #[trigger] attrs[i].is_named(n)
}

/// Some attribute of the list has its name among `names`.
pub open spec fn has_any_attr(attrs: Seq<Attribute>, names: Seq<Seq<char>>) -> bool {
    exists|i: int| 0 <= i < attrs.len() && names.contains(#[trigger] attrs[i].name())
}

/// Every attribute of the list has its name among `names`.
pub open spec fn has_only_attrs(attrs: Seq<Attribute>, names: Seq<Seq<char>>) -> bool {
    forall|i: int| 0 <= i < attrs.len() ==> names.contains(#[trigger] attrs[i].name())
}

/// When the path is a single identifier: whether it is `i`, and the identifier.
pub fn path_ident_equals(path: &Vec<String>, i: &str) -> (r: Option<(bool, String)>)
    ensures
        path@.len() == 1 ==> (r matches Some((b, id)) && b == (path@[0]@ == i@) && id@ == path@[0]@),
        path@.len() != 1 ==> r is None,
{
    if path.len() == 1 {
        let id = path[0].clone();
        Some((str_eq(id.as_str(), i), id))
    } else {
        None
    }
}

/// Whether an attribute of the field is named `attribute_derive_name`.
pub fn has_attribute(field: &FieldDecl, attribute_derive_name: &str) -> (r: bool)
    ensures
        r == has_attr(field.attrs@, attribute_derive_name@),
{
    attrs_have(&field.attrs, attribute_derive_name)
}

/// Whether an attribute of the list is named `name`.
pub fn attrs_have(attrs: &Vec<Attribute>, name: &str) -> (r: bool)
    ensures
        r == has_attr(attrs@, name@),
{
    let mut i: usize = 0;
    while i < attrs.len()
        invariant
            i <= attrs.len(),
            forall|j: int| 0 <= j < i ==> !(#[trigger] attrs@[j].is_named(name@)),
        decreases attrs.len() - i,
    {
        if let Some((true, _)) = path_ident_equals(&attrs[i].path, name) {
            assert(attrs@[i as int].is_named(name@));
            return true;
        }
        i = i + 1;
    }
    false
}

/// Whether an attribute of the field has its name among `attribute_derive_names`.
pub fn has_any_attribute(field: &FieldDecl, attribute_derive_names: &Vec<String>) -> (r: bool)
    requires
        field.simple(),
    ensures
        r == has_any_attr(field.attrs@, views(attribute_derive_names@)),
{
    let attrs = &field.attrs;
    let mut i: usize = 0;
    while i < attrs.len()
        invariant
            i <= attrs.len(),
            attrs == &field.attrs,
            simple_attrs(attrs@),
            forall|j: int|
                0 <= j < i ==> !views(attribute_derive_names@).contains(#[trigger] attrs@[j].name()),
        decreases attrs.len() - i,
    {
        assert(attrs@[i as int].is_simple());
        if contains_str(attribute_derive_names, attrs[i].path[0].as_str()) {
            assert(views(attribute_derive_names@).contains(attrs@[i as int].name()));
            return true;
        }
        i = i + 1;
    }
    false
}

/// Whether every attribute of the field has its name among `attribute_derive_names`.
pub fn has_only_attributes(field: &FieldDecl, attribute_derive_names: &Vec<String>) -> (r: bool)
    requires
        field.simple(),
    ensures
        r == has_only_attrs(field.attrs@, views(attribute_derive_names@)),
{
    let attrs = &field.attrs;
    let mut i: usize = 0;
    while i < attrs.len()
        invariant
            i <= attrs.len(),
            attrs == &field.attrs,
            simple_attrs(attrs@),
            forall|j: int|
                0 <= j < i ==> views(attribute_derive_names@).contains(#[trigger] attrs@[j].name()),
        decreases attrs.len() - i,
    {
        assert(attrs@[i as int].is_simple());
        if !contains_str(attribute_derive_names, attrs[i].path[0].as_str()) {
            assert(!views(attribute_derive_names@).contains(attrs@[i as int].name()));
            return false;
        }
        i = i + 1;
    }
    true
}

/// Whether no attribute of the field has its name among `attribute_derive_names`.
pub fn has_none_attribute(field: &FieldDecl, attribute_derive_names: &Vec<String>) -> (r: bool)
    requires
        field.simple(),
    ensures
        r == !has_any_attr(field.attrs@, views(attribute_derive_names@)),
{
    !has_any_attribute(field, attribute_derive_names)
}

/// The name of a field.
pub fn get_field_ident(f: &FieldDecl) -> (r: String)
    requires
        f.named(),
    ensures
        r@ == f.name(),
{
    match &f.ident {
        Some(s) => s.clone(),
        None => String::new(),
    }
}

/// A list of two names.
pub fn names2(a: &str, b: &str) -> (r: Vec<String>)
    ensures
        views(r@) == seq![a@, b@],
{
    let mut v: Vec<String> = Vec::new();
    v.push(String::from_str(a));
    v.push(String::from_str(b));
    assert(views(v@) =~= seq![a@, b@]);
    v
}

} // verus!
