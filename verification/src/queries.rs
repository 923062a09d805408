use vstd::prelude::*;
use vstd::string::*;

use crate::attributes_utils::{attrs_have, get_field_ident, has_attr, has_only_attributes, has_only_attrs};
use crate::constants::EXPECTED_ONLY_TAGS;
use crate::error::MacroError;
use crate::model::{FieldDecl, RustType, TypeV};
use crate::text::{copy_strings, debug_list, format_debug_list, str_eq, views};

verus! {

/// A field of the struct that a macro reads: its position, name and type.
pub struct QueryField {
    pub index: usize,
    pub ident: String,
    pub ty: RustType,
}

/// The mathematical form of a `QueryField`.
pub struct QueryFieldV {
    pub index: usize,
    pub ident: Seq<char>,
    pub ty: TypeV,
}

impl View for QueryField {
    type V = QueryFieldV;

    open spec fn view(&self) -> QueryFieldV {
        QueryFieldV { index: self.index, ident: self.ident@, ty: self.ty@ }
    }
}

/// The message for a field that carries attributes other than `tags`.
pub open spec fn only_tags_message(tags: Seq<Seq<char>>) -> Seq<char> {
    EXPECTED_ONLY_TAGS@ + " `"@ + debug_list(tags) + "`"@
}

/// The query field of `field`, when every attribute it carries is among `tags`.
pub open spec fn query_field_spec(field: FieldDecl, tags: Seq<Seq<char>>) -> Result<QueryFieldV, Seq<char>> {
    if has_only_attrs(field.attrs@, tags) {
        Ok(QueryFieldV { index: field.index, ident: field.name(), ty: field.ty@ })
    } else {
        Err(only_tags_message(tags))
    }
}

impl QueryField {
    /// A copy of the field.
    pub fn copy(&self) -> (r: QueryField)
        ensures
            r@ == self@,
    {
        QueryField { index: self.index, ident: self.ident.clone(), ty: self.ty.copy() }
    }

    /// The query field of `field`; it may carry no attribute outside `tags`.
    pub fn try_from(field: &FieldDecl, tags: &Vec<String>) -> (r: Result<QueryField, MacroError>)
        requires
            field.simple(),
            field.named(),
        ensures
            match r {
                Ok(q) => query_field_spec(*field, views(tags@)) == Ok::<QueryFieldV, Seq<char>>(q@),
                Err(e) => query_field_spec(*field, views(tags@)) == Err::<QueryFieldV, Seq<char>>(e.message@),
            },
    {
        if has_only_attributes(field, tags) {
            Ok(QueryField { index: field.index, ident: get_field_ident(field), ty: field.ty.copy() })
        } else {
            let d = format_debug_list(tags);
            let mut m = String::from_str(EXPECTED_ONLY_TAGS);
            m.append(" `");
            m.append(d.as_str());
            m.append("`");
            Err(MacroError { message: m })
        }
    }
}

/// The label at `i` occurs elsewhere in the list too.
pub open spec fn label_repeated(labels: Seq<Seq<char>>, i: int) -> bool {
    exists|j: int| 0 <= j < labels.len() && j != i && labels[j] == labels[i]
}

/// No two labels of the list are equal.
pub open spec fn labels_distinct(labels: Seq<Seq<char>>) -> bool {
    forall|i: int, j: int| 0 <= i < labels.len() && 0 <= j < labels.len() && i != j ==> labels[i] != labels[j]
}

/// The message for a label given to two parameters.
pub open spec fn duplicate_message(label: Seq<char>) -> Seq<char> {
    "Duplicate parameter label `"@ + label + "`"@
}

/// The labels of a list of (field name, parameter label) pairs.
pub open spec fn labels_of(params: Seq<(String, String)>) -> Seq<Seq<char>> {
    params.map_values(|p: (String, String)| p.1@)
}

/// The label at `k` is repeated and no label before it is.
pub open spec fn is_first_repeated(labels: Seq<Seq<char>>, k: int) -> bool {
    0 <= k < labels.len() && label_repeated(labels, k) && forall|j: int| 0 <= j < k ==> !label_repeated(labels, j)
}

/// Accepts labels that are all distinct; refuses others with the message about
/// the first label, in the order of the list, that is repeated.
pub open spec fn duplicate_check_spec(labels: Seq<Seq<char>>) -> Result<(), Seq<char>> {
    if labels_distinct(labels) {
        Ok(())
    } else {
        Err(duplicate_message(labels[choose|k: int| is_first_repeated(labels, k)]))
    }
}

/// `k` is the first repeated label and `m` the message about it.
pub open spec fn e_witness(params: Seq<(String, String)>, k: int, m: Seq<char>) -> bool {
    0 <= k < params.len() && label_repeated(labels_of(params), k)
        && (forall|j: int| 0 <= j < k ==> !label_repeated(labels_of(params), j))
        && m == duplicate_message(labels_of(params)[k])
}

/// `m` is the message about the first repeated label of the list.
pub open spec fn duplicate_error(params: Seq<(String, String)>, m: Seq<char>) -> bool {
    exists|k: int| #[trigger] e_witness(params, k, m)
}

/// Refuses two parameters with the same label; the error names the first label,
/// in the order of the list, that is repeated.
pub fn check_duplicate_parameter_labels(params: &Vec<(String, String)>) -> (r: Result<(), MacroError>)
    ensures
        r is Ok <==> labels_distinct(labels_of(params@)),
        r matches Err(e) ==> duplicate_error(params@, e.message@),
        match r {
            Ok(_) => duplicate_check_spec(labels_of(params@)) is Ok,
            Err(e) => duplicate_check_spec(labels_of(params@)) == Err::<(), Seq<char>>(e.message@),
        },
{
    let ghost labels = labels_of(params@);
    let mut i: usize = 0;
    while i < params.len()
        invariant
            i <= params.len(),
            labels == labels_of(params@),
            forall|j: int| 0 <= j < i ==> !label_repeated(labels, j),
        decreases params.len() - i,
    {
        let mut found = false;
        let mut k: usize = 0;
        while k < params.len()
            invariant
                k <= params.len(),
                i < params.len(),
                labels == labels_of(params@),
                found <==> exists|j: int| 0 <= j < k && j != i && labels[j] == labels[i as int],
            decreases params.len() - k,
        {
            if k != i && params[k].1 == params[i].1 {
                assert(labels[k as int] == labels[i as int]);
                found = true;
            }
            k = k + 1;
        }
        if found {
            let mut m = String::from_str("Duplicate parameter label `");
            m.append(params[i].1.as_str());
            m.append("`");
            assert(labels[i as int] == params@[i as int].1@);
            assert(label_repeated(labels, i as int));
            let err = MacroError { message: m };
            assert(e_witness(params@, i as int, err.message@));
            assert(duplicate_error(params@, err.message@));
            proof {
                assert(is_first_repeated(labels, i as int));
                let c = choose|k: int| is_first_repeated(labels, k);
                assert(is_first_repeated(labels, c));
                if c < i {
                    assert(!label_repeated(labels, c));
                } else if c > i {
                    assert(!label_repeated(labels, i as int));
                }
                assert(c == i);
                assert(!labels_distinct(labels));
            }
            return Err(err);
        }
        i = i + 1;
    }
    assert forall|a: int, b: int| 0 <= a < labels.len() && 0 <= b < labels.len() && a != b implies labels[a] != labels[b] by {
        assert(!label_repeated(labels, a));
    }
    Ok(())
}


/// The fields of the list that carry an attribute named `name`, in their order.
pub open spec fn fields_with_attr(fields: Seq<FieldDecl>, name: Seq<char>) -> Seq<FieldDecl>
    decreases fields.len(),
{
    if fields.len() == 0 {
        Seq::empty()
    } else if has_attr(fields.last().attrs@, name) {
        fields_with_attr(fields.drop_last(), name).push(fields.last())
    } else {
        fields_with_attr(fields.drop_last(), name)
    }
}

/// The fields found in a prefix are found, in the same places, in the whole list.
pub proof fn lemma_fields_with_attr_grow(fields: Seq<FieldDecl>, name: Seq<char>, i: int)
    requires
        0 <= i <= fields.len(),
    ensures
        fields_with_attr(fields.subrange(0, i), name).len() <= fields_with_attr(fields, name).len(),
        forall|j: int| 0 <= j < fields_with_attr(fields.subrange(0, i), name).len()
            ==> fields_with_attr(fields, name)[j] == #[trigger] fields_with_attr(fields.subrange(0, i), name)[j],
    decreases fields.len() - i,
{
    if i < fields.len() {
        let s1 = fields.subrange(0, i + 1);
        assert(s1.drop_last() =~= fields.subrange(0, i));
        lemma_fields_with_attr_grow(fields, name, i + 1);
        assert forall|j: int| 0 <= j < fields_with_attr(fields.subrange(0, i), name).len()
            implies fields_with_attr(fields, name)[j] == #[trigger] fields_with_attr(fields.subrange(0, i), name)[j] by {
            assert(fields_with_attr(s1, name)[j] == fields_with_attr(fields.subrange(0, i), name)[j]);
        }
    } else {
        assert(fields.subrange(0, i) =~= fields);
    }
}

/// The position of the one field that carries an attribute named `name`: `None`
/// when no field does, an error when two or more do.
pub fn single_field_with(fields: &Vec<FieldDecl>, name: &str) -> (r: Result<Option<usize>, ()>)
    ensures
        match r {
            Err(_) => fields_with_attr(fields@, name@).len() > 1,
            Ok(None) => fields_with_attr(fields@, name@).len() == 0,
            Ok(Some(j)) => fields_with_attr(fields@, name@).len() == 1 && j < fields.len()
                && fields_with_attr(fields@, name@)[0] == fields@[j as int],
        },
{
    let mut first: Option<usize> = None;
    let mut i: usize = 0;
    assert(fields@.subrange(0, 0) =~= Seq::<FieldDecl>::empty());
    while i < fields.len()
        invariant
            i <= fields.len(),
            match first {
                None => fields_with_attr(fields@.subrange(0, i as int), name@).len() == 0,
                Some(j) => fields_with_attr(fields@.subrange(0, i as int), name@).len() == 1 && j < i
                    && fields_with_attr(fields@.subrange(0, i as int), name@)[0] == fields@[j as int],
            },
        decreases fields.len() - i,
    {
        assert(fields@.subrange(0, i + 1).drop_last() =~= fields@.subrange(0, i as int));
        assert(fields@.subrange(0, i + 1).last() == fields@[i as int]);
        if attrs_have(&fields[i].attrs, name) {
            if first.is_some() {
                proof {
                    assert(fields_with_attr(fields@.subrange(0, i + 1), name@).len() == 2);
                    lemma_fields_with_attr_grow(fields@, name@, i + 1);
                }
                return Err(());
            }
            first = Some(i);
        }
        i = i + 1;
    }
    assert(fields@.subrange(0, fields.len() as int) =~= fields@);
    Ok(first)
}

} // verus!
