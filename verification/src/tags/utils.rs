use vstd::prelude::*;
use vstd::string::*;

use crate::constants::{AT, LINK_PROPERTY_NAME};
use crate::error::MacroError;
use crate::model::FieldDecl;
use crate::text::{ov, starts_with_char, str_starts_with_char};
use crate::attributes_utils::get_field_ident;

verus! {

/// A column that is not a link property may not have a name beginning with `@`.
pub open spec fn link_property_check(column_name: Option<Seq<char>>, link_property: Option<bool>) -> Result<(), Seq<char>> {
    match (column_name, link_property) {
        (Some(c), Some(false)) => if starts_with_char(c, '@') {
            Err(LINK_PROPERTY_NAME@)
        } else {
            Ok(())
        },
        _ => Ok(()),
    }
}

/// The column of a field: the given name or the field's own, with a leading `@`
/// when it is a link property.
pub open spec fn column_name_spec(column_name: Option<Seq<char>>, link_property: Option<bool>, field_name: Seq<char>) -> Seq<char> {
    let c = match column_name {
        Some(c) => c,
        None => field_name,
    };
    if link_property == Some(true) {
        if starts_with_char(c, '@') {
            c
        } else {
            AT@ + c
        }
    } else {
        c
    }
}

/// Rejects a column name beginning with `@` on a field that is declared not to be
/// a link property.
pub fn validate_link_property(column_name: &Option<String>, link_property: Option<bool>, field: &FieldDecl) -> (r: Result<(), MacroError>)
    ensures
        match r {
            Ok(_) => link_property_check(ov(*column_name), link_property) is Ok,
            Err(e) => link_property_check(ov(*column_name), link_property) == Err::<(), Seq<char>>(e.message@),
        },
{
    match (column_name, link_property) {
        (Some(c), Some(false)) => {
            if str_starts_with_char(c.as_str(), '@') {
                Err(MacroError::new(LINK_PROPERTY_NAME))
            } else {
                Ok(())
            }
        },
        _ => Ok(()),
    }
}

/// The column name of a field.
pub fn get_column_name(column_name: &Option<String>, link_property: Option<bool>, field: &FieldDecl) -> (r: String)
    requires
        field.named(),
    ensures
        r@ == column_name_spec(ov(*column_name), link_property, field.name()),
{
    let fname = get_field_ident(field);
    let c = match column_name {
        Some(c) => c.clone(),
        None => fname,
    };
    match link_property {
        Some(true) => {
            if str_starts_with_char(c.as_str(), '@') {
                c
            } else {
                let mut s = String::from_str(AT);
                s.append(c.as_str());
                s
            }
        },
        _ => c,
    }
}

} // verus!
