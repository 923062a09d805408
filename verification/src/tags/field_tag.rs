use vstd::prelude::*;
use vstd::string::*;

use crate::constants::{
    COLUMN_NAME, EXPECT_LIT_BOOL, EXPECT_LIT_STR, EXPECT_NON_EMPTY_LIT, INF_SIGN, INVALID_FIELD_TAG,
    LINK_PROPERTY, PARAM, SCALAR, SUP_SIGN,
};
use crate::error::MacroError;
use crate::model::{FieldDecl, Lit};
use crate::tags::utils::{
    column_name_spec, get_column_name, link_property_check, validate_link_property,
};
use crate::text::{
    copy_opt, ends_with_char, ov, starts_with_char, str_ends_with_char, str_eq, str_is_empty,
    str_starts_with_char,
};
use crate::type_utils::{
    get_scalar, match_scalar, match_scalar_spec, scalar_defined, scalar_of,
};
use crate::attributes_utils::get_field_ident;

verus! {

/// What `#[field(...)]` says of a field of a query.
pub struct FieldTag {
    pub column_name: String,
    pub parameter_label: String,
    pub scalar_type: String,
}

/// The mathematical form of a `FieldTag`.
pub struct FieldTagV {
    pub column_name: Seq<char>,
    pub parameter_label: Seq<char>,
    pub scalar_type: Seq<char>,
}

impl View for FieldTag {
    type V = FieldTagV;

    open spec fn view(&self) -> FieldTagV {
        FieldTagV {
            column_name: self.column_name@,
            parameter_label: self.parameter_label@,
            scalar_type: self.scalar_type@,
        }
    }
}

impl FieldTag {
    /// A copy of the tag.
    pub fn copy(&self) -> (r: FieldTag)
        ensures
            r@ == self@,
    {
        FieldTag {
            column_name: self.column_name.clone(),
            parameter_label: self.parameter_label.clone(),
            scalar_type: self.scalar_type.clone(),
        }
    }
}

/// One option written in `#[field(...)]`.
pub enum FieldTagOptions {
    ColumnName(String),
    ParameterLabel(String),
    ScalarType(String),
    LinkProperty(bool),
}

/// The mathematical form of a `FieldTagOptions`.
pub enum FieldOptionV {
    ColumnName(Seq<char>),
    ParameterLabel(Seq<char>),
    ScalarType(Seq<char>),
    LinkProperty(bool),
}

impl View for FieldTagOptions {
    type V = FieldOptionV;

    open spec fn view(&self) -> FieldOptionV {
        match self {
            FieldTagOptions::ColumnName(s) => FieldOptionV::ColumnName(s@),
            FieldTagOptions::ParameterLabel(s) => FieldOptionV::ParameterLabel(s@),
            FieldTagOptions::ScalarType(s) => FieldOptionV::ScalarType(s@),
            FieldTagOptions::LinkProperty(b) => FieldOptionV::LinkProperty(*b),
        }
    }
}

/// The option that `name = lit` stands for in `#[field(...)]`, or the error.
pub open spec fn field_option_spec(name: Seq<char>, lit: Lit) -> Result<FieldOptionV, Seq<char>> {
    match lit {
        Lit::Str(v) => if v@.len() == 0 {
            Err(EXPECT_NON_EMPTY_LIT@)
        } else if name == COLUMN_NAME@ {
            Ok(FieldOptionV::ColumnName(v@))
        } else if name == PARAM@ {
            Ok(FieldOptionV::ParameterLabel(v@))
        } else if name == SCALAR@ {
            Ok(FieldOptionV::ScalarType(v@))
        } else if name == LINK_PROPERTY@ {
            Err(EXPECT_LIT_BOOL@)
        } else {
            Err(INVALID_FIELD_TAG@)
        },
        Lit::Bool(b) => if name == LINK_PROPERTY@ {
            Ok(FieldOptionV::LinkProperty(b))
        } else if name == COLUMN_NAME@ || name == PARAM@ || name == SCALAR@ {
            Err(EXPECT_LIT_STR@)
        } else {
            Err(INVALID_FIELD_TAG@)
        },
        _ => Err(INVALID_FIELD_TAG@),
    }
}

impl FieldTagOptions {
    /// Reads one `name = lit` option of `#[field(...)]`.
    pub fn try_from(path: &Vec<String>, lit: &Lit) -> (r: Result<FieldTagOptions, MacroError>)
        requires
            path@.len() == 1,
        ensures
            match r {
                Ok(o) => field_option_spec(path@[0]@, *lit) == Ok::<FieldOptionV, Seq<char>>(o@),
                Err(e) => field_option_spec(path@[0]@, *lit) == Err::<FieldOptionV, Seq<char>>(e.message@),
            },
    {
        let name = path[0].as_str();
        match lit {
            Lit::Str(value) => {
                if str_is_empty(value.as_str()) {
                    return Err(MacroError::new(EXPECT_NON_EMPTY_LIT));
                }
                if str_eq(name, COLUMN_NAME) {
                    Ok(FieldTagOptions::ColumnName(value.clone()))
                } else if str_eq(name, PARAM) {
                    Ok(FieldTagOptions::ParameterLabel(value.clone()))
                } else if str_eq(name, SCALAR) {
                    Ok(FieldTagOptions::ScalarType(value.clone()))
                } else if str_eq(name, LINK_PROPERTY) {
                    Err(MacroError::new(EXPECT_LIT_BOOL))
                } else {
                    Err(MacroError::new(INVALID_FIELD_TAG))
                }
            },
            Lit::Bool(b) => {
                if str_eq(name, LINK_PROPERTY) {
                    Ok(FieldTagOptions::LinkProperty(*b))
                } else if str_eq(name, COLUMN_NAME) || str_eq(name, PARAM) || str_eq(name, SCALAR) {
                    Err(MacroError::new(EXPECT_LIT_STR))
                } else {
                    Err(MacroError::new(INVALID_FIELD_TAG))
                }
            },
            _ => Err(MacroError::new(INVALID_FIELD_TAG)),
        }
    }
}

/// Collects the options of `#[field(...)]`.
pub struct FieldTagBuilder {
    pub column_name: Option<String>,
    pub parameter_label: Option<String>,
    pub scalar_type: Option<String>,
    pub link_property: Option<bool>,
}

/// The mathematical form of a `FieldTagBuilder`.
pub struct FieldTagBuilderV {
    pub column_name: Option<Seq<char>>,
    pub parameter_label: Option<Seq<char>>,
    pub scalar_type: Option<Seq<char>>,
    pub link_property: Option<bool>,
}

impl View for FieldTagBuilder {
    type V = FieldTagBuilderV;

    open spec fn view(&self) -> FieldTagBuilderV {
        FieldTagBuilderV {
            column_name: ov(self.column_name),
            parameter_label: ov(self.parameter_label),
            scalar_type: ov(self.scalar_type),
            link_property: self.link_property,
        }
    }
}

impl FieldTagBuilderV {
    /// The builder after one more option; a later option replaces an earlier one.
    pub open spec fn with(self, o: FieldOptionV) -> FieldTagBuilderV {
        match o {
            FieldOptionV::ColumnName(v) => FieldTagBuilderV { column_name: Some(v), ..self },
            FieldOptionV::ParameterLabel(v) => FieldTagBuilderV { parameter_label: Some(v), ..self },
            FieldOptionV::ScalarType(v) => FieldTagBuilderV { scalar_type: Some(v), ..self },
            FieldOptionV::LinkProperty(b) => FieldTagBuilderV { link_property: Some(b), ..self },
        }
    }

    /// The builder with nothing set.
    pub open spec fn empty() -> FieldTagBuilderV {
        FieldTagBuilderV { column_name: None, parameter_label: None, scalar_type: None, link_property: None }
    }
}

/// A scalar written on a field, with the angle brackets it lacks added.
pub open spec fn bracketed(s: Seq<char>) -> Seq<char> {
    let s1 = if starts_with_char(s, '<') {
        s
    } else {
        INF_SIGN@ + s
    };
    if ends_with_char(s1, '>') {
        s1
    } else {
        s1 + SUP_SIGN@
    }
}

/// The tag that a builder yields for a field named `name` of type `ty`, or the error.
pub open spec fn field_tag_spec(b: FieldTagBuilderV, name: Seq<char>, ty: crate::model::TypeV) -> Result<FieldTagV, Seq<char>> {
    match link_property_check(b.column_name, b.link_property) {
        Err(m) => Err(m),
        Ok(_) => {
            let scalar: Result<Seq<char>, Seq<char>> = match b.scalar_type {
                Some(s) => match match_scalar_spec(ty, s) {
                    Err(m) => Err(m),
                    Ok(_) => Ok(bracketed(s)),
                },
                None => scalar_of(ty),
            };
            match scalar {
                Err(m) => Err(m),
                Ok(sc) => Ok(
                    FieldTagV {
                        column_name: column_name_spec(b.column_name, b.link_property, name),
                        parameter_label: match b.parameter_label {
                            Some(p) => p,
                            None => name,
                        },
                        scalar_type: sc,
                    },
                ),
            }
        },
    }
}

/// The tag that a builder yields for a nested-query field named `name`: no
/// scalar cast is looked up for it.
pub open spec fn nested_field_tag_spec(b: FieldTagBuilderV, name: Seq<char>) -> Result<FieldTagV, Seq<char>> {
    match link_property_check(b.column_name, b.link_property) {
        Err(m) => Err(m),
        Ok(_) => Ok(
            FieldTagV {
                column_name: column_name_spec(b.column_name, b.link_property, name),
                parameter_label: match b.parameter_label {
                    Some(p) => p,
                    None => name,
                },
                scalar_type: Seq::empty(),
            },
        ),
    }
}

impl FieldTagBuilder {
    /// The tag for a field that holds a nested query: its column and label, with
    /// no scalar cast.
    pub fn build_nested(&self, field: &FieldDecl) -> (r: Result<FieldTag, MacroError>)
        requires
            field.named(),
        ensures
            match r {
                Ok(t) => nested_field_tag_spec(self@, field.name()) == Ok::<FieldTagV, Seq<char>>(t@),
                Err(e) => nested_field_tag_spec(self@, field.name()) == Err::<FieldTagV, Seq<char>>(e.message@),
            },
    {
        match validate_link_property(&self.column_name, self.link_property, field) {
            Err(e) => return Err(e),
            Ok(_) => {},
        }
        let parameter_label = match &self.parameter_label {
            Some(p) => p.clone(),
            None => get_field_ident(field),
        };
        Ok(FieldTag {
            column_name: get_column_name(&self.column_name, self.link_property, field),
            parameter_label,
            scalar_type: String::new(),
        })
    }

    /// The builder with nothing set.
    pub fn new() -> (r: FieldTagBuilder)
        ensures
            r@ == FieldTagBuilderV::empty(),
    {
        FieldTagBuilder { column_name: None, parameter_label: None, scalar_type: None, link_property: None }
    }

    /// The names of the attributes that this builder reads.
    pub fn tag_names(&self) -> (r: Vec<String>)
        ensures
            crate::text::views(r@) == seq![crate::constants::FIELD@],
    {
        let mut v: Vec<String> = Vec::new();
        v.push(String::from_str(crate::constants::FIELD));
        assert(crate::text::views(v@) =~= seq![crate::constants::FIELD@]);
        v
    }

    /// Takes one `name = lit` option of `#[field(...)]`.
    pub fn arg(&mut self, path: &Vec<String>, lit: &Lit) -> (r: Result<(), MacroError>)
        requires
            path@.len() == 1,
        ensures
            match field_option_spec(path@[0]@, *lit) {
                Ok(o) => r is Ok && final(self)@ == old(self)@.with(o),
                Err(m) => r matches Err(e) && e.message@ == m && final(self)@ == old(self)@,
            },
    {
        let option = FieldTagOptions::try_from(path, lit);
        match option {
            Err(e) => Err(e),
            Ok(FieldTagOptions::ColumnName(v)) => {
                self.column_name = Some(v);
                Ok(())
            },
            Ok(FieldTagOptions::ParameterLabel(v)) => {
                self.parameter_label = Some(v);
                Ok(())
            },
            Ok(FieldTagOptions::ScalarType(v)) => {
                self.scalar_type = Some(v);
                Ok(())
            },
            Ok(FieldTagOptions::LinkProperty(v)) => {
                self.link_property = Some(v);
                Ok(())
            },
        }
    }

    /// The tag for `field`: its column, its parameter label and its scalar cast.
    pub fn build(&self, field: &FieldDecl) -> (r: Result<FieldTag, MacroError>)
        requires
            field.named(),
            scalar_defined(field.ty@),
        ensures
            match r {
                Ok(t) => field_tag_spec(self@, field.name(), field.ty@) == Ok::<FieldTagV, Seq<char>>(t@),
                Err(e) => field_tag_spec(self@, field.name(), field.ty@) == Err::<FieldTagV, Seq<char>>(e.message@),
            },
    {
        match validate_link_property(&self.column_name, self.link_property, field) {
            Err(e) => return Err(e),
            Ok(_) => {},
        }
        let scalar_type = match &self.scalar_type {
            Some(scalar) => {
                match match_scalar(&field.ty, scalar.as_str()) {
                    Err(e) => return Err(e),
                    Ok(_) => {},
                }
                let mut s = if str_starts_with_char(scalar.as_str(), '<') {
                    scalar.clone()
                } else {
                    let mut t = String::from_str(INF_SIGN);
                    t.append(scalar.as_str());
                    t
                };
                if !str_ends_with_char(s.as_str(), '>') {
                    s.append(SUP_SIGN);
                }
                s
            },
            None => match get_scalar(&field.ty) {
                Ok(s) => s,
                Err(e) => return Err(e),
            },
        };
        let parameter_label = match &self.parameter_label {
            Some(p) => p.clone(),
            None => get_field_ident(field),
        };
        Ok(FieldTag {
            column_name: get_column_name(&self.column_name, self.link_property, field),
            parameter_label,
            scalar_type,
        })
    }
}

} // verus!
