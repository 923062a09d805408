use vstd::prelude::*;
use vstd::string::*;

use crate::attributes_utils::{has_attr, has_attribute};
use crate::constants::{
    COLUMN_NAME, DEFAULT_VALUE, EXPECT_LIT_BOOL, EXPECT_LIT_STR, EXPECT_NON_EMPTY_LIT, FIELD,
    INVALID_FIELD_TAG, INVALID_RESULT_FIELD_TAG, LINK_PROPERTY, SCALAR_TYPE, WRAPPER_FN,
};
use crate::error::MacroError;
use crate::model::{FieldDecl, Lit};
use crate::text::{copy_opt, ov, remove_chars, str_eq, str_is_empty, views, without_chars};

verus! {

/// What `#[field(...)]` says of a field of a query result.
pub struct ResultFieldTag {
    pub column_name: Option<String>,
    pub wrapper_fn: Option<String>,
    pub default_value: Option<String>,
    pub link_property: bool,
}

/// A name read through a link property gets a leading `@`.
pub open spec fn apply_link(link: bool, s: Seq<char>) -> Seq<char> {
    if link {
        "@"@ + s
    } else {
        s
    }
}

/// The shape element of a result field named `f`: the field itself, a renamed
/// column, or a column passed through a function (whose cast is left as the
/// `$scalar_type$` mark); a default value, if any, follows after `??`.
pub open spec fn result_field_statement(
    column_name: Option<Seq<char>>,
    wrapper_fn: Option<Seq<char>>,
    default_value: Option<Seq<char>>,
    link: bool,
    f: Seq<char>,
) -> Seq<char> {
    let s = match (column_name, wrapper_fn) {
        (Some(column), None) => if column != f {
            f + " := ."@ + apply_link(link, column)
        } else {
            apply_link(link, f)
        },
        (None, Some(w)) => f + " := (select "@ + SCALAR_TYPE@ + w + "(."@ + apply_link(link, f) + "))"@,
        (Some(column), Some(w)) => f + " := (select "@ + SCALAR_TYPE@ + w + "(."@ + apply_link(link, column) + "))"@,
        (None, None) => apply_link(link, f),
    };
    match default_value {
        Some(v) => s + " ?? (select "@ + SCALAR_TYPE@ + "'"@ + v + "')"@,
        None => s,
    }
}

fn link(link_property: bool, s: &str) -> (r: String)
    ensures
        r@ == apply_link(link_property, s@),
{
    if link_property {
        let mut t = String::from_str("@");
        t.append(s);
        t
    } else {
        String::from_str(s)
    }
}

impl ResultFieldTag {
    /// The shape element for the field named `f_name`.
    pub fn build_statement(&self, f_name: &str) -> (r: String)
        ensures
            r@ == result_field_statement(ov(self.column_name), ov(self.wrapper_fn), ov(self.default_value), self.link_property, f_name@),
    {
        let mut s = match (&self.column_name, &self.wrapper_fn) {
            (Some(column), None) => {
                if !str_eq(column.as_str(), f_name) {
                    let mut t = String::from_str(f_name);
                    t.append(" := .");
                    let l = link(self.link_property, column.as_str());
                    t.append(l.as_str());
                    t
                } else {
                    link(self.link_property, f_name)
                }
            },
            (None, Some(w)) => {
                let mut t = String::from_str(f_name);
                t.append(" := (select ");
                t.append(SCALAR_TYPE);
                t.append(w.as_str());
                t.append("(.");
                let l = link(self.link_property, f_name);
                t.append(l.as_str());
                t.append("))");
                t
            },
            (Some(column), Some(w)) => {
                let mut t = String::from_str(f_name);
                t.append(" := (select ");
                t.append(SCALAR_TYPE);
                t.append(w.as_str());
                t.append("(.");
                let l = link(self.link_property, column.as_str());
                t.append(l.as_str());
                t.append("))");
                t
            },
            (None, None) => link(self.link_property, f_name),
        };
        if let Some(v) = &self.default_value {
            s.append(" ?? (select ");
            s.append(SCALAR_TYPE);
            s.append("'");
            s.append(v.as_str());
            s.append("')");
        }
        s
    }
}

/// One option written in `#[field(...)]` on a result field.
pub enum ResultFieldOptionV {
    ColumnName(Seq<char>),
    WrapperFn(Seq<char>),
    DefaultValue(Seq<char>),
    LinkProperty(bool),
}

/// The option that `name = lit` stands for on a result field, or the error.
pub open spec fn result_field_option_spec(name: Seq<char>, lit: Lit) -> Result<ResultFieldOptionV, Seq<char>> {
    match lit {
        Lit::Str(v) => if v@.len() == 0 {
            Err(EXPECT_NON_EMPTY_LIT@)
        } else if name == COLUMN_NAME@ {
            Ok(ResultFieldOptionV::ColumnName(v@))
        } else if name == WRAPPER_FN@ {
            Ok(ResultFieldOptionV::WrapperFn(v@))
        } else if name == DEFAULT_VALUE@ {
            Ok(ResultFieldOptionV::DefaultValue(v@))
        } else if name == LINK_PROPERTY@ {
            Err(EXPECT_LIT_BOOL@)
        } else {
            Err(INVALID_RESULT_FIELD_TAG@)
        },
        Lit::Bool(b) => if name == LINK_PROPERTY@ {
            Ok(ResultFieldOptionV::LinkProperty(b))
        } else if name == COLUMN_NAME@ || name == WRAPPER_FN@ || name == DEFAULT_VALUE@ {
            Err(EXPECT_LIT_STR@)
        } else {
            Err(INVALID_FIELD_TAG@)
        },
        _ => Err(INVALID_FIELD_TAG@),
    }
}

/// One option written in `#[field(...)]` on a result field.
pub enum ResultFieldTagOptions {
    ColumnName(String),
    WrapperFn(String),
    DefaultValue(String),
    LinkProperty(bool),
}

impl View for ResultFieldTagOptions {
    type V = ResultFieldOptionV;

    open spec fn view(&self) -> ResultFieldOptionV {
        match self {
            ResultFieldTagOptions::ColumnName(v) => ResultFieldOptionV::ColumnName(v@),
            ResultFieldTagOptions::WrapperFn(v) => ResultFieldOptionV::WrapperFn(v@),
            ResultFieldTagOptions::DefaultValue(v) => ResultFieldOptionV::DefaultValue(v@),
            ResultFieldTagOptions::LinkProperty(b) => ResultFieldOptionV::LinkProperty(*b),
        }
    }
}

impl ResultFieldTagOptions {
    /// Reads one `name = lit` option of `#[field(...)]` on a result field.
    pub fn try_from(path: &Vec<String>, lit: &Lit) -> (r: Result<ResultFieldTagOptions, MacroError>)
        requires
            path@.len() == 1,
        ensures
            match r {
                Ok(o) => result_field_option_spec(path@[0]@, *lit) == Ok::<ResultFieldOptionV, Seq<char>>(o@),
                Err(e) => result_field_option_spec(path@[0]@, *lit) == Err::<ResultFieldOptionV, Seq<char>>(e.message@),
            },
    {
        let name = path[0].as_str();
        match lit {
            Lit::Str(value) => {
                if str_is_empty(value.as_str()) {
                    return Err(MacroError::new(EXPECT_NON_EMPTY_LIT));
                }
                if str_eq(name, COLUMN_NAME) {
                    Ok(ResultFieldTagOptions::ColumnName(value.clone()))
                } else if str_eq(name, WRAPPER_FN) {
                    Ok(ResultFieldTagOptions::WrapperFn(value.clone()))
                } else if str_eq(name, DEFAULT_VALUE) {
                    Ok(ResultFieldTagOptions::DefaultValue(value.clone()))
                } else if str_eq(name, LINK_PROPERTY) {
                    Err(MacroError::new(EXPECT_LIT_BOOL))
                } else {
                    Err(MacroError::new(INVALID_RESULT_FIELD_TAG))
                }
            },
            Lit::Bool(b) => {
                if str_eq(name, LINK_PROPERTY) {
                    Ok(ResultFieldTagOptions::LinkProperty(*b))
                } else if str_eq(name, COLUMN_NAME) || str_eq(name, WRAPPER_FN) || str_eq(name, DEFAULT_VALUE) {
                    Err(MacroError::new(EXPECT_LIT_STR))
                } else {
                    Err(MacroError::new(INVALID_FIELD_TAG))
                }
            },
            _ => Err(MacroError::new(INVALID_FIELD_TAG)),
        }
    }
}

/// Collects the options of `#[field(...)]` on a result field.
pub struct ResultFieldTagBuilder {
    pub column_name: Option<String>,
    pub wrapper_fn: Option<String>,
    pub default_value: Option<String>,
    pub link_property: Option<bool>,
}

/// The mathematical form of a `ResultFieldTagBuilder`.
pub struct ResultFieldBuilderV {
    pub column_name: Option<Seq<char>>,
    pub wrapper_fn: Option<Seq<char>>,
    pub default_value: Option<Seq<char>>,
    pub link_property: Option<bool>,
}

impl View for ResultFieldTagBuilder {
    type V = ResultFieldBuilderV;

    open spec fn view(&self) -> ResultFieldBuilderV {
        ResultFieldBuilderV {
            column_name: ov(self.column_name),
            wrapper_fn: ov(self.wrapper_fn),
            default_value: ov(self.default_value),
            link_property: self.link_property,
        }
    }
}

impl ResultFieldBuilderV {
    /// The builder after one more option; a wrapper function loses its parentheses.
    pub open spec fn with(self, o: ResultFieldOptionV) -> ResultFieldBuilderV {
        match o {
            ResultFieldOptionV::ColumnName(v) => ResultFieldBuilderV { column_name: Some(v), ..self },
            ResultFieldOptionV::WrapperFn(v) => ResultFieldBuilderV { wrapper_fn: Some(without_chars(v, '(', ')')), ..self },
            ResultFieldOptionV::DefaultValue(v) => ResultFieldBuilderV { default_value: Some(v), ..self },
            ResultFieldOptionV::LinkProperty(b) => ResultFieldBuilderV { link_property: Some(b), ..self },
        }
    }

    /// The builder with nothing set.
    pub open spec fn empty() -> ResultFieldBuilderV {
        ResultFieldBuilderV { column_name: None, wrapper_fn: None, default_value: None, link_property: None }
    }

    /// Nothing is set.
    pub open spec fn all_none(self) -> bool {
        self.column_name is None && self.wrapper_fn is None && self.default_value is None && self.link_property is None
    }
}

/// The message when `#[field]` says nothing.
pub open spec fn empty_field_message() -> Seq<char> {
    "#[field] must have at least column_name, wrapper_fn or link_property attribute"@
}

impl ResultFieldTagBuilder {
    /// The builder with nothing set.
    pub fn new() -> (r: ResultFieldTagBuilder)
        ensures
            r@ == ResultFieldBuilderV::empty(),
    {
        ResultFieldTagBuilder { column_name: None, wrapper_fn: None, default_value: None, link_property: None }
    }

    /// The names of the attributes that this builder reads.
    pub fn tag_names(&self) -> (r: Vec<String>)
        ensures
            views(r@) == seq![FIELD@],
    {
        let mut v: Vec<String> = Vec::new();
        v.push(String::from_str(FIELD));
        assert(views(v@) =~= seq![FIELD@]);
        v
    }

    /// Takes one `name = lit` option of `#[field(...)]`.
    pub fn arg(&mut self, path: &Vec<String>, lit: &Lit) -> (r: Result<(), MacroError>)
        requires
            path@.len() == 1,
        ensures
            match result_field_option_spec(path@[0]@, *lit) {
                Ok(o) => r is Ok && final(self)@ == old(self)@.with(o),
                Err(m) => r matches Err(e) && e.message@ == m && final(self)@ == old(self)@,
            },
    {
        match ResultFieldTagOptions::try_from(path, lit) {
            Err(e) => Err(e),
            Ok(ResultFieldTagOptions::ColumnName(v)) => {
                self.column_name = Some(v);
                Ok(())
            },
            Ok(ResultFieldTagOptions::WrapperFn(v)) => {
                self.wrapper_fn = Some(remove_chars(v.as_str(), '(', ')'));
                Ok(())
            },
            Ok(ResultFieldTagOptions::DefaultValue(v)) => {
                self.default_value = Some(v);
                Ok(())
            },
            Ok(ResultFieldTagOptions::LinkProperty(b)) => {
                self.link_property = Some(b);
                Ok(())
            },
        }
    }

    /// The tag of a result field. A `#[field]` that sets nothing is refused.
    pub fn build(&self, field: &FieldDecl) -> (r: Result<ResultFieldTag, MacroError>)
        ensures
            has_attr(field.attrs@, FIELD@) && self@.all_none() ==> (r matches Err(e) && e.message@ == empty_field_message()),
            !(has_attr(field.attrs@, FIELD@) && self@.all_none()) ==> (r matches Ok(t) && ov(t.column_name) == self@.column_name
                && ov(t.wrapper_fn) == self@.wrapper_fn && ov(t.default_value) == self@.default_value
                && t.link_property == (self@.link_property == Some(true))),
    {
        let all_nones = self.column_name.is_none() && self.wrapper_fn.is_none() && self.default_value.is_none()
            && self.link_property.is_none();
        if has_attribute(field, FIELD) && all_nones {
            Err(MacroError::new("#[field] must have at least column_name, wrapper_fn or link_property attribute"))
        } else {
            Ok(ResultFieldTag {
                column_name: copy_opt(&self.column_name),
                wrapper_fn: copy_opt(&self.wrapper_fn),
                default_value: copy_opt(&self.default_value),
                link_property: match self.link_property {
                    Some(b) => b,
                    None => false,
                },
            })
        }
    }
}

} // verus!
