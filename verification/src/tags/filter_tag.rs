use vstd::prelude::*;
use vstd::string::*;

use crate::attributes_utils::{has_attr, has_attribute};
use crate::constants::{
    AND, AND_FILTER, AND_OR_FILTER_EXPECTED, BANG_EXISTS, EQUAL, EXISTS, EXPECT_NAMED_LIT,
    EXPECT_NON_EMPTY_LIT, EXPECT_OPERATOR, FILTER, FIRST_FILTER_EXPECTED, GREATER_THAN,
    GREATER_THAN_OR_EQUAL, ILIKE, IN, INF_OR_EQ_SIGN, INF_SIGN, INVALID_FILTER_TAG,
    INVALID_OPERATOR, INVALID_TYPE_TUPLE_FOR_OPERATOR, IS, IS_NOT, LESSER_THAN,
    LESSER_THAN_OR_EQUAL, LIKE, NOT_EQUAL, NOT_EXISTS, NOT_IN, ONLY_TYPE_FOR_OPERATOR, OPERATOR, OR,
    OR_FILTER, STRING, SUP_OR_EQ_SIGN, SUP_SIGN, VEC, WRAPPER_FN,
};
use crate::error::MacroError;
use crate::model::{FieldDecl, Lit, RustType, TypeV};
use crate::text::{lower, ov, remove_chars, str_eq, str_is_empty, to_lowercase, without_chars};
use crate::type_utils::{is_type_name, type_is_named};

verus! {

/// The comparison that a filter makes.
#[derive(Clone, Copy, PartialEq, Eq, Structural, Debug)]
pub enum SelectFilterOperator {
    Exists,
    NotExists,
    Is,
    IsNot,
    Like,
    ILike,
    In,
    NotIn,
    GreaterThan,
    LesserThan,
    GreaterThanOrEqual,
    LesserThanOrEqual,
}

/// The EdgeQL text of an operator.
pub open spec fn operator_statement(o: SelectFilterOperator) -> Seq<char> {
    match o {
        SelectFilterOperator::Is => "="@,
        SelectFilterOperator::IsNot => "!="@,
        SelectFilterOperator::Like => "like"@,
        SelectFilterOperator::ILike => "ilike"@,
        SelectFilterOperator::In => "in"@,
        SelectFilterOperator::NotIn => "not in"@,
        SelectFilterOperator::GreaterThan => ">"@,
        SelectFilterOperator::LesserThan => "<"@,
        SelectFilterOperator::GreaterThanOrEqual => ">="@,
        SelectFilterOperator::LesserThanOrEqual => "<="@,
        SelectFilterOperator::Exists => "exists"@,
        SelectFilterOperator::NotExists => "not exists"@,
    }
}

/// The operator tests that a column is (or is not) set, and takes no parameter.
pub open spec fn is_exist_operator(o: SelectFilterOperator) -> bool {
    o == SelectFilterOperator::Exists || o == SelectFilterOperator::NotExists
}

/// The error when a filter on a field of type `()` compares with a value.
pub open spec fn tuple_refused(t: TypeV, s: Seq<char>) -> Option<Seq<char>> {
    if type_is_named(t, "()"@) {
        Some(INVALID_TYPE_TUPLE_FOR_OPERATOR@ + " "@ + s)
    } else {
        None
    }
}

/// The error when an operator `op` is used on a field whose type is not named `tty`.
pub open spec fn only_type(t: TypeV, op: Seq<char>, tty: Seq<char>) -> Option<Seq<char>> {
    if !type_is_named(t, tty) {
        Some(op + " "@ + ONLY_TYPE_FOR_OPERATOR@ + " "@ + tty)
    } else {
        None
    }
}

/// The operator that the lower-cased keyword `k` names, for a field of type `t`;
/// `s` is the keyword as written, which the error about `()` repeats.
pub open spec fn operator_spec(t: TypeV, k: Seq<char>, s: Seq<char>) -> Result<SelectFilterOperator, Seq<char>> {
    if k == EXISTS@ {
        match only_type(t, EXISTS@, "()"@) {
            Some(m) => Err(m),
            None => Ok(SelectFilterOperator::Exists),
        }
    } else if k == NOT_EXISTS@ || k == BANG_EXISTS@ {
        match only_type(t, NOT_EXISTS@, "()"@) {
            Some(m) => Err(m),
            None => Ok(SelectFilterOperator::NotExists),
        }
    } else if k == IS@ || k == EQUAL@ {
        valued(t, s, SelectFilterOperator::Is)
    } else if k == IS_NOT@ || k == NOT_EQUAL@ {
        valued(t, s, SelectFilterOperator::IsNot)
    } else if k == LIKE@ {
        typed(t, s, LIKE@, STRING@, SelectFilterOperator::Like)
    } else if k == ILIKE@ {
        typed(t, s, ILIKE@, STRING@, SelectFilterOperator::ILike)
    } else if k == IN@ {
        typed(t, s, IN@, VEC@, SelectFilterOperator::In)
    } else if k == NOT_IN@ {
        typed(t, s, NOT_IN@, VEC@, SelectFilterOperator::NotIn)
    } else if k == GREATER_THAN@ || k == SUP_SIGN@ {
        valued(t, s, SelectFilterOperator::GreaterThan)
    } else if k == GREATER_THAN_OR_EQUAL@ || k == SUP_OR_EQ_SIGN@ {
        valued(t, s, SelectFilterOperator::GreaterThanOrEqual)
    } else if k == LESSER_THAN@ || k == INF_SIGN@ {
        valued(t, s, SelectFilterOperator::LesserThan)
    } else if k == LESSER_THAN_OR_EQUAL@ || k == INF_OR_EQ_SIGN@ {
        valued(t, s, SelectFilterOperator::LesserThanOrEqual)
    } else {
        Err(INVALID_OPERATOR@)
    }
}

/// The operator that the lower-cased keyword `k` names, whatever the field's type.
pub open spec fn operator_keyword(k: Seq<char>) -> Option<SelectFilterOperator> {
    if k == EXISTS@ {
        Some(SelectFilterOperator::Exists)
    } else if k == NOT_EXISTS@ || k == BANG_EXISTS@ {
        Some(SelectFilterOperator::NotExists)
    } else if k == IS@ || k == EQUAL@ {
        Some(SelectFilterOperator::Is)
    } else if k == IS_NOT@ || k == NOT_EQUAL@ {
        Some(SelectFilterOperator::IsNot)
    } else if k == LIKE@ {
        Some(SelectFilterOperator::Like)
    } else if k == ILIKE@ {
        Some(SelectFilterOperator::ILike)
    } else if k == IN@ {
        Some(SelectFilterOperator::In)
    } else if k == NOT_IN@ {
        Some(SelectFilterOperator::NotIn)
    } else if k == GREATER_THAN@ || k == SUP_SIGN@ {
        Some(SelectFilterOperator::GreaterThan)
    } else if k == GREATER_THAN_OR_EQUAL@ || k == SUP_OR_EQ_SIGN@ {
        Some(SelectFilterOperator::GreaterThanOrEqual)
    } else if k == LESSER_THAN@ || k == INF_SIGN@ {
        Some(SelectFilterOperator::LesserThan)
    } else if k == LESSER_THAN_OR_EQUAL@ || k == INF_OR_EQ_SIGN@ {
        Some(SelectFilterOperator::LesserThanOrEqual)
    } else {
        None
    }
}

/// The operator of a filter: checked against the field's type when `checked`,
/// by its keyword alone otherwise (a filter on a nested query).
pub open spec fn filter_operator_spec(t: TypeV, op: Seq<char>, checked: bool) -> Result<SelectFilterOperator, Seq<char>> {
    if checked {
        operator_spec(t, lower(op), op)
    } else {
        match operator_keyword(lower(op)) {
            Some(o) => Ok(o),
            None => Err(INVALID_OPERATOR@),
        }
    }
}

/// An operator that compares with a value: refused on `()`.
pub open spec fn valued(t: TypeV, s: Seq<char>, o: SelectFilterOperator) -> Result<SelectFilterOperator, Seq<char>> {
    match tuple_refused(t, s) {
        Some(m) => Err(m),
        None => Ok(o),
    }
}

/// An operator that compares with a value of one kind of type only.
pub open spec fn typed(t: TypeV, s: Seq<char>, op: Seq<char>, tty: Seq<char>, o: SelectFilterOperator) -> Result<SelectFilterOperator, Seq<char>> {
    match tuple_refused(t, s) {
        Some(m) => Err(m),
        None => match only_type(t, op, tty) {
            Some(m) => Err(m),
            None => Ok(o),
        },
    }
}

fn check_not_accepted_type(ty: &RustType, s: &str) -> (r: Result<(), MacroError>)
    ensures
        match r {
            Ok(_) => tuple_refused(ty@, s@) is None,
            Err(e) => tuple_refused(ty@, s@) == Some(e.message@),
        },
{
    if is_type_name(ty, "()") {
        Err(MacroError::new3(INVALID_TYPE_TUPLE_FOR_OPERATOR, " ", s))
    } else {
        Ok(())
    }
}

fn check_only_accepted_type(ty: &RustType, op: &str, tty: &str) -> (r: Result<(), MacroError>)
    ensures
        match r {
            Ok(_) => only_type(ty@, op@, tty@) is None,
            Err(e) => only_type(ty@, op@, tty@) == Some(e.message@),
        },
{
    if !is_type_name(ty, tty) {
        let mut m = String::from_str(op);
        m.append(" ");
        m.append(ONLY_TYPE_FOR_OPERATOR);
        m.append(" ");
        m.append(tty);
        Err(MacroError { message: m })
    } else {
        Ok(())
    }
}

impl SelectFilterOperator {
    /// The EdgeQL text of the operator.
    pub fn statement(&self) -> (r: &'static str)
        ensures
            r@ == operator_statement(*self),
    {
        match self {
            SelectFilterOperator::Is => "=",
            SelectFilterOperator::IsNot => "!=",
            SelectFilterOperator::Like => "like",
            SelectFilterOperator::ILike => "ilike",
            SelectFilterOperator::In => "in",
            SelectFilterOperator::NotIn => "not in",
            SelectFilterOperator::GreaterThan => ">",
            SelectFilterOperator::LesserThan => "<",
            SelectFilterOperator::GreaterThanOrEqual => ">=",
            SelectFilterOperator::LesserThanOrEqual => "<=",
            SelectFilterOperator::Exists => "exists",
            SelectFilterOperator::NotExists => "not exists",
        }
    }

    /// Whether the operator tests that a column is (or is not) set.
    pub fn check_exist(self) -> (r: bool)
        ensures
            r == is_exist_operator(self),
    {
        matches!(self, SelectFilterOperator::Exists | SelectFilterOperator::NotExists)
    }

    /// The operator named by an already lower-cased keyword `k`, for a field of
    /// type `ty`; `s` is the keyword as it was written.
    pub fn from_keyword(ty: &RustType, k: &str, s: &str) -> (r: Result<SelectFilterOperator, MacroError>)
        ensures
            match r {
                Ok(o) => operator_spec(ty@, k@, s@) == Ok::<SelectFilterOperator, Seq<char>>(o),
                Err(e) => operator_spec(ty@, k@, s@) == Err::<SelectFilterOperator, Seq<char>>(e.message@),
            },
    {
        if str_eq(k, EXISTS) {
            match check_only_accepted_type(ty, EXISTS, "()") {
                Err(e) => Err(e),
                Ok(_) => Ok(SelectFilterOperator::Exists),
            }
        } else if str_eq(k, NOT_EXISTS) || str_eq(k, BANG_EXISTS) {
            match check_only_accepted_type(ty, NOT_EXISTS, "()") {
                Err(e) => Err(e),
                Ok(_) => Ok(SelectFilterOperator::NotExists),
            }
        } else if str_eq(k, IS) || str_eq(k, EQUAL) {
            Self::valued(ty, s, SelectFilterOperator::Is)
        } else if str_eq(k, IS_NOT) || str_eq(k, NOT_EQUAL) {
            Self::valued(ty, s, SelectFilterOperator::IsNot)
        } else if str_eq(k, LIKE) {
            Self::typed(ty, s, LIKE, STRING, SelectFilterOperator::Like)
        } else if str_eq(k, ILIKE) {
            Self::typed(ty, s, ILIKE, STRING, SelectFilterOperator::ILike)
        } else if str_eq(k, IN) {
            Self::typed(ty, s, IN, VEC, SelectFilterOperator::In)
        } else if str_eq(k, NOT_IN) {
            Self::typed(ty, s, NOT_IN, VEC, SelectFilterOperator::NotIn)
        } else if str_eq(k, GREATER_THAN) || str_eq(k, SUP_SIGN) {
            Self::valued(ty, s, SelectFilterOperator::GreaterThan)
        } else if str_eq(k, GREATER_THAN_OR_EQUAL) || str_eq(k, SUP_OR_EQ_SIGN) {
            Self::valued(ty, s, SelectFilterOperator::GreaterThanOrEqual)
        } else if str_eq(k, LESSER_THAN) || str_eq(k, INF_SIGN) {
            Self::valued(ty, s, SelectFilterOperator::LesserThan)
        } else if str_eq(k, LESSER_THAN_OR_EQUAL) || str_eq(k, INF_OR_EQ_SIGN) {
            Self::valued(ty, s, SelectFilterOperator::LesserThanOrEqual)
        } else {
            Err(MacroError::new(INVALID_OPERATOR))
        }
    }

    /// The operator named by an already lower-cased keyword, whatever the type.
    pub fn from_keyword_unchecked(k: &str) -> (r: Option<SelectFilterOperator>)
        ensures
            r == operator_keyword(k@),
    {
        if str_eq(k, EXISTS) {
            Some(SelectFilterOperator::Exists)
        } else if str_eq(k, NOT_EXISTS) || str_eq(k, BANG_EXISTS) {
            Some(SelectFilterOperator::NotExists)
        } else if str_eq(k, IS) || str_eq(k, EQUAL) {
            Some(SelectFilterOperator::Is)
        } else if str_eq(k, IS_NOT) || str_eq(k, NOT_EQUAL) {
            Some(SelectFilterOperator::IsNot)
        } else if str_eq(k, LIKE) {
            Some(SelectFilterOperator::Like)
        } else if str_eq(k, ILIKE) {
            Some(SelectFilterOperator::ILike)
        } else if str_eq(k, IN) {
            Some(SelectFilterOperator::In)
        } else if str_eq(k, NOT_IN) {
            Some(SelectFilterOperator::NotIn)
        } else if str_eq(k, GREATER_THAN) || str_eq(k, SUP_SIGN) {
            Some(SelectFilterOperator::GreaterThan)
        } else if str_eq(k, GREATER_THAN_OR_EQUAL) || str_eq(k, SUP_OR_EQ_SIGN) {
            Some(SelectFilterOperator::GreaterThanOrEqual)
        } else if str_eq(k, LESSER_THAN) || str_eq(k, INF_SIGN) {
            Some(SelectFilterOperator::LesserThan)
        } else if str_eq(k, LESSER_THAN_OR_EQUAL) || str_eq(k, INF_OR_EQ_SIGN) {
            Some(SelectFilterOperator::LesserThanOrEqual)
        } else {
            None
        }
    }

    fn valued(ty: &RustType, s: &str, o: SelectFilterOperator) -> (r: Result<SelectFilterOperator, MacroError>)
        ensures
            match r {
                Ok(x) => valued(ty@, s@, o) == Ok::<SelectFilterOperator, Seq<char>>(x),
                Err(e) => valued(ty@, s@, o) == Err::<SelectFilterOperator, Seq<char>>(e.message@),
            },
    {
        match check_not_accepted_type(ty, s) {
            Err(e) => Err(e),
            Ok(_) => Ok(o),
        }
    }

    fn typed(ty: &RustType, s: &str, op: &str, tty: &str, o: SelectFilterOperator) -> (r: Result<SelectFilterOperator, MacroError>)
        ensures
            match r {
                Ok(x) => typed(ty@, s@, op@, tty@, o) == Ok::<SelectFilterOperator, Seq<char>>(x),
                Err(e) => typed(ty@, s@, op@, tty@, o) == Err::<SelectFilterOperator, Seq<char>>(e.message@),
            },
    {
        match check_not_accepted_type(ty, s) {
            Err(e) => Err(e),
            Ok(_) => match check_only_accepted_type(ty, op, tty) {
                Err(e) => Err(e),
                Ok(_) => Ok(o),
            },
        }
    }

    /// The operator written as `lit` on a field of type `ty`; the keyword is
    /// compared without regard to case.
    pub fn try_from(ty: &RustType, lit: &str) -> (r: Result<SelectFilterOperator, MacroError>)
        ensures
            match r {
                Ok(o) => operator_spec(ty@, lower(lit@), lit@) == Ok::<SelectFilterOperator, Seq<char>>(o),
                Err(e) => operator_spec(ty@, lower(lit@), lit@) == Err::<SelectFilterOperator, Seq<char>>(e.message@),
            },
    {
        let k = to_lowercase(lit);
        Self::from_keyword(ty, k.as_str(), lit)
    }
}

/// What a filter attribute says: its operator and the function that wraps the column.
pub struct FilterTag {
    pub operator: SelectFilterOperator,
    pub wrapper_fn: Option<String>,
}

/// The mathematical form of a `FilterTag`.
pub struct FilterTagV {
    pub operator: SelectFilterOperator,
    pub wrapper_fn: Option<Seq<char>>,
}

impl View for FilterTag {
    type V = FilterTagV;

    open spec fn view(&self) -> FilterTagV {
        FilterTagV { operator: self.operator, wrapper_fn: ov(self.wrapper_fn) }
    }
}

impl FilterTag {
    /// A copy of the tag.
    pub fn copy(&self) -> (r: FilterTag)
        ensures
            r@ == self@,
    {
        FilterTag { operator: self.operator, wrapper_fn: crate::text::copy_opt(&self.wrapper_fn) }
    }
}

/// A filter that follows another one, joined to it by `and` or by `or`.
pub enum OtherFilterTags {
    And(FilterTag),
    Or(FilterTag),
}

/// A filter of a query: the first one, or one that follows.
pub enum FilterTags {
    First(FilterTag),
    Other(OtherFilterTags),
}

/// The mathematical form of a `FilterTags`.
pub enum FilterTagsV {
    First(FilterTagV),
    And(FilterTagV),
    Or(FilterTagV),
}

impl View for FilterTags {
    type V = FilterTagsV;

    open spec fn view(&self) -> FilterTagsV {
        match self {
            FilterTags::First(t) => FilterTagsV::First(t@),
            FilterTags::Other(OtherFilterTags::And(t)) => FilterTagsV::And(t@),
            FilterTags::Other(OtherFilterTags::Or(t)) => FilterTagsV::Or(t@),
        }
    }
}

impl FilterTagsV {
    /// The tag inside.
    pub open spec fn tag(self) -> FilterTagV {
        match self {
            FilterTagsV::First(t) => t,
            FilterTagsV::And(t) => t,
            FilterTagsV::Or(t) => t,
        }
    }

    /// The word that joins the filter to the one before it.
    pub open spec fn conjunctive(self) -> Seq<char> {
        match self {
            FilterTagsV::First(_) => ""@,
            FilterTagsV::And(_) => AND@,
            FilterTagsV::Or(_) => OR@,
        }
    }
}

impl FilterTags {
    /// The operator of the filter.
    pub fn operator(&self) -> (r: SelectFilterOperator)
        ensures
            r == self@.tag().operator,
    {
        match self {
            FilterTags::First(tag) => tag.operator,
            FilterTags::Other(tag) => match tag {
                OtherFilterTags::And(tag) => tag.operator,
                OtherFilterTags::Or(tag) => tag.operator,
            },
        }
    }

    /// The function that wraps the column, if any.
    pub fn wrapper_fn(&self) -> (r: Option<String>)
        ensures
            ov(r) == self@.tag().wrapper_fn,
    {
        match self {
            FilterTags::First(tag) => crate::text::copy_opt(&tag.wrapper_fn),
            FilterTags::Other(tag) => match tag {
                OtherFilterTags::And(tag) => crate::text::copy_opt(&tag.wrapper_fn),
                OtherFilterTags::Or(tag) => crate::text::copy_opt(&tag.wrapper_fn),
            },
        }
    }

    /// The word that joins the filter to the one before it: nothing, ` and` or ` or`.
    pub fn conjunctive(&self) -> (r: &'static str)
        ensures
            r@ == self@.conjunctive(),
    {
        match self {
            FilterTags::First(_) => "",
            FilterTags::Other(tag) => match tag {
                OtherFilterTags::And(_) => AND,
                OtherFilterTags::Or(_) => OR,
            },
        }
    }

    /// A copy of the filter.
    pub fn copy(&self) -> (r: FilterTags)
        ensures
            r@ == self@,
    {
        match self {
            FilterTags::First(t) => FilterTags::First(t.copy()),
            FilterTags::Other(OtherFilterTags::And(t)) => FilterTags::Other(OtherFilterTags::And(t.copy())),
            FilterTags::Other(OtherFilterTags::Or(t)) => FilterTags::Other(OtherFilterTags::Or(t.copy())),
        }
    }
}

/// One option written in a filter attribute.
pub enum FilterTagOptions {
    Operator(String),
    WrapperFn(String),
}

/// The mathematical form of a `FilterTagOptions`.
pub enum FilterOptionV {
    Operator(Seq<char>),
    WrapperFn(Seq<char>),
}

impl View for FilterTagOptions {
    type V = FilterOptionV;

    open spec fn view(&self) -> FilterOptionV {
        match self {
            FilterTagOptions::Operator(s) => FilterOptionV::Operator(s@),
            FilterTagOptions::WrapperFn(s) => FilterOptionV::WrapperFn(s@),
        }
    }
}

/// The option that `name = lit` stands for in a filter attribute, or the error.
/// The parentheses of a wrapper function are dropped.
pub open spec fn filter_option_spec(name: Seq<char>, lit: Lit) -> Result<FilterOptionV, Seq<char>> {
    match lit {
        Lit::Str(v) => if v@.len() == 0 {
            Err(EXPECT_NON_EMPTY_LIT@)
        } else if name == OPERATOR@ {
            Ok(FilterOptionV::Operator(v@))
        } else if name == WRAPPER_FN@ {
            Ok(FilterOptionV::WrapperFn(without_chars(v@, '(', ')')))
        } else {
            Err(INVALID_FILTER_TAG@)
        },
        _ => Err(EXPECT_NAMED_LIT@),
    }
}

impl FilterTagOptions {
    /// Reads one `name = lit` option of a filter attribute.
    pub fn try_from(path: &Vec<String>, lit: &Lit) -> (r: Result<FilterTagOptions, MacroError>)
        requires
            path@.len() == 1,
        ensures
            match r {
                Ok(o) => filter_option_spec(path@[0]@, *lit) == Ok::<FilterOptionV, Seq<char>>(o@),
                Err(e) => filter_option_spec(path@[0]@, *lit) == Err::<FilterOptionV, Seq<char>>(e.message@),
            },
    {
        match lit {
            Lit::Str(value) => {
                if str_is_empty(value.as_str()) {
                    return Err(MacroError::new(EXPECT_NON_EMPTY_LIT));
                }
                let name = path[0].as_str();
                if str_eq(name, OPERATOR) {
                    Ok(FilterTagOptions::Operator(value.clone()))
                } else if str_eq(name, WRAPPER_FN) {
                    Ok(FilterTagOptions::WrapperFn(remove_chars(value.as_str(), '(', ')')))
                } else {
                    Err(MacroError::new(INVALID_FILTER_TAG))
                }
            },
            _ => Err(MacroError::new(EXPECT_NAMED_LIT)),
        }
    }
}

/// Collects the options of a filter attribute.
pub struct FilterTagBuilder {
    pub operator: Option<String>,
    pub wrapper_fn: Option<String>,
}

/// The mathematical form of a `FilterTagBuilder`.
pub struct FilterTagBuilderV {
    pub operator: Option<Seq<char>>,
    pub wrapper_fn: Option<Seq<char>>,
}

impl View for FilterTagBuilder {
    type V = FilterTagBuilderV;

    open spec fn view(&self) -> FilterTagBuilderV {
        FilterTagBuilderV { operator: ov(self.operator), wrapper_fn: ov(self.wrapper_fn) }
    }
}

impl FilterTagBuilderV {
    /// The builder after one more option.
    pub open spec fn with(self, o: FilterOptionV) -> FilterTagBuilderV {
        match o {
            FilterOptionV::Operator(v) => FilterTagBuilderV { operator: Some(v), ..self },
            FilterOptionV::WrapperFn(v) => FilterTagBuilderV { wrapper_fn: Some(v), ..self },
        }
    }

    /// The builder with nothing set.
    pub open spec fn empty() -> FilterTagBuilderV {
        FilterTagBuilderV { operator: None, wrapper_fn: None }
    }
}

/// The filter that a builder yields for a field, or the error. `first` says that
/// no filter comes before it.
pub open spec fn filter_tags_spec(b: FilterTagBuilderV, attrs: Seq<crate::model::Attribute>, ty: TypeV, first: bool, checked: bool) -> Result<FilterTagsV, Seq<char>> {
    match b.operator {
        None => Err(EXPECT_OPERATOR@),
        Some(op) => match filter_operator_spec(ty, op, checked) {
            Err(m) => Err(m),
            Ok(o) => {
                let tag = FilterTagV { operator: o, wrapper_fn: b.wrapper_fn };
                if first {
                    if has_attr(attrs, FILTER@) {
                        Ok(FilterTagsV::First(tag))
                    } else {
                        Err(FIRST_FILTER_EXPECTED@)
                    }
                } else if has_attr(attrs, AND_FILTER@) {
                    Ok(FilterTagsV::And(tag))
                } else if has_attr(attrs, OR_FILTER@) {
                    Ok(FilterTagsV::Or(tag))
                } else {
                    Err(AND_OR_FILTER_EXPECTED@)
                }
            },
        },
    }
}

impl FilterTagBuilder {
    /// The builder with nothing set.
    pub fn new() -> (r: FilterTagBuilder)
        ensures
            r@ == FilterTagBuilderV::empty(),
    {
        FilterTagBuilder { operator: None, wrapper_fn: None }
    }

    /// The names of the attributes that this builder reads.
    pub fn tag_names(&self) -> (r: Vec<String>)
        ensures
            crate::text::views(r@) == seq![FILTER@, AND_FILTER@, OR_FILTER@],
    {
        let mut v: Vec<String> = Vec::new();
        v.push(String::from_str(FILTER));
        v.push(String::from_str(AND_FILTER));
        v.push(String::from_str(OR_FILTER));
        assert(crate::text::views(v@) =~= seq![FILTER@, AND_FILTER@, OR_FILTER@]);
        v
    }

    /// Takes one `name = lit` option of a filter attribute.
    pub fn arg(&mut self, path: &Vec<String>, lit: &Lit) -> (r: Result<(), MacroError>)
        requires
            path@.len() == 1,
        ensures
            match filter_option_spec(path@[0]@, *lit) {
                Ok(o) => r is Ok && final(self)@ == old(self)@.with(o),
                Err(m) => r matches Err(e) && e.message@ == m && final(self)@ == old(self)@,
            },
    {
        match FilterTagOptions::try_from(path, lit) {
            Err(e) => Err(e),
            Ok(FilterTagOptions::Operator(v)) => {
                self.operator = Some(v);
                Ok(())
            },
            Ok(FilterTagOptions::WrapperFn(v)) => {
                self.wrapper_fn = Some(v);
                Ok(())
            },
        }
    }

    /// The filter for `field`; `first` says that no filter comes before it, and
    /// `checked` that the operator must suit the field's type (it is not checked
    /// for a nested query).
    pub fn build(&self, field: &FieldDecl, first: bool, checked: bool) -> (r: Result<FilterTags, MacroError>)
        ensures
            match r {
                Ok(t) => filter_tags_spec(self@, field.attrs@, field.ty@, first, checked) == Ok::<FilterTagsV, Seq<char>>(t@),
                Err(e) => filter_tags_spec(self@, field.attrs@, field.ty@, first, checked) == Err::<FilterTagsV, Seq<char>>(e.message@),
            },
    {
        match &self.operator {
            None => Err(MacroError::new(EXPECT_OPERATOR)),
            Some(op) => {
                let operator = if checked {
                    match SelectFilterOperator::try_from(&field.ty, op.as_str()) {
                        Ok(o) => o,
                        Err(e) => return Err(e),
                    }
                } else {
                    let k = to_lowercase(op.as_str());
                    match SelectFilterOperator::from_keyword_unchecked(k.as_str()) {
                        Some(o) => o,
                        None => return Err(MacroError::new(INVALID_OPERATOR)),
                    }
                };
                let tag = FilterTag { operator, wrapper_fn: crate::text::copy_opt(&self.wrapper_fn) };
                if first {
                    if has_attribute(field, FILTER) {
                        Ok(FilterTags::First(tag))
                    } else {
                        Err(MacroError::new(FIRST_FILTER_EXPECTED))
                    }
                } else if has_attribute(field, AND_FILTER) {
                    Ok(FilterTags::Other(OtherFilterTags::And(tag)))
                } else if has_attribute(field, OR_FILTER) {
                    Ok(FilterTags::Other(OtherFilterTags::Or(tag)))
                } else {
                    Err(MacroError::new(AND_OR_FILTER_EXPECTED))
                }
            },
        }
    }
}

} // verus!
