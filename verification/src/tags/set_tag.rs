use vstd::prelude::*;
use vstd::string::*;

use crate::constants::{
    ASSIGN, ASSIGN_SIGN, CONCAT, CONCAT_SIGN, EXPECT_NAMED_LIT, EXPECT_NON_EMPTY_LIT,
    INVALID_SET_OPTION, INVALID_SET_TAG_OPTION, PUSH, PUSH_OPTION_ONLY_FOR_VEC, PUSH_SIGN, SET,
    SET_OPTION, VEC,
};
use crate::error::MacroError;
use crate::model::{FieldDecl, Lit, RustType, TypeV};
use crate::text::{lower, ov, str_eq, str_is_empty, to_lowercase};
use crate::type_utils::{is_type_name, type_is_named};

verus! {

/// How an update sets a column: `:=`, `++` (concatenation) or `+=` (push).
#[derive(Clone, Copy, PartialEq, Eq, Structural, Debug)]
pub enum SetOption {
    Assign,
    Concat,
    Push,
}

/// The EdgeQL sign of a set option.
pub open spec fn set_option_statement(o: SetOption) -> Seq<char> {
    match o {
        SetOption::Assign => ASSIGN_SIGN@,
        SetOption::Concat => CONCAT_SIGN@,
        SetOption::Push => PUSH_SIGN@,
    }
}

/// The set option that the lower-cased keyword `k` names for a field of type `t`.
pub open spec fn set_option_spec(t: TypeV, k: Seq<char>) -> Result<SetOption, Seq<char>> {
    if k == ASSIGN@ || k == ASSIGN_SIGN@ {
        Ok(SetOption::Assign)
    } else if k == CONCAT@ || k == CONCAT_SIGN@ {
        Ok(SetOption::Concat)
    } else if k == PUSH@ || k == PUSH_SIGN@ {
        if type_is_named(t, VEC@) {
            Ok(SetOption::Push)
        } else {
            Err(PUSH_OPTION_ONLY_FOR_VEC@)
        }
    } else {
        Err(INVALID_SET_OPTION@)
    }
}

impl SetOption {
    /// The EdgeQL sign of the option.
    pub fn statement(&self) -> (r: &'static str)
        ensures
            r@ == set_option_statement(*self),
    {
        match self {
            SetOption::Assign => ASSIGN_SIGN,
            SetOption::Concat => CONCAT_SIGN,
            SetOption::Push => PUSH_SIGN,
        }
    }

    /// The option named by an already lower-cased keyword.
    pub fn from_keyword(ty: &RustType, k: &str) -> (r: Result<SetOption, MacroError>)
        ensures
            match r {
                Ok(o) => set_option_spec(ty@, k@) == Ok::<SetOption, Seq<char>>(o),
                Err(e) => set_option_spec(ty@, k@) == Err::<SetOption, Seq<char>>(e.message@),
            },
    {
        if str_eq(k, ASSIGN) || str_eq(k, ASSIGN_SIGN) {
            Ok(SetOption::Assign)
        } else if str_eq(k, CONCAT) || str_eq(k, CONCAT_SIGN) {
            Ok(SetOption::Concat)
        } else if str_eq(k, PUSH) || str_eq(k, PUSH_SIGN) {
            if is_type_name(ty, VEC) {
                Ok(SetOption::Push)
            } else {
                Err(MacroError::new(PUSH_OPTION_ONLY_FOR_VEC))
            }
        } else {
            Err(MacroError::new(INVALID_SET_OPTION))
        }
    }

    /// The option written as `lit` on a field of type `ty`, compared without
    /// regard to case.
    pub fn try_from(ty: &RustType, lit: &str) -> (r: Result<SetOption, MacroError>)
        ensures
            match r {
                Ok(o) => set_option_spec(ty@, lower(lit@)) == Ok::<SetOption, Seq<char>>(o),
                Err(e) => set_option_spec(ty@, lower(lit@)) == Err::<SetOption, Seq<char>>(e.message@),
            },
    {
        let k = to_lowercase(lit);
        Self::from_keyword(ty, k.as_str())
    }
}

/// What `#[set(...)]` says of a field.
pub struct SetTag {
    pub option: SetOption,
}

/// The option written in `#[set(option = "...")]`, or the error.
pub open spec fn set_tag_option_spec(name: Seq<char>, lit: Lit) -> Result<Seq<char>, Seq<char>> {
    match lit {
        Lit::Str(v) => if v@.len() == 0 {
            Err(EXPECT_NON_EMPTY_LIT@)
        } else if name == SET_OPTION@ {
            Ok(v@)
        } else {
            Err(INVALID_SET_TAG_OPTION@)
        },
        _ => Err(EXPECT_NAMED_LIT@),
    }
}

/// Collects the option of `#[set(...)]`.
pub struct SetTagBuilder {
    pub option: Option<String>,
}

/// The set option that a builder yields for a field of type `t`.
pub open spec fn set_tag_spec(option: Option<Seq<char>>, t: TypeV) -> Result<SetOption, Seq<char>> {
    match option {
        Some(lit) => set_option_spec(t, lower(lit)),
        None => Ok(SetOption::Assign),
    }
}

impl SetTagBuilder {
    /// The builder with nothing set.
    pub fn new() -> (r: SetTagBuilder)
        ensures
            r.option is None,
    {
        SetTagBuilder { option: None }
    }

    /// The names of the attributes that this builder reads.
    pub fn tag_names(&self) -> (r: Vec<String>)
        ensures
            crate::text::views(r@) == seq![SET@],
    {
        let mut v: Vec<String> = Vec::new();
        v.push(String::from_str(SET));
        assert(crate::text::views(v@) =~= seq![SET@]);
        v
    }

    /// Takes one `name = lit` option of `#[set(...)]`.
    pub fn arg(&mut self, path: &Vec<String>, lit: &Lit) -> (r: Result<(), MacroError>)
        requires
            path@.len() == 1,
        ensures
            match set_tag_option_spec(path@[0]@, *lit) {
                Ok(v) => r is Ok && ov(final(self).option) == Some(v),
                Err(m) => r matches Err(e) && e.message@ == m && ov(final(self).option) == ov(old(self).option),
            },
    {
        match lit {
            Lit::Str(value) => {
                if str_is_empty(value.as_str()) {
                    return Err(MacroError::new(EXPECT_NON_EMPTY_LIT));
                }
                if str_eq(path[0].as_str(), SET_OPTION) {
                    self.option = Some(value.clone());
                    Ok(())
                } else {
                    Err(MacroError::new(INVALID_SET_TAG_OPTION))
                }
            },
            _ => Err(MacroError::new(EXPECT_NAMED_LIT)),
        }
    }

    /// The set tag for `field`: `:=` unless another option is written.
    pub fn build(&self, field: &FieldDecl) -> (r: Result<SetTag, MacroError>)
        ensures
            match r {
                Ok(t) => set_tag_spec(ov(self.option), field.ty@) == Ok::<SetOption, Seq<char>>(t.option),
                Err(e) => set_tag_spec(ov(self.option), field.ty@) == Err::<SetOption, Seq<char>>(e.message@),
            },
    {
        match &self.option {
            Some(lit) => match SetOption::try_from(&field.ty, lit.as_str()) {
                Ok(o) => Ok(SetTag { option: o }),
                Err(e) => Err(e),
            },
            None => Ok(SetTag { option: SetOption::Assign }),
        }
    }
}

} // verus!
