use vstd::prelude::*;
use vstd::string::*;

use crate::attributes_utils::get_field_ident;
use crate::constants::{EXPECT_NON_EMPTY_LIT, PARAM};
use crate::error::MacroError;
use crate::model::FieldDecl;
use crate::text::{ov, str_is_empty};

verus! {

/// The query parameter that a field of a file query stands for.
pub struct ParamTag(pub String);

/// Collects the value of `#[param("...")]`.
pub struct ParamTagBuilder {
    pub value: Option<String>,
}

impl ParamTagBuilder {
    /// The builder with nothing set.
    pub fn new() -> (r: ParamTagBuilder)
        ensures
            r.value is None,
    {
        ParamTagBuilder { value: None }
    }

    /// The names of the attributes that this builder reads.
    pub fn tag_names(&self) -> (r: Vec<String>)
        ensures
            crate::text::views(r@) == seq![PARAM@],
    {
        let mut v: Vec<String> = Vec::new();
        v.push(String::from_str(PARAM));
        assert(crate::text::views(v@) =~= seq![PARAM@]);
        v
    }

    /// Takes the literal written in `#[param("...")]`; it may not be empty.
    pub fn arg(&mut self, lit_str: &String) -> (r: Result<(), MacroError>)
        ensures
            lit_str@.len() == 0 ==> (r matches Err(e) && e.message@ == EXPECT_NON_EMPTY_LIT@ && ov(final(self).value) == ov(old(self).value)),
            lit_str@.len() != 0 ==> (r is Ok && ov(final(self).value) == Some(lit_str@)),
    {
        if str_is_empty(lit_str.as_str()) {
            Err(MacroError::new(EXPECT_NON_EMPTY_LIT))
        } else {
            self.value = Some(lit_str.clone());
            Ok(())
        }
    }

    /// The parameter for `field`: the written value, or else the field's name.
    pub fn build(&self, field: &FieldDecl) -> (r: ParamTag)
        requires
            field.named(),
        ensures
            r.0@ == match ov(self.value) {
                Some(v) => v,
                None => field.name(),
            },
    {
        match &self.value {
            Some(v) => ParamTag(v.clone()),
            None => ParamTag(get_field_ident(field)),
        }
    }
}

} // verus!
