use vstd::prelude::*;
use vstd::string::*;

use crate::constants::{EXPECT_NON_EMPTY_LIT, VALUE};
use crate::error::MacroError;
use crate::model::VariantDecl;
use crate::text::{ov, str_is_empty};

verus! {

/// The text that an enum variant stands for in EdgeDB.
pub struct ValueTag(pub String);

/// Collects the value of `#[value("...")]`.
pub struct EnumValueTagBuilder {
    pub value: Option<String>,
}

impl EnumValueTagBuilder {
    /// The builder with nothing set.
    pub fn new() -> (r: EnumValueTagBuilder)
        ensures
            r.value is None,
    {
        EnumValueTagBuilder { value: None }
    }

    /// The names of the attributes that this builder reads.
    pub fn tag_names(&self) -> (r: Vec<String>)
        ensures
            crate::text::views(r@) == seq![VALUE@],
    {
        let mut v: Vec<String> = Vec::new();
        v.push(String::from_str(VALUE));
        assert(crate::text::views(v@) =~= seq![VALUE@]);
        v
    }

    /// Takes the literal written in `#[value("...")]`; it may not be empty.
    pub fn arg(&mut self, lit_str: &String) -> (r: Result<(), MacroError>)
        ensures
            lit_str@.len() == 0 ==> (r matches Err(e) && e.message@ == EXPECT_NON_EMPTY_LIT@ && ov(final(self).value) == ov(old(self).value)),
            lit_str@.len() != 0 ==> (r is Ok && ov(final(self).value) == Some(lit_str@)),
    {
        if str_is_empty(lit_str.as_str()) {
            Err(MacroError::new(EXPECT_NON_EMPTY_LIT))
        } else {
            self.value = Some(lit_str.clone());
            Ok(())
        }
    }

    /// The value for `variant`: the written value, or else the variant's name.
    pub fn build(&self, variant: &VariantDecl) -> (r: ValueTag)
        ensures
            r.0@ == match ov(self.value) {
                Some(v) => v,
                None => variant.ident@,
            },
    {
        match &self.value {
            Some(v) => ValueTag(v.clone()),
            None => ValueTag(variant.ident.clone()),
        }
    }
}

} // verus!
