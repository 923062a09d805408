use vstd::prelude::*;
use vstd::string::*;

use crate::constants::{EXPECT_NON_EMPTY_LIT, INVALID_FIELD_TAG, UNLESS_CONFLICT};
use crate::error::MacroError;
use crate::model::{FieldDecl, Lit};
use crate::text::{
    contains_str, debug_list_pretty, format_debug_list_pretty, not_among, ov, split_char,
    split_on, str_eq, str_is_empty, trim, trim_all, trimmed, views,
};

verus! {

/// The columns on which an insert gives way to an existing object.
pub struct UnlessConflictTag {
    pub on: Vec<String>,
}

/// The value written as `on = "..."` in `#[unless_conflict(...)]`, or the error.
/// Any form other than a string literal counts as an empty list of columns.
pub open spec fn unless_conflict_option_spec(name: Seq<char>, lit: Lit) -> Result<Seq<char>, Seq<char>> {
    match lit {
        Lit::Str(v) => if v@.len() == 0 {
            Err(EXPECT_NON_EMPTY_LIT@)
        } else if name == "on"@ {
            Ok(v@)
        } else {
            Err(INVALID_FIELD_TAG@)
        },
        _ => Ok(Seq::empty()),
    }
}

/// The columns named by the written value: its comma-separated pieces, trimmed.
pub open spec fn conflict_columns(on: Option<Seq<char>>) -> Seq<Seq<char>> {
    trim_all(split_on(match on { Some(v) => v, None => Seq::empty() }, ','))
}

/// The tag's columns, or the error when some of them are not columns of the insert.
pub open spec fn unless_conflict_spec(on: Option<Seq<char>>, columns: Seq<Seq<char>>) -> Result<Seq<Seq<char>>, Seq<char>> {
    let ons = conflict_columns(on);
    let x = not_among(ons, columns);
    if x.len() != 0 {
        Err("Following names are not column names : "@ + debug_list_pretty(x))
    } else {
        Ok(ons)
    }
}

/// The option written in `#[unless_conflict(...)]`: the conflict columns.
pub enum UnlessConflictTagOptions {
    On(String),
}

impl UnlessConflictTagOptions {
    /// Reads one `name = lit` option of `#[unless_conflict(...)]`.
    pub fn try_from(path: &Vec<String>, lit: &Lit) -> (r: Result<UnlessConflictTagOptions, MacroError>)
        requires
            path@.len() == 1,
        ensures
            match r {
                Ok(UnlessConflictTagOptions::On(v)) => unless_conflict_option_spec(path@[0]@, *lit) == Ok::<Seq<char>, Seq<char>>(v@),
                Err(e) => unless_conflict_option_spec(path@[0]@, *lit) == Err::<Seq<char>, Seq<char>>(e.message@),
            },
    {
        match lit {
            Lit::Str(value) => {
                if str_is_empty(value.as_str()) {
                    return Err(MacroError::new(EXPECT_NON_EMPTY_LIT));
                }
                if str_eq(path[0].as_str(), "on") {
                    Ok(UnlessConflictTagOptions::On(value.clone()))
                } else {
                    Err(MacroError::new(INVALID_FIELD_TAG))
                }
            },
            _ => Ok(UnlessConflictTagOptions::On(String::new())),
        }
    }
}

/// Collects the option of `#[unless_conflict(...)]`.
pub struct UnlessConflictTagBuilder {
    pub on: Option<String>,
}

impl UnlessConflictTagBuilder {
    /// The builder with nothing set.
    pub fn new() -> (r: UnlessConflictTagBuilder)
        ensures
            r.on is None,
    {
        UnlessConflictTagBuilder { on: None }
    }

    /// The names of the attributes that this builder reads.
    pub fn tag_names(&self) -> (r: Vec<String>)
        ensures
            views(r@) == seq![UNLESS_CONFLICT@],
    {
        let mut v: Vec<String> = Vec::new();
        v.push(String::from_str(UNLESS_CONFLICT));
        assert(views(v@) =~= seq![UNLESS_CONFLICT@]);
        v
    }

    /// Takes one `name = lit` option of `#[unless_conflict(...)]`.
    pub fn arg(&mut self, path: &Vec<String>, lit: &Lit) -> (r: Result<(), MacroError>)
        requires
            path@.len() == 1,
        ensures
            match unless_conflict_option_spec(path@[0]@, *lit) {
                Ok(v) => r is Ok && ov(final(self).on) == Some(v),
                Err(m) => r matches Err(e) && e.message@ == m && ov(final(self).on) == ov(old(self).on),
            },
    {
        match UnlessConflictTagOptions::try_from(path, lit) {
            Err(e) => Err(e),
            Ok(UnlessConflictTagOptions::On(v)) => {
                self.on = Some(v);
                Ok(())
            },
        }
    }

    /// The tag for an insert whose columns are `columns`: every column named in
    /// `on` must be one of them.
    pub fn build(&self, field: &FieldDecl, columns: &Vec<String>) -> (r: Result<UnlessConflictTag, MacroError>)
        ensures
            match r {
                Ok(t) => unless_conflict_spec(ov(self.on), views(columns@)) == Ok::<Seq<Seq<char>>, Seq<char>>(views(t.on@)),
                Err(e) => unless_conflict_spec(ov(self.on), views(columns@)) == Err::<Seq<Seq<char>>, Seq<char>>(e.message@),
            },
    {
        let written = match &self.on {
            Some(v) => v.clone(),
            None => String::new(),
        };
        let pieces = split_char(written.as_str(), ',');
        let ghost parts = split_on(written@, ',');
        let mut ons: Vec<String> = Vec::new();
        let mut i: usize = 0;
        while i < pieces.len()
            invariant
                i <= pieces.len(),
                views(pieces@) == parts,
                views(ons@) == trim_all(parts.subrange(0, i as int)),
            decreases pieces.len() - i,
        {
            assert(views(pieces@)[i as int] == pieces@[i as int]@);
            let t = trim(pieces[i].as_str());
            let ghost before = views(ons@);
            let ghost tv = t@;
            ons.push(t);
            assert(views(ons@) =~= before.push(tv));
            assert(trim_all(parts.subrange(0, i + 1)) =~= trim_all(parts.subrange(0, i as int)).push(trimmed(parts[i as int])));
            i = i + 1;
        }
        assert(parts.subrange(0, pieces.len() as int) =~= parts);
        let ghost ons_v = views(ons@);
        let mut x: Vec<String> = Vec::new();
        let mut j: usize = 0;
        while j < ons.len()
            invariant
                j <= ons.len(),
                views(ons@) == ons_v,
                views(x@) == not_among(ons_v.subrange(0, j as int), views(columns@)),
            decreases ons.len() - j,
        {
            assert(ons_v.subrange(0, j + 1).drop_last() =~= ons_v.subrange(0, j as int));
            assert(ons_v.subrange(0, j + 1).last() == ons@[j as int]@);
            if !contains_str(columns, ons[j].as_str()) {
                let ghost before = views(x@);
                x.push(ons[j].clone());
                assert(views(x@) =~= before.push(ons@[j as int]@));
            }
            j = j + 1;
        }
        assert(ons_v.subrange(0, ons.len() as int) =~= ons_v);
        if x.len() != 0 {
            let d = format_debug_list_pretty(&x);
            return Err(MacroError::new2("Following names are not column names : ", d.as_str()));
        }
        Ok(UnlessConflictTag { on: ons })
    }
}

} // verus!
