use vstd::prelude::*;
use vstd::string::*;

use crate::constants::{INVALID_PARAM_PATTERN, PARAM, PARAM_PATTERN};
use crate::error::MacroError;
use crate::impl_builder::{FieldCat, FieldCatV, ImplBuilderField, ImplBuilderFieldV, impl_fields_views};
use crate::meta_data::SrcFile;
use crate::model::FieldDecl;
use crate::queries::{QueryField, QueryFieldV, query_field_spec};
use crate::statements::filters::pair_views;
use crate::tags::builders::{field_wf, fields_wf, param_builder_spec, read_param_tag};
use crate::tags::param_tag::ParamTag;
use crate::text::{
    contains_str, debug_list_pretty, format_debug_list_pretty, not_among, remove_chars, str_eq, views,
    without_chars,
};

verus! {

/// The text of each match, in order, of the regular expression `pattern` in
/// `text`, or `None` where `pattern` is not a valid expression.
pub uninterp spec fn regex_matches(pattern: Seq<char>, text: Seq<char>) -> Option<Seq<Seq<char>>>;

/// The error of `regex::Regex::new` on an invalid expression.
#[verifier::external_type_specification]
#[verifier::external_body]
pub struct ExRegexError(regex::Error);

/// Calls `regex::Regex::new` on `pattern` and, where it compiles, collects the
/// text of each match of `find_iter` on `text`. The outcome is taken to be a
/// function of the two texts alone, named `regex_matches`: the matches where
/// the pattern compiles, `None` where `Regex::new` returns its error. Which
/// texts match is not stated.
#[verifier::external_body]
fn regex_find_all(pattern: &str, text: &str) -> (r: Result<Vec<String>, regex::Error>)
    ensures
        match r {
            Ok(v) => regex_matches(pattern@, text@) == Some(views(v@)),
            Err(_) => regex_matches(pattern@, text@) is None,
        },
{
    match regex::Regex::new(pattern) {
        Ok(re) => Ok(re.find_iter(text).map(|m| m.as_str().to_string()).collect()),
        Err(e) => Err(e),
    }
}

/// What checking a query text against the parameters `params` gives: the
/// parameters found by the parameter pattern must be those of the struct, in
/// order; a pattern that does not compile is reported as such.
pub open spec fn validate_spec(content: Seq<char>, params: Seq<Seq<char>>) -> Result<(), Seq<char>> {
    match regex_matches(PARAM_PATTERN@, content) {
        None => Err(INVALID_PARAM_PATTERN@),
        Some(m) => params_check_spec(m, params),
    }
}

/// A field of a file query: the query parameter it stands for.
pub struct ParamField {
    pub field: QueryField,
    pub param: ParamTag,
}

/// The mathematical form of a `ParamField`.
pub struct ParamFieldV {
    pub field: QueryFieldV,
    pub param: Seq<char>,
}

impl View for ParamField {
    type V = ParamFieldV;

    open spec fn view(&self) -> ParamFieldV {
        ParamFieldV { field: self.field@, param: self.param.0@ }
    }
}

/// The parameter field read from `field`: its parameter is the one written in
/// `#[param("...")]`, or else its name.
pub open spec fn param_field_spec(field: FieldDecl) -> Result<ParamFieldV, Seq<char>> {
    match param_builder_spec(field.attrs@) {
        Err(m) => Err(m),
        Ok(v) => match query_field_spec(field, seq![PARAM@]) {
            Err(m) => Err(m),
            Ok(q) => Ok(ParamFieldV { field: q, param: match v { Some(p) => p, None => field.name() } }),
        },
    }
}

impl ParamField {
    /// The parameter.
    pub fn param(&self) -> (r: String)
        ensures
            r@ == self.param.0@,
    {
        self.param.0.clone()
    }

    /// The parameter field read from `field`.
    pub fn try_from(field: &FieldDecl) -> (r: Result<ParamField, MacroError>)
        requires
            field_wf(*field),
        ensures
            match r {
                Ok(p) => param_field_spec(*field) == Ok::<ParamFieldV, Seq<char>>(p@),
                Err(e) => param_field_spec(*field) == Err::<ParamFieldV, Seq<char>>(e.message@),
            },
    {
        let b = match read_param_tag(&field.attrs) {
            Ok(b) => b,
            Err(e) => return Err(e),
        };
        let mut tags: Vec<String> = Vec::new();
        tags.push(String::from_str(PARAM));
        assert(views(tags@) =~= seq![PARAM@]);
        let q = match QueryField::try_from(field, &tags) {
            Ok(q) => q,
            Err(e) => return Err(e),
        };
        Ok(ParamField { field: q, param: b.build(field) })
    }
}

/// The message for parameters of the struct that the query does not use.
pub open spec fn struct_params_message(v: Seq<Seq<char>>) -> Seq<char> {
    "\n                    Following struct attributes do not appear as query parameters : "@ + debug_list_pretty(v)
        + "\n                "@
}

/// The message for parameters of the query that the struct does not have.
pub open spec fn query_params_message(v: Seq<Seq<char>>) -> Seq<char> {
    "\n                    Following query parameters do not appear as struct attribute : "@ + debug_list_pretty(v)
        + "\n                "@
}

/// The message for parameters given in another order than the struct's.
pub open spec fn order_message() -> Seq<char> {
    "Query parameters must be in the same order as struct attributes"@
}

/// Whether the parameters found in a query (`$name`, the `$` dropped) are those of
/// the struct, in the same order: first every struct parameter must occur in the
/// query, then every query parameter in the struct, then the orders must agree.
pub open spec fn params_check_spec(matches: Seq<Seq<char>>, params: Seq<Seq<char>>) -> Result<(), Seq<char>> {
    let found = matches.map_values(|s: Seq<char>| without_chars(s, '$', '$'));
    let missing_in_query = not_among(params, found);
    let missing_in_struct = not_among(found, params);
    if missing_in_query.len() > 0 {
        Err(struct_params_message(missing_in_query))
    } else if missing_in_struct.len() > 0 {
        Err(query_params_message(missing_in_struct))
    } else if found != params {
        Err(order_message())
    } else {
        Ok(())
    }
}

/// The strings of `v` that `cols` does not hold, in their order.
fn strings_not_among(v: &Vec<String>, cols: &Vec<String>) -> (r: Vec<String>)
    ensures
        views(r@) == not_among(views(v@), views(cols@)),
{
    let mut r: Vec<String> = Vec::new();
    let mut i: usize = 0;
    assert(views(v@).subrange(0, 0) =~= Seq::<Seq<char>>::empty());
    while i < v.len()
        invariant
            i <= v.len(),
            views(r@) == not_among(views(v@).subrange(0, i as int), views(cols@)),
        decreases v.len() - i,
    {
        assert(views(v@).subrange(0, i + 1).drop_last() =~= views(v@).subrange(0, i as int));
        assert(views(v@).subrange(0, i + 1).last() == v@[i as int]@);
        if !contains_str(cols, v[i].as_str()) {
            let ghost before = views(r@);
            let x = v[i].clone();
            r.push(x);
            assert(views(r@) =~= before.push(x@));
        }
        i = i + 1;
    }
    assert(views(v@).subrange(0, v.len() as int) =~= views(v@));
    r
}

/// Whether two lists of strings are equal.
fn strings_eq(a: &Vec<String>, b: &Vec<String>) -> (r: bool)
    ensures
        r == (views(a@) == views(b@)),
{
    if a.len() != b.len() {
        assert(views(a@).len() != views(b@).len());
        return false;
    }
    let mut i: usize = 0;
    while i < a.len()
        invariant
            i <= a.len(),
            a.len() == b.len(),
            forall|j: int| 0 <= j < i ==> views(a@)[j] == views(b@)[j],
        decreases a.len() - i,
    {
        if !str_eq(a[i].as_str(), b[i].as_str()) {
            assert(views(a@)[i as int] != views(b@)[i as int]);
            return false;
        }
        i = i + 1;
    }
    assert(views(a@) =~= views(b@));
    true
}

/// Checks the parameters found in a query against those of the struct; see
/// `params_check_spec`.
pub fn check_params(matches: &Vec<String>, params: &Vec<String>) -> (r: Result<(), MacroError>)
    ensures
        match r {
            Ok(_) => params_check_spec(views(matches@), views(params@)) is Ok,
            Err(e) => params_check_spec(views(matches@), views(params@)) == Err::<(), Seq<char>>(e.message@),
        },
{
    let mut found: Vec<String> = Vec::new();
    let mut i: usize = 0;
    while i < matches.len()
        invariant
            i <= matches.len(),
            views(found@) == views(matches@).subrange(0, i as int).map_values(|s: Seq<char>| without_chars(s, '$', '$')),
        decreases matches.len() - i,
    {
        let ghost before = views(found@);
        let x = remove_chars(matches[i].as_str(), '$', '$');
        found.push(x);
        assert(views(found@) =~= before.push(x@));
        assert(views(matches@)[i as int] == matches@[i as int]@);
        assert(views(found@) =~= views(matches@).subrange(0, i + 1).map_values(|s: Seq<char>| without_chars(s, '$', '$')));
        i = i + 1;
    }
    assert(views(matches@).subrange(0, matches.len() as int) =~= views(matches@));
    let missing_in_query = strings_not_among(params, &found);
    let missing_in_struct = strings_not_among(&found, params);
    if missing_in_query.len() > 0 {
        let d = format_debug_list_pretty(&missing_in_query);
        let mut m = String::from_str("\n                    Following struct attributes do not appear as query parameters : ");
        m.append(d.as_str());
        m.append("\n                ");
        Err(MacroError { message: m })
    } else if missing_in_struct.len() > 0 {
        let d = format_debug_list_pretty(&missing_in_struct);
        let mut m = String::from_str("\n                    Following query parameters do not appear as struct attribute : ");
        m.append(d.as_str());
        m.append("\n                ");
        Err(MacroError { message: m })
    } else if !strings_eq(&found, params) {
        Err(MacroError::new("Query parameters must be in the same order as struct attributes"))
    } else {
        Ok(())
    }
}

/// A query written in a file or in the macro's arguments, with the struct of its
/// parameters.
pub struct FileQuery {
    pub ident: String,
    pub meta: Option<SrcFile>,
    pub params: Vec<ParamField>,
}

/// The views of a list of parameter fields.
pub open spec fn param_views(v: Seq<ParamField>) -> Seq<ParamFieldV> {
    v.map_values(|p: ParamField| p@)
}

/// The parameter fields read from the fields, in order, or the first error.
pub open spec fn param_fields_spec(fields: Seq<FieldDecl>) -> Result<Seq<ParamFieldV>, Seq<char>>
    decreases fields.len(),
{
    if fields.len() == 0 {
        Ok(Seq::empty())
    } else {
        match param_fields_spec(fields.drop_last()) {
            Err(m) => Err(m),
            Ok(acc) => match param_field_spec(fields.last()) {
                Err(m) => Err(m),
                Ok(p) => Ok(acc.push(p)),
            },
        }
    }
}

/// Once a prefix of the fields gives an error, all of them give it.
proof fn lemma_params_err_prefix(fields: Seq<FieldDecl>, j: int)
    requires
        0 <= j <= fields.len(),
        param_fields_spec(fields.subrange(0, j)) is Err,
    ensures
        param_fields_spec(fields) == param_fields_spec(fields.subrange(0, j)),
    decreases fields.len() - j,
{
    if j < fields.len() {
        assert(fields.subrange(0, j + 1).drop_last() =~= fields.subrange(0, j));
        lemma_params_err_prefix(fields, j + 1);
    } else {
        assert(fields.subrange(0, j) =~= fields);
    }
}

/// The parameters of a list of parameter fields.
pub open spec fn params_of(v: Seq<ParamFieldV>) -> Seq<Seq<char>> {
    v.map_values(|p: ParamFieldV| p.param)
}

impl FileQuery {
    /// A file query named `ident` with nothing read yet.
    pub fn new(ident: String) -> (r: FileQuery)
        ensures
            r.ident@ == ident@,
            r.meta is None,
            r.params@.len() == 0,
    {
        FileQuery { ident, meta: None, params: Vec::new() }
    }

    /// Records the file of the query.
    pub fn with_meta(&mut self, meta: SrcFile)
        ensures
            final(self).meta == Some(meta),
            final(self).ident == old(self).ident,
            final(self).params == old(self).params,
    {
        self.meta = Some(meta);
    }

    /// The file query read from the fields of the struct named `ident`.
    pub fn parse(ident: String, fields: &Vec<FieldDecl>) -> (r: Result<FileQuery, MacroError>)
        requires
            fields_wf(fields@),
        ensures
            match r {
                Ok(q) => param_fields_spec(fields@) == Ok::<Seq<ParamFieldV>, Seq<char>>(param_views(q.params@))
                    && q.ident@ == ident@ && q.meta is None,
                Err(e) => param_fields_spec(fields@) == Err::<Seq<ParamFieldV>, Seq<char>>(e.message@),
            },
    {
        let mut params: Vec<ParamField> = Vec::new();
        let mut i: usize = 0;
        assert(fields@.subrange(0, 0) =~= Seq::<FieldDecl>::empty());
        assert(param_views(params@) =~= Seq::<ParamFieldV>::empty());
        while i < fields.len()
            invariant
                i <= fields.len(),
                fields_wf(fields@),
                param_fields_spec(fields@.subrange(0, i as int)) == Ok::<Seq<ParamFieldV>, Seq<char>>(param_views(params@)),
            decreases fields.len() - i,
        {
            assert(fields@.subrange(0, i + 1).drop_last() =~= fields@.subrange(0, i as int));
            assert(fields@.subrange(0, i + 1).last() == fields@[i as int]);
            assert(field_wf(fields@[i as int]));
            match ParamField::try_from(&fields[i]) {
                Err(e) => {
                    proof { lemma_params_err_prefix(fields@, i + 1); }
                    return Err(e);
                },
                Ok(p) => {
                    let ghost before = param_views(params@);
                    params.push(p);
                    assert(param_views(params@) =~= before.push(params@.last()@));
                },
            }
            i = i + 1;
        }
        assert(fields@.subrange(0, fields.len() as int) =~= fields@);
        Ok(FileQuery { ident, meta: None, params })
    }

    /// The parameters of the struct, in order.
    pub fn param_values(&self) -> (r: Vec<String>)
        ensures
            views(r@) == params_of(param_views(self.params@)),
    {
        let mut r: Vec<String> = Vec::new();
        let mut i: usize = 0;
        while i < self.params.len()
            invariant
                i <= self.params.len(),
                views(r@) == params_of(param_views(self.params@)).subrange(0, i as int),
            decreases self.params.len() - i,
        {
            let ghost before = views(r@);
            let p = self.params[i].param();
            r.push(p);
            assert(views(r@) =~= before.push(p@));
            assert(views(r@) =~= params_of(param_views(self.params@)).subrange(0, i + 1));
            i = i + 1;
        }
        assert(params_of(param_views(self.params@)).subrange(0, self.params.len() as int) =~= params_of(param_views(self.params@)));
        r
    }

    /// Checks the query text against the parameters of the struct: the
    /// parameters found in it must be those of the struct, in the same order.
    /// The query itself is handed back when they are.
    pub fn validate(&self, content: &str) -> (r: Result<&FileQuery, MacroError>)
        ensures
            match r {
                Ok(q) => validate_spec(content@, params_of(param_views(self.params@))) is Ok && q == self,
                Err(e) => validate_spec(content@, params_of(param_views(self.params@))) == Err::<(), Seq<char>>(e.message@),
            },
    {
        let matches = match regex_find_all(PARAM_PATTERN, content) {
            Ok(m) => m,
            Err(_) => return Err(MacroError::new(INVALID_PARAM_PATTERN)),
        };
        let values = self.param_values();
        match check_params(&matches, &values) {
            Ok(_) => Ok(self),
            Err(e) => Err(e),
        }
    }

    /// The (field name, parameter) pairs of the struct.
    pub fn get_param_labels(&self) -> (r: Vec<(String, String)>)
        ensures
            pair_views(r@) == param_views(self.params@).map_values(|p: ParamFieldV| (p.field.ident, p.param)),
    {
        let mut r: Vec<(String, String)> = Vec::new();
        let mut i: usize = 0;
        while i < self.params.len()
            invariant
                i <= self.params.len(),
                pair_views(r@) == param_views(self.params@).map_values(|p: ParamFieldV| (p.field.ident, p.param)).subrange(0, i as int),
            decreases self.params.len() - i,
        {
            let ghost before = pair_views(r@);
            let pair = (self.params[i].field.ident.clone(), self.params[i].param());
            r.push(pair);
            assert(pair_views(r@) =~= before.push((pair.0@, pair.1@)));
            assert(pair_views(r@) =~= param_views(self.params@).map_values(|p: ParamFieldV| (p.field.ident, p.param)).subrange(0, i + 1));
            i = i + 1;
        }
        assert(param_views(self.params@).map_values(|p: ParamFieldV| (p.field.ident, p.param)).subrange(0, self.params.len() as int)
            =~= param_views(self.params@).map_values(|p: ParamFieldV| (p.field.ident, p.param)));
        r
    }

    /// The fields of the struct of the query, each passed as its parameter.
    pub fn impl_fields(&self) -> (r: Vec<ImplBuilderField>)
        ensures
            impl_fields_views(r@) == param_views(self.params@).map_values(
                |p: ParamFieldV| ImplBuilderFieldV { field: p.field, field_cat: FieldCatV::Simple(p.param) },
            ),
    {
        let mut r: Vec<ImplBuilderField> = Vec::new();
        let mut i: usize = 0;
        while i < self.params.len()
            invariant
                i <= self.params.len(),
                impl_fields_views(r@) == param_views(self.params@).map_values(
                    |p: ParamFieldV| ImplBuilderFieldV { field: p.field, field_cat: FieldCatV::Simple(p.param) },
                ).subrange(0, i as int),
            decreases self.params.len() - i,
        {
            let ghost before = impl_fields_views(r@);
            let f = ImplBuilderField { field: self.params[i].field.copy(), field_cat: FieldCat::Simple(self.params[i].param()) };
            r.push(f);
            assert(impl_fields_views(r@) =~= before.push(f@));
            assert(impl_fields_views(r@) =~= param_views(self.params@).map_values(
                |p: ParamFieldV| ImplBuilderFieldV { field: p.field, field_cat: FieldCatV::Simple(p.param) },
            ).subrange(0, i + 1));
            i = i + 1;
        }
        assert(param_views(self.params@).map_values(
            |p: ParamFieldV| ImplBuilderFieldV { field: p.field, field_cat: FieldCatV::Simple(p.param) },
        ).subrange(0, self.params.len() as int) =~= param_views(self.params@).map_values(
            |p: ParamFieldV| ImplBuilderFieldV { field: p.field, field_cat: FieldCatV::Simple(p.param) },
        ));
        r
    }
}

} // verus!
