use vstd::prelude::*;
use vstd::string::*;

use crate::constants::{
    BACKLINK, DEFAULT_MODULE, EXPECT_NAMED_LIT, EXPECT_NON_EMPTY_LIT, INVALID_BACKLINK_TAG, MODULE,
    RESULT, SOURCE_TABLE, TARGET_COLUMN, TARGET_TABLE,
};
use crate::error::MacroError;
use crate::model::{FieldDecl, Lit};
use crate::text::{copy_opt, ov, remove_chars, str_eq, str_is_empty, views, without_chars};

verus! {

/// A field of a result that is read through a back link.
pub struct BackLinkFieldTag {
    pub module: String,
    pub source_table: String,
    pub target_table: String,
    pub target_column: String,
    /// The result type of the linked objects; when none is written, the type of
    /// the field (inside its `Vec`) is used.
    pub result: Option<String>,
}

/// The EdgeQL that selects the objects linked back to the source table.
pub open spec fn backlink_statement(module: Seq<char>, source: Seq<char>, column: Seq<char>, table: Seq<char>) -> Seq<char> {
    "select "@ + module + "::"@ + source + ".<"@ + column + "[is "@ + module + "::"@ + table + "]"@
}

impl BackLinkFieldTag {
    /// `select {module}::{source}.<{column}[is {module}::{table}]`
    pub fn build_statement(&self) -> (r: String)
        ensures
            r@ == backlink_statement(self.module@, self.source_table@, self.target_column@, self.target_table@),
    {
        let mut s = String::from_str("select ");
        s.append(self.module.as_str());
        s.append("::");
        s.append(self.source_table.as_str());
        s.append(".<");
        s.append(self.target_column.as_str());
        s.append("[is ");
        s.append(self.module.as_str());
        s.append("::");
        s.append(self.target_table.as_str());
        s.append("]");
        s
    }
}

/// One option written in `#[back_link(...)]`.
pub enum BackLinkOptionV {
    Module(Seq<char>),
    SourceTable(Seq<char>),
    TargetTable(Seq<char>),
    TargetColumn(Seq<char>),
    Result(Seq<char>),
}

/// The option that `name = lit` stands for in `#[back_link(...)]`, or the error.
pub open spec fn backlink_option_spec(name: Seq<char>, lit: Lit) -> Result<BackLinkOptionV, Seq<char>> {
    match lit {
        Lit::Str(v) => if v@.len() == 0 {
            Err(EXPECT_NON_EMPTY_LIT@)
        } else if name == MODULE@ {
            Ok(BackLinkOptionV::Module(v@))
        } else if name == SOURCE_TABLE@ {
            Ok(BackLinkOptionV::SourceTable(v@))
        } else if name == TARGET_TABLE@ {
            Ok(BackLinkOptionV::TargetTable(v@))
        } else if name == TARGET_COLUMN@ {
            Ok(BackLinkOptionV::TargetColumn(v@))
        } else if name == RESULT@ {
            Ok(BackLinkOptionV::Result(v@))
        } else {
            Err(INVALID_BACKLINK_TAG@)
        },
        _ => Err(EXPECT_NAMED_LIT@),
    }
}

/// One option written in `#[back_link(...)]`.
pub enum BackLinkFieldTagOptions {
    Module(String),
    SourceTable(String),
    TargetTable(String),
    TargetColumn(String),
    Result(String),
}

impl View for BackLinkFieldTagOptions {
    type V = BackLinkOptionV;

    open spec fn view(&self) -> BackLinkOptionV {
        match self {
            BackLinkFieldTagOptions::Module(v) => BackLinkOptionV::Module(v@),
            BackLinkFieldTagOptions::SourceTable(v) => BackLinkOptionV::SourceTable(v@),
            BackLinkFieldTagOptions::TargetTable(v) => BackLinkOptionV::TargetTable(v@),
            BackLinkFieldTagOptions::TargetColumn(v) => BackLinkOptionV::TargetColumn(v@),
            BackLinkFieldTagOptions::Result(v) => BackLinkOptionV::Result(v@),
        }
    }
}

impl BackLinkFieldTagOptions {
    /// Reads one `name = lit` option of `#[back_link(...)]`.
    pub fn try_from(path: &Vec<String>, lit: &Lit) -> (r: Result<BackLinkFieldTagOptions, MacroError>)
        requires
            path@.len() == 1,
        ensures
            match r {
                Ok(o) => backlink_option_spec(path@[0]@, *lit) == Ok::<BackLinkOptionV, Seq<char>>(o@),
                Err(e) => backlink_option_spec(path@[0]@, *lit) == Err::<BackLinkOptionV, Seq<char>>(e.message@),
            },
    {
        match lit {
            Lit::Str(value) => {
                if str_is_empty(value.as_str()) {
                    return Err(MacroError::new(EXPECT_NON_EMPTY_LIT));
                }
                let name = path[0].as_str();
                if str_eq(name, MODULE) {
                    Ok(BackLinkFieldTagOptions::Module(value.clone()))
                } else if str_eq(name, SOURCE_TABLE) {
                    Ok(BackLinkFieldTagOptions::SourceTable(value.clone()))
                } else if str_eq(name, TARGET_TABLE) {
                    Ok(BackLinkFieldTagOptions::TargetTable(value.clone()))
                } else if str_eq(name, TARGET_COLUMN) {
                    Ok(BackLinkFieldTagOptions::TargetColumn(value.clone()))
                } else if str_eq(name, RESULT) {
                    Ok(BackLinkFieldTagOptions::Result(value.clone()))
                } else {
                    Err(MacroError::new(INVALID_BACKLINK_TAG))
                }
            },
            _ => Err(MacroError::new(EXPECT_NAMED_LIT)),
        }
    }
}

/// Collects the options of `#[back_link(...)]`.
pub struct BackLinkFieldTagBuilder {
    pub module: Option<String>,
    pub source_table: Option<String>,
    pub target_table: Option<String>,
    pub target_column: Option<String>,
    pub result: Option<String>,
}

/// The mathematical form of a `BackLinkFieldTagBuilder`.
pub struct BackLinkBuilderV {
    pub module: Option<Seq<char>>,
    pub source_table: Option<Seq<char>>,
    pub target_table: Option<Seq<char>>,
    pub target_column: Option<Seq<char>>,
    pub result: Option<Seq<char>>,
}

impl View for BackLinkFieldTagBuilder {
    type V = BackLinkBuilderV;

    open spec fn view(&self) -> BackLinkBuilderV {
        BackLinkBuilderV {
            module: ov(self.module),
            source_table: ov(self.source_table),
            target_table: ov(self.target_table),
            target_column: ov(self.target_column),
            result: ov(self.result),
        }
    }
}

impl BackLinkBuilderV {
    /// The builder after one more option; the source table loses its parentheses.
    pub open spec fn with(self, o: BackLinkOptionV) -> BackLinkBuilderV {
        match o {
            BackLinkOptionV::Module(v) => BackLinkBuilderV { module: Some(v), ..self },
            BackLinkOptionV::SourceTable(v) => BackLinkBuilderV { source_table: Some(without_chars(v, '(', ')')), ..self },
            BackLinkOptionV::TargetTable(v) => BackLinkBuilderV { target_table: Some(v), ..self },
            BackLinkOptionV::TargetColumn(v) => BackLinkBuilderV { target_column: Some(v), ..self },
            BackLinkOptionV::Result(v) => BackLinkBuilderV { result: Some(v), ..self },
        }
    }

    /// The builder with nothing set.
    pub open spec fn empty() -> BackLinkBuilderV {
        BackLinkBuilderV { module: None, source_table: None, target_table: None, target_column: None, result: None }
    }
}

/// The message when the option `name` is missing.
pub open spec fn missing_option(name: Seq<char>) -> Seq<char> {
    "Option "@ + name + " expected"@
}

/// The tag that a builder yields, or the first missing option among the source
/// table, the target table and the target column. The module is `default` unless written.
pub open spec fn backlink_spec(b: BackLinkBuilderV) -> Result<(Seq<char>, Seq<char>, Seq<char>, Seq<char>, Option<Seq<char>>), Seq<char>> {
    if b.source_table is None {
        Err(missing_option(SOURCE_TABLE@))
    } else if b.target_table is None {
        Err(missing_option(TARGET_TABLE@))
    } else if b.target_column is None {
        Err(missing_option(TARGET_COLUMN@))
    } else {
        Ok((
            match b.module { Some(m) => m, None => DEFAULT_MODULE@ },
            b.source_table->Some_0,
            b.target_table->Some_0,
            b.target_column->Some_0,
            b.result,
        ))
    }
}

fn get_value(value: &Option<String>, value_name: &str) -> (r: Result<String, MacroError>)
    ensures
        match ov(*value) {
            Some(v) => r matches Ok(s) && s@ == v,
            None => r matches Err(e) && e.message@ == missing_option(value_name@),
        },
{
    match value {
        Some(v) => Ok(v.clone()),
        None => Err(MacroError::new3("Option ", value_name, " expected")),
    }
}

impl BackLinkFieldTagBuilder {
    /// The builder with nothing set.
    pub fn new() -> (r: BackLinkFieldTagBuilder)
        ensures
            r@ == BackLinkBuilderV::empty(),
    {
        BackLinkFieldTagBuilder { module: None, source_table: None, target_table: None, target_column: None, result: None }
    }

    /// The names of the attributes that this builder reads.
    pub fn tag_names(&self) -> (r: Vec<String>)
        ensures
            views(r@) == seq![BACKLINK@],
    {
        let mut v: Vec<String> = Vec::new();
        v.push(String::from_str(BACKLINK));
        assert(views(v@) =~= seq![BACKLINK@]);
        v
    }

    /// Takes one `name = lit` option of `#[back_link(...)]`.
    pub fn arg(&mut self, path: &Vec<String>, lit: &Lit) -> (r: Result<(), MacroError>)
        requires
            path@.len() == 1,
        ensures
            match backlink_option_spec(path@[0]@, *lit) {
                Ok(o) => r is Ok && final(self)@ == old(self)@.with(o),
                Err(m) => r matches Err(e) && e.message@ == m && final(self)@ == old(self)@,
            },
    {
        match BackLinkFieldTagOptions::try_from(path, lit) {
            Err(e) => Err(e),
            Ok(BackLinkFieldTagOptions::Module(v)) => {
                self.module = Some(v);
                Ok(())
            },
            Ok(BackLinkFieldTagOptions::SourceTable(v)) => {
                self.source_table = Some(remove_chars(v.as_str(), '(', ')'));
                Ok(())
            },
            Ok(BackLinkFieldTagOptions::TargetTable(v)) => {
                self.target_table = Some(v);
                Ok(())
            },
            Ok(BackLinkFieldTagOptions::TargetColumn(v)) => {
                self.target_column = Some(v);
                Ok(())
            },
            Ok(BackLinkFieldTagOptions::Result(v)) => {
                self.result = Some(v);
                Ok(())
            },
        }
    }

    /// The back-link tag of a field.
    pub fn build(&self, field: &FieldDecl) -> (r: Result<BackLinkFieldTag, MacroError>)
        ensures
            match r {
                Ok(t) => backlink_spec(self@) == Ok::<_, Seq<char>>(
                    (t.module@, t.source_table@, t.target_table@, t.target_column@, ov(t.result)),
                ),
                Err(e) => backlink_spec(self@) == Err::<(Seq<char>, Seq<char>, Seq<char>, Seq<char>, Option<Seq<char>>), Seq<char>>(e.message@),
            },
    {
        let module = match &self.module {
            Some(m) => m.clone(),
            None => String::from_str(DEFAULT_MODULE),
        };
        let source_table = match get_value(&self.source_table, SOURCE_TABLE) {
            Ok(v) => v,
            Err(e) => return Err(e),
        };
        let target_table = match get_value(&self.target_table, TARGET_TABLE) {
            Ok(v) => v,
            Err(e) => return Err(e),
        };
        let target_column = match get_value(&self.target_column, TARGET_COLUMN) {
            Ok(v) => v,
            Err(e) => return Err(e),
        };
        Ok(BackLinkFieldTag { module, source_table, target_table, target_column, result: copy_opt(&self.result) })
    }
}

} // verus!
