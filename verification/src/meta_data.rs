use vstd::prelude::*;
use vstd::string::*;

use crate::constants::{
    BASIC_RESULT, DEFAULT_MODULE, EXPECT_LIT, EXPECT_META, EXPECT_NON_EMPTY_LIT, EXPECT_SRC,
    EXPECT_TABLE, EXPECT_VALUE, MODULE, RESULT, SRC, TABLE, UNSUPPORTED_ATTRIBUTE, VALUE,
};
use crate::error::MacroError;
use crate::model::Lit;
use crate::text::{copy_opt, ov, str_eq, str_is_empty};

verus! {

/// The kind of a `name = "value"` argument of a query macro.
#[derive(Clone, Copy, PartialEq, Eq, Structural, Debug)]
pub enum DataType {
    Module,
    Table,
    Result,
    Src,
    Value,
}

/// Which arguments beyond `module` and `table` a macro accepts.
#[derive(Clone, Copy, PartialEq, Eq, Structural, Debug)]
pub struct MetaFlags {
    pub with_result: bool,
    pub with_src: bool,
    pub with_value: bool,
}

/// The message for an argument that the macro does not take.
pub open spec fn unsupported(name: Seq<char>) -> Seq<char> {
    UNSUPPORTED_ATTRIBUTE@ + " `"@ + name + "`"@
}

/// The kind of the argument `name`, or the error when the macro does not take it.
pub open spec fn data_type_spec(name: Seq<char>, flags: MetaFlags) -> Result<DataType, Seq<char>> {
    if name == MODULE@ {
        Ok(DataType::Module)
    } else if name == TABLE@ {
        Ok(DataType::Table)
    } else if name == RESULT@ {
        if flags.with_result { Ok(DataType::Result) } else { Err(unsupported(name)) }
    } else if name == SRC@ {
        if flags.with_src { Ok(DataType::Src) } else { Err(unsupported(name)) }
    } else if name == VALUE@ {
        if flags.with_value { Ok(DataType::Value) } else { Err(unsupported(name)) }
    } else {
        Err(unsupported(name))
    }
}

impl DataType {
    /// The kind of the argument named `value`.
    pub fn try_from(value: &str, flags: MetaFlags) -> (r: Result<DataType, MacroError>)
        ensures
            match r {
                Ok(d) => data_type_spec(value@, flags) == Ok::<DataType, Seq<char>>(d),
                Err(e) => data_type_spec(value@, flags) == Err::<DataType, Seq<char>>(e.message@),
            },
    {
        let err = MacroError::new3("Unsupported attribute `", value, "`");
        proof {
            assert(UNSUPPORTED_ATTRIBUTE@ + " `"@ =~= "Unsupported attribute `"@) by {
                reveal_strlit("Unsupported attribute");
                reveal_strlit(" `");
                reveal_strlit("Unsupported attribute `");
            }
        }
        if str_eq(value, MODULE) {
            Ok(DataType::Module)
        } else if str_eq(value, TABLE) {
            Ok(DataType::Table)
        } else if str_eq(value, RESULT) {
            if flags.with_result { Ok(DataType::Result) } else { Err(err) }
        } else if str_eq(value, SRC) {
            if flags.with_src { Ok(DataType::Src) } else { Err(err) }
        } else if str_eq(value, VALUE) {
            if flags.with_value { Ok(DataType::Value) } else { Err(err) }
        } else {
            Err(err)
        }
    }
}

/// The arguments given to a query macro, each kind by its last value.
pub struct MetaArgs {
    pub module: Option<String>,
    pub table: Option<String>,
    pub result: Option<String>,
    pub src: Option<String>,
    pub value: Option<String>,
}

/// The mathematical form of `MetaArgs`.
pub struct MetaArgsV {
    pub module: Option<Seq<char>>,
    pub table: Option<Seq<char>>,
    pub result: Option<Seq<char>>,
    pub src: Option<Seq<char>>,
    pub value: Option<Seq<char>>,
}

impl View for MetaArgs {
    type V = MetaArgsV;

    open spec fn view(&self) -> MetaArgsV {
        MetaArgsV {
            module: ov(self.module),
            table: ov(self.table),
            result: ov(self.result),
            src: ov(self.src),
            value: ov(self.value),
        }
    }
}

impl MetaArgsV {
    /// Nothing given.
    pub open spec fn empty() -> MetaArgsV {
        MetaArgsV { module: None, table: None, result: None, src: None, value: None }
    }

    /// The arguments after one more value of kind `d`.
    pub open spec fn with(self, d: DataType, v: Seq<char>) -> MetaArgsV {
        match d {
            DataType::Module => MetaArgsV { module: Some(v), ..self },
            DataType::Table => MetaArgsV { table: Some(v), ..self },
            DataType::Result => MetaArgsV { result: Some(v), ..self },
            DataType::Src => MetaArgsV { src: Some(v), ..self },
            DataType::Value => MetaArgsV { value: Some(v), ..self },
        }
    }
}

/// The arguments after one more `name = lit`: the value must be a non-empty string,
/// and the name one that the macro takes.
pub open spec fn meta_arg_spec(m: MetaArgsV, name: Seq<char>, lit: Lit, flags: MetaFlags) -> Result<MetaArgsV, Seq<char>> {
    match lit {
        Lit::Str(s) => if s@.len() == 0 {
            Err(EXPECT_NON_EMPTY_LIT@)
        } else {
            match data_type_spec(name, flags) {
                Err(msg) => Err(msg),
                Ok(d) => Ok(m.with(d, s@)),
            }
        },
        _ => Err(EXPECT_LIT@),
    }
}

/// The arguments after a list of `name = lit`, taken in order.
pub open spec fn meta_args_spec(args: Seq<(String, Lit)>, flags: MetaFlags) -> Result<MetaArgsV, Seq<char>>
    decreases args.len(),
{
    if args.len() == 0 {
        Ok(MetaArgsV::empty())
    } else {
        match meta_args_spec(args.drop_last(), flags) {
            Err(msg) => Err(msg),
            Ok(m) => meta_arg_spec(m, args.last().0@, args.last().1, flags),
        }
    }
}

/// Once a prefix of the arguments gives an error, the whole list gives it.
proof fn lemma_meta_err_prefix(args: Seq<(String, Lit)>, flags: MetaFlags, j: int)
    requires
        0 <= j <= args.len(),
        meta_args_spec(args.subrange(0, j), flags) is Err,
    ensures
        meta_args_spec(args, flags) == meta_args_spec(args.subrange(0, j), flags),
    decreases args.len() - j,
{
    if j < args.len() {
        assert(args.subrange(0, j + 1).drop_last() =~= args.subrange(0, j));
        lemma_meta_err_prefix(args, flags, j + 1);
    } else {
        assert(args.subrange(0, j) =~= args);
    }
}

/// Reads the `name = lit` arguments of a query macro, in order.
pub fn parse_meta_args(args: &Vec<(String, Lit)>, flags: MetaFlags) -> (r: Result<MetaArgs, MacroError>)
    ensures
        match r {
            Ok(m) => meta_args_spec(args@, flags) == Ok::<MetaArgsV, Seq<char>>(m@),
            Err(e) => meta_args_spec(args@, flags) == Err::<MetaArgsV, Seq<char>>(e.message@),
        },
{
    let mut m = MetaArgs { module: None, table: None, result: None, src: None, value: None };
    let mut i: usize = 0;
    assert(args@.subrange(0, 0) =~= Seq::<(String, Lit)>::empty());
    while i < args.len()
        invariant
            i <= args.len(),
            meta_args_spec(args@.subrange(0, i as int), flags) == Ok::<MetaArgsV, Seq<char>>(m@),
        decreases args.len() - i,
    {
        assert(args@.subrange(0, i + 1).drop_last() =~= args@.subrange(0, i as int));
        assert(args@.subrange(0, i + 1).last() == args@[i as int]);
        let (name, lit) = (&args[i].0, &args[i].1);
        match lit {
            Lit::Str(s) => {
                if str_is_empty(s.as_str()) {
                    proof { lemma_meta_err_prefix(args@, flags, i + 1); }
                    return Err(MacroError::new(EXPECT_NON_EMPTY_LIT));
                }
                match DataType::try_from(name.as_str(), flags) {
                    Err(e) => {
                        proof { lemma_meta_err_prefix(args@, flags, i + 1); }
                        return Err(e);
                    },
                    Ok(DataType::Module) => m.module = Some(s.clone()),
                    Ok(DataType::Table) => m.table = Some(s.clone()),
                    Ok(DataType::Result) => m.result = Some(s.clone()),
                    Ok(DataType::Src) => m.src = Some(s.clone()),
                    Ok(DataType::Value) => m.value = Some(s.clone()),
                }
            },
            _ => {
                proof { lemma_meta_err_prefix(args@, flags, i + 1); }
                return Err(MacroError::new(EXPECT_LIT));
            },
        }
        i = i + 1;
    }
    assert(args@.subrange(0, args.len() as int) =~= args@);
    Ok(m)
}

/// The module and the table that a query reads or writes.
pub struct TableInfo {
    pub module: String,
    pub table: String,
}

/// `module::table`
pub open spec fn table_name_spec(module: Seq<char>, table: Seq<char>) -> Seq<char> {
    module + "::"@ + table
}

/// The table of a query: the table is required, the module is `default` unless given.
pub open spec fn table_info_spec(m: MetaArgsV) -> Result<(Seq<char>, Seq<char>), Seq<char>> {
    match m.table {
        Some(t) => Ok((match m.module { Some(x) => x, None => DEFAULT_MODULE@ }, t)),
        None => Err(EXPECT_TABLE@),
    }
}

impl TableInfo {
    /// The table's full name, `module::table`.
    pub fn table_name(&self) -> (r: String)
        ensures
            r@ == table_name_spec(self.module@, self.table@),
    {
        let mut s = self.module.clone();
        s.append("::");
        s.append(self.table.as_str());
        s
    }

    /// A copy of the table.
    pub fn copy(&self) -> (r: TableInfo)
        ensures
            r.module@ == self.module@,
            r.table@ == self.table@,
    {
        TableInfo { module: self.module.clone(), table: self.table.clone() }
    }

    /// Reads the arguments of `delete_query` (and of `update_query`): `module` and `table`.
    pub fn parse(args: &Vec<(String, Lit)>) -> (r: Result<TableInfo, MacroError>)
        ensures
            match meta_args_spec(args@, MetaFlags { with_result: false, with_src: false, with_value: false }) {
                Err(msg) => r matches Err(e) && e.message@ == msg,
                Ok(m) => match table_info_spec(m) {
                    Err(msg) => r matches Err(e) && e.message@ == msg,
                    Ok((module, table)) => r matches Ok(t) && t.module@ == module && t.table@ == table,
                },
            },
    {
        let m = match parse_meta_args(args, MetaFlags { with_result: false, with_src: false, with_value: false }) {
            Ok(m) => m,
            Err(e) => return Err(e),
        };
        let mut b = TableInfoBuilder::new();
        if let Some(x) = m.module {
            b.arg(DataType::Module, x);
        }
        if let Some(x) = m.table {
            b.arg(DataType::Table, x);
        }
        b.build()
    }
}

/// Collects the `module` and `table` arguments of a query macro.
pub struct TableInfoBuilder {
    pub module: Option<String>,
    pub table: Option<String>,
}

impl TableInfoBuilder {
    /// The builder with nothing set.
    pub fn new() -> (r: TableInfoBuilder)
        ensures
            r.module is None,
            r.table is None,
    {
        TableInfoBuilder { module: None, table: None }
    }

    /// Takes one argument; the kinds other than `module` and `table` are ignored.
    pub fn arg(&mut self, meta: DataType, value: String)
        ensures
            ov(final(self).module) == if meta == DataType::Module { Some(value@) } else { ov(old(self).module) },
            ov(final(self).table) == if meta == DataType::Table { Some(value@) } else { ov(old(self).table) },
    {
        match meta {
            DataType::Module => self.module = Some(value),
            DataType::Table => self.table = Some(value),
            _ => {},
        }
    }

    /// The table: it must be given; the module is `default` unless given.
    pub fn build(&self) -> (r: Result<TableInfo, MacroError>)
        ensures
            match table_info_spec(MetaArgsV { module: ov(self.module), table: ov(self.table), ..MetaArgsV::empty() }) {
                Ok((module, table)) => r matches Ok(t) && t.module@ == module && t.table@ == table,
                Err(msg) => r matches Err(e) && e.message@ == msg,
            },
    {
        match &self.table {
            Some(table) => Ok(TableInfo {
                module: match &self.module {
                    Some(x) => x.clone(),
                    None => String::from_str(DEFAULT_MODULE),
                },
                table: table.clone(),
            }),
            None => Err(MacroError::new(EXPECT_TABLE)),
        }
    }
}

/// The table of a query and the type of its result, if one is named.
pub struct QueryMetaData {
    pub meta: TableInfo,
    pub result: Option<String>,
}

impl QueryMetaData {
    /// The table's full name, `module::table`.
    pub fn table_name(&self) -> (r: String)
        ensures
            r@ == table_name_spec(self.meta.module@, self.meta.table@),
    {
        self.meta.table_name()
    }

    /// Whether a result type is named.
    pub fn has_result(&self) -> (r: bool)
        ensures
            r == (self.result is Some),
    {
        self.result.is_some()
    }

    /// The name of the result type: the one given, or `BasicResult`.
    pub fn result(&self) -> (r: String)
        ensures
            r@ == match ov(self.result) {
                Some(x) => x,
                None => BASIC_RESULT@,
            },
    {
        match &self.result {
            Some(x) => x.clone(),
            None => String::from_str(BASIC_RESULT),
        }
    }

    /// A copy of the metadata.
    pub fn copy(&self) -> (r: QueryMetaData)
        ensures
            r.meta.module@ == self.meta.module@,
            r.meta.table@ == self.meta.table@,
            ov(r.result) == ov(self.result),
    {
        QueryMetaData { meta: self.meta.copy(), result: copy_opt(&self.result) }
    }

    /// Reads the arguments of `insert_query` and `select_query`: `module`, `table`
    /// and `result`.
    pub fn parse(args: &Vec<(String, Lit)>) -> (r: Result<QueryMetaData, MacroError>)
        ensures
            match meta_args_spec(args@, MetaFlags { with_result: true, with_src: false, with_value: false }) {
                Err(msg) => r matches Err(e) && e.message@ == msg,
                Ok(m) => match table_info_spec(m) {
                    Err(msg) => r matches Err(e) && e.message@ == msg,
                    Ok((module, table)) => r matches Ok(q) && q.meta.module@ == module && q.meta.table@ == table
                        && ov(q.result) == m.result,
                },
            },
    {
        let m = match parse_meta_args(args, MetaFlags { with_result: true, with_src: false, with_value: false }) {
            Ok(m) => m,
            Err(e) => return Err(e),
        };
        let mut b = QueryMetaDataBuilder::new();
        if let Some(x) = m.module {
            b.arg(DataType::Module, x);
        }
        if let Some(x) = m.table {
            b.arg(DataType::Table, x);
        }
        if let Some(x) = m.result {
            b.arg(DataType::Result, x);
        }
        b.build()
    }
}

/// Collects the `module`, `table` and `result` arguments of a query macro.
pub struct QueryMetaDataBuilder {
    pub meta_builder: TableInfoBuilder,
    pub result: Option<String>,
}

impl QueryMetaDataBuilder {
    /// The builder with nothing set.
    pub fn new() -> (r: QueryMetaDataBuilder)
        ensures
            r.meta_builder.module is None,
            r.meta_builder.table is None,
            r.result is None,
    {
        QueryMetaDataBuilder { meta_builder: TableInfoBuilder::new(), result: None }
    }

    /// Takes one argument; `src` and `value` are ignored.
    pub fn arg(&mut self, meta: DataType, value: String)
        ensures
            ov(final(self).meta_builder.module) == if meta == DataType::Module { Some(value@) } else { ov(old(self).meta_builder.module) },
            ov(final(self).meta_builder.table) == if meta == DataType::Table { Some(value@) } else { ov(old(self).meta_builder.table) },
            ov(final(self).result) == if meta == DataType::Result { Some(value@) } else { ov(old(self).result) },
    {
        match meta {
            DataType::Module | DataType::Table => self.meta_builder.arg(meta, value),
            DataType::Result => self.result = Some(value),
            _ => {},
        }
    }

    /// The table (it must be given) and the result type, if any.
    pub fn build(&self) -> (r: Result<QueryMetaData, MacroError>)
        ensures
            match table_info_spec(MetaArgsV { module: ov(self.meta_builder.module), table: ov(self.meta_builder.table), ..MetaArgsV::empty() }) {
                Ok((module, table)) => r matches Ok(q) && q.meta.module@ == module && q.meta.table@ == table
                    && ov(q.result) == ov(self.result),
                Err(msg) => r matches Err(e) && e.message@ == msg,
            },
    {
        match self.meta_builder.build() {
            Ok(meta) => Ok(QueryMetaData { meta, result: copy_opt(&self.result) }),
            Err(e) => Err(e),
        }
    }
}

/// The path of the file that holds a query.
pub struct SrcFile(pub String);

impl SrcFile {
    /// Reads the arguments of `file_query`: `src` is required.
    pub fn parse(args: &Vec<(String, Lit)>) -> (r: Result<SrcFile, MacroError>)
        ensures
            match meta_args_spec(args@, MetaFlags { with_result: false, with_src: true, with_value: false }) {
                Err(msg) => r matches Err(e) && e.message@ == msg,
                Ok(m) => match m.src {
                    None => r matches Err(e) && e.message@ == EXPECT_SRC@,
                    Some(s) => r matches Ok(f) && f.0@ == s,
                },
            },
    {
        let m = match parse_meta_args(args, MetaFlags { with_result: false, with_src: true, with_value: false }) {
            Ok(m) => m,
            Err(e) => return Err(e),
        };
        let mut b = SrcFileBuilder { src: None };
        if let Some(x) = m.src {
            b.arg(DataType::Src, x);
        }
        b.build()
    }
}

/// What came of reading the file of a query.
pub enum SourceRead {
    /// The current directory could not be found.
    NoCurrentDir,
    /// The file at this path does not exist.
    NotFound(String),
    /// The file could not be opened, for the reason given.
    OpenFailed(String),
    /// The file was opened but could not be read.
    ReadFailed,
    /// The text of the file.
    Content(String),
}

/// The message for a query file that is missing.
pub open spec fn not_found_message(path: Seq<char>) -> Seq<char> {
    "Source file '"@ + path + "' is not found"@
}

impl SrcFile {
    /// The query text read from the file: any failure to read it, or an empty
    /// file, is an error.
    pub fn get_content(&self, read: SourceRead) -> (r: Result<String, MacroError>)
        ensures
            match read {
                SourceRead::NoCurrentDir => r matches Err(e) && e.message@ == "Failed to retrieve current project dir "@,
                SourceRead::NotFound(p) => r matches Err(e) && e.message@ == not_found_message(p@),
                SourceRead::OpenFailed(m) => r matches Err(e) && e.message@ == m@,
                SourceRead::ReadFailed => r matches Err(e) && e.message@ == "Cannot read source file"@,
                SourceRead::Content(c) => if c@.len() == 0 {
                    r matches Err(e) && e.message@ == "Source file content cannot be empty"@
                } else {
                    r matches Ok(s) && s@ == c@
                },
            },
    {
        match read {
            SourceRead::NoCurrentDir => Err(MacroError::new("Failed to retrieve current project dir ")),
            SourceRead::NotFound(p) => Err(MacroError::new3("Source file '", p.as_str(), "' is not found")),
            SourceRead::OpenFailed(m) => Err(MacroError { message: m }),
            SourceRead::ReadFailed => Err(MacroError::new("Cannot read source file")),
            SourceRead::Content(c) => {
                if str_is_empty(c.as_str()) {
                    Err(MacroError::new("Source file content cannot be empty"))
                } else {
                    Ok(c)
                }
            },
        }
    }
}

/// Collects the `src` argument of `file_query`.
pub struct SrcFileBuilder {
    pub src: Option<String>,
}

impl SrcFileBuilder {
    /// Takes one argument; only `src` is kept.
    pub fn arg(&mut self, meta: DataType, value: String)
        ensures
            ov(final(self).src) == if meta == DataType::Src { Some(value@) } else { ov(old(self).src) },
    {
        if let DataType::Src = meta {
            self.src = Some(value);
        }
    }

    /// The file: `src` must be given.
    pub fn build(&self) -> (r: Result<SrcFile, MacroError>)
        ensures
            match ov(self.src) {
                None => r matches Err(e) && e.message@ == EXPECT_SRC@,
                Some(s) => r matches Ok(f) && f.0@ == s,
            },
    {
        match &self.src {
            Some(s) => Ok(SrcFile(s.clone())),
            None => Err(MacroError::new(EXPECT_SRC)),
        }
    }
}

/// The text of a query written in the macro's arguments.
pub struct SrcValue(pub String);

/// The message for an empty query text.
pub open spec fn empty_value_message() -> Seq<char> {
    "Query value cannot be empty"@
}

impl SrcValue {
    /// Reads the arguments of `query`: `value` is required.
    pub fn parse(args: &Vec<(String, Lit)>) -> (r: Result<SrcValue, MacroError>)
        ensures
            match meta_args_spec(args@, MetaFlags { with_result: false, with_src: false, with_value: true }) {
                Err(msg) => r matches Err(e) && e.message@ == msg,
                Ok(m) => match m.value {
                    None => r matches Err(e) && e.message@ == EXPECT_VALUE@,
                    Some(s) => r matches Ok(f) && f.0@ == s,
                },
            },
    {
        let m = match parse_meta_args(args, MetaFlags { with_result: false, with_src: false, with_value: true }) {
            Ok(m) => m,
            Err(e) => return Err(e),
        };
        let mut b = SrcValueBuilder { value: None };
        if let Some(x) = m.value {
            b.arg(DataType::Value, x);
        }
        b.build()
    }

    /// The query text; it may not be empty.
    pub fn get_content(&self) -> (r: Result<String, MacroError>)
        ensures
            self.0@.len() == 0 ==> (r matches Err(e) && e.message@ == empty_value_message()),
            self.0@.len() != 0 ==> (r matches Ok(s) && s@ == self.0@),
    {
        if str_is_empty(self.0.as_str()) {
            Err(MacroError::new("Query value cannot be empty"))
        } else {
            Ok(self.0.clone())
        }
    }
}

/// Collects the `value` argument of `query`.
pub struct SrcValueBuilder {
    pub value: Option<String>,
}

impl SrcValueBuilder {
    /// Takes one argument; only `value` is kept.
    pub fn arg(&mut self, meta: DataType, value: String)
        ensures
            ov(final(self).value) == if meta == DataType::Value { Some(value@) } else { ov(old(self).value) },
    {
        if let DataType::Value = meta {
            self.value = Some(value);
        }
    }

    /// The query text: `value` must be given.
    pub fn build(&self) -> (r: Result<SrcValue, MacroError>)
        ensures
            match ov(self.value) {
                None => r matches Err(e) && e.message@ == EXPECT_VALUE@,
                Some(s) => r matches Ok(f) && f.0@ == s,
            },
    {
        match &self.value {
            Some(s) => Ok(SrcValue(s.clone())),
            None => Err(MacroError::new(EXPECT_VALUE)),
        }
    }
}

/// The metadata of a query, which its macro's arguments must have given.
pub fn try_get_meta<R>(meta: Option<R>) -> (r: Result<R, MacroError>)
    ensures
        match meta {
            Some(m) => r == Ok::<R, MacroError>(m),
            None => r matches Err(e) && e.message@ == EXPECT_META@,
        },
{
    match meta {
        Some(m) => Ok(m),
        None => Err(MacroError::new(EXPECT_META)),
    }
}

} // verus!
