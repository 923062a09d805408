use vstd::prelude::*;
use vstd::string::*;

use crate::attributes_utils::get_field_ident;
use crate::constants::{
    BACKLINK, COLUMN_NAME, DEFAULT_VALUE, ENUM, FIELD, FILTER, FILTERS, INF_SIGN, LIMIT, META, MODULE, NAME,
    OPTIONS, ORDER_BY, ORDER_DIR, RESULT, SCALAR, SCALAR_TYPE, SELECT, SOURCE_TABLE, SUP_SIGN, TABLE,
    TARGET_COLUMN, TARGET_TABLE, TYPE, VALUE, WRAPPER_FN, CONJUNCTIVE, ASSIGNMENT,
};
use crate::error::MacroError;
use crate::helpers::explore::{
    attr_num_value, attr_path_written, attr_str_value, attr_written, find_attr_value, is_attr_written,
    is_path_attr_written,
};
use crate::model::{AttrMeta, Attribute, FieldDecl, Lit, NestedMeta, VariantDecl};
use crate::text::{
    copy_opt, decimal, ends_with_char, lower, ov, parse_u32, starts_with_char, str_ends_with_char, str_eq,
    str_is_empty, str_starts_with_char, to_lowercase, trim, trimmed, u32_text_value, u32_to_decimal,
};
use crate::type_utils::{is_type_name, type_is_named};

verus! {

/// The table named in `#[meta(module = "...", table = "...")]`.
pub struct EdgeDbMeta {
    pub module: Option<String>,
    pub table: Option<String>,
}

impl EdgeDbMeta {
    /// A table is named.
    pub fn is_valid(&self) -> (r: bool)
        ensures
            r == (self.table is Some),
    {
        self.table.is_some()
    }

    /// The table's full name, `module::table` (the module `default` unless
    /// written), when a table is named.
    pub fn value(&self) -> (r: Option<String>)
        ensures
            ov(r) == match (ov(self.module), ov(self.table)) {
                (_, None) => None,
                (Some(m), Some(t)) => Some(m + "::"@ + t),
                (None, Some(t)) => Some("default"@ + "::"@ + t),
            },
    {
        match &self.table {
            None => None,
            Some(t) => {
                let mut s = match &self.module {
                    Some(m) => m.clone(),
                    None => String::from_str("default"),
                };
                s.append("::");
                s.append(t.as_str());
                Some(s)
            },
        }
    }

    /// The module and table written in the field's `#[meta(...)]` attributes.
    pub fn from_field(field: &FieldDecl) -> (r: EdgeDbMeta)
        ensures
            ov(r.module) == attr_str_value(field.attrs@, META@, MODULE@),
            ov(r.table) == attr_str_value(field.attrs@, META@, TABLE@),
    {
        EdgeDbMeta {
            module: find_attr_value(&field.attrs, META, MODULE, false),
            table: find_attr_value(&field.attrs, META, TABLE, false),
        }
    }
}

/// A type written with the angle brackets it lacks: `<` unless the trimmed text
/// starts with it, then `>` unless the trimmed text ends with it.
pub open spec fn format_type_spec(i: Seq<char>) -> Seq<char> {
    let s = if starts_with_char(trimmed(i), '<') {
        i
    } else {
        "<"@ + i
    };
    if ends_with_char(trimmed(s), '>') {
        s
    } else {
        s + ">"@
    }
}

/// A type written with the angle brackets it lacks; see `format_type_spec`.
pub fn format_type(i: &str) -> (r: String)
    ensures
        r@ == format_type_spec(i@),
{
    let t = trim(i);
    let mut s = if str_starts_with_char(t.as_str(), '<') {
        String::from_str(i)
    } else {
        let mut x = String::from_str(INF_SIGN);
        x.append(i);
        x
    };
    let t2 = trim(s.as_str());
    if !str_ends_with_char(t2.as_str(), '>') {
        s.append(SUP_SIGN);
    }
    s
}

/// The scalar type written in `#[scalar(type = "...", name = "...", module = "...")]`.
pub struct EdgeDbType {
    pub exist: bool,
    pub ty: Option<String>,
    pub name: Option<String>,
    pub module: Option<String>,
}

/// The mathematical form of an `EdgeDbType`.
pub struct EdgeDbTypeV {
    pub exist: bool,
    pub ty: Option<Seq<char>>,
    pub name: Option<Seq<char>>,
    pub module: Option<Seq<char>>,
}

impl View for EdgeDbType {
    type V = EdgeDbTypeV;

    open spec fn view(&self) -> EdgeDbTypeV {
        EdgeDbTypeV { exist: self.exist, ty: ov(self.ty), name: ov(self.name), module: ov(self.module) }
    }
}

impl EdgeDbTypeV {
    /// The type is `enum`.
    pub open spec fn is_enum(self) -> bool {
        self.ty == Some(ENUM@)
    }

    /// A type is written, and: an enum has a name; any other type is not empty
    /// and has neither name nor module.
    pub open spec fn is_valid(self) -> bool {
        self.ty is Some && (if self.is_enum() {
            self.name is Some
        } else {
            self.ty->Some_0.len() > 0 && self.name is None && self.module is None
        })
    }

    /// The cast that the type gives: `<module::name>` for an enum (the module
    /// `default` unless written), `<type>` for any other, when valid.
    pub open spec fn value(self) -> Option<Seq<char>> {
        if self.is_valid() {
            if self.is_enum() {
                Some(format_type_spec(
                    match self.module { Some(m) => m, None => "default"@ } + "::"@ + self.name->Some_0,
                ))
            } else {
                Some(format_type_spec(self.ty->Some_0))
            }
        } else {
            None
        }
    }
}

/// The message for a `#[scalar]` with no type.
pub open spec fn scalar_type_missing_message() -> Seq<char> {
    "\n                    Please specify the scalar type by adding\n                    #[scalar(type=\"\")]\n                "@
}

/// The message for an enum `#[scalar]` with no name.
pub open spec fn enum_name_missing_message() -> Seq<char> {
    "\n                    If the scalar type is enum you must specify its name and its module as follow :\n                    #[scalar(type=\"enum\", name=\"...\", module=\"\")]\n                "@
}

/// The cast of a field: the one its `#[scalar(...)]` gives, or the `$scalar_type$`
/// mark; a `#[scalar]` without type, or an enum without name, is refused.
pub open spec fn get_type_spec(attrs: Seq<Attribute>) -> Result<Seq<char>, Seq<char>> {
    let t = EdgeDbTypeV {
        exist: attr_written(attrs, SCALAR@),
        ty: attr_str_value(attrs, SCALAR@, TYPE@),
        name: attr_str_value(attrs, SCALAR@, NAME@),
        module: attr_str_value(attrs, SCALAR@, MODULE@),
    };
    if t.exist && t.ty is None {
        Err(scalar_type_missing_message())
    } else if t.exist && t.is_enum() && t.name is None {
        Err(enum_name_missing_message())
    } else {
        match t.value() {
            Some(v) => Ok(v),
            None => Ok(SCALAR_TYPE@),
        }
    }
}

impl EdgeDbType {
    /// Whether the type is `enum`; a type must be written.
    pub fn is_enum(&self) -> (r: bool)
        requires
            self.ty is Some,
        ensures
            r == self@.is_enum(),
    {
        match &self.ty {
            Some(t) => str_eq(t.as_str(), ENUM),
            None => false,
        }
    }

    /// Whether the written type is complete; see `EdgeDbTypeV::is_valid`.
    pub fn is_valid(&self) -> (r: bool)
        ensures
            r == self@.is_valid(),
    {
        match &self.ty {
            None => false,
            Some(t) => if self.is_enum() {
                self.name.is_some()
            } else {
                !str_is_empty(t.as_str()) && self.name.is_none() && self.module.is_none()
            },
        }
    }

    /// The cast that the type gives; see `EdgeDbTypeV::value`.
    pub fn value(&self) -> (r: Option<String>)
        ensures
            ov(r) == self@.value(),
    {
        if self.is_valid() {
            if self.is_enum() {
                let mut s = match &self.module {
                    Some(m) => m.clone(),
                    None => String::from_str("default"),
                };
                s.append("::");
                match &self.name {
                    Some(n) => s.append(n.as_str()),
                    None => {},
                }
                Some(format_type(s.as_str()))
            } else {
                match &self.ty {
                    Some(t) => Some(format_type(t.as_str())),
                    None => None,
                }
            }
        } else {
            None
        }
    }

    /// The `#[scalar(...)]` written on the field.
    pub fn from_field(field: &FieldDecl) -> (r: EdgeDbType)
        ensures
            r@ == (EdgeDbTypeV {
                exist: attr_written(field.attrs@, SCALAR@),
                ty: attr_str_value(field.attrs@, SCALAR@, TYPE@),
                name: attr_str_value(field.attrs@, SCALAR@, NAME@),
                module: attr_str_value(field.attrs@, SCALAR@, MODULE@),
            }),
    {
        EdgeDbType {
            exist: is_attr_written(&field.attrs, SCALAR),
            ty: find_attr_value(&field.attrs, SCALAR, TYPE, false),
            name: find_attr_value(&field.attrs, SCALAR, NAME, false),
            module: find_attr_value(&field.attrs, SCALAR, MODULE, false),
        }
    }

    /// The cast of the field; see `get_type_spec`.
    pub fn get_type(field: &FieldDecl) -> (r: Result<String, MacroError>)
        ensures
            match r {
                Ok(s) => get_type_spec(field.attrs@) == Ok::<Seq<char>, Seq<char>>(s@),
                Err(e) => get_type_spec(field.attrs@) == Err::<Seq<char>, Seq<char>>(e.message@),
            },
    {
        let db_type = EdgeDbType::from_field(field);
        if db_type.exist {
            if db_type.ty.is_none() {
                return Err(MacroError::new("\n                    Please specify the scalar type by adding\n                    #[scalar(type=\"\")]\n                "));
            } else if db_type.is_enum() && db_type.name.is_none() {
                return Err(MacroError::new("\n                    If the scalar type is enum you must specify its name and its module as follow :\n                    #[scalar(type=\"enum\", name=\"...\", module=\"\")]\n                "));
            }
        }
        match db_type.value() {
            Some(v) => Ok(v),
            None => Ok(String::from_str(SCALAR_TYPE)),
        }
    }

    /// `name := (select <type>$name), ` for the field named `name`.
    pub fn build_field_assignment(field: &FieldDecl) -> (r: Result<String, MacroError>)
        requires
            field.named(),
        ensures
            match r {
                Ok(s) => get_type_spec(field.attrs@) is Ok && s@ == field.name() + " := ("@ + SELECT@ + " "@
                    + get_type_spec(field.attrs@)->Ok_0 + "$"@ + field.name() + "), "@,
                Err(e) => get_type_spec(field.attrs@) == Err::<Seq<char>, Seq<char>>(e.message@),
            },
    {
        let ty = match EdgeDbType::get_type(field) {
            Ok(t) => t,
            Err(e) => return Err(e),
        };
        let name = get_field_ident(field);
        let mut s = name.clone();
        s.append(" := (");
        s.append(SELECT);
        s.append(" ");
        s.append(ty.as_str());
        s.append("$");
        s.append(name.as_str());
        s.append("), ");
        Ok(s)
    }
}

/// The text an enum variant stands for, as written in `#[value("...")]`.
pub struct EdgeEnumValue {
    pub value: Option<String>,
}

/// The first string literal among the options, if it is not empty.
pub open spec fn first_lit_value(ns: Seq<NestedMeta>) -> Option<Seq<char>>
    decreases ns.len(),
{
    if ns.len() == 0 {
        None
    } else {
        match ns[0] {
            NestedMeta::Lit(Lit::Str(s)) => if s@.len() > 0 { Some(s@) } else { None },
            _ => first_lit_value(ns.drop_first()),
        }
    }
}

/// Reading the attributes of a variant in order: whether a `value` attribute was
/// met (`seen` for those before), and the value of the first `#[value(...)]`,
/// where the reading stops.
pub open spec fn enum_value_scan(attrs: Seq<Attribute>, seen: bool) -> (bool, Option<Seq<char>>)
    decreases attrs.len(),
{
    if attrs.len() == 0 {
        (seen, None)
    } else {
        match attrs[0].meta {
            AttrMeta::List(ns) => if attrs[0].is_named(VALUE@) {
                (true, first_lit_value(ns@))
            } else {
                enum_value_scan(attrs.drop_first(), seen)
            },
            AttrMeta::Path => enum_value_scan(attrs.drop_first(), seen || attrs[0].is_named(VALUE@)),
            _ => enum_value_scan(attrs.drop_first(), seen),
        }
    }
}

/// The message for a `value` attribute without a non-empty string.
pub open spec fn empty_enum_value_message(variant: Seq<char>) -> Seq<char> {
    " Please specify a non empty value #[value(\"...\")] for enum variant "@ + variant + " "@
}

/// The first string literal among the options, if it is not empty.
fn first_lit(ns: &Vec<NestedMeta>) -> (r: Option<String>)
    ensures
        ov(r) == first_lit_value(ns@),
{
    let mut i: usize = 0;
    assert(ns@.subrange(0, ns@.len() as int) =~= ns@);
    while i < ns.len()
        invariant
            i <= ns.len(),
            first_lit_value(ns@) == first_lit_value(ns@.subrange(i as int, ns@.len() as int)),
        decreases ns.len() - i,
    {
        let ghost rest = ns@.subrange(i as int, ns@.len() as int);
        assert(rest[0] == ns@[i as int]);
        assert(rest.drop_first() =~= ns@.subrange(i + 1, ns@.len() as int));
        if let NestedMeta::Lit(Lit::Str(s)) = &ns[i] {
            if str_is_empty(s.as_str()) {
                return None;
            }
            return Some(s.clone());
        }
        i = i + 1;
    }
    assert(ns@.subrange(ns@.len() as int, ns@.len() as int) =~= Seq::<NestedMeta>::empty());
    None
}

impl EdgeEnumValue {
    /// The value written on the variant; a `value` attribute without a non-empty
    /// string is refused.
    pub fn from_variant(variant: &VariantDecl) -> (r: Result<EdgeEnumValue, MacroError>)
        ensures
            match enum_value_scan(variant.attrs@, false) {
                (true, None) => r matches Err(e) && e.message@ == empty_enum_value_message(variant.ident@),
                (_, v) => r matches Ok(x) && ov(x.value) == v,
            },
    {
        let attrs = &variant.attrs;
        let mut exist = false;
        let mut i: usize = 0;
        assert(attrs@.subrange(0, attrs@.len() as int) =~= attrs@);
        while i < attrs.len()
            invariant
                i <= attrs.len(),
                attrs@ == variant.attrs@,
                enum_value_scan(attrs@, false) == enum_value_scan(attrs@.subrange(i as int, attrs@.len() as int), exist),
            decreases attrs.len() - i,
        {
            let ghost rest = attrs@.subrange(i as int, attrs@.len() as int);
            assert(rest[0] == attrs@[i as int]);
            assert(rest.drop_first() =~= attrs@.subrange(i + 1, attrs@.len() as int));
            let named = match path_ident(&attrs[i].path) {
                Some(p) => str_eq(p.as_str(), VALUE),
                None => false,
            };
            assert(named == attrs@[i as int].is_named(VALUE@));
            match &attrs[i].meta {
                AttrMeta::Path => {
                    if named {
                        exist = true;
                    }
                },
                AttrMeta::List(ns) => {
                    if named {
                        assert(rest[0].meta == AttrMeta::List(*ns));
                        assert(enum_value_scan(rest, exist) == (true, first_lit_value(ns@)));
                        let value = first_lit(ns);
                        if value.is_none() {
                            return Err(empty_value_error(&variant.ident));
                        }
                        return Ok(EdgeEnumValue { value });
                    }
                },
                _ => {},
            }
            i = i + 1;
        }
        assert(attrs@.subrange(i as int, attrs@.len() as int) =~= Seq::<Attribute>::empty());
        if exist {
            return Err(empty_value_error(&variant.ident));
        }
        Ok(EdgeEnumValue { value: None })
    }
}

/// The error for a `value` attribute without a non-empty string on `variant`.
fn empty_value_error(variant: &String) -> (e: MacroError)
    ensures
        e.message@ == empty_enum_value_message(variant@),
{
    let mut m = String::from_str(" Please specify a non empty value #[value(\"...\")] for enum variant ");
    m.append(variant.as_str());
    m.append(" ");
    MacroError { message: m }
}

/// The single identifier of a path, if it is one.
fn path_ident(path: &Vec<String>) -> (r: Option<String>)
    ensures
        path@.len() == 1 ==> (r matches Some(s) && s@ == path@[0]@),
        path@.len() != 1 ==> r is None,
{
    if path.len() == 1 {
        Some(path[0].clone())
    } else {
        None
    }
}

/// The ordering of a select: a column and, optionally, a direction.
pub struct OrderOption {
    pub order_by: String,
    pub order_dir: Option<String>,
}

/// What `#[result(type = "...", order_by = "...", order_dir = "...", limit = ...)]` says.
pub struct QueryResult {
    pub result_type: Option<String>,
    pub order: Option<OrderOption>,
    pub limit: Option<u32>,
}

/// The message for a direction other than `asc` or `desc`.
pub open spec fn order_dir_message() -> Seq<char> {
    "Only value 'asc' or 'desc' are accepted for attribute order_dir"@
}

/// The message for a direction without a column.
pub open spec fn order_by_message() -> Seq<char> {
    "order_by is required when order_dir is specified."@
}

/// The message for a limit that is not a number.
pub open spec fn limit_message() -> Seq<char> {
    "Limit attribute must be a number"@
}

/// The (result type, ordering column, direction, limit) read from a field's
/// `#[result(...)]` attributes, or the error.
pub open spec fn result_options_spec(attrs: Seq<Attribute>) -> Result<
    (Option<Seq<char>>, Option<(Seq<char>, Option<Seq<char>>)>, Option<u32>),
    Seq<char>,
> {
    let result = attr_str_value(attrs, RESULT@, TYPE@);
    let order_by = attr_str_value(attrs, RESULT@, ORDER_BY@);
    let order_dir = attr_str_value(attrs, RESULT@, ORDER_DIR@);
    let limit = attr_num_value(attrs, RESULT@, LIMIT@);
    let order: Result<Option<(Seq<char>, Option<Seq<char>>)>, Seq<char>> = match order_by {
        Some(o) => match order_dir {
            Some(d) => if d != "asc"@ && d != "desc"@ {
                Err(order_dir_message())
            } else {
                Ok(Some((o, order_dir)))
            },
            None => Ok(Some((o, order_dir))),
        },
        None => if order_dir is Some {
            Err(order_by_message())
        } else {
            Ok(None)
        },
    };
    match order {
        Err(m) => Err(m),
        Ok(order) => match limit {
            Some(l) => match u32_text_value(l) {
                Some(n) => Ok((result, order, Some(n))),
                None => Err(limit_message()),
            },
            None => Ok((result, order, None)),
        },
    }
}

/// The end of a select for `table`: ` order by table.column`, its direction,
/// ` limit n`, each when written.
pub open spec fn select_tail_spec(table: Seq<char>, order: Option<(Seq<char>, Option<Seq<char>>)>, limit: Option<u32>) -> Seq<char> {
    let o = match order {
        Some((by, dir)) => " order by "@ + table + "."@ + by + match dir {
            Some(d) => " "@ + d,
            None => Seq::empty(),
        },
        None => Seq::empty(),
    };
    o + match limit {
        Some(n) => " limit "@ + decimal(n as nat),
        None => Seq::empty(),
    }
}

impl QueryResult {
    /// A result type is named.
    pub fn has_result_type(&self) -> (r: bool)
        ensures
            r == (self.result_type is Some),
    {
        self.result_type.is_some()
    }

    /// What the field's `#[result(...)]` attributes say; see `result_options_spec`.
    pub fn from_field(field: &FieldDecl) -> (r: Result<QueryResult, MacroError>)
        ensures
            match r {
                Ok(q) => result_options_spec(field.attrs@) == Ok::<_, Seq<char>>((
                    ov(q.result_type),
                    match q.order {
                        Some(o) => Some((o.order_by@, ov(o.order_dir))),
                        None => None,
                    },
                    q.limit,
                )),
                Err(e) => result_options_spec(field.attrs@) == Err::<
                    (Option<Seq<char>>, Option<(Seq<char>, Option<Seq<char>>)>, Option<u32>),
                    Seq<char>,
                >(e.message@),
            },
    {
        let result = find_attr_value(&field.attrs, RESULT, TYPE, false);
        let order_by = find_attr_value(&field.attrs, RESULT, ORDER_BY, false);
        let order_dir = find_attr_value(&field.attrs, RESULT, ORDER_DIR, false);
        let limit = find_attr_value(&field.attrs, RESULT, LIMIT, true);
        proof {
            reveal_strlit("asc");
            reveal_strlit("desc");
        }
        let order = match order_by {
            Some(o) => {
                if let Some(dir) = &order_dir {
                    if !str_eq(dir.as_str(), "asc") && !str_eq(dir.as_str(), "desc") {
                        return Err(MacroError::new("Only value 'asc' or 'desc' are accepted for attribute order_dir"));
                    }
                }
                Some(OrderOption { order_by: o, order_dir })
            },
            None => {
                if order_dir.is_some() {
                    return Err(MacroError::new("order_by is required when order_dir is specified."));
                }
                None
            },
        };
        let limit = match limit {
            Some(l) => match parse_u32(l.as_str()) {
                Some(n) => Some(n),
                None => return Err(MacroError::new("Limit attribute must be a number")),
            },
            None => None,
        };
        Ok(QueryResult { result_type: result, order, limit })
    }

    /// The name of the result type: the one written, or `BasicResult`.
    pub fn to_ident(&self) -> (r: String)
        ensures
            r@ == match ov(self.result_type) {
                Some(t) => t,
                None => "BasicResult"@,
            },
    {
        match &self.result_type {
            Some(t) => t.clone(),
            None => String::from_str("BasicResult"),
        }
    }

    /// The end of a select on `table_name`; see `select_tail_spec`.
    pub fn complete_select_query(&self, table_name: &str) -> (r: String)
        ensures
            r@ == select_tail_spec(
                table_name@,
                match self.order {
                    Some(o) => Some((o.order_by@, ov(o.order_dir))),
                    None => None,
                },
                self.limit,
            ),
    {
        let mut ql = String::new();
        if let Some(order) = &self.order {
            ql.append(" order by ");
            ql.append(table_name);
            ql.append(".");
            ql.append(order.order_by.as_str());
            if let Some(dir) = &order.order_dir {
                ql.append(" ");
                ql.append(dir.as_str());
            }
        }
        if let Some(limit) = self.limit {
            ql.append(" limit ");
            let d = u32_to_decimal(limit);
            ql.append(d.as_str());
        }
        ql
    }
}


/// A filter operator, as the `#[filter(operator = "...")]` attribute names it.
#[derive(Clone, Copy, PartialEq, Eq, Structural, Debug)]
pub enum Operator {
    Exists,
    NotExists,
    Is,
    IsNot,
    Like,
    ILike,
    In,
    NotIn,
    GreaterThan,
    LesserThan,
    GreaterThanOrEqual,
    LesserThanOrEqual,
}

/// The message for a filter on a `()` field.
pub open spec fn unit_refused_message(s: Seq<char>) -> Seq<char> {
    "Type () is not accepted for Filter type "@ + s
}

/// The message for a filter only accepted on fields of type `tty`.
pub open spec fn only_type_message(op: Seq<char>, tty: Seq<char>) -> Seq<char> {
    "Filter type "@ + op + " is only accepted for field of type "@ + tty
}

/// The message for an unknown filter type.
pub open spec fn invalid_filter_type_message(s: Seq<char>) -> Seq<char> {
    "\n                    "@ + s + " is not a valid filter type.\n                    Only filter types :\n                      - Exists\n                      - Is\n                      - IsNot\n                      - Like\n                      - ILike\n                      - In\n                      - GreaterThan\n                      - GreaterThanOrEqual\n                      - LesserThan\n                      - LesserThanOrEqual\n                    are accepted\n                "@
}

/// The operator named by `s` (compared in lower case) for a field of type `ty`,
/// or the error: existence tests only on `()`, `Like` and `ILike` only on
/// `String`, `In` and `NotIn` only on `Vec`, the others on anything but `()`.
pub open spec fn attr_operator_spec(ty: crate::model::TypeV, s: Seq<char>) -> Result<Operator, Seq<char>> {
    let k = lower(s);
    let unit = type_is_named(ty, "()"@);
    if k == "exists"@ {
        if !unit { Err(only_type_message("Exists"@, "()"@)) } else { Ok(Operator::Exists) }
    } else if k == "notexists"@ || k == "!exists"@ {
        if !unit { Err(only_type_message("NotExists"@, "()"@)) } else { Ok(Operator::NotExists) }
    } else if k == "is"@ || k == "="@ {
        if unit { Err(unit_refused_message(s)) } else { Ok(Operator::Is) }
    } else if k == "isnot"@ || k == "!="@ {
        if unit { Err(unit_refused_message(s)) } else { Ok(Operator::IsNot) }
    } else if k == "like"@ {
        if unit { Err(unit_refused_message(s)) } else if !type_is_named(ty, "String"@) { Err(only_type_message("Like"@, "String"@)) } else { Ok(Operator::Like) }
    } else if k == "ilike"@ {
        if unit { Err(unit_refused_message(s)) } else if !type_is_named(ty, "String"@) { Err(only_type_message("ILike"@, "String"@)) } else { Ok(Operator::ILike) }
    } else if k == "in"@ {
        if unit { Err(unit_refused_message(s)) } else if !type_is_named(ty, "Vec"@) { Err(only_type_message("In"@, "Vec"@)) } else { Ok(Operator::In) }
    } else if k == "notin"@ {
        if unit { Err(unit_refused_message(s)) } else if !type_is_named(ty, "Vec"@) { Err(only_type_message("NotIn"@, "Vec"@)) } else { Ok(Operator::NotIn) }
    } else if k == "greaterthan"@ || k == ">"@ {
        if unit { Err(unit_refused_message(s)) } else { Ok(Operator::GreaterThan) }
    } else if k == "greaterthanorequal"@ || k == ">="@ {
        if unit { Err(unit_refused_message(s)) } else { Ok(Operator::GreaterThanOrEqual) }
    } else if k == "lesserthan"@ || k == "<"@ {
        if unit { Err(unit_refused_message(s)) } else { Ok(Operator::LesserThan) }
    } else if k == "lesserthanorequal"@ || k == "<="@ {
        if unit { Err(unit_refused_message(s)) } else { Ok(Operator::LesserThanOrEqual) }
    } else {
        Err(invalid_filter_type_message(s))
    }
}

/// The EdgeQL symbol of an operator.
pub open spec fn operator_symbol(o: Operator) -> Seq<char> {
    match o {
        Operator::Is => "="@,
        Operator::IsNot => "!="@,
        Operator::Like => "like"@,
        Operator::ILike => "ilike"@,
        Operator::In => "in"@,
        Operator::NotIn => "not in"@,
        Operator::GreaterThan => ">"@,
        Operator::LesserThan => "<"@,
        Operator::GreaterThanOrEqual => ">="@,
        Operator::LesserThanOrEqual => "<="@,
        Operator::Exists => "exists"@,
        Operator::NotExists => "not exists"@,
    }
}

/// The EdgeQL of a filter on a field named `name` with cast `ty`: ` symbol table.column`
/// for an existence test, else ` column symbol (select <ty>$name)`, the column passed
/// through the wrapper function if any; the column is the field's unless named.
pub open spec fn attr_filter_statement(
    o: Operator,
    table: Seq<char>,
    name: Seq<char>,
    ty: Seq<char>,
    column_name: Option<Seq<char>>,
    wrapper_fn: Option<Seq<char>>,
) -> Seq<char> {
    let column = match column_name { Some(c) => c, None => name };
    let wrapped = match wrapper_fn {
        Some(w) => w + "("@ + table + "."@ + column + ")"@,
        None => table + "."@ + column,
    };
    if o == Operator::Exists || o == Operator::NotExists {
        " "@ + operator_symbol(o) + " "@ + table + "."@ + column
    } else {
        " "@ + wrapped + " "@ + operator_symbol(o) + " ("@ + SELECT@ + " "@ + ty + "$"@ + name + ")"@
    }
}

/// The error for a filter only accepted on fields of type `tty`.
fn only_type_error(op: &str, tty: &str) -> (e: MacroError)
    ensures
        e.message@ == only_type_message(op@, tty@),
{
    let mut m = String::from_str("Filter type ");
    m.append(op);
    m.append(" is only accepted for field of type ");
    m.append(tty);
    MacroError { message: m }
}

impl Operator {
    /// The operator named by `s` for `field`; see `attr_operator_spec`.
    pub fn from_str(field: &FieldDecl, s: &str) -> (r: Result<Operator, MacroError>)
        requires
            field.attrs@.len() > 0 || attr_operator_spec(field.ty@, s@) is Ok,
        ensures
            match r {
                Ok(o) => attr_operator_spec(field.ty@, s@) == Ok::<Operator, Seq<char>>(o),
                Err(e) => attr_operator_spec(field.ty@, s@) == Err::<Operator, Seq<char>>(e.message@),
            },
    {
        let k = to_lowercase(s);
        let k = k.as_str();
        let unit = is_type_name(&field.ty, "()");
        proof {
            reveal_strlit("()");
        }
        if str_eq(k, "exists") {
            if !unit { Err(only_type_error("Exists", "()")) } else { Ok(Operator::Exists) }
        } else if str_eq(k, "notexists") || str_eq(k, "!exists") {
            if !unit { Err(only_type_error("NotExists", "()")) } else { Ok(Operator::NotExists) }
        } else if str_eq(k, "is") || str_eq(k, "=") {
            if unit { Err(MacroError::new2("Type () is not accepted for Filter type ", s)) } else { Ok(Operator::Is) }
        } else if str_eq(k, "isnot") || str_eq(k, "!=") {
            if unit { Err(MacroError::new2("Type () is not accepted for Filter type ", s)) } else { Ok(Operator::IsNot) }
        } else if str_eq(k, "like") {
            if unit { Err(MacroError::new2("Type () is not accepted for Filter type ", s)) }
            else if !is_type_name(&field.ty, "String") { Err(only_type_error("Like", "String")) }
            else { Ok(Operator::Like) }
        } else if str_eq(k, "ilike") {
            if unit { Err(MacroError::new2("Type () is not accepted for Filter type ", s)) }
            else if !is_type_name(&field.ty, "String") { Err(only_type_error("ILike", "String")) }
            else { Ok(Operator::ILike) }
        } else if str_eq(k, "in") {
            if unit { Err(MacroError::new2("Type () is not accepted for Filter type ", s)) }
            else if !is_type_name(&field.ty, "Vec") { Err(only_type_error("In", "Vec")) }
            else { Ok(Operator::In) }
        } else if str_eq(k, "notin") {
            if unit { Err(MacroError::new2("Type () is not accepted for Filter type ", s)) }
            else if !is_type_name(&field.ty, "Vec") { Err(only_type_error("NotIn", "Vec")) }
            else { Ok(Operator::NotIn) }
        } else if str_eq(k, "greaterthan") || str_eq(k, ">") {
            if unit { Err(MacroError::new2("Type () is not accepted for Filter type ", s)) } else { Ok(Operator::GreaterThan) }
        } else if str_eq(k, "greaterthanorequal") || str_eq(k, ">=") {
            if unit { Err(MacroError::new2("Type () is not accepted for Filter type ", s)) } else { Ok(Operator::GreaterThanOrEqual) }
        } else if str_eq(k, "lesserthan") || str_eq(k, "<") {
            if unit { Err(MacroError::new2("Type () is not accepted for Filter type ", s)) } else { Ok(Operator::LesserThan) }
        } else if str_eq(k, "lesserthanorequal") || str_eq(k, "<=") {
            if unit { Err(MacroError::new2("Type () is not accepted for Filter type ", s)) } else { Ok(Operator::LesserThanOrEqual) }
        } else {
            Err(MacroError::new3("\n                    ", s, " is not a valid filter type.\n                    Only filter types :\n                      - Exists\n                      - Is\n                      - IsNot\n                      - Like\n                      - ILike\n                      - In\n                      - GreaterThan\n                      - GreaterThanOrEqual\n                      - LesserThan\n                      - LesserThanOrEqual\n                    are accepted\n                "))
        }
    }

    /// The EdgeQL symbol of the operator.
    pub fn symbol(&self) -> (r: &'static str)
        ensures
            r@ == operator_symbol(*self),
    {
        match self {
            Operator::Is => "=",
            Operator::IsNot => "!=",
            Operator::Like => "like",
            Operator::ILike => "ilike",
            Operator::In => "in",
            Operator::NotIn => "not in",
            Operator::GreaterThan => ">",
            Operator::LesserThan => "<",
            Operator::GreaterThanOrEqual => ">=",
            Operator::LesserThanOrEqual => "<=",
            Operator::Exists => "exists",
            Operator::NotExists => "not exists",
        }
    }

    /// The EdgeQL of the filter on `table_name` for `field`; see
    /// `attr_filter_statement`, with the cast that the field's `#[scalar]` gives.
    pub fn build(&self, table_name: &str, field: &FieldDecl, column_name: Option<String>, wrapper_fn: Option<String>) -> (r: Result<String, MacroError>)
        requires
            field.named(),
        ensures
            match r {
                Ok(s) => get_type_spec(field.attrs@) is Ok && s@ == attr_filter_statement(
                    *self, table_name@, field.name(), get_type_spec(field.attrs@)->Ok_0, ov(column_name), ov(wrapper_fn),
                ),
                Err(e) => get_type_spec(field.attrs@) == Err::<Seq<char>, Seq<char>>(e.message@),
            },
    {
        let ty = match EdgeDbType::get_type(field) {
            Ok(t) => t,
            Err(e) => return Err(e),
        };
        let symbol = self.symbol();
        let is_exists = match self {
            Operator::Exists => true,
            Operator::NotExists => true,
            _ => false,
        };
        let field_name = get_field_ident(field);
        let column = match column_name {
            Some(c) => c,
            None => field_name.clone(),
        };
        let mut s = String::from_str(" ");
        if is_exists {
            s.append(symbol);
            s.append(" ");
            s.append(table_name);
            s.append(".");
            s.append(column.as_str());
        } else {
            match &wrapper_fn {
                Some(w) => {
                    s.append(w.as_str());
                    s.append("(");
                    s.append(table_name);
                    s.append(".");
                    s.append(column.as_str());
                    s.append(")");
                },
                None => {
                    s.append(table_name);
                    s.append(".");
                    s.append(column.as_str());
                },
            }
            s.append(" ");
            s.append(symbol);
            s.append(" (");
            s.append(SELECT);
            s.append(" ");
            s.append(ty.as_str());
            s.append("$");
            s.append(field_name.as_str());
            s.append(")");
        }
        Ok(s)
    }
}

/// How a filter joins the one before it.
#[derive(Clone, Copy, PartialEq, Eq, Structural, Debug)]
pub enum Conjunctive {
    And,
    Or,
}

impl Conjunctive {
    /// `and` or `or`.
    pub fn to_string(&self) -> (r: String)
        ensures
            r@ == match *self {
                Conjunctive::And => "and"@,
                Conjunctive::Or => "or"@,
            },
    {
        match self {
            Conjunctive::And => String::from_str("and"),
            Conjunctive::Or => String::from_str("or"),
        }
    }
}

/// What `#[filter(...)]` says of a field.
pub struct Filter {
    pub operator: Operator,
    pub conjunctive: Option<Conjunctive>,
    pub column_name: Option<String>,
    pub wrapper_fn: Option<String>,
}

/// The message for a field without `#[filter]`.
pub open spec fn missing_filter_message(name: Seq<char>) -> Seq<char> {
    "Please please add #[filter(operator=\"...\",)] attribute to field "@ + name
}

/// The message for a filter without operator.
pub open spec fn missing_operator_message() -> Seq<char> {
    "\n                    Please please add operator option to filter attribute\n                    #[filter(operator=\\\"...\\\")\n                "@
}

/// The message for an unknown conjunctive.
pub open spec fn invalid_conjunctive_message(c: Seq<char>) -> Seq<char> {
    "\n                    "@ + c + " is not a valid conjunctive type.\n                    Only conjunctives :\n                      - And\n                      - Or\n                    are accepted\n                "@
}

/// The message for a filter after the first without conjunctive.
pub open spec fn missing_conjunctive_message() -> Seq<char> {
    "\n                    Please specify conjunctive option to filter attribute\n                    #[filter(operator=\\\"...\\\"), conjunctive=\\\"...\\\"]\n                "@
}

/// The (operator, conjunctive) of the filter at position `index` of a query read
/// from `field`, or the error: the field needs `#[filter]` with an operator, and
/// every filter but the first a conjunctive, `And` or `Or`.
pub open spec fn attr_filter_spec(field: FieldDecl, index: int) -> Result<(Operator, Option<Conjunctive>), Seq<char>> {
    let attrs = field.attrs@;
    if !attr_written(attrs, FILTER@) {
        Err(missing_filter_message(field.name()))
    } else {
        match attr_str_value(attrs, FILTER@, crate::constants::OPERATOR@) {
            None => Err(missing_operator_message()),
            Some(op) => match attr_operator_spec(field.ty@, op) {
                Err(m) => Err(m),
                Ok(o) => match attr_str_value(attrs, FILTER@, CONJUNCTIVE@) {
                    Some(c) => if c == "Or"@ {
                        Ok((o, Some(Conjunctive::Or)))
                    } else if c == "And"@ {
                        Ok((o, Some(Conjunctive::And)))
                    } else {
                        Err(invalid_conjunctive_message(c))
                    },
                    None => if index > 0 {
                        Err(missing_conjunctive_message())
                    } else {
                        Ok((o, None))
                    },
                },
            },
        }
    }
}

impl Filter {
    /// The filter at position `index` read from `field`; see `attr_filter_spec`.
    /// The column and the wrapper function are those written.
    pub fn from_field(field: &FieldDecl, index: usize) -> (r: Result<Filter, MacroError>)
        requires
            field.named(),
        ensures
            match r {
                Ok(f) => attr_filter_spec(*field, index as int) == Ok::<_, Seq<char>>((f.operator, f.conjunctive))
                    && ov(f.column_name) == attr_str_value(field.attrs@, FILTER@, COLUMN_NAME@)
                    && ov(f.wrapper_fn) == attr_str_value(field.attrs@, FILTER@, WRAPPER_FN@),
                Err(e) => attr_filter_spec(*field, index as int) == Err::<(Operator, Option<Conjunctive>), Seq<char>>(e.message@),
            },
    {
        let exist = is_attr_written(&field.attrs, FILTER);
        let operator = find_attr_value(&field.attrs, FILTER, crate::constants::OPERATOR, false);
        let conjunctive = find_attr_value(&field.attrs, FILTER, CONJUNCTIVE, false);
        let column_name = find_attr_value(&field.attrs, FILTER, COLUMN_NAME, false);
        let wrapper_fn = find_attr_value(&field.attrs, FILTER, WRAPPER_FN, false);
        if !exist {
            let name = get_field_ident(field);
            return Err(MacroError::new2("Please please add #[filter(operator=\"...\",)] attribute to field ", name.as_str()));
        }
        proof {
            let i = choose|i: int| 0 <= i < field.attrs@.len() && #[trigger] field.attrs@[i].is_named(FILTER@)
                && (field.attrs@[i].meta is Path || field.attrs@[i].meta is List);
            assert(field.attrs@.len() > 0);
        }
        let operator = match operator {
            Some(op) => match Operator::from_str(field, op.as_str()) {
                Ok(o) => o,
                Err(e) => return Err(e),
            },
            None => return Err(MacroError::new("\n                    Please please add operator option to filter attribute\n                    #[filter(operator=\\\"...\\\")\n                ")),
        };
        proof {
            reveal_strlit("Or");
            reveal_strlit("And");
        }
        let conjunctive = match conjunctive {
            Some(c) => {
                if str_eq(c.as_str(), "Or") {
                    Some(Conjunctive::Or)
                } else if str_eq(c.as_str(), "And") {
                    Some(Conjunctive::And)
                } else {
                    return Err(MacroError::new3("\n                    ", c.as_str(), " is not a valid conjunctive type.\n                    Only conjunctives :\n                      - And\n                      - Or\n                    are accepted\n                "));
                }
            },
            None => {
                if index > 0 {
                    return Err(MacroError::new("\n                    Please specify conjunctive option to filter attribute\n                    #[filter(operator=\\\"...\\\"), conjunctive=\\\"...\\\"]\n                "));
                }
                None
            },
        };
        Ok(Filter { operator, conjunctive, column_name, wrapper_fn })
    }

    /// The EdgeQL of the filter at position `index` on `table_name`; every filter
    /// but the first starts with its conjunctive.
    pub fn build_filter_assignment(table_name: &str, field: &FieldDecl, index: usize) -> (r: Result<String, MacroError>)
        requires
            field.named(),
        ensures
            match attr_filter_spec(*field, index as int) {
                Err(m) => r matches Err(e) && e.message@ == m,
                Ok((o, c)) => match get_type_spec(field.attrs@) {
                    Err(m) => r matches Err(e) && e.message@ == m,
                    Ok(ty) => {
                        let q = attr_filter_statement(
                            o, table_name@, field.name(), ty,
                            attr_str_value(field.attrs@, FILTER@, COLUMN_NAME@),
                            attr_str_value(field.attrs@, FILTER@, WRAPPER_FN@),
                        );
                        r matches Ok(s) && s@ == if index == 0 {
                            q
                        } else {
                            " "@ + match c { Some(Conjunctive::And) => "and"@, _ => "or"@ } + q
                        }
                    },
                },
            },
    {
        let filter = match Filter::from_field(field, index) {
            Ok(f) => f,
            Err(e) => return Err(e),
        };
        let q = match filter.operator.build(table_name, field, filter.column_name, filter.wrapper_fn) {
            Ok(q) => q,
            Err(e) => return Err(e),
        };
        if index == 0 {
            Ok(q)
        } else {
            let c = match filter.conjunctive {
                Some(c) => c,
                None => Conjunctive::Or,
            };
            let mut s = String::from_str(" ");
            let cs = c.to_string();
            s.append(cs.as_str());
            s.append(q.as_str());
            Ok(s)
        }
    }
}

/// A field marked `#[filters]`.
pub struct Filters;

impl Filters {
    /// `Some` when a bare `#[filters]` is written on the field.
    pub fn from_field(field: &FieldDecl) -> (r: Option<Filters>)
        ensures
            r is Some == attr_path_written(field.attrs@, FILTERS@),
    {
        if is_path_attr_written(&field.attrs, FILTERS) { Some(Filters) } else { None }
    }
}

/// A field marked `#[options]`.
pub struct Options;

impl Options {
    /// `Some` when a bare `#[options]` is written on the field.
    pub fn from_field(field: &FieldDecl) -> (r: Option<Options>)
        ensures
            r is Some == attr_path_written(field.attrs@, OPTIONS@),
    {
        if is_path_attr_written(&field.attrs, OPTIONS) { Some(Options) } else { None }
    }
}


/// A field read through a back link, as `#[back_link(...)]` writes it.
pub struct QueryShape {
    pub module: String,
    pub source_table: String,
    pub target_table: String,
    pub target_column: String,
    pub result: String,
}

/// The message for an option missing from `#[back_link(...)]`.
pub open spec fn missing_shape_option_message(name: Seq<char>, field: Seq<char>) -> Seq<char> {
    "\n                Please add "@ + name + " attribute to query_shape macro on field "@ + field + "\n            "@
}

/// The message for an empty option.
pub open spec fn empty_option_message(name: Seq<char>) -> Seq<char> {
    "Non empty value required for "@ + name + " attribute"@
}

/// The value of the option `name` of `#[back_link(...)]`: it must be written and
/// not empty.
pub open spec fn shape_value_spec(field: FieldDecl, name: Seq<char>) -> Result<Seq<char>, Seq<char>> {
    match attr_str_value(field.attrs@, BACKLINK@, name) {
        Some(t) => if t.len() == 0 { Err(empty_option_message(name)) } else { Ok(t) },
        None => Err(missing_shape_option_message(name, field.name())),
    }
}

/// The five options of `#[back_link(...)]`, in the order they are checked, or
/// the first error.
pub open spec fn query_shape_spec(field: FieldDecl) -> Result<Seq<Seq<char>>, Seq<char>> {
    match shape_value_spec(field, MODULE@) {
        Err(m) => Err(m),
        Ok(a) => match shape_value_spec(field, SOURCE_TABLE@) {
            Err(m) => Err(m),
            Ok(b) => match shape_value_spec(field, TARGET_TABLE@) {
                Err(m) => Err(m),
                Ok(c) => match shape_value_spec(field, TARGET_COLUMN@) {
                    Err(m) => Err(m),
                    Ok(d) => match shape_value_spec(field, RESULT@) {
                        Err(m) => Err(m),
                        Ok(e) => Ok(seq![a, b, c, d, e]),
                    },
                },
            },
        },
    }
}

impl QueryShape {
    /// The value of the option `name`; see `shape_value_spec`.
    fn get_value(field: &FieldDecl, name: &str) -> (r: Result<String, MacroError>)
        requires
            field.named(),
        ensures
            match r {
                Ok(s) => shape_value_spec(*field, name@) == Ok::<Seq<char>, Seq<char>>(s@),
                Err(e) => shape_value_spec(*field, name@) == Err::<Seq<char>, Seq<char>>(e.message@),
            },
    {
        let field_name = get_field_ident(field);
        match find_attr_value(&field.attrs, BACKLINK, name, false) {
            Some(t) => QueryShape::required(t, name),
            None => {
                let mut m = String::from_str("\n                Please add ");
                m.append(name);
                m.append(" attribute to query_shape macro on field ");
                m.append(field_name.as_str());
                m.append("\n            ");
                Err(MacroError { message: m })
            },
        }
    }

    /// The value, which may not be empty.
    fn required(value: String, name: &str) -> (r: Result<String, MacroError>)
        ensures
            value@.len() == 0 ==> (r matches Err(e) && e.message@ == empty_option_message(name@)),
            value@.len() != 0 ==> (r matches Ok(s) && s@ == value@),
    {
        if str_is_empty(value.as_str()) {
            Err(MacroError::new3("Non empty value required for ", name, " attribute"))
        } else {
            Ok(value)
        }
    }

    /// The back link read from `field`; see `query_shape_spec`.
    pub fn from_field(field: &FieldDecl) -> (r: Result<QueryShape, MacroError>)
        requires
            field.named(),
        ensures
            match r {
                Ok(q) => query_shape_spec(*field) == Ok::<Seq<Seq<char>>, Seq<char>>(
                    seq![q.module@, q.source_table@, q.target_table@, q.target_column@, q.result@],
                ),
                Err(e) => query_shape_spec(*field) == Err::<Seq<Seq<char>>, Seq<char>>(e.message@),
            },
    {
        let module = match QueryShape::get_value(field, MODULE) { Ok(v) => v, Err(e) => return Err(e) };
        let source_table = match QueryShape::get_value(field, SOURCE_TABLE) { Ok(v) => v, Err(e) => return Err(e) };
        let target_table = match QueryShape::get_value(field, TARGET_TABLE) { Ok(v) => v, Err(e) => return Err(e) };
        let target_column = match QueryShape::get_value(field, TARGET_COLUMN) { Ok(v) => v, Err(e) => return Err(e) };
        let result = match QueryShape::get_value(field, RESULT) { Ok(v) => v, Err(e) => return Err(e) };
        Ok(QueryShape { module, source_table, target_table, target_column, result })
    }

    /// The EdgeQL that selects the linked objects, with the result type to shape them.
    pub fn build_assignment(field: &FieldDecl) -> (r: Result<(String, String), MacroError>)
        requires
            field.named(),
        ensures
            match query_shape_spec(*field) {
                Err(m) => r matches Err(e) && e.message@ == m,
                Ok(v) => r matches Ok(p) && p.0@ == crate::tags::backlink_field_tag::backlink_statement(v[0], v[1], v[3], v[2])
                    && p.1@ == v[4],
            },
    {
        let t = match QueryShape::from_field(field) {
            Ok(t) => t,
            Err(e) => return Err(e),
        };
        let tag = crate::tags::backlink_field_tag::BackLinkFieldTag {
            module: t.module,
            source_table: t.source_table,
            target_table: t.target_table,
            target_column: t.target_column,
            result: None,
        };
        Ok((tag.build_statement(), t.result))
    }
}

/// What `#[field(...)]` says of a field of a result.
pub struct ResultField {
    pub column_name: Option<String>,
    pub wrapper_fn: Option<String>,
    pub default_value: Option<String>,
}

/// The message for a `#[field]` that sets nothing.
pub open spec fn empty_result_field_message() -> Seq<char> {
    "#[field] must have at least column_name or wrapper_fn attribute"@
}

/// The message for a default value on the field itself.
pub open spec fn default_value_message(name: Seq<char>) -> Seq<char> {
    "default_value cannot be applied to the field "@ + name
}

/// The (column, wrapper function, default value) of a result field, or the error:
/// a written `#[field]` must set one of them, and a default value needs a wrapper
/// function or another column.
pub open spec fn attr_result_field_spec(field: FieldDecl) -> Result<(Option<Seq<char>>, Option<Seq<char>>, Option<Seq<char>>), Seq<char>> {
    let attrs = field.attrs@;
    let c = attr_str_value(attrs, FIELD@, COLUMN_NAME@);
    let w = attr_str_value(attrs, FIELD@, WRAPPER_FN@);
    let d = attr_str_value(attrs, FIELD@, DEFAULT_VALUE@);
    if attr_written(attrs, FIELD@) && c is None && w is None && d is None {
        Err(empty_result_field_message())
    } else if w is None && d is Some && c == Some(field.name()) {
        Err(default_value_message(field.name()))
    } else {
        Ok((c, w, d))
    }
}

impl ResultField {
    /// The result field read from `field`; see `attr_result_field_spec`.
    pub fn from_field(field: &FieldDecl) -> (r: Result<ResultField, MacroError>)
        requires
            field.named(),
        ensures
            match r {
                Ok(f) => attr_result_field_spec(*field) == Ok::<_, Seq<char>>((ov(f.column_name), ov(f.wrapper_fn), ov(f.default_value))),
                Err(e) => attr_result_field_spec(*field) == Err::<(Option<Seq<char>>, Option<Seq<char>>, Option<Seq<char>>), Seq<char>>(e.message@),
            },
    {
        let column_name = find_attr_value(&field.attrs, FIELD, COLUMN_NAME, false);
        let wrapper_fn = find_attr_value(&field.attrs, FIELD, WRAPPER_FN, false);
        let default_value = find_attr_value(&field.attrs, FIELD, DEFAULT_VALUE, false);
        let found = is_attr_written(&field.attrs, FIELD);
        let all_nones = column_name.is_none() && wrapper_fn.is_none() && default_value.is_none();
        if found && all_nones {
            return Err(MacroError::new("#[field] must have at least column_name or wrapper_fn attribute"));
        }
        if wrapper_fn.is_none() && default_value.is_some() {
            if let Some(c) = &column_name {
                let f_name = get_field_ident(field);
                if str_eq(c.as_str(), f_name.as_str()) {
                    return Err(MacroError::new2("default_value cannot be applied to the field ", f_name.as_str()));
                }
            }
        }
        Ok(ResultField { column_name, wrapper_fn, default_value })
    }

    /// The shape element of the field; see `result_field_statement`.
    pub fn build_statement(field: &FieldDecl) -> (r: Result<String, MacroError>)
        requires
            field.named(),
        ensures
            match attr_result_field_spec(*field) {
                Err(m) => r matches Err(e) && e.message@ == m,
                Ok((c, w, d)) => r matches Ok(s) && s@ == crate::tags::result_field_tag::result_field_statement(c, w, d, false, field.name()),
            },
    {
        let f = match ResultField::from_field(field) {
            Ok(f) => f,
            Err(e) => return Err(e),
        };
        let tag = crate::tags::result_field_tag::ResultFieldTag {
            column_name: f.column_name,
            wrapper_fn: f.wrapper_fn,
            default_value: f.default_value,
            link_property: false,
        };
        let name = get_field_ident(field);
        Ok(tag.build_statement(name.as_str()))
    }
}

/// How an update sets a column.
#[derive(Clone, Copy, PartialEq, Eq, Structural, Debug)]
pub enum SetOption {
    Assign,
    Concat,
    Push,
}

/// What `#[field(column_name = "...", assignment = "...")]` says of a set field.
pub struct SetField {
    pub column_name: Option<String>,
    pub option: SetOption,
}

/// The message for an unknown assignment.
pub open spec fn assignment_message() -> Seq<char> {
    "Only 'Concat', 'Assign' or 'Push' are allowed for assignment option"@
}

/// The set option of a field: the written assignment (in lower case `concat`,
/// `assign` or `push`), `Assign` when none is written.
pub open spec fn attr_set_option_spec(field: FieldDecl) -> Result<SetOption, Seq<char>> {
    match attr_str_value(field.attrs@, FIELD@, ASSIGNMENT@) {
        Some(a) => {
            let k = lower(a);
            if k == "concat"@ {
                Ok(SetOption::Concat)
            } else if k == "assign"@ {
                Ok(SetOption::Assign)
            } else if k == "push"@ {
                Ok(SetOption::Push)
            } else {
                Err(assignment_message())
            }
        },
        None => Ok(SetOption::Assign),
    }
}

/// The EdgeQL that sets the column from the field named `name` with cast `ty`.
pub open spec fn attr_set_statement(o: SetOption, column: Seq<char>, ty: Seq<char>, name: Seq<char>) -> Seq<char> {
    match o {
        SetOption::Assign => column + " := ("@ + SELECT@ + " "@ + ty + "$"@ + name + "), "@,
        SetOption::Concat => column + " := ."@ + column + " ++ ("@ + SELECT@ + " "@ + ty + "$"@ + name + "), "@,
        SetOption::Push => column + " += ("@ + SELECT@ + " "@ + ty + "$"@ + name + "), "@,
    }
}

/// The message for a push on a field that is not a `vec`.
pub open spec fn push_message() -> Seq<char> {
    "Push option is only allowed for vec type"@
}

impl SetField {
    /// The set field read from `field`; see `attr_set_option_spec`.
    pub fn from_field(field: &FieldDecl) -> (r: Result<SetField, MacroError>)
        ensures
            match r {
                Ok(f) => attr_set_option_spec(*field) == Ok::<SetOption, Seq<char>>(f.option)
                    && ov(f.column_name) == attr_str_value(field.attrs@, FIELD@, COLUMN_NAME@),
                Err(e) => attr_set_option_spec(*field) == Err::<SetOption, Seq<char>>(e.message@),
            },
    {
        let column_name = find_attr_value(&field.attrs, FIELD, COLUMN_NAME, false);
        let option = match find_attr_value(&field.attrs, FIELD, ASSIGNMENT, false) {
            Some(a) => {
                let k = to_lowercase(a.as_str());
                if str_eq(k.as_str(), "concat") {
                    SetOption::Concat
                } else if str_eq(k.as_str(), "assign") {
                    SetOption::Assign
                } else if str_eq(k.as_str(), "push") {
                    SetOption::Push
                } else {
                    return Err(MacroError::new("Only 'Concat', 'Assign' or 'Push' are allowed for assignment option"));
                }
            },
            None => SetOption::Assign,
        };
        Ok(SetField { column_name, option })
    }

    /// The EdgeQL that sets the column from the field; a push is only allowed on
    /// a field whose type is named `vec`.
    pub fn build_field_assignment(field: &FieldDecl) -> (r: Result<String, MacroError>)
        requires
            field.named(),
        ensures
            match get_type_spec(field.attrs@) {
                Err(m) => r matches Err(e) && e.message@ == m,
                Ok(ty) => match attr_set_option_spec(*field) {
                    Err(m) => r matches Err(e) && e.message@ == m,
                    Ok(o) => if o == SetOption::Push && !type_is_named(field.ty@, "vec"@) {
                        r matches Err(e) && e.message@ == push_message()
                    } else {
                        r matches Ok(s) && s@ == attr_set_statement(
                            o,
                            match attr_str_value(field.attrs@, FIELD@, COLUMN_NAME@) { Some(c) => c, None => field.name() },
                            ty,
                            field.name(),
                        )
                    },
                },
            },
    {
        let ty = match EdgeDbType::get_type(field) {
            Ok(t) => t,
            Err(e) => return Err(e),
        };
        let set_field = match SetField::from_field(field) {
            Ok(f) => f,
            Err(e) => return Err(e),
        };
        let fname = get_field_ident(field);
        let column = match set_field.column_name {
            Some(c) => c,
            None => fname.clone(),
        };
        let mut s = column.clone();
        match set_field.option {
            SetOption::Assign => {
                s.append(" := (");
            },
            SetOption::Concat => {
                s.append(" := .");
                s.append(column.as_str());
                s.append(" ++ (");
            },
            SetOption::Push => {
                if !is_type_name(&field.ty, "vec") {
                    return Err(MacroError::new("Push option is only allowed for vec type"));
                }
                s.append(" += (");
            },
        }
        s.append(SELECT);
        s.append(" ");
        s.append(ty.as_str());
        s.append("$");
        s.append(fname.as_str());
        s.append("), ");
        Ok(s)
    }
}

} // verus!
