use vstd::prelude::*;
use vstd::string::*;

verus! {

/// A literal written in an attribute.
pub enum Lit {
    Str(String),
    Bool(bool),
    /// An integer literal, by its base-10 digits.
    Int(String),
    Other,
}

/// One element inside the brackets of an attribute such as `#[field(a = "b")]`.
pub enum NestedMeta {
    /// A bare literal, as in `#[param("name")]`.
    Lit(Lit),
    /// A bare path, as in `#[x(y)]`.
    Path(Vec<String>),
    /// A nested list, as in `#[x(y(z))]`; only its path is kept.
    List(Vec<String>),
    /// `name = literal`.
    NameValue(Vec<String>, Lit),
}

/// What an attribute holds after its path.
pub enum AttrMeta {
    /// `#[name]`
    Path,
    /// `#[name(...)]`
    List(Vec<NestedMeta>),
    /// `#[name = literal]`
    NameValue(Lit),
    /// Tokens that do not form a meta item; the text is the parser's complaint.
    Invalid(String),
}

/// An attribute on a struct field or an enum variant.
pub struct Attribute {
    /// The segments of the attribute's path.
    pub path: Vec<String>,
    pub meta: AttrMeta,
}

/// The generic arguments written after the first segment of a type path.
pub enum PathArgs {
    /// No arguments.
    NoArgs,
    /// `<T, ...>` where the first argument is a type.
    AngleType(Box<RustType>),
    /// `<...>` where the first argument is not a type, or no argument at all.
    AngleOther,
    /// `(...)`, as in `Fn(A) -> B`.
    Parenthesized,
}

/// The type of a struct field.
pub enum RustType {
    /// A path type such as `Option<String>` or `uuid::Uuid`: the identifiers of
    /// its segments, and the arguments of its first segment.
    Path { segments: Vec<String>, first_args: PathArgs },
    /// A tuple type, the unit type `()` among them.
    Tuple,
    /// Any other form of type.
    Other,
}

/// The mathematical form of a field type.
pub enum TypeV {
    Path(Seq<Seq<char>>, ArgsV),
    Tuple,
    Other,
}

/// The mathematical form of the first segment's generic arguments.
pub enum ArgsV {
    NoArgs,
    AngleType(Box<TypeV>),
    AngleOther,
    Parenthesized,
}

impl RustType {
    /// The type as a mathematical value.
    pub open spec fn view_type(&self) -> TypeV
        decreases self,
    {
        match self {
            RustType::Path { segments, first_args } => TypeV::Path(
                crate::text::views(segments@),
                match first_args {
                    PathArgs::NoArgs => ArgsV::NoArgs,
                    PathArgs::AngleType(t) => ArgsV::AngleType(Box::new(t.view_type())),
                    PathArgs::AngleOther => ArgsV::AngleOther,
                    PathArgs::Parenthesized => ArgsV::Parenthesized,
                },
            ),
            RustType::Tuple => TypeV::Tuple,
            RustType::Other => TypeV::Other,
        }
    }
}

impl View for RustType {
    type V = TypeV;

    open spec fn view(&self) -> TypeV {
        self.view_type()
    }
}

/// A named or unnamed struct field, by its position in the struct.
pub struct FieldDecl {
    pub index: usize,
    pub ident: Option<String>,
    pub ty: RustType,
    pub attrs: Vec<Attribute>,
}

/// An enum variant.
pub struct VariantDecl {
    pub ident: String,
    pub attrs: Vec<Attribute>,
}

impl Attribute {
    /// The path of the attribute is a single identifier.
    pub open spec fn is_simple(&self) -> bool {
        self.path@.len() == 1
    }

    /// The attribute's name, when its path is a single identifier.
    pub open spec fn name(&self) -> Seq<char> {
        self.path@[0]@
    }

    /// The path is exactly the single identifier `n`.
    pub open spec fn is_named(&self, n: Seq<char>) -> bool {
        self.is_simple() && self.name() == n
    }
}

/// Every attribute of the list has a single-identifier path.
pub open spec fn simple_attrs(attrs: Seq<Attribute>) -> bool {
    forall|i: int| 0 <= i < attrs.len() ==> #[trigger] attrs[i].is_simple()
}

impl FieldDecl {
    /// Every attribute of the field has a single-identifier path.
    pub open spec fn simple(&self) -> bool {
        simple_attrs(self.attrs@)
    }

    /// The field has a name.
    pub open spec fn named(&self) -> bool {
        self.ident is Some
    }

    /// The field's name.
    pub open spec fn name(&self) -> Seq<char> {
        self.ident->Some_0@
    }
}

/// A copy of a list of path segments.
pub fn copy_path(p: &Vec<String>) -> (r: Vec<String>)
    ensures
        r@ == p@,
{
    crate::text::copy_strings(p)
}

impl Lit {
    /// A copy of the literal.
    pub fn copy(&self) -> (r: Lit)
        ensures
            r == *self,
    {
        match self {
            Lit::Str(s) => Lit::Str(s.clone()),
            Lit::Bool(b) => Lit::Bool(*b),
            Lit::Int(s) => Lit::Int(s.clone()),
            Lit::Other => Lit::Other,
        }
    }
}

impl RustType {
    /// A copy of the type.
    pub fn copy(&self) -> (r: RustType)
        ensures
            r@ == self@,
        decreases self,
    {
        match self {
            RustType::Path { segments, first_args } => {
                let args = match first_args {
                    PathArgs::NoArgs => PathArgs::NoArgs,
                    PathArgs::AngleType(t) => PathArgs::AngleType(Box::new((**t).copy())),
                    PathArgs::AngleOther => PathArgs::AngleOther,
                    PathArgs::Parenthesized => PathArgs::Parenthesized,
                };
                RustType::Path { segments: crate::text::copy_strings(segments), first_args: args }
            },
            RustType::Tuple => RustType::Tuple,
            RustType::Other => RustType::Other,
        }
    }
}

} // verus!
