use vstd::prelude::*;
use vstd::string::*;

use crate::queries::{QueryField, QueryFieldV};

verus! {

/// How the value of a field of a query is passed to the database: as one
/// parameter with its label, as the parameters of a nested query, as those of the
/// query run on a conflict, or not at all.
pub enum FieldCat {
    Simple(String),
    Nested,
    Conflict,
    Ignore,
}

/// The mathematical form of a `FieldCat`.
pub enum FieldCatV {
    Simple(Seq<char>),
    Nested,
    Conflict,
    Ignore,
}

impl View for FieldCat {
    type V = FieldCatV;

    open spec fn view(&self) -> FieldCatV {
        match self {
            FieldCat::Simple(s) => FieldCatV::Simple(s@),
            FieldCat::Nested => FieldCatV::Nested,
            FieldCat::Conflict => FieldCatV::Conflict,
            FieldCat::Ignore => FieldCatV::Ignore,
        }
    }
}

/// A field of the struct that a query macro writes, with the way its value is passed.
pub struct ImplBuilderField {
    pub field: QueryField,
    pub field_cat: FieldCat,
}

/// The mathematical form of an `ImplBuilderField`.
pub struct ImplBuilderFieldV {
    pub field: QueryFieldV,
    pub field_cat: FieldCatV,
}

impl View for ImplBuilderField {
    type V = ImplBuilderFieldV;

    open spec fn view(&self) -> ImplBuilderFieldV {
        ImplBuilderFieldV { field: self.field@, field_cat: self.field_cat@ }
    }
}

/// A piece of the EdgeQL text that a query writes, in the order the pieces
/// follow each other. The pieces whose text is only known when the query runs
/// (they depend on the values of the fields or on other types) are named by
/// what they stand for.
pub enum QueryPiece {
    /// Fixed text.
    Text(String),
    /// The statement of the query's element at this position (an assignment of
    /// an insert).
    Statement(usize),
    /// The `unless conflict` clause of an insert.
    Conflict,
    /// The filters of the query.
    Filters,
    /// The `set { ... }` of an update.
    Sets,
    /// The ordering, offset and limit of a select.
    Options,
    /// The shape of the query's result type.
    Shape,
}

/// The mathematical form of a `QueryPiece`.
pub enum QueryPieceV {
    Text(Seq<char>),
    Statement(usize),
    Conflict,
    Filters,
    Sets,
    Options,
    Shape,
}

impl View for QueryPiece {
    type V = QueryPieceV;

    open spec fn view(&self) -> QueryPieceV {
        match self {
            QueryPiece::Text(s) => QueryPieceV::Text(s@),
            QueryPiece::Statement(i) => QueryPieceV::Statement(*i),
            QueryPiece::Conflict => QueryPieceV::Conflict,
            QueryPiece::Filters => QueryPieceV::Filters,
            QueryPiece::Sets => QueryPieceV::Sets,
            QueryPiece::Options => QueryPieceV::Options,
            QueryPiece::Shape => QueryPieceV::Shape,
        }
    }
}

/// The views of a list of pieces.
pub open spec fn pieces_views(v: Seq<QueryPiece>) -> Seq<QueryPieceV> {
    v.map_values(|p: QueryPiece| p@)
}

/// The pieces that stand for the first `n` statements, in order.
pub open spec fn statement_pieces(n: nat) -> Seq<QueryPieceV> {
    Seq::new(n, |i: int| QueryPieceV::Statement(i as usize))
}

/// The views of a list of fields.
pub open spec fn impl_fields_views(v: Seq<ImplBuilderField>) -> Seq<ImplBuilderFieldV> {
    v.map_values(|f: ImplBuilderField| f@)
}

} // verus!
