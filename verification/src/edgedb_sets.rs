use vstd::prelude::*;
use vstd::string::*;

use crate::constants::{EDGEQL, INVALID_SETS_TAG};
use crate::error::MacroError;
use crate::insert_query::second_of;
use crate::model::FieldDecl;
use crate::queries::{check_duplicate_parameter_labels, duplicate_check_spec, labels_of};
use crate::statements::filters::pair_views;
use crate::statements::nested_query::nested_statement_spec;
use crate::statements::set::{
    SetStatement, SetStatementV, UpdateSetStatement, UpdateSetStatementV, set_labels, set_statement_spec,
    set_views, sets_from_fields, sets_from_fields_spec,
};
use crate::tags::builders::fields_wf;
use crate::text::{replace_all, replace_str, views};

verus! {

/// A struct of sets that an update can take as one field.
pub struct EdgedbSets {
    pub ident: String,
    pub set_statement: UpdateSetStatement,
}

/// The sets read from the fields of a struct, with no parameter label twice.
pub open spec fn edgedb_sets_spec(fields: Seq<FieldDecl>) -> Result<UpdateSetStatementV, Seq<char>> {
    match sets_from_fields_spec(fields, Seq::empty(), true, INVALID_SETS_TAG@) {
        Err(m) => Err(m),
        Ok(s) => match duplicate_check_spec(second_of(match s {
            UpdateSetStatementV::ManySet(v) => set_labels(v),
            _ => Seq::empty(),
        })) {
            Err(m) => Err(m),
            Ok(_) => Ok(s),
        },
    }
}

/// The EdgeQL of one set; a nested query's mark is replaced by `nested`, the
/// EdgeQL of the nested query.
pub open spec fn set_clause_spec(s: SetStatementV, nested: Seq<char>) -> Seq<char> {
    match s {
        SetStatementV::Simple(u) => set_statement_spec(u, false),
        SetStatementV::Nested(n) => replace_all(nested_statement_spec(n), EDGEQL@, nested),
    }
}

/// The set clauses one after the other (each ends with `, `).
pub open spec fn set_clauses(v: Seq<SetStatementV>, nested: Seq<Seq<char>>) -> Seq<char>
    decreases v.len(),
{
    if v.len() == 0 {
        Seq::empty()
    } else {
        set_clauses(v.drop_last(), nested) + set_clause_spec(v.last(), nested[v.len() - 1])
    }
}

/// The EdgeQL of the sets: `set { `, the clauses with the last `, ` dropped, ` }`.
pub open spec fn sets_edgeql_spec(s: UpdateSetStatementV, nested: Seq<Seq<char>>) -> Seq<char> {
    match s {
        UpdateSetStatementV::ManySet(v) => ("set { "@ + set_clauses(v, nested)).drop_last().drop_last() + " }"@,
        _ => Seq::empty(),
    }
}

/// What a set writes, with the EdgeQL of its nested query left open.
pub enum SetPart {
    /// The clause of a set from a field.
    Fixed(String),
    /// The clause of a set from a nested query, in which the nested query's
    /// EdgeQL takes the place of `$edgeql$`.
    Nested(String),
}

/// The mathematical form of a `SetPart`.
pub enum SetPartV {
    Fixed(Seq<char>),
    Nested(Seq<char>),
}

impl View for SetPart {
    type V = SetPartV;

    open spec fn view(&self) -> SetPartV {
        match self {
            SetPart::Fixed(t) => SetPartV::Fixed(t@),
            SetPart::Nested(t) => SetPartV::Nested(t@),
        }
    }
}

/// The views of a list of set parts.
pub open spec fn set_parts_views(v: Seq<SetPart>) -> Seq<SetPartV> {
    v.map_values(|p: SetPart| p@)
}

/// The part that a set writes.
pub open spec fn set_part_of(s: SetStatementV) -> SetPartV {
    match s {
        SetStatementV::Simple(u) => SetPartV::Fixed(set_statement_spec(u, false)),
        SetStatementV::Nested(n) => SetPartV::Nested(nested_statement_spec(n)),
    }
}

/// The clause that a part writes, given the EdgeQL of its nested query.
pub open spec fn set_part_clause(p: SetPartV, nested: Seq<char>) -> Seq<char> {
    match p {
        SetPartV::Fixed(t) => t,
        SetPartV::Nested(t) => replace_all(t, EDGEQL@, nested),
    }
}

/// The clauses of the parts one after the other.
pub open spec fn set_parts_clauses(v: Seq<SetPartV>, nested: Seq<Seq<char>>) -> Seq<char>
    decreases v.len(),
{
    if v.len() == 0 {
        Seq::empty()
    } else {
        set_parts_clauses(v.drop_last(), nested) + set_part_clause(v.last(), nested[v.len() - 1])
    }
}

/// The EdgeQL that the parts write: `set { `, the clauses with the last two
/// characters (the last `, `) dropped, ` }`.
pub open spec fn set_parts_text(v: Seq<SetPartV>, nested: Seq<Seq<char>>) -> Seq<char> {
    ("set { "@ + set_parts_clauses(v, nested)).drop_last().drop_last() + " }"@
}

/// The parts of the sets write their clauses.
proof fn lemma_set_parts_clauses(v: Seq<SetStatementV>, nested: Seq<Seq<char>>)
    ensures
        set_parts_clauses(v.map_values(|s: SetStatementV| set_part_of(s)), nested) == set_clauses(v, nested),
    decreases v.len(),
{
    let parts = v.map_values(|s: SetStatementV| set_part_of(s));
    if v.len() > 0 {
        assert(parts.drop_last() =~= v.drop_last().map_values(|s: SetStatementV| set_part_of(s)));
        lemma_set_parts_clauses(v.drop_last(), nested);
    }
}

impl SetPart {
    /// The part that `s` writes.
    pub fn of(s: &SetStatement) -> (r: SetPart)
        ensures
            r@ == set_part_of(s@),
    {
        match s {
            SetStatement::SimpleField(u) => SetPart::Fixed(u.build_statement(false)),
            SetStatement::NestedQuery(n) => {
                let st = match n.build_statement() {
                    Ok(x) => x,
                    Err(_) => String::new(),
                };
                SetPart::Nested(st)
            },
        }
    }
}

/// The parts of a set statement: one per set for sets written field by field,
/// none otherwise.
pub fn set_parts(stmt: &UpdateSetStatement) -> (r: Vec<SetPart>)
    ensures
        set_parts_views(r@) == match stmt@ {
            UpdateSetStatementV::ManySet(v) => v.map_values(|s: SetStatementV| set_part_of(s)),
            _ => Seq::<SetPartV>::empty(),
        },
{
    let mut r: Vec<SetPart> = Vec::new();
    match stmt {
        UpdateSetStatement::ManySet(sets) => {
            let ghost target = set_views(sets@).map_values(|s: SetStatementV| set_part_of(s));
            let mut i: usize = 0;
            while i < sets.len()
                invariant
                    i <= sets.len(),
                    target == set_views(sets@).map_values(|s: SetStatementV| set_part_of(s)),
                    set_parts_views(r@) == target.subrange(0, i as int),
                decreases sets.len() - i,
            {
                let ghost before = set_parts_views(r@);
                assert(set_views(sets@)[i as int] == sets@[i as int]@);
                let p = SetPart::of(&sets[i]);
                r.push(p);
                assert(set_parts_views(r@) =~= before.push(p@));
                assert(set_parts_views(r@) =~= target.subrange(0, i + 1));
                i = i + 1;
            }
            assert(target.subrange(0, sets.len() as int) =~= target);
        },
        _ => {
            assert(set_parts_views(r@) =~= Seq::<SetPartV>::empty());
        },
    }
    r
}

/// The EdgeQL that the parts write, given, for each part, the EdgeQL of its
/// nested query (unused for a part from a field).
pub fn set_parts_edgeql(parts: &Vec<SetPart>, nested: &Vec<String>) -> (r: String)
    requires
        nested@.len() == parts@.len(),
    ensures
        r@ == set_parts_text(set_parts_views(parts@), views(nested@)),
{
    let ghost v = set_parts_views(parts@);
    let ghost nv = views(nested@);
    let mut s = String::from_str("set { ");
    let mut i: usize = 0;
    assert(v.subrange(0, 0) =~= Seq::<SetPartV>::empty());
    proof {
        reveal_strlit("$edgeql$");
        reveal_strlit("set { ");
    }
    while i < parts.len()
        invariant
            i <= parts.len(),
            v == set_parts_views(parts@),
            nv == views(nested@),
            nested@.len() == v.len(),
            EDGEQL@.len() > 0,
            s@ == "set { "@ + set_parts_clauses(v.subrange(0, i as int), nv),
        decreases parts.len() - i,
    {
        assert(v.subrange(0, i + 1).drop_last() =~= v.subrange(0, i as int));
        assert(v.subrange(0, i + 1).last() == parts@[i as int]@);
        assert(nv[i as int] == nested@[i as int]@);
        let clause = match &parts[i] {
            SetPart::Fixed(t) => t.clone(),
            SetPart::Nested(t) => replace_str(t.as_str(), EDGEQL, nested[i].as_str()),
        };
        s.append(clause.as_str());
        assert(s@ =~= "set { "@ + set_parts_clauses(v.subrange(0, i + 1), nv));
        i = i + 1;
    }
    assert(v.subrange(0, parts.len() as int) =~= v);
    let n = s.unicode_len();
    assert(n >= 6);
    let mut out = s.substring_char(0, n - 2).to_string();
    assert(out@ =~= s@.drop_last().drop_last());
    out.append(" }");
    out
}

impl EdgedbSets {
    /// The sets read from the fields of the struct named `ident`.
    pub fn parse(ident: String, fields: &Vec<FieldDecl>) -> (r: Result<EdgedbSets, MacroError>)
        requires
            fields_wf(fields@),
        ensures
            match r {
                Ok(s) => edgedb_sets_spec(fields@) == Ok::<UpdateSetStatementV, Seq<char>>(s.set_statement@) && s.ident@ == ident@,
                Err(e) => edgedb_sets_spec(fields@) == Err::<UpdateSetStatementV, Seq<char>>(e.message@),
            },
    {
        let exclude: Vec<String> = Vec::new();
        assert(views(exclude@) =~= Seq::<Seq<char>>::empty());
        let set_statement = match sets_from_fields(fields, &exclude, true, INVALID_SETS_TAG) {
            Ok(s) => s,
            Err(e) => return Err(e),
        };
        let labels = set_statement.get_parameter_labels();
        assert(labels_of(labels@) =~= second_of(pair_views(labels@)));
        match check_duplicate_parameter_labels(&labels) {
            Err(e) => Err(e),
            Ok(_) => Ok(EdgedbSets { ident, set_statement }),
        }
    }

    /// The EdgeQL of the sets; `nested` holds, for each set, the EdgeQL of its
    /// nested query (unused for a set from a field).
    pub fn to_edgeql(&self, nested: &Vec<String>) -> (r: String)
        requires
            self.set_statement@ matches UpdateSetStatementV::ManySet(v) ==> nested@.len() == v.len(),
        ensures
            r@ == sets_edgeql_spec(self.set_statement@, views(nested@)),
    {
        match &self.set_statement {
            UpdateSetStatement::ManySet(sets) => {
                let parts = set_parts(&self.set_statement);
                proof {
                    lemma_set_parts_clauses(set_views(sets@), views(nested@));
                }
                set_parts_edgeql(&parts, nested)
            },
            _ => String::new(),
        }
    }
}

} // verus!
