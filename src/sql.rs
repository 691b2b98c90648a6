//! The SQL text of a statement, with `$k` placeholders for its values.
use vstd::prelude::*;
use crate::archivist::Statement;
use crate::table::{column_names, table_name};
use crate::text::{decimal, push_decimal};
use crate::value::{cells, copy_value, Cell, Predicate, Term, Value};

verus! {

/// `$k`.
pub open spec fn placeholder(k: nat) -> Seq<char> {
    "$"@ + decimal(k)
}

/// Names joined by `, `.
pub open spec fn listed(names: Seq<Seq<char>>) -> Seq<char>
    decreases names.len(),
{
    if names.len() == 0 {
        Seq::empty()
    } else if names.len() == 1 {
        names[0]
    } else {
        listed(names.drop_last()) + ", "@ + names.last()
    }
}

/// `{column}=${k}` for each term, numbered from `first`, joined by `sep`.
pub open spec fn comparisons(terms: Seq<Term>, first: nat, sep: Seq<char>) -> Seq<char>
    decreases terms.len(),
{
    if terms.len() == 0 {
        Seq::empty()
    } else {
        let k = (first + terms.len() - 1) as nat;
        let last = terms.last().column@ + "="@ + placeholder(k);
        if terms.len() == 1 {
            last
        } else {
            comparisons(terms.drop_last(), first, sep) + sep + last
        }
    }
}

/// The text of a predicate, its placeholders numbered from `first`: the
/// comparisons joined by `or` or by `and`; with no terms, `false` or `true`.
pub open spec fn predicate_text(p: Predicate, first: nat) -> Seq<char> {
    if p.terms@.len() == 0 {
        if p.any {
            "false"@
        } else {
            "true"@
        }
    } else if p.any {
        comparisons(p.terms@, first, " or "@)
    } else {
        comparisons(p.terms@, first, " and "@)
    }
}

/// The values of a predicate's terms, in order.
pub open spec fn predicate_values(p: Predicate) -> Seq<Cell> {
    p.terms@.map_values(|t: Term| t.value@)
}

/// `$1, $2, ..., $n`.
pub open spec fn placeholders(n: nat) -> Seq<char>
    decreases n,
{
    if n == 0 {
        Seq::empty()
    } else if n == 1 {
        placeholder(1)
    } else {
        placeholders((n - 1) as nat) + ", "@ + placeholder(n)
    }
}

/// The SQL text of a statement.
pub open spec fn sql_text(s: Statement) -> Seq<char> {
    match s {
        Statement::IdExists { table, id } => "select exists (select 1 from "@ + table_name(table)
            + " where id=$1);"@,
        Statement::FindId { table, filter } => "select id from "@ + table_name(table) + " where "@
            + predicate_text(filter, 1) + ";"@,
        Statement::Select { table, columns, filter, limit_one } => "select "@ + listed(
            column_names(columns@),
        ) + " from "@ + table_name(table) + match filter {
            Some(f) => " where "@ + predicate_text(f, 1),
            None => Seq::empty(),
        } + if limit_one {
            " limit 1"@
        } else {
            Seq::empty()
        } + ";"@,
        Statement::Insert { table, columns, values } => "insert into "@ + table_name(table) + "("@
            + listed(column_names(columns@)) + ") values ("@ + placeholders(values@.len()) + ") returning id;"@,
        Statement::Update { table, id, assignments } => "update "@ + table_name(table) + " set "@
            + comparisons(assignments@, 1, ", "@) + " where id="@ + placeholder(
            assignments@.len() + 1,
        ) + ";"@,
        Statement::Delete { table, id } => "delete from "@ + table_name(table) + " where id=$1;"@,
    }
}

/// The values bound to a statement's placeholders, in order.
pub open spec fn sql_values(s: Statement) -> Seq<Cell> {
    match s {
        Statement::IdExists { id, .. } => seq![Cell::Int(id as int)],
        Statement::FindId { filter, .. } => predicate_values(filter),
        Statement::Select { filter, .. } => match filter {
            Some(f) => predicate_values(f),
            None => Seq::empty(),
        },
        Statement::Insert { values, .. } => cells(values@),
        Statement::Update { id, assignments, .. } => assignments@.map_values(|t: Term| t.value@).push(
            Cell::Int(id as int),
        ),
        Statement::Delete { id, .. } => seq![Cell::Int(id as int)],
    }
}

fn push_placeholder(s: &mut String, k: usize)
    ensures
        final(s)@ == old(s)@ + placeholder(k as nat),
{
    s.append("$");
    push_decimal(s, k as u128);
}

fn push_listed(s: &mut String, names: &Vec<&'static str>)
    ensures
        final(s)@ == old(s)@ + listed(column_names(names@)),
{
    let ghost start = s@;
    let mut i: usize = 0;
    while i < names.len()
        invariant
            i <= names@.len(),
            s@ == start + listed(column_names(names@.take(i as int))),
        decreases names@.len() - i,
    {
        let ghost before = names@.take(i as int);
        if i > 0 {
            s.append(", ");
        }
        s.append(names[i]);
        i = i + 1;
        assert(column_names(names@.take(i as int)).drop_last() =~= column_names(before));
        assert(s@ =~= start + listed(column_names(names@.take(i as int))));
    }
    assert(names@.take(names@.len() as int) =~= names@);
}

/// Appends the comparisons of the terms, numbered from `first`, and their values.
fn push_comparisons(s: &mut String, params: &mut Vec<Value>, terms: &Vec<Term>, first: usize, sep: &str)
    requires
        first + old(params)@.len() < usize::MAX - terms@.len(),
    ensures
        final(s)@ == old(s)@ + comparisons(terms@, first as nat, sep@),
        cells(final(params)@) == cells(old(params)@) + terms@.map_values(|t: Term| t.value@),
{
    let ghost start = s@;
    let ghost base = cells(params@);
    let mut i: usize = 0;
    while i < terms.len()
        invariant
            i <= terms@.len(),
            first + terms@.len() < usize::MAX,
            s@ == start + comparisons(terms@.take(i as int), first as nat, sep@),
            cells(params@) == base + terms@.take(i as int).map_values(|t: Term| t.value@),
        decreases terms@.len() - i,
    {
        let ghost before = terms@.take(i as int);
        if i > 0 {
            s.append(sep);
        }
        s.append(terms[i].column);
        s.append("=");
        push_placeholder(s, first + i);
        let ghost prev = params@;
        let v = copy_value(&terms[i].value);
        params.push(v);
        assert(cells(params@) =~= cells(prev).push(v@));
        assert(terms@.take(i + 1).map_values(|t: Term| t.value@) =~= terms@.take(i as int).map_values(
            |t: Term| t.value@,
        ).push(terms@[i as int].value@));
        i = i + 1;
        assert(terms@.take(i as int).drop_last() =~= before);
        assert(s@ =~= start + comparisons(terms@.take(i as int), first as nat, sep@));
        assert(cells(params@) =~= base + terms@.take(i as int).map_values(|t: Term| t.value@));
    }
    assert(terms@.take(terms@.len() as int) =~= terms@);
}

fn push_predicate(s: &mut String, params: &mut Vec<Value>, p: &Predicate)
    requires
        old(params)@.len() == 0,
        p.terms@.len() < usize::MAX - 2,
    ensures
        final(s)@ == old(s)@ + predicate_text(*p, 1),
        cells(final(params)@) == predicate_values(*p),
{
    if p.terms.len() == 0 {
        if p.any {
            s.append("false");
        } else {
            s.append("true");
        }
        assert(cells(params@) =~= predicate_values(*p));
        return;
    }
    if p.any {
        push_comparisons(s, params, &p.terms, 1, " or ");
    } else {
        push_comparisons(s, params, &p.terms, 1, " and ");
    }
    assert(cells(params@) =~= predicate_values(*p));
}

impl Statement {
    /// The SQL text of the statement, and the values bound to its
    /// placeholders, in order.
    pub fn to_sql(&self) -> (r: (String, Vec<Value>))
        requires
            match self {
                Statement::FindId { filter, .. } => filter.terms@.len() < usize::MAX - 2,
                Statement::Select { filter: Some(f), .. } => f.terms@.len() < usize::MAX - 2,
                Statement::Update { assignments, .. } => assignments@.len() < usize::MAX - 2,
                _ => true,
            },
        ensures
            r.0@ == sql_text(*self),
            cells(r.1@) == sql_values(*self),
    {
        let mut s = String::new();
        let mut params: Vec<Value> = Vec::new();
        match self {
            Statement::IdExists { table, id } => {
                s.append("select exists (select 1 from ");
                s.append(table.name());
                s.append(" where id=$1);");
                params.push(Value::Int(*id as i64));
            },
            Statement::FindId { table, filter } => {
                s.append("select id from ");
                s.append(table.name());
                s.append(" where ");
                push_predicate(&mut s, &mut params, filter);
                s.append(";");
            },
            Statement::Select { table, columns, filter, limit_one } => {
                s.append("select ");
                push_listed(&mut s, columns);
                s.append(" from ");
                s.append(table.name());
                if let Some(f) = filter {
                    s.append(" where ");
                    push_predicate(&mut s, &mut params, f);
                }
                if *limit_one {
                    s.append(" limit 1");
                }
                s.append(";");
            },
            Statement::Insert { table, columns, values } => {
                s.append("insert into ");
                s.append(table.name());
                s.append("(");
                push_listed(&mut s, columns);
                s.append(") values (");
                let ghost start = s@;
                let mut k: usize = 0;
                while k < values.len()
                    invariant
                        k <= values@.len(),
                        s@ == start + placeholders(k as nat),
                        cells(params@) == cells(values@.take(k as int)),
                    decreases values@.len() - k,
                {
                    if k > 0 {
                        s.append(", ");
                    }
                    push_placeholder(&mut s, k + 1);
                    let ghost prev = params@;
                    let v = copy_value(&values[k]);
                    params.push(v);
                    assert(cells(params@) =~= cells(prev).push(v@));
                    assert(cells(values@.take(k + 1)) =~= cells(values@.take(k as int)).push(values@[k as int]@));
                    k = k + 1;
                    assert(s@ =~= start + placeholders(k as nat));
                    assert(cells(params@) =~= cells(values@.take(k as int)));
                }
                assert(values@.take(values@.len() as int) =~= values@);
                s.append(") returning id;");
            },
            Statement::Update { table, id, assignments } => {
                s.append("update ");
                s.append(table.name());
                s.append(" set ");
                push_comparisons(&mut s, &mut params, assignments, 1, ", ");
                s.append(" where id=");
                push_placeholder(&mut s, assignments.len() + 1);
                s.append(";");
                params.push(Value::Int(*id as i64));
                assert(cells(params@) =~= sql_values(*self));
            },
            Statement::Delete { table, id } => {
                s.append("delete from ");
                s.append(table.name());
                s.append(" where id=$1;");
                params.push(Value::Int(*id as i64));
            },
        }
        assert(s@ =~= sql_text(*self));
        assert(cells(params@) =~= sql_values(*self));
        (s, params)
    }
}

} // verus!
