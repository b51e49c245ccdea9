//! Writing a statement in the target dialect.
//!
//! ```text
//! INSERT INTO table VALUE {'column': ?, ...}
//! UPDATE table SET column = ?, ... WHERE key = ? AND ...
//! DELETE FROM table WHERE key = ? AND ...
//! ```

use crate::model::{
    assignment_views, Assignment, AssignmentView, ParsedStatement, ParsedStatementView, Verb,
};
use vstd::prelude::*;
use vstd::string::*;

verus! {

/// How the columns of a list are written.
#[derive(Clone, Copy, Debug, PartialEq, Eq, Structural)]
pub enum Style {
    /// As the fields of a document: `'column': ?`.
    Field,
    /// As equations: `column = ?`.
    Equation,
}

/// `items`, each two parted by `separator`.
pub open spec fn joined(items: Seq<Seq<char>>, separator: Seq<char>) -> Seq<char>
    decreases items.len(),
{
    if items.len() == 0 {
        Seq::empty()
    } else if items.len() == 1 {
        items[0]
    } else {
        joined(items.drop_last(), separator) + separator + items.last()
    }
}

/// One column with its placeholder, in the given style.
pub open spec fn item_text(column: Seq<char>, style: Style) -> Seq<char> {
    match style {
        Style::Field => "'"@ + column + "': "@ + "?"@,
        Style::Equation => column + " = "@ + "?"@,
    }
}

/// The columns of `pairs`, each with its placeholder, in the given style.
pub open spec fn item_texts(pairs: Seq<AssignmentView>, style: Style) -> Seq<Seq<char>> {
    Seq::new(pairs.len(), |i: int| item_text(pairs[i].column, style))
}

/// The statement `parsed` in the target dialect, with a `?` for each
/// placeholder: those of the written columns first, in their order, then
/// those of the selecting columns, in theirs.
pub open spec fn statement_text(parsed: ParsedStatementView) -> Seq<char> {
    match parsed.verb {
        Verb::Insert => "INSERT INTO "@ + parsed.table + " VALUE {"@ + joined(
            item_texts(parsed.assignments, Style::Field),
            ", "@,
        ) + "}"@,
        Verb::Update => "UPDATE "@ + parsed.table + " SET "@ + joined(
            item_texts(parsed.assignments, Style::Equation),
            ", "@,
        ) + " WHERE "@ + joined(item_texts(parsed.conditions, Style::Equation), " AND "@),
        Verb::Delete => "DELETE FROM "@ + parsed.table + " WHERE "@ + joined(
            item_texts(parsed.conditions, Style::Equation),
            " AND "@,
        ),
    }
}

/// Appends one column with its placeholder to `out`.
fn write_item(out: &mut String, column: &String, style: Style)
    ensures
        final(out)@ == old(out)@ + item_text(column@, style),
{
    match style {
        Style::Field => {
            out.append("'");
            out.append(column.as_str());
            out.append("': ");
            out.append("?");
        },
        Style::Equation => {
            out.append(column.as_str());
            out.append(" = ");
            out.append("?");
        },
    }
}

/// Appends the columns of `pairs` to `out`, each with its placeholder.
fn write_list(out: &mut String, pairs: &Vec<Assignment>, style: Style, separator: &str)
    ensures
        final(out)@ == old(out)@ + joined(
            item_texts(assignment_views(pairs@), style),
            separator@,
        ),
{
    let ghost items = item_texts(assignment_views(pairs@), style);
    let ghost base = out@;
    let mut i: usize = 0;
    while i < pairs.len()
        invariant
            i <= pairs.len(),
            items == item_texts(assignment_views(pairs@), style),
            out@ == base + joined(items.take(i as int), separator@),
        decreases pairs.len() - i,
    {
        if i > 0 {
            out.append(separator);
        }
        write_item(out, &pairs[i].column, style);
        assert(items.take(i + 1).drop_last() =~= items.take(i as int));
        i += 1;
    }
    assert(items.take(pairs.len() as int) =~= items);
}

/// Writes `parsed` in the target dialect.
pub fn render(parsed: &ParsedStatement) -> (text: String)
    ensures
        text@ == statement_text(parsed@),
{
    let mut out = String::new();
    match parsed.verb {
        Verb::Insert => {
            out.append("INSERT INTO ");
            out.append(parsed.table.as_str());
            out.append(" VALUE {");
            write_list(&mut out, &parsed.assignments, Style::Field, ", ");
            out.append("}");
        },
        Verb::Update => {
            out.append("UPDATE ");
            out.append(parsed.table.as_str());
            out.append(" SET ");
            write_list(&mut out, &parsed.assignments, Style::Equation, ", ");
            out.append(" WHERE ");
            write_list(&mut out, &parsed.conditions, Style::Equation, " AND ");
        },
        Verb::Delete => {
            out.append("DELETE FROM ");
            out.append(parsed.table.as_str());
            out.append(" WHERE ");
            write_list(&mut out, &parsed.conditions, Style::Equation, " AND ");
        },
    }
    out
}

} // verus!
