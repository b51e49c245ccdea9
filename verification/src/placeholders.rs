//! Counting the placeholders of a statement of the target dialect.

use crate::model::{AssignmentView, ParsedStatementView, Verb};
use crate::render::{item_text, item_texts, joined, statement_text, Style};
use crate::translator::{columns_are_names, is_name, well_formed};
use vstd::prelude::*;

verus! {

/// How often `c` stands in `s`.
pub open spec fn occurrences(s: Seq<char>, c: char) -> nat
    decreases s.len(),
{
    if s.len() == 0 {
        0
    } else {
        occurrences(s.drop_last(), c) + if s.last() == c {
            1nat
        } else {
            0nat
        }
    }
}

/// How many placeholders the statement `text` of the target dialect holds.
pub open spec fn placeholder_count(text: Seq<char>) -> nat {
    occurrences(text, '?')
}

/// What stands in two texts stands that often in the two put together.
pub proof fn lemma_occurrences_add(a: Seq<char>, b: Seq<char>, c: char)
    ensures
        occurrences(a + b, c) == occurrences(a, c) + occurrences(b, c),
    decreases b.len(),
{
    if b.len() > 0 {
        assert((a + b).drop_last() =~= a + b.drop_last());
        lemma_occurrences_add(a, b.drop_last(), c);
    }
}

/// A text that holds no `c` holds it no times.
pub proof fn lemma_occurrences_none(s: Seq<char>, c: char)
    requires
        forall|i: int| 0 <= i < s.len() ==> s[i] != c,
    ensures
        occurrences(s, c) == 0,
    decreases s.len(),
{
    if s.len() > 0 {
        lemma_occurrences_none(s.drop_last(), c);
    }
}

/// The fixed parts of a statement hold no placeholder, and the placeholder
/// mark holds one.
proof fn lemma_fixed_parts()
    ensures
        placeholder_count("INSERT INTO "@) == 0,
        placeholder_count(" VALUE {"@) == 0,
        placeholder_count("}"@) == 0,
        placeholder_count("UPDATE "@) == 0,
        placeholder_count(" SET "@) == 0,
        placeholder_count(" WHERE "@) == 0,
        placeholder_count("DELETE FROM "@) == 0,
        placeholder_count(", "@) == 0,
        placeholder_count(" AND "@) == 0,
        placeholder_count("'"@) == 0,
        placeholder_count("': "@) == 0,
        placeholder_count(" = "@) == 0,
        placeholder_count("?"@) == 1,
{
    reveal_strlit("INSERT INTO ");
    reveal_strlit(" VALUE {");
    reveal_strlit("}");
    reveal_strlit("UPDATE ");
    reveal_strlit(" SET ");
    reveal_strlit(" WHERE ");
    reveal_strlit("DELETE FROM ");
    reveal_strlit(", ");
    reveal_strlit(" AND ");
    reveal_strlit("'");
    reveal_strlit("': ");
    reveal_strlit(" = ");
    reveal_strlit("?");
    lemma_occurrences_none("INSERT INTO "@, '?');
    lemma_occurrences_none(" VALUE {"@, '?');
    lemma_occurrences_none("}"@, '?');
    lemma_occurrences_none("UPDATE "@, '?');
    lemma_occurrences_none(" SET "@, '?');
    lemma_occurrences_none(" WHERE "@, '?');
    lemma_occurrences_none("DELETE FROM "@, '?');
    lemma_occurrences_none(", "@, '?');
    lemma_occurrences_none(" AND "@, '?');
    lemma_occurrences_none("'"@, '?');
    lemma_occurrences_none("': "@, '?');
    lemma_occurrences_none(" = "@, '?');
    assert(occurrences("?"@.drop_last(), '?') == 0);
}

/// A name holds no placeholder.
proof fn lemma_name_has_none(name: Seq<char>)
    requires
        is_name(name),
    ensures
        placeholder_count(name) == 0,
{
    lemma_occurrences_none(name, '?');
}

/// A column that is a name is written with one placeholder.
proof fn lemma_item_has_one(column: Seq<char>, style: Style)
    requires
        is_name(column),
    ensures
        placeholder_count(item_text(column, style)) == 1,
{
    lemma_fixed_parts();
    lemma_name_has_none(column);
    match style {
        Style::Field => {
            lemma_occurrences_add("'"@, column, '?');
            lemma_occurrences_add("'"@ + column, "': "@, '?');
            lemma_occurrences_add("'"@ + column + "': "@, "?"@, '?');
        },
        Style::Equation => {
            lemma_occurrences_add(column, " = "@, '?');
            lemma_occurrences_add(column + " = "@, "?"@, '?');
        },
    }
}

/// Items of one placeholder each, parted by a separator without one, hold
/// as many placeholders as there are items.
proof fn lemma_joined_count(items: Seq<Seq<char>>, separator: Seq<char>)
    requires
        forall|i: int| 0 <= i < items.len() ==> placeholder_count(#[trigger] items[i]) == 1,
        placeholder_count(separator) == 0,
    ensures
        placeholder_count(joined(items, separator)) == items.len(),
    decreases items.len(),
{
    if items.len() > 1 {
        lemma_joined_count(items.drop_last(), separator);
        lemma_occurrences_add(joined(items.drop_last(), separator), separator, '?');
        lemma_occurrences_add(
            joined(items.drop_last(), separator) + separator,
            items.last(),
            '?',
        );
    }
}

/// A list of columns that are names is written with one placeholder for
/// each column.
proof fn lemma_list_count(pairs: Seq<AssignmentView>, style: Style, separator: Seq<char>)
    requires
        columns_are_names(pairs),
        placeholder_count(separator) == 0,
    ensures
        placeholder_count(joined(item_texts(pairs, style), separator)) == pairs.len(),
{
    let items = item_texts(pairs, style);
    assert forall|i: int| 0 <= i < items.len() implies placeholder_count(#[trigger] items[i])
        == 1 by {
        lemma_item_has_one(pairs[i].column, style);
    }
    lemma_joined_count(items, separator);
}

/// A statement that can be written in the target dialect is written with
/// one placeholder for each of its columns.
pub proof fn lemma_statement_placeholders(parsed: ParsedStatementView)
    requires
        well_formed(parsed),
    ensures
        placeholder_count(statement_text(parsed)) == parsed.assignments.len()
            + parsed.conditions.len(),
{
    lemma_fixed_parts();
    lemma_name_has_none(parsed.table);
    match parsed.verb {
        Verb::Insert => {
            let list = joined(item_texts(parsed.assignments, Style::Field), ", "@);
            lemma_list_count(parsed.assignments, Style::Field, ", "@);
            lemma_occurrences_add("INSERT INTO "@, parsed.table, '?');
            lemma_occurrences_add("INSERT INTO "@ + parsed.table, " VALUE {"@, '?');
            lemma_occurrences_add("INSERT INTO "@ + parsed.table + " VALUE {"@, list, '?');
            lemma_occurrences_add("INSERT INTO "@ + parsed.table + " VALUE {"@ + list, "}"@, '?');
        },
        Verb::Update => {
            let set = joined(item_texts(parsed.assignments, Style::Equation), ", "@);
            let keys = joined(item_texts(parsed.conditions, Style::Equation), " AND "@);
            lemma_list_count(parsed.assignments, Style::Equation, ", "@);
            lemma_list_count(parsed.conditions, Style::Equation, " AND "@);
            lemma_occurrences_add("UPDATE "@, parsed.table, '?');
            lemma_occurrences_add("UPDATE "@ + parsed.table, " SET "@, '?');
            lemma_occurrences_add("UPDATE "@ + parsed.table + " SET "@, set, '?');
            lemma_occurrences_add("UPDATE "@ + parsed.table + " SET "@ + set, " WHERE "@, '?');
            lemma_occurrences_add(
                "UPDATE "@ + parsed.table + " SET "@ + set + " WHERE "@,
                keys,
                '?',
            );
        },
        Verb::Delete => {
            let keys = joined(item_texts(parsed.conditions, Style::Equation), " AND "@);
            lemma_list_count(parsed.conditions, Style::Equation, " AND "@);
            lemma_occurrences_add("DELETE FROM "@, parsed.table, '?');
            lemma_occurrences_add("DELETE FROM "@ + parsed.table, " WHERE "@, '?');
            lemma_occurrences_add("DELETE FROM "@ + parsed.table + " WHERE "@, keys, '?');
        },
    }
}

} // verus!
