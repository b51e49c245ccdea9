//! The tokens of an insert statement, written out, and what reading and
//! parsing make of them.

use crate::error::BridgeErrorView;
use crate::laws::lemma_parsed_is_well_formed;
use crate::lexer::{lex, TokenView};
use crate::listing::{all_quotable, lemma_written_list_comes_back, written_list};
use crate::model::{
    AssignmentView, AttributeValueView, ParsedStatementView, TableDefinitionView,
    TranslatedStatementView, Verb,
};
use crate::parser::{numbered, parse_outcome};
use crate::pipeline::adaptation;
use crate::placeholders::{lemma_statement_placeholders, placeholder_count};
use crate::render::statement_text;
use crate::statement::{names_from, placeholders_from, statement_of, StatementView};
use crate::translator::{first_failure, value_of, values_of};
use crate::values::{declared_type, typed_value};
use vstd::prelude::*;

verus! {

/// The tokens of `INSERT INTO table (column, ...) VALUES ($1, ...)` with
/// one placeholder for each of `columns`, all names in quotes.
pub open spec fn insert_tokens(table: Seq<char>, columns: Seq<Seq<char>>) -> Seq<TokenView> {
    let n = columns.len() as int;
    Seq::new(
        (4 * n + 6) as nat,
        |k: int|
            if k == 0 {
                TokenView::Word("INSERT"@)
            } else if k == 1 {
                TokenView::Word("INTO"@)
            } else if k == 2 {
                TokenView::Quoted(table)
            } else if k == 3 || k == 2 * n + 5 {
                TokenView::Open
            } else if k == 2 * n + 3 || k == 4 * n + 5 {
                TokenView::Close
            } else if k == 2 * n + 4 {
                TokenView::Word("VALUES"@)
            } else if k % 2 == 1 {
                TokenView::Comma
            } else if k < 2 * n + 3 {
                TokenView::Quoted(columns[(k - 4) / 2])
            } else {
                TokenView::Placeholder(((k - 2 * n - 6) / 2 + 1) as nat)
            },
    )
}

/// Reading the names of the written tokens from column `i` on gives the
/// columns from `i` on and ends before the closing parenthesis.
proof fn lemma_columns_are_read(table: Seq<char>, columns: Seq<Seq<char>>, i: int)
    requires
        0 <= i < columns.len(),
    ensures
        names_from(insert_tokens(table, columns), 4 + 2 * i) == Some(
            (columns.subrange(i, columns.len() as int), 2 * columns.len() as int + 3),
        ),
    decreases columns.len() - i,
{
    if i < columns.len() - 1 {
        lemma_columns_are_read(table, columns, i + 1);
    }
}

/// Reading the placeholders of the written tokens from placeholder `i` on
/// counts those from `i` on and ends before the closing parenthesis.
proof fn lemma_placeholders_are_read(table: Seq<char>, columns: Seq<Seq<char>>, i: int)
    requires
        0 <= i < columns.len(),
    ensures
        placeholders_from(
            insert_tokens(table, columns),
            2 * columns.len() + 6 + 2 * i,
            (i + 1) as nat,
        ) == Some(((columns.len() - i) as nat, 4 * columns.len() as int + 5)),
    decreases columns.len() - i,
{
    if i < columns.len() - 1 {
        lemma_placeholders_are_read(table, columns, i + 1);
    }
}

/// The written tokens of an insert are read as that insert: its table, and
/// its columns as the written ones.
pub proof fn lemma_insert_tokens_are_read(table: Seq<char>, columns: Seq<Seq<char>>)
    requires
        columns.len() > 0,
    ensures
        statement_of(insert_tokens(table, columns)) == Some(
            StatementView {
                verb: Verb::Insert,
                table,
                written: columns,
                selected: Seq::empty(),
            },
        ),
{
    lemma_columns_are_read(table, columns, 0);
    lemma_placeholders_are_read(table, columns, 0);
    assert(columns.subrange(0, columns.len() as int) =~= columns);
}

/// The statement that parsing makes of an insert of `columns` into `table`
/// with the bound `values`.
pub open spec fn parsed_insert(
    table: Seq<char>,
    columns: Seq<Seq<char>>,
    values: Seq<Seq<char>>,
) -> ParsedStatementView {
    ParsedStatementView {
        verb: Verb::Insert,
        table,
        assignments: numbered(columns, 1),
        conditions: Seq::empty(),
        literals: values,
    }
}

/// A debug text that spells an insert of N columns and carries a list of N
/// quoted values parses: the result has the N columns as its assignments,
/// numbered from one in their order, and the N values as its literals, in
/// theirs.
pub proof fn lemma_insert_parses(
    text: Seq<char>,
    table: Seq<char>,
    columns: Seq<Seq<char>>,
    values: Seq<Seq<char>>,
)
    requires
        lex(text) == Some(insert_tokens(table, columns)),
        columns.len() > 0,
        values.len() == columns.len(),
        all_quotable(values),
    ensures
        parse_outcome(text, Some(written_list(values))) == Ok::<
            ParsedStatementView,
            BridgeErrorView,
        >(parsed_insert(table, columns, values)),
{
    lemma_insert_tokens_are_read(table, columns);
    lemma_written_list_comes_back(values);
    assert(numbered(Seq::<Seq<char>>::empty(), columns.len() + 1) =~= Seq::empty());
}

/// Whether each of `values` fits the type that `definition` declares for
/// the column of its position.
pub open spec fn values_fit(
    definition: TableDefinitionView,
    columns: Seq<Seq<char>>,
    values: Seq<Seq<char>>,
) -> bool {
    forall|k: int|
        0 <= k < columns.len() ==> typed_value(
            declared_type(definition, #[trigger] columns[k]),
            values[k],
        ) is Some
}

/// The values of `values`, each typed as `definition` declares the column
/// of its position.
pub open spec fn typed_values(
    definition: TableDefinitionView,
    columns: Seq<Seq<char>>,
    values: Seq<Seq<char>>,
) -> Seq<AttributeValueView> {
    Seq::new(
        columns.len(),
        |k: int| typed_value(declared_type(definition, columns[k]), values[k])->0,
    )
}

/// Where every value fits, none is the first that does not.
proof fn lemma_all_fit(
    definition: TableDefinitionView,
    pairs: Seq<AssignmentView>,
    literals: Seq<Seq<char>>,
    from: int,
)
    requires
        0 <= from,
        forall|k: int| from <= k < pairs.len() ==> value_of(definition, pairs[k], literals) is Some,
    ensures
        first_failure(definition, pairs, literals, from) is None,
    decreases pairs.len() - from,
{
    if from < pairs.len() {
        lemma_all_fit(definition, pairs, literals, from + 1);
    }
}

/// A debug text that spells an insert of N columns into a registered table
/// and carries a list of N quoted values, each fitting its column, is
/// adapted without fail: the statement has N placeholders and comes with N
/// parameters, the parameter of each position being the value of that
/// position, typed as its column asks.
pub proof fn lemma_insert_is_adapted(
    text: Seq<char>,
    table: Seq<char>,
    columns: Seq<Seq<char>>,
    values: Seq<Seq<char>>,
    registry: Map<Seq<char>, TableDefinitionView>,
)
    requires
        lex(text) == Some(insert_tokens(table, columns)),
        columns.len() > 0,
        values.len() == columns.len(),
        all_quotable(values),
        registry.contains_key(table),
        values_fit(registry[table], columns, values),
    ensures
        adaptation(text, Some(written_list(values)), registry) == Ok::<
            TranslatedStatementView,
            BridgeErrorView,
        >(
            TranslatedStatementView {
                text: statement_text(parsed_insert(table, columns, values)),
                parameters: typed_values(registry[table], columns, values),
            },
        ),
        placeholder_count(statement_text(parsed_insert(table, columns, values)))
            == columns.len(),
{
    let parsed = parsed_insert(table, columns, values);
    let definition = registry[table];
    lemma_insert_parses(text, table, columns, values);
    lemma_parsed_is_well_formed(text, Some(written_list(values)));
    lemma_statement_placeholders(parsed);
    assert forall|k: int| 0 <= k < parsed.assignments.len() implies value_of(
        definition,
        parsed.assignments[k],
        values,
    ) is Some by {
        assert(typed_value(declared_type(definition, columns[k]), values[k]) is Some);
    }
    lemma_all_fit(definition, parsed.assignments, values, 0);
    lemma_all_fit(definition, parsed.conditions, values, 0);
    assert(values_of(definition, parsed.assignments, values) + values_of(
        definition,
        parsed.conditions,
        values,
    ) =~= typed_values(definition, columns, values));
}

} // verus!
