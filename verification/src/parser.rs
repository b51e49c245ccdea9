//! From the query builder's debug text to a [`ParsedStatement`].

use crate::bindings::{
    BINDINGS_PATTERN, find_bindings, first_capture, split_bindings, split_bindings_of,
};
use crate::error::{BridgeError, BridgeErrorView};
use crate::lexer::{lex, tokenize};
use crate::model::{
    assignment_views, string_views, Assignment, AssignmentView, ParsedStatement,
    ParsedStatementView,
};
use crate::statement::{read_statement, statement_of, StatementView};
use vstd::prelude::*;

verus! {

/// Each of `columns` with its placeholder, the placeholders counting up
/// from `first`.
pub open spec fn numbered(columns: Seq<Seq<char>>, first: nat) -> Seq<AssignmentView> {
    Seq::new(
        columns.len(),
        |i: int| AssignmentView { column: columns[i], placeholder: (first + i) as nat },
    )
}

/// The statement that `text` spells, if its tokens spell one.
pub open spec fn statement_in(text: Seq<char>) -> Option<StatementView> {
    match lex(text) {
        Some(tokens) => statement_of(tokens),
        None => None,
    }
}

/// What parsing `text` gives when `bindings` is the list of bound values
/// found in it.
///
/// The statement is read first: a text that spells none fails with
/// `UnrecognizedVerb`. The list comes second: where none was found, or it
/// is malformed, the text fails with `MissingBindings`. The count comes
/// last: a list that holds more or fewer literals than the statement has
/// placeholders fails with `BindingArityMismatch`.
pub open spec fn parse_outcome(text: Seq<char>, bindings: Option<Seq<char>>) -> Result<
    ParsedStatementView,
    BridgeErrorView,
> {
    match statement_in(text) {
        None => Err(BridgeErrorView::UnrecognizedVerb { fragment: text }),
        Some(statement) => match bindings {
            None => Err(BridgeErrorView::MissingBindings { fragment: text }),
            Some(list) => match split_bindings_of(list) {
                None => Err(BridgeErrorView::MissingBindings { fragment: text }),
                Some(literals) => if literals.len() != statement.written.len()
                    + statement.selected.len() {
                    Err(
                        BridgeErrorView::BindingArityMismatch {
                            assignments: statement.written.len(),
                            conditions: statement.selected.len(),
                            literals: literals.len(),
                        },
                    )
                } else {
                    Ok(
                        ParsedStatementView {
                            verb: statement.verb,
                            table: statement.table,
                            assignments: numbered(statement.written, 1),
                            conditions: numbered(
                                statement.selected,
                                statement.written.len() + 1,
                            ),
                            literals,
                        },
                    )
                },
            },
        },
    }
}

/// The view of an optional text.
pub open spec fn text_view(text: Option<&str>) -> Option<Seq<char>> {
    match text {
        Some(text) => Some(text@),
        None => None,
    }
}

/// Pairs each column with its placeholder, counting up from `first`.
fn number_columns(columns: &Vec<String>, first: usize) -> (assignments: Vec<Assignment>)
    requires
        first + columns.len() <= usize::MAX,
    ensures
        assignment_views(assignments@) == numbered(string_views(columns@), first as nat),
{
    let mut assignments: Vec<Assignment> = Vec::new();
    let mut i: usize = 0;
    while i < columns.len()
        invariant
            i <= columns.len(),
            first + columns.len() <= usize::MAX,
            assignments.len() == i,
            forall|k: int|
                0 <= k < i ==> assignments[k]@ == (AssignmentView {
                    column: columns[k]@,
                    placeholder: (first + k) as nat,
                }),
        decreases columns.len() - i,
    {
        assignments.push(Assignment { column: columns[i].clone(), placeholder: first + i });
        i += 1;
    }
    assignments
}

/// Parses the debug text `text`, taking `bindings` for the list of bound
/// values that was found in it (`None`: none was found).
pub fn parse_with_bindings(text: &str, bindings: Option<&str>) -> (result: Result<
    ParsedStatement,
    BridgeError,
>)
    ensures
        match result {
            Ok(parsed) => parse_outcome(text@, text_view(bindings)) == Ok::<
                ParsedStatementView,
                BridgeErrorView,
            >(parsed@),
            Err(e) => parse_outcome(text@, text_view(bindings)) == Err::<
                ParsedStatementView,
                BridgeErrorView,
            >(e@),
        },
{
    let tokens = match tokenize(text) {
        Some(tokens) => tokens,
        None => {
            return Err(BridgeError::UnrecognizedVerb { fragment: text.to_owned() });
        },
    };
    let statement = match read_statement(&tokens) {
        Some(statement) => statement,
        None => {
            return Err(BridgeError::UnrecognizedVerb { fragment: text.to_owned() });
        },
    };
    let list = match bindings {
        Some(list) => list,
        None => {
            return Err(BridgeError::MissingBindings { fragment: text.to_owned() });
        },
    };
    let literals = match split_bindings(list) {
        Some(literals) => literals,
        None => {
            return Err(BridgeError::MissingBindings { fragment: text.to_owned() });
        },
    };
    if literals.len() != statement.written.len() + statement.selected.len() {
        return Err(
            BridgeError::BindingArityMismatch {
                assignments: statement.written.len(),
                conditions: statement.selected.len(),
                literals: literals.len(),
            },
        );
    }
    let assignments = number_columns(&statement.written, 1);
    let conditions = number_columns(&statement.selected, statement.written.len() + 1);
    Ok(
        ParsedStatement {
            verb: statement.verb,
            table: statement.table,
            assignments,
            conditions,
            literals,
        },
    )
}

/// Parses the debug text `text`: the statement that it opens with and the
/// list of bound values behind `-- binds: `.
pub fn parse(text: &str) -> (result: Result<ParsedStatement, BridgeError>)
    ensures
        match result {
            Ok(parsed) => parse_outcome(text@, first_capture(BINDINGS_PATTERN@, text@)) == Ok::<
                ParsedStatementView,
                BridgeErrorView,
            >(parsed@),
            Err(e) => parse_outcome(text@, first_capture(BINDINGS_PATTERN@, text@)) == Err::<
                ParsedStatementView,
                BridgeErrorView,
            >(e@),
        },
{
    match find_bindings(text) {
        Some(list) => parse_with_bindings(text, Some(list.as_str())),
        None => parse_with_bindings(text, None),
    }
}

} // verus!
