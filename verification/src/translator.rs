//! From a parsed statement to a statement of the target dialect with its
//! typed parameters.

use crate::error::{BridgeError, BridgeErrorView};
use crate::model::{
    assignment_views, attribute_value_views, string_views, Assignment, AssignmentView,
    AttributeValue, AttributeValueView, ParsedStatement, ParsedStatementView, TableDefinition,
    TableDefinitionView, TranslatedStatement, TranslatedStatementView, Verb,
};
use crate::placeholders::{lemma_statement_placeholders, placeholder_count};
use crate::registry::SchemaRegistry;
use crate::render::{render, statement_text};
use crate::text::{char_is_word, chars_of, is_word_char};
use crate::values::{column_type, convert, declared_type, typed_value};
use vstd::prelude::*;

verus! {

/// Whether `s` can name a table or a column: one or more letters, digits
/// and underscores.
pub open spec fn is_name(s: Seq<char>) -> bool {
    s.len() > 0 && forall|i: int| 0 <= i < s.len() ==> is_word_char(#[trigger] s[i])
}

/// Whether every column of `pairs` is a name.
pub open spec fn columns_are_names(pairs: Seq<AssignmentView>) -> bool {
    forall|i: int| 0 <= i < pairs.len() ==> is_name(#[trigger] pairs[i].column)
}

/// Whether a statement with `written` written columns and `selecting`
/// selecting columns has the form of `verb`: an insert only writes, a
/// delete only selects, an update does both.
pub open spec fn form_fits(verb: Verb, written: nat, selecting: nat) -> bool {
    match verb {
        Verb::Insert => written > 0 && selecting == 0,
        Verb::Update => written > 0 && selecting > 0,
        Verb::Delete => written == 0 && selecting > 0,
    }
}

/// Whether `parsed` can be written in the target dialect: its table and
/// columns are names and it has the form of its verb.
pub open spec fn well_formed(parsed: ParsedStatementView) -> bool {
    &&& is_name(parsed.table)
    &&& columns_are_names(parsed.assignments)
    &&& columns_are_names(parsed.conditions)
    &&& form_fits(parsed.verb, parsed.assignments.len(), parsed.conditions.len())
}

/// Whether every placeholder of `pairs` has one of `literals` values.
pub open spec fn in_range(pairs: Seq<AssignmentView>, literals: nat) -> bool {
    forall|i: int| 0 <= i < pairs.len() ==> 1 <= (#[trigger] pairs[i]).placeholder <= literals
}

/// Whether the values of `parsed` are aligned with its placeholders: there
/// are as many values as placeholders, and each placeholder has its value.
pub open spec fn aligned(parsed: ParsedStatementView) -> bool {
    &&& parsed.literals.len() == parsed.assignments.len() + parsed.conditions.len()
    &&& in_range(parsed.assignments, parsed.literals.len())
    &&& in_range(parsed.conditions, parsed.literals.len())
}

/// The literal that is bound to `pair`.
pub open spec fn literal_of(pair: AssignmentView, literals: Seq<Seq<char>>) -> Seq<char> {
    literals[pair.placeholder - 1]
}

/// The typed value of `pair`, if its literal fits the type of its column.
pub open spec fn value_of(
    definition: TableDefinitionView,
    pair: AssignmentView,
    literals: Seq<Seq<char>>,
) -> Option<AttributeValueView> {
    typed_value(declared_type(definition, pair.column), literal_of(pair, literals))
}

/// The first of `pairs`, from `from` on, whose literal does not fit the
/// type of its column.
pub open spec fn first_failure(
    definition: TableDefinitionView,
    pairs: Seq<AssignmentView>,
    literals: Seq<Seq<char>>,
    from: int,
) -> Option<int>
    decreases pairs.len() - from,
{
    if from < 0 || from >= pairs.len() {
        None
    } else if value_of(definition, pairs[from], literals) is None {
        Some(from)
    } else {
        first_failure(definition, pairs, literals, from + 1)
    }
}

/// The typed values of `pairs`, in order.
pub open spec fn values_of(
    definition: TableDefinitionView,
    pairs: Seq<AssignmentView>,
    literals: Seq<Seq<char>>,
) -> Seq<AttributeValueView> {
    Seq::new(pairs.len(), |i: int| value_of(definition, pairs[i], literals)->0)
}

/// The keyword of `verb`.
pub open spec fn keyword_of(verb: Verb) -> Seq<char> {
    match verb {
        Verb::Insert => "INSERT"@,
        Verb::Update => "UPDATE"@,
        Verb::Delete => "DELETE"@,
    }
}

/// The error for a literal of `pair` that does not fit.
pub open spec fn conversion_error(
    pair: AssignmentView,
    literals: Seq<Seq<char>>,
) -> BridgeErrorView {
    BridgeErrorView::TypeConversionError {
        column: pair.column,
        literal: literal_of(pair, literals),
    }
}

/// What translating `parsed` against the tables `registry` gives.
///
/// The table is resolved first: one that is not registered fails with
/// `UnknownTable`. A statement that cannot be written in the target
/// dialect fails with `UnrecognizedVerb`, carrying its keyword; one whose
/// values are not aligned with its placeholders fails with
/// `BindingArityMismatch`. Then the values are converted, those of the
/// written columns first: the first one that does not fit the type of its
/// column fails with `TypeConversionError`. Otherwise the result is the
/// statement's text and one parameter for each placeholder in it, in the
/// order of the placeholders.
pub open spec fn translation(
    parsed: ParsedStatementView,
    registry: Map<Seq<char>, TableDefinitionView>,
) -> Result<TranslatedStatementView, BridgeErrorView> {
    if !registry.contains_key(parsed.table) {
        Err(BridgeErrorView::UnknownTable { table: parsed.table })
    } else if !well_formed(parsed) {
        Err(BridgeErrorView::UnrecognizedVerb { fragment: keyword_of(parsed.verb) })
    } else if !aligned(parsed) {
        Err(
            BridgeErrorView::BindingArityMismatch {
                assignments: parsed.assignments.len(),
                conditions: parsed.conditions.len(),
                literals: parsed.literals.len(),
            },
        )
    } else {
        let definition = registry[parsed.table];
        match first_failure(definition, parsed.assignments, parsed.literals, 0) {
            Some(i) => Err(conversion_error(parsed.assignments[i], parsed.literals)),
            None => match first_failure(definition, parsed.conditions, parsed.literals, 0) {
                Some(i) => Err(conversion_error(parsed.conditions[i], parsed.literals)),
                None => Ok(
                    TranslatedStatementView {
                        text: statement_text(parsed),
                        parameters: values_of(definition, parsed.assignments, parsed.literals)
                            + values_of(definition, parsed.conditions, parsed.literals),
                    },
                ),
            },
        }
    }
}

/// Executable form of [`is_name`].
pub fn check_name(name: &str) -> (r: bool)
    ensures
        r == is_name(name@),
{
    let chars = chars_of(name);
    if chars.len() == 0 {
        return false;
    }
    let mut i: usize = 0;
    while i < chars.len()
        invariant
            i <= chars.len(),
            chars@ == name@,
            forall|k: int| 0 <= k < i ==> is_word_char(#[trigger] chars@[k]),
        decreases chars.len() - i,
    {
        if !char_is_word(chars[i]) {
            return false;
        }
        i += 1;
    }
    true
}

/// Whether every column of `pairs` is a name.
fn check_columns(pairs: &Vec<Assignment>) -> (r: bool)
    ensures
        r == columns_are_names(assignment_views(pairs@)),
{
    let mut i: usize = 0;
    while i < pairs.len()
        invariant
            i <= pairs.len(),
            forall|k: int| 0 <= k < i ==> is_name(#[trigger] assignment_views(pairs@)[k].column),
        decreases pairs.len() - i,
    {
        if !check_name(pairs[i].column.as_str()) {
            assert(!is_name(assignment_views(pairs@)[i as int].column));
            return false;
        }
        i += 1;
    }
    true
}

/// Executable form of [`well_formed`].
fn check_form(parsed: &ParsedStatement) -> (r: bool)
    ensures
        r == well_formed(parsed@),
{
    let fits = match parsed.verb {
        Verb::Insert => parsed.assignments.len() > 0 && parsed.conditions.len() == 0,
        Verb::Update => parsed.assignments.len() > 0 && parsed.conditions.len() > 0,
        Verb::Delete => parsed.assignments.len() == 0 && parsed.conditions.len() > 0,
    };
    fits && check_name(parsed.table.as_str()) && check_columns(&parsed.assignments)
        && check_columns(&parsed.conditions)
}

/// Executable form of [`in_range`].
fn check_range(pairs: &Vec<Assignment>, literals: usize) -> (r: bool)
    ensures
        r == in_range(assignment_views(pairs@), literals as nat),
{
    let mut i: usize = 0;
    while i < pairs.len()
        invariant
            i <= pairs.len(),
            forall|k: int|
                0 <= k < i ==> 1 <= (#[trigger] assignment_views(pairs@)[k]).placeholder
                    <= literals,
        decreases pairs.len() - i,
    {
        if !(1 <= pairs[i].placeholder && pairs[i].placeholder <= literals) {
            assert(!(1 <= assignment_views(pairs@)[i as int].placeholder <= literals));
            return false;
        }
        i += 1;
    }
    true
}

/// Executable form of [`aligned`].
fn check_alignment(parsed: &ParsedStatement) -> (r: bool)
    ensures
        r == aligned(parsed@),
{
    parsed.assignments.len() <= parsed.literals.len() && parsed.conditions.len()
        == parsed.literals.len() - parsed.assignments.len() && check_range(
        &parsed.assignments,
        parsed.literals.len(),
    ) && check_range(&parsed.conditions, parsed.literals.len())
}

/// The keyword of `verb`.
fn keyword(verb: Verb) -> (word: String)
    ensures
        word@ == keyword_of(verb),
{
    match verb {
        Verb::Insert => "INSERT".to_owned(),
        Verb::Update => "UPDATE".to_owned(),
        Verb::Delete => "DELETE".to_owned(),
    }
}

/// Converts the values of `pairs` and appends them to `parameters`. Stops
/// at the first value that does not fit.
fn bind_values(
    definition: &TableDefinition,
    pairs: &Vec<Assignment>,
    literals: &Vec<String>,
    parameters: &mut Vec<AttributeValue>,
) -> (result: Result<(), BridgeError>)
    requires
        in_range(assignment_views(pairs@), literals.len() as nat),
    ensures
        match result {
            Ok(_) => first_failure(
                definition@,
                assignment_views(pairs@),
                string_views(literals@),
                0,
            ) is None && attribute_value_views(final(parameters)@) == attribute_value_views(
                old(parameters)@,
            ) + values_of(definition@, assignment_views(pairs@), string_views(literals@)),
            Err(e) => first_failure(
                definition@,
                assignment_views(pairs@),
                string_views(literals@),
                0,
            ) matches Some(i) && e@ == conversion_error(
                assignment_views(pairs@)[i],
                string_views(literals@),
            ),
        },
{
    let ghost views = assignment_views(pairs@);
    let ghost texts = string_views(literals@);
    let ghost base = attribute_value_views(parameters@);
    let mut i: usize = 0;
    while i < pairs.len()
        invariant
            i <= pairs.len(),
            views == assignment_views(pairs@),
            texts == string_views(literals@),
            in_range(views, literals.len() as nat),
            first_failure(definition@, views, texts, 0) == first_failure(
                definition@,
                views,
                texts,
                i as int,
            ),
            attribute_value_views(parameters@) == base + values_of(definition@, views, texts).take(
                i as int,
            ),
        decreases pairs.len() - i,
    {
        let pair = &pairs[i];
        let literal = &literals[pair.placeholder - 1];
        match convert(column_type(definition, &pair.column), literal) {
            Some(value) => {
                let ghost view = value@;
                parameters.push(value);
                proof {
                    let all = values_of(definition@, views, texts);
                    assert(base + all.take(i as int) + seq![view] =~= base + all.take(i + 1));
                }
            },
            None => {
                return Err(
                    BridgeError::TypeConversionError {
                        column: pair.column.clone(),
                        literal: literal.clone(),
                    },
                );
            },
        }
        i += 1;
    }
    Ok(())
}

/// Translates `parsed` into the target dialect, taking the types of its
/// columns from `registry`.
pub fn translate(parsed: &ParsedStatement, registry: &SchemaRegistry) -> (result: Result<
    TranslatedStatement,
    BridgeError,
>)
    ensures
        match result {
            Ok(translated) => translation(parsed@, registry@) == Ok::<
                TranslatedStatementView,
                BridgeErrorView,
            >(translated@),
            Err(e) => translation(parsed@, registry@) == Err::<
                TranslatedStatementView,
                BridgeErrorView,
            >(e@),
        },
        result matches Ok(translated) ==> placeholder_count(translated.text@)
            == translated.parameters.len(),
        !registry@.contains_key(parsed.table@) ==> result matches Err(
            BridgeError::UnknownTable { .. },
        ),
{
    let definition = match registry.lookup(parsed.table.as_str()) {
        Ok(definition) => definition,
        Err(e) => {
            return Err(e);
        },
    };
    if !check_form(parsed) {
        return Err(BridgeError::UnrecognizedVerb { fragment: keyword(parsed.verb) });
    }
    if !check_alignment(parsed) {
        return Err(
            BridgeError::BindingArityMismatch {
                assignments: parsed.assignments.len(),
                conditions: parsed.conditions.len(),
                literals: parsed.literals.len(),
            },
        );
    }
    let mut parameters: Vec<AttributeValue> = Vec::new();
    match bind_values(definition, &parsed.assignments, &parsed.literals, &mut parameters) {
        Ok(_) => {},
        Err(e) => {
            return Err(e);
        },
    }
    match bind_values(definition, &parsed.conditions, &parsed.literals, &mut parameters) {
        Ok(_) => {},
        Err(e) => {
            return Err(e);
        },
    }
    let text = render(parsed);
    proof {
        lemma_statement_placeholders(parsed@);
    }
    let translated = TranslatedStatement { text, parameters };
    assert(translated@.parameters =~= values_of(
        definition@,
        parsed@.assignments,
        parsed@.literals,
    ) + values_of(definition@, parsed@.conditions, parsed@.literals));
    Ok(translated)
}

} // verus!
