//! What holds of parsing and translating taken together.

use crate::bindings::split_bindings_of;
use crate::error::BridgeErrorView;
use crate::lexer::{comment_starts, lemma_word_end_bounds, lex, lex_from, token_at, TokenView};
use crate::model::{
    AssignmentView, AttributeValueView, ParsedStatementView, TableDefinitionView,
    TranslatedStatementView, Verb,
};
use crate::parser::{parse_outcome, statement_in};
use crate::placeholders::{lemma_statement_placeholders, placeholder_count};
use crate::provisioning::{scalar_type_of, ScalarType};
use crate::statement::{
    column_position, name_of, names_from, pairs_from, past, separator_token, Separator,
};
use crate::text::{is_space, is_word_char};
use crate::translator::{aligned, first_failure, is_name, translation, value_of, well_formed};
use crate::values::{declared_type, typed_value};
use vstd::prelude::*;

verus! {

/// A translation that succeeds gives a text with one placeholder for each
/// parameter, and one parameter for each bound value.
pub proof fn lemma_placeholders_match_parameters(
    parsed: ParsedStatementView,
    registry: Map<Seq<char>, TableDefinitionView>,
)
    requires
        translation(parsed, registry) is Ok,
    ensures
        placeholder_count(translation(parsed, registry)->Ok_0.text) == translation(
            parsed,
            registry,
        )->Ok_0.parameters.len(),
        translation(parsed, registry)->Ok_0.parameters.len() == parsed.literals.len(),
{
    lemma_statement_placeholders(parsed);
}

/// Where the values of all pairs fit, none is the first that does not.
proof fn lemma_no_failure(
    definition: TableDefinitionView,
    pairs: Seq<AssignmentView>,
    literals: Seq<Seq<char>>,
    from: int,
)
    requires
        0 <= from <= pairs.len(),
        first_failure(definition, pairs, literals, from) is None,
    ensures
        forall|k: int| from <= k < pairs.len() ==> value_of(definition, pairs[k], literals) is Some,
    decreases pairs.len() - from,
{
    if from < pairs.len() {
        lemma_no_failure(definition, pairs, literals, from + 1);
    }
}

/// Parsing a debug text and translating what was parsed keeps count and
/// order: where both succeed, the text of the result has as many
/// placeholders as the debug text binds values, there are as many
/// parameters, and the parameter of each position is the value of the
/// literal of that position, typed as the column of that position asks.
/// For an insert these are its written columns.
pub proof fn lemma_parse_then_translate(
    text: Seq<char>,
    bindings: Option<Seq<char>>,
    registry: Map<Seq<char>, TableDefinitionView>,
)
    requires
        parse_outcome(text, bindings) is Ok,
        translation(parse_outcome(text, bindings)->Ok_0, registry) is Ok,
    ensures
        ({
            let parsed = parse_outcome(text, bindings)->Ok_0;
            let translated = translation(parsed, registry)->Ok_0;
            let columns = parsed.assignments + parsed.conditions;
            &&& placeholder_count(translated.text) == parsed.literals.len()
            &&& translated.parameters.len() == parsed.literals.len()
            &&& columns.len() == parsed.literals.len()
            &&& parsed.verb == Verb::Insert ==> parsed.assignments.len() == parsed.literals.len()
            &&& forall|k: int|
                0 <= k < parsed.literals.len() ==> typed_value(
                    declared_type(registry[parsed.table], columns[k].column),
                    parsed.literals[k],
                ) == Some(#[trigger] translated.parameters[k])
        }),
{
    let parsed = parse_outcome(text, bindings)->Ok_0;
    let definition = registry[parsed.table];
    lemma_statement_placeholders(parsed);
    lemma_no_failure(definition, parsed.assignments, parsed.literals, 0);
    lemma_no_failure(definition, parsed.conditions, parsed.literals, 0);
}

/// A debug text that binds more or fewer values than its statement has
/// placeholders never parses: it fails with `BindingArityMismatch`.
pub proof fn lemma_arity_mismatch_fails(text: Seq<char>, list: Seq<char>)
    requires
        statement_in(text) is Some,
        split_bindings_of(list) is Some,
        split_bindings_of(list)->0.len() != statement_in(text)->0.written.len() + statement_in(
            text,
        )->0.selected.len(),
    ensures
        parse_outcome(text, Some(list)) == Err::<ParsedStatementView, BridgeErrorView>(
            BridgeErrorView::BindingArityMismatch {
                assignments: statement_in(text)->0.written.len(),
                conditions: statement_in(text)->0.selected.len(),
                literals: split_bindings_of(list)->0.len(),
            },
        ),
{
}

/// A statement with more or fewer values than placeholders never
/// translates, whatever else holds of it.
pub proof fn lemma_misaligned_never_translates(
    parsed: ParsedStatementView,
    registry: Map<Seq<char>, TableDefinitionView>,
)
    requires
        parsed.literals.len() != parsed.assignments.len() + parsed.conditions.len(),
    ensures
        translation(parsed, registry) is Err,
        registry.contains_key(parsed.table) && well_formed(parsed) ==> translation(
            parsed,
            registry,
        ) == Err::<TranslatedStatementView, BridgeErrorView>(
            BridgeErrorView::BindingArityMismatch {
                assignments: parsed.assignments.len(),
                conditions: parsed.conditions.len(),
                literals: parsed.literals.len(),
            },
        ),
{
}

/// A statement on a table that is not registered never translates: it
/// fails with `UnknownTable`, whatever else holds of it.
pub proof fn lemma_unknown_table_fails(
    parsed: ParsedStatementView,
    registry: Map<Seq<char>, TableDefinitionView>,
)
    requires
        !registry.contains_key(parsed.table),
    ensures
        translation(parsed, registry) == Err::<TranslatedStatementView, BridgeErrorView>(
            BridgeErrorView::UnknownTable { table: parsed.table },
        ),
{
}

/// Whether every name among the tokens `t` is one or more letters, digits
/// and underscores.
pub open spec fn names_are_plain(t: Seq<TokenView>) -> bool {
    forall|i: int|
        0 <= i < t.len() && name_of(#[trigger] t[i]) is Some ==> is_name(name_of(t[i])->0)
}

/// Whether every text of `names` is a name.
pub open spec fn all_names(names: Seq<Seq<char>>) -> bool {
    forall|i: int| 0 <= i < names.len() ==> is_name(#[trigger] names[i])
}

/// The names of a list that was read, or none where none was read.
pub open spec fn names_read(found: Option<(Seq<Seq<char>>, int)>) -> Seq<Seq<char>> {
    match found {
        Some((names, _)) => names,
        None => Seq::empty(),
    }
}

/// The name that a token carries is one or more letters, digits and
/// underscores.
proof fn lemma_token_name_is_plain(s: Seq<char>, pos: int)
    requires
        0 <= pos < s.len(),
    ensures
        match token_at(s, pos) {
            Some((token, _)) => match name_of(token) {
                Some(name) => is_name(name),
                None => true,
            },
            None => true,
        },
{
    if s[pos] == '"' {
        lemma_word_end_bounds(s, pos + 1);
    } else if is_word_char(s[pos]) {
        lemma_word_end_bounds(s, pos);
        lemma_word_end_bounds(s, pos + 1);
    }
}

/// The tokens of a text carry plain names only.
proof fn lemma_lexed_names_are_plain(s: Seq<char>, pos: int)
    requires
        0 <= pos,
        lex_from(s, pos) is Some,
    ensures
        names_are_plain(lex_from(s, pos)->0),
    decreases s.len() - pos,
{
    if pos >= s.len() {
    } else if is_space(s[pos]) {
        lemma_lexed_names_are_plain(s, pos + 1);
    } else if comment_starts(s, pos) {
    } else {
        let (token, next) = token_at(s, pos)->0;
        lemma_token_name_is_plain(s, pos);
        lemma_lexed_names_are_plain(s, next);
        let all = seq![token] + lex_from(s, next)->0;
        assert forall|i: int|
            0 <= i < all.len() && name_of(#[trigger] all[i]) is Some implies is_name(
            name_of(all[i])->0,
        ) by {}
    }
}

/// A list of names read from tokens with plain names holds one or more
/// plain names.
proof fn lemma_listed_names_are_plain(t: Seq<TokenView>, pos: int)
    requires
        names_are_plain(t),
        names_from(t, pos) is Some,
    ensures
        all_names(names_read(names_from(t, pos))),
        names_read(names_from(t, pos)).len() > 0,
    decreases t.len() - pos,
{
    if pos + 1 < t.len() && t[pos + 1] == TokenView::Comma {
        lemma_listed_names_are_plain(t, pos + 2);
    }
}

/// A list of pairs read from tokens with plain names holds one or more
/// plain columns.
proof fn lemma_paired_names_are_plain(t: Seq<TokenView>, pos: int, next: nat, separator: Separator)
    requires
        names_are_plain(t),
        pairs_from(t, pos, next, separator) is Some,
    ensures
        all_names(names_read(pairs_from(t, pos, next, separator))),
        names_read(pairs_from(t, pos, next, separator)).len() > 0,
    decreases t.len() - pos,
{
    let at = column_position(t, pos);
    let end = past(t, at + 3, TokenView::Close);
    if at + 3 <= end < t.len() && t[end] == separator_token(separator) {
        lemma_paired_names_are_plain(t, end + 1, next + 1, separator);
    }
}

/// What parses can be written: a parsed statement has plain names, the
/// form of its verb, and a value for each of its placeholders. Translating
/// it can fail only for a table that is not registered or for a value that
/// does not fit the type of its column.
pub proof fn lemma_parsed_is_well_formed(text: Seq<char>, bindings: Option<Seq<char>>)
    requires
        parse_outcome(text, bindings) is Ok,
    ensures
        well_formed(parse_outcome(text, bindings)->Ok_0),
        aligned(parse_outcome(text, bindings)->Ok_0),
{
    let t = lex(text)->0;
    lemma_lexed_names_are_plain(text, 0);
    if t[0] == TokenView::Word("INSERT"@) {
        lemma_listed_names_are_plain(t, 4);
    } else if t[0] == TokenView::Word("UPDATE"@) {
        lemma_paired_names_are_plain(t, 3, 1, Separator::Comma);
        let (set, end) = pairs_from(t, 3, 1, Separator::Comma)->0;
        lemma_paired_names_are_plain(t, end + 1, set.len() + 1, Separator::And);
    } else {
        lemma_paired_names_are_plain(t, 4, 1, Separator::And);
    }
}

/// What parses translates, unless its table is unknown or a value does not
/// fit: for a registered table, translating a parsed statement either
/// succeeds or fails with `TypeConversionError`.
pub proof fn lemma_parsed_translates_or_misfits(
    text: Seq<char>,
    bindings: Option<Seq<char>>,
    registry: Map<Seq<char>, TableDefinitionView>,
)
    requires
        parse_outcome(text, bindings) is Ok,
        registry.contains_key(parse_outcome(text, bindings)->Ok_0.table),
    ensures
        match translation(parse_outcome(text, bindings)->Ok_0, registry) {
            Ok(_) => true,
            Err(e) => e is TypeConversionError,
        },
{
    lemma_parsed_is_well_formed(text, bindings);
}

/// The store's scalar type of a value.
pub open spec fn scalar_type_of_value(value: AttributeValueView) -> ScalarType {
    match value {
        AttributeValueView::String(_) => ScalarType::String,
        AttributeValueView::Number(_) => ScalarType::Number,
        AttributeValueView::Binary(_) => ScalarType::Binary,
    }
}

/// Every parameter of a translation has the type that the table declares
/// for its column: the parameters of the written columns come first, in
/// the order of the columns, those of the selecting columns follow.
pub proof fn lemma_parameters_are_typed(
    parsed: ParsedStatementView,
    registry: Map<Seq<char>, TableDefinitionView>,
)
    requires
        translation(parsed, registry) is Ok,
    ensures
        ({
            let parameters = translation(parsed, registry)->Ok_0.parameters;
            let columns = parsed.assignments + parsed.conditions;
            &&& parameters.len() == columns.len()
            &&& forall|k: int|
                0 <= k < columns.len() ==> scalar_type_of_value(#[trigger] parameters[k])
                    == scalar_type_of(declared_type(registry[parsed.table], columns[k].column))
        }),
{
    let definition = registry[parsed.table];
    lemma_no_failure(definition, parsed.assignments, parsed.literals, 0);
    lemma_no_failure(definition, parsed.conditions, parsed.literals, 0);
}

} // verus!
