//! The whole way from debug text to executable statement.

use crate::bindings::{BINDINGS_PATTERN, find_bindings, first_capture};
use crate::error::{BridgeError, BridgeErrorView};
use crate::model::{TableDefinitionView, TranslatedStatement, TranslatedStatementView};
use crate::parser::{parse_outcome, parse_with_bindings, text_view};
use crate::placeholders::placeholder_count;
use crate::registry::SchemaRegistry;
use crate::translator::{translate, translation};
use vstd::prelude::*;

verus! {

/// What parsing `text` with the list `bindings` and translating the result
/// against `registry` gives: the first failure on the way, or the
/// translated statement.
pub open spec fn adaptation(
    text: Seq<char>,
    bindings: Option<Seq<char>>,
    registry: Map<Seq<char>, TableDefinitionView>,
) -> Result<TranslatedStatementView, BridgeErrorView> {
    match parse_outcome(text, bindings) {
        Ok(parsed) => translation(parsed, registry),
        Err(e) => Err(e),
    }
}

/// Parses `text`, taking `bindings` for the list of bound values that was
/// found in it, and translates the result.
pub fn adapt_with_bindings(
    text: &str,
    bindings: Option<&str>,
    registry: &SchemaRegistry,
) -> (result: Result<TranslatedStatement, BridgeError>)
    ensures
        match result {
            Ok(translated) => adaptation(text@, text_view(bindings), registry@) == Ok::<
                TranslatedStatementView,
                BridgeErrorView,
            >(translated@),
            Err(e) => adaptation(text@, text_view(bindings), registry@) == Err::<
                TranslatedStatementView,
                BridgeErrorView,
            >(e@),
        },
        result matches Ok(translated) ==> placeholder_count(translated.text@)
            == translated.parameters.len(),
{
    match parse_with_bindings(text, bindings) {
        Ok(parsed) => translate(&parsed, registry),
        Err(e) => Err(e),
    }
}

/// Turns the debug text `diesel_query` of the query builder into a
/// statement of the target dialect with its parameters.
pub fn parse_and_adapt_query(diesel_query: &str, registry: &SchemaRegistry) -> (result: Result<
    TranslatedStatement,
    BridgeError,
>)
    ensures
        match result {
            Ok(translated) => adaptation(
                diesel_query@,
                first_capture(BINDINGS_PATTERN@, diesel_query@),
                registry@,
            ) == Ok::<TranslatedStatementView, BridgeErrorView>(translated@),
            Err(e) => adaptation(
                diesel_query@,
                first_capture(BINDINGS_PATTERN@, diesel_query@),
                registry@,
            ) == Err::<TranslatedStatementView, BridgeErrorView>(e@),
        },
        result matches Ok(translated) ==> placeholder_count(translated.text@)
            == translated.parameters.len(),
{
    match find_bindings(diesel_query) {
        Some(list) => adapt_with_bindings(diesel_query, Some(list.as_str()), registry),
        None => adapt_with_bindings(diesel_query, None, registry),
    }
}

} // verus!
