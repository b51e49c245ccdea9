//! Writing values as a list of quoted texts, and cutting the list again:
//! what was written comes back, whatever commas the values hold.
//!
//! A value can be written between double quotes where each double quote in
//! it is escaped by a backslash, and each backslash takes a character
//! along. It comes back as it was written, escapes included.

use crate::bindings::{
    closing_quote, first_text, is_quoted, item_end, last_text, literals_from, split_bindings_of,
};
use crate::render::joined;
use vstd::prelude::*;

verus! {

/// Whether `inner` stays inside quotes from `pos` on: a backslash is
/// followed by a character, which it takes along, and no other double quote
/// occurs.
pub open spec fn stays_quoted(inner: Seq<char>, pos: int) -> bool
    decreases inner.len() - pos,
{
    if pos < 0 || pos >= inner.len() {
        true
    } else if inner[pos] == '\\' {
        pos + 1 < inner.len() && stays_quoted(inner, pos + 2)
    } else if inner[pos] == '"' {
        false
    } else {
        stays_quoted(inner, pos + 1)
    }
}

/// Whether `inner` can stand between double quotes as it is.
pub open spec fn is_quotable(inner: Seq<char>) -> bool {
    stays_quoted(inner, 0)
}

/// Whether every text of `values` can stand between double quotes as it is.
pub open spec fn all_quotable(values: Seq<Seq<char>>) -> bool {
    forall|i: int| 0 <= i < values.len() ==> is_quotable(#[trigger] values[i])
}

/// A text that holds neither a double quote nor a backslash can stand
/// between double quotes as it is.
pub proof fn lemma_plain_is_quotable(inner: Seq<char>, pos: int)
    requires
        0 <= pos,
        forall|i: int| 0 <= i < inner.len() ==> inner[i] != '"' && inner[i] != '\\',
    ensures
        stays_quoted(inner, pos),
    decreases inner.len() - pos,
{
    if pos < inner.len() {
        lemma_plain_is_quotable(inner, pos + 1);
    }
}

/// `inner` in double quotes.
pub open spec fn in_quotes(inner: Seq<char>) -> Seq<char> {
    seq!['"'] + inner + seq!['"']
}

/// `values`, each in double quotes.
pub open spec fn quoted_items(values: Seq<Seq<char>>) -> Seq<Seq<char>> {
    Seq::new(values.len(), |i: int| in_quotes(values[i]))
}

/// `values` written as a list: each in double quotes, a comma and a blank
/// between two of them.
pub open spec fn written_list(values: Seq<Seq<char>>) -> Seq<char> {
    joined(quoted_items(values), ", "@)
}

/// Where the value of position `i` starts in the written list.
spec fn start_of(values: Seq<Seq<char>>, i: int) -> int
    decreases i,
{
    if i <= 0 {
        0
    } else {
        start_of(values, i - 1) + values[i - 1].len() + 4
    }
}

/// Where the item of position `i` is entered when the list is cut: at the
/// start of the list, or at the blank behind the comma before the item.
spec fn entry_of(values: Seq<Seq<char>>, i: int) -> int {
    if i <= 0 {
        0
    } else {
        start_of(values, i) - 1
    }
}

/// Whether `inner` stands in `list` at `at`, in double quotes.
#[verifier::opaque]
spec fn quoted_at(list: Seq<char>, at: int, inner: Seq<char>) -> bool {
    &&& 0 <= at
    &&& at + inner.len() + 2 <= list.len()
    &&& list[at] == '"'
    &&& list[at + inner.len() + 1] == '"'
    &&& forall|k: int| 0 <= k < inner.len() ==> list[at + 1 + k] == inner[k]
}

/// Whether the item at `at` is followed by a comma and a blank.
#[verifier::opaque]
spec fn parted_at(list: Seq<char>, at: int, inner: Seq<char>) -> bool {
    &&& 0 <= at
    &&& at + inner.len() + 4 <= list.len()
    &&& list[at + inner.len() + 2] == ','
    &&& list[at + inner.len() + 3] == ' '
}

/// The start of a value depends on the values before it only.
proof fn lemma_start_of_prefix(values: Seq<Seq<char>>, fewer: Seq<Seq<char>>, i: int)
    requires
        0 <= i <= fewer.len() <= values.len(),
        forall|j: int| 0 <= j < fewer.len() ==> fewer[j] == values[j],
    ensures
        start_of(values, i) == start_of(fewer, i),
    decreases i,
{
    if i > 0 {
        lemma_start_of_prefix(values, fewer, i - 1);
    }
}

/// What stands in a list stands there still when more is appended.
proof fn lemma_appending_keeps(list: Seq<char>, more: Seq<char>, at: int, inner: Seq<char>)
    ensures
        quoted_at(list, at, inner) ==> quoted_at(list + more, at, inner),
        parted_at(list, at, inner) ==> parted_at(list + more, at, inner),
{
    reveal(quoted_at);
    reveal(parted_at);
}

/// A value appended to a list that ends with another value: the new value
/// stands in its quotes behind a comma and a blank.
proof fn lemma_appended_item(list: Seq<char>, at: int, inner: Seq<char>, value: Seq<char>)
    requires
        quoted_at(list, at, inner),
        list.len() == at + inner.len() + 2,
    ensures
        parted_at(list + ", "@ + in_quotes(value), at, inner),
        quoted_at(list + ", "@ + in_quotes(value), list.len() as int + 2, value),
        (list + ", "@ + in_quotes(value)).len() == list.len() + 2 + value.len() + 2,
{
    reveal_strlit(", ");
    reveal(quoted_at);
    reveal(parted_at);
}

/// A written list of two or more values is the list of all but the last
/// value, a comma, a blank and the last value in its quotes.
proof fn lemma_last_item(values: Seq<Seq<char>>)
    requires
        values.len() > 1,
    ensures
        written_list(values) == written_list(values.drop_last()) + ", "@ + in_quotes(
            values.last(),
        ),
        written_list(values) == written_list(values.drop_last()) + (", "@ + in_quotes(
            values.last(),
        )),
{
    assert(quoted_items(values).drop_last() =~= quoted_items(values.drop_last()));
}

/// Where the value of position `i` stands in a written list: in its
/// quotes at its start, with a comma and a blank behind it unless it is the
/// last value, which ends the list.
proof fn lemma_layout(values: Seq<Seq<char>>, i: int)
    requires
        0 <= i < values.len(),
    ensures
        quoted_at(written_list(values), start_of(values, i), values[i]),
        i < values.len() - 1 ==> parted_at(written_list(values), start_of(values, i), values[i]),
        written_list(values).len() == start_of(values, values.len() - 1) + values.last().len()
            + 2,
    decreases values.len(),
{
    if values.len() == 1 {
        reveal(quoted_at);
    } else {
        let fewer = values.drop_last();
        let shorter = written_list(fewer);
        let last = values.len() - 1;
        lemma_last_item(values);
        lemma_layout(fewer, last - 1);
        lemma_start_of_prefix(values, fewer, last - 1);
        lemma_appended_item(shorter, start_of(fewer, last - 1), fewer[last - 1], values.last());
        if i < last {
            lemma_layout(fewer, i);
            lemma_start_of_prefix(values, fewer, i);
            lemma_appending_keeps(
                shorter,
                ", "@ + in_quotes(values.last()),
                start_of(fewer, i),
                fewer[i],
            );
        }
    }
}

/// Inside the quotes of a quoted text the item runs on to behind the
/// closing quote, and the first quote found unescaped is the closing one.
proof fn lemma_inside_quotes(list: Seq<char>, at: int, inner: Seq<char>, pos: int)
    requires
        quoted_at(list, at, inner),
        at + 1 <= pos <= at + inner.len() + 1,
        stays_quoted(inner, pos - at - 1),
    ensures
        item_end(list, pos, true) == item_end(list, at + inner.len() + 2, false),
        closing_quote(list, pos) == at + inner.len() + 1,
    decreases at + inner.len() + 1 - pos,
{
    reveal(quoted_at);
    if pos < at + inner.len() + 1 {
        assert(list[pos] == inner[pos - at - 1]);
        if list[pos] == '\\' {
            lemma_inside_quotes(list, at, inner, pos + 2);
        } else {
            lemma_inside_quotes(list, at, inner, pos + 1);
        }
    }
}

/// What being parted says of the characters behind the item.
proof fn lemma_parted(list: Seq<char>, at: int, inner: Seq<char>)
    requires
        parted_at(list, at, inner),
    ensures
        0 <= at,
        at + inner.len() + 4 <= list.len(),
        list[at + inner.len() + 2] == ',',
        list[at + inner.len() + 3] == ' ',
{
    reveal(parted_at);
}

/// How a quoted text is cut out of a list: the item that is entered
/// at the quote, or at a blank before it, ends behind the closing quote,
/// and its literal is the text.
proof fn lemma_item_is_cut(list: Seq<char>, at: int, value: Seq<char>, blank_before: bool)
    requires
        is_quotable(value),
        quoted_at(list, at, value),
        blank_before ==> at >= 1 && list[at - 1] == ' ',
        at + value.len() + 2 == list.len() || list[at + value.len() + 2] == ',',
    ensures
        ({
            let entry = if blank_before {
                at - 1
            } else {
                at
            };
            let end = at + value.len() + 2;
            &&& item_end(list, entry, false) == Some(end)
            &&& first_text(list, entry, end) == at
            &&& last_text(list, at, end) == end
            &&& is_quoted(list, at, end)
            &&& list.subrange(at + 1, end - 1) == value
        }),
{
    let end = at + value.len() + 2;
    lemma_inside_quotes(list, at, value, at + 1);
    reveal(quoted_at);
    assert(first_text(list, at, end) == at);
}

/// Cutting a written list from the item of position `i` on gives the
/// values from position `i` on.
proof fn lemma_items_come_back(values: Seq<Seq<char>>, i: int)
    requires
        all_quotable(values),
        0 <= i < values.len(),
    ensures
        literals_from(written_list(values), entry_of(values, i)) == Some(
            values.subrange(i, values.len() as int),
        ),
    decreases values.len() - i,
{
    let list = written_list(values);
    let at = start_of(values, i);
    let value = values[i];
    lemma_layout(values, i);
    if i > 0 {
        lemma_layout(values, i - 1);
        lemma_parted(list, start_of(values, i - 1), values[i - 1]);
    }
    if i < values.len() - 1 {
        lemma_parted(list, at, value);
        lemma_items_come_back(values, i + 1);
    }
    lemma_item_is_cut(list, at, value, i > 0);
}

/// Cutting a written list gives back the values that were written, in
/// their order: no comma or blank inside a value's quotes splits or
/// shortens it.
pub proof fn lemma_written_list_comes_back(values: Seq<Seq<char>>)
    requires
        all_quotable(values),
    ensures
        split_bindings_of(written_list(values)) == Some(values),
{
    if values.len() > 0 {
        reveal(quoted_at);
        lemma_layout(values, 0);
        lemma_items_come_back(values, 0);
    }
}

/// A list that holds one text in double quotes gives that text as its one
/// literal: a comma between the quotes does not split it.
pub proof fn lemma_quoted_text_is_one_literal(inner: Seq<char>)
    requires
        is_quotable(inner),
    ensures
        split_bindings_of(in_quotes(inner)) == Some(seq![inner]),
{
    lemma_written_list_comes_back(seq![inner]);
}

} // verus!
