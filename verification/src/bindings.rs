//! The list of bound values that the query builder appends to a statement:
//! finding it in the debug text and cutting it into literals.
//!
//! The list stands in square brackets behind `-- binds: `. Its items are
//! parted by commas. A comma inside double quotes belongs to its item, and
//! inside quotes a backslash takes the character behind it along, so an
//! escaped quote does not close the item's quotes.

use crate::model::string_views;
use crate::text::{char_is_space, chars_of, is_space, slice_of};
use vstd::prelude::*;

verus! {

/// Where the item ends that is being read at `pos`, `quoted` telling whether
/// `pos` lies inside quotes: at the first comma outside quotes, or at the
/// end of the text. `None` where the text ends inside quotes.
pub open spec fn item_end(list: Seq<char>, pos: int, quoted: bool) -> Option<int>
    decreases list.len() - pos,
{
    if pos < 0 || pos >= list.len() {
        if quoted {
            None
        } else {
            Some(list.len() as int)
        }
    } else if quoted {
        if list[pos] == '\\' {
            if pos + 1 < list.len() {
                item_end(list, pos + 2, true)
            } else {
                None
            }
        } else if list[pos] == '"' {
            item_end(list, pos + 1, false)
        } else {
            item_end(list, pos + 1, true)
        }
    } else {
        if list[pos] == ',' {
            Some(pos)
        } else if list[pos] == '"' {
            item_end(list, pos + 1, true)
        } else {
            item_end(list, pos + 1, false)
        }
    }
}

/// The first position from `from` on that holds no blank, or `to` where
/// only blanks are left before `to`.
pub open spec fn first_text(list: Seq<char>, from: int, to: int) -> int
    decreases to - from,
{
    if 0 <= from < to <= list.len() && is_space(list[from]) {
        first_text(list, from + 1, to)
    } else {
        from
    }
}

/// The position behind the last character before `to` that is no blank, or
/// `from` where only blanks stand between `from` and `to`.
pub open spec fn last_text(list: Seq<char>, from: int, to: int) -> int
    decreases to - from,
{
    if 0 <= from < to <= list.len() && is_space(list[to - 1]) {
        last_text(list, from, to - 1)
    } else {
        to
    }
}

/// The first quote at or after `pos` that no backslash escapes, or the
/// length of the text where there is none.
pub open spec fn closing_quote(list: Seq<char>, pos: int) -> int
    decreases list.len() - pos,
{
    if pos < 0 || pos >= list.len() {
        list.len() as int
    } else if list[pos] == '\\' {
        if pos + 1 < list.len() {
            closing_quote(list, pos + 2)
        } else {
            list.len() as int
        }
    } else if list[pos] == '"' {
        pos
    } else {
        closing_quote(list, pos + 1)
    }
}

/// Whether the item between `from` and `to` is one quoted text: it opens
/// with a quote and that quote is closed by the item's last character.
pub open spec fn is_quoted(list: Seq<char>, from: int, to: int) -> bool {
    0 <= from && from + 2 <= to <= list.len() && list[from] == '"' && closing_quote(list, from + 1)
        == to - 1
}

/// The literal that the item between `from` and `to` writes: what stands
/// between the quotes of a quoted text, and any other item as it is.
pub open spec fn literal_between(list: Seq<char>, from: int, to: int) -> Seq<char> {
    if is_quoted(list, from, to) {
        list.subrange(from + 1, to - 1)
    } else {
        list.subrange(from, to)
    }
}

/// The literals of the items from `pos` on. `None` where an item is empty
/// or its quotes are not closed.
pub open spec fn literals_from(list: Seq<char>, pos: int) -> Option<Seq<Seq<char>>>
    decreases list.len() - pos,
{
    match item_end(list, pos, false) {
        None => None,
        Some(end) => {
            let from = first_text(list, pos, end);
            let to = last_text(list, from, end);
            if 0 <= pos <= end <= list.len() && from < to {
                let literal = literal_between(list, from, to);
                if end == list.len() {
                    Some(seq![literal])
                } else {
                    match literals_from(list, end + 1) {
                        Some(rest) => Some(seq![literal] + rest),
                        None => None,
                    }
                }
            } else {
                None
            }
        },
    }
}

/// The literals that the list `list` holds, in order: none where the list
/// is blank, otherwise one for each item. `None` where the list is
/// malformed.
pub open spec fn split_bindings_of(list: Seq<char>) -> Option<Seq<Seq<char>>> {
    if first_text(list, 0, list.len() as int) == list.len() {
        Some(Seq::empty())
    } else {
        literals_from(list, 0)
    }
}

/// Where the item that starts at `start` ends.
fn scan_item(chars: &Vec<char>, start: usize) -> (end: Option<usize>)
    requires
        start <= chars.len(),
    ensures
        match end {
            Some(end) => item_end(chars@, start as int, false) == Some(end as int) && start
                <= end <= chars.len(),
            None => item_end(chars@, start as int, false) is None,
        },
{
    let mut pos: usize = start;
    let mut quoted = false;
    while pos < chars.len()
        invariant
            start <= pos <= chars.len(),
            item_end(chars@, start as int, false) == item_end(chars@, pos as int, quoted),
        decreases chars.len() - pos,
    {
        let c = chars[pos];
        if quoted {
            if c == '\\' {
                if chars.len() - pos > 1 {
                    pos += 2;
                } else {
                    return None;
                }
            } else {
                if c == '"' {
                    quoted = false;
                }
                pos += 1;
            }
        } else {
            if c == ',' {
                return Some(pos);
            }
            if c == '"' {
                quoted = true;
            }
            pos += 1;
        }
    }
    if quoted {
        None
    } else {
        Some(pos)
    }
}

/// The first position from `from` on that holds no blank, or `to`.
fn skip_blanks(chars: &Vec<char>, from: usize, to: usize) -> (at: usize)
    requires
        from <= to <= chars.len(),
    ensures
        at == first_text(chars@, from as int, to as int),
        from <= at <= to,
{
    let mut i: usize = from;
    while i < to && char_is_space(chars[i])
        invariant
            from <= i <= to <= chars.len(),
            first_text(chars@, from as int, to as int) == first_text(chars@, i as int, to as int),
        decreases to - i,
    {
        i += 1;
    }
    i
}

/// The position behind the last character before `to` that is no blank,
/// or `from`.
fn drop_blanks(chars: &Vec<char>, from: usize, to: usize) -> (at: usize)
    requires
        from <= to <= chars.len(),
    ensures
        at == last_text(chars@, from as int, to as int),
        from <= at <= to,
{
    let mut i: usize = to;
    while from < i && char_is_space(chars[i - 1])
        invariant
            from <= i <= to <= chars.len(),
            last_text(chars@, from as int, to as int) == last_text(chars@, from as int, i as int),
        decreases i - from,
    {
        i -= 1;
    }
    i
}

/// The first quote at or after `start` that no backslash escapes, or the
/// length of the text.
fn find_closing_quote(chars: &Vec<char>, start: usize) -> (at: usize)
    requires
        start <= chars.len(),
    ensures
        at == closing_quote(chars@, start as int),
        start <= at <= chars.len(),
{
    let mut pos: usize = start;
    while pos < chars.len()
        invariant
            start <= pos <= chars.len(),
            closing_quote(chars@, start as int) == closing_quote(chars@, pos as int),
        decreases chars.len() - pos,
    {
        let c = chars[pos];
        if c == '\\' {
            if chars.len() - pos > 1 {
                pos += 2;
            } else {
                return chars.len();
            }
        } else if c == '"' {
            return pos;
        } else {
            pos += 1;
        }
    }
    pos
}

/// The literal that the item between `from` and `to` writes.
fn literal_of(list: &str, chars: &Vec<char>, from: usize, to: usize) -> (literal: String)
    requires
        chars@ == list@,
        from < to <= chars.len(),
    ensures
        literal@ == literal_between(list@, from as int, to as int),
{
    if to - from >= 2 && chars[from] == '"' && find_closing_quote(chars, from + 1) == to - 1 {
        slice_of(list, from + 1, to - 1)
    } else {
        slice_of(list, from, to)
    }
}

/// `done` followed by `rest`, where there is a rest.
pub open spec fn continued(done: Seq<Seq<char>>, rest: Option<Seq<Seq<char>>>) -> Option<
    Seq<Seq<char>>,
> {
    match rest {
        Some(rest) => Some(done + rest),
        None => None,
    }
}

/// Cuts the list `list` into its literals.
pub fn split_bindings(list: &str) -> (literals: Option<Vec<String>>)
    ensures
        match literals {
            Some(literals) => split_bindings_of(list@) == Some(string_views(literals@)),
            None => split_bindings_of(list@) is None,
        },
{
    let chars = chars_of(list);
    let mut literals: Vec<String> = Vec::new();
    if skip_blanks(&chars, 0, chars.len()) == chars.len() {
        return Some(literals);
    }
    let mut pos: usize = 0;
    loop
        invariant
            pos <= chars.len(),
            chars@ == list@,
            split_bindings_of(list@) == literals_from(list@, 0),
            literals_from(list@, 0) == continued(
                string_views(literals@),
                literals_from(list@, pos as int),
            ),
        decreases chars.len() - pos,
    {
        let end = match scan_item(&chars, pos) {
            Some(end) => end,
            None => {
                return None;
            },
        };
        let from = skip_blanks(&chars, pos, end);
        let to = drop_blanks(&chars, from, end);
        if from >= to {
            return None;
        }
        let literal = literal_of(list, &chars, from, to);
        literals.push(literal);
        if end == chars.len() {
            return Some(literals);
        }
        pos = end + 1;
    }
}

/// What the first capture group of the regular expression `pattern` holds
/// in the leftmost match of `pattern` within `haystack`. `None` where
/// `pattern` is no regular expression, where it matches nowhere in
/// `haystack`, and where the match leaves the group out.
pub uninterp spec fn first_capture(pattern: Seq<char>, haystack: Seq<char>) -> Option<Seq<char>>;

/// Searches `haystack` with `regex::Regex::new(pattern)` and
/// `Regex::captures`, and hands out the text of capture group 1
/// (`Captures::get(1)`, `Match::as_str`).
///
/// Trusted: the result is [`first_capture`] of the two texts. Nothing is
/// claimed of what the regular expression engine matches; the claim is that
/// the same pattern and the same text give the same capture.
#[verifier::external_body]
fn capture_first_group(pattern: &str, haystack: &str) -> (captured: Option<String>)
    ensures
        match captured {
            Some(text) => first_capture(pattern@, haystack@) == Some(text@),
            None => first_capture(pattern@, haystack@) is None,
        },
{
    match regex::Regex::new(pattern) {
        Ok(expression) => match expression.captures(haystack) {
            Some(groups) => match groups.get(1) {
                Some(group) => Some(group.as_str().to_string()),
                None => None,
            },
            None => None,
        },
        Err(_) => None,
    }
}

/// The regular expression that finds the list of bound values: the marker
/// `-- binds: [`, the list as its first group, and the first `]` behind it.
pub const BINDINGS_PATTERN: &'static str = "-- binds: \\[(.*?)\\]";

/// The list of bound values that `text` carries, without its brackets;
/// `None` where `text` carries none.
pub fn find_bindings(text: &str) -> (list: Option<String>)
    ensures
        match list {
            Some(list) => first_capture(BINDINGS_PATTERN@, text@) == Some(list@),
            None => first_capture(BINDINGS_PATTERN@, text@) is None,
        },
{
    capture_first_group(BINDINGS_PATTERN, text)
}

} // verus!
