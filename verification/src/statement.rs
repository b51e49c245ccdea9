//! Recognises the three statement forms in a run of tokens.
//!
//! ```text
//! INSERT INTO table (column, ...) VALUES ($1, ...)
//! UPDATE table SET column = $1, ... WHERE key = $k AND ...
//! DELETE FROM table WHERE key = $1 AND ...
//! ```
//!
//! Keywords are upper-case words. A name is a bare word or a quoted name.
//! The placeholders of a statement are numbered from one in the order in
//! which they stand. In `column = $k` the column may be qualified by a
//! table (`table.column`), and the pair may stand in parentheses.

use crate::lexer::{token_views, Token, TokenView};
use crate::model::{string_views, Verb};
use vstd::prelude::*;

verus! {

/// What a statement says before its values are bound: its verb, its table,
/// the columns that it writes and the columns by which it selects its row.
/// The placeholders run through the written columns first, then through
/// the selecting ones.
#[derive(Clone, Debug, PartialEq, Eq)]
pub struct Statement {
    pub verb: Verb,
    pub table: String,
    pub written: Vec<String>,
    pub selected: Vec<String>,
}

/// Mathematical view of a [`Statement`].
pub struct StatementView {
    pub verb: Verb,
    pub table: Seq<char>,
    pub written: Seq<Seq<char>>,
    pub selected: Seq<Seq<char>>,
}

impl View for Statement {
    type V = StatementView;

    open spec fn view(&self) -> StatementView {
        StatementView {
            verb: self.verb,
            table: self.table@,
            written: string_views(self.written@),
            selected: string_views(self.selected@),
        }
    }
}

/// What separates the pairs of a list.
#[derive(Clone, Copy, Debug, PartialEq, Eq, Structural)]
pub enum Separator {
    /// A comma, between the pairs after `SET`.
    Comma,
    /// The word `AND`, between the pairs after `WHERE`.
    And,
}

/// The token that `separator` stands for.
pub open spec fn separator_token(separator: Separator) -> TokenView {
    match separator {
        Separator::Comma => TokenView::Comma,
        Separator::And => TokenView::Word("AND"@),
    }
}

/// The name that a token carries, if it is a bare word or a quoted name.
pub open spec fn name_of(token: TokenView) -> Option<Seq<char>> {
    match token {
        TokenView::Word(w) => Some(w),
        TokenView::Quoted(w) => Some(w),
        _ => None,
    }
}

/// The first position at or after `pos` whose token is not `skipped`.
pub open spec fn past(t: Seq<TokenView>, pos: int, skipped: TokenView) -> int
    decreases t.len() - pos,
{
    if 0 <= pos < t.len() && t[pos] == skipped {
        past(t, pos + 1, skipped)
    } else {
        pos
    }
}

/// The names of a list `name, name, ...` that starts at `pos`, with the
/// position behind the last name.
pub open spec fn names_from(t: Seq<TokenView>, pos: int) -> Option<(Seq<Seq<char>>, int)>
    decreases t.len() - pos,
{
    if 0 <= pos < t.len() && name_of(t[pos]) is Some {
        let name = name_of(t[pos])->0;
        if pos + 1 < t.len() && t[pos + 1] == TokenView::Comma {
            match names_from(t, pos + 2) {
                Some((rest, end)) => Some((seq![name] + rest, end)),
                None => None,
            }
        } else {
            Some((seq![name], pos + 1))
        }
    } else {
        None
    }
}

/// How many placeholders the list `$next, $next+1, ...` that starts at
/// `pos` holds, with the position behind the last of them.
pub open spec fn placeholders_from(t: Seq<TokenView>, pos: int, next: nat) -> Option<(nat, int)>
    decreases t.len() - pos,
{
    if 0 <= pos < t.len() && t[pos] == TokenView::Placeholder(next) {
        if pos + 1 < t.len() && t[pos + 1] == TokenView::Comma {
            match placeholders_from(t, pos + 2, next + 1) {
                Some((count, end)) => Some((count + 1, end)),
                None => None,
            }
        } else {
            Some((1, pos + 1))
        }
    } else {
        None
    }
}

/// Where the name of the column stands in the pair that starts at `pos`:
/// behind the opening parentheses and behind the qualifying table, if any.
pub open spec fn column_position(t: Seq<TokenView>, pos: int) -> int {
    let inner = past(t, pos, TokenView::Open);
    if 0 <= inner && inner + 1 < t.len() && name_of(t[inner]) is Some && t[inner + 1]
        == TokenView::Dot {
        inner + 2
    } else {
        inner
    }
}

/// The columns of a list of pairs `column = $next` that starts at `pos`,
/// the pairs parted by `separator`, with the position behind the list.
pub open spec fn pairs_from(t: Seq<TokenView>, pos: int, next: nat, separator: Separator) -> Option<
    (Seq<Seq<char>>, int),
>
    decreases t.len() - pos,
{
    let at = column_position(t, pos);
    if 0 <= pos <= at && at + 2 < t.len() && name_of(t[at]) is Some && t[at + 1]
        == TokenView::Equals && t[at + 2] == TokenView::Placeholder(next) {
        let name = name_of(t[at])->0;
        let end = past(t, at + 3, TokenView::Close);
        if at + 3 <= end < t.len() && t[end] == separator_token(separator) {
            match pairs_from(t, end + 1, next + 1, separator) {
                Some((rest, last)) => Some((seq![name] + rest, last)),
                None => None,
            }
        } else {
            Some((seq![name], end))
        }
    } else {
        None
    }
}

/// The insert statement that the tokens `t` spell, if they spell one.
pub open spec fn insert_of(t: Seq<TokenView>) -> Option<StatementView> {
    if t.len() >= 4 && t[1] == TokenView::Word("INTO"@) && name_of(t[2]) is Some && t[3]
        == TokenView::Open {
        match names_from(t, 4) {
            Some((columns, end)) => {
                if end + 2 < t.len() && t[end] == TokenView::Close && t[end + 1]
                    == TokenView::Word("VALUES"@) && t[end + 2] == TokenView::Open {
                    match placeholders_from(t, end + 3, 1) {
                        Some((count, last)) => {
                            if count == columns.len() && last + 1 == t.len() && t[last]
                                == TokenView::Close {
                                Some(
                                    StatementView {
                                        verb: Verb::Insert,
                                        table: name_of(t[2])->0,
                                        written: columns,
                                        selected: Seq::empty(),
                                    },
                                )
                            } else {
                                None
                            }
                        },
                        None => None,
                    }
                } else {
                    None
                }
            },
            None => None,
        }
    } else {
        None
    }
}

/// The update statement that the tokens `t` spell, if they spell one.
pub open spec fn update_of(t: Seq<TokenView>) -> Option<StatementView> {
    if t.len() >= 3 && name_of(t[1]) is Some && t[2] == TokenView::Word("SET"@) {
        match pairs_from(t, 3, 1, Separator::Comma) {
            Some((set, end)) => {
                if 0 <= end < t.len() && t[end] == TokenView::Word("WHERE"@) {
                    match pairs_from(t, end + 1, set.len() + 1, Separator::And) {
                        Some((keys, last)) => {
                            if last == t.len() {
                                Some(
                                    StatementView {
                                        verb: Verb::Update,
                                        table: name_of(t[1])->0,
                                        written: set,
                                        selected: keys,
                                    },
                                )
                            } else {
                                None
                            }
                        },
                        None => None,
                    }
                } else {
                    None
                }
            },
            None => None,
        }
    } else {
        None
    }
}

/// The delete statement that the tokens `t` spell, if they spell one.
pub open spec fn delete_of(t: Seq<TokenView>) -> Option<StatementView> {
    if t.len() >= 4 && t[1] == TokenView::Word("FROM"@) && name_of(t[2]) is Some && t[3]
        == TokenView::Word("WHERE"@) {
        match pairs_from(t, 4, 1, Separator::And) {
            Some((keys, last)) => {
                if last == t.len() {
                    Some(
                        StatementView {
                            verb: Verb::Delete,
                            table: name_of(t[2])->0,
                            written: Seq::empty(),
                            selected: keys,
                        },
                    )
                } else {
                    None
                }
            },
            None => None,
        }
    } else {
        None
    }
}

/// The statement that the tokens `t` spell: the first token names the verb
/// and the rest must fit that verb's form.
pub open spec fn statement_of(t: Seq<TokenView>) -> Option<StatementView> {
    if t.len() == 0 {
        None
    } else if t[0] == TokenView::Word("INSERT"@) {
        insert_of(t)
    } else if t[0] == TokenView::Word("UPDATE"@) {
        update_of(t)
    } else if t[0] == TokenView::Word("DELETE"@) {
        delete_of(t)
    } else {
        None
    }
}

/// The names `done`, followed by what `rest` holds.
pub open spec fn extended(done: Seq<Seq<char>>, rest: Option<(Seq<Seq<char>>, int)>) -> Option<
    (Seq<Seq<char>>, int),
> {
    match rest {
        Some((names, end)) => Some((done + names, end)),
        None => None,
    }
}

/// `done` placeholders, and those that `rest` counts.
pub open spec fn counted(done: nat, rest: Option<(nat, int)>) -> Option<(nat, int)> {
    match rest {
        Some((count, end)) => Some((done + count, end)),
        None => None,
    }
}

/// Whether `token` is the bare word `word`.
fn is_word(token: &Token, word: &str) -> (r: bool)
    ensures
        r == (token@ == TokenView::Word(word@)),
{
    match token {
        Token::Word(w) => *w == word.to_owned(),
        _ => false,
    }
}

/// Whether `token` is `separator`.
fn is_separator(token: &Token, separator: Separator) -> (r: bool)
    ensures
        r == (token@ == separator_token(separator)),
{
    match separator {
        Separator::Comma => matches!(token, Token::Comma),
        Separator::And => is_word(token, "AND"),
    }
}

/// The name that `token` carries, if it is a bare word or a quoted name.
fn token_name(token: &Token) -> (name: Option<String>)
    ensures
        match name {
            Some(n) => name_of(token@) == Some(n@),
            None => name_of(token@) is None,
        },
{
    match token {
        Token::Word(w) => Some(w.clone()),
        Token::Quoted(w) => Some(w.clone()),
        _ => None,
    }
}

/// The parenthesis of the given kind.
pub open spec fn parenthesis(closing: bool) -> TokenView {
    if closing {
        TokenView::Close
    } else {
        TokenView::Open
    }
}

/// Whether `token` is the parenthesis of the given kind.
fn is_parenthesis(token: &Token, closing: bool) -> (r: bool)
    ensures
        r == (token@ == parenthesis(closing)),
{
    if closing {
        matches!(token, Token::Close)
    } else {
        matches!(token, Token::Open)
    }
}

/// The first position at or after `pos` whose token is not a parenthesis
/// of the given kind.
fn skip_parentheses(tokens: &Vec<Token>, pos: usize, closing: bool) -> (end: usize)
    requires
        pos <= tokens.len(),
    ensures
        end == past(token_views(tokens@), pos as int, parenthesis(closing)),
        pos <= end <= tokens.len(),
{
    let ghost t = token_views(tokens@);
    let mut i: usize = pos;
    while i < tokens.len() && is_parenthesis(&tokens[i], closing)
        invariant
            pos <= i <= tokens.len(),
            t == token_views(tokens@),
            past(t, pos as int, parenthesis(closing)) == past(t, i as int, parenthesis(closing)),
        decreases tokens.len() - i,
    {
        i += 1;
    }
    i
}

/// Reads a list of names that starts at `start`.
fn read_names(tokens: &Vec<Token>, start: usize) -> (found: Option<(Vec<String>, usize)>)
    ensures
        match found {
            Some((names, end)) => names_from(token_views(tokens@), start as int) == Some(
                (string_views(names@), end as int),
            ) && start < end <= tokens.len() && names.len() <= end - start,
            None => names_from(token_views(tokens@), start as int) is None,
        },
{
    let ghost t = token_views(tokens@);
    let mut names: Vec<String> = Vec::new();
    let mut pos: usize = start;
    loop
        invariant
            start <= pos,
            names.len() <= pos - start,
            t == token_views(tokens@),
            names_from(t, start as int) == extended(
                string_views(names@),
                names_from(t, pos as int),
            ),
        decreases tokens.len() - pos,
    {
        if pos >= tokens.len() {
            return None;
        }
        match token_name(&tokens[pos]) {
            None => {
                return None;
            },
            Some(name) => {
                names.push(name);
                if pos + 1 < tokens.len() && matches!(tokens[pos + 1], Token::Comma) {
                    pos = pos + 2;
                } else {
                    return Some((names, pos + 1));
                }
            },
        }
    }
}

/// Reads a list of placeholders that starts at `start` and counts up from
/// `first`.
fn read_placeholders(tokens: &Vec<Token>, start: usize, first: usize) -> (found: Option<
    (usize, usize),
>)
    requires
        first <= start,
    ensures
        match found {
            Some((count, end)) => placeholders_from(
                token_views(tokens@),
                start as int,
                first as nat,
            ) == Some((count as nat, end as int)) && start < end <= tokens.len(),
            None => placeholders_from(token_views(tokens@), start as int, first as nat) is None,
        },
{
    let ghost t = token_views(tokens@);
    let mut count: usize = 0;
    let mut pos: usize = start;
    loop
        invariant
            start <= pos,
            2 * count <= pos - start,
            first <= start,
            t == token_views(tokens@),
            placeholders_from(t, start as int, first as nat) == counted(
                count as nat,
                placeholders_from(t, pos as int, (first + count) as nat),
            ),
        decreases tokens.len() - pos,
    {
        if pos >= tokens.len() {
            return None;
        }
        let fits = match &tokens[pos] {
            Token::Placeholder(n) => *n == first + count,
            _ => false,
        };
        if !fits {
            return None;
        }
        if pos + 1 < tokens.len() && matches!(tokens[pos + 1], Token::Comma) {
            count = count + 1;
            pos = pos + 2;
        } else {
            return Some((count + 1, pos + 1));
        }
    }
}

/// Whether `token` carries a name.
fn has_name(token: &Token) -> (r: bool)
    ensures
        r == name_of(token@) is Some,
{
    match token {
        Token::Word(_) => true,
        Token::Quoted(_) => true,
        _ => false,
    }
}

/// Where the name of the column stands in the pair that starts at `pos`.
fn find_column(tokens: &Vec<Token>, pos: usize) -> (at: usize)
    requires
        pos <= tokens.len(),
    ensures
        at == column_position(token_views(tokens@), pos as int),
        pos <= at <= tokens.len(),
{
    let inner = skip_parentheses(tokens, pos, false);
    if inner < tokens.len() && tokens.len() - inner > 1 && has_name(&tokens[inner]) && matches!(
        tokens[inner + 1],
        Token::Dot
    ) {
        inner + 2
    } else {
        inner
    }
}

/// Reads a list of pairs `column = $k` that starts at `start`, parted by
/// `separator`; the placeholders count up from `first`.
fn read_pairs(tokens: &Vec<Token>, start: usize, first: usize, separator: Separator) -> (found:
    Option<(Vec<String>, usize)>)
    requires
        first <= start <= tokens.len(),
    ensures
        match found {
            Some((columns, end)) => pairs_from(
                token_views(tokens@),
                start as int,
                first as nat,
                separator,
            ) == Some((string_views(columns@), end as int)) && start < end <= tokens.len()
                && columns.len() <= end - start,
            None => pairs_from(token_views(tokens@), start as int, first as nat, separator)
                is None,
        },
{
    let ghost t = token_views(tokens@);
    let mut columns: Vec<String> = Vec::new();
    let mut pos: usize = start;
    loop
        invariant
            start <= pos <= tokens.len(),
            first + columns.len() <= pos,
            columns.len() <= pos - start,
            t == token_views(tokens@),
            pairs_from(t, start as int, first as nat, separator) == extended(
                string_views(columns@),
                pairs_from(t, pos as int, (first + columns.len()) as nat, separator),
            ),
        decreases tokens.len() - pos,
    {
        let at = find_column(tokens, pos);
        if !(at < tokens.len() && tokens.len() - at > 2) {
            return None;
        }
        let bound = match &tokens[at + 2] {
            Token::Placeholder(n) => *n == first + columns.len(),
            _ => false,
        };
        if !(matches!(tokens[at + 1], Token::Equals) && bound) {
            return None;
        }
        match token_name(&tokens[at]) {
            None => {
                return None;
            },
            Some(name) => {
                let end = skip_parentheses(tokens, at + 3, true);
                columns.push(name);
                if end < tokens.len() && is_separator(&tokens[end], separator) {
                    pos = end + 1;
                } else {
                    return Some((columns, end));
                }
            },
        }
    }
}

/// Reads an insert statement; the first token is known to be `INSERT`.
fn read_insert(tokens: &Vec<Token>) -> (found: Option<Statement>)
    ensures
        match found {
            Some(statement) => insert_of(token_views(tokens@)) == Some(statement@)
                && statement.written.len() + statement.selected.len() < tokens.len(),
            None => insert_of(token_views(tokens@)) is None,
        },
{
    if !(tokens.len() >= 4 && is_word(&tokens[1], "INTO") && matches!(tokens[3], Token::Open)) {
        return None;
    }
    let table = match token_name(&tokens[2]) {
        Some(table) => table,
        None => {
            return None;
        },
    };
    let (columns, end) = match read_names(tokens, 4) {
        Some(found) => found,
        None => {
            return None;
        },
    };
    if !(end < tokens.len() && tokens.len() - end > 2 && matches!(tokens[end], Token::Close)
        && is_word(&tokens[end + 1], "VALUES") && matches!(tokens[end + 2], Token::Open)) {
        return None;
    }
    let (count, last) = match read_placeholders(tokens, end + 3, 1) {
        Some(found) => found,
        None => {
            return None;
        },
    };
    if count == columns.len() && last < tokens.len() && tokens.len() - last == 1 && matches!(
        tokens[last],
        Token::Close
    ) {
        let selected: Vec<String> = Vec::new();
        assert(string_views(selected@) =~= Seq::<Seq<char>>::empty());
        Some(Statement { verb: Verb::Insert, table, written: columns, selected })
    } else {
        None
    }
}

/// Reads an update statement; the first token is known to be `UPDATE`.
fn read_update(tokens: &Vec<Token>) -> (found: Option<Statement>)
    ensures
        match found {
            Some(statement) => update_of(token_views(tokens@)) == Some(statement@)
                && statement.written.len() + statement.selected.len() < tokens.len(),
            None => update_of(token_views(tokens@)) is None,
        },
{
    if !(tokens.len() >= 3 && is_word(&tokens[2], "SET")) {
        return None;
    }
    let table = match token_name(&tokens[1]) {
        Some(table) => table,
        None => {
            return None;
        },
    };
    let (written, end) = match read_pairs(tokens, 3, 1, Separator::Comma) {
        Some(found) => found,
        None => {
            return None;
        },
    };
    if !(end < tokens.len() && is_word(&tokens[end], "WHERE")) {
        return None;
    }
    let (selected, last) = match read_pairs(tokens, end + 1, written.len() + 1, Separator::And) {
        Some(found) => found,
        None => {
            return None;
        },
    };
    if last != tokens.len() {
        return None;
    }
    Some(Statement { verb: Verb::Update, table, written, selected })
}

/// Reads a delete statement; the first token is known to be `DELETE`.
fn read_delete(tokens: &Vec<Token>) -> (found: Option<Statement>)
    ensures
        match found {
            Some(statement) => delete_of(token_views(tokens@)) == Some(statement@)
                && statement.written.len() + statement.selected.len() < tokens.len(),
            None => delete_of(token_views(tokens@)) is None,
        },
{
    if !(tokens.len() >= 4 && is_word(&tokens[1], "FROM") && is_word(&tokens[3], "WHERE")) {
        return None;
    }
    let table = match token_name(&tokens[2]) {
        Some(table) => table,
        None => {
            return None;
        },
    };
    let (selected, last) = match read_pairs(tokens, 4, 1, Separator::And) {
        Some(found) => found,
        None => {
            return None;
        },
    };
    if last != tokens.len() {
        return None;
    }
    let written: Vec<String> = Vec::new();
    assert(string_views(written@) =~= Seq::<Seq<char>>::empty());
    Some(Statement { verb: Verb::Delete, table, written, selected })
}

/// Reads the statement that `tokens` spell.
pub fn read_statement(tokens: &Vec<Token>) -> (found: Option<Statement>)
    ensures
        match found {
            Some(statement) => statement_of(token_views(tokens@)) == Some(statement@)
                && statement.written.len() + statement.selected.len() < tokens.len(),
            None => statement_of(token_views(tokens@)) is None,
        },
{
    if tokens.len() == 0 {
        None
    } else if is_word(&tokens[0], "INSERT") {
        read_insert(tokens)
    } else if is_word(&tokens[0], "UPDATE") {
        read_update(tokens)
    } else if is_word(&tokens[0], "DELETE") {
        read_delete(tokens)
    } else {
        None
    }
}

} // verus!
