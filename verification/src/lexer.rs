//! Cuts the statement part of a debug text into tokens.
//!
//! A token is a bare word, a name in double quotes, a placeholder (`$` and a
//! number), or one of `(`, `)`, `,`, `=` and `.`. Blanks separate tokens and
//! `--` ends the statement: what follows it is a comment.

use crate::text::{
    char_is_digit, char_is_space, char_is_word, chars_of, is_digit, is_space, is_word_char,
    slice_of,
};
use vstd::prelude::*;

verus! {

/// One token of a statement.
#[derive(Clone, Debug, PartialEq, Eq)]
pub enum Token {
    /// A bare word: a keyword or a name.
    Word(String),
    /// A name that stood in double quotes, without the quotes.
    Quoted(String),
    /// A placeholder, by its number.
    Placeholder(usize),
    Open,
    Close,
    Comma,
    Equals,
    Dot,
}

/// Mathematical view of a [`Token`].
pub enum TokenView {
    Word(Seq<char>),
    Quoted(Seq<char>),
    Placeholder(nat),
    Open,
    Close,
    Comma,
    Equals,
    Dot,
}

impl View for Token {
    type V = TokenView;

    open spec fn view(&self) -> TokenView {
        match self {
            Token::Word(w) => TokenView::Word(w@),
            Token::Quoted(w) => TokenView::Quoted(w@),
            Token::Placeholder(n) => TokenView::Placeholder(*n as nat),
            Token::Open => TokenView::Open,
            Token::Close => TokenView::Close,
            Token::Comma => TokenView::Comma,
            Token::Equals => TokenView::Equals,
            Token::Dot => TokenView::Dot,
        }
    }
}

/// The views of a run of tokens, in order.
pub open spec fn token_views(tokens: Seq<Token>) -> Seq<TokenView> {
    Seq::new(tokens.len(), |i: int| tokens[i]@)
}

/// Where the run of name characters that starts at `pos` ends.
pub open spec fn word_end(s: Seq<char>, pos: int) -> int
    decreases s.len() - pos,
{
    if 0 <= pos < s.len() && is_word_char(s[pos]) {
        word_end(s, pos + 1)
    } else {
        pos
    }
}

/// Where the run of digits that starts at `pos` ends.
pub open spec fn digits_end(s: Seq<char>, pos: int) -> int
    decreases s.len() - pos,
{
    if 0 <= pos < s.len() && is_digit(s[pos]) {
        digits_end(s, pos + 1)
    } else {
        pos
    }
}

/// The number that a run of decimal digits writes.
pub open spec fn decimal_value(digits: Seq<char>) -> nat
    decreases digits.len(),
{
    if digits.len() == 0 {
        0
    } else {
        (decimal_value(digits.drop_last()) * 10 + (digits.last() as int - '0' as int)) as nat
    }
}

/// Whether a comment starts at `pos`.
pub open spec fn comment_starts(s: Seq<char>, pos: int) -> bool {
    0 <= pos && pos + 1 < s.len() && s[pos] == '-' && s[pos + 1] == '-'
}

/// The token that starts at `pos`, with the position behind it; `None`
/// where no token can start with the character at `pos`, where a quoted name
/// is empty, is not closed or holds anything but name characters, and where
/// a placeholder has no number or one too large for the machine.
pub open spec fn token_at(s: Seq<char>, pos: int) -> Option<(TokenView, int)>
    recommends
        0 <= pos < s.len(),
{
    let c = s[pos];
    if c == '(' {
        Some((TokenView::Open, pos + 1))
    } else if c == ')' {
        Some((TokenView::Close, pos + 1))
    } else if c == ',' {
        Some((TokenView::Comma, pos + 1))
    } else if c == '=' {
        Some((TokenView::Equals, pos + 1))
    } else if c == '.' {
        Some((TokenView::Dot, pos + 1))
    } else if is_word_char(c) {
        let end = word_end(s, pos);
        Some((TokenView::Word(s.subrange(pos, end)), end))
    } else if c == '"' {
        let end = word_end(s, pos + 1);
        if pos + 1 < end && end < s.len() && s[end] == '"' {
            Some((TokenView::Quoted(s.subrange(pos + 1, end)), end + 1))
        } else {
            None
        }
    } else if c == '$' {
        let end = digits_end(s, pos + 1);
        let value = decimal_value(s.subrange(pos + 1, end));
        if pos + 1 < end && value <= usize::MAX {
            Some((TokenView::Placeholder(value), end))
        } else {
            None
        }
    } else {
        None
    }
}

/// The tokens of `s` from `pos` on.
pub open spec fn lex_from(s: Seq<char>, pos: int) -> Option<Seq<TokenView>>
    decreases s.len() - pos,
{
    if pos < 0 || pos >= s.len() {
        Some(Seq::empty())
    } else if is_space(s[pos]) {
        lex_from(s, pos + 1)
    } else if comment_starts(s, pos) {
        Some(Seq::empty())
    } else {
        match token_at(s, pos) {
            Some((token, next)) => if pos < next <= s.len() {
                match lex_from(s, next) {
                    Some(rest) => Some(seq![token] + rest),
                    None => None,
                }
            } else {
                None
            },
            None => None,
        }
    }
}

/// The tokens of the statement that `s` opens with, or `None` where some
/// part of it is no token.
pub open spec fn lex(s: Seq<char>) -> Option<Seq<TokenView>> {
    lex_from(s, 0)
}

/// A run of name characters ends no earlier than it starts and inside the text.
pub proof fn lemma_word_end_bounds(s: Seq<char>, pos: int)
    requires
        0 <= pos <= s.len(),
    ensures
        pos <= word_end(s, pos) <= s.len(),
        forall|k: int| pos <= k < word_end(s, pos) ==> is_word_char(s[k]),
    decreases s.len() - pos,
{
    if pos < s.len() && is_word_char(s[pos]) {
        lemma_word_end_bounds(s, pos + 1);
    }
}

/// A number is no smaller than the number that its first digits write.
proof fn lemma_decimal_value_grows(digits: Seq<char>, n: int)
    requires
        0 <= n <= digits.len(),
        forall|k: int| 0 <= k < digits.len() ==> is_digit(digits[k]),
    ensures
        decimal_value(digits.take(n)) <= decimal_value(digits),
    decreases digits.len() - n,
{
    if n == digits.len() {
        assert(digits.take(n) =~= digits);
    } else {
        assert(digits.drop_last().take(n) =~= digits.take(n));
        lemma_decimal_value_grows(digits.drop_last(), n);
    }
}

/// Where the run of name characters that starts at `pos` ends.
fn scan_word(chars: &Vec<char>, pos: usize) -> (end: usize)
    requires
        pos <= chars.len(),
    ensures
        end == word_end(chars@, pos as int),
        pos <= end <= chars.len(),
{
    let mut i: usize = pos;
    while i < chars.len() && char_is_word(chars[i])
        invariant
            pos <= i <= chars.len(),
            word_end(chars@, pos as int) == word_end(chars@, i as int),
        decreases chars.len() - i,
    {
        i += 1;
    }
    i
}

/// Where the run of digits that starts at `pos` ends.
pub(crate) fn scan_digits(chars: &Vec<char>, pos: usize) -> (end: usize)
    requires
        pos <= chars.len(),
    ensures
        end == digits_end(chars@, pos as int),
        pos <= end <= chars.len(),
        forall|k: int| pos <= k < end ==> is_digit(chars@[k]),
{
    let mut i: usize = pos;
    while i < chars.len() && char_is_digit(chars[i])
        invariant
            pos <= i <= chars.len(),
            digits_end(chars@, pos as int) == digits_end(chars@, i as int),
            forall|k: int| pos <= k < i ==> is_digit(chars@[k]),
        decreases chars.len() - i,
    {
        i += 1;
    }
    i
}

/// The number that the digit `c` stands for.
fn digit_value(c: char) -> (d: usize)
    requires
        is_digit(c),
    ensures
        d == c as int - '0' as int,
        d <= 9,
{
    (c as u32 - '0' as u32) as usize
}

/// The number that the digits from `start` up to `end` write, unless it is
/// too large for the machine.
fn read_number(chars: &Vec<char>, start: usize, end: usize) -> (value: Option<usize>)
    requires
        start <= end <= chars.len(),
        forall|k: int| start <= k < end ==> is_digit(chars@[k]),
    ensures
        match value {
            Some(v) => v == decimal_value(chars@.subrange(start as int, end as int)),
            None => decimal_value(chars@.subrange(start as int, end as int)) > usize::MAX,
        },
{
    let ghost digits = chars@.subrange(start as int, end as int);
    let mut acc: usize = 0;
    let mut i: usize = start;
    while i < end
        invariant
            start <= i <= end <= chars.len(),
            digits == chars@.subrange(start as int, end as int),
            forall|k: int| start <= k < end ==> is_digit(chars@[k]),
            acc == decimal_value(digits.take(i - start)),
        decreases end - i,
    {
        let d = digit_value(chars[i]);
        proof {
            let longer = digits.take(i - start + 1);
            assert(longer.drop_last() =~= digits.take(i - start));
            lemma_decimal_value_grows(digits, i - start + 1);
        }
        let scaled = match acc.checked_mul(10) {
            Some(v) => v,
            None => { return None; },
        };
        acc = match scaled.checked_add(d) {
            Some(v) => v,
            None => { return None; },
        };
        i += 1;
    }
    assert(digits.take(end - start) =~= digits);
    Some(acc)
}

/// The token that starts at `pos`, with the position behind it.
fn read_token(text: &str, chars: &Vec<char>, pos: usize) -> (found: Option<(Token, usize)>)
    requires
        chars@ == text@,
        pos < chars.len(),
    ensures
        match found {
            Some((token, next)) => token_at(text@, pos as int) == Some((token@, next as int))
                && pos < next <= chars.len(),
            None => token_at(text@, pos as int) is None,
        },
{
    let c = chars[pos];
    if c == '(' {
        Some((Token::Open, pos + 1))
    } else if c == ')' {
        Some((Token::Close, pos + 1))
    } else if c == ',' {
        Some((Token::Comma, pos + 1))
    } else if c == '=' {
        Some((Token::Equals, pos + 1))
    } else if c == '.' {
        Some((Token::Dot, pos + 1))
    } else if char_is_word(c) {
        let end = scan_word(chars, pos);
        assert(pos < end) by {
            lemma_word_end_bounds(chars@, pos as int + 1);
        }
        Some((Token::Word(slice_of(text, pos, end)), end))
    } else if c == '"' {
        let end = scan_word(chars, pos + 1);
        if pos + 1 < end && end < chars.len() && chars[end] == '"' {
            Some((Token::Quoted(slice_of(text, pos + 1, end)), end + 1))
        } else {
            None
        }
    } else if c == '$' {
        let end = scan_digits(chars, pos + 1);
        if pos + 1 < end {
            match read_number(chars, pos + 1, end) {
                Some(value) => Some((Token::Placeholder(value), end)),
                None => None,
            }
        } else {
            None
        }
    } else {
        None
    }
}

/// `done` followed by `rest`, where there is a rest.
pub open spec fn followed_by<T>(done: Seq<T>, rest: Option<Seq<T>>) -> Option<Seq<T>> {
    match rest {
        Some(rest) => Some(done + rest),
        None => None,
    }
}

/// Cuts the statement that `text` opens with into its tokens.
pub fn tokenize(text: &str) -> (tokens: Option<Vec<Token>>)
    ensures
        match tokens {
            Some(tokens) => lex(text@) == Some(token_views(tokens@)),
            None => lex(text@) is None,
        },
{
    let chars = chars_of(text);
    let mut tokens: Vec<Token> = Vec::new();
    let mut pos: usize = 0;
    while pos < chars.len()
        invariant
            pos <= chars.len(),
            chars@ == text@,
            lex(text@) == followed_by(token_views(tokens@), lex_from(text@, pos as int)),
        decreases chars.len() - pos,
    {
        if char_is_space(chars[pos]) {
            pos += 1;
        } else if chars[pos] == '-' && pos + 1 < chars.len() && chars[pos + 1] == '-' {
            return Some(tokens);
        } else {
            match read_token(text, &chars, pos) {
                Some((token, next)) => {
                    tokens.push(token);
                    pos = next;
                },
                None => {
                    return None;
                },
            }
        }
    }
    Some(tokens)
}

} // verus!
