//! How a source text is cut into tokens.
//!
//! Blanks (line breaks, spaces and commas) and comments (from `#` to the end
//! of the line) separate tokens and are dropped. A word runs up to the next
//! separator. A NUL character ends the text.

use vstd::prelude::*;
use crate::decimal::{float_literal, int_literal, is_digit};
use crate::token::{TokenType, TokenView};

verus! {

/// Whether `c` is dropped between tokens.
pub open spec fn is_blank(c: char) -> bool {
    c == '\n' || c == ' ' || c == ','
}

/// Whether `c` ends a word.
pub open spec fn is_separator(c: char) -> bool {
    c == '\n' || c == ' ' || c == '(' || c == ')' || c == ':' || c == ',' || c == '\''
}

/// Whether `c` can start a name or a keyword.
pub open spec fn starts_word(c: char) -> bool {
    'A' <= c && c <= 'z'
}

/// How many characters from `pos` on are blanks or belong to comments.
pub open spec fn blank_len(s: Seq<char>, pos: nat, in_comment: bool) -> nat
    decreases s.len() - pos,
{
    if pos >= s.len() {
        0
    } else if in_comment {
        1 + blank_len(s, pos + 1, s[pos as int] != '\n')
    } else if is_blank(s[pos as int]) {
        1 + blank_len(s, pos + 1, false)
    } else if s[pos as int] == '#' {
        1 + blank_len(s, pos + 1, true)
    } else {
        0
    }
}

/// How many characters from `pos` on stand before the next separator.
pub open spec fn word_len(s: Seq<char>, pos: nat) -> nat
    decreases s.len() - pos,
{
    if pos >= s.len() || is_separator(s[pos as int]) {
        0
    } else {
        1 + word_len(s, pos + 1)
    }
}

/// The kind of a word that starts with a letter: a keyword, or else a name.
pub open spec fn word_kind(word: Seq<char>) -> TokenType {
    if word == "int"@ || word == "flt"@ || word == "bln"@ || word == "chr"@ || word == "nul"@ {
        TokenType::Type
    } else if word == "true"@ || word == "false"@ {
        TokenType::Bool
    } else if word == "let"@ {
        TokenType::Let
    } else if word == "whl"@ {
        TokenType::While
    } else if word == "if"@ {
        TokenType::If
    } else if word == "else"@ {
        TokenType::Else
    } else if word == "struct"@ {
        TokenType::Struct
    } else if word == "return"@ {
        TokenType::Return
    } else if word == "use"@ {
        TokenType::Use
    } else {
        TokenType::Identifier
    }
}

/// The kind of a word that starts with a digit.
pub open spec fn number_kind(word: Seq<char>) -> TokenType {
    if int_literal(word) is Some {
        TokenType::Int
    } else if float_literal(word) {
        TokenType::Float
    } else {
        TokenType::Unknown
    }
}

/// Whether the character after `pos` is `c`.
pub open spec fn followed_by(s: Seq<char>, pos: nat, c: char) -> bool {
    pos + 1 < s.len() && s[pos as int + 1] == c
}

/// How many characters the lexeme that starts at `pos` has after its first.
pub open spec fn lexeme_rest(s: Seq<char>, pos: nat) -> nat {
    let c = s[pos as int];
    if (c == ':' && followed_by(s, pos, ':')) || (c == '-' && followed_by(s, pos, '>')) || (c == '>' && followed_by(s, pos, '='))
        || (c == '<' && followed_by(s, pos, '=')) {
        1
    } else if c == '&' || is_digit(c) || starts_word(c) {
        word_len(s, pos + 1)
    } else {
        0
    }
}

/// The kind of the lexeme `text`, which starts with the character `c`.
pub open spec fn lexeme_kind(c: char, text: Seq<char>) -> TokenType {
    if c == '(' {
        TokenType::OpenParen
    } else if c == ')' {
        TokenType::CloseParen
    } else if c == '{' {
        TokenType::OpenBrace
    } else if c == '}' {
        TokenType::CloseBrace
    } else if c == ':' {
        if text.len() == 2 {
            TokenType::FnDeclaration
        } else {
            TokenType::Assignment
        }
    } else if c == '+' {
        TokenType::Plus
    } else if c == '-' {
        if text.len() == 2 {
            TokenType::FnReturnType
        } else {
            TokenType::Minus
        }
    } else if c == '*' {
        TokenType::Multiply
    } else if c == '/' {
        TokenType::Divide
    } else if c == '!' {
        TokenType::Not
    } else if c == '>' {
        if text.len() == 2 {
            TokenType::GreaterEqual
        } else {
            TokenType::Greater
        }
    } else if c == '<' {
        if text.len() == 2 {
            TokenType::LessEqual
        } else {
            TokenType::Less
        }
    } else if c == '=' {
        TokenType::Equal
    } else if c == '?' {
        TokenType::TernaryIf
    } else if c == '|' {
        TokenType::TernaryElse
    } else if c == '\'' {
        TokenType::SingleQuote
    } else if c == '&' {
        TokenType::Ref
    } else if is_digit(c) {
        number_kind(text)
    } else if starts_word(c) {
        word_kind(text)
    } else {
        TokenType::Unknown
    }
}

/// The token whose lexeme starts at `pos`.
pub open spec fn token_from(s: Seq<char>, pos: nat) -> TokenView {
    let text = s.subrange(pos as int, pos as int + 1 + lexeme_rest(s, pos));
    TokenView { text, kind: lexeme_kind(s[pos as int], text) }
}

/// The next token at or after `pos` and how many characters are read for it,
/// blanks and comments before it included; `None` where the text ends
/// before another token.
pub open spec fn next_token(s: Seq<char>, pos: nat) -> Option<(TokenView, nat)> {
    let start = pos + blank_len(s, pos, false);
    if start >= s.len() || s[start as int] == '\0' {
        None
    } else {
        Some((token_from(s, start), blank_len(s, pos, false) + 1 + lexeme_rest(s, start)))
    }
}

/// How many characters stand at or after `pos`.
pub open spec fn chars_left(s: Seq<char>, pos: nat) -> nat {
    if pos < s.len() {
        (s.len() - pos) as nat
    } else {
        0
    }
}

/// The tokens of the text from `pos` on, added to `acc`.
pub open spec fn lex_from(s: Seq<char>, pos: nat, acc: Seq<TokenView>) -> Seq<TokenView>
    decreases chars_left(s, pos),
{
    if pos >= s.len() {
        acc
    } else {
        match next_token(s, pos) {
            None => acc,
            Some((token, read)) => lex_from(s, pos + blank_len(s, pos, false) + 1 + lexeme_rest(s, pos + blank_len(s, pos, false)), acc.push(token)),
        }
    }
}

/// The tokens of a source text.
pub open spec fn lex(source: Seq<char>) -> Seq<TokenView> {
    lex_from(source, 0, Seq::empty())
}

/// Blanks and words end within the text.
pub proof fn lemma_lengths(s: Seq<char>, pos: nat, in_comment: bool)
    requires
        pos <= s.len(),
    ensures
        pos + blank_len(s, pos, in_comment) <= s.len(),
        pos + word_len(s, pos) <= s.len(),
    decreases s.len() - pos,
{
    if pos < s.len() {
        lemma_lengths(s, pos + 1, true);
        lemma_lengths(s, pos + 1, false);
    }
}

} // verus!
