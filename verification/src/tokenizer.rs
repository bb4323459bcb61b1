//! The token source: the tokens of a source text, read from left to right
//! with lookahead.

use vstd::prelude::*;
use crate::decimal::{is_float_literal, parse_int};
use crate::lexer::{blank_len, lemma_lengths, lex, lex_from, lexeme_kind, lexeme_rest, next_token, word_len};
use crate::text::{chars_of, push_char, str_eq};
use crate::token::{Token, TokenType, TokenView};

verus! {

/// The characters of a source text, read one at a time.
#[derive(Debug)]
pub struct CharStream {
    source: Vec<char>,
    index: usize,
}

impl CharStream {
    #[verifier::type_invariant]
    spec fn within_the_text(self) -> bool {
        self.index <= self.source.len()
    }

    /// All the characters of the text.
    pub closed spec fn chars(self) -> Seq<char> {
        self.source@
    }

    /// How many characters have been read.
    pub closed spec fn position(self) -> nat {
        self.index as nat
    }

    /// A stream at the start of `src`.
    pub fn new(src: String) -> (stream: Self)
        ensures
            stream.chars() == src@,
            stream.position() == 0,
            stream.position() <= stream.chars().len(),
    {
        Self { source: chars_of(src.as_str()), index: 0 }
    }

    /// The next character, which stays in the stream; `None` at the end.
    pub fn peek(&self) -> (c: Option<char>)
        ensures
            c == (if self.position() < self.chars().len() {
                Some(self.chars()[self.position() as int])
            } else {
                None
            }),
            self.position() <= self.chars().len(),
    {
        proof {
            use_type_invariant(self);
        }
        if self.index >= self.source.len() {
            None
        } else {
            Some(self.source[self.index])
        }
    }

    /// The next character, which leaves the stream; `None` at the end, where
    /// the stream stays as it is.
    pub fn next(&mut self) -> (c: Option<char>)
        ensures
            final(self).chars() == old(self).chars(),
            c == (if old(self).position() < old(self).chars().len() {
                Some(old(self).chars()[old(self).position() as int])
            } else {
                None
            }),
            final(self).position() == (if old(self).position() < old(self).chars().len() {
                old(self).position() + 1
            } else {
                old(self).position()
            }),
            final(self).position() <= final(self).chars().len(),
    {
        let character = self.peek();
        if self.index < self.source.len() {
            self.index = self.index + 1;
        }
        character
    }
}

impl Clone for CharStream {
    fn clone(&self) -> (copy: Self)
        ensures
            copy.chars() == self.chars(),
            copy.position() == self.position(),
    {
        proof {
            use_type_invariant(self);
        }
        let source = self.source.clone();
        Self { source, index: self.index }
    }
}

/// The tokens as plain values.
pub open spec fn tokens_view(tokens: Seq<Token>) -> Seq<TokenView> {
    Seq::new(tokens.len(), |i: int| tokens[i]@)
}

/// The token at `pos`, if there is one.
pub open spec fn token_at(tokens: Seq<TokenView>, pos: nat) -> Option<TokenView> {
    if pos < tokens.len() {
        Some(tokens[pos as int])
    } else {
        None
    }
}

/// How many tokens stand at or after `pos`.
pub open spec fn remaining(tokens: Seq<TokenView>, pos: nat) -> nat {
    if pos < tokens.len() {
        (tokens.len() - pos) as nat
    } else {
        0
    }
}

/// A token source: the tokens of one source text and a position among them.
#[derive(Debug)]
pub struct Tokenizer {
    tokenstream: Vec<Token>,
    index: usize,
}

impl Tokenizer {
    /// All the tokens of the source.
    pub closed spec fn tokens(self) -> Seq<TokenView> {
        tokens_view(self.tokenstream@)
    }

    /// How many tokens have been consumed.
    pub closed spec fn position(self) -> nat {
        self.index as nat
    }

    /// How many tokens are left.
    pub open spec fn left(self) -> nat {
        remaining(self.tokens(), self.position())
    }

    /// The tokens of a source text, none of them consumed.
    #[verifier::loop_isolation(false)]
    pub fn new(string: String) -> (tokenizer: Self)
        ensures
            tokenizer.tokens() == lex(string@),
            tokenizer.position() == 0,
    {
        let mut charstream = CharStream::new(string);
        let mut tokenstream: Vec<Token> = Vec::new();
        assert(tokens_view(tokenstream@) =~= Seq::<TokenView>::empty());
        loop
            invariant
                charstream.chars() == string@,
                charstream.position() <= string@.len(),
                lex(string@) == lex_from(string@, charstream.position(), tokens_view(tokenstream@)),
            decreases string@.len() - charstream.position(),
        {
            let ghost before = tokens_view(tokenstream@);
            match Self::next_token(&mut charstream) {
                Some(t) => {
                    tokenstream.push(t);
                    assert(tokens_view(tokenstream@) =~= before.push(t@));
                },
                None => {
                    break;
                },
            }
        }
        Self { tokenstream, index: 0 }
    }

    /// Reads past blanks and comments.
    #[verifier::loop_isolation(false)]
    pub fn skip_whitespace(charstream: &mut CharStream)
        ensures
            final(charstream).chars() == old(charstream).chars(),
            final(charstream).position() == old(charstream).position() + blank_len(old(charstream).chars(), old(charstream).position(), false),
            final(charstream).position() <= final(charstream).chars().len(),
    {
        let ghost s = charstream.chars();
        let ghost start = charstream.position();
        let mut in_comment = false;
        proof {
            use_type_invariant(&*charstream);
            lemma_lengths(s, start, false);
        }
        loop
            invariant
                charstream.chars() == s,
                start <= charstream.position() <= s.len(),
                start + blank_len(s, start, false) == charstream.position() + blank_len(s, charstream.position(), in_comment),
            decreases s.len() - charstream.position(),
        {
            let c = match charstream.peek() {
                Some(c) => c,
                None => {
                    return ;
                },
            };
            if in_comment {
                in_comment = c != '\n';
            } else if c == '#' {
                in_comment = true;
            } else if !(c == '\n' || c == ' ' || c == ',') {
                return ;
            }
            charstream.next();
        }
    }

    /// Reads the characters up to the next separator and adds them to `text`.
    #[verifier::loop_isolation(false)]
    fn read_word(charstream: &mut CharStream, text: &mut String)
        requires
            old(charstream).position() <= old(charstream).chars().len(),
        ensures
            final(charstream).chars() == old(charstream).chars(),
            final(charstream).position() == old(charstream).position() + word_len(old(charstream).chars(), old(charstream).position()),
            final(charstream).position() <= final(charstream).chars().len(),
            final(text)@ == old(text)@ + old(charstream).chars().subrange(old(charstream).position() as int, final(charstream).position() as int),
    {
        let ghost s = charstream.chars();
        let ghost start = charstream.position();
        loop
            invariant
                charstream.chars() == s,
                start <= charstream.position() <= s.len(),
                start + word_len(s, start) == charstream.position() + word_len(s, charstream.position()),
                text@ == old(text)@ + s.subrange(start as int, charstream.position() as int),
            decreases s.len() - charstream.position(),
        {
            let c = match charstream.peek() {
                Some(c) => c,
                None => {
                    return ;
                },
            };
            if c == '\n' || c == ' ' || c == '(' || c == ')' || c == ':' || c == ',' || c == '\'' {
                return ;
            }
            push_char(text, c);
            charstream.next();
        }
    }

    /// Reads the character `c` if it is the next one.
    fn accept(charstream: &mut CharStream, c: char, text: &mut String) -> (found: bool)
        requires
            old(charstream).position() <= old(charstream).chars().len(),
            old(charstream).position() >= 1,
        ensures
            final(charstream).chars() == old(charstream).chars(),
            found == crate::lexer::followed_by(old(charstream).chars(), (old(charstream).position() - 1) as nat, c),
            final(charstream).position() == old(charstream).position() + if found { 1nat } else { 0nat },
            final(charstream).position() <= final(charstream).chars().len(),
            final(text)@ == if found { old(text)@.push(c) } else { old(text)@ },
    {
        match charstream.peek() {
            Some(next) => {
                if next == c {
                    charstream.next();
                    push_char(text, c);
                    true
                } else {
                    false
                }
            },
            None => false,
        }
    }

    /// The kind of the lexeme `text`, which starts with the character `c`.
    fn kind_of(c: char, text: &String) -> (kind: TokenType)
        ensures
            kind == lexeme_kind(c, text@),
    {
        let chars = chars_of(text.as_str());
        let double = chars.len() == 2;
        if c == '(' {
            TokenType::OpenParen
        } else if c == ')' {
            TokenType::CloseParen
        } else if c == '{' {
            TokenType::OpenBrace
        } else if c == '}' {
            TokenType::CloseBrace
        } else if c == ':' {
            if double {
                TokenType::FnDeclaration
            } else {
                TokenType::Assignment
            }
        } else if c == '+' {
            TokenType::Plus
        } else if c == '-' {
            if double {
                TokenType::FnReturnType
            } else {
                TokenType::Minus
            }
        } else if c == '*' {
            TokenType::Multiply
        } else if c == '/' {
            TokenType::Divide
        } else if c == '!' {
            TokenType::Not
        } else if c == '>' {
            if double {
                TokenType::GreaterEqual
            } else {
                TokenType::Greater
            }
        } else if c == '<' {
            if double {
                TokenType::LessEqual
            } else {
                TokenType::Less
            }
        } else if c == '=' {
            TokenType::Equal
        } else if c == '?' {
            TokenType::TernaryIf
        } else if c == '|' {
            TokenType::TernaryElse
        } else if c == '\'' {
            TokenType::SingleQuote
        } else if c == '&' {
            TokenType::Ref
        } else if '0' <= c && c <= '9' {
            if parse_int(&chars).is_some() {
                TokenType::Int
            } else if is_float_literal(&chars) {
                TokenType::Float
            } else {
                TokenType::Unknown
            }
        } else if 'A' <= c && c <= 'z' {
            let word = text.as_str();
            if str_eq(word, "int") || str_eq(word, "flt") || str_eq(word, "bln") || str_eq(word, "chr") || str_eq(word, "nul") {
                TokenType::Type
            } else if str_eq(word, "true") || str_eq(word, "false") {
                TokenType::Bool
            } else if str_eq(word, "let") {
                TokenType::Let
            } else if str_eq(word, "whl") {
                TokenType::While
            } else if str_eq(word, "if") {
                TokenType::If
            } else if str_eq(word, "else") {
                TokenType::Else
            } else if str_eq(word, "struct") {
                TokenType::Struct
            } else if str_eq(word, "return") {
                TokenType::Return
            } else if str_eq(word, "use") {
                TokenType::Use
            } else {
                TokenType::Identifier
            }
        } else {
            TokenType::Unknown
        }
    }

    /// Reads the next token; `None` where the text ends before another token.
    pub fn next_token(charstream: &mut CharStream) -> (token: Option<Token>)
        ensures
            final(charstream).chars() == old(charstream).chars(),
            final(charstream).position() <= final(charstream).chars().len(),
            match token {
                Some(t) => next_token(old(charstream).chars(), old(charstream).position()) == Some((t@, (final(charstream).position() - old(charstream).position()) as nat))
                    && final(charstream).position() > old(charstream).position(),
                None => next_token(old(charstream).chars(), old(charstream).position()) is None,
            },
    {
        let ghost s = charstream.chars();
        Self::skip_whitespace(charstream);
        let ghost start = charstream.position();
        let character = match charstream.next() {
            Some(c) => c,
            None => {
                return None;
            },
        };
        if character == '\0' {
            return None;
        }
        let mut text = String::new();
        push_char(&mut text, character);
        if character == ':' {
            Self::accept(charstream, ':', &mut text);
        } else if character == '-' {
            Self::accept(charstream, '>', &mut text);
        } else if character == '>' || character == '<' {
            Self::accept(charstream, '=', &mut text);
        } else if character == '&' || ('0' <= character && character <= '9') || ('A' <= character && character <= 'z') {
            Self::read_word(charstream, &mut text);
        }
        assert(text@ =~= s.subrange(start as int, start as int + 1 + lexeme_rest(s, start)));
        let kind = Self::kind_of(character, &text);
        Some(Token::new(text, kind))
    }

    /// A token source over the given tokens, none of them consumed.
    pub fn from_tokens(tokens: Vec<Token>) -> (tokenizer: Self)
        ensures
            tokenizer.tokens() == tokens_view(tokens@),
            tokenizer.position() == 0,
    {
        Self { tokenstream: tokens, index: 0 }
    }

    /// Consumes the next token; `None` at the end, where nothing is consumed.
    pub fn next(&mut self) -> (token: Option<Token>)
        ensures
            final(self).tokens() == old(self).tokens(),
            match token {
                Some(t) => token_at(old(self).tokens(), old(self).position()) == Some(t@) && final(self).position() == old(self).position() + 1,
                None => token_at(old(self).tokens(), old(self).position()) is None && final(self).position() == old(self).position(),
            },
    {
        let token = self.peek();
        if self.index < self.tokenstream.len() {
            self.index = self.index + 1;
        }
        token
    }

    /// The next token, which is not consumed.
    pub fn peek(&self) -> (token: Option<Token>)
        ensures
            match token {
                Some(t) => token_at(self.tokens(), self.position()) == Some(t@),
                None => token_at(self.tokens(), self.position()) is None,
            },
    {
        if self.index >= self.tokenstream.len() {
            None
        } else {
            Some(self.tokenstream[self.index].duplicate())
        }
    }

    /// The token that stands `n` tokens after the next one, which is not consumed.
    pub fn look_ahead(&self, n: usize) -> (token: Option<Token>)
        ensures
            match token {
                Some(t) => token_at(self.tokens(), self.position() + n as nat) == Some(t@),
                None => token_at(self.tokens(), self.position() + n as nat) is None,
            },
    {
        if self.index >= self.tokenstream.len() || n >= self.tokenstream.len() - self.index {
            None
        } else {
            Some(self.tokenstream[self.index + n].duplicate())
        }
    }

    /// All the tokens of the source, consumed or not.
    pub fn collect(&self) -> (tokens: Vec<Token>)
        ensures
            tokens_view(tokens@) == self.tokens(),
    {
        let mut tokens: Vec<Token> = Vec::new();
        let mut i: usize = 0;
        while i < self.tokenstream.len()
            invariant
                i <= self.tokenstream.len(),
                tokens.len() == i,
                forall|j: int| 0 <= j < i ==> tokens@[j]@ == self.tokenstream@[j]@,
            decreases self.tokenstream.len() - i,
        {
            tokens.push(self.tokenstream[i].duplicate());
            i = i + 1;
        }
        tokens
    }
}

impl Clone for Tokenizer {
    fn clone(&self) -> (copy: Self)
        ensures
            copy.tokens() == self.tokens(),
            copy.position() == self.position(),
    {
        Self { tokenstream: self.collect(), index: self.index }
    }
}

} // verus!
