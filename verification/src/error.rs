//! The failures that lexing, parsing and emitting can end in.

use vstd::prelude::*;
use vstd::string::StringExecFns;

verus! {

/// Which failure an `Error` is, without the text it carries.
#[derive(PartialEq, Eq, Structural, Clone, Copy, Debug, Hash)]
pub enum ErrorKind {
    NoFileProvided,
    UnexpectedCliFlag,
    CouldNotReadFile,
    CouldNotCreate,
    CouldNotWriteFile,
    CouldNotGetCurrentDir,
    CouldNotEmit,
    CouldNotParse,
    InvalidOperator,
    UnexpectedEof,
    ExpectedIdentifier,
    ExpectedDatatypeKeyword,
    ExpectedAssignment,
    ExpectedBoolean,
    ExpectedLiteral,
    ExpectedSingleQuote,
    ExpectedOpenParen,
    ExpectedCloseParen,
    ExpectedOpenBrace,
    ExpectedReturnType,
    TooManyLeadingKeywords,
    UndeclaredVariable,
    FoundBareStruct,
}

/// A failure. Most carry the text near which it was found: the lexeme of the
/// offending token, a name, or a fixed word.
#[derive(Debug, PartialEq, Eq)]
pub enum Error {
    NoFileProvided,
    UnexpectedCliFlag(String),
    CouldNotReadFile(String),
    CouldNotCreate(String),
    CouldNotWriteFile(String),
    CouldNotGetCurrentDir,
    CouldNotEmit(String),
    CouldNotParse(String),
    InvalidOperator(String),
    UnexpectedEof(String),
    ExpectedIdentifier(String),
    ExpectedDatatypeKeyword(String),
    ExpectedAssignment(String),
    ExpectedBoolean(String),
    ExpectedLiteral(String),
    ExpectedSingleQuote(String),
    ExpectedOpenParen(String),
    ExpectedCloseParen(String),
    ExpectedOpenBrace(String),
    ExpectedReturnType(String),
    TooManyLeadingKeywords(String),
    UndeclaredVariable(String),
    FoundBareStruct,
}

/// What a failure is, as plain values: its kind and the characters of the
/// text it carries (none for the kinds that carry no text).
pub struct ErrorView {
    pub kind: ErrorKind,
    pub near: Seq<char>,
}

/// The failure of the given kind found near the given text.
pub open spec fn failure(kind: ErrorKind, near: Seq<char>) -> ErrorView {
    ErrorView { kind, near }
}

impl View for Error {
    type V = ErrorView;

    open spec fn view(&self) -> ErrorView {
        match self {
            Error::NoFileProvided => failure(ErrorKind::NoFileProvided, Seq::empty()),
            Error::UnexpectedCliFlag(s) => failure(ErrorKind::UnexpectedCliFlag, s@),
            Error::CouldNotReadFile(s) => failure(ErrorKind::CouldNotReadFile, s@),
            Error::CouldNotCreate(s) => failure(ErrorKind::CouldNotCreate, s@),
            Error::CouldNotWriteFile(s) => failure(ErrorKind::CouldNotWriteFile, s@),
            Error::CouldNotGetCurrentDir => failure(ErrorKind::CouldNotGetCurrentDir, Seq::empty()),
            Error::CouldNotEmit(s) => failure(ErrorKind::CouldNotEmit, s@),
            Error::CouldNotParse(s) => failure(ErrorKind::CouldNotParse, s@),
            Error::InvalidOperator(s) => failure(ErrorKind::InvalidOperator, s@),
            Error::UnexpectedEof(s) => failure(ErrorKind::UnexpectedEof, s@),
            Error::ExpectedIdentifier(s) => failure(ErrorKind::ExpectedIdentifier, s@),
            Error::ExpectedDatatypeKeyword(s) => failure(ErrorKind::ExpectedDatatypeKeyword, s@),
            Error::ExpectedAssignment(s) => failure(ErrorKind::ExpectedAssignment, s@),
            Error::ExpectedBoolean(s) => failure(ErrorKind::ExpectedBoolean, s@),
            Error::ExpectedLiteral(s) => failure(ErrorKind::ExpectedLiteral, s@),
            Error::ExpectedSingleQuote(s) => failure(ErrorKind::ExpectedSingleQuote, s@),
            Error::ExpectedOpenParen(s) => failure(ErrorKind::ExpectedOpenParen, s@),
            Error::ExpectedCloseParen(s) => failure(ErrorKind::ExpectedCloseParen, s@),
            Error::ExpectedOpenBrace(s) => failure(ErrorKind::ExpectedOpenBrace, s@),
            Error::ExpectedReturnType(s) => failure(ErrorKind::ExpectedReturnType, s@),
            Error::TooManyLeadingKeywords(s) => failure(ErrorKind::TooManyLeadingKeywords, s@),
            Error::UndeclaredVariable(s) => failure(ErrorKind::UndeclaredVariable, s@),
            Error::FoundBareStruct => failure(ErrorKind::FoundBareStruct, Seq::empty()),
        }
    }
}

impl Clone for Error {
    fn clone(&self) -> (error: Self)
        ensures
            error@ == self@,
    {
        match self {
            Error::NoFileProvided => Error::NoFileProvided,
            Error::UnexpectedCliFlag(s) => Error::UnexpectedCliFlag(s.clone()),
            Error::CouldNotReadFile(s) => Error::CouldNotReadFile(s.clone()),
            Error::CouldNotCreate(s) => Error::CouldNotCreate(s.clone()),
            Error::CouldNotWriteFile(s) => Error::CouldNotWriteFile(s.clone()),
            Error::CouldNotGetCurrentDir => Error::CouldNotGetCurrentDir,
            Error::CouldNotEmit(s) => Error::CouldNotEmit(s.clone()),
            Error::CouldNotParse(s) => Error::CouldNotParse(s.clone()),
            Error::InvalidOperator(s) => Error::InvalidOperator(s.clone()),
            Error::UnexpectedEof(s) => Error::UnexpectedEof(s.clone()),
            Error::ExpectedIdentifier(s) => Error::ExpectedIdentifier(s.clone()),
            Error::ExpectedDatatypeKeyword(s) => Error::ExpectedDatatypeKeyword(s.clone()),
            Error::ExpectedAssignment(s) => Error::ExpectedAssignment(s.clone()),
            Error::ExpectedBoolean(s) => Error::ExpectedBoolean(s.clone()),
            Error::ExpectedLiteral(s) => Error::ExpectedLiteral(s.clone()),
            Error::ExpectedSingleQuote(s) => Error::ExpectedSingleQuote(s.clone()),
            Error::ExpectedOpenParen(s) => Error::ExpectedOpenParen(s.clone()),
            Error::ExpectedCloseParen(s) => Error::ExpectedCloseParen(s.clone()),
            Error::ExpectedOpenBrace(s) => Error::ExpectedOpenBrace(s.clone()),
            Error::ExpectedReturnType(s) => Error::ExpectedReturnType(s.clone()),
            Error::TooManyLeadingKeywords(s) => Error::TooManyLeadingKeywords(s.clone()),
            Error::UndeclaredVariable(s) => Error::UndeclaredVariable(s.clone()),
            Error::FoundBareStruct => Error::FoundBareStruct,
        }
    }
}

/// The words that open the report of a failure of the given kind; the text
/// the failure carries follows them.
pub open spec fn headline(kind: ErrorKind) -> Seq<char> {
    match kind {
        ErrorKind::NoFileProvided => "No input file specified."@,
        ErrorKind::UnexpectedCliFlag => "Unexpected flag "@,
        ErrorKind::CouldNotReadFile => "Could not read input file "@,
        ErrorKind::CouldNotCreate => "Could not open output file "@,
        ErrorKind::CouldNotWriteFile => "Could not write to output file "@,
        ErrorKind::CouldNotGetCurrentDir => "Could not determine the working directory"@,
        ErrorKind::CouldNotEmit => "Could not emit code near "@,
        ErrorKind::CouldNotParse => "Could not parse code near token "@,
        ErrorKind::InvalidOperator => "Could not parse code near invalid operator "@,
        ErrorKind::UnexpectedEof => "File unexpectedly terminates near token "@,
        ErrorKind::ExpectedIdentifier => "Expected identifier, got token "@,
        ErrorKind::ExpectedDatatypeKeyword => "Expected datatype, got token "@,
        ErrorKind::ExpectedAssignment => "Expected assignment, got token "@,
        ErrorKind::ExpectedBoolean => "Expected boolean type, got token "@,
        ErrorKind::ExpectedLiteral => "Expected literal, got token "@,
        ErrorKind::ExpectedSingleQuote => "Expected single quote, got token "@,
        ErrorKind::ExpectedOpenParen => "Expected opening parenthesis, got token "@,
        ErrorKind::ExpectedCloseParen => "Expected closing parenthesis, got token "@,
        ErrorKind::ExpectedOpenBrace => "Expected open curly brace '{', got token "@,
        ErrorKind::ExpectedReturnType => "Expected return type, got token "@,
        ErrorKind::TooManyLeadingKeywords => "Too many leading keywords in "@,
        ErrorKind::UndeclaredVariable => "Undeclared variable "@,
        ErrorKind::FoundBareStruct => "Found a struct initialization without a name"@,
    }
}

impl ErrorKind {
    /// The words that open the report of a failure of this kind.
    pub fn headline(self) -> (words: &'static str)
        ensures
            words@ == headline(self),
    {
        match self {
            ErrorKind::NoFileProvided => "No input file specified.",
            ErrorKind::UnexpectedCliFlag => "Unexpected flag ",
            ErrorKind::CouldNotReadFile => "Could not read input file ",
            ErrorKind::CouldNotCreate => "Could not open output file ",
            ErrorKind::CouldNotWriteFile => "Could not write to output file ",
            ErrorKind::CouldNotGetCurrentDir => "Could not determine the working directory",
            ErrorKind::CouldNotEmit => "Could not emit code near ",
            ErrorKind::CouldNotParse => "Could not parse code near token ",
            ErrorKind::InvalidOperator => "Could not parse code near invalid operator ",
            ErrorKind::UnexpectedEof => "File unexpectedly terminates near token ",
            ErrorKind::ExpectedIdentifier => "Expected identifier, got token ",
            ErrorKind::ExpectedDatatypeKeyword => "Expected datatype, got token ",
            ErrorKind::ExpectedAssignment => "Expected assignment, got token ",
            ErrorKind::ExpectedBoolean => "Expected boolean type, got token ",
            ErrorKind::ExpectedLiteral => "Expected literal, got token ",
            ErrorKind::ExpectedSingleQuote => "Expected single quote, got token ",
            ErrorKind::ExpectedOpenParen => "Expected opening parenthesis, got token ",
            ErrorKind::ExpectedCloseParen => "Expected closing parenthesis, got token ",
            ErrorKind::ExpectedOpenBrace => "Expected open curly brace '{', got token ",
            ErrorKind::ExpectedReturnType => "Expected return type, got token ",
            ErrorKind::TooManyLeadingKeywords => "Too many leading keywords in ",
            ErrorKind::UndeclaredVariable => "Undeclared variable ",
            ErrorKind::FoundBareStruct => "Found a struct initialization without a name",
        }
    }
}

impl Error {
    /// Which failure this is.
    pub fn kind(&self) -> (kind: ErrorKind)
        ensures
            kind == self@.kind,
    {
        match self {
            Error::NoFileProvided => ErrorKind::NoFileProvided,
            Error::UnexpectedCliFlag(_) => ErrorKind::UnexpectedCliFlag,
            Error::CouldNotReadFile(_) => ErrorKind::CouldNotReadFile,
            Error::CouldNotCreate(_) => ErrorKind::CouldNotCreate,
            Error::CouldNotWriteFile(_) => ErrorKind::CouldNotWriteFile,
            Error::CouldNotGetCurrentDir => ErrorKind::CouldNotGetCurrentDir,
            Error::CouldNotEmit(_) => ErrorKind::CouldNotEmit,
            Error::CouldNotParse(_) => ErrorKind::CouldNotParse,
            Error::InvalidOperator(_) => ErrorKind::InvalidOperator,
            Error::UnexpectedEof(_) => ErrorKind::UnexpectedEof,
            Error::ExpectedIdentifier(_) => ErrorKind::ExpectedIdentifier,
            Error::ExpectedDatatypeKeyword(_) => ErrorKind::ExpectedDatatypeKeyword,
            Error::ExpectedAssignment(_) => ErrorKind::ExpectedAssignment,
            Error::ExpectedBoolean(_) => ErrorKind::ExpectedBoolean,
            Error::ExpectedLiteral(_) => ErrorKind::ExpectedLiteral,
            Error::ExpectedSingleQuote(_) => ErrorKind::ExpectedSingleQuote,
            Error::ExpectedOpenParen(_) => ErrorKind::ExpectedOpenParen,
            Error::ExpectedCloseParen(_) => ErrorKind::ExpectedCloseParen,
            Error::ExpectedOpenBrace(_) => ErrorKind::ExpectedOpenBrace,
            Error::ExpectedReturnType(_) => ErrorKind::ExpectedReturnType,
            Error::TooManyLeadingKeywords(_) => ErrorKind::TooManyLeadingKeywords,
            Error::UndeclaredVariable(_) => ErrorKind::UndeclaredVariable,
            Error::FoundBareStruct => ErrorKind::FoundBareStruct,
        }
    }

    /// The text this failure carries; empty for the kinds that carry none.
    pub fn near(&self) -> (text: String)
        ensures
            text@ == self@.near,
    {
        match self {
            Error::NoFileProvided => String::new(),
            Error::CouldNotGetCurrentDir => String::new(),
            Error::FoundBareStruct => String::new(),
            Error::UnexpectedCliFlag(s) => s.clone(),
            Error::CouldNotReadFile(s) => s.clone(),
            Error::CouldNotCreate(s) => s.clone(),
            Error::CouldNotWriteFile(s) => s.clone(),
            Error::CouldNotEmit(s) => s.clone(),
            Error::CouldNotParse(s) => s.clone(),
            Error::InvalidOperator(s) => s.clone(),
            Error::UnexpectedEof(s) => s.clone(),
            Error::ExpectedIdentifier(s) => s.clone(),
            Error::ExpectedDatatypeKeyword(s) => s.clone(),
            Error::ExpectedAssignment(s) => s.clone(),
            Error::ExpectedBoolean(s) => s.clone(),
            Error::ExpectedLiteral(s) => s.clone(),
            Error::ExpectedSingleQuote(s) => s.clone(),
            Error::ExpectedOpenParen(s) => s.clone(),
            Error::ExpectedCloseParen(s) => s.clone(),
            Error::ExpectedOpenBrace(s) => s.clone(),
            Error::ExpectedReturnType(s) => s.clone(),
            Error::TooManyLeadingKeywords(s) => s.clone(),
            Error::UndeclaredVariable(s) => s.clone(),
        }
    }

    /// The one-line report of this failure: the headline of its kind, then
    /// the text it carries.
    pub fn message(&self) -> (line: String)
        ensures
            line@ == headline(self@.kind) + self@.near,
    {
        let mut line = String::from_str(self.kind().headline());
        line.append(self.near().as_str());
        line
    }
}

} // verus!
