use boron::error::{Error, ErrorKind};

fn with(text: &str) -> String {
    text.to_string()
}

#[test]
fn messages() {
    let cases = [
        (Error::NoFileProvided, ErrorKind::NoFileProvided, "", "No input file specified."),
        (Error::UnexpectedCliFlag(with("--x")), ErrorKind::UnexpectedCliFlag, "--x", "Unexpected flag --x"),
        (Error::CouldNotReadFile(with("a.brn")), ErrorKind::CouldNotReadFile, "a.brn", "Could not read input file a.brn"),
        (Error::CouldNotCreate(with("a.c")), ErrorKind::CouldNotCreate, "a.c", "Could not open output file a.c"),
        (Error::CouldNotWriteFile(with("a.c")), ErrorKind::CouldNotWriteFile, "a.c", "Could not write to output file a.c"),
        (Error::CouldNotGetCurrentDir, ErrorKind::CouldNotGetCurrentDir, "", "Could not determine the working directory"),
        (Error::CouldNotEmit(with("int")), ErrorKind::CouldNotEmit, "int", "Could not emit code near int"),
        (Error::CouldNotParse(with("$")), ErrorKind::CouldNotParse, "$", "Could not parse code near token $"),
        (Error::InvalidOperator(with("!")), ErrorKind::InvalidOperator, "!", "Could not parse code near invalid operator !"),
        (Error::UnexpectedEof(with("(")), ErrorKind::UnexpectedEof, "(", "File unexpectedly terminates near token ("),
        (Error::ExpectedIdentifier(with("5")), ErrorKind::ExpectedIdentifier, "5", "Expected identifier, got token 5"),
        (Error::ExpectedDatatypeKeyword(with("5")), ErrorKind::ExpectedDatatypeKeyword, "5", "Expected datatype, got token 5"),
        (Error::ExpectedAssignment(with("5")), ErrorKind::ExpectedAssignment, "5", "Expected assignment, got token 5"),
        (Error::ExpectedBoolean(with("yes")), ErrorKind::ExpectedBoolean, "yes", "Expected boolean type, got token yes"),
        (Error::ExpectedLiteral(with("ab")), ErrorKind::ExpectedLiteral, "ab", "Expected literal, got token ab"),
        (Error::ExpectedSingleQuote(with("b")), ErrorKind::ExpectedSingleQuote, "b", "Expected single quote, got token b"),
        (Error::ExpectedOpenParen(with("x")), ErrorKind::ExpectedOpenParen, "x", "Expected opening parenthesis, got token x"),
        (Error::ExpectedCloseParen(with("x")), ErrorKind::ExpectedCloseParen, "x", "Expected closing parenthesis, got token x"),
        (Error::ExpectedOpenBrace(with("x")), ErrorKind::ExpectedOpenBrace, "x", "Expected open curly brace '{', got token x"),
        (Error::ExpectedReturnType(with("x")), ErrorKind::ExpectedReturnType, "x", "Expected return type, got token x"),
        (Error::TooManyLeadingKeywords(with("a.b.c")), ErrorKind::TooManyLeadingKeywords, "a.b.c", "Too many leading keywords in a.b.c"),
        (Error::UndeclaredVariable(with("x")), ErrorKind::UndeclaredVariable, "x", "Undeclared variable x"),
        (Error::FoundBareStruct, ErrorKind::FoundBareStruct, "", "Found a struct initialization without a name"),
    ];
    for (error, kind, near, message) in cases {
        assert_eq!(error.kind(), kind);
        assert_eq!(error.near(), near);
        assert_eq!(error.message(), message);
        assert_eq!(error.message(), format!("{}{}", kind.headline(), near));
    }
}
