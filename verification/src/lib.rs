//! A small source-to-source compiler for the Boron language.
//!
//! A source text is cut into tokens (`tokenizer`), the tokens are parsed into
//! a syntax tree by a Pratt parser (`parser`, with its rules in `prefix` and
//! `infix`), and the tree is lowered to C text by an emitter (`emitter`) that
//! keeps the kinds of the variables and the layouts of the structs in a tree
//! of lexical scopes (`scope`).
//!
//! What each part produces is stated over plain values, sequences of
//! characters and of tokens, in a module of its own: `lexer` for the
//! tokens of a text, `grammar` for the tree of a sequence of tokens, and
//! `emission` for the C text of a tree. The executable functions are proved
//! to produce exactly that. These statements are recursive; to evaluate one
//! on given values in a proof, unfold it with `reveal_with_fuel`. `laws`
//! holds what follows from them for all inputs.
//!
//! A failure is an `error::Error`; no function of this library ends the
//! process or prints.

pub mod text;
pub mod decimal;
pub mod paths;
pub mod token;
pub mod error;
pub mod expression;
pub mod lexer;
pub mod tokenizer;
pub mod grammar;
pub mod parser;
pub mod prefix;
pub mod infix;
pub mod scope;
pub mod emission;
pub mod clock;
pub mod program;
pub mod emitter;
pub mod args;
pub mod frame;
pub mod laws;
