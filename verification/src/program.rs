//! The text of a whole output: the banner, and the sections of a block in
//! their order, as a C program or as a C header.

use vstd::prelude::*;
use crate::clock::{Timestamp, stamp_line};
use crate::emission::{Sections, emit_block};
use crate::emitter::Emitter;
use crate::error::{Error, ErrorView};
use crate::expression::ExprView;
use crate::paths::guard_name;
use crate::scope::well_formed;

verus! {

/// The version of the compiler, as the banner gives it.
pub const VERSION: &'static str = "0.1.0";

/// `text` with one more line.
pub open spec fn with_line(text: Seq<char>, line: Seq<char>) -> Seq<char> {
    text + line + "\n"@
}

/// The first lines of every output: what it is, the version and the moment.
pub open spec fn banner(title: Seq<char>, stamp: Timestamp) -> Seq<char> {
    with_line(with_line(with_line(with_line(Seq::empty(), title), "// Version "@ + VERSION@), stamp_line(stamp)), ""@)
}

/// The C program whose streams are `sections`: the banner, the includes, the
/// struct definitions, the function definitions, and the ordinary code as
/// the body of `main`.
pub open spec fn executable_text(stamp: Timestamp, sections: Sections) -> Seq<char> {
    let text = banner("// Executable autogenerated by the Boron compiler"@, stamp);
    let text = with_line(text, "#include <stdio.h>"@);
    let text = with_line(text, "#include <stdbool.h>"@);
    let text = with_line(text, sections.includes);
    let text = with_line(text, ""@);
    let text = with_line(text, "// Structs begin here"@);
    let text = with_line(text, sections.structs);
    let text = with_line(text, "// Functions begin here"@);
    let text = with_line(text, sections.functions);
    let text = with_line(text, "int main(void) {"@);
    let text = with_line(text, sections.code);
    with_line(text, "return 0;\n}"@)
}

/// The C header of the module `name` whose streams are `sections`: the
/// banner and, inside a header guard, the includes, the struct definitions
/// and the function definitions. The ordinary code is left out.
pub open spec fn library_text(name: Seq<char>, stamp: Timestamp, sections: Sections) -> Seq<char> {
    let text = banner("// Library autogenerated by the Boron compiler"@, stamp);
    let text = with_line(text, "#ifndef "@ + guard_name(name) + "\n#define "@ + guard_name(name));
    let text = with_line(text, ""@);
    let text = with_line(text, "#include <stdio.h>"@);
    let text = with_line(text, "#include <stdbool.h>"@);
    let text = with_line(text, ""@);
    let text = with_line(text, "// Additional includes begin here"@);
    let text = with_line(text, sections.includes);
    let text = with_line(text, ""@);
    let text = with_line(text, "// Structs begin here"@);
    let text = with_line(text, sections.structs);
    let text = with_line(text, "// Functions begin here"@);
    let text = with_line(text, sections.functions);
    with_line(text, "#endif"@)
}

/// What a compilation at the moment `stamp` leaves: the environment after
/// the program as one block without a parent; on success the text `make`
/// gives for its streams, added to the text written before and returned
/// with it; on failure the failure, and no text added.
pub open spec fn compiled(
    before: Emitter,
    program: Seq<ExprView>,
    make: spec_fn(Sections) -> Seq<char>,
    after: Emitter,
    result: Result<String, Error>,
) -> bool {
    let block = emit_block(program, before.env(), None, false, before.root());
    &&& after.env() == block.env
    &&& after.root() == before.root()
    &&& well_formed(after.env())
    &&& match result {
        Ok(text) => block.out is Ok && after.code() == before.code() + make(block.out->Ok_0) && text@ == after.code(),
        Err(error) => block.out == Err::<Sections, ErrorView>(error@) && after.code() == before.code(),
    }
}

} // verus!
