//! The source file that is generated for an executable.
use vstd::prelude::*;
use crate::text::concat3;

verus! {

/// The text of the generated source: the text of the source it is made
/// from, then on lines of its own the glue code that hands the program's
/// entry point to the platform.
pub open spec fn generated_text(source: Seq<char>, extra_code: Seq<char>) -> Seq<char> {
    source + "\n"@ + extra_code + "\n"@
}

/// Makes the text of the generated source from the text of the source file
/// and the glue code of the engine. Nothing of the source is changed or left
/// out.
pub fn generate_lib_file(source: &str, extra_code: &str) -> (text: String)
    ensures
        text@ == generated_text(source@, extra_code@),
{
    let mut text = concat3(source, "\n", extra_code);
    text.append("\n");
    text
}

} // verus!
