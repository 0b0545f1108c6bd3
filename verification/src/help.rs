use vstd::prelude::*;

use crate::text::push_str;

verus! {

/// The help text of the packer.
pub open spec fn help_text_spec() -> Seq<char> {
    "This is Portable packer, a tool to build sandboxed package.\n"@
        + "Visit https://github.com/Kraftland/portable for documentation and information."@
}

/// The help text of the packer, which `help` prints.
pub fn help_text() -> (res: String)
    ensures
        res@ == help_text_spec(),
{
    let mut content = String::new();
    push_str(&mut content, "This is Portable packer, a tool to build sandboxed package.\n");
    push_str(&mut content, "Visit https://github.com/Kraftland/portable for documentation and information.");
    content
}

} // verus!
