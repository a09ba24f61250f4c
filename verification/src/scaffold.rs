//! The local scaffold: the seed file written into the new directory.

use vstd::prelude::*;

verus! {

/// Content of the seed file for a repository of the given name: a top-level
/// heading followed by a single newline.
pub open spec fn seed_content_spec(name: Seq<char>) -> Seq<char> {
    "# "@ + name + "\n"@
}

/// Builds the seed file's content, exactly `# <name>` and one trailing newline.
pub fn seed_content(name: &str) -> (r: String)
    ensures
        r@ == seed_content_spec(name@),
{
    let mut r = String::from_str("# ");
    r.append(name);
    r.append("\n");
    r
}

} // verus!
