//! Font priority: the launcher's bundled font comes before the toolkit's own.
use vstd::prelude::*;

verus! {

/// Puts `name` at the head of a font family's list of font names, ahead of
/// every font that the family held before, which keep their order.
pub fn prefer_font(family: &mut Vec<String>, name: String)
    ensures
        final(family)@ == seq![name] + old(family)@,
{
    family.insert(0, name);
}

} // verus!
