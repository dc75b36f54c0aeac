use vstd::prelude::*;

verus! {

/// Trusted: `String::push` of std appends one character to the end of
/// the string.
pub assume_specification[ String::push ](text: &mut String, c: char)
    ensures
        final(text)@ == old(text)@.push(c),
;

/// Trusted: `==` of std on two string slices holds exactly where both
/// have the same characters.
pub assume_specification[ <str as PartialEq>::eq ](a: &str, b: &str) -> (equal: bool)
    ensures
        equal == (a@ == b@),
;

} // verus!
