use vstd::prelude::*;

verus! {

broadcast use vstd::string::axiom_spec_iter, vstd::string::next_postcondition;

/// The NUL character, which terminates text at the boundary.
pub const TERMINATOR: char = '\0';

/// The text that crosses the boundary for `s`: text holding a terminator
/// cannot be represented there and crosses as the empty string.
pub open spec fn boundary_text_of(s: Seq<char>) -> Seq<char> {
    if s.contains(TERMINATOR) {
        Seq::<char>::empty()
    } else {
        s
    }
}

/// Prepares `s` for the boundary: `s` itself, or the empty string where
/// `s` holds a terminator.
pub fn boundary_text(s: &str) -> (r: String)
    ensures
        r@ == boundary_text_of(s@),
{
    for c in it: s.chars()
        invariant
            it.seq() == s@,
            forall|k: int| 0 <= k < it.index() ==> #[trigger] s@[k] != TERMINATOR,
    {
        if c == TERMINATOR {
            return String::new();
        }
    }
    s.to_owned()
}

} // verus!
