//! The one-line key-binding help shown at the bottom of the screen.

use vstd::prelude::*;

verus! {

/// The help bar. It owns no state; it only supplies the help text that the
/// rendering collaborator paints.
pub struct Footer;

impl Footer {
    /// The help line describing the key bindings.
    pub fn message() -> (r: &'static str)
        ensures
            r@.len() > 0,
    {
        let message =
            "Use j/k to move, 1/2/3 to pick a list, q/w/e to move items, i to add, d to delete, x to quit.";
        proof {
            reveal_strlit(
                "Use j/k to move, 1/2/3 to pick a list, q/w/e to move items, i to add, d to delete, x to quit.",
            );
        }
        message
    }
}

} // verus!
