//! Composed text input: what an input method editor reports while a word is
//! being assembled, and what it commits.
//!
//! Delivered beside the event stream rather than inside it, as dropped files
//! are: composed text is not `Copy`. Nothing arrives until the window has
//! allowed input-method input.

use vstd::prelude::*;

verus! {

/// One report from the platform's input method editor.
#[derive(Clone, Debug, PartialEq, Eq)]
pub enum ImeEvent {
    /// The editor took the keyboard: composition may follow.
    Enabled,
    /// The text being composed so far, with the caret range in bytes of that
    /// text when the editor places one. Shown in place of nothing; the next
    /// `Preedit` or a `Commit` replaces it.
    Preedit { text: String, cursor: Option<(usize, usize)> },
    /// Composed text the editor settled on: what a text field appends.
    Commit(String),
    /// The editor let go; any preedit shown is withdrawn.
    Disabled,
}

} // verus!
