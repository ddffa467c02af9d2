//! Access policy of canonical text fields.

use vstd::prelude::*;

verus! {

/// Access policy for a canonical text field.
#[derive(Debug, Clone, Copy, PartialEq, Eq, Hash, Structural)]
pub enum TextFieldAccess {
    /// Focusable text that accepts selection, editing, clipboard, and IME input.
    Editable,
    /// Focusable text that permits navigation, selection, and copy without mutation or IME.
    ReadOnly,
    /// Non-interactive text that cannot focus, select, scroll, copy, edit, or own IME.
    Disabled,
}

impl TextFieldAccess {
    /// Returns true for the non-interactive policy.
    pub fn is_disabled(self) -> (disabled: bool)
        ensures
            disabled == (self == TextFieldAccess::Disabled),
    {
        matches!(self, TextFieldAccess::Disabled)
    }
}

} // verus!
