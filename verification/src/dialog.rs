//! The kinds of dialog that a native layer can open.

use vstd::prelude::*;

verus! {

/// The kind of a native dialog.
#[derive(Debug, Clone, Copy, PartialEq, Eq, Structural)]
pub enum DialogType {
    /// A dialog to choose what to open.
    Open,
    /// A dialog to choose where to save.
    Save,
    /// A message box.
    Alert,
}

impl DialogType {
    /// The number that the native layer knows the kind by.
    pub open spec fn spec_code(self) -> u32 {
        match self {
            DialogType::Open => 0,
            DialogType::Save => 1,
            DialogType::Alert => 2,
        }
    }

    /// The number that the native layer knows the kind by.
    pub fn code(self) -> (r: u32)
        ensures
            r == self.spec_code(),
    {
        match self {
            DialogType::Open => 0,
            DialogType::Save => 1,
            DialogType::Alert => 2,
        }
    }
}

} // verus!
