use vstd::prelude::*;

verus! {

/// The mutually exclusive UI states governing how key presses are read.
///
/// Exactly one mode is active at a time. `Normal` browses the ticket list,
/// `Inquiry` shows a read-only detail view, `Amend` edits the selected
/// ticket through the text buffers, and `Raise` is reserved for creating a
/// new ticket.
#[derive(Clone, Copy, Debug, PartialEq, Eq, Structural)]
pub enum AppMode {
    Normal,
    Inquiry,
    Amend,
    Raise,
}

impl AppMode {
    /// The mode's display name, as the footer of each screen shows it.
    pub fn label(&self) -> (r: &'static str)
        ensures
            *self == AppMode::Normal ==> r@ == "Normal"@,
            *self == AppMode::Inquiry ==> r@ == "Inquiry"@,
            *self == AppMode::Amend ==> r@ == "Amend"@,
            *self == AppMode::Raise ==> r@ == "Raise"@,
    {
        match self {
            AppMode::Normal => "Normal",
            AppMode::Inquiry => "Inquiry",
            AppMode::Amend => "Amend",
            AppMode::Raise => "Raise",
        }
    }
}

} // verus!
