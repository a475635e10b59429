use vstd::prelude::*;

verus! {

/// A ticket record.
///
/// `id`, `created_at` and `resolved_at` are identity fields: they are set
/// when the ticket is created or resolved and are never edited by the user.
/// The remaining fields are descriptive and are rewritten from the edit
/// buffers on submission. Timestamps are carried as seconds since the epoch;
/// `resolved_at` is `None` while the ticket is open.
#[derive(Clone, Debug)]
pub struct Ticket {
    pub id: String,
    pub created_at: i64,
    pub resolved_at: Option<i64>,
    pub title: String,
    pub completion_condition: String,
    pub level: String,
    pub status: String,
}

/// An operation that needs a selected ticket was called while the
/// selection was unset.
#[derive(Clone, Copy, Debug, PartialEq, Eq, Structural)]
pub struct NoSelectionError;

} // verus!
