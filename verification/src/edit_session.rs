use crate::text_buffer::TextBuffer;
use crate::ticket::Ticket;
use vstd::prelude::*;

verus! {

/// The editable fields of a ticket, one text buffer each.
///
/// The set is fixed and enumerated so that the cycling order is
/// deterministic and submission covers every field by construction; keying
/// buffers by a dynamic name would leave both to a map's iteration order.
#[derive(Clone, Copy, Debug, PartialEq, Eq, Structural)]
pub enum FieldName {
    Title,
    CompletionCondition,
    Level,
    Status,
}

/// The field that follows `f` in the fixed cycling order, wrapping from the
/// last back to the first.
pub open spec fn next_field(f: FieldName) -> FieldName {
    match f {
        FieldName::Title => FieldName::CompletionCondition,
        FieldName::CompletionCondition => FieldName::Level,
        FieldName::Level => FieldName::Status,
        FieldName::Status => FieldName::Title,
    }
}

/// Cycling through all fields returns to the start, and the stops along the
/// way visit every field exactly once.
pub proof fn lemma_cycle_round_trip(f: FieldName)
    ensures
        next_field(next_field(next_field(next_field(f)))) == f,
        f != next_field(f),
        f != next_field(next_field(f)),
        f != next_field(next_field(next_field(f))),
        next_field(f) != next_field(next_field(f)),
        next_field(f) != next_field(next_field(next_field(f))),
        next_field(next_field(f)) != next_field(next_field(next_field(f))),
{
}

/// One text buffer per editable field, plus the single field whose buffer
/// receives character input.
///
/// Buffers are seeded empty and keep their contents across mode switches;
/// submission reads them without clearing them.
#[derive(Debug)]
pub struct EditSession {
    pub title: TextBuffer,
    pub completion_condition: TextBuffer,
    pub level: TextBuffer,
    pub status: TextBuffer,
    pub active_field: FieldName,
}

/// The contents of the buffer that `s` keeps for field `f`.
pub open spec fn buffer_of(s: EditSession, f: FieldName) -> Seq<char> {
    match f {
        FieldName::Title => s.title@,
        FieldName::CompletionCondition => s.completion_condition@,
        FieldName::Level => s.level@,
        FieldName::Status => s.status@,
    }
}

impl EditSession {
    /// A fresh session: every buffer empty, `Title` active.
    pub fn new() -> (r: EditSession)
        ensures
            forall|f: FieldName| buffer_of(r, f) == Seq::<char>::empty(),
            r.active_field == FieldName::Title,
    {
        EditSession {
            title: TextBuffer::new(),
            completion_condition: TextBuffer::new(),
            level: TextBuffer::new(),
            status: TextBuffer::new(),
            active_field: FieldName::Title,
        }
    }

    /// Moves the active-field pointer one step along the fixed order;
    /// no buffer changes.
    pub fn cycle_active_field(&mut self)
        ensures
            final(self).active_field == next_field(old(self).active_field),
            forall|f: FieldName| buffer_of(*final(self), f) == buffer_of(*old(self), f),
    {
        self.active_field = match self.active_field {
            FieldName::Title => FieldName::CompletionCondition,
            FieldName::CompletionCondition => FieldName::Level,
            FieldName::Level => FieldName::Status,
            FieldName::Status => FieldName::Title,
        };
    }

    /// Appends `c` at the cursor of the active buffer; the other buffers
    /// and the active field stay as they were.
    pub fn handle_character(&mut self, c: char)
        ensures
            final(self).active_field == old(self).active_field,
            buffer_of(*final(self), old(self).active_field) == buffer_of(
                *old(self),
                old(self).active_field,
            ).push(c),
            forall|f: FieldName|
                f != old(self).active_field ==> buffer_of(*final(self), f) == buffer_of(
                    *old(self),
                    f,
                ),
    {
        match self.active_field {
            FieldName::Title => self.title.insert_char(c),
            FieldName::CompletionCondition => self.completion_condition.insert_char(c),
            FieldName::Level => self.level.insert_char(c),
            FieldName::Status => self.status.insert_char(c),
        }
    }

    /// Removes the character before the cursor of the active buffer; a
    /// no-op when that buffer is empty. The other buffers and the active
    /// field stay as they were.
    pub fn handle_delete(&mut self)
        ensures
            final(self).active_field == old(self).active_field,
            buffer_of(*old(self), old(self).active_field).len() == 0 ==> buffer_of(
                *final(self),
                old(self).active_field,
            ) == buffer_of(*old(self), old(self).active_field),
            buffer_of(*old(self), old(self).active_field).len() > 0 ==> buffer_of(
                *final(self),
                old(self).active_field,
            ) == buffer_of(*old(self), old(self).active_field).drop_last(),
            forall|f: FieldName|
                f != old(self).active_field ==> buffer_of(*final(self), f) == buffer_of(
                    *old(self),
                    f,
                ),
    {
        match self.active_field {
            FieldName::Title => self.title.delete_char(),
            FieldName::CompletionCondition => self.completion_condition.delete_char(),
            FieldName::Level => self.level.delete_char(),
            FieldName::Status => self.status.delete_char(),
        }
    }

    /// The contents of the buffer for field `f`, as one string.
    pub fn buffer_text(&self, f: FieldName) -> (r: String)
        ensures
            r@ == buffer_of(*self, f),
    {
        match f {
            FieldName::Title => self.title.text(),
            FieldName::CompletionCondition => self.completion_condition.text(),
            FieldName::Level => self.level.text(),
            FieldName::Status => self.status.text(),
        }
    }

    /// Reconciles the buffers with `selected` into a full replacement
    /// ticket: each descriptive field takes its buffer's text, while the
    /// identity fields `id`, `created_at` and `resolved_at` are copied from
    /// `selected` unchanged — no buffer can reach them.
    pub fn build_draft(&self, selected: &Ticket) -> (r: Ticket)
        ensures
            r.id@ == selected.id@,
            r.created_at == selected.created_at,
            r.resolved_at == selected.resolved_at,
            r.title@ == buffer_of(*self, FieldName::Title),
            r.completion_condition@ == buffer_of(*self, FieldName::CompletionCondition),
            r.level@ == buffer_of(*self, FieldName::Level),
            r.status@ == buffer_of(*self, FieldName::Status),
    {
        Ticket {
            id: selected.id.clone(),
            created_at: selected.created_at,
            resolved_at: selected.resolved_at,
            title: self.title.text(),
            completion_condition: self.completion_condition.text(),
            level: self.level.text(),
            status: self.status.text(),
        }
    }
}

} // verus!
