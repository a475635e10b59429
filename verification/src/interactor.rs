use crate::edit_session::{buffer_of, EditSession, FieldName};
use crate::key::Key;
use crate::ticket::{NoSelectionError, Ticket};
use vstd::prelude::*;

verus! {

/// The selection after one step down a list of `len` rows.
///
/// A set selection moves by one and is clamped at the last row; an unset
/// selection lands on the first row. An empty list has nothing to select,
/// so the selection stays unset.
pub open spec fn next_index(sel: Option<usize>, len: nat) -> Option<usize> {
    match sel {
        Option::Some(i) => if i + 1 < len {
            Option::Some((i + 1) as usize)
        } else {
            Option::Some(i)
        },
        Option::None => if len > 0 {
            Option::Some(0usize)
        } else {
            Option::None
        },
    }
}

/// The selection after one step up a list of `len` rows.
///
/// A set selection moves back by one and is clamped at row zero; an unset
/// selection lands on the last row. An empty list leaves it unset.
pub open spec fn previous_index(sel: Option<usize>, len: nat) -> Option<usize> {
    match sel {
        Option::Some(i) => if i > 0 {
            Option::Some((i - 1) as usize)
        } else {
            Option::Some(i)
        },
        Option::None => if len > 0 {
            Option::Some((len - 1) as usize)
        } else {
            Option::None
        },
    }
}

/// A selection is valid for a list of `len` rows when, if set, it lies in
/// `[0, len - 1]`.
pub open spec fn selection_in_bounds(sel: Option<usize>, len: nat) -> bool {
    sel is Some ==> (sel->0 as nat) < len
}

/// Stepping down never advances a valid selection past the last row: on a
/// non-empty list the result is set, stays in bounds, and at the last row
/// the step is a no-op (clamping, not wraparound). Holds of every step, so
/// of any number of repeated steps.
pub proof fn lemma_next_row_never_past_end(sel: Option<usize>, len: nat)
    requires
        len > 0,
        selection_in_bounds(sel, len),
    ensures
        next_index(sel, len) is Some,
        selection_in_bounds(next_index(sel, len), len),
        sel is Some && sel->0 + 1 == len ==> next_index(sel, len) == sel,
{
}

/// Stepping up never takes a valid selection below row zero: on a
/// non-empty list the result is set, stays in bounds, and at row zero the
/// step is a no-op (clamping, not wraparound). Holds of every step, so of
/// any number of repeated steps.
pub proof fn lemma_previous_row_never_below_zero(sel: Option<usize>, len: nat)
    requires
        len > 0,
        selection_in_bounds(sel, len),
    ensures
        previous_index(sel, len) is Some,
        selection_in_bounds(previous_index(sel, len), len),
        sel == Option::Some(0usize) ==> previous_index(sel, len) == sel,
{
}

/// The selection after `n` repeated steps down a list of `len` rows.
pub open spec fn next_index_iter(sel: Option<usize>, len: nat, n: nat) -> Option<usize>
    decreases n,
{
    if n == 0 {
        sel
    } else {
        next_index(next_index_iter(sel, len, (n - 1) as nat), len)
    }
}

/// The selection after `n` repeated steps up a list of `len` rows.
pub open spec fn previous_index_iter(sel: Option<usize>, len: nat, n: nat) -> Option<usize>
    decreases n,
{
    if n == 0 {
        sel
    } else {
        previous_index(previous_index_iter(sel, len, (n - 1) as nat), len)
    }
}

/// On a non-empty list, any number of repeated steps down keeps a valid
/// selection in `[0, len - 1]`: the selection never advances past the last
/// row, however often the step is taken.
pub proof fn lemma_repeated_next_row_in_bounds(sel: Option<usize>, len: nat, n: nat)
    requires
        len > 0,
        selection_in_bounds(sel, len),
    ensures
        selection_in_bounds(next_index_iter(sel, len, n), len),
        n > 0 ==> next_index_iter(sel, len, n) is Some,
    decreases n,
{
    if n > 0 {
        lemma_repeated_next_row_in_bounds(sel, len, (n - 1) as nat);
    }
}

/// On a non-empty list, any number of repeated steps up keeps a valid
/// selection in `[0, len - 1]`: the selection never goes below row zero,
/// however often the step is taken.
pub proof fn lemma_repeated_previous_row_in_bounds(sel: Option<usize>, len: nat, n: nat)
    requires
        len > 0,
        selection_in_bounds(sel, len),
    ensures
        selection_in_bounds(previous_index_iter(sel, len, n), len),
        n > 0 ==> previous_index_iter(sel, len, n) is Some,
    decreases n,
{
    if n > 0 {
        lemma_repeated_previous_row_in_bounds(sel, len, (n - 1) as nat);
    }
}

/// The session state behind the terminal screens: the ticket list
/// snapshot, the selected row, and the edit buffers.
///
/// The surrounding application fetches the tickets from the record store,
/// hands them to `new`, and routes each decoded key press here; drawing and
/// persistence stay outside.
#[derive(Debug)]
pub struct TerminalInteractor {
    selected_ticket_index: Option<usize>,
    items: Vec<Ticket>,
    session: EditSession,
}

impl TerminalInteractor {
    /// The selection is always valid for the held list.
    pub closed spec fn wf(&self) -> bool {
        selection_in_bounds(self.selected_ticket_index, self.items@.len())
    }

    pub closed spec fn spec_selected(&self) -> Option<usize> {
        self.selected_ticket_index
    }

    pub closed spec fn spec_items(&self) -> Seq<Ticket> {
        self.items@
    }

    pub closed spec fn spec_session(&self) -> EditSession {
        self.session
    }

    /// Starts a session over the fetched ticket list: the first row is
    /// selected when there is one, and every edit buffer starts empty.
    pub fn new(items: Vec<Ticket>) -> (r: TerminalInteractor)
        ensures
            r.wf(),
            r.spec_items() == items@,
            items@.len() > 0 ==> r.spec_selected() == Option::Some(0usize),
            items@.len() == 0 ==> r.spec_selected() is None,
            forall|f: FieldName| buffer_of(r.spec_session(), f) == Seq::<char>::empty(),
            r.spec_session().active_field == FieldName::Title,
    {
        let selected_ticket_index: Option<usize> = if items.len() > 0 {
            Option::Some(0usize)
        } else {
            Option::None
        };
        TerminalInteractor { selected_ticket_index, items, session: EditSession::new() }
    }

    /// Moves the selection one row down, clamped to the last row; see
    /// `next_index`. The list and the edit buffers are untouched.
    pub fn next_row(&mut self)
        requires
            old(self).wf(),
        ensures
            final(self).wf(),
            final(self).spec_selected() == next_index(
                old(self).spec_selected(),
                old(self).spec_items().len(),
            ),
            final(self).spec_items() == old(self).spec_items(),
            final(self).spec_session() == old(self).spec_session(),
    {
        let len: usize = self.items.len();
        match self.selected_ticket_index {
            Option::Some(index) => {
                if index + 1 < len {
                    self.selected_ticket_index = Option::Some(index + 1);
                }
            },
            Option::None => {
                if len > 0 {
                    self.selected_ticket_index = Option::Some(0usize);
                }
            },
        }
    }

    /// Moves the selection one row up, clamped to row zero; see
    /// `previous_index`. The list and the edit buffers are untouched.
    pub fn previous_row(&mut self)
        requires
            old(self).wf(),
        ensures
            final(self).wf(),
            final(self).spec_selected() == previous_index(
                old(self).spec_selected(),
                old(self).spec_items().len(),
            ),
            final(self).spec_items() == old(self).spec_items(),
            final(self).spec_session() == old(self).spec_session(),
    {
        match self.selected_ticket_index {
            Option::Some(index) => {
                if index > 0 {
                    self.selected_ticket_index = Option::Some(index - 1);
                }
            },
            Option::None => {
                if self.items.len() > 0 {
                    self.selected_ticket_index = Option::Some(self.items.len() - 1);
                }
            },
        }
    }

    /// Routes one key press of an editing mode to the edit session:
    /// characters go into the active buffer, backspace and delete remove
    /// before its cursor, tab moves to the next field, and every other key
    /// is ignored. The list and the selection are untouched.
    pub fn handle_input(&mut self, key: Key)
        requires
            old(self).wf(),
        ensures
            final(self).wf(),
            final(self).spec_selected() == old(self).spec_selected(),
            final(self).spec_items() == old(self).spec_items(),
            input_applied(old(self).spec_session(), key, final(self).spec_session()),
    {
        match key {
            Key::Char(c) => self.session.handle_character(c),
            Key::Backspace => self.session.handle_delete(),
            Key::Delete => self.session.handle_delete(),
            Key::Tab => self.session.cycle_active_field(),
            _ => {},
        }
    }

    /// The selected row, if any.
    pub fn selected_index(&self) -> (r: Option<usize>)
        ensures
            r == self.spec_selected(),
    {
        self.selected_ticket_index
    }

    /// The held ticket list.
    pub fn items(&self) -> (r: &Vec<Ticket>)
        ensures
            r@ == self.spec_items(),
    {
        &self.items
    }

    /// The edit session.
    pub fn session(&self) -> (r: &EditSession)
        ensures
            *r == self.spec_session(),
    {
        &self.session
    }

    /// The currently selected ticket, if the selection is set.
    pub fn selected_ticket(&self) -> (r: Option<&Ticket>)
        requires
            self.wf(),
        ensures
            r is Some <==> self.spec_selected() is Some,
            self.spec_selected() is Some ==> *r->0 == self.spec_items()[self.spec_selected()->0 as int],
    {
        match self.selected_ticket_index {
            Option::Some(i) => Option::Some(&self.items[i]),
            Option::None => Option::None,
        }
    }

    /// Reconciles the edit buffers with the selected ticket into a full
    /// replacement record, ready for the record store: the identity fields
    /// come from the selected ticket unchanged, the descriptive fields from
    /// the buffers. Fails with `NoSelectionError`, touching nothing, when
    /// no ticket is selected.
    pub fn submit(&self) -> (r: Result<Ticket, NoSelectionError>)
        requires
            self.wf(),
        ensures
            r is Ok <==> self.spec_selected() is Some,
            self.spec_selected() is Some ==> {
                let chosen = self.spec_items()[self.spec_selected()->0 as int];
                &&& r->Ok_0.id@ == chosen.id@
                &&& r->Ok_0.created_at == chosen.created_at
                &&& r->Ok_0.resolved_at == chosen.resolved_at
                &&& r->Ok_0.title@ == buffer_of(self.spec_session(), FieldName::Title)
                &&& r->Ok_0.completion_condition@ == buffer_of(
                    self.spec_session(),
                    FieldName::CompletionCondition,
                )
                &&& r->Ok_0.level@ == buffer_of(self.spec_session(), FieldName::Level)
                &&& r->Ok_0.status@ == buffer_of(self.spec_session(), FieldName::Status)
            },
    {
        match self.selected_ticket_index {
            Option::Some(i) => Result::Ok(self.session.build_draft(&self.items[i])),
            Option::None => Result::Err(NoSelectionError),
        }
    }
}

/// `post` is `pre` with `c` appended to the active buffer; nothing else
/// moved.
pub open spec fn char_applied(pre: EditSession, c: char, post: EditSession) -> bool {
    &&& post.active_field == pre.active_field
    &&& buffer_of(post, pre.active_field) == buffer_of(pre, pre.active_field).push(c)
    &&& forall|f: FieldName| f != pre.active_field ==> buffer_of(post, f) == buffer_of(pre, f)
}

/// `post` is `pre` with the last character of the active buffer removed,
/// or unchanged if that buffer was empty; nothing else moved.
pub open spec fn delete_applied(pre: EditSession, post: EditSession) -> bool {
    &&& post.active_field == pre.active_field
    &&& buffer_of(pre, pre.active_field).len() == 0 ==> buffer_of(post, pre.active_field)
        == buffer_of(pre, pre.active_field)
    &&& buffer_of(pre, pre.active_field).len() > 0 ==> buffer_of(post, pre.active_field)
        == buffer_of(pre, pre.active_field).drop_last()
    &&& forall|f: FieldName| f != pre.active_field ==> buffer_of(post, f) == buffer_of(pre, f)
}

/// How one key press of an editing mode takes the session from `pre` to
/// `post`: a character is appended to the active buffer, backspace and
/// delete remove before its cursor, tab moves to the next field, and any
/// other key changes nothing. The mirror of
/// `TerminalInteractor::handle_input` in the specification world.
pub open spec fn input_applied(pre: EditSession, key: Key, post: EditSession) -> bool {
    match key {
        Key::Char(c) => char_applied(pre, c, post),
        Key::Backspace => delete_applied(pre, post),
        Key::Delete => delete_applied(pre, post),
        Key::Tab => {
            &&& post.active_field == crate::edit_session::next_field(pre.active_field)
            &&& forall|f: FieldName| buffer_of(post, f) == buffer_of(pre, f)
        },
        _ => post == pre,
    }
}

} // verus!
