//! Core logic of a modal terminal ticket browser and editor.
//!
//! The library owns the state that decides how keystrokes are interpreted:
//! the current mode, the selected row of the ticket list, and a set of named
//! text buffers multiplexed onto one keyboard stream. Terminal drawing and
//! record storage are left to the surrounding application, which feeds this
//! library plain key events and receives plain state back.

pub mod app_mode;
pub mod controller;
pub mod edit_session;
pub mod interactor;
pub mod key;
pub mod text_buffer;
pub mod ticket;

pub use app_mode::AppMode;
pub use controller::TerminalController;
pub use edit_session::EditSession;
pub use edit_session::FieldName;
pub use interactor::TerminalInteractor;
pub use key::Key;
pub use text_buffer::TextBuffer;
pub use ticket::NoSelectionError;
pub use ticket::Ticket;
