//! An embeddable modal text-editing core: raw key events are turned into
//! buffer mutations following a Vim-like command grammar (motions, operators,
//! mode switches, undo/redo). A host application owns the terminal loop,
//! forwards input events, and renders the resulting text and cursor.

pub mod buffer;
pub mod classify;
pub mod events;
pub mod history;
pub mod keymaps;
pub mod mode;
pub mod motion;

pub use buffer::{Buffer, BufferModel};
pub use classify::CharClass;
pub use events::{KeyCode, KeyEvent, KeyModifiers};
pub use history::{History, HistoryModel};
pub use keymaps::{Action, CombinablePending, GoToAction, OPending};
pub use mode::{Actions, Insert, Mode, Normal};
