//! An interactive yes/no confirmation prompt for command-line applications.
//!
//! A [`Confirm`](confirm::Confirm) value carries the prompt configuration:
//! the prompt text, the default answer, whether the default is shown and
//! whether it may be selected at all, and the input mode (immediate
//! keystrokes or full lines).  The decision logic that classifies raw input
//! and the bookkeeping of one whole interaction are verified here; the
//! terminal itself (reading keys, moving the cursor) is driven by a thin
//! unverified shell around this crate.

pub mod confirm;
pub mod session;
pub mod theme;

pub use confirm::Confirm;
pub use session::{TermAction, Transcript};
pub use theme::{SimpleTheme, Theme};
