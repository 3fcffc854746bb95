//! A minimal native-window demonstration library.
//!
//! The library holds the decision logic of a small GUI program: UTF-16
//! marshaling of window text, placement resolution with the platform's
//! default sentinel, classification of window-creation results, the
//! message-pump continuation decision, and the key-release callback that
//! maps scan codes to notification dialogs.  The host windowing calls
//! themselves are performed by the surrounding application; everything
//! here is pure and verified.

pub mod callback;
pub mod dialog;
pub mod placement;
pub mod wide;
pub mod window;
