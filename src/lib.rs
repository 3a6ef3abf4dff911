//! An auto clicker session: the settings the dialog edits, the background task
//! that presses a HID button at the chosen cadence, and the USB mode bracket
//! around the whole session, each as a verified decision function that the
//! application drives.

pub mod clicker;
pub mod lifecycle;
pub mod press;
pub mod session;
pub mod view;
