//! Host-side runtime logic for the Unpod desktop shell: the unread badge, the
//! session map, supervision of the bundled backend process, the notification
//! protocol, window activation, and the tray and menu layout.
//!
//! Every decision is made here, on plain values; the surrounding program
//! performs the window, tray, file and process operations that come out of it.

mod decimal;
pub mod badge;
pub mod session;
pub mod paths;
pub mod supervisor;
pub mod notify;
pub mod activation;
pub mod menu;
pub mod commands;

pub use decimal::{decimal, decimal_text, digit_char};
