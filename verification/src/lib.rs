//! Keyboard layers that follow the window focus.
//!
//! The crate holds the rules of a tool that watches which window has focus
//! and asks a keyboard to change its layer accordingly. It does no input or
//! output of its own: a program around it talks to the device and to the
//! window manager, and hands over what it wrote, read and received.
//!
//! - [`keyboard`]: the reports exchanged with the keyboard, and what the
//!   outcome of a write or a read means.
//! - [`config`]: window rules, their inheritance from defaults, and the
//!   choice of the rule that a window name selects.
//! - [`focus`]: the controller that turns focus changes into layer changes.
//! - [`hyprland`]: the event lines of Hyprland, read into events and focus
//!   changes.
//! - [`i3`]: the notifications and the window tree of i3.
//! - [`lines`]: lines in a byte buffer, taken out by the codec of
//!   `tokio_util`.
//! - [`text`]: what it means for one text to occur in another, and the
//!   string operations of the standard library that the crate relies on.
//!
//! Three choices hold throughout. Rules keep the order in which they were
//! declared, and the first rule that selects a window wins. The rule that
//! focus leaves is the one that the controller remembers, not one looked up
//! again from the previous window. A device error while watching ends the
//! watch.

pub mod config;
pub mod focus;
pub mod hyprland;
pub mod i3;
pub mod keyboard;
pub mod lines;
pub mod text;
