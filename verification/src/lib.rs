//! Switching the keyboard layout of the foreground window: which language a
//! request names, which installed layout speaks it, and what is kept of the
//! layout that was active before, so that one step can be undone.
//!
//! The library decides and formats; it neither asks the system nor touches
//! a file. A caller hands it what the system reported and carries out what
//! it returns.

pub mod command;
pub mod errors;
pub mod lang;
pub mod layout;
pub mod numeral;
pub mod store;
pub mod switcher;
pub mod text;
