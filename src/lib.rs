//! A quick-launcher's core: the user configuration and its themes, and the
//! state machine of the single input panel.

pub mod document;
pub mod config;
pub mod panel;
