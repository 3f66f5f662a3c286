//! The regions of the screen: how high each of them is, and what is drawn in it.

pub mod btw;
pub mod composer;
pub mod footer_hints;
pub mod operation_status;
pub mod style;
pub mod sub_agent_bar;
pub mod transcript;
