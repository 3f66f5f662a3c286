//! The logic of a terminal coding assistant.

pub mod args;
pub mod ask;
pub mod bootstrap;
pub mod bridge_laws;
pub mod btw;
pub mod canvas;
pub mod commands;
pub mod dispatch;
pub mod doctor;
pub mod domain;
pub mod editor_laws;
pub mod event_loop;
pub mod frame_state;
pub mod handle;
pub mod json;
pub mod keybindings;
pub mod keyboard_laws;
pub mod layout;
pub mod local_ui;
pub mod merge;
pub mod picker;
pub mod reducer;
pub mod reducer_laws;
pub mod regions;
pub mod restore;
pub mod screen_laws;
pub mod session_laws;
pub mod sessions;
pub mod side_panel;
pub mod snapshot;
pub mod startup_laws;
pub mod text;
pub mod text_laws;
pub mod trace;
pub mod transcript_laws;
pub mod transcript_lines;
pub mod ui_laws;
