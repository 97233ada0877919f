//! Overlay logic for the PrimeMH map helper: level grouping, buff icons,
//! hotkeys, key bindings, localisation tables and the decisions the overlay
//! takes each frame.

pub mod buff_timers;
pub mod buffs;
pub mod hotkeys;
pub mod hover_info;
pub mod keybindings;
pub mod levels;
pub mod localisation;
pub mod text;
pub mod ui;
