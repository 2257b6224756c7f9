//! The widgets of the interface.

pub mod board;
pub mod cell;
pub mod new_game_modal;
pub mod redraw_on_resize;
pub mod sidebar;
pub mod status;
