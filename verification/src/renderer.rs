//! The state machines behind the terminal interface: what each widget holds, how it
//! answers key presses and game updates, and what the application does with the
//! messages they emit. Drawing and the terminal itself stay outside the library.

pub mod components;
pub mod enums;
pub mod event;
pub mod model;

use vstd::prelude::*;

pub use components::board::AppBoardComponent;
pub use components::cell::CellComponent;
pub use components::new_game_modal::AppNewGameModal;
pub use components::redraw_on_resize::RedrawOnResizeComponent;
pub use components::sidebar::AppSidebarComponent;
pub use components::status::{AppStatusComponent, StatusComponent};
pub use enums::{GameUpdate, Id, InvalidMoveReason, Message, UserEvent};

verus! {

/// Drives the terminal event loop; the loop itself runs in the application, which
/// hands each channel end to the party that uses it.
#[derive(Debug, Clone, Copy, PartialEq, Eq)]
pub struct TuiRenderer;

} // verus!
