use vstd::prelude::*;

use crate::renderer::enums::Message;
use crate::renderer::event::Event;

verus! {

/// An invisible widget that exists solely to force a redraw on window resize.
#[derive(Debug, Clone, Copy, PartialEq, Eq, Structural)]
pub struct RedrawOnResizeComponent;

impl RedrawOnResizeComponent {
    /// Ask for a redraw when the window is resized; ignore everything else.
    pub fn on(&mut self, ev: &Event) -> (msg: Option<Message>)
        ensures
            msg == (if ev is WindowResize { Some(Message::Redraw) } else { None }),
    {
        if let Event::WindowResize(..) = ev {
            Some(Message::Redraw)
        } else {
            None
        }
    }
}

} // verus!
