use vstd::prelude::*;

pub mod math;
pub mod use_event_listener;
pub mod use_mouse;

pub use use_event_listener::{
    use_event_listener, use_event_listener_with_options, EventListenerBinding, ListenerAction,
    ListenerOptions, TargetId,
};
pub use use_mouse::{
    mouse_listener_options, use_mouse, use_mouse_with_options, MouseEventData, MouseEventKind,
    PointerEvent, Position, TouchData, UseMouseCoordType, UseMouseEventExtractor,
    UseMouseEventExtractorDefault, UseMouseOptions, UseMouseReturn, UseMouseSourceType,
    UseMouseTracker,
};

verus! {

} // verus!
