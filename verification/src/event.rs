//! The event model: the closed set of event kinds, the attributes every event
//! carries, and the traits through which events are queried uniformly.

use crate::category::{CategoryFlag, EventCategory};
use vstd::prelude::*;

pub mod key;
pub mod laws;
pub mod lifecycle;
pub mod mouse;
pub mod window;

pub use key::{KeyEvent, KeyPressedEvent, KeyReleasedEvent};
pub use lifecycle::{AppRenderEvent, AppTickEvent, AppUpdateEvent};
pub use mouse::{
    MouseButtonEvent, MouseButtonPressedEvent, MouseButtonReleasedEvent, MouseMoveEvent,
    MouseScrolledEvent,
};
pub use window::{WindowCloseEvent, WindowResizeEvent};

verus! {

/// The kind of an event. Every event has exactly one, fixed when it is built.
#[derive(Clone, Copy, Debug, PartialEq, Eq)]
pub enum EventType {
    /// No kind: the event says nothing about what happened.
    Unspecified,
    WindowClose,
    WindowResize,
    WindowFocus,
    WindowLostFocus,
    WindowMoved,
    AppTick,
    AppUpdate,
    AppRender,
    KeyPressed,
    KeyReleased,
    MouseButtonPressed,
    MouseButtonReleased,
    MouseMove,
    MouseScrolled,
}

/// What every event offers, whatever its payload.
///
/// The four spec functions are the model of an event's base attributes; the
/// executable methods read them. The only attribute that can change after
/// construction is the handled mark.
pub trait EventTrait {
    /// The kind of this event.
    spec fn kind(&self) -> EventType;

    /// The flags of this event's category.
    spec fn category(&self) -> Set<CategoryFlag>;

    /// The name of this event's type.
    spec fn label(&self) -> Seq<char>;

    /// Whether a consumer has marked this event as handled.
    spec fn is_handled(&self) -> bool;

    fn event_type(&self) -> (kind: &EventType)
        ensures
            *kind == self.kind(),
    ;

    fn event_category(&self) -> (category: &EventCategory)
        ensures
            category@ == self.category(),
    ;

    fn name(&self) -> (name: &str)
        ensures
            name@ == self.label(),
    ;

    /// Whether this event's category and `category` have a flag in common.
    fn in_category(&self, category: &EventCategory) -> (hit: bool)
        ensures
            hit <==> !self.category().disjoint(category@),
    {
        self.event_category().intersects(*category)
    }

    fn handled(&self) -> (handled: bool)
        ensures
            handled == self.is_handled(),
    ;

    /// Sets the handled mark and leaves kind, category and name as they were.
    fn set_handled(&mut self, handled: bool)
        ensures
            final(self).is_handled() == handled,
            final(self).kind() == old(self).kind(),
            final(self).category() == old(self).category(),
            final(self).label() == old(self).label(),
    ;
}

/// An event that carries a key or button code.
pub trait CodeTrait: EventTrait {
    /// The code this event carries.
    spec fn spec_code(&self) -> u32;

    fn code(&self) -> (code: u32)
        ensures
            code == self.spec_code(),
    ;
}

/// The attributes every event has, and the whole of an event that has no
/// payload of its own.
#[derive(Clone, Copy, Debug, PartialEq, Eq)]
pub struct Event {
    handled: bool,
    event_type: EventType,
    event_category: EventCategory,
}

impl Event {
    /// A fresh, unhandled event of the given kind and category.
    pub fn new(event_type: EventType, event_category: EventCategory) -> (event: Event)
        ensures
            event.kind() == event_type,
            event.category() == event_category@,
            !event.is_handled(),
    {
        Event { handled: false, event_type, event_category }
    }

    /// This event with its handled mark set to `handled`.
    pub(crate) fn with_handled(self, handled: bool) -> (event: Event)
        ensures
            event.is_handled() == handled,
            event.kind() == self.kind(),
            event.category() == self.category(),
    {
        Event { handled, event_type: self.event_type, event_category: self.event_category }
    }
}

impl EventTrait for Event {
    closed spec fn kind(&self) -> EventType {
        self.event_type
    }

    closed spec fn category(&self) -> Set<CategoryFlag> {
        self.event_category@
    }

    open spec fn label(&self) -> Seq<char> {
        "Event"@
    }

    closed spec fn is_handled(&self) -> bool {
        self.handled
    }

    fn event_type(&self) -> (kind: &EventType) {
        &self.event_type
    }

    fn event_category(&self) -> (category: &EventCategory) {
        &self.event_category
    }

    fn name(&self) -> (name: &str) {
        "Event"
    }

    fn handled(&self) -> (handled: bool) {
        self.handled
    }

    fn set_handled(&mut self, handled: bool) {
        self.handled = handled;
    }
}

} // verus!
