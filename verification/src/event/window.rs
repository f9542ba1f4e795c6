//! Window events.

use crate::category::{CategoryFlag, EventCategory};
use crate::event::{Event, EventTrait, EventType};
use vstd::prelude::*;

verus! {

/// The window was resized. Its category is Application.
#[derive(Clone, Copy, Debug, PartialEq, Eq)]
pub struct WindowResizeEvent {
    event: Event,
    width: u32,
    height: u32,
}

impl WindowResizeEvent {
    /// The base attributes hold the kind and the category of this type.
    #[verifier::type_invariant]
    spec fn well_formed(&self) -> bool {
        &&& self.event.kind() == EventType::WindowResize
        &&& self.event.category() == set![CategoryFlag::Application]
    }

    /// The new width this event carries.
    pub closed spec fn spec_width(&self) -> u32 {
        self.width
    }

    /// The new height this event carries.
    pub closed spec fn spec_height(&self) -> u32 {
        self.height
    }

    /// A fresh, unhandled window-resize event to `width` by `height`.
    pub fn new(width: u32, height: u32) -> (event: WindowResizeEvent)
        ensures
            event.kind() == EventType::WindowResize,
            event.category() == set![CategoryFlag::Application],
            event.width() == width,
            event.height() == height,
            !event.is_handled(),
    {
        let event = Event::new(
            EventType::WindowResize,
            EventCategory::single(CategoryFlag::Application),
        );
        WindowResizeEvent { event, width, height }
    }

    #[verifier::when_used_as_spec(spec_width)]
    pub fn width(&self) -> (width: u32)
        ensures
            width == self.width(),
    {
        self.width
    }

    #[verifier::when_used_as_spec(spec_height)]
    pub fn height(&self) -> (height: u32)
        ensures
            height == self.height(),
    {
        self.height
    }
}

impl EventTrait for WindowResizeEvent {
    open spec fn kind(&self) -> EventType {
        EventType::WindowResize
    }

    open spec fn category(&self) -> Set<CategoryFlag> {
        set![CategoryFlag::Application]
    }

    open spec fn label(&self) -> Seq<char> {
        "WindowResizeEvent"@
    }

    closed spec fn is_handled(&self) -> bool {
        self.event.is_handled()
    }

    fn event_type(&self) -> (kind: &EventType) {
        proof {
            use_type_invariant(self);
        }
        self.event.event_type()
    }

    fn event_category(&self) -> (category: &EventCategory) {
        proof {
            use_type_invariant(self);
        }
        self.event.event_category()
    }

    fn name(&self) -> (name: &str) {
        "WindowResizeEvent"
    }

    fn handled(&self) -> (handled: bool) {
        self.event.handled()
    }

    fn set_handled(&mut self, handled: bool)
        ensures
            final(self).width() == old(self).width(),
            final(self).height() == old(self).height(),
    {
        proof {
            use_type_invariant(&*self);
        }
        self.event = self.event.with_handled(handled);
    }
}

/// The window was asked to close. Its category is Application.
#[derive(Clone, Copy, Debug, PartialEq, Eq)]
pub struct WindowCloseEvent {
    event: Event,
}

impl WindowCloseEvent {
    /// The base attributes hold the kind and the category of this type.
    #[verifier::type_invariant]
    spec fn well_formed(&self) -> bool {
        &&& self.event.kind() == EventType::WindowClose
        &&& self.event.category() == set![CategoryFlag::Application]
    }

    /// A fresh, unhandled window-close event.
    pub fn new() -> (event: WindowCloseEvent)
        ensures
            event.kind() == EventType::WindowClose,
            event.category() == set![CategoryFlag::Application],
            !event.is_handled(),
    {
        let event = Event::new(EventType::WindowClose, EventCategory::single(CategoryFlag::Application));
        WindowCloseEvent { event }
    }
}

impl EventTrait for WindowCloseEvent {
    open spec fn kind(&self) -> EventType {
        EventType::WindowClose
    }

    open spec fn category(&self) -> Set<CategoryFlag> {
        set![CategoryFlag::Application]
    }

    open spec fn label(&self) -> Seq<char> {
        "WindowCloseEvent"@
    }

    closed spec fn is_handled(&self) -> bool {
        self.event.is_handled()
    }

    fn event_type(&self) -> (kind: &EventType) {
        proof {
            use_type_invariant(self);
        }
        self.event.event_type()
    }

    fn event_category(&self) -> (category: &EventCategory) {
        proof {
            use_type_invariant(self);
        }
        self.event.event_category()
    }

    fn name(&self) -> (name: &str) {
        "WindowCloseEvent"
    }

    fn handled(&self) -> (handled: bool) {
        self.event.handled()
    }

    fn set_handled(&mut self, handled: bool) {
        proof {
            use_type_invariant(&*self);
        }
        self.event = self.event.with_handled(handled);
    }
}

} // verus!
