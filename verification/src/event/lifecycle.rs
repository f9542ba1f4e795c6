//! Application-lifecycle events: the steps of the main loop.

use crate::category::{CategoryFlag, EventCategory};
use crate::event::{Event, EventTrait, EventType};
use vstd::prelude::*;

verus! {

/// The application clock ticked. Its category is Application.
#[derive(Clone, Copy, Debug, PartialEq, Eq)]
pub struct AppTickEvent {
    event: Event,
}

impl AppTickEvent {
    /// The base attributes hold the kind and the category of this type.
    #[verifier::type_invariant]
    spec fn well_formed(&self) -> bool {
        &&& self.event.kind() == EventType::AppTick
        &&& self.event.category() == set![CategoryFlag::Application]
    }

    /// A fresh, unhandled tick event.
    pub fn new() -> (event: AppTickEvent)
        ensures
            event.kind() == EventType::AppTick,
            event.category() == set![CategoryFlag::Application],
            !event.is_handled(),
    {
        let event = Event::new(EventType::AppTick, EventCategory::single(CategoryFlag::Application));
        AppTickEvent { event }
    }
}

impl EventTrait for AppTickEvent {
    open spec fn kind(&self) -> EventType {
        EventType::AppTick
    }

    open spec fn category(&self) -> Set<CategoryFlag> {
        set![CategoryFlag::Application]
    }

    open spec fn label(&self) -> Seq<char> {
        "AppTickEvent"@
    }

    closed spec fn is_handled(&self) -> bool {
        self.event.is_handled()
    }

    fn event_type(&self) -> (kind: &EventType) {
        proof {
            use_type_invariant(self);
        }
        self.event.event_type()
    }

    fn event_category(&self) -> (category: &EventCategory) {
        proof {
            use_type_invariant(self);
        }
        self.event.event_category()
    }

    fn name(&self) -> (name: &str) {
        "AppTickEvent"
    }

    fn handled(&self) -> (handled: bool) {
        self.event.handled()
    }

    fn set_handled(&mut self, handled: bool) {
        proof {
            use_type_invariant(&*self);
        }
        self.event = self.event.with_handled(handled);
    }
}

/// The application is about to render a frame. Its category is Application.
#[derive(Clone, Copy, Debug, PartialEq, Eq)]
pub struct AppRenderEvent {
    event: Event,
}

impl AppRenderEvent {
    /// The base attributes hold the kind and the category of this type.
    #[verifier::type_invariant]
    spec fn well_formed(&self) -> bool {
        &&& self.event.kind() == EventType::AppRender
        &&& self.event.category() == set![CategoryFlag::Application]
    }

    /// A fresh, unhandled render event.
    pub fn new() -> (event: AppRenderEvent)
        ensures
            event.kind() == EventType::AppRender,
            event.category() == set![CategoryFlag::Application],
            !event.is_handled(),
    {
        let event = Event::new(EventType::AppRender, EventCategory::single(CategoryFlag::Application));
        AppRenderEvent { event }
    }
}

impl EventTrait for AppRenderEvent {
    open spec fn kind(&self) -> EventType {
        EventType::AppRender
    }

    open spec fn category(&self) -> Set<CategoryFlag> {
        set![CategoryFlag::Application]
    }

    open spec fn label(&self) -> Seq<char> {
        "AppRenderEvent"@
    }

    closed spec fn is_handled(&self) -> bool {
        self.event.is_handled()
    }

    fn event_type(&self) -> (kind: &EventType) {
        proof {
            use_type_invariant(self);
        }
        self.event.event_type()
    }

    fn event_category(&self) -> (category: &EventCategory) {
        proof {
            use_type_invariant(self);
        }
        self.event.event_category()
    }

    fn name(&self) -> (name: &str) {
        "AppRenderEvent"
    }

    fn handled(&self) -> (handled: bool) {
        self.event.handled()
    }

    fn set_handled(&mut self, handled: bool) {
        proof {
            use_type_invariant(&*self);
        }
        self.event = self.event.with_handled(handled);
    }
}

/// The application is about to update its state. Its category is Application.
#[derive(Clone, Copy, Debug, PartialEq, Eq)]
pub struct AppUpdateEvent {
    event: Event,
}

impl AppUpdateEvent {
    /// The base attributes hold the kind and the category of this type.
    #[verifier::type_invariant]
    spec fn well_formed(&self) -> bool {
        &&& self.event.kind() == EventType::AppUpdate
        &&& self.event.category() == set![CategoryFlag::Application]
    }

    /// A fresh, unhandled update event.
    pub fn new() -> (event: AppUpdateEvent)
        ensures
            event.kind() == EventType::AppUpdate,
            event.category() == set![CategoryFlag::Application],
            !event.is_handled(),
    {
        let event = Event::new(EventType::AppUpdate, EventCategory::single(CategoryFlag::Application));
        AppUpdateEvent { event }
    }
}

impl EventTrait for AppUpdateEvent {
    open spec fn kind(&self) -> EventType {
        EventType::AppUpdate
    }

    open spec fn category(&self) -> Set<CategoryFlag> {
        set![CategoryFlag::Application]
    }

    open spec fn label(&self) -> Seq<char> {
        "AppUpdateEvent"@
    }

    closed spec fn is_handled(&self) -> bool {
        self.event.is_handled()
    }

    fn event_type(&self) -> (kind: &EventType) {
        proof {
            use_type_invariant(self);
        }
        self.event.event_type()
    }

    fn event_category(&self) -> (category: &EventCategory) {
        proof {
            use_type_invariant(self);
        }
        self.event.event_category()
    }

    fn name(&self) -> (name: &str) {
        "AppUpdateEvent"
    }

    fn handled(&self) -> (handled: bool) {
        self.event.handled()
    }

    fn set_handled(&mut self, handled: bool) {
        proof {
            use_type_invariant(&*self);
        }
        self.event = self.event.with_handled(handled);
    }
}

} // verus!
