//! Mouse events.
//!
//! A move or a scroll is in the Mouse category and in the Input category: a
//! filter for either one matches it. A button event is in the MouseButton and
//! in the Input category.
//!
//! Pointer positions and scroll offsets are double-precision numbers. An event
//! carries each one as its IEEE 754 bit pattern, a `u64`, and hands the same
//! pattern back: nothing is rounded on the way.

use crate::category::{CategoryFlag, EventCategory};
use crate::event::{CodeTrait, Event, EventTrait, EventType};
use vstd::prelude::*;

verus! {

/// The pointer moved. Its category is Mouse and Input.
#[derive(Clone, Copy, Debug, PartialEq, Eq)]
pub struct MouseMoveEvent {
    event: Event,
    x: u64,
    y: u64,
}

impl MouseMoveEvent {
    /// The base attributes hold the kind and the category of this type.
    #[verifier::type_invariant]
    spec fn well_formed(&self) -> bool {
        &&& self.event.kind() == EventType::MouseMove
        &&& self.event.category() == set![CategoryFlag::Mouse, CategoryFlag::Input]
    }

    /// The bit pattern of the horizontal position this event carries.
    pub closed spec fn spec_x(&self) -> u64 {
        self.x
    }

    /// The bit pattern of the vertical position this event carries.
    pub closed spec fn spec_y(&self) -> u64 {
        self.y
    }

    /// A fresh, unhandled mouse-move event to the position whose coordinates
    /// have the bit patterns `x` and `y`.
    pub fn new(x: u64, y: u64) -> (event: MouseMoveEvent)
        ensures
            event.kind() == EventType::MouseMove,
            event.category() == set![CategoryFlag::Mouse, CategoryFlag::Input],
            event.x() == x,
            event.y() == y,
            !event.is_handled(),
    {
        let category = EventCategory::single(CategoryFlag::Mouse).union(
            EventCategory::single(CategoryFlag::Input),
        );
        assert(category@ =~= set![CategoryFlag::Mouse, CategoryFlag::Input]);
        let event = Event::new(EventType::MouseMove, category);
        MouseMoveEvent { event, x, y }
    }

    #[verifier::when_used_as_spec(spec_x)]
    pub fn x(&self) -> (x: u64)
        ensures
            x == self.x(),
    {
        self.x
    }

    #[verifier::when_used_as_spec(spec_y)]
    pub fn y(&self) -> (y: u64)
        ensures
            y == self.y(),
    {
        self.y
    }
}

impl EventTrait for MouseMoveEvent {
    open spec fn kind(&self) -> EventType {
        EventType::MouseMove
    }

    open spec fn category(&self) -> Set<CategoryFlag> {
        set![CategoryFlag::Mouse, CategoryFlag::Input]
    }

    open spec fn label(&self) -> Seq<char> {
        "MouseMoveEvent"@
    }

    closed spec fn is_handled(&self) -> bool {
        self.event.is_handled()
    }

    fn event_type(&self) -> (kind: &EventType) {
        proof {
            use_type_invariant(self);
        }
        self.event.event_type()
    }

    fn event_category(&self) -> (category: &EventCategory) {
        proof {
            use_type_invariant(self);
        }
        self.event.event_category()
    }

    fn name(&self) -> (name: &str) {
        "MouseMoveEvent"
    }

    fn handled(&self) -> (handled: bool) {
        self.event.handled()
    }

    fn set_handled(&mut self, handled: bool)
        ensures
            final(self).x() == old(self).x(),
            final(self).y() == old(self).y(),
    {
        proof {
            use_type_invariant(&*self);
        }
        self.event = self.event.with_handled(handled);
    }
}

/// The wheel turned. Its category is Mouse and Input.
#[derive(Clone, Copy, Debug, PartialEq, Eq)]
pub struct MouseScrolledEvent {
    event: Event,
    x_offset: u64,
    y_offset: u64,
}

impl MouseScrolledEvent {
    /// The base attributes hold the kind and the category of this type.
    #[verifier::type_invariant]
    spec fn well_formed(&self) -> bool {
        &&& self.event.kind() == EventType::MouseScrolled
        &&& self.event.category() == set![CategoryFlag::Mouse, CategoryFlag::Input]
    }

    /// The bit pattern of the horizontal offset this event carries.
    pub closed spec fn spec_x_offset(&self) -> u64 {
        self.x_offset
    }

    /// The bit pattern of the vertical offset this event carries.
    pub closed spec fn spec_y_offset(&self) -> u64 {
        self.y_offset
    }

    /// A fresh, unhandled mouse-scrolled event by the offsets that have the bit
    /// patterns `x_offset` and `y_offset`.
    pub fn new(x_offset: u64, y_offset: u64) -> (event: MouseScrolledEvent)
        ensures
            event.kind() == EventType::MouseScrolled,
            event.category() == set![CategoryFlag::Mouse, CategoryFlag::Input],
            event.x_offset() == x_offset,
            event.y_offset() == y_offset,
            !event.is_handled(),
    {
        let category = EventCategory::single(CategoryFlag::Mouse).union(
            EventCategory::single(CategoryFlag::Input),
        );
        assert(category@ =~= set![CategoryFlag::Mouse, CategoryFlag::Input]);
        let event = Event::new(EventType::MouseScrolled, category);
        MouseScrolledEvent { event, x_offset, y_offset }
    }

    #[verifier::when_used_as_spec(spec_x_offset)]
    pub fn x_offset(&self) -> (x_offset: u64)
        ensures
            x_offset == self.x_offset(),
    {
        self.x_offset
    }

    #[verifier::when_used_as_spec(spec_y_offset)]
    pub fn y_offset(&self) -> (y_offset: u64)
        ensures
            y_offset == self.y_offset(),
    {
        self.y_offset
    }
}

impl EventTrait for MouseScrolledEvent {
    open spec fn kind(&self) -> EventType {
        EventType::MouseScrolled
    }

    open spec fn category(&self) -> Set<CategoryFlag> {
        set![CategoryFlag::Mouse, CategoryFlag::Input]
    }

    open spec fn label(&self) -> Seq<char> {
        "MouseScrolledEvent"@
    }

    closed spec fn is_handled(&self) -> bool {
        self.event.is_handled()
    }

    fn event_type(&self) -> (kind: &EventType) {
        proof {
            use_type_invariant(self);
        }
        self.event.event_type()
    }

    fn event_category(&self) -> (category: &EventCategory) {
        proof {
            use_type_invariant(self);
        }
        self.event.event_category()
    }

    fn name(&self) -> (name: &str) {
        "MouseScrolledEvent"
    }

    fn handled(&self) -> (handled: bool) {
        self.event.handled()
    }

    fn set_handled(&mut self, handled: bool)
        ensures
            final(self).x_offset() == old(self).x_offset(),
            final(self).y_offset() == old(self).y_offset(),
    {
        proof {
            use_type_invariant(&*self);
        }
        self.event = self.event.with_handled(handled);
    }
}

/// What every mouse-button event carries: the base attributes and a button
/// code. Its category is MouseButton and Input; its kind is whatever it was
/// built with.
#[derive(Clone, Copy, Debug, PartialEq, Eq)]
pub struct MouseButtonEvent {
    event: Event,
    code: u32,
}

impl MouseButtonEvent {
    /// The base attributes hold the category of this type.
    #[verifier::type_invariant]
    spec fn well_formed(&self) -> bool {
        self.event.category() == set![CategoryFlag::MouseButton, CategoryFlag::Input]
    }

    /// A fresh, unhandled mouse-button event of kind `event_type` for button `code`.
    pub fn new(code: u32, event_type: EventType) -> (event: MouseButtonEvent)
        ensures
            event.kind() == event_type,
            event.category() == set![CategoryFlag::MouseButton, CategoryFlag::Input],
            event.spec_code() == code,
            !event.is_handled(),
    {
        let category = EventCategory::single(CategoryFlag::MouseButton).union(
            EventCategory::single(CategoryFlag::Input),
        );
        assert(category@ =~= set![CategoryFlag::MouseButton, CategoryFlag::Input]);
        let event = Event::new(event_type, category);
        MouseButtonEvent { event, code }
    }

    pub fn code(&self) -> (code: u32)
        ensures
            code == self.spec_code(),
    {
        self.code
    }

    /// This event with its handled mark set to `handled`.
    pub(crate) fn with_handled(self, handled: bool) -> (event: MouseButtonEvent)
        ensures
            event.is_handled() == handled,
            event.kind() == self.kind(),
            event.spec_code() == self.spec_code(),
    {
        proof {
            use_type_invariant(&self);
        }
        MouseButtonEvent { event: self.event.with_handled(handled), code: self.code }
    }
}

impl EventTrait for MouseButtonEvent {
    closed spec fn kind(&self) -> EventType {
        self.event.kind()
    }

    open spec fn category(&self) -> Set<CategoryFlag> {
        set![CategoryFlag::MouseButton, CategoryFlag::Input]
    }

    open spec fn label(&self) -> Seq<char> {
        "MouseButtonEvent"@
    }

    closed spec fn is_handled(&self) -> bool {
        self.event.is_handled()
    }

    fn event_type(&self) -> (kind: &EventType) {
        self.event.event_type()
    }

    fn event_category(&self) -> (category: &EventCategory) {
        proof {
            use_type_invariant(self);
        }
        self.event.event_category()
    }

    fn name(&self) -> (name: &str) {
        "MouseButtonEvent"
    }

    fn handled(&self) -> (handled: bool) {
        self.event.handled()
    }

    fn set_handled(&mut self, handled: bool)
        ensures
            final(self).spec_code() == old(self).spec_code(),
    {
        proof {
            use_type_invariant(&*self);
        }
        self.event = self.event.with_handled(handled);
    }
}

impl CodeTrait for MouseButtonEvent {
    closed spec fn spec_code(&self) -> u32 {
        self.code
    }

    fn code(&self) -> (code: u32) {
        self.code
    }
}

/// A mouse button went down.
#[derive(Clone, Copy, Debug, PartialEq, Eq)]
pub struct MouseButtonPressedEvent {
    event: MouseButtonEvent,
}

impl MouseButtonPressedEvent {
    /// The shared part holds the kind of this type.
    #[verifier::type_invariant]
    spec fn well_formed(&self) -> bool {
        self.event.kind() == EventType::MouseButtonPressed
    }

    /// A fresh, unhandled mouse-button-pressed event for button `code`.
    pub fn new(code: u32) -> (event: MouseButtonPressedEvent)
        ensures
            event.kind() == EventType::MouseButtonPressed,
            event.category() == set![CategoryFlag::MouseButton, CategoryFlag::Input],
            event.spec_code() == code,
            !event.is_handled(),
    {
        let event = MouseButtonEvent::new(code, EventType::MouseButtonPressed);
        MouseButtonPressedEvent { event }
    }

    pub fn code(&self) -> (code: u32)
        ensures
            code == self.spec_code(),
    {
        self.event.code()
    }
}

impl EventTrait for MouseButtonPressedEvent {
    open spec fn kind(&self) -> EventType {
        EventType::MouseButtonPressed
    }

    open spec fn category(&self) -> Set<CategoryFlag> {
        set![CategoryFlag::MouseButton, CategoryFlag::Input]
    }

    open spec fn label(&self) -> Seq<char> {
        "MouseButtonPressedEvent"@
    }

    closed spec fn is_handled(&self) -> bool {
        self.event.is_handled()
    }

    fn event_type(&self) -> (kind: &EventType) {
        proof {
            use_type_invariant(self);
        }
        self.event.event_type()
    }

    fn event_category(&self) -> (category: &EventCategory) {
        self.event.event_category()
    }

    fn name(&self) -> (name: &str) {
        "MouseButtonPressedEvent"
    }

    fn handled(&self) -> (handled: bool) {
        self.event.handled()
    }

    fn set_handled(&mut self, handled: bool)
        ensures
            final(self).spec_code() == old(self).spec_code(),
    {
        proof {
            use_type_invariant(&*self);
        }
        self.event = self.event.with_handled(handled);
    }
}

impl CodeTrait for MouseButtonPressedEvent {
    closed spec fn spec_code(&self) -> u32 {
        self.event.spec_code()
    }

    fn code(&self) -> (code: u32) {
        self.event.code()
    }
}

/// A mouse button went up.
#[derive(Clone, Copy, Debug, PartialEq, Eq)]
pub struct MouseButtonReleasedEvent {
    event: MouseButtonEvent,
}

impl MouseButtonReleasedEvent {
    /// The shared part holds the kind of this type.
    #[verifier::type_invariant]
    spec fn well_formed(&self) -> bool {
        self.event.kind() == EventType::MouseButtonReleased
    }

    /// A fresh, unhandled mouse-button-released event for button `code`.
    pub fn new(code: u32) -> (event: MouseButtonReleasedEvent)
        ensures
            event.kind() == EventType::MouseButtonReleased,
            event.category() == set![CategoryFlag::MouseButton, CategoryFlag::Input],
            event.spec_code() == code,
            !event.is_handled(),
    {
        let event = MouseButtonEvent::new(code, EventType::MouseButtonReleased);
        MouseButtonReleasedEvent { event }
    }

    pub fn code(&self) -> (code: u32)
        ensures
            code == self.spec_code(),
    {
        self.event.code()
    }
}

impl EventTrait for MouseButtonReleasedEvent {
    open spec fn kind(&self) -> EventType {
        EventType::MouseButtonReleased
    }

    open spec fn category(&self) -> Set<CategoryFlag> {
        set![CategoryFlag::MouseButton, CategoryFlag::Input]
    }

    open spec fn label(&self) -> Seq<char> {
        "MouseButtonReleasedEvent"@
    }

    closed spec fn is_handled(&self) -> bool {
        self.event.is_handled()
    }

    fn event_type(&self) -> (kind: &EventType) {
        proof {
            use_type_invariant(self);
        }
        self.event.event_type()
    }

    fn event_category(&self) -> (category: &EventCategory) {
        self.event.event_category()
    }

    fn name(&self) -> (name: &str) {
        "MouseButtonReleasedEvent"
    }

    fn handled(&self) -> (handled: bool) {
        self.event.handled()
    }

    fn set_handled(&mut self, handled: bool)
        ensures
            final(self).spec_code() == old(self).spec_code(),
    {
        proof {
            use_type_invariant(&*self);
        }
        self.event = self.event.with_handled(handled);
    }
}

impl CodeTrait for MouseButtonReleasedEvent {
    closed spec fn spec_code(&self) -> u32 {
        self.event.spec_code()
    }

    fn code(&self) -> (code: u32) {
        self.event.code()
    }
}

} // verus!
