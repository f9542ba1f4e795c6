//! Keyboard events.

use crate::category::{CategoryFlag, EventCategory};
use crate::event::{CodeTrait, Event, EventTrait, EventType};
use vstd::prelude::*;

verus! {

/// What every keyboard event carries: the base attributes and a key code.
/// Its category is Keyboard and Input; its kind is whatever it was built with.
#[derive(Clone, Copy, Debug, PartialEq, Eq)]
pub struct KeyEvent {
    event: Event,
    code: u32,
}

impl KeyEvent {
    /// The base attributes hold the category of this type.
    #[verifier::type_invariant]
    spec fn well_formed(&self) -> bool {
        self.event.category() == set![CategoryFlag::Keyboard, CategoryFlag::Input]
    }

    /// A fresh, unhandled keyboard event of kind `event_type` for key `code`.
    pub fn new(code: u32, event_type: EventType) -> (event: KeyEvent)
        ensures
            event.kind() == event_type,
            event.category() == set![CategoryFlag::Keyboard, CategoryFlag::Input],
            event.spec_code() == code,
            !event.is_handled(),
    {
        let category = EventCategory::single(CategoryFlag::Keyboard).union(
            EventCategory::single(CategoryFlag::Input),
        );
        assert(category@ =~= set![CategoryFlag::Keyboard, CategoryFlag::Input]);
        let event = Event::new(event_type, category);
        KeyEvent { event, code }
    }

    pub fn code(&self) -> (code: u32)
        ensures
            code == self.spec_code(),
    {
        self.code
    }

    /// This event with its handled mark set to `handled`.
    pub(crate) fn with_handled(self, handled: bool) -> (event: KeyEvent)
        ensures
            event.is_handled() == handled,
            event.kind() == self.kind(),
            event.spec_code() == self.spec_code(),
    {
        proof {
            use_type_invariant(&self);
        }
        KeyEvent { event: self.event.with_handled(handled), code: self.code }
    }
}

impl EventTrait for KeyEvent {
    closed spec fn kind(&self) -> EventType {
        self.event.kind()
    }

    open spec fn category(&self) -> Set<CategoryFlag> {
        set![CategoryFlag::Keyboard, CategoryFlag::Input]
    }

    open spec fn label(&self) -> Seq<char> {
        "KeyEvent"@
    }

    closed spec fn is_handled(&self) -> bool {
        self.event.is_handled()
    }

    fn event_type(&self) -> (kind: &EventType) {
        self.event.event_type()
    }

    fn event_category(&self) -> (category: &EventCategory) {
        proof {
            use_type_invariant(self);
        }
        self.event.event_category()
    }

    fn name(&self) -> (name: &str) {
        "KeyEvent"
    }

    fn handled(&self) -> (handled: bool) {
        self.event.handled()
    }

    fn set_handled(&mut self, handled: bool)
        ensures
            final(self).spec_code() == old(self).spec_code(),
    {
        proof {
            use_type_invariant(&*self);
        }
        self.event = self.event.with_handled(handled);
    }
}

impl CodeTrait for KeyEvent {
    closed spec fn spec_code(&self) -> u32 {
        self.code
    }

    fn code(&self) -> (code: u32) {
        self.code
    }
}

/// A key went down, or is being held down and repeats.
#[derive(Clone, Copy, Debug, PartialEq, Eq)]
pub struct KeyPressedEvent {
    event: KeyEvent,
    repeat_count: u32,
}

impl KeyPressedEvent {
    /// The shared part holds the kind of this type.
    #[verifier::type_invariant]
    spec fn well_formed(&self) -> bool {
        self.event.kind() == EventType::KeyPressed
    }

    /// The number of repeats this event carries.
    pub closed spec fn spec_repeat_count(&self) -> u32 {
        self.repeat_count
    }

    /// A fresh, unhandled key-pressed event for key `code`, repeated `repeat_count` times.
    pub fn new(code: u32, repeat_count: u32) -> (event: KeyPressedEvent)
        ensures
            event.kind() == EventType::KeyPressed,
            event.category() == set![CategoryFlag::Keyboard, CategoryFlag::Input],
            event.spec_code() == code,
            event.repeat_count() == repeat_count,
            !event.is_handled(),
    {
        let event = KeyEvent::new(code, EventType::KeyPressed);
        KeyPressedEvent { event, repeat_count }
    }

    pub fn code(&self) -> (code: u32)
        ensures
            code == self.spec_code(),
    {
        self.event.code()
    }

    #[verifier::when_used_as_spec(spec_repeat_count)]
    pub fn repeat_count(&self) -> (repeat_count: u32)
        ensures
            repeat_count == self.repeat_count(),
    {
        self.repeat_count
    }
}

impl EventTrait for KeyPressedEvent {
    open spec fn kind(&self) -> EventType {
        EventType::KeyPressed
    }

    open spec fn category(&self) -> Set<CategoryFlag> {
        set![CategoryFlag::Keyboard, CategoryFlag::Input]
    }

    open spec fn label(&self) -> Seq<char> {
        "KeyPressedEvent"@
    }

    closed spec fn is_handled(&self) -> bool {
        self.event.is_handled()
    }

    fn event_type(&self) -> (kind: &EventType) {
        proof {
            use_type_invariant(self);
        }
        self.event.event_type()
    }

    fn event_category(&self) -> (category: &EventCategory) {
        self.event.event_category()
    }

    fn name(&self) -> (name: &str) {
        "KeyPressedEvent"
    }

    fn handled(&self) -> (handled: bool) {
        self.event.handled()
    }

    fn set_handled(&mut self, handled: bool)
        ensures
            final(self).spec_code() == old(self).spec_code(),
            final(self).repeat_count() == old(self).repeat_count(),
    {
        proof {
            use_type_invariant(&*self);
        }
        self.event = self.event.with_handled(handled);
    }
}

impl CodeTrait for KeyPressedEvent {
    closed spec fn spec_code(&self) -> u32 {
        self.event.spec_code()
    }

    fn code(&self) -> (code: u32) {
        self.event.code()
    }
}

/// A key went up.
#[derive(Clone, Copy, Debug, PartialEq, Eq)]
pub struct KeyReleasedEvent {
    event: KeyEvent,
}

impl KeyReleasedEvent {
    /// The shared part holds the kind of this type.
    #[verifier::type_invariant]
    spec fn well_formed(&self) -> bool {
        self.event.kind() == EventType::KeyReleased
    }

    /// A fresh, unhandled key-released event for key `code`.
    pub fn new(code: u32) -> (event: KeyReleasedEvent)
        ensures
            event.kind() == EventType::KeyReleased,
            event.category() == set![CategoryFlag::Keyboard, CategoryFlag::Input],
            event.spec_code() == code,
            !event.is_handled(),
    {
        let event = KeyEvent::new(code, EventType::KeyReleased);
        KeyReleasedEvent { event }
    }

    pub fn code(&self) -> (code: u32)
        ensures
            code == self.spec_code(),
    {
        self.event.code()
    }
}

impl EventTrait for KeyReleasedEvent {
    open spec fn kind(&self) -> EventType {
        EventType::KeyReleased
    }

    open spec fn category(&self) -> Set<CategoryFlag> {
        set![CategoryFlag::Keyboard, CategoryFlag::Input]
    }

    open spec fn label(&self) -> Seq<char> {
        "KeyReleasedEvent"@
    }

    closed spec fn is_handled(&self) -> bool {
        self.event.is_handled()
    }

    fn event_type(&self) -> (kind: &EventType) {
        proof {
            use_type_invariant(self);
        }
        self.event.event_type()
    }

    fn event_category(&self) -> (category: &EventCategory) {
        self.event.event_category()
    }

    fn name(&self) -> (name: &str) {
        "KeyReleasedEvent"
    }

    fn handled(&self) -> (handled: bool) {
        self.event.handled()
    }

    fn set_handled(&mut self, handled: bool)
        ensures
            final(self).spec_code() == old(self).spec_code(),
    {
        proof {
            use_type_invariant(&*self);
        }
        self.event = self.event.with_handled(handled);
    }
}

impl CodeTrait for KeyReleasedEvent {
    closed spec fn spec_code(&self) -> u32 {
        self.event.spec_code()
    }

    fn code(&self) -> (code: u32) {
        self.event.code()
    }
}

} // verus!
