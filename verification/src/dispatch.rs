//! Dispatch: routing one event to the one handler that is interested in its kind.

use crate::category::{CategoryFlag, EventCategory};
use crate::event::{
    AppRenderEvent, AppTickEvent, AppUpdateEvent, CodeTrait, Event, EventTrait, EventType,
    KeyEvent, KeyPressedEvent, KeyReleasedEvent, MouseButtonEvent, MouseButtonPressedEvent,
    MouseButtonReleasedEvent, MouseMoveEvent, MouseScrolledEvent, WindowCloseEvent,
    WindowResizeEvent,
};
use vstd::prelude::*;

verus! {

/// Any event that can be dispatched, together with its payload.
///
/// A kind that has a payload type of its own travels as that type. The kinds
/// that have none (`Unspecified`, `WindowFocus`, `WindowLostFocus`,
/// `WindowMoved`) travel as a bare [`Event`].
#[derive(Clone, Copy, Debug, PartialEq, Eq)]
pub enum AnyEvent {
    Base(Event),
    WindowClose(WindowCloseEvent),
    WindowResize(WindowResizeEvent),
    AppTick(AppTickEvent),
    AppUpdate(AppUpdateEvent),
    AppRender(AppRenderEvent),
    KeyPressed(KeyPressedEvent),
    KeyReleased(KeyReleasedEvent),
    MouseButtonPressed(MouseButtonPressedEvent),
    MouseButtonReleased(MouseButtonReleasedEvent),
    MouseMove(MouseMoveEvent),
    MouseScrolled(MouseScrolledEvent),
}

/// Whether `kind` is one of the kinds that have no payload type of their own.
pub open spec fn has_no_payload(kind: EventType) -> bool {
    kind == EventType::Unspecified || kind == EventType::WindowFocus || kind
        == EventType::WindowLostFocus || kind == EventType::WindowMoved
}

impl AnyEvent {
    /// Whether kind and payload agree: a bare event has one of the kinds
    /// without a payload. Every other variant has the kind of its payload type
    /// by construction.
    pub open spec fn coherent(&self) -> bool {
        self matches AnyEvent::Base(event) ==> has_no_payload(event.kind())
    }

    /// Whether `self` and `other` are the same variant and carry the same payload.
    /// The handled mark is no part of the payload.
    pub open spec fn same_payload(&self, other: &AnyEvent) -> bool {
        match (*self, *other) {
            (AnyEvent::Base(a), AnyEvent::Base(b)) => true,
            (AnyEvent::WindowClose(a), AnyEvent::WindowClose(b)) => true,
            (AnyEvent::WindowResize(a), AnyEvent::WindowResize(b)) => a.width() == b.width()
                && a.height() == b.height(),
            (AnyEvent::AppTick(a), AnyEvent::AppTick(b)) => true,
            (AnyEvent::AppUpdate(a), AnyEvent::AppUpdate(b)) => true,
            (AnyEvent::AppRender(a), AnyEvent::AppRender(b)) => true,
            (AnyEvent::KeyPressed(a), AnyEvent::KeyPressed(b)) => a.spec_code() == b.spec_code()
                && a.repeat_count() == b.repeat_count(),
            (AnyEvent::KeyReleased(a), AnyEvent::KeyReleased(b)) => a.spec_code() == b.spec_code(),
            (AnyEvent::MouseButtonPressed(a), AnyEvent::MouseButtonPressed(b)) => a.spec_code()
                == b.spec_code(),
            (AnyEvent::MouseButtonReleased(a), AnyEvent::MouseButtonReleased(b)) => a.spec_code()
                == b.spec_code(),
            (AnyEvent::MouseMove(a), AnyEvent::MouseMove(b)) => a.x() == b.x() && a.y() == b.y(),
            (AnyEvent::MouseScrolled(a), AnyEvent::MouseScrolled(b)) => a.x_offset() == b.x_offset()
                && a.y_offset() == b.y_offset(),
            _ => false,
        }
    }

    /// Whether this event may be dispatched.
    pub fn is_coherent(&self) -> (coherent: bool)
        ensures
            coherent == self.coherent(),
    {
        match self {
            AnyEvent::Base(event) => match event.event_type() {
                EventType::Unspecified => true,
                EventType::WindowFocus => true,
                EventType::WindowLostFocus => true,
                EventType::WindowMoved => true,
                _ => false,
            },
            _ => true,
        }
    }
}

impl EventTrait for AnyEvent {
    open spec fn kind(&self) -> EventType {
        match self {
            AnyEvent::Base(event) => event.kind(),
            AnyEvent::WindowClose(event) => event.kind(),
            AnyEvent::WindowResize(event) => event.kind(),
            AnyEvent::AppTick(event) => event.kind(),
            AnyEvent::AppUpdate(event) => event.kind(),
            AnyEvent::AppRender(event) => event.kind(),
            AnyEvent::KeyPressed(event) => event.kind(),
            AnyEvent::KeyReleased(event) => event.kind(),
            AnyEvent::MouseButtonPressed(event) => event.kind(),
            AnyEvent::MouseButtonReleased(event) => event.kind(),
            AnyEvent::MouseMove(event) => event.kind(),
            AnyEvent::MouseScrolled(event) => event.kind(),
        }
    }

    open spec fn category(&self) -> Set<CategoryFlag> {
        match self {
            AnyEvent::Base(event) => event.category(),
            AnyEvent::WindowClose(event) => event.category(),
            AnyEvent::WindowResize(event) => event.category(),
            AnyEvent::AppTick(event) => event.category(),
            AnyEvent::AppUpdate(event) => event.category(),
            AnyEvent::AppRender(event) => event.category(),
            AnyEvent::KeyPressed(event) => event.category(),
            AnyEvent::KeyReleased(event) => event.category(),
            AnyEvent::MouseButtonPressed(event) => event.category(),
            AnyEvent::MouseButtonReleased(event) => event.category(),
            AnyEvent::MouseMove(event) => event.category(),
            AnyEvent::MouseScrolled(event) => event.category(),
        }
    }

    open spec fn label(&self) -> Seq<char> {
        match self {
            AnyEvent::Base(event) => event.label(),
            AnyEvent::WindowClose(event) => event.label(),
            AnyEvent::WindowResize(event) => event.label(),
            AnyEvent::AppTick(event) => event.label(),
            AnyEvent::AppUpdate(event) => event.label(),
            AnyEvent::AppRender(event) => event.label(),
            AnyEvent::KeyPressed(event) => event.label(),
            AnyEvent::KeyReleased(event) => event.label(),
            AnyEvent::MouseButtonPressed(event) => event.label(),
            AnyEvent::MouseButtonReleased(event) => event.label(),
            AnyEvent::MouseMove(event) => event.label(),
            AnyEvent::MouseScrolled(event) => event.label(),
        }
    }

    open spec fn is_handled(&self) -> bool {
        match self {
            AnyEvent::Base(event) => event.is_handled(),
            AnyEvent::WindowClose(event) => event.is_handled(),
            AnyEvent::WindowResize(event) => event.is_handled(),
            AnyEvent::AppTick(event) => event.is_handled(),
            AnyEvent::AppUpdate(event) => event.is_handled(),
            AnyEvent::AppRender(event) => event.is_handled(),
            AnyEvent::KeyPressed(event) => event.is_handled(),
            AnyEvent::KeyReleased(event) => event.is_handled(),
            AnyEvent::MouseButtonPressed(event) => event.is_handled(),
            AnyEvent::MouseButtonReleased(event) => event.is_handled(),
            AnyEvent::MouseMove(event) => event.is_handled(),
            AnyEvent::MouseScrolled(event) => event.is_handled(),
        }
    }

    fn event_type(&self) -> (kind: &EventType) {
        match self {
            AnyEvent::Base(event) => event.event_type(),
            AnyEvent::WindowClose(event) => event.event_type(),
            AnyEvent::WindowResize(event) => event.event_type(),
            AnyEvent::AppTick(event) => event.event_type(),
            AnyEvent::AppUpdate(event) => event.event_type(),
            AnyEvent::AppRender(event) => event.event_type(),
            AnyEvent::KeyPressed(event) => event.event_type(),
            AnyEvent::KeyReleased(event) => event.event_type(),
            AnyEvent::MouseButtonPressed(event) => event.event_type(),
            AnyEvent::MouseButtonReleased(event) => event.event_type(),
            AnyEvent::MouseMove(event) => event.event_type(),
            AnyEvent::MouseScrolled(event) => event.event_type(),
        }
    }

    fn event_category(&self) -> (category: &EventCategory) {
        match self {
            AnyEvent::Base(event) => event.event_category(),
            AnyEvent::WindowClose(event) => event.event_category(),
            AnyEvent::WindowResize(event) => event.event_category(),
            AnyEvent::AppTick(event) => event.event_category(),
            AnyEvent::AppUpdate(event) => event.event_category(),
            AnyEvent::AppRender(event) => event.event_category(),
            AnyEvent::KeyPressed(event) => event.event_category(),
            AnyEvent::KeyReleased(event) => event.event_category(),
            AnyEvent::MouseButtonPressed(event) => event.event_category(),
            AnyEvent::MouseButtonReleased(event) => event.event_category(),
            AnyEvent::MouseMove(event) => event.event_category(),
            AnyEvent::MouseScrolled(event) => event.event_category(),
        }
    }

    fn name(&self) -> (name: &str) {
        match self {
            AnyEvent::Base(event) => event.name(),
            AnyEvent::WindowClose(event) => event.name(),
            AnyEvent::WindowResize(event) => event.name(),
            AnyEvent::AppTick(event) => event.name(),
            AnyEvent::AppUpdate(event) => event.name(),
            AnyEvent::AppRender(event) => event.name(),
            AnyEvent::KeyPressed(event) => event.name(),
            AnyEvent::KeyReleased(event) => event.name(),
            AnyEvent::MouseButtonPressed(event) => event.name(),
            AnyEvent::MouseButtonReleased(event) => event.name(),
            AnyEvent::MouseMove(event) => event.name(),
            AnyEvent::MouseScrolled(event) => event.name(),
        }
    }

    fn handled(&self) -> (handled: bool) {
        match self {
            AnyEvent::Base(event) => event.handled(),
            AnyEvent::WindowClose(event) => event.handled(),
            AnyEvent::WindowResize(event) => event.handled(),
            AnyEvent::AppTick(event) => event.handled(),
            AnyEvent::AppUpdate(event) => event.handled(),
            AnyEvent::AppRender(event) => event.handled(),
            AnyEvent::KeyPressed(event) => event.handled(),
            AnyEvent::KeyReleased(event) => event.handled(),
            AnyEvent::MouseButtonPressed(event) => event.handled(),
            AnyEvent::MouseButtonReleased(event) => event.handled(),
            AnyEvent::MouseMove(event) => event.handled(),
            AnyEvent::MouseScrolled(event) => event.handled(),
        }
    }

    fn set_handled(&mut self, handled: bool)
        ensures
            final(self).same_payload(old(self)),
    {
        match self {
            AnyEvent::Base(event) => event.set_handled(handled),
            AnyEvent::WindowClose(event) => event.set_handled(handled),
            AnyEvent::WindowResize(event) => event.set_handled(handled),
            AnyEvent::AppTick(event) => event.set_handled(handled),
            AnyEvent::AppUpdate(event) => event.set_handled(handled),
            AnyEvent::AppRender(event) => event.set_handled(handled),
            AnyEvent::KeyPressed(event) => event.set_handled(handled),
            AnyEvent::KeyReleased(event) => event.set_handled(handled),
            AnyEvent::MouseButtonPressed(event) => event.set_handled(handled),
            AnyEvent::MouseButtonReleased(event) => event.set_handled(handled),
            AnyEvent::MouseMove(event) => event.set_handled(handled),
            AnyEvent::MouseScrolled(event) => event.set_handled(handled),
        }
    }
}

/// A set of handlers, one for each kind of event, and the dispatch that picks
/// among them.
///
/// A dispatcher registers a handler by implementing its method. A handler that
/// is not implemented leaves the dispatcher as it is.
#[allow(unused_variables)]
pub trait EventDispatcher: Sized {
    /// Hands `event` to the one handler for its kind, once, with the payload it
    /// carries, and calls no other handler.
    ///
    /// The dispatcher ends up as that handler leaves it: what the handler
    /// promises of a call on this payload holds of a borrow of the dispatcher
    /// that starts where `self` starts and ends where `self` ends.
    fn dispatch(&mut self, event: &AnyEvent)
        requires
            event.coherent(),
        ensures
            (exists|lent: &mut Self|
                {
                    &&& *lent == *old(self)
                    &&& *final(lent) == *final(self)
                    &&& match event.kind() {
                        EventType::Unspecified
                        | EventType::WindowFocus
                        | EventType::WindowLostFocus
                        | EventType::WindowMoved => {
                            &&& *event matches AnyEvent::Base(payload)
                            &&& call_ensures(Self::event, (lent, &payload), ())
                        },
                        EventType::WindowClose => {
                            &&& *event matches AnyEvent::WindowClose(payload)
                            &&& call_ensures(Self::window_close_event, (lent, &payload), ())
                        },
                        EventType::WindowResize => {
                            &&& *event matches AnyEvent::WindowResize(payload)
                            &&& call_ensures(Self::window_resize_event, (lent, &payload), ())
                        },
                        EventType::AppTick => {
                            &&& *event matches AnyEvent::AppTick(payload)
                            &&& call_ensures(Self::app_tick_event, (lent, &payload), ())
                        },
                        EventType::AppUpdate => {
                            &&& *event matches AnyEvent::AppUpdate(payload)
                            &&& call_ensures(Self::app_update_event, (lent, &payload), ())
                        },
                        EventType::AppRender => {
                            &&& *event matches AnyEvent::AppRender(payload)
                            &&& call_ensures(Self::app_render_event, (lent, &payload), ())
                        },
                        EventType::KeyPressed => {
                            &&& *event matches AnyEvent::KeyPressed(payload)
                            &&& call_ensures(Self::key_pressed_event, (lent, &payload), ())
                        },
                        EventType::KeyReleased => {
                            &&& *event matches AnyEvent::KeyReleased(payload)
                            &&& call_ensures(Self::key_released_event, (lent, &payload), ())
                        },
                        EventType::MouseButtonPressed => {
                            &&& *event matches AnyEvent::MouseButtonPressed(payload)
                            &&& call_ensures(Self::mouse_button_pressed_event, (lent, &payload), ())
                        },
                        EventType::MouseButtonReleased => {
                            &&& *event matches AnyEvent::MouseButtonReleased(payload)
                            &&& call_ensures(Self::mouse_button_released_event, (lent, &payload), ())
                        },
                        EventType::MouseMove => {
                            &&& *event matches AnyEvent::MouseMove(payload)
                            &&& call_ensures(Self::mouse_move_event, (lent, &payload), ())
                        },
                        EventType::MouseScrolled => {
                            &&& *event matches AnyEvent::MouseScrolled(payload)
                            &&& call_ensures(Self::mouse_scrolled_event, (lent, &payload), ())
                        },
                    }
                }),
    {
        match event {
            AnyEvent::Base(payload) => self.event(payload),
            AnyEvent::WindowClose(payload) => self.window_close_event(payload),
            AnyEvent::WindowResize(payload) => self.window_resize_event(payload),
            AnyEvent::AppTick(payload) => self.app_tick_event(payload),
            AnyEvent::AppUpdate(payload) => self.app_update_event(payload),
            AnyEvent::AppRender(payload) => self.app_render_event(payload),
            AnyEvent::KeyPressed(payload) => self.key_pressed_event(payload),
            AnyEvent::KeyReleased(payload) => self.key_released_event(payload),
            AnyEvent::MouseButtonPressed(payload) => self.mouse_button_pressed_event(payload),
            AnyEvent::MouseButtonReleased(payload) => self.mouse_button_released_event(payload),
            AnyEvent::MouseMove(payload) => self.mouse_move_event(payload),
            AnyEvent::MouseScrolled(payload) => self.mouse_scrolled_event(payload),
        }
    }

    /// The catch-all handler: it gets every event whose kind has no payload type of
    /// its own.
    fn event(&mut self, event: &Event)
        default_ensures
            *final(self) == *old(self),
    {
    }

    /// A handler for what key events share. `dispatch` never calls it: the handlers
    /// of the key kinds may.
    fn key_event(&mut self, event: &KeyEvent)
        default_ensures
            *final(self) == *old(self),
    {
    }

    fn key_pressed_event(&mut self, event: &KeyPressedEvent)
        default_ensures
            *final(self) == *old(self),
    {
    }

    fn key_released_event(&mut self, event: &KeyReleasedEvent)
        default_ensures
            *final(self) == *old(self),
    {
    }

    fn mouse_move_event(&mut self, event: &MouseMoveEvent)
        default_ensures
            *final(self) == *old(self),
    {
    }

    fn mouse_scrolled_event(&mut self, event: &MouseScrolledEvent)
        default_ensures
            *final(self) == *old(self),
    {
    }

    /// A handler for what mouse-button events share. `dispatch` never calls it: the
    /// handlers of the button kinds may.
    fn mouse_button_event(&mut self, event: &MouseButtonEvent)
        default_ensures
            *final(self) == *old(self),
    {
    }

    fn mouse_button_pressed_event(&mut self, event: &MouseButtonPressedEvent)
        default_ensures
            *final(self) == *old(self),
    {
    }

    fn mouse_button_released_event(&mut self, event: &MouseButtonReleasedEvent)
        default_ensures
            *final(self) == *old(self),
    {
    }

    fn window_resize_event(&mut self, event: &WindowResizeEvent)
        default_ensures
            *final(self) == *old(self),
    {
    }

    fn window_close_event(&mut self, event: &WindowCloseEvent)
        default_ensures
            *final(self) == *old(self),
    {
    }

    fn app_tick_event(&mut self, event: &AppTickEvent)
        default_ensures
            *final(self) == *old(self),
    {
    }

    fn app_render_event(&mut self, event: &AppRenderEvent)
        default_ensures
            *final(self) == *old(self),
    {
    }

    fn app_update_event(&mut self, event: &AppUpdateEvent)
        default_ensures
            *final(self) == *old(self),
    {
    }
}

/// What the handler for the kind of `event` promises of one call on the payload
/// of `event`, with the dispatcher lent to it as `lent`.
#[verifier::inline]
pub open spec fn handler_ran<D: EventDispatcher>(lent: &mut D, event: AnyEvent) -> bool {
    match event.kind() {
        EventType::Unspecified
        | EventType::WindowFocus
        | EventType::WindowLostFocus
        | EventType::WindowMoved => {
            &&& event matches AnyEvent::Base(payload)
            &&& call_ensures(D::event, (lent, &payload), ())
        },
        EventType::WindowClose => {
            &&& event matches AnyEvent::WindowClose(payload)
            &&& call_ensures(D::window_close_event, (lent, &payload), ())
        },
        EventType::WindowResize => {
            &&& event matches AnyEvent::WindowResize(payload)
            &&& call_ensures(D::window_resize_event, (lent, &payload), ())
        },
        EventType::AppTick => {
            &&& event matches AnyEvent::AppTick(payload)
            &&& call_ensures(D::app_tick_event, (lent, &payload), ())
        },
        EventType::AppUpdate => {
            &&& event matches AnyEvent::AppUpdate(payload)
            &&& call_ensures(D::app_update_event, (lent, &payload), ())
        },
        EventType::AppRender => {
            &&& event matches AnyEvent::AppRender(payload)
            &&& call_ensures(D::app_render_event, (lent, &payload), ())
        },
        EventType::KeyPressed => {
            &&& event matches AnyEvent::KeyPressed(payload)
            &&& call_ensures(D::key_pressed_event, (lent, &payload), ())
        },
        EventType::KeyReleased => {
            &&& event matches AnyEvent::KeyReleased(payload)
            &&& call_ensures(D::key_released_event, (lent, &payload), ())
        },
        EventType::MouseButtonPressed => {
            &&& event matches AnyEvent::MouseButtonPressed(payload)
            &&& call_ensures(D::mouse_button_pressed_event, (lent, &payload), ())
        },
        EventType::MouseButtonReleased => {
            &&& event matches AnyEvent::MouseButtonReleased(payload)
            &&& call_ensures(D::mouse_button_released_event, (lent, &payload), ())
        },
        EventType::MouseMove => {
            &&& event matches AnyEvent::MouseMove(payload)
            &&& call_ensures(D::mouse_move_event, (lent, &payload), ())
        },
        EventType::MouseScrolled => {
            &&& event matches AnyEvent::MouseScrolled(payload)
            &&& call_ensures(D::mouse_scrolled_event, (lent, &payload), ())
        },
    }
}

/// A dispatch is one run of the handler for the event's kind. Where a call of
/// `dispatch` on `event` takes a dispatcher from `before` to `after`, the handler
/// for the kind of `event` has run on a borrow that starts at `before` and ends
/// at `after`.
pub proof fn lemma_dispatch_runs_one_handler<D: EventDispatcher>(before: D, event: AnyEvent, after: D)
    requires
        (exists|lent: &mut D|
            {
                &&& *lent == before
                &&& *final(lent) == after
                &&& call_ensures(D::dispatch, (lent, &event), ())
            }),
    ensures
        (exists|lent: &mut D|
            {
                &&& *lent == before
                &&& *final(lent) == after
                &&& handler_ran(lent, event)
            }),
{
}

/// Handler isolation. Let the handler for the kind of `event` leave every
/// dispatcher as it finds it, which is what a handler that was not registered
/// does. Then a dispatch of `event` leaves the dispatcher as it was, whatever
/// the handlers for the other kinds would do.
pub proof fn lemma_handler_isolation<D: EventDispatcher>(before: D, event: AnyEvent, after: D)
    requires
        (exists|lent: &mut D|
            {
                &&& *lent == before
                &&& *final(lent) == after
                &&& handler_ran(lent, event)
            }),
        forall|lent: &mut D| handler_ran(lent, event) ==> *final(lent) == *lent,
    ensures
        after == before,
{
}

} // verus!
