//! The event model and dispatch core of an interactive application.
//!
//! An application receives window, input and lifecycle events. This crate
//! defines what such an event is and routes each one to the handler that is
//! interested in its kind:
//!
//! - [`category`] holds the category of an event, a small set of flags by
//!   which events are filtered coarsely ("all input events").
//! - [`event`] holds the kinds of events, one type for each kind that carries
//!   a payload, and the traits through which any event tells its kind, its
//!   category and its name.
//! - [`dispatch`] holds the sum of all events that can be dispatched and the
//!   dispatcher: a set of handlers of which exactly the one for the event's
//!   kind is called.
//!
//! Everything is synchronous and in-process. A dispatch is one function call:
//! it keeps nothing, queues nothing and returns when the handler has returned.
//!
//! The crate is verified with Verus. Contracts speak of an event through the
//! spec functions of [`event::EventTrait`] and of a category through its view,
//! a `Set` of [`category::CategoryFlag`].

pub mod category;
pub mod dispatch;
pub mod event;
