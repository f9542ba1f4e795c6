//! What holds of every event, stated once for all concrete event types.

use crate::category::{CategoryFlag, EventCategory};
use crate::event::{
    AppRenderEvent, AppTickEvent, AppUpdateEvent, Event, EventTrait, EventType, KeyEvent,
    KeyPressedEvent, KeyReleasedEvent, MouseButtonEvent, MouseButtonPressedEvent,
    MouseButtonReleasedEvent, MouseMoveEvent, MouseScrolledEvent, WindowCloseEvent,
    WindowResizeEvent,
};
use vstd::prelude::*;

verus! {

/// Kind, category and name go by the type. Every value of an event type has
/// the kind, the category and the name listed here for its type, whatever its
/// payload and whether or not it was handled. The two shared types leave the
/// kind open, and a bare event the category too.
pub proof fn lemma_attributes_by_type(
    base: Event,
    key: KeyEvent,
    mouse_button: MouseButtonEvent,
    key_pressed: KeyPressedEvent,
    key_released: KeyReleasedEvent,
    mouse_move: MouseMoveEvent,
    mouse_scrolled: MouseScrolledEvent,
    mouse_button_pressed: MouseButtonPressedEvent,
    mouse_button_released: MouseButtonReleasedEvent,
    window_resize: WindowResizeEvent,
    window_close: WindowCloseEvent,
    app_tick: AppTickEvent,
    app_update: AppUpdateEvent,
    app_render: AppRenderEvent,
)
    ensures
        base.label() == "Event"@,
        key.category() == set![CategoryFlag::Keyboard, CategoryFlag::Input],
        key.label() == "KeyEvent"@,
        mouse_button.category() == set![CategoryFlag::MouseButton, CategoryFlag::Input],
        mouse_button.label() == "MouseButtonEvent"@,
        key_pressed.kind() == EventType::KeyPressed,
        key_pressed.category() == set![CategoryFlag::Keyboard, CategoryFlag::Input],
        key_pressed.label() == "KeyPressedEvent"@,
        key_released.kind() == EventType::KeyReleased,
        key_released.category() == set![CategoryFlag::Keyboard, CategoryFlag::Input],
        key_released.label() == "KeyReleasedEvent"@,
        mouse_move.kind() == EventType::MouseMove,
        mouse_move.category() == set![CategoryFlag::Mouse, CategoryFlag::Input],
        mouse_move.label() == "MouseMoveEvent"@,
        mouse_scrolled.kind() == EventType::MouseScrolled,
        mouse_scrolled.category() == set![CategoryFlag::Mouse, CategoryFlag::Input],
        mouse_scrolled.label() == "MouseScrolledEvent"@,
        mouse_button_pressed.kind() == EventType::MouseButtonPressed,
        mouse_button_pressed.category() == set![CategoryFlag::MouseButton, CategoryFlag::Input],
        mouse_button_pressed.label() == "MouseButtonPressedEvent"@,
        mouse_button_released.kind() == EventType::MouseButtonReleased,
        mouse_button_released.category() == set![CategoryFlag::MouseButton, CategoryFlag::Input],
        mouse_button_released.label() == "MouseButtonReleasedEvent"@,
        window_resize.kind() == EventType::WindowResize,
        window_resize.category() == set![CategoryFlag::Application],
        window_resize.label() == "WindowResizeEvent"@,
        window_close.kind() == EventType::WindowClose,
        window_close.category() == set![CategoryFlag::Application],
        window_close.label() == "WindowCloseEvent"@,
        app_tick.kind() == EventType::AppTick,
        app_tick.category() == set![CategoryFlag::Application],
        app_tick.label() == "AppTickEvent"@,
        app_update.kind() == EventType::AppUpdate,
        app_update.category() == set![CategoryFlag::Application],
        app_update.label() == "AppUpdateEvent"@,
        app_render.kind() == EventType::AppRender,
        app_render.category() == set![CategoryFlag::Application],
        app_render.label() == "AppRenderEvent"@,
{
}

/// The empty filter matches no event: an event's category has no flag in
/// common with a category that holds none.
pub proof fn lemma_empty_filter_matches_nothing<E: EventTrait>(event: E, filter: EventCategory)
    requires
        filter@ == Set::<CategoryFlag>::empty(),
    ensures
        event.category().disjoint(filter@),
{
}

/// No two event types share a name: whatever values of the fourteen types are
/// taken, their names are fourteen different strings.
pub proof fn lemma_names_differ_by_type(
    base: Event,
    key: KeyEvent,
    key_pressed: KeyPressedEvent,
    key_released: KeyReleasedEvent,
    mouse_move: MouseMoveEvent,
    mouse_scrolled: MouseScrolledEvent,
    mouse_button: MouseButtonEvent,
    mouse_button_pressed: MouseButtonPressedEvent,
    mouse_button_released: MouseButtonReleasedEvent,
    window_resize: WindowResizeEvent,
    window_close: WindowCloseEvent,
    app_tick: AppTickEvent,
    app_update: AppUpdateEvent,
    app_render: AppRenderEvent,
)
    ensures
        seq![
            base.label(),
            key.label(),
            key_pressed.label(),
            key_released.label(),
            mouse_move.label(),
            mouse_scrolled.label(),
            mouse_button.label(),
            mouse_button_pressed.label(),
            mouse_button_released.label(),
            window_resize.label(),
            window_close.label(),
            app_tick.label(),
            app_update.label(),
            app_render.label(),
        ].no_duplicates(),
{
    reveal_strlit("Event");
    reveal_strlit("KeyEvent");
    reveal_strlit("KeyPressedEvent");
    reveal_strlit("KeyReleasedEvent");
    reveal_strlit("MouseMoveEvent");
    reveal_strlit("MouseScrolledEvent");
    reveal_strlit("MouseButtonEvent");
    reveal_strlit("MouseButtonPressedEvent");
    reveal_strlit("MouseButtonReleasedEvent");
    reveal_strlit("WindowResizeEvent");
    reveal_strlit("WindowCloseEvent");
    reveal_strlit("AppTickEvent");
    reveal_strlit("AppUpdateEvent");
    reveal_strlit("AppRenderEvent");
    let names = seq![
        base.label(),
        key.label(),
        key_pressed.label(),
        key_released.label(),
        mouse_move.label(),
        mouse_scrolled.label(),
        mouse_button.label(),
        mouse_button_pressed.label(),
        mouse_button_released.label(),
        window_resize.label(),
        window_close.label(),
        app_tick.label(),
        app_update.label(),
        app_render.label(),
    ];
    // Most of the names differ in length. Those of one length differ in their
    // first letter, or, for the two that start with "App", in their fourth.
    assert(names[0].len() == 5 && names[1].len() == 8 && names[2].len() == 15 && names[5].len() == 18);
    assert(names[7].len() == 23 && names[8].len() == 24 && names[9].len() == 17 && names[11].len() == 12);
    assert(names[3].len() == 16 && names[6].len() == 16 && names[10].len() == 16);
    assert(names[3][0] == 'K' && names[6][0] == 'M' && names[10][0] == 'W');
    assert(names[4].len() == 14 && names[12].len() == 14 && names[13].len() == 14);
    assert(names[4][0] == 'M' && names[12][0] == 'A' && names[13][0] == 'A');
    assert(names[12][3] == 'U' && names[13][3] == 'R');
    assert forall|i: int, j: int| 0 <= i < names.len() && 0 <= j < names.len() && i != j implies names[i]
        != names[j] by {
        if names[i].len() == names[j].len() {
            assert(names[i][0] != names[j][0] || names[i][3] != names[j][3]);
        }
    }
}

} // verus!
