use rotten::category::{CategoryFlag, EventCategory};
use rotten::event::{
    AppRenderEvent, AppTickEvent, AppUpdateEvent, CodeTrait, Event, EventTrait, EventType,
    KeyEvent, KeyPressedEvent, KeyReleasedEvent, MouseButtonEvent, MouseButtonPressedEvent,
    MouseButtonReleasedEvent, MouseMoveEvent, MouseScrolledEvent, WindowCloseEvent,
    WindowResizeEvent,
};

const KEYBOARD_INPUT: u16 = 0x06;
const MOUSE_INPUT: u16 = 0x0a;
const MOUSE_BUTTON_INPUT: u16 = 0x12;
const APPLICATION: u16 = 0x01;

fn check<E: EventTrait>(event: &E, kind: EventType, category: u16, name: &str) {
    assert_eq!(*event.event_type(), kind);
    assert_eq!(event.event_category().bits(), category);
    assert_eq!(event.name(), name);
    assert!(!event.handled());
}

fn code_of<E: CodeTrait>(event: &E) -> u32 {
    CodeTrait::code(event)
}

#[test]
fn key_pressed_has_its_kind_category_and_name() {
    check(&KeyPressedEvent::new(42, 3), EventType::KeyPressed, KEYBOARD_INPUT, "KeyPressedEvent");
}

#[test]
fn key_released_has_its_kind_category_and_name() {
    check(&KeyReleasedEvent::new(42), EventType::KeyReleased, KEYBOARD_INPUT, "KeyReleasedEvent");
}

#[test]
fn mouse_move_has_its_kind_category_and_name() {
    check(&MouseMoveEvent::new(1, 2), EventType::MouseMove, MOUSE_INPUT, "MouseMoveEvent");
}

#[test]
fn mouse_scrolled_has_its_kind_category_and_name() {
    check(&MouseScrolledEvent::new(1, 2), EventType::MouseScrolled, MOUSE_INPUT, "MouseScrolledEvent");
}

#[test]
fn mouse_button_pressed_has_its_kind_category_and_name() {
    check(
        &MouseButtonPressedEvent::new(1),
        EventType::MouseButtonPressed,
        MOUSE_BUTTON_INPUT,
        "MouseButtonPressedEvent",
    );
}

#[test]
fn mouse_button_released_has_its_kind_category_and_name() {
    check(
        &MouseButtonReleasedEvent::new(1),
        EventType::MouseButtonReleased,
        MOUSE_BUTTON_INPUT,
        "MouseButtonReleasedEvent",
    );
}

#[test]
fn window_resize_has_its_kind_category_and_name() {
    check(&WindowResizeEvent::new(800, 600), EventType::WindowResize, APPLICATION, "WindowResizeEvent");
}

#[test]
fn window_close_has_its_kind_category_and_name() {
    check(&WindowCloseEvent::new(), EventType::WindowClose, APPLICATION, "WindowCloseEvent");
}

#[test]
fn app_events_have_their_kinds_category_and_names() {
    check(&AppTickEvent::new(), EventType::AppTick, APPLICATION, "AppTickEvent");
    check(&AppUpdateEvent::new(), EventType::AppUpdate, APPLICATION, "AppUpdateEvent");
    check(&AppRenderEvent::new(), EventType::AppRender, APPLICATION, "AppRenderEvent");
}

#[test]
fn shared_key_event_takes_the_kind_it_is_given() {
    check(&KeyEvent::new(7, EventType::KeyPressed), EventType::KeyPressed, KEYBOARD_INPUT, "KeyEvent");
    check(&KeyEvent::new(7, EventType::KeyReleased), EventType::KeyReleased, KEYBOARD_INPUT, "KeyEvent");
    check(&KeyEvent::new(7, EventType::Unspecified), EventType::Unspecified, KEYBOARD_INPUT, "KeyEvent");
}

#[test]
fn shared_mouse_button_event_takes_the_kind_it_is_given() {
    check(
        &MouseButtonEvent::new(2, EventType::MouseButtonPressed),
        EventType::MouseButtonPressed,
        MOUSE_BUTTON_INPUT,
        "MouseButtonEvent",
    );
    check(
        &MouseButtonEvent::new(2, EventType::WindowClose),
        EventType::WindowClose,
        MOUSE_BUTTON_INPUT,
        "MouseButtonEvent",
    );
}

#[test]
fn bare_event_takes_kind_and_category_as_given() {
    let category = EventCategory::single(CategoryFlag::Application);
    check(&Event::new(EventType::WindowFocus, category), EventType::WindowFocus, APPLICATION, "Event");
    check(&Event::new(EventType::Unspecified, EventCategory::none()), EventType::Unspecified, 0x00, "Event");
}

#[test]
fn key_pressed_round_trip() {
    let event = KeyPressedEvent::new(42, 3);
    assert_eq!(event.code(), 42);
    assert_eq!(event.repeat_count(), 3);
    assert_eq!(code_of(&event), 42);
}

#[test]
fn key_pressed_round_trip_at_the_limits() {
    let event = KeyPressedEvent::new(u32::MAX, 0);
    assert_eq!(event.code(), u32::MAX);
    assert_eq!(event.repeat_count(), 0);
    let event = KeyPressedEvent::new(0, u32::MAX);
    assert_eq!(event.code(), 0);
    assert_eq!(event.repeat_count(), u32::MAX);
}

#[test]
fn key_released_round_trip() {
    let event = KeyReleasedEvent::new(65);
    assert_eq!(event.code(), 65);
    assert_eq!(code_of(&event), 65);
}

#[test]
fn shared_events_round_trip() {
    let key = KeyEvent::new(13, EventType::KeyPressed);
    assert_eq!(key.code(), 13);
    assert_eq!(code_of(&key), 13);
    let button = MouseButtonEvent::new(4, EventType::MouseButtonReleased);
    assert_eq!(button.code(), 4);
    assert_eq!(code_of(&button), 4);
}

#[test]
fn mouse_button_round_trip() {
    let pressed = MouseButtonPressedEvent::new(1);
    assert_eq!(pressed.code(), 1);
    assert_eq!(code_of(&pressed), 1);
    let released = MouseButtonReleasedEvent::new(u32::MAX);
    assert_eq!(released.code(), u32::MAX);
    assert_eq!(code_of(&released), u32::MAX);
}

#[test]
fn window_resize_round_trip() {
    let event = WindowResizeEvent::new(800, 600);
    assert_eq!(event.width(), 800);
    assert_eq!(event.height(), 600);
    let event = WindowResizeEvent::new(0, u32::MAX);
    assert_eq!(event.width(), 0);
    assert_eq!(event.height(), u32::MAX);
}

#[test]
fn mouse_move_round_trip_keeps_every_bit() {
    let x: f64 = 12.5;
    let y: f64 = -0.1;
    let event = MouseMoveEvent::new(x.to_bits(), y.to_bits());
    assert_eq!(event.x(), x.to_bits());
    assert_eq!(event.y(), y.to_bits());
    assert_eq!(f64::from_bits(event.x()), 12.5);
    assert_eq!(f64::from_bits(event.y()), -0.1);
}

#[test]
fn mouse_move_round_trip_of_special_values() {
    let negative_zero: f64 = -0.0;
    let event = MouseMoveEvent::new(negative_zero.to_bits(), f64::NAN.to_bits());
    assert_eq!(event.x(), 0x8000_0000_0000_0000);
    assert!(f64::from_bits(event.x()).is_sign_negative());
    assert!(f64::from_bits(event.y()).is_nan());
    assert_eq!(event.y(), f64::NAN.to_bits());
    let event = MouseMoveEvent::new(f64::INFINITY.to_bits(), f64::MIN_POSITIVE.to_bits());
    assert_eq!(f64::from_bits(event.x()), f64::INFINITY);
    assert_eq!(f64::from_bits(event.y()), f64::MIN_POSITIVE);
}

#[test]
fn mouse_scrolled_round_trip_keeps_every_bit() {
    let x_offset: f64 = 0.25;
    let y_offset: f64 = -3.0;
    let event = MouseScrolledEvent::new(x_offset.to_bits(), y_offset.to_bits());
    assert_eq!(event.x_offset(), x_offset.to_bits());
    assert_eq!(event.y_offset(), y_offset.to_bits());
    assert_eq!(f64::from_bits(event.x_offset()), 0.25);
    assert_eq!(f64::from_bits(event.y_offset()), -3.0);
    let event = MouseScrolledEvent::new(u64::MAX, 0);
    assert_eq!(event.x_offset(), u64::MAX);
    assert_eq!(event.y_offset(), 0);
}

#[test]
fn in_category_is_true_on_a_common_flag() {
    let event = KeyPressedEvent::new(42, 3);
    assert!(event.in_category(&EventCategory::single(CategoryFlag::Keyboard)));
    assert!(event.in_category(&EventCategory::single(CategoryFlag::Input)));
    let wide = EventCategory::single(CategoryFlag::Mouse).union(EventCategory::single(CategoryFlag::Input));
    assert!(event.in_category(&wide));
}

#[test]
fn in_category_is_false_without_a_common_flag() {
    let event = KeyPressedEvent::new(42, 3);
    assert!(!event.in_category(&EventCategory::single(CategoryFlag::Mouse)));
    assert!(!event.in_category(&EventCategory::single(CategoryFlag::MouseButton)));
    assert!(!event.in_category(&EventCategory::single(CategoryFlag::Application)));
}

#[test]
fn in_category_goes_by_the_bits_for_every_filter() {
    let resize = WindowResizeEvent::new(1, 1);
    let press = MouseButtonPressedEvent::new(1);
    let moved = MouseMoveEvent::new(0, 0);
    let key = KeyReleasedEvent::new(1);
    for bits in 0x00u16..=0x1f {
        let filter = EventCategory::from_bits(bits).unwrap();
        assert_eq!(resize.in_category(&filter), bits & APPLICATION != 0);
        assert_eq!(press.in_category(&filter), bits & MOUSE_BUTTON_INPUT != 0);
        assert_eq!(moved.in_category(&filter), bits & MOUSE_INPUT != 0);
        assert_eq!(key.in_category(&filter), bits & KEYBOARD_INPUT != 0);
    }
}

#[test]
fn mouse_events_are_input_and_mouse_events() {
    let moved = MouseMoveEvent::new(0, 0);
    let scrolled = MouseScrolledEvent::new(0, 0);
    for event_category in [moved.event_category(), scrolled.event_category()] {
        assert!(event_category.intersects(EventCategory::single(CategoryFlag::Input)));
        assert!(event_category.intersects(EventCategory::single(CategoryFlag::Mouse)));
        assert!(!event_category.intersects(EventCategory::single(CategoryFlag::MouseButton)));
    }
}

#[test]
fn no_event_is_in_the_empty_category() {
    let none = EventCategory::none();
    assert!(!KeyPressedEvent::new(42, 3).in_category(&none));
    assert!(!KeyReleasedEvent::new(42).in_category(&none));
    assert!(!MouseMoveEvent::new(1, 2).in_category(&none));
    assert!(!MouseScrolledEvent::new(1, 2).in_category(&none));
    assert!(!MouseButtonPressedEvent::new(1).in_category(&none));
    assert!(!MouseButtonReleasedEvent::new(1).in_category(&none));
    assert!(!WindowResizeEvent::new(800, 600).in_category(&none));
    assert!(!WindowCloseEvent::new().in_category(&none));
    assert!(!AppTickEvent::new().in_category(&none));
    assert!(!AppUpdateEvent::new().in_category(&none));
    assert!(!AppRenderEvent::new().in_category(&none));
    assert!(!KeyEvent::new(1, EventType::KeyPressed).in_category(&none));
    assert!(!MouseButtonEvent::new(1, EventType::MouseButtonPressed).in_category(&none));
    assert!(!Event::new(EventType::WindowMoved, none).in_category(&none));
}

#[test]
fn a_bare_event_without_category_is_in_no_category() {
    let event = Event::new(EventType::Unspecified, EventCategory::none());
    for bits in 0x00u16..=0x1f {
        assert!(!event.in_category(&EventCategory::from_bits(bits).unwrap()));
    }
}

#[test]
fn names_are_stable() {
    let event = KeyPressedEvent::new(42, 3);
    let first = event.name().to_string();
    let second = event.name().to_string();
    assert_eq!(first, second);
    assert_eq!(KeyPressedEvent::new(1, 1).name(), first);
}

#[test]
fn names_differ_by_type() {
    let names = vec![
        Event::new(EventType::Unspecified, EventCategory::none()).name().to_string(),
        KeyEvent::new(1, EventType::KeyPressed).name().to_string(),
        KeyPressedEvent::new(1, 1).name().to_string(),
        KeyReleasedEvent::new(1).name().to_string(),
        MouseMoveEvent::new(1, 1).name().to_string(),
        MouseScrolledEvent::new(1, 1).name().to_string(),
        MouseButtonEvent::new(1, EventType::MouseButtonPressed).name().to_string(),
        MouseButtonPressedEvent::new(1).name().to_string(),
        MouseButtonReleasedEvent::new(1).name().to_string(),
        WindowResizeEvent::new(1, 1).name().to_string(),
        WindowCloseEvent::new().name().to_string(),
        AppTickEvent::new().name().to_string(),
        AppUpdateEvent::new().name().to_string(),
        AppRenderEvent::new().name().to_string(),
    ];
    for (i, left) in names.iter().enumerate() {
        for right in names.iter().skip(i + 1) {
            assert_ne!(left, right);
        }
    }
}

#[test]
fn events_start_unhandled() {
    assert!(!Event::new(EventType::WindowFocus, EventCategory::none()).handled());
    assert!(!KeyPressedEvent::new(1, 2).handled());
    assert!(!WindowCloseEvent::new().handled());
    assert!(!MouseMoveEvent::new(1, 2).handled());
}

#[test]
fn set_handled_sets_and_clears_the_mark() {
    let mut event = KeyPressedEvent::new(42, 3);
    event.set_handled(true);
    assert!(event.handled());
    event.set_handled(true);
    assert!(event.handled());
    event.set_handled(false);
    assert!(!event.handled());
}

#[test]
fn set_handled_leaves_kind_category_name_and_payload() {
    let mut pressed = KeyPressedEvent::new(42, 3);
    pressed.set_handled(true);
    assert_eq!(*pressed.event_type(), EventType::KeyPressed);
    assert_eq!(pressed.event_category().bits(), KEYBOARD_INPUT);
    assert_eq!(pressed.name(), "KeyPressedEvent");
    assert_eq!(pressed.code(), 42);
    assert_eq!(pressed.repeat_count(), 3);

    let mut resize = WindowResizeEvent::new(800, 600);
    resize.set_handled(true);
    assert_eq!(*resize.event_type(), EventType::WindowResize);
    assert_eq!(resize.width(), 800);
    assert_eq!(resize.height(), 600);

    let mut moved = MouseMoveEvent::new(7, 9);
    moved.set_handled(true);
    assert_eq!(moved.x(), 7);
    assert_eq!(moved.y(), 9);

    let mut scrolled = MouseScrolledEvent::new(7, 9);
    scrolled.set_handled(true);
    assert_eq!(scrolled.x_offset(), 7);
    assert_eq!(scrolled.y_offset(), 9);

    let mut button = MouseButtonReleasedEvent::new(2);
    button.set_handled(true);
    assert_eq!(button.code(), 2);
    assert_eq!(*button.event_type(), EventType::MouseButtonReleased);
}

#[test]
fn set_handled_on_shared_and_bare_events() {
    let mut key = KeyEvent::new(5, EventType::KeyReleased);
    key.set_handled(true);
    assert!(key.handled());
    assert_eq!(key.code(), 5);
    assert_eq!(*key.event_type(), EventType::KeyReleased);

    let mut button = MouseButtonEvent::new(6, EventType::MouseButtonPressed);
    button.set_handled(true);
    assert!(button.handled());
    assert_eq!(button.code(), 6);
    assert_eq!(*button.event_type(), EventType::MouseButtonPressed);

    let mut bare = Event::new(EventType::WindowMoved, EventCategory::single(CategoryFlag::Application));
    bare.set_handled(true);
    assert!(bare.handled());
    assert_eq!(*bare.event_type(), EventType::WindowMoved);
    assert_eq!(bare.event_category().bits(), APPLICATION);
}

#[test]
fn set_handled_on_events_without_payload() {
    let mut close = WindowCloseEvent::new();
    close.set_handled(true);
    assert!(close.handled());
    assert_eq!(*close.event_type(), EventType::WindowClose);
    let mut tick = AppTickEvent::new();
    tick.set_handled(true);
    assert!(tick.handled());
    assert_eq!(*tick.event_type(), EventType::AppTick);
    let mut update = AppUpdateEvent::new();
    update.set_handled(true);
    assert!(update.handled());
    assert_eq!(*update.event_type(), EventType::AppUpdate);
    let mut render = AppRenderEvent::new();
    render.set_handled(true);
    assert!(render.handled());
    assert_eq!(*render.event_type(), EventType::AppRender);
}

#[test]
fn equal_arguments_make_equal_events() {
    assert_eq!(KeyPressedEvent::new(42, 3), KeyPressedEvent::new(42, 3));
    assert_ne!(KeyPressedEvent::new(42, 3), KeyPressedEvent::new(42, 4));
    assert_ne!(KeyPressedEvent::new(42, 3), KeyPressedEvent::new(43, 3));
    assert_eq!(WindowResizeEvent::new(800, 600), WindowResizeEvent::new(800, 600));
    assert_ne!(WindowResizeEvent::new(800, 600), WindowResizeEvent::new(600, 800));
}
