use leptos_use::{
    mouse_listener_options, use_mouse, use_mouse_with_options, ListenerAction, ListenerOptions,
    MouseEventData, MouseEventKind, PointerEvent, Position, TargetId, TouchData,
    UseMouseCoordType, UseMouseEventExtractorDefault, UseMouseOptions,
    UseMouseReturn, UseMouseSourceType,
};

type Coord = UseMouseCoordType<UseMouseEventExtractorDefault>;

fn mouse(page: (i32, i32), client: (i32, i32), screen: (i32, i32), movement: (i32, i32)) -> MouseEventData {
    MouseEventData {
        page_x: page.0,
        page_y: page.1,
        client_x: client.0,
        client_y: client.1,
        screen_x: screen.0,
        screen_y: screen.1,
        movement_x: movement.0,
        movement_y: movement.1,
    }
}

fn touch(page: (i32, i32), client: (i32, i32), screen: (i32, i32)) -> TouchData {
    TouchData {
        page_x: page.0,
        page_y: page.1,
        client_x: client.0,
        client_y: client.1,
        screen_x: screen.0,
        screen_y: screen.1,
    }
}

fn state(x: i32, y: i32, source_type: UseMouseSourceType) -> UseMouseReturn {
    UseMouseReturn { x, y, source_type }
}

fn defaults() -> UseMouseOptions<UseMouseEventExtractorDefault> {
    UseMouseOptions::default()
}

#[test]
fn initial_state_is_unset_at_origin() {
    let m = use_mouse();
    assert_eq!(m.state(), state(0, 0, UseMouseSourceType::Unset));
    let m = use_mouse_with_options(defaults().initial_value(Position { x: 3, y: -4 }));
    assert_eq!(m.state(), state(3, -4, UseMouseSourceType::Unset));
}

#[test]
fn mouse_move_with_page_strategy() {
    let mut m = use_mouse();
    m.handle_event(&PointerEvent::MouseMove(mouse((12, 34), (1, 2), (3, 4), (5, 6))));
    assert_eq!(m.state(), state(12, 34, UseMouseSourceType::Mouse));
}

#[test]
fn drag_over_counts_as_mouse() {
    let mut m = use_mouse_with_options(defaults().coord_type(Coord::Client));
    m.handle_event(&PointerEvent::DragOver(mouse((12, 34), (1, 2), (3, 4), (5, 6))));
    assert_eq!(m.state(), state(1, 2, UseMouseSourceType::Mouse));
}

#[test]
fn touch_move_with_client_strategy() {
    let mut m = use_mouse_with_options(defaults().coord_type(Coord::Client));
    m.handle_event(&PointerEvent::TouchMove(vec![touch((50, 60), (5, 6), (7, 8))]));
    assert_eq!(m.state(), state(5, 6, UseMouseSourceType::Touch));
}

#[test]
fn touch_reads_first_touch_only() {
    let mut m = use_mouse();
    m.handle_event(&PointerEvent::TouchStart(vec![
        touch((1, 2), (0, 0), (0, 0)),
        touch((9, 9), (0, 0), (0, 0)),
    ]));
    assert_eq!(m.state(), state(1, 2, UseMouseSourceType::Touch));
}

#[test]
fn touch_without_touches_changes_nothing() {
    let mut m = use_mouse();
    m.handle_event(&PointerEvent::TouchMove(vec![]));
    assert_eq!(m.state(), state(0, 0, UseMouseSourceType::Unset));
}

#[test]
fn screen_strategy_reads_screen_coordinates() {
    let mut m = use_mouse_with_options(defaults().coord_type(Coord::Screen));
    m.handle_event(&PointerEvent::MouseMove(mouse((1, 2), (3, 4), (5, 6), (7, 8))));
    assert_eq!(m.state(), state(5, 6, UseMouseSourceType::Mouse));
    m.handle_event(&PointerEvent::TouchStart(vec![touch((1, 2), (3, 4), (11, 12))]));
    assert_eq!(m.state(), state(11, 12, UseMouseSourceType::Touch));
}

#[test]
fn touch_disabled_ignores_touch_start() {
    let mut m = use_mouse_with_options(defaults().touch(false));
    m.handle_event(&PointerEvent::MouseMove(mouse((7, 8), (0, 0), (0, 0), (0, 0))));
    m.handle_event(&PointerEvent::TouchStart(vec![touch((1, 2), (3, 4), (5, 6))]));
    assert_eq!(m.state(), state(7, 8, UseMouseSourceType::Mouse));
}

#[test]
fn touch_end_resets_to_initial_value() {
    let mut m = use_mouse_with_options(defaults().reset_on_touch_ends(true));
    m.handle_event(&PointerEvent::TouchStart(vec![touch((10, 20), (0, 0), (0, 0))]));
    assert_eq!(m.state(), state(10, 20, UseMouseSourceType::Touch));
    m.handle_event(&PointerEvent::TouchEnd);
    assert_eq!(m.state(), state(0, 0, UseMouseSourceType::Touch));
}

#[test]
fn touch_end_without_reset_changes_nothing() {
    let mut m = use_mouse();
    m.handle_event(&PointerEvent::TouchStart(vec![touch((10, 20), (0, 0), (0, 0))]));
    m.handle_event(&PointerEvent::TouchEnd);
    assert_eq!(m.state(), state(10, 20, UseMouseSourceType::Touch));
}

#[test]
fn movement_strategy_ignores_touch() {
    let opts = defaults().coord_type(Coord::Movement).reset_on_touch_ends(true);
    let mut m = use_mouse_with_options(opts);
    m.handle_event(&PointerEvent::MouseMove(mouse((1, 2), (3, 4), (5, 6), (-2, 3))));
    assert_eq!(m.state(), state(-2, 3, UseMouseSourceType::Mouse));
    m.handle_event(&PointerEvent::TouchStart(vec![touch((1, 2), (3, 4), (5, 6))]));
    m.handle_event(&PointerEvent::TouchMove(vec![touch((1, 2), (3, 4), (5, 6))]));
    m.handle_event(&PointerEvent::TouchEnd);
    assert_eq!(m.state(), state(-2, 3, UseMouseSourceType::Mouse));
}

#[test]
fn setters_override_coordinates_only() {
    let mut m = use_mouse();
    m.handle_event(&PointerEvent::MouseMove(mouse((12, 34), (0, 0), (0, 0), (0, 0))));
    m.set_x(100);
    m.set_y(-100);
    assert_eq!(m.state(), state(100, -100, UseMouseSourceType::Mouse));
}

#[test]
fn listened_events_follow_options() {
    assert_eq!(use_mouse().listened_events(), vec![MouseEventKind::MouseMove, MouseEventKind::DragOver, MouseEventKind::TouchStart, MouseEventKind::TouchMove]);
    let m = use_mouse_with_options(defaults().reset_on_touch_ends(true));
    assert_eq!(m.listened_events(), vec![MouseEventKind::MouseMove, MouseEventKind::DragOver, MouseEventKind::TouchStart, MouseEventKind::TouchMove, MouseEventKind::TouchEnd]);
    let m = use_mouse_with_options(defaults().touch(false).reset_on_touch_ends(true));
    assert_eq!(m.listened_events(), vec![MouseEventKind::MouseMove, MouseEventKind::DragOver]);
    let m = use_mouse_with_options(defaults().coord_type(Coord::Movement));
    assert_eq!(m.listened_events(), vec![MouseEventKind::MouseMove, MouseEventKind::DragOver]);
}

#[test]
fn bind_listeners_registers_passively_on_target() {
    let m = use_mouse_with_options(defaults().target(TargetId(9)));
    let bound = m.bind_listeners();
    assert_eq!(bound.len(), 4);
    let passive = ListenerOptions { passive: true, capture: false };
    assert_eq!(mouse_listener_options(), passive);
    for (i, (kind, binding, actions)) in bound.iter().enumerate() {
        assert_eq!(*kind, m.listened_events()[i]);
        assert_eq!(binding.current_target(), Some(TargetId(9)));
        assert_eq!(*actions, vec![ListenerAction::Register(TargetId(9), passive)]);
    }
}

#[test]
fn custom_extractor_without_mappings_reports_nothing() {
    let custom = UseMouseCoordType::Custom(UseMouseEventExtractorDefault);
    let mut m = use_mouse_with_options(defaults().coord_type(custom).reset_on_touch_ends(true));
    m.handle_event(&PointerEvent::MouseMove(mouse((10, 10), (15, 30), (0, 0), (0, 0))));
    m.handle_event(&PointerEvent::TouchStart(vec![touch((1, 2), (3, 4), (5, 6))]));
    assert_eq!(m.state(), state(0, 0, UseMouseSourceType::Unset));
    assert_eq!(m.listened_events().len(), 5);
}
