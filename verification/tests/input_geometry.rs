use render_core::geometry::{triangle_for, Frac};
use render_core::input::{LocalState, UserInput, WindowEventKind};

#[test]
fn polling_folds_events_latest_wins() {
    let events = vec![
        WindowEventKind::CursorMoved(10, 20),
        WindowEventKind::Resized(800, 600),
        WindowEventKind::Other,
        WindowEventKind::CursorMoved(30, 40),
    ];
    let input = UserInput::poll_events_loop(&events);
    assert!(!input.end_requested);
    assert_eq!(input.new_frame_size, Some((800, 600)));
    assert_eq!(input.new_mouse_position, Some((30, 40)));
}

#[test]
fn polling_latches_close_request() {
    let events = vec![WindowEventKind::CloseRequested, WindowEventKind::Other];
    let input = UserInput::poll_events_loop(&events);
    assert!(input.end_requested);
    assert_eq!(input.new_frame_size, None);
    assert_eq!(input.new_mouse_position, None);
}

#[test]
fn polling_no_events_reports_nothing() {
    let input = UserInput::poll_events_loop(&vec![]);
    assert_eq!(input, UserInput::default());
}

#[test]
fn local_state_takes_over_reported_values() {
    let mut local = LocalState { frame_width: 400, frame_height: 300, mouse_x: 0, mouse_y: 0 };
    let input = UserInput {
        end_requested: false,
        new_frame_size: Some((800, 600)),
        new_mouse_position: None,
    };
    local.update_from_input(&input);
    assert_eq!(local.frame_width, 800);
    assert_eq!(local.frame_height, 600);
    assert_eq!(local.mouse_x, 0);
    assert_eq!(local.mouse_y, 0);

    let input = UserInput {
        end_requested: false,
        new_frame_size: None,
        new_mouse_position: Some((123, 45)),
    };
    local.update_from_input(&input);
    assert_eq!(local.frame_width, 800);
    assert_eq!(local.mouse_x, 123);
    assert_eq!(local.mouse_y, 45);
}

#[test]
fn pointer_at_center_gives_half_half_vertex() {
    // pointer at (200, 150) inside a 400x300 frame: normalized (0.5, 0.5)
    let local = LocalState { frame_width: 400, frame_height: 300, mouse_x: 200, mouse_y: 150 };
    let t = triangle_for(&local);
    let third = t.points[2];
    assert!(third.x.same_value(&Frac { num: 1, den: 2 }));
    assert!(third.y.same_value(&Frac { num: 1, den: 2 }));
    assert_eq!(third.x.num, 200);
    assert_eq!(third.x.den, 400);
    assert_eq!(third.y.num, 150);
    assert_eq!(third.y.den, 300);
}

#[test]
fn fixed_vertices_sit_at_minus_half() {
    let local = LocalState { frame_width: 400, frame_height: 300, mouse_x: 0, mouse_y: 0 };
    let t = triangle_for(&local);
    assert_eq!(t.points[0].x, Frac { num: -1, den: 2 });
    assert_eq!(t.points[0].y, Frac { num: 1, den: 2 });
    assert_eq!(t.points[1].x, Frac { num: -1, den: 2 });
    assert_eq!(t.points[1].y, Frac { num: -1, den: 2 });
}

#[test]
fn points_flat_lays_out_x_before_y() {
    let local = LocalState { frame_width: 400, frame_height: 300, mouse_x: 40, mouse_y: 30 };
    let t = triangle_for(&local);
    let flat = t.points_flat();
    assert_eq!(flat[0], t.points[0].x);
    assert_eq!(flat[1], t.points[0].y);
    assert_eq!(flat[2], t.points[1].x);
    assert_eq!(flat[3], t.points[1].y);
    assert_eq!(flat[4], t.points[2].x);
    assert_eq!(flat[5], t.points[2].y);
}

#[test]
fn fraction_equality_is_by_value() {
    assert!(Frac { num: 1, den: 2 }.same_value(&Frac { num: 2, den: 4 }));
    assert!(Frac { num: -1, den: 2 }.same_value(&Frac { num: -2, den: 4 }));
    assert!(!Frac { num: 1, den: 2 }.same_value(&Frac { num: 1, den: 3 }));
    assert!(Frac { num: 0, den: 1 }.same_value(&Frac { num: 0, den: 7 }));
}
