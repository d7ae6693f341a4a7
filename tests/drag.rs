use eye_rest::drag::{DragController, Point, ScreenPoint};

#[test]
fn drag_moves_window_by_pointer_delta() {
    let mut d = DragController::new();
    d.start_window_drag(Point { x: 100, y: 100 }, Point { x: 10, y: 10 });
    assert!(d.is_dragging());
    let p = d.update_window_drag(Point { x: 100, y: 100 }, Point { x: 15, y: 20 });
    assert_eq!(p, Some(ScreenPoint { x: 105, y: 110 }));
}

#[test]
fn drag_follows_window_that_already_moved() {
    let mut d = DragController::new();
    d.start_window_drag(Point { x: 100, y: 100 }, Point { x: 10, y: 10 });
    let p = d.update_window_drag(Point { x: 105, y: 110 }, Point { x: 10, y: 10 });
    assert_eq!(p, Some(ScreenPoint { x: 105, y: 110 }));
}

#[test]
fn drag_update_without_anchor_is_noop() {
    let mut d = DragController::new();
    assert_eq!(d.update_window_drag(Point { x: 1, y: 2 }, Point { x: 3, y: 4 }), None);
    d.start_window_drag(Point { x: 0, y: 0 }, Point { x: 1, y: 1 });
    d.end_window_drag();
    assert!(!d.is_dragging());
    assert_eq!(d.update_window_drag(Point { x: 1, y: 2 }, Point { x: 3, y: 4 }), None);
}

#[test]
fn drag_at_coordinate_extremes() {
    let mut d = DragController::new();
    d.start_window_drag(Point { x: i32::MAX, y: i32::MIN }, Point { x: i32::MAX, y: i32::MIN });
    let p = d.update_window_drag(Point { x: i32::MIN, y: i32::MAX }, Point { x: i32::MIN, y: i32::MAX });
    assert_eq!(
        p,
        Some(ScreenPoint {
            x: i32::MAX as i64 + (2 * i32::MIN as i64 - 2 * i32::MAX as i64),
            y: i32::MIN as i64 + (2 * i32::MAX as i64 - 2 * i32::MIN as i64),
        })
    );
}
