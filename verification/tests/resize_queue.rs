use nih_plug_slint::window_handler::WindowHandler;

#[test]
fn empty_queue_gives_nothing() {
    let mut pending: Vec<(u32, u32)> = Vec::new();
    assert_eq!(WindowHandler::process_pending_resizes(&mut pending), None);
    assert!(pending.is_empty());
}

#[test]
fn latest_resize_wins_and_queue_is_cleared() {
    let mut pending: Vec<(u32, u32)> = Vec::new();
    WindowHandler::queue_resize(&mut pending, 800, 600);
    WindowHandler::queue_resize(&mut pending, 1024, 768);
    WindowHandler::queue_resize(&mut pending, 640, 480);
    assert_eq!(pending, vec![(800, 600), (1024, 768), (640, 480)]);
    assert_eq!(WindowHandler::process_pending_resizes(&mut pending), Some((640, 480)));
    assert!(pending.is_empty());
    assert_eq!(WindowHandler::process_pending_resizes(&mut pending), None);
}

#[test]
fn single_queued_resize_is_applied() {
    let mut pending: Vec<(u32, u32)> = Vec::new();
    WindowHandler::queue_resize(&mut pending, 800, 600);
    assert_eq!(WindowHandler::process_pending_resizes(&mut pending), Some((800, 600)));
}

#[test]
fn requests_pushed_directly_are_processed() {
    let mut pending: Vec<(u32, u32)> = vec![(1, 2), (3, 4)];
    assert_eq!(WindowHandler::process_pending_resizes(&mut pending), Some((3, 4)));
    assert!(pending.is_empty());
}
