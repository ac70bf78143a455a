use gain_plugin::editor::EditorLifecycle;
use gain_plugin::editor::WINDOW_HEIGHT;
use gain_plugin::editor::WINDOW_WIDTH;

#[test]
fn open_close_state_machine() {
    let mut e = EditorLifecycle::new();
    assert!(!e.is_open());

    // A detached editor opens, and reports so.
    assert!(e.open(7));
    assert!(e.is_open());

    // A second open is a reported failure that leaves the state unchanged.
    assert!(!e.open(8));
    assert!(e.is_open());

    // Close hands back the surface that was attached, never the rejected one.
    assert_eq!(e.close(), Some(7));
    assert!(!e.is_open());

    // Closing while already detached is a no-op.
    assert_eq!(e.close(), None);
    assert!(!e.is_open());
}

#[test]
fn reopen_after_close() {
    let mut e = EditorLifecycle::new();
    assert!(e.open(1));
    assert_eq!(e.close(), Some(1));
    assert!(e.open(2));
    assert_eq!(e.close(), Some(2));
}

#[test]
fn fixed_geometry() {
    let e = EditorLifecycle::new();
    assert_eq!(e.position(), (0, 0));
    assert_eq!(e.size(), (WINDOW_WIDTH, WINDOW_HEIGHT));
    assert_eq!(e.size(), (1024, 512));
}
