use rltk::events::{process_events, viewport_for, Viewport, WindowEvent};
use rltk::timing::FrameTimer;

#[test]
fn fps_is_recomputed_once_per_whole_second() {
    let mut t = FrameTimer::new();
    t.tick(0, 5);
    t.tick(0, 12);
    t.tick(0, 20);
    assert_eq!((t.fps_frames, t.fps_seconds), (0, 0));
    assert_eq!(t.frames, 3);
    t.tick(1, 1001);
    assert_eq!((t.fps_frames, t.fps_seconds), (4, 1));
    assert_eq!(t.frames, 0);
    t.tick(1, 1010);
    t.tick(1, 1020);
    assert_eq!((t.fps_frames, t.fps_seconds), (4, 1));
    t.tick(3, 3000);
    assert_eq!((t.fps_frames, t.fps_seconds), (3, 2));
}

#[test]
fn frame_time_is_ms_since_last_tick() {
    let mut t = FrameTimer::new();
    t.tick(0, 16);
    assert_eq!(t.frame_time_ms, 16);
    t.tick(0, 16);
    assert_eq!(t.frame_time_ms, 16);
    t.tick(0, 49);
    assert_eq!(t.frame_time_ms, 33);
    assert_eq!(t.prev_ms, 49);
}

#[test]
fn frame_counter_saturates() {
    let mut t = FrameTimer::new();
    t.frames = u64::MAX;
    t.tick(0, 0);
    assert_eq!(t.frames, u64::MAX);
}

#[test]
fn resize_sets_viewport_exactly() {
    assert_eq!(
        viewport_for(&WindowEvent::FramebufferSize(2560, 1441)),
        Some(Viewport { x: 0, y: 0, width: 2560, height: 1441 })
    );
    assert_eq!(viewport_for(&WindowEvent::Other), None);
    let events = vec![
        WindowEvent::Other,
        WindowEvent::FramebufferSize(800, 600),
        WindowEvent::Other,
        WindowEvent::FramebufferSize(1600, 1200),
    ];
    assert_eq!(
        process_events(&events),
        vec![
            Viewport { x: 0, y: 0, width: 800, height: 600 },
            Viewport { x: 0, y: 0, width: 1600, height: 1200 },
        ]
    );
    assert!(process_events(&Vec::new()).is_empty());
}
