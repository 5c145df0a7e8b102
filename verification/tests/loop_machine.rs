use runcat::color::ColorMode;
use runcat::event::MouseButton;
use runcat::event::MouseButtonState;
use runcat::event::TrayEvent;
use runcat::state::LoopState;

const QUIT_ID: u64 = 1;

fn left_down() -> Option<TrayEvent> {
    Some(TrayEvent::Click { button: MouseButton::Left, button_state: MouseButtonState::Down })
}

#[test]
fn initial_state() {
    let s = LoopState::new(0, QUIT_ID);
    assert_eq!(s.frame_index, 0);
    assert_eq!(s.interval_us, 200_000);
    assert_eq!(s.color, ColorMode::Dark);
    assert!(!s.exited);
}

#[test]
fn no_advance_before_interval() {
    let mut s = LoopState::new(0, QUIT_ID);
    let out = s.tick(200, 0, None, None);
    assert!(out.icon.is_none());
    assert!(out.tooltip.is_none());
    assert_eq!(s.frame_index, 0);
}

#[test]
fn advance_after_interval() {
    let mut s = LoopState::new(0, QUIT_ID);
    let out = s.tick(201, 5_000, None, None);
    let icon = out.icon.expect("a frame advance was due");
    assert_eq!(icon.index, 0);
    assert_eq!(icon.color, ColorMode::Dark);
    assert_eq!(out.tooltip.as_deref(), Some("CPU: 50.00%"));
    assert_eq!(s.frame_index, 1);
    assert_eq!(s.interval_us, 20_000);
    assert_eq!(s.last_frame_update_ms, 201);
}

#[test]
fn end_to_end_idle_second_cycles_dark_frames() {
    // Usage stays at 0% while the scheduler wakes every 16 ms: the interval
    // stays at 200 ms, so qualifying ticks come at 208, 416, 624, 832 and
    // 1040 ms, showing the five dark frames; the sixth qualifying tick wraps
    // back to frame 0.
    let mut s = LoopState::new(0, QUIT_ID);
    let mut shown: Vec<usize> = Vec::new();
    let mut now = 0u64;
    while shown.len() < 6 {
        now += 16;
        let out = s.tick(now, 0, None, None);
        assert_eq!(s.interval_us, 200_000);
        if let Some(icon) = out.icon {
            assert_eq!(icon.color, ColorMode::Dark);
            shown.push(icon.index);
            if shown.len() == 5 {
                assert!(now <= 1_056, "five frames fit in about one second");
            }
        }
        assert!(!out.quit);
    }
    assert_eq!(shown, vec![0, 1, 2, 3, 4, 0]);
}

#[test]
fn left_down_toggles_each_time() {
    let mut s = LoopState::new(0, QUIT_ID);
    s.tick(1, 0, None, left_down());
    assert_eq!(s.color, ColorMode::Light);
    s.tick(2, 0, None, left_down());
    assert_eq!(s.color, ColorMode::Dark);
    s.tick(3, 0, None, left_down());
    assert_eq!(s.color, ColorMode::Light);
    s.tick(4, 0, None, left_down());
    assert_eq!(s.color, ColorMode::Dark);
}

#[test]
fn other_clicks_never_toggle() {
    let mut s = LoopState::new(0, QUIT_ID);
    s.tick(
        1,
        0,
        None,
        Some(TrayEvent::Click {
            button: MouseButton::Right,
            button_state: MouseButtonState::Down,
        }),
    );
    assert_eq!(s.color, ColorMode::Dark);
    s.tick(
        2,
        0,
        None,
        Some(TrayEvent::Click { button: MouseButton::Left, button_state: MouseButtonState::Up }),
    );
    assert_eq!(s.color, ColorMode::Dark);
    s.tick(
        3,
        0,
        None,
        Some(TrayEvent::Click {
            button: MouseButton::Middle,
            button_state: MouseButtonState::Down,
        }),
    );
    assert_eq!(s.color, ColorMode::Dark);
    s.tick(4, 0, None, Some(TrayEvent::Other));
    assert_eq!(s.color, ColorMode::Dark);
    s.tick(5, 0, None, None);
    assert_eq!(s.color, ColorMode::Dark);
}

#[test]
fn quit_stops_on_the_same_tick_and_stays_stopped() {
    let mut s = LoopState::new(0, QUIT_ID);
    let out = s.tick(10, 0, Some(QUIT_ID), None);
    assert!(out.quit);
    assert!(s.exited);
    // Even though far more than the interval has passed, an exited loop
    // pushes nothing and asks for nothing.
    let after = s.tick(10_000, 9_900, None, left_down());
    assert!(after.quit);
    assert!(after.icon.is_none());
    assert!(after.tooltip.is_none());
    assert!(!after.refresh_cpu);
    assert_eq!(s.color, ColorMode::Dark);
    assert_eq!(s.frame_index, 0);
}

#[test]
fn other_menu_ids_do_not_quit() {
    let mut s = LoopState::new(0, QUIT_ID);
    let out = s.tick(10, 0, Some(QUIT_ID + 1), None);
    assert!(!out.quit);
    assert!(!s.exited);
}

#[test]
fn stored_index_rests_at_frame_count_for_one_tick() {
    // Frames are advanced at 300 ms steps with the interval pinned at the
    // slowest rate; after five advances the stored index rests at 5 until the
    // wrap check of the sixth advance pulls it back through 0.
    let mut s = LoopState::new(0, QUIT_ID);
    for k in 1..=5u64 {
        let out = s.tick(300 * k, 0, None, None);
        assert!(out.icon.is_some());
    }
    assert_eq!(s.frame_index, 5);
    let out = s.tick(1_800, 0, None, None);
    assert_eq!(out.icon.expect("due").index, 0);
    assert_eq!(s.frame_index, 1);
}

#[test]
fn cpu_refresh_has_its_own_cadence() {
    let mut s = LoopState::new(0, QUIT_ID);
    let out = s.tick(3_000, 0, None, None);
    assert!(!out.refresh_cpu);
    let out = s.tick(3_001, 0, None, None);
    assert!(out.refresh_cpu);
    assert_eq!(s.last_cpu_sample_ms, 3_001);
    let out = s.tick(6_001, 0, None, None);
    assert!(!out.refresh_cpu);
    let out = s.tick(6_002, 0, None, None);
    assert!(out.refresh_cpu);
}
