use scroll_focus_filter::camera::{CameraState, FilterSettings, WindowSnapshot};
use scroll_focus_filter::channel::{FilterMessage, ServerMessage};
use scroll_focus_filter::fixed::SCALE;

fn snapshot(x: i32, y: i32, width: u32, height: u32) -> WindowSnapshot {
    WindowSnapshot { x, y, width, height }
}

fn default_settings() -> FilterSettings {
    FilterSettings {
        zoom: 1_000_000,
        screen_x: 0,
        screen_y: 0,
        screen_width: 1920,
        screen_height: 1080,
        animation_time: 300_000,
    }
}

#[test]
fn new_camera_is_settled_full_view() {
    let cam = CameraState::new();
    assert_eq!(cam.current_x, 0);
    assert_eq!(cam.current_y, 0);
    assert_eq!(cam.target_x, 0);
    assert_eq!(cam.target_y, 0);
    assert_eq!(cam.current_zoom, SCALE);
    assert_eq!(cam.target_zoom, SCALE);
    assert_eq!(cam.internal_zoom, SCALE);
    assert_eq!(cam.progress, SCALE);
    assert_eq!(cam.animation_time, 300_000);
    assert_eq!(cam.screen_width, 1920);
    assert_eq!(cam.screen_height, 1080);
}

#[test]
fn unit_zoom_ceiling_keeps_full_view() {
    // Region (0,0,1920,1080), zoom ceiling 1.0: the window zoom is clamped
    // up to the full view and the pan candidate is clamped to the corner,
    // so no move starts regardless of the window's size or position.
    let mut cam = CameraState::new();
    cam.handle_snapshot(&snapshot(960, 540, 100, 100));
    assert_eq!(cam.target_zoom, SCALE);
    assert_eq!(cam.target_x, 0);
    assert_eq!(cam.target_y, 0);
    assert_eq!(cam.progress, SCALE);
}

#[test]
fn corner_window_pan_clamps_to_screen_edge() {
    // Region (0,0,1920,1080), zoom ceiling 5.0: the raw edge ratio of a
    // 100x100 window is max(100/1920, 100/1080) + 0.1, below the 0.2
    // floor, so the window zoom is exactly 0.2; the candidate pan of a
    // corner window is clamped to the screen edge.
    let mut cam = CameraState::new();
    let mut settings = default_settings();
    settings.zoom = 5_000_000;
    cam.apply_settings(&settings);
    assert_eq!(cam.internal_zoom, 200_000);
    // Move the target away from the corner first so the corner snapshot
    // provably recomputes it.
    cam.handle_snapshot(&snapshot(960, 540, 100, 100));
    assert_eq!(cam.target_x, 426_041);
    assert_eq!(cam.target_y, 446_296);
    assert_eq!(cam.target_zoom, 200_000);
    cam.handle_snapshot(&snapshot(0, 0, 100, 100));
    assert_eq!(cam.target_zoom, 200_000);
    assert_eq!(cam.target_x, 0);
    assert_eq!(cam.target_y, 0);
    assert_eq!(cam.progress, 0);
}

#[test]
fn committed_target_stays_on_screen() {
    // A centered window commits a target whose pan components leave room
    // for the crop: each lies in [0, SCALE - window_zoom].
    let mut cam = CameraState::new();
    let mut settings = default_settings();
    settings.zoom = 5_000_000;
    cam.apply_settings(&settings);
    cam.handle_snapshot(&snapshot(960, 540, 100, 100));
    assert!(0 <= cam.target_x && cam.target_x <= SCALE - cam.target_zoom);
    assert!(0 <= cam.target_y && cam.target_y <= SCALE - cam.target_zoom);
    // An oversized window is capped at the full view.
    cam.handle_snapshot(&snapshot(10, 10, 1900, 1060));
    assert_eq!(cam.target_zoom, SCALE);
    assert_eq!(cam.target_x, 0);
    assert_eq!(cam.target_y, 0);
}

#[test]
fn repeated_snapshot_does_not_reset_progress() {
    // Hysteresis: once a snapshot's destination is committed, feeding the
    // same snapshot again is a no-op and the phase keeps its value.
    let mut cam = CameraState::new();
    let mut settings = default_settings();
    settings.zoom = 5_000_000;
    cam.apply_settings(&settings);
    let snap = snapshot(960, 540, 100, 100);
    cam.handle_snapshot(&snap);
    assert_eq!(cam.progress, 0);
    cam.advance(10_000);
    assert_eq!(cam.progress, 33_334);
    let before = cam.progress;
    cam.handle_snapshot(&snap);
    assert_eq!(cam.progress, before);
    assert_eq!(cam.target_x, 426_041);
    assert_eq!(cam.target_y, 446_296);
}

#[test]
fn jitter_below_threshold_is_ignored() {
    // A one-pixel wobble of the reported geometry moves the candidate by
    // less than the 0.001 threshold and must not restart the animation.
    let mut cam = CameraState::new();
    let mut settings = default_settings();
    settings.zoom = 5_000_000;
    cam.apply_settings(&settings);
    cam.handle_snapshot(&snapshot(960, 540, 100, 100));
    cam.advance(10_000);
    let before_progress = cam.progress;
    let before_x = cam.target_x;
    cam.handle_snapshot(&snapshot(961, 540, 100, 100));
    assert_eq!(cam.progress, before_progress);
    assert_eq!(cam.target_x, before_x);
}

#[test]
fn frames_summing_to_duration_converge_exactly() {
    // Convergence: frames totalling the animation duration settle the
    // shown pan and zoom on the target exactly.
    let mut cam = CameraState::new();
    let mut settings = default_settings();
    settings.zoom = 5_000_000;
    cam.apply_settings(&settings);
    cam.handle_snapshot(&snapshot(960, 540, 100, 100));
    let mut elapsed: u64 = 0;
    while elapsed < 300_000 {
        cam.advance(10_000);
        elapsed += 10_000;
    }
    assert_eq!(cam.progress, SCALE);
    assert_eq!(cam.current_x, cam.target_x);
    assert_eq!(cam.current_y, cam.target_y);
    assert_eq!(cam.current_zoom, cam.target_zoom);
    assert_eq!(cam.current_x, 426_041);
    assert_eq!(cam.current_zoom, 200_000);
}

#[test]
fn advance_is_idempotent_once_converged() {
    let mut cam = CameraState::new();
    let mut settings = default_settings();
    settings.zoom = 5_000_000;
    cam.apply_settings(&settings);
    cam.handle_snapshot(&snapshot(960, 540, 100, 100));
    cam.advance(400_000);
    let settled = cam;
    cam.advance(1);
    assert_eq!(cam, settled);
    cam.advance(999_999_999);
    assert_eq!(cam, settled);
}

#[test]
fn one_long_frame_converges() {
    let mut cam = CameraState::new();
    let mut settings = default_settings();
    settings.zoom = 2_000_000;
    cam.apply_settings(&settings);
    cam.advance(300_000);
    assert_eq!(cam.progress, SCALE);
    assert_eq!(cam.current_zoom, 500_000);
}

#[test]
fn off_region_snapshot_mid_flight_retargets_rest() {
    // A snapshot with x beyond the region while heading to a magnified
    // target restarts the move from the shown frame toward the resting
    // view.
    let mut cam = CameraState::new();
    let mut settings = default_settings();
    settings.zoom = 5_000_000;
    cam.apply_settings(&settings);
    cam.handle_snapshot(&snapshot(960, 540, 100, 100));
    cam.advance(10_000);
    let shown_x = cam.current_x;
    let shown_zoom = cam.current_zoom;
    assert!(cam.progress > 0);
    cam.handle_snapshot(&snapshot(2000, 540, 100, 100));
    assert_eq!(cam.progress, 0);
    assert_eq!(cam.target_x, 0);
    assert_eq!(cam.target_y, 0);
    assert_eq!(cam.target_zoom, SCALE);
    assert_eq!(cam.from_x, shown_x);
    assert_eq!(cam.from_zoom, shown_zoom);
}

#[test]
fn second_off_region_snapshot_is_ignored() {
    // While already targeting the resting view, another off-region
    // snapshot neither retargets nor resets the phase.
    let mut cam = CameraState::new();
    let mut settings = default_settings();
    settings.zoom = 5_000_000;
    cam.apply_settings(&settings);
    cam.handle_snapshot(&snapshot(960, 540, 100, 100));
    cam.advance(10_000);
    cam.handle_snapshot(&snapshot(2000, 540, 100, 100));
    cam.advance(10_000);
    let progress_before = cam.progress;
    assert!(progress_before > 0);
    cam.handle_snapshot(&snapshot(-50, 540, 100, 100));
    assert_eq!(cam.progress, progress_before);
    assert_eq!(cam.target_x, 0);
    assert_eq!(cam.target_y, 0);
    assert_eq!(cam.target_zoom, SCALE);
}

#[test]
fn off_region_retargets_even_from_an_edge_pan_target() {
    // A target pinned to one screen edge has one zero pan component; that
    // is not the resting pan vector, so an off-region snapshot while
    // magnified must still retarget to the resting view.
    let mut cam = CameraState::new();
    let mut settings = default_settings();
    settings.zoom = 5_000_000;
    cam.apply_settings(&settings);
    cam.handle_snapshot(&snapshot(0, 1000, 100, 100));
    assert_eq!(cam.target_x, 0);
    assert_eq!(cam.target_y, 800_000);
    assert_eq!(cam.target_zoom, 200_000);
    cam.advance(10_000);
    assert!(cam.progress > 0);
    cam.handle_snapshot(&snapshot(-10, 540, 100, 100));
    assert_eq!(cam.progress, 0);
    assert_eq!(cam.target_x, 0);
    assert_eq!(cam.target_y, 0);
    assert_eq!(cam.target_zoom, SCALE);
}

#[test]
fn off_region_tests_only_the_origin_corner() {
    // Only the top-left corner is held against the region: a window whose
    // origin sits inside counts as on-region even if its body leaves the
    // screen, and one whose origin sits outside counts as off-region even
    // if its body covers the screen.
    let mut cam = CameraState::new();
    let mut settings = default_settings();
    settings.zoom = 5_000_000;
    cam.apply_settings(&settings);
    cam.handle_snapshot(&snapshot(960, 540, 100, 100));
    cam.advance(10_000);
    // Origin inside, body reaching far off screen: treated as on-region.
    cam.handle_snapshot(&snapshot(1900, 1000, 3000, 3000));
    assert_eq!(cam.target_zoom, SCALE);
    assert_eq!(cam.progress, 0);
    // Origin on the boundary is still on-region (strict comparisons).
    cam.handle_snapshot(&snapshot(1920, 0, 100, 100));
    assert_ne!(cam.progress, SCALE);
}

#[test]
fn settings_are_clamped_to_their_bounds() {
    let mut cam = CameraState::new();
    let settings = FilterSettings {
        zoom: 99_000_000,
        screen_x: -5,
        screen_y: 999_999,
        screen_width: 0,
        screen_height: 99_999,
        animation_time: 1,
    };
    cam.apply_settings(&settings);
    assert_eq!(cam.internal_zoom, 200_000);
    assert_eq!(cam.target_zoom, 200_000);
    assert_eq!(cam.screen_x, 0);
    assert_eq!(cam.screen_y, 11_520);
    assert_eq!(cam.screen_width, 1);
    assert_eq!(cam.screen_height, 11_520);
    assert_eq!(cam.animation_time, 300_000);

    let low = FilterSettings { zoom: 0, ..default_settings() };
    cam.apply_settings(&low);
    assert_eq!(cam.internal_zoom, SCALE);
    assert_eq!(cam.target_zoom, SCALE);
}

#[test]
fn zoom_setting_change_keeps_phase() {
    // A zoom-ceiling change redirects the zoom tween from the shown zoom
    // without resetting the phase: a settled tween snaps on the next
    // frame.
    let mut cam = CameraState::new();
    assert_eq!(cam.progress, SCALE);
    let mut settings = default_settings();
    settings.zoom = 4_000_000;
    cam.apply_settings(&settings);
    assert_eq!(cam.progress, SCALE);
    assert_eq!(cam.from_zoom, SCALE);
    assert_eq!(cam.target_zoom, 250_000);
    cam.advance(10_000);
    assert_eq!(cam.current_zoom, 250_000);
}

#[test]
fn video_tick_drains_queued_snapshots_in_order() {
    let (send, receive) = crossbeam_channel::unbounded::<ServerMessage>();
    let mut cam = CameraState::new();
    let mut settings = default_settings();
    settings.zoom = 5_000_000;
    cam.apply_settings(&settings);
    send.send(ServerMessage::Snapshot(snapshot(960, 540, 100, 100))).unwrap();
    send.send(ServerMessage::Snapshot(snapshot(0, 0, 100, 100))).unwrap();
    cam.video_tick(&receive, 10_000);
    // The later snapshot decided the target: the corner window.
    assert_eq!(cam.target_x, 0);
    assert_eq!(cam.target_y, 0);
    assert_eq!(cam.target_zoom, 200_000);
    assert_eq!(cam.progress, 33_334);
    // The channel was drained to exhaustion.
    assert!(receive.is_empty());
}

#[test]
fn shutdown_message_reaches_the_watcher_side() {
    // The reverse channel carries the close request; a send after the
    // receiver is gone is the normal shutdown race and must not panic.
    let (send, receive) = crossbeam_channel::unbounded::<FilterMessage>();
    send.send(FilterMessage::CloseConnection).unwrap();
    assert!(matches!(receive.try_recv(), Ok(FilterMessage::CloseConnection)));
    drop(receive);
    let late = send.send(FilterMessage::CloseConnection);
    assert!(late.is_err());
    late.unwrap_or(());
}

#[test]
fn video_tick_on_empty_channel_only_advances() {
    let (_send, receive) = crossbeam_channel::unbounded::<ServerMessage>();
    let mut cam = CameraState::new();
    let mut settings = default_settings();
    settings.zoom = 5_000_000;
    cam.apply_settings(&settings);
    cam.handle_snapshot(&snapshot(960, 540, 100, 100));
    cam.video_tick(&receive, 300_000);
    assert_eq!(cam.progress, SCALE);
    assert_eq!(cam.current_x, cam.target_x);
    assert_eq!(cam.current_zoom, 200_000);
}

#[test]
fn video_tick_sees_snapshots_sent_through_a_cloned_sender() {
    // The watcher owns its own clone of the sender; whatever it queued
    // before the frame is visible to the drain.
    let (send, receive) = crossbeam_channel::unbounded::<ServerMessage>();
    let watcher_send = send.clone();
    drop(send);
    watcher_send
        .send(ServerMessage::Snapshot(snapshot(960, 540, 100, 100)))
        .unwrap();
    let mut cam = CameraState::new();
    let mut settings = default_settings();
    settings.zoom = 5_000_000;
    cam.apply_settings(&settings);
    cam.video_tick(&receive, 10_000);
    assert_eq!(cam.target_x, 426_041);
    assert_eq!(cam.target_y, 446_296);
}

#[test]
fn partial_advance_interpolates_between_from_and_target() {
    let mut cam = CameraState::new();
    let mut settings = default_settings();
    settings.zoom = 5_000_000;
    cam.apply_settings(&settings);
    cam.handle_snapshot(&snapshot(960, 540, 100, 100));
    cam.advance(10_000);
    // progress 33334, eased 3259 millionths: the shown frame has moved a
    // small exact step toward the target.
    assert_eq!(cam.progress, 33_334);
    assert_eq!(cam.current_x, 1_388);
    assert_eq!(cam.current_y, 1_454);
    assert_eq!(cam.current_zoom, 997_392);
}

#[test]
fn shown_crop_stays_on_screen_throughout_a_move() {
    // Mid-flight, pan plus zoom never exceed the full edge length: the
    // crop never frames outside the screen.
    let mut cam = CameraState::new();
    let mut settings = default_settings();
    settings.zoom = 5_000_000;
    cam.apply_settings(&settings);
    cam.handle_snapshot(&snapshot(1800, 1000, 100, 100));
    let mut frame = 0;
    while frame < 40 {
        cam.advance(10_000);
        assert!(cam.current_x + cam.current_zoom <= SCALE);
        assert!(cam.current_y + cam.current_zoom <= SCALE);
        assert!(cam.current_x >= 0 && cam.current_y >= 0);
        frame += 1;
    }
}
