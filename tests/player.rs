use video_scrub::buffer::Fraction;
use video_scrub::frame_clock::{FrameRate, MICROS_PER_SECOND};
use video_scrub::keys::{key_command, KeyCommand};
use video_scrub::player::{Effect, Player, HIDE_DELAY_MS, VOLUME_FULL};
use video_scrub::seek_track::{frame_at_pointer, visible_source, DragState, MediaSource};

fn ten_seconds_at_25(has_proxy: bool) -> Player {
    let mut p = Player::new(FrameRate::per_second(25).unwrap(), has_proxy);
    p.on_duration_change(Some(10 * MICROS_PER_SECOND));
    p
}

fn primary_at(micros: u64) -> Effect {
    Effect::SetTime { source: MediaSource::Primary, micros }
}

fn proxy_at(micros: u64) -> Effect {
    Effect::SetTime { source: MediaSource::Proxy, micros }
}

#[test]
fn new_player_state() {
    let p = Player::new(FrameRate::per_second(25).unwrap(), false);
    assert!(!p.is_playing());
    assert_eq!(p.current_frame(), 0);
    assert_eq!(p.end_frame(), 0);
    assert_eq!(p.drag_state(), DragState::Idle);
    assert_eq!(p.volume(), VOLUME_FULL);
    assert!(!p.is_muted());
    assert!(!p.is_fullscreen());
    assert!(!p.controls_visible());
    assert!(p.controls_shown());
    assert_eq!(p.preloaded(), Fraction { end: 0, total: 1 });
}

#[test]
fn duration_sets_end_frame() {
    let p = ten_seconds_at_25(false);
    assert_eq!(p.end_frame(), 249);
}

#[test]
fn unknown_duration_leaves_end_frame() {
    let mut p = ten_seconds_at_25(false);
    p.on_duration_change(None);
    assert_eq!(p.end_frame(), 249);
}

#[test]
fn shorter_duration_pulls_current_frame_back() {
    let mut p = ten_seconds_at_25(false);
    p.seek(200);
    p.on_duration_change(Some(4 * MICROS_PER_SECOND));
    assert_eq!(p.end_frame(), 99);
    assert_eq!(p.current_frame(), 99);
}

#[test]
fn seek_past_end_clamps_to_last_frame() {
    let mut p = ten_seconds_at_25(false);
    let effects = p.seek(1000);
    assert_eq!(p.current_frame(), 249);
    assert_eq!(effects, vec![primary_at(9_960_000)]);
}

#[test]
fn seek_moves_proxy_too() {
    let mut p = ten_seconds_at_25(true);
    let effects = p.seek(130);
    assert_eq!(p.current_frame(), 130);
    assert_eq!(effects, vec![primary_at(5_200_000), proxy_at(5_200_000)]);
}

#[test]
fn play_at_end_rewinds_first() {
    let mut p = ten_seconds_at_25(false);
    p.seek(249);
    let effects = p.play();
    assert_eq!(p.current_frame(), 0);
    assert!(p.is_playing());
    assert_eq!(effects, vec![primary_at(0), Effect::Play]);
}

#[test]
fn play_elsewhere_keeps_frame() {
    let mut p = ten_seconds_at_25(false);
    p.seek(100);
    let effects = p.play();
    assert_eq!(p.current_frame(), 100);
    assert!(p.is_playing());
    assert_eq!(effects, vec![Effect::Play]);
}

#[test]
fn pause_when_paused_is_a_redundant_pause() {
    let mut p = ten_seconds_at_25(false);
    p.seek(42);
    let effects = p.pause();
    assert!(!p.is_playing());
    assert_eq!(effects, vec![Effect::Pause]);
    let effects = p.pause();
    assert!(!p.is_playing());
    assert_eq!(effects, vec![Effect::Pause]);
    assert_eq!(p.current_frame(), 42);
}

#[test]
fn toggle_play_alternates() {
    let mut p = ten_seconds_at_25(false);
    p.seek(10);
    assert_eq!(p.toggle_play(), vec![Effect::Play]);
    assert!(p.is_playing());
    assert_eq!(p.toggle_play(), vec![Effect::Pause]);
    assert!(!p.is_playing());
}

#[test]
fn stop_rewinds() {
    let mut p = ten_seconds_at_25(true);
    p.seek(77);
    assert_eq!(p.stop(), vec![primary_at(0), proxy_at(0)]);
    assert_eq!(p.current_frame(), 0);
}

#[test]
fn ended_stops_playing_at_last_frame() {
    let mut p = ten_seconds_at_25(false);
    p.seek(3);
    p.play();
    p.on_time_tick(9_990_000);
    p.on_ended();
    assert!(!p.is_playing());
    assert_eq!(p.current_frame(), 249);
}

#[test]
fn time_tick_follows_media_clock() {
    let mut p = ten_seconds_at_25(false);
    p.on_time_tick(5_200_000);
    assert_eq!(p.current_frame(), 130);
    p.on_time_tick(60 * MICROS_PER_SECOND);
    assert_eq!(p.current_frame(), 249);
}

#[test]
fn drag_scenario_offset_5_delta_100_width_200() {
    let mut p = ten_seconds_at_25(false);
    p.on_drag_start(5, 200);
    assert_eq!(p.drag_state(), DragState::Start);
    // 5 / 200 * 250 = 6.25
    assert_eq!(p.current_frame(), 6);
    p.on_drag_move(100, 200);
    assert_eq!(p.drag_state(), DragState::Move);
    // (100 + 5) / 200 * 250 = 131.25
    assert_eq!(p.current_frame(), 131);
}

#[test]
fn drag_while_playing_pauses_and_resumes() {
    let mut p = ten_seconds_at_25(false);
    p.seek(50);
    p.play();
    let effects = p.on_drag_start(100, 200);
    assert!(!p.is_playing());
    assert_eq!(effects, vec![Effect::Pause, primary_at(5_000_000)]);
    assert_eq!(p.current_frame(), 125);
    let effects = p.on_drag_end(5_000_000);
    assert!(p.is_playing());
    assert_eq!(p.drag_state(), DragState::Idle);
    assert_eq!(effects, vec![Effect::Play]);
}

#[test]
fn drag_while_paused_stays_paused() {
    let mut p = ten_seconds_at_25(false);
    let effects = p.on_drag_start(0, 200);
    assert_eq!(effects, vec![primary_at(0)]);
    p.on_drag_move(40, 200);
    let effects = p.on_drag_end(2_000_000);
    assert!(!p.is_playing());
    assert_eq!(p.current_frame(), 50);
    assert!(effects.is_empty());
}

#[test]
fn drag_end_reseeks_when_media_stands_elsewhere() {
    let mut p = ten_seconds_at_25(true);
    p.on_drag_start(0, 200);
    p.on_drag_move(40, 200);
    assert_eq!(p.current_frame(), 50);
    let effects = p.on_drag_end(1_990_000);
    assert_eq!(effects, vec![primary_at(2_000_000), proxy_at(2_000_000)]);
    assert_eq!(p.current_frame(), 50);
}

#[test]
fn drag_end_resume_at_last_frame_rewinds() {
    let mut p = ten_seconds_at_25(false);
    p.seek(10);
    p.play();
    p.on_drag_start(0, 200);
    p.on_drag_move(500, 200);
    assert_eq!(p.current_frame(), 249);
    let effects = p.on_drag_end(9_960_000);
    assert_eq!(p.current_frame(), 0);
    assert!(p.is_playing());
    assert_eq!(effects, vec![primary_at(0), Effect::Play]);
}

#[test]
fn release_without_drag_does_nothing() {
    let mut p = ten_seconds_at_25(false);
    p.seek(20);
    let effects = p.on_drag_end(0);
    assert!(effects.is_empty());
    assert_eq!(p.current_frame(), 20);
}

#[test]
fn pointer_outside_track_stays_within_media() {
    let mut p = ten_seconds_at_25(false);
    p.on_drag_start(-30, 200);
    assert_eq!(p.current_frame(), 0);
    p.on_drag_move(1_000, 200);
    assert_eq!(p.current_frame(), 249);
    p.on_drag_move(i64::MAX, 200);
    assert_eq!(p.current_frame(), 249);
    p.on_drag_move(i64::MIN, 200);
    assert_eq!(p.current_frame(), 0);
    // the press was 30 left of the track, so the pointer stands at 230 - 30
    p.on_drag_move(230, 200);
    assert_eq!(p.current_frame(), 249);
    p.on_drag_move(200, 200);
    assert_eq!(p.current_frame(), 212);
}

#[test]
fn zero_width_track_seeks_to_start() {
    assert_eq!(frame_at_pointer(50, 0, 249), 0);
    let mut p = ten_seconds_at_25(false);
    p.seek(100);
    p.on_drag_start(50, 0);
    assert_eq!(p.current_frame(), 0);
}

#[test]
fn time_tick_ignored_during_drag() {
    let mut p = ten_seconds_at_25(false);
    p.on_drag_start(100, 200);
    p.on_time_tick(1_000_000);
    assert_eq!(p.current_frame(), 125);
    p.on_drag_move(-60, 200);
    p.on_time_tick(1_000_000);
    assert_eq!(p.current_frame(), 50);
    p.on_drag_end(2_000_000);
    p.on_time_tick(1_000_000);
    assert_eq!(p.current_frame(), 25);
}

#[test]
fn proxy_is_on_view_while_pointer_moves() {
    let mut p = ten_seconds_at_25(true);
    assert_eq!(p.visible_source(), MediaSource::Primary);
    p.on_drag_start(10, 200);
    assert_eq!(p.visible_source(), MediaSource::Primary);
    p.on_drag_move(10, 200);
    assert_eq!(p.visible_source(), MediaSource::Proxy);
    p.on_drag_end(0);
    assert_eq!(p.visible_source(), MediaSource::Primary);
    assert_eq!(visible_source(DragState::Move, false), MediaSource::Primary);
}

#[test]
fn drag_move_is_activity() {
    let mut p = ten_seconds_at_25(false);
    p.on_drag_start(0, 200);
    let effects = p.on_drag_move(8, 200);
    assert!(p.controls_visible());
    assert_eq!(
        effects,
        vec![primary_at(400_000), Effect::ScheduleHide { token: 1, delay_ms: HIDE_DELAY_MS }]
    );
}

#[test]
fn keys_step_and_toggle() {
    let mut p = ten_seconds_at_25(false);
    assert_eq!(p.handle_key("ArrowLeft"), vec![primary_at(0)]);
    assert_eq!(p.current_frame(), 0);
    p.handle_key("ArrowRight");
    p.handle_key("ArrowRight");
    assert_eq!(p.current_frame(), 2);
    p.handle_key("ArrowLeft");
    assert_eq!(p.current_frame(), 1);
    assert_eq!(p.handle_key(" "), vec![Effect::Play]);
    assert!(p.is_playing());
    assert_eq!(p.handle_key(" "), vec![Effect::Pause]);
    assert!(p.handle_key("Enter").is_empty());
    assert_eq!(p.current_frame(), 1);
}

#[test]
fn arrow_right_stops_at_last_frame() {
    let mut p = ten_seconds_at_25(false);
    p.seek(249);
    p.next_frame();
    assert_eq!(p.current_frame(), 249);
    p.previous_frame();
    assert_eq!(p.current_frame(), 248);
}

#[test]
fn key_names() {
    assert_eq!(key_command(" "), KeyCommand::TogglePlay);
    assert_eq!(key_command("ArrowLeft"), KeyCommand::PreviousFrame);
    assert_eq!(key_command("ArrowRight"), KeyCommand::NextFrame);
    assert_eq!(key_command("ArrowUp"), KeyCommand::Ignored);
    assert_eq!(key_command(""), KeyCommand::Ignored);
    assert_eq!(key_command("arrowleft"), KeyCommand::Ignored);
}

#[test]
fn mute_round_trip_restores_volume() {
    let mut p = ten_seconds_at_25(false);
    p.set_volume(650);
    assert_eq!(p.toggle_mute(), vec![Effect::SetMuted { muted: true }]);
    assert_eq!(p.volume(), 0);
    assert!(p.is_muted());
    assert_eq!(p.toggle_mute(), vec![Effect::SetMuted { muted: false }]);
    assert_eq!(p.volume(), 650);
    assert!(!p.is_muted());
}

#[test]
fn unmute_from_zero_volume_gives_full_volume() {
    let mut p = ten_seconds_at_25(false);
    let effects = p.set_volume(0);
    assert_eq!(effects, vec![Effect::SetVolume { level: 0 }, Effect::SetMuted { muted: true }]);
    assert!(p.is_muted());
    let effects = p.toggle_mute();
    assert_eq!(
        effects,
        vec![Effect::SetVolume { level: VOLUME_FULL }, Effect::SetMuted { muted: false }]
    );
    assert_eq!(p.volume(), VOLUME_FULL);
    p.toggle_mute();
    p.toggle_mute();
    assert_eq!(p.volume(), VOLUME_FULL);
}

#[test]
fn set_volume_unmutes() {
    let mut p = ten_seconds_at_25(false);
    p.toggle_mute();
    let effects = p.set_volume(300);
    assert_eq!(effects, vec![Effect::SetVolume { level: 300 }, Effect::SetMuted { muted: false }]);
    assert_eq!(p.volume(), 300);
    assert!(!p.is_muted());
}

#[test]
fn fullscreen_waits_for_the_page() {
    let mut p = ten_seconds_at_25(false);
    assert_eq!(p.toggle_fullscreen(), vec![Effect::RequestFullscreen]);
    assert!(!p.is_fullscreen());
    p.on_fullscreen_change(true);
    assert!(p.is_fullscreen());
    assert_eq!(p.toggle_fullscreen(), vec![Effect::ExitFullscreen]);
    // a refused request leaves the state as it is
    assert!(p.is_fullscreen());
    p.on_fullscreen_change(false);
    assert!(!p.is_fullscreen());
}

#[test]
fn controls_hide_after_last_activity_only() {
    let mut p = ten_seconds_at_25(false);
    p.on_fullscreen_change(true);
    assert!(!p.controls_shown());
    let first = p.on_activity();
    assert_eq!(first, vec![Effect::ScheduleHide { token: 1, delay_ms: 2000 }]);
    assert!(p.controls_shown());
    let second = p.on_activity();
    assert_eq!(second, vec![Effect::ScheduleHide { token: 2, delay_ms: 2000 }]);
    // the first timer was replaced by the second
    p.on_hide_timer(1);
    assert!(p.controls_visible());
    p.on_hide_timer(2);
    assert!(!p.controls_visible());
    assert!(!p.controls_shown());
}

#[test]
fn buffer_progress_updates_preloaded() {
    let mut p = ten_seconds_at_25(false);
    let ranges = vec![(0u64, 3_000_000u64), (5_000_000, 9_000_000)];
    p.on_buffer_progress(&ranges, 6_000_000, Some(10 * MICROS_PER_SECOND));
    assert_eq!(p.preloaded(), Fraction { end: 9_000_000, total: 10_000_000 });
    p.on_buffer_progress(&ranges, 4_000_000, Some(10 * MICROS_PER_SECOND));
    assert_eq!(p.preloaded(), Fraction { end: 9_000_000, total: 10_000_000 });
}

#[test]
fn progress_is_frame_over_frame_count() {
    let mut p = ten_seconds_at_25(false);
    p.seek(125);
    assert_eq!(p.progress(), Fraction { end: 125, total: 250 });
}
