//! The playback controller: the single owner of the player's state.
//!
//! Each command or notification updates the state and returns the effects,
//! in order, that the media elements and the page must carry out. The
//! controller never waits for them: what the page reports back comes in as a
//! further notification.
use crate::buffer::{preloaded, spec_preloaded, Fraction, TimeRange};
use crate::frame_clock::{
    clamp_frame, end_frame_for_duration, frame_from_time, spec_end_frame, spec_frame_from_time,
    spec_time_from_frame, time_from_frame, time_of_frame_fits, FrameRate,
};
use crate::keys::{key_command, spec_key_command, KeyCommand};
use crate::seek_track::{
    frame_at_pointer, spec_pointer_frame, spec_visible_source, visible_source, DragState,
    MediaSource,
};
use vstd::arithmetic::div_mod::lemma_div_is_ordered;
use vstd::arithmetic::mul::lemma_mul_inequality;
use vstd::prelude::*;

verus! {

/// The volume level of full loudness; levels are thousandths of it.
pub const VOLUME_FULL: u32 = 1000;

/// How long the controls stay on view after the last pointer activity.
pub const HIDE_DELAY_MS: u64 = 2000;

/// Something the page must do for the controller.
#[derive(Clone, Copy, Debug, PartialEq, Eq, Structural)]
pub enum Effect {
    /// Start playback of the primary media element.
    Play,
    /// Pause the primary media element.
    Pause,
    /// Set the playback position of a media element, in microseconds.
    SetTime { source: MediaSource, micros: u64 },
    /// Set the volume level of the primary media element.
    SetVolume { level: u32 },
    /// Mute or unmute the primary media element.
    SetMuted { muted: bool },
    /// Ask for the player's container to be shown full screen.
    RequestFullscreen,
    /// Ask to leave full screen.
    ExitFullscreen,
    /// Call `on_hide_timer(token)` after `delay_ms` milliseconds, unless a
    /// later effect of this kind replaces the call.
    ScheduleHide { token: u64, delay_ms: u64 },
}

/// The state of a player.
pub struct Player {
    rate: FrameRate,
    has_proxy: bool,
    playing: bool,
    frame: u64,
    end_frame: u64,
    drag: DragState,
    drag_offset: i64,
    resume_after_drag: bool,
    preload: Fraction,
    volume: u32,
    stored_volume: u32,
    muted: bool,
    fullscreen: bool,
    controls_visible: bool,
    hide_token: u64,
}

/// The state of a player, as the contracts speak of it.
pub struct PlayerView {
    /// The frame rate of the media.
    pub rate: FrameRate,
    /// Whether a proxy source is configured.
    pub has_proxy: bool,
    /// Whether playback is on.
    pub playing: bool,
    /// The current frame.
    pub frame: nat,
    /// The last frame of the media.
    pub end_frame: nat,
    /// The drag state of the seek track.
    pub drag: DragState,
    /// Where on the track the pointer was pressed.
    pub drag_offset: int,
    /// Whether playback was on when the drag began.
    pub resume_after_drag: bool,
    /// The buffered fraction.
    pub preload: Fraction,
    /// The volume level shown: 0 while muted.
    pub volume: nat,
    /// The volume level of the media element, kept while muted.
    pub stored_volume: nat,
    /// Whether the sound is off.
    pub muted: bool,
    /// Whether the container is full screen, as last reported.
    pub fullscreen: bool,
    /// Whether the controls are on view.
    pub controls_visible: bool,
    /// The token of the latest hide timer.
    pub hide_token: nat,
}

impl View for Player {
    type V = PlayerView;

    closed spec fn view(&self) -> PlayerView {
        PlayerView {
            rate: self.rate,
            has_proxy: self.has_proxy,
            playing: self.playing,
            frame: self.frame as nat,
            end_frame: self.end_frame as nat,
            drag: self.drag,
            drag_offset: self.drag_offset as int,
            resume_after_drag: self.resume_after_drag,
            preload: self.preload,
            volume: self.volume as nat,
            stored_volume: self.stored_volume as nat,
            muted: self.muted,
            fullscreen: self.fullscreen,
            controls_visible: self.controls_visible,
            hide_token: self.hide_token as nat,
        }
    }
}

/// The effects that move both media elements to the time of `frame`: the
/// primary one, then the proxy if there is one.
pub open spec fn set_time_effects(frame: int, rate: FrameRate, has_proxy: bool) -> Seq<Effect> {
    let micros = spec_time_from_frame(frame, rate) as u64;
    let primary = seq![Effect::SetTime { source: MediaSource::Primary, micros }];
    if has_proxy {
        primary.push(Effect::SetTime { source: MediaSource::Proxy, micros })
    } else {
        primary
    }
}

impl PlayerView {
    /// The invariant of a player.
    pub open spec fn wf(self) -> bool {
        &&& self.rate.valid()
        &&& self.frame <= self.end_frame
        &&& time_of_frame_fits(self.end_frame as int, self.rate)
        &&& self.end_frame < u64::MAX
        &&& i64::MIN <= self.drag_offset <= i64::MAX
        &&& self.preload.wf()
        &&& self.volume <= VOLUME_FULL
        &&& self.stored_volume <= VOLUME_FULL
        &&& self.muted <==> self.volume == 0
        &&& !self.muted ==> self.volume == self.stored_volume
        &&& self.hide_token <= u64::MAX
    }

    /// A player just mounted: paused at frame 0 of media of unknown length,
    /// nothing buffered, full volume, not full screen, controls hidden.
    pub open spec fn initial(rate: FrameRate, has_proxy: bool) -> PlayerView {
        PlayerView {
            rate,
            has_proxy,
            playing: false,
            frame: 0,
            end_frame: 0,
            drag: DragState::Idle,
            drag_offset: 0,
            resume_after_drag: false,
            preload: Fraction { end: 0, total: 1 },
            volume: VOLUME_FULL as nat,
            stored_volume: VOLUME_FULL as nat,
            muted: false,
            fullscreen: false,
            controls_visible: false,
            hide_token: 0,
        }
    }

    /// Whether playback stands at the last frame.
    pub open spec fn at_end(self) -> bool {
        self.frame == self.end_frame
    }

    /// After a seek to `frame`: the frame clamped into `[0, end_frame]`.
    pub open spec fn seeked(self, frame: int) -> PlayerView {
        PlayerView { frame: clamp_frame(frame, self.end_frame as int) as nat, ..self }
    }

    /// The effects of a seek to `frame`: both sources go to the clamped frame.
    pub open spec fn seek_effects(self, frame: int) -> Seq<Effect> {
        set_time_effects(clamp_frame(frame, self.end_frame as int), self.rate, self.has_proxy)
    }

    /// After `play`: rewound to frame 0 if at the last frame, and playing.
    pub open spec fn played(self) -> PlayerView {
        let rewound = if self.at_end() {
            self.seeked(0)
        } else {
            self
        };
        PlayerView { playing: true, ..rewound }
    }

    /// The effects of `play`: the rewind if at the last frame, then `Play`.
    pub open spec fn play_effects(self) -> Seq<Effect> {
        let rewind = if self.at_end() {
            self.seek_effects(0)
        } else {
            Seq::empty()
        };
        rewind.push(Effect::Play)
    }

    /// After `pause`: not playing.
    pub open spec fn paused(self) -> PlayerView {
        PlayerView { playing: false, ..self }
    }

    /// The effects of `pause`.
    pub open spec fn pause_effects(self) -> Seq<Effect> {
        seq![Effect::Pause]
    }

    /// After `toggle_play`.
    pub open spec fn play_toggled(self) -> PlayerView {
        if self.playing {
            self.paused()
        } else {
            self.played()
        }
    }

    /// The effects of `toggle_play`.
    pub open spec fn toggle_play_effects(self) -> Seq<Effect> {
        if self.playing {
            self.pause_effects()
        } else {
            self.play_effects()
        }
    }

    /// After the key named `key` is pressed.
    pub open spec fn key_pressed(self, key: Seq<char>) -> PlayerView {
        match spec_key_command(key) {
            KeyCommand::TogglePlay => self.play_toggled(),
            KeyCommand::PreviousFrame => self.seeked(self.frame - 1int),
            KeyCommand::NextFrame => self.seeked(self.frame + 1int),
            KeyCommand::Ignored => self,
        }
    }

    /// The effects of a press of the key named `key`.
    pub open spec fn key_effects(self, key: Seq<char>) -> Seq<Effect> {
        match spec_key_command(key) {
            KeyCommand::TogglePlay => self.toggle_play_effects(),
            KeyCommand::PreviousFrame => self.seek_effects(self.frame - 1int),
            KeyCommand::NextFrame => self.seek_effects(self.frame + 1int),
            KeyCommand::Ignored => Seq::empty(),
        }
    }

    /// After pointer activity: controls on view, and a new hide timer.
    pub open spec fn active(self) -> PlayerView {
        PlayerView {
            controls_visible: true,
            hide_token: ((self.hide_token + 1) % 0x1_0000_0000_0000_0000) as nat,
            ..self
        }
    }

    /// The effects of pointer activity: the new hide timer.
    pub open spec fn activity_effects(self) -> Seq<Effect> {
        seq![
            Effect::ScheduleHide {
                token: ((self.hide_token + 1) % 0x1_0000_0000_0000_0000) as u64,
                delay_ms: HIDE_DELAY_MS,
            },
        ]
    }

    /// After the hide timer with token `token` fires: the controls are hidden
    /// if no later activity started another timer.
    pub open spec fn hide_timer_fired(self, token: int) -> PlayerView {
        if token == self.hide_token {
            PlayerView { controls_visible: false, ..self }
        } else {
            self
        }
    }

    /// After the pointer is pressed at `offset` on a track `width` wide:
    /// playback is held, the drag starts, and the frame under the pointer
    /// is sought.
    pub open spec fn drag_started(self, offset: int, width: int) -> PlayerView {
        let held = PlayerView {
            playing: false,
            resume_after_drag: self.playing,
            drag: DragState::Start,
            drag_offset: offset,
            ..self
        };
        held.seeked(spec_pointer_frame(offset, width, self.end_frame as int))
    }

    /// The effects of a press on the track: a pause if playing, then the seek.
    pub open spec fn drag_start_effects(self, offset: int, width: int) -> Seq<Effect> {
        let pause = if self.playing {
            seq![Effect::Pause]
        } else {
            Seq::empty()
        };
        pause + self.seek_effects(spec_pointer_frame(offset, width, self.end_frame as int))
    }

    /// Where the pointer stands on the track after it moved by `delta` since the press.
    pub open spec fn pointer_at(self, delta: int) -> int {
        delta + self.drag_offset
    }

    /// After the pointer moved by `delta` since the press, on a track `width`
    /// wide: the drag moves, the frame under the pointer is sought, and the
    /// controls are on view.
    pub open spec fn drag_moved(self, delta: int, width: int) -> PlayerView {
        let moving = PlayerView { drag: DragState::Move, ..self };
        moving.seeked(
            spec_pointer_frame(self.pointer_at(delta), width, self.end_frame as int),
        ).active()
    }

    /// The effects of a pointer move: the seek, then the new hide timer.
    pub open spec fn drag_move_effects(self, delta: int, width: int) -> Seq<Effect> {
        self.seek_effects(spec_pointer_frame(self.pointer_at(delta), width, self.end_frame as int))
            + self.activity_effects()
    }

    /// Whether the frame at media time `media_time` differs from the current frame.
    pub open spec fn diverged(self, media_time: int) -> bool {
        clamp_frame(spec_frame_from_time(media_time, self.rate), self.end_frame as int)
            != self.frame
    }

    /// After the pointer is released, with the primary source at
    /// `media_time`: the drag ends, and playback resumes if it was on when
    /// the drag began. A release with no drag changes nothing.
    pub open spec fn drag_ended(self, media_time: int) -> PlayerView {
        if self.drag == DragState::Idle {
            self
        } else {
            let idle = PlayerView { drag: DragState::Idle, ..self };
            if self.resume_after_drag {
                idle.played()
            } else {
                idle
            }
        }
    }

    /// The effects of a release: a seek back to the current frame if the
    /// primary source stands elsewhere, then the effects of `play` if
    /// playback resumes.
    pub open spec fn drag_end_effects(self, media_time: int) -> Seq<Effect> {
        if self.drag == DragState::Idle {
            Seq::empty()
        } else {
            let idle = PlayerView { drag: DragState::Idle, ..self };
            let reconcile = if self.diverged(media_time) {
                self.seek_effects(self.frame as int)
            } else {
                Seq::empty()
            };
            reconcile + if self.resume_after_drag {
                idle.play_effects()
            } else {
                Seq::empty()
            }
        }
    }

    /// After the media clock reports `time`: the frame follows it unless a
    /// drag is on.
    pub open spec fn time_ticked(self, time: int) -> PlayerView {
        if self.drag == DragState::Idle {
            PlayerView {
                frame: clamp_frame(spec_frame_from_time(time, self.rate), self.end_frame as int)
                    as nat,
                ..self
            }
        } else {
            self
        }
    }

    /// After the media reports that it ended: not playing.
    pub open spec fn media_ended(self) -> PlayerView {
        PlayerView { playing: false, ..self }
    }

    /// After the media reports its duration, `None` when it is not finite:
    /// the last frame follows a known duration, and the current frame is
    /// kept within it.
    pub open spec fn duration_changed(self, duration: Option<u64>) -> PlayerView {
        match duration {
            Some(d) => {
                let end = spec_end_frame(d as int, self.rate);
                PlayerView {
                    end_frame: end as nat,
                    frame: if self.frame <= end {
                        self.frame
                    } else {
                        end as nat
                    },
                    ..self
                }
            },
            None => self,
        }
    }

    /// After a buffering notification: see `spec_preloaded`.
    pub open spec fn buffered(
        self,
        ranges: Seq<TimeRange>,
        time: int,
        duration: Option<u64>,
    ) -> PlayerView {
        PlayerView { preload: spec_preloaded(self.preload, ranges, time, duration), ..self }
    }

    /// After the volume is set to `level`: shown and stored, and muted
    /// exactly when it is 0.
    pub open spec fn volume_set(self, level: int) -> PlayerView {
        PlayerView {
            volume: level as nat,
            stored_volume: level as nat,
            muted: level == 0,
            ..self
        }
    }

    /// The effects of setting the volume.
    pub open spec fn volume_effects(self, level: int) -> Seq<Effect> {
        seq![Effect::SetVolume { level: level as u32 }, Effect::SetMuted { muted: level == 0 }]
    }

    /// The level that unmuting brings back: the stored one, or full volume
    /// when it is 0.
    pub open spec fn unmuted_level(self) -> nat {
        if self.stored_volume == 0 {
            VOLUME_FULL as nat
        } else {
            self.stored_volume
        }
    }

    /// After `toggle_mute`: muting shows level 0 and keeps the stored level;
    /// unmuting brings back `unmuted_level`.
    pub open spec fn mute_toggled(self) -> PlayerView {
        if self.muted {
            PlayerView {
                volume: self.unmuted_level(),
                stored_volume: self.unmuted_level(),
                muted: false,
                ..self
            }
        } else {
            PlayerView { volume: 0, muted: true, ..self }
        }
    }

    /// The effects of `toggle_mute`.
    pub open spec fn toggle_mute_effects(self) -> Seq<Effect> {
        if self.muted {
            let restore = if self.stored_volume == 0 {
                seq![Effect::SetVolume { level: VOLUME_FULL }]
            } else {
                Seq::empty()
            };
            restore.push(Effect::SetMuted { muted: false })
        } else {
            seq![Effect::SetMuted { muted: true }]
        }
    }

    /// The effects of `toggle_fullscreen`: a request to leave full screen
    /// when in it, to enter it otherwise.
    pub open spec fn fullscreen_effects(self) -> Seq<Effect> {
        if self.fullscreen {
            seq![Effect::ExitFullscreen]
        } else {
            seq![Effect::RequestFullscreen]
        }
    }

    /// After the page reports whether the container is full screen.
    pub open spec fn fullscreen_changed(self, is_fullscreen: bool) -> PlayerView {
        PlayerView { fullscreen: is_fullscreen, ..self }
    }

    /// Whether the controls are shown: always outside full screen, and in
    /// full screen while they are on view.
    pub open spec fn controls_shown(self) -> bool {
        !self.fullscreen || self.controls_visible
    }
}

proof fn lemma_time_of_frame_monotonic(f1: int, f2: int, rate: FrameRate)
    requires
        rate.valid(),
        0 <= f1 <= f2,
    ensures
        spec_time_from_frame(f1, rate) <= spec_time_from_frame(f2, rate),
{
    let d = rate.micros_den();
    lemma_mul_inequality(f1, f2, d);
    lemma_div_is_ordered(f1 * d + rate.num - 1, f2 * d + rate.num - 1, rate.num as int);
}

impl Player {
    /// A player for media at frame rate `rate`, with or without a proxy
    /// source: see `PlayerView::initial`.
    pub fn new(rate: FrameRate, has_proxy: bool) -> (r: Player)
        requires
            rate.valid(),
        ensures
            r@ == PlayerView::initial(rate, has_proxy),
            r@.wf(),
    {
        proof {
            crate::frame_clock::lemma_floor_div_unique(rate.num - 1, rate.num as int, 0);
        }
        Player {
            rate,
            has_proxy,
            playing: false,
            frame: 0,
            end_frame: 0,
            drag: DragState::Idle,
            drag_offset: 0,
            resume_after_drag: false,
            preload: Fraction::zero(),
            volume: VOLUME_FULL,
            stored_volume: VOLUME_FULL,
            muted: false,
            fullscreen: false,
            controls_visible: false,
            hide_token: 0,
        }
    }

    /// Appends the effects that move both sources to the current frame.
    fn push_seek_effects(&self, effects: &mut Vec<Effect>)
        requires
            self@.wf(),
        ensures
            final(effects)@ == old(effects)@ + set_time_effects(
                self@.frame as int,
                self@.rate,
                self@.has_proxy,
            ),
    {
        proof {
            lemma_time_of_frame_monotonic(self.frame as int, self.end_frame as int, self.rate);
        }
        let micros = time_from_frame(self.frame, self.rate);
        effects.push(Effect::SetTime { source: MediaSource::Primary, micros });
        if self.has_proxy {
            effects.push(Effect::SetTime { source: MediaSource::Proxy, micros });
        }
        assert(effects@ =~= old(effects)@ + set_time_effects(
            self@.frame as int,
            self@.rate,
            self@.has_proxy,
        ));
    }

    /// Moves to `frame`, clamped into `[0, end_frame]`, and appends the effects.
    fn seek_into(&mut self, frame: u64, effects: &mut Vec<Effect>)
        requires
            old(self)@.wf(),
        ensures
            final(self)@ == old(self)@.seeked(frame as int),
            final(self)@.wf(),
            final(effects)@ == old(effects)@ + old(self)@.seek_effects(frame as int),
    {
        self.frame = if frame > self.end_frame {
            self.end_frame
        } else {
            frame
        };
        self.push_seek_effects(effects);
    }

    /// Seeks to `frame`, clamped into `[0, end_frame]`: the current frame
    /// becomes the clamped frame and both sources are moved to its time.
    pub fn seek(&mut self, frame: u64) -> (r: Vec<Effect>)
        requires
            old(self)@.wf(),
        ensures
            final(self)@ == old(self)@.seeked(frame as int),
            final(self)@.wf(),
            r@ == old(self)@.seek_effects(frame as int),
    {
        let mut effects = Vec::new();
        self.seek_into(frame, &mut effects);
        effects
    }

    /// Rewinds to frame 0.
    pub fn stop(&mut self) -> (r: Vec<Effect>)
        requires
            old(self)@.wf(),
        ensures
            final(self)@ == old(self)@.seeked(0),
            final(self)@.wf(),
            r@ == old(self)@.seek_effects(0),
    {
        self.seek(0)
    }

    fn play_into(&mut self, effects: &mut Vec<Effect>)
        requires
            old(self)@.wf(),
        ensures
            final(self)@ == old(self)@.played(),
            final(self)@.wf(),
            final(effects)@ == old(effects)@ + old(self)@.play_effects(),
    {
        if self.frame == self.end_frame {
            self.seek_into(0, effects);
        }
        self.playing = true;
        effects.push(Effect::Play);
        assert(effects@ =~= old(effects)@ + old(self)@.play_effects());
    }

    /// Starts playback; from the last frame, rewinds to frame 0 first.
    pub fn play(&mut self) -> (r: Vec<Effect>)
        requires
            old(self)@.wf(),
        ensures
            final(self)@ == old(self)@.played(),
            final(self)@.wf(),
            r@ == old(self)@.play_effects(),
    {
        let mut effects = Vec::new();
        self.play_into(&mut effects);
        assert(effects@ =~= old(self)@.play_effects());
        effects
    }

    fn pause_into(&mut self, effects: &mut Vec<Effect>)
        requires
            old(self)@.wf(),
        ensures
            final(self)@ == old(self)@.paused(),
            final(self)@.wf(),
            final(effects)@ == old(effects)@ + old(self)@.pause_effects(),
    {
        self.playing = false;
        effects.push(Effect::Pause);
        assert(effects@ =~= old(effects)@ + old(self)@.pause_effects());
    }

    /// Pauses playback.
    pub fn pause(&mut self) -> (r: Vec<Effect>)
        requires
            old(self)@.wf(),
        ensures
            final(self)@ == old(self)@.paused(),
            final(self)@.wf(),
            r@ == old(self)@.pause_effects(),
    {
        let mut effects = Vec::new();
        self.pause_into(&mut effects);
        assert(effects@ =~= old(self)@.pause_effects());
        effects
    }

    /// Pauses when playing, plays when paused.
    pub fn toggle_play(&mut self) -> (r: Vec<Effect>)
        requires
            old(self)@.wf(),
        ensures
            final(self)@ == old(self)@.play_toggled(),
            final(self)@.wf(),
            r@ == old(self)@.toggle_play_effects(),
    {
        if self.playing {
            self.pause()
        } else {
            self.play()
        }
    }
}

impl Player {
    /// Steps one frame forward, stopping at the last frame.
    pub fn next_frame(&mut self) -> (r: Vec<Effect>)
        requires
            old(self)@.wf(),
        ensures
            final(self)@ == old(self)@.seeked(old(self)@.frame + 1int),
            final(self)@.wf(),
            r@ == old(self)@.seek_effects(old(self)@.frame + 1int),
    {
        self.seek(self.frame + 1)
    }

    /// Steps one frame back, stopping at frame 0.
    pub fn previous_frame(&mut self) -> (r: Vec<Effect>)
        requires
            old(self)@.wf(),
        ensures
            final(self)@ == old(self)@.seeked(old(self)@.frame - 1int),
            final(self)@.wf(),
            r@ == old(self)@.seek_effects(old(self)@.frame - 1int),
    {
        if self.frame == 0 {
            self.seek(0)
        } else {
            self.seek(self.frame - 1)
        }
    }

    /// Handles a press of the key named `key`: space toggles playback, the
    /// left and right arrows step one frame, other keys do nothing.
    pub fn handle_key(&mut self, key: &str) -> (r: Vec<Effect>)
        requires
            old(self)@.wf(),
        ensures
            final(self)@ == old(self)@.key_pressed(key@),
            final(self)@.wf(),
            r@ == old(self)@.key_effects(key@),
    {
        match key_command(key) {
            KeyCommand::TogglePlay => self.toggle_play(),
            KeyCommand::PreviousFrame => self.previous_frame(),
            KeyCommand::NextFrame => self.next_frame(),
            KeyCommand::Ignored => Vec::new(),
        }
    }

    fn activity_into(&mut self, effects: &mut Vec<Effect>)
        requires
            old(self)@.wf(),
        ensures
            final(self)@ == old(self)@.active(),
            final(self)@.wf(),
            final(effects)@ == old(effects)@ + old(self)@.activity_effects(),
    {
        self.controls_visible = true;
        self.hide_token = self.hide_token.wrapping_add(1);
        effects.push(Effect::ScheduleHide { token: self.hide_token, delay_ms: HIDE_DELAY_MS });
        assert(effects@ =~= old(effects)@ + old(self)@.activity_effects());
    }

    /// Pointer activity in the player: the controls come on view, and the
    /// hide timer starts again.
    pub fn on_activity(&mut self) -> (r: Vec<Effect>)
        requires
            old(self)@.wf(),
        ensures
            final(self)@ == old(self)@.active(),
            final(self)@.wf(),
            r@ == old(self)@.activity_effects(),
    {
        let mut effects = Vec::new();
        self.activity_into(&mut effects);
        assert(effects@ =~= old(self)@.activity_effects());
        effects
    }

    /// The hide timer with token `token` fired: the controls go off view
    /// unless activity started a later timer.
    pub fn on_hide_timer(&mut self, token: u64)
        requires
            old(self)@.wf(),
        ensures
            final(self)@ == old(self)@.hide_timer_fired(token as int),
            final(self)@.wf(),
    {
        if token == self.hide_token {
            self.controls_visible = false;
        }
    }

    /// The pointer was pressed at `offset` on a track `width` wide.
    pub fn on_drag_start(&mut self, offset: i64, width: u64) -> (r: Vec<Effect>)
        requires
            old(self)@.wf(),
        ensures
            final(self)@ == old(self)@.drag_started(offset as int, width as int),
            final(self)@.wf(),
            r@ == old(self)@.drag_start_effects(offset as int, width as int),
            final(self)@.frame <= final(self)@.end_frame,
    {
        let mut effects = Vec::new();
        self.resume_after_drag = self.playing;
        if self.playing {
            self.pause_into(&mut effects);
        }
        self.drag = DragState::Start;
        self.drag_offset = offset;
        let target = frame_at_pointer(offset as i128, width, self.end_frame);
        self.seek_into(target, &mut effects);
        assert(effects@ =~= old(self)@.drag_start_effects(offset as int, width as int));
        effects
    }

    /// The pointer moved by `delta` since it was pressed, on a track `width` wide.
    pub fn on_drag_move(&mut self, delta: i64, width: u64) -> (r: Vec<Effect>)
        requires
            old(self)@.wf(),
        ensures
            final(self)@ == old(self)@.drag_moved(delta as int, width as int),
            final(self)@.wf(),
            r@ == old(self)@.drag_move_effects(delta as int, width as int),
            final(self)@.frame <= final(self)@.end_frame,
    {
        let mut effects = Vec::new();
        self.drag = DragState::Move;
        let x: i128 = delta as i128 + self.drag_offset as i128;
        let target = frame_at_pointer(x, width, self.end_frame);
        self.seek_into(target, &mut effects);
        self.activity_into(&mut effects);
        assert(effects@ =~= old(self)@.drag_move_effects(delta as int, width as int));
        effects
    }

    /// The pointer was released, with the primary source at `media_time`.
    pub fn on_drag_end(&mut self, media_time: u64) -> (r: Vec<Effect>)
        requires
            old(self)@.wf(),
        ensures
            final(self)@ == old(self)@.drag_ended(media_time as int),
            final(self)@.wf(),
            r@ == old(self)@.drag_end_effects(media_time as int),
    {
        let mut effects = Vec::new();
        if self.drag == DragState::Idle {
            return effects;
        }
        self.drag = DragState::Idle;
        let media_frame = frame_from_time(media_time, self.rate);
        let media_frame = if media_frame > self.end_frame {
            self.end_frame
        } else {
            media_frame
        };
        if media_frame != self.frame {
            self.push_seek_effects(&mut effects);
        }
        if self.resume_after_drag {
            self.play_into(&mut effects);
        }
        assert(effects@ =~= old(self)@.drag_end_effects(media_time as int));
        effects
    }

    /// The media clock reports `time`: the frame follows it unless a drag is on.
    pub fn on_time_tick(&mut self, time: u64)
        requires
            old(self)@.wf(),
        ensures
            final(self)@ == old(self)@.time_ticked(time as int),
            final(self)@.wf(),
    {
        if self.drag == DragState::Idle {
            let f = frame_from_time(time, self.rate);
            self.frame = if f > self.end_frame {
                self.end_frame
            } else {
                f
            };
        }
    }

    /// The media reports that it ended.
    pub fn on_ended(&mut self)
        requires
            old(self)@.wf(),
        ensures
            final(self)@ == old(self)@.media_ended(),
            final(self)@.wf(),
    {
        self.playing = false;
    }

    /// The media reports its duration in microseconds, `None` when it is not
    /// finite.
    pub fn on_duration_change(&mut self, duration: Option<u64>)
        requires
            old(self)@.wf(),
        ensures
            final(self)@ == old(self)@.duration_changed(duration),
            final(self)@.wf(),
    {
        if let Some(d) = duration {
            let end = end_frame_for_duration(d, self.rate);
            self.end_frame = end;
            if self.frame > end {
                self.frame = end;
            }
        }
    }

    /// The media reports its buffered ranges, its position `time` and its
    /// duration, `None` when that is not finite.
    pub fn on_buffer_progress(&mut self, ranges: &Vec<TimeRange>, time: u64, duration: Option<u64>)
        requires
            old(self)@.wf(),
        ensures
            final(self)@ == old(self)@.buffered(ranges@, time as int, duration),
            final(self)@.wf(),
    {
        self.preload = preloaded(self.preload, ranges, time, duration);
    }

    /// Sets the volume to `level` thousandths of full volume.
    pub fn set_volume(&mut self, level: u32) -> (r: Vec<Effect>)
        requires
            old(self)@.wf(),
            level <= VOLUME_FULL,
        ensures
            final(self)@ == old(self)@.volume_set(level as int),
            final(self)@.wf(),
            r@ == old(self)@.volume_effects(level as int),
    {
        self.volume = level;
        self.stored_volume = level;
        self.muted = level == 0;
        let mut effects = Vec::new();
        effects.push(Effect::SetVolume { level });
        effects.push(Effect::SetMuted { muted: level == 0 });
        assert(effects@ =~= old(self)@.volume_effects(level as int));
        effects
    }

    /// Mutes, keeping the volume level to come back to, or unmutes, coming
    /// back to it (to full volume if it is 0).
    pub fn toggle_mute(&mut self) -> (r: Vec<Effect>)
        requires
            old(self)@.wf(),
        ensures
            final(self)@ == old(self)@.mute_toggled(),
            final(self)@.wf(),
            r@ == old(self)@.toggle_mute_effects(),
    {
        let mut effects = Vec::new();
        if self.muted {
            if self.stored_volume == 0 {
                self.stored_volume = VOLUME_FULL;
                effects.push(Effect::SetVolume { level: VOLUME_FULL });
            }
            self.volume = self.stored_volume;
            self.muted = false;
            effects.push(Effect::SetMuted { muted: false });
        } else {
            self.volume = 0;
            self.muted = true;
            effects.push(Effect::SetMuted { muted: true });
        }
        assert(effects@ =~= old(self)@.toggle_mute_effects());
        effects
    }

    /// Asks to leave full screen when in it, to enter it otherwise. The
    /// state waits for the page to report the change.
    pub fn toggle_fullscreen(&self) -> (r: Vec<Effect>)
        requires
            self@.wf(),
        ensures
            r@ == self@.fullscreen_effects(),
    {
        let mut effects = Vec::new();
        if self.fullscreen {
            effects.push(Effect::ExitFullscreen);
        } else {
            effects.push(Effect::RequestFullscreen);
        }
        assert(effects@ =~= self@.fullscreen_effects());
        effects
    }

    /// The page reports whether the player's container is full screen.
    pub fn on_fullscreen_change(&mut self, is_fullscreen: bool)
        requires
            old(self)@.wf(),
        ensures
            final(self)@ == old(self)@.fullscreen_changed(is_fullscreen),
            final(self)@.wf(),
    {
        self.fullscreen = is_fullscreen;
    }
}

impl Player {
    /// Whether playback is on.
    pub fn is_playing(&self) -> (r: bool)
        ensures
            r == self@.playing,
    {
        self.playing
    }

    /// The current frame.
    pub fn current_frame(&self) -> (r: u64)
        ensures
            r == self@.frame,
    {
        self.frame
    }

    /// The last frame of the media.
    pub fn end_frame(&self) -> (r: u64)
        ensures
            r == self@.end_frame,
    {
        self.end_frame
    }

    /// The frame rate of the media.
    pub fn frame_rate(&self) -> (r: FrameRate)
        ensures
            r == self@.rate,
    {
        self.rate
    }

    /// Whether a proxy source is configured.
    pub fn has_proxy(&self) -> (r: bool)
        ensures
            r == self@.has_proxy,
    {
        self.has_proxy
    }

    /// The drag state of the seek track.
    pub fn drag_state(&self) -> (r: DragState)
        ensures
            r == self@.drag,
    {
        self.drag
    }

    /// The source on view: the proxy during a pointer move, if there is one.
    pub fn visible_source(&self) -> (r: MediaSource)
        ensures
            r == spec_visible_source(self@.drag, self@.has_proxy),
    {
        visible_source(self.drag, self.has_proxy)
    }

    /// How far playback has come: the current frame over the frame count.
    pub fn progress(&self) -> (r: Fraction)
        requires
            self@.wf(),
        ensures
            r == (Fraction { end: self@.frame as u64, total: (self@.end_frame + 1) as u64 }),
            r.wf(),
    {
        Fraction { end: self.frame, total: self.end_frame + 1 }
    }

    /// The buffered fraction.
    pub fn preloaded(&self) -> (r: Fraction)
        ensures
            r == self@.preload,
    {
        self.preload
    }

    /// The volume level shown, in thousandths of full volume: 0 while muted.
    pub fn volume(&self) -> (r: u32)
        ensures
            r == self@.volume,
    {
        self.volume
    }

    /// Whether the sound is off.
    pub fn is_muted(&self) -> (r: bool)
        ensures
            r == self@.muted,
    {
        self.muted
    }

    /// Whether the container is full screen, as last reported.
    pub fn is_fullscreen(&self) -> (r: bool)
        ensures
            r == self@.fullscreen,
    {
        self.fullscreen
    }

    /// Whether the controls are on view.
    pub fn controls_visible(&self) -> (r: bool)
        ensures
            r == self@.controls_visible,
    {
        self.controls_visible
    }

    /// Whether the controls are shown: always outside full screen, and in
    /// full screen while they are on view.
    pub fn controls_shown(&self) -> (r: bool)
        ensures
            r == self@.controls_shown(),
    {
        !self.fullscreen || self.controls_visible
    }
}

/// Pausing a paused player changes nothing; its only effect is a redundant
/// pause of the media element.
pub proof fn lemma_pause_when_paused(v: PlayerView)
    requires
        v.wf(),
        !v.playing,
    ensures
        v.paused() == v,
        v.paused().paused() == v.paused(),
        v.pause_effects() == seq![Effect::Pause],
{
}

/// Toggling mute twice gives back the volume level shown and the mute
/// state; from an unmuted player it gives back the whole state. Unmuting
/// brings back the stored level, or full volume when that is 0.
pub proof fn lemma_mute_round_trip(v: PlayerView)
    requires
        v.wf(),
    ensures
        v.mute_toggled().wf(),
        v.mute_toggled().mute_toggled().volume == v.volume,
        v.mute_toggled().mute_toggled().muted == v.muted,
        !v.muted ==> v.mute_toggled().mute_toggled() == v,
        v.muted ==> v.mute_toggled().volume == (if v.stored_volume == 0 {
            VOLUME_FULL as nat
        } else {
            v.stored_volume
        }),
{
}

/// A seek driven by the pointer, wherever the pointer stands and however
/// wide the track, leaves the current frame within `[0, end_frame]`.
pub proof fn lemma_pointer_seek_within_media(v: PlayerView, x: int, width: int)
    requires
        v.wf(),
    ensures
        v.drag_started(x, width).frame <= v.end_frame,
        v.drag_moved(x, width).frame <= v.end_frame,
        v.drag_started(x, width).end_frame == v.end_frame,
        v.drag_moved(x, width).end_frame == v.end_frame,
{
}

/// A drag holds playback while it lasts, and its release resumes playback
/// exactly when it was on before the press.
pub proof fn lemma_drag_restores_playback(
    v: PlayerView,
    offset: int,
    width: int,
    delta: int,
    media_time: int,
)
    requires
        v.wf(),
        v.drag == DragState::Idle,
    ensures
        !v.drag_started(offset, width).playing,
        !v.drag_started(offset, width).drag_moved(delta, width).playing,
        v.drag_started(offset, width).drag_ended(media_time).playing == v.playing,
        v.drag_started(offset, width).drag_moved(delta, width).drag_ended(media_time).playing
            == v.playing,
        v.drag_started(offset, width).drag_ended(media_time).drag == DragState::Idle,
{
}

} // verus!
