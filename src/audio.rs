use std::sync::atomic::{AtomicBool, AtomicU64, Ordering};
use vstd::prelude::*;

use crate::equalizer::EqUpdate;

verus! {

/// Loudest volume, in thousandths of full scale.
pub const MAX_VOLUME_PERMILLE: i32 = 1000;

/// Slowest playback speed, in hundredths of normal speed.
pub const MIN_SPEED_PERCENT: i32 = 25;

/// Fastest playback speed, in hundredths of normal speed.
pub const MAX_SPEED_PERCENT: i32 = 400;

/// A request to the render thread. Volume is in thousandths of full scale, speed
/// in hundredths of normal speed, positions in milliseconds and gains in
/// hundredths of a decibel.
#[derive(Debug)]
pub enum AudioCommand {
    Play(String),
    Pause,
    Stop,
    SetVolume(i32),
    Seek(u64),
    SetSpeed(i32),
    PreloadNext(String),
    SetEqBand { band: usize, gain_cdb: i32 },
    SetEqEnabled(bool),
    SetEqPreset { bands: [i32; 5], preamp_cdb: i32, name: String },
    SetEqPreamp(i32),
}

/// What the render thread must do to the outside world after a decision.
#[derive(Debug)]
pub enum PlayerAction {
    /// Nothing to do.
    Nothing,
    /// Open and decode this file; on success report it with `play_started`, on
    /// failure drop the command.
    Open(String),
    /// Replace the current sink (stopping the old one) by a new sink at this
    /// volume and speed that plays the source just decoded.
    StartSink { volume_permille: u32, speed_percent: u32 },
    /// Pause the sink.
    PauseSink,
    /// Resume the sink.
    ResumeSink,
    /// Stop and discard the sink, if there is one.
    StopSink,
    /// Set the sink's volume.
    SetVolume(u32),
    /// Set the sink's speed.
    SetSpeed(u32),
    /// Seek the sink (and so the decoder and the equalizer stage) to this position.
    SeekSink(u64),
    /// Apply this change to the equalizer settings under their writer lock, then
    /// bump the settings version.
    UpdateEqualizer(EqUpdate),
    /// The current track has ended and a next one was preloaded: open and decode
    /// it, append it to the sink, and report the outcome with `next_opened`.
    OpenNext(String),
}

/// Playback state as media controls show it.
#[derive(Debug, Clone, Copy, PartialEq, Eq, Structural)]
pub enum PlaybackState {
    Playing,
    Paused,
    Stopped,
}

/// The render thread's bookkeeping: whether a sink exists, the play/pause flags
/// that readers see, and the elapsed-time accounting behind the position.
/// Times are milliseconds on a monotonic clock that the caller reads.
#[derive(Debug)]
pub struct Player {
    pub has_sink: bool,
    pub is_playing: bool,
    pub is_paused: bool,
    pub position_ms: u64,
    pub paused_position_ms: u64,
    pub playback_start_ms: Option<u64>,
    pub volume_permille: u32,
    pub speed_percent: u32,
    pub current_path: Option<String>,
    pub preloaded_path: Option<String>,
}

/// Milliseconds from `start` to `now`; zero if the clock reads earlier than `start`.
pub open spec fn elapsed_spec(now: u64, start: u64) -> int {
    if now >= start {
        now - start
    } else {
        0
    }
}

/// `a + b`, saturating at the largest `u64`.
pub open spec fn sat_add(a: int, b: int) -> int {
    if a + b > u64::MAX {
        u64::MAX as int
    } else {
        a + b
    }
}

/// The value `x` held to `[lo, hi]`.
pub open spec fn clamp_int(x: int, lo: int, hi: int) -> int {
    if x < lo {
        lo
    } else if x > hi {
        hi
    } else {
        x
    }
}

/// The position that the elapsed-time accounting gives at `now` while playing.
pub open spec fn running_position(p: Player, now: u64) -> int {
    match p.playback_start_ms {
        Some(start) => sat_add(p.paused_position_ms as int, elapsed_spec(now, start)),
        None => p.paused_position_ms as int,
    }
}

/// The state machine's invariant: the flags only claim playback while a sink
/// exists, and volume and speed stay in range.
pub open spec fn player_wf(p: Player) -> bool {
    &&& p.is_playing ==> p.has_sink
    &&& p.is_paused ==> p.has_sink
    &&& p.volume_permille <= MAX_VOLUME_PERMILLE
    &&& MIN_SPEED_PERCENT <= p.speed_percent <= MAX_SPEED_PERCENT
}

/// The player in which nothing has been played yet.
pub open spec fn idle_player() -> Player {
    Player {
        has_sink: false,
        is_playing: false,
        is_paused: false,
        position_ms: 0,
        paused_position_ms: 0,
        playback_start_ms: None,
        volume_permille: MAX_VOLUME_PERMILLE as u32,
        speed_percent: 100,
        current_path: None,
        preloaded_path: None,
    }
}

/// `Pause` toggles: it pauses a playing sink, freezing the accounting, and
/// resumes a paused one. Without a sink it does nothing.
pub open spec fn pause_spec(p: Player, now: u64) -> (Player, PlayerAction) {
    if !p.has_sink {
        (p, PlayerAction::Nothing)
    } else if p.is_paused {
        (Player { playback_start_ms: Some(now), is_paused: false, ..p }, PlayerAction::ResumeSink)
    } else {
        let frozen = running_position(p, now) as u64;
        (
            Player { paused_position_ms: frozen, position_ms: frozen, is_paused: true, ..p },
            PlayerAction::PauseSink,
        )
    }
}

/// `Stop` discards the sink and returns to idle at position zero; the volume,
/// speed and any preloaded track are kept.
pub open spec fn stop_spec(p: Player) -> (Player, PlayerAction) {
    (
        Player {
            has_sink: false,
            is_playing: false,
            is_paused: false,
            position_ms: 0,
            paused_position_ms: 0,
            playback_start_ms: None,
            current_path: None,
            ..p
        },
        PlayerAction::StopSink,
    )
}

/// `Seek` moves the accounting to `to_ms` and is forwarded to the sink; the
/// play/pause state stays. Without a sink it does nothing.
pub open spec fn seek_spec(p: Player, to_ms: u64, now: u64) -> (Player, PlayerAction) {
    if p.has_sink {
        (
            Player {
                paused_position_ms: to_ms,
                playback_start_ms: Some(now),
                position_ms: to_ms,
                ..p
            },
            PlayerAction::SeekSink(to_ms),
        )
    } else {
        (p, PlayerAction::Nothing)
    }
}

/// `SetVolume` stores the volume held to `[0, 1000]` and forwards it to a sink.
pub open spec fn volume_spec(p: Player, v: i32) -> (Player, PlayerAction) {
    let vol = clamp_int(v as int, 0, MAX_VOLUME_PERMILLE as int) as u32;
    (
        Player { volume_permille: vol, ..p },
        if p.has_sink {
            PlayerAction::SetVolume(vol)
        } else {
            PlayerAction::Nothing
        },
    )
}

/// `SetSpeed` stores the speed held to `[25, 400]` and forwards it to a sink.
pub open spec fn speed_spec(p: Player, s: i32) -> (Player, PlayerAction) {
    let sp = clamp_int(s as int, MIN_SPEED_PERCENT as int, MAX_SPEED_PERCENT as int) as u32;
    (
        Player { speed_percent: sp, ..p },
        if p.has_sink {
            PlayerAction::SetSpeed(sp)
        } else {
            PlayerAction::Nothing
        },
    )
}

/// The state and the action that a command leads to. `Play` only asks for the
/// file to be opened; the state changes when `play_started` reports success.
/// The equalizer commands leave the playback state alone.
pub open spec fn command_spec(p: Player, cmd: AudioCommand, now: u64) -> (Player, PlayerAction) {
    match cmd {
        AudioCommand::Play(path) => (p, PlayerAction::Open(path)),
        AudioCommand::Pause => pause_spec(p, now),
        AudioCommand::Stop => stop_spec(p),
        AudioCommand::SetVolume(v) => volume_spec(p, v),
        AudioCommand::Seek(to_ms) => seek_spec(p, to_ms, now),
        AudioCommand::SetSpeed(s) => speed_spec(p, s),
        AudioCommand::PreloadNext(path) => (
            Player { preloaded_path: Some(path), ..p },
            PlayerAction::Nothing,
        ),
        AudioCommand::SetEqBand { band, gain_cdb } => (
            p,
            PlayerAction::UpdateEqualizer(EqUpdate::Band { band, gain_cdb }),
        ),
        AudioCommand::SetEqEnabled(e) => (p, PlayerAction::UpdateEqualizer(EqUpdate::Enabled(e))),
        AudioCommand::SetEqPreset { bands, preamp_cdb, name } => (
            p,
            PlayerAction::UpdateEqualizer(EqUpdate::Preset { bands, preamp_cdb, name }),
        ),
        AudioCommand::SetEqPreamp(v) => (p, PlayerAction::UpdateEqualizer(EqUpdate::Preamp(v))),
    }
}

/// A track that opened plays from position zero at `now`, replacing whatever
/// played before; a preloaded track is forgotten.
pub open spec fn started_spec(p: Player, path: String, now: u64) -> (Player, PlayerAction) {
    (
        Player {
            has_sink: true,
            is_playing: true,
            is_paused: false,
            position_ms: 0,
            paused_position_ms: 0,
            playback_start_ms: Some(now),
            current_path: Some(path),
            preloaded_path: None,
            ..p
        },
        PlayerAction::StartSink { volume_permille: p.volume_permille, speed_percent: p.speed_percent },
    )
}

/// The regular update at `now`: while playing, the position follows the clock;
/// when the sink has run dry while playing, the preloaded track (if any) is
/// asked for, else playback ends.
pub open spec fn tick_spec(p: Player, now: u64, sink_empty: bool) -> (Player, PlayerAction) {
    let q = if p.is_playing && !p.is_paused && p.playback_start_ms is Some {
        Player { position_ms: running_position(p, now) as u64, ..p }
    } else {
        p
    };
    if q.has_sink && sink_empty && !q.is_paused && q.is_playing {
        match q.preloaded_path {
            Some(next) => (Player { preloaded_path: None, ..q }, PlayerAction::OpenNext(next)),
            None => (Player { is_playing: false, ..q }, PlayerAction::Nothing),
        }
    } else {
        (q, PlayerAction::Nothing)
    }
}

/// The outcome of opening the preloaded track: on success it continues on the
/// same sink from position zero at `now`; on failure playback ends.
pub open spec fn next_opened_spec(p: Player, path: String, opened: bool, now: u64) -> Player {
    if opened {
        Player {
            playback_start_ms: Some(now),
            paused_position_ms: 0,
            position_ms: 0,
            current_path: Some(path),
            ..p
        }
    } else {
        Player { is_playing: false, ..p }
    }
}

fn clamp_to(x: i32, lo: i32, hi: i32) -> (r: u32)
    requires
        0 <= lo <= hi,
    ensures
        r == clamp_int(x as int, lo as int, hi as int),
{
    if x < lo {
        lo as u32
    } else if x > hi {
        hi as u32
    } else {
        x as u32
    }
}

impl Player {
    /// A player with nothing loaded, at full volume and normal speed.
    pub fn new() -> (r: Self)
        ensures
            r == idle_player(),
            player_wf(r),
    {
        Player {
            has_sink: false,
            is_playing: false,
            is_paused: false,
            position_ms: 0,
            paused_position_ms: 0,
            playback_start_ms: None,
            volume_permille: MAX_VOLUME_PERMILLE as u32,
            speed_percent: 100,
            current_path: None,
            preloaded_path: None,
        }
    }

    /// Whether audio is audibly playing: playing and not paused.
    pub fn is_playing(&self) -> (r: bool)
        ensures
            r == (self.is_playing && !self.is_paused),
    {
        self.is_playing && !self.is_paused
    }

    /// The state that media controls show.
    pub fn playback_state(&self) -> (r: PlaybackState)
        ensures
            r == if !self.is_playing {
                PlaybackState::Stopped
            } else if self.is_paused {
                PlaybackState::Paused
            } else {
                PlaybackState::Playing
            },
    {
        if !self.is_playing {
            PlaybackState::Stopped
        } else if self.is_paused {
            PlaybackState::Paused
        } else {
            PlaybackState::Playing
        }
    }

    /// The position that the elapsed-time accounting gives at `now_ms`.
    fn running_position(&self, now_ms: u64) -> (r: u64)
        ensures
            r == running_position(*self, now_ms),
    {
        match self.playback_start_ms {
            Some(start) => self.paused_position_ms.saturating_add(now_ms.saturating_sub(start)),
            None => self.paused_position_ms,
        }
    }

    /// Decides what a command does at time `now_ms`.
    pub fn on_command(&mut self, cmd: AudioCommand, now_ms: u64) -> (r: PlayerAction)
        requires
            player_wf(*old(self)),
        ensures
            (*final(self), r) == command_spec(*old(self), cmd, now_ms),
            player_wf(*final(self)),
    {
        match cmd {
            AudioCommand::Play(path) => PlayerAction::Open(path),
            AudioCommand::Pause => {
                if !self.has_sink {
                    PlayerAction::Nothing
                } else if self.is_paused {
                    self.playback_start_ms = Some(now_ms);
                    self.is_paused = false;
                    PlayerAction::ResumeSink
                } else {
                    let frozen = self.running_position(now_ms);
                    self.paused_position_ms = frozen;
                    self.position_ms = frozen;
                    self.is_paused = true;
                    PlayerAction::PauseSink
                }
            },
            AudioCommand::Stop => {
                self.has_sink = false;
                self.is_playing = false;
                self.is_paused = false;
                self.position_ms = 0;
                self.paused_position_ms = 0;
                self.playback_start_ms = None;
                self.current_path = None;
                PlayerAction::StopSink
            },
            AudioCommand::SetVolume(v) => {
                self.volume_permille = clamp_to(v, 0, MAX_VOLUME_PERMILLE);
                if self.has_sink {
                    PlayerAction::SetVolume(self.volume_permille)
                } else {
                    PlayerAction::Nothing
                }
            },
            AudioCommand::Seek(to_ms) => {
                if self.has_sink {
                    self.paused_position_ms = to_ms;
                    self.playback_start_ms = Some(now_ms);
                    self.position_ms = to_ms;
                    PlayerAction::SeekSink(to_ms)
                } else {
                    PlayerAction::Nothing
                }
            },
            AudioCommand::SetSpeed(sp) => {
                self.speed_percent = clamp_to(sp, MIN_SPEED_PERCENT, MAX_SPEED_PERCENT);
                if self.has_sink {
                    PlayerAction::SetSpeed(self.speed_percent)
                } else {
                    PlayerAction::Nothing
                }
            },
            AudioCommand::PreloadNext(path) => {
                self.preloaded_path = Some(path);
                PlayerAction::Nothing
            },
            AudioCommand::SetEqBand { band, gain_cdb } => PlayerAction::UpdateEqualizer(
                EqUpdate::Band { band, gain_cdb },
            ),
            AudioCommand::SetEqEnabled(e) => PlayerAction::UpdateEqualizer(EqUpdate::Enabled(e)),
            AudioCommand::SetEqPreset { bands, preamp_cdb, name } => PlayerAction::UpdateEqualizer(
                EqUpdate::Preset { bands, preamp_cdb, name },
            ),
            AudioCommand::SetEqPreamp(v) => PlayerAction::UpdateEqualizer(EqUpdate::Preamp(v)),
        }
    }

    /// Reports that the file `path` asked for by `Play` opened and decoded at
    /// `now_ms`: it becomes the playing track.
    pub fn play_started(&mut self, path: String, now_ms: u64) -> (r: PlayerAction)
        requires
            player_wf(*old(self)),
        ensures
            (*final(self), r) == started_spec(*old(self), path, now_ms),
            player_wf(*final(self)),
    {
        self.has_sink = true;
        self.is_playing = true;
        self.is_paused = false;
        self.position_ms = 0;
        self.paused_position_ms = 0;
        self.playback_start_ms = Some(now_ms);
        self.current_path = Some(path);
        self.preloaded_path = None;
        PlayerAction::StartSink {
            volume_permille: self.volume_permille,
            speed_percent: self.speed_percent,
        }
    }

    /// The regular update at `now_ms`, given whether the sink has run out of
    /// audio: moves the position along and handles the end of a track.
    pub fn tick(&mut self, now_ms: u64, sink_empty: bool) -> (r: PlayerAction)
        requires
            player_wf(*old(self)),
        ensures
            (*final(self), r) == tick_spec(*old(self), now_ms, sink_empty),
            player_wf(*final(self)),
    {
        if self.is_playing && !self.is_paused && self.playback_start_ms.is_some() {
            self.position_ms = self.running_position(now_ms);
        }
        if self.has_sink && sink_empty && !self.is_paused && self.is_playing {
            match self.preloaded_path.take() {
                Some(next) => PlayerAction::OpenNext(next),
                None => {
                    self.is_playing = false;
                    PlayerAction::Nothing
                },
            }
        } else {
            PlayerAction::Nothing
        }
    }

    /// Reports whether the preloaded track `path` that `tick` asked for opened,
    /// at `now_ms`.
    pub fn next_opened(&mut self, path: String, opened: bool, now_ms: u64)
        requires
            player_wf(*old(self)),
        ensures
            *final(self) == next_opened_spec(*old(self), path, opened, now_ms),
            player_wf(*final(self)),
    {
        if opened {
            self.playback_start_ms = Some(now_ms);
            self.paused_position_ms = 0;
            self.position_ms = 0;
            self.current_path = Some(path);
        } else {
            self.is_playing = false;
        }
    }
}

/// The playback flags and position, published by the render thread and read
/// from any thread without a lock. Readers may see a value from just before
/// or after any update.
pub struct AudioState {
    is_playing: AtomicBool,
    is_paused: AtomicBool,
    position_ms: AtomicU64,
}

impl AudioState {
    /// Idle state at position zero.
    pub fn new() -> Self {
        AudioState {
            is_playing: AtomicBool::new(false),
            is_paused: AtomicBool::new(false),
            position_ms: AtomicU64::new(0),
        }
    }

    /// Publishes the player's flags and position.
    pub fn publish(&self, player: &Player) {
        self.is_playing.store(player.is_playing, Ordering::Relaxed);
        self.is_paused.store(player.is_paused, Ordering::Relaxed);
        self.position_ms.store(player.position_ms, Ordering::Relaxed);
    }

    /// The last published position, in milliseconds.
    pub fn get_position_ms(&self) -> u64 {
        self.position_ms.load(Ordering::Relaxed)
    }

    /// Whether the last published state was playing and not paused.
    pub fn is_playing(&self) -> bool {
        self.is_playing.load(Ordering::Relaxed) && !self.is_paused.load(Ordering::Relaxed)
    }
}

/// `Play(a)` and then at once `Play(b)`, both files opening: `b` ends up
/// playing from position zero, and its start replaces the sink that played `a`,
/// so the two never sound together.
pub proof fn lemma_second_play_replaces_first(
    p: Player,
    a: String,
    b: String,
    t1: u64,
    t2: u64,
)
    requires
        player_wf(p),
    ensures
        ({
            let (st1, act1) = command_spec(p, AudioCommand::Play(a), t1);
            let (st2, _) = started_spec(st1, a, t1);
            let (st3, act3) = command_spec(st2, AudioCommand::Play(b), t2);
            let (st4, act4) = started_spec(st3, b, t2);
            &&& act1 == PlayerAction::Open(a)
            &&& act3 == PlayerAction::Open(b)
            &&& act4 == PlayerAction::StartSink {
                volume_permille: p.volume_permille,
                speed_percent: p.speed_percent,
            }
            &&& st4.is_playing && !st4.is_paused
            &&& st4.position_ms == 0
            &&& st4.current_path == Some(b)
            &&& player_wf(st4)
        }),
{
}

/// `Play(a)`, then `PreloadNext(b)`, then `a` runs out: the update asks for `b`
/// while the player still reports playing, and once `b` opens it plays from
/// position zero. No idle state is seen in between.
pub proof fn lemma_gapless_transition(
    p: Player,
    a: String,
    b: String,
    t1: u64,
    t2: u64,
    t3: u64,
)
    requires
        player_wf(p),
    ensures
        ({
            let (st1, _) = command_spec(p, AudioCommand::Play(a), t1);
            let (st2, _) = started_spec(st1, a, t1);
            let (st3, _) = command_spec(st2, AudioCommand::PreloadNext(b), t1);
            let (st4, act4) = tick_spec(st3, t2, true);
            let st5 = next_opened_spec(st4, b, true, t3);
            &&& act4 == PlayerAction::OpenNext(b)
            &&& st4.is_playing && !st4.is_paused
            &&& st5.is_playing && !st5.is_paused
            &&& st5.position_ms == 0
            &&& st5.current_path == Some(b)
            &&& st5.preloaded_path is None
        }),
{
}

/// While a track plays, `Pause` at `t1` and `Pause` again at `t2` resume it:
/// the position then reads what it was at the first call, and goes on from
/// there by the time elapsed since the second call.
pub proof fn lemma_pause_twice_resumes(p: Player, t1: u64, t2: u64, t3: u64)
    requires
        player_wf(p),
        p.is_playing,
        !p.is_paused,
        t2 <= t3,
    ensures
        ({
            let (st1, act1) = command_spec(p, AudioCommand::Pause, t1);
            let (st2, act2) = command_spec(st1, AudioCommand::Pause, t2);
            let (st3, _) = tick_spec(st2, t3, false);
            &&& act1 == PlayerAction::PauseSink
            &&& act2 == PlayerAction::ResumeSink
            &&& st1.is_paused
            &&& st2.is_playing && !st2.is_paused
            &&& st1.position_ms == running_position(p, t1)
            &&& st3.position_ms == sat_add(st1.position_ms as int, t3 - t2)
        }),
{
}

} // verus!
