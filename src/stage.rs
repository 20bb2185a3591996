use vstd::prelude::*;

verus! {

/// Number of visualizer analysis bands.
pub const VIS_BAND_COUNT: usize = 10;

/// Centre frequency, in Hz, of visualizer band `i`: octaves from 32 Hz to 16 kHz.
pub open spec fn vis_frequency_spec(i: int) -> nat {
    if i == 0 {
        32
    } else if i == 1 {
        64
    } else if i == 2 {
        125
    } else if i == 3 {
        250
    } else if i == 4 {
        500
    } else if i == 5 {
        1000
    } else if i == 6 {
        2000
    } else if i == 7 {
        4000
    } else if i == 8 {
        8000
    } else {
        16000
    }
}

/// Centre frequency, in Hz, of visualizer band `i`.
pub fn vis_frequency(i: usize) -> (r: u32)
    requires
        i < VIS_BAND_COUNT,
    ensures
        r == vis_frequency_spec(i as int),
{
    match i {
        0 => 32,
        1 => 64,
        2 => 125,
        3 => 250,
        4 => 500,
        5 => 1000,
        6 => 2000,
        7 => 4000,
        8 => 8000,
        _ => 16000,
    }
}

/// A visualizer band is analysed only below the Nyquist frequency; at or above
/// it the band stays a bypass.
pub open spec fn vis_band_active_spec(i: int, sample_rate: nat) -> bool {
    2 * vis_frequency_spec(i) < sample_rate
}

/// Which visualizer bands get a bandpass filter at `sample_rate`.
pub fn vis_bands_active(sample_rate: u32) -> (r: [bool; 10])
    ensures
        forall|i: int|
            0 <= i < VIS_BAND_COUNT ==> #[trigger] r@[i] == vis_band_active_spec(
                i,
                sample_rate as nat,
            ),
{
    let mut r = [false; 10];
    let mut i: usize = 0;
    while i < VIS_BAND_COUNT
        invariant
            i <= VIS_BAND_COUNT,
            forall|j: int|
                0 <= j < i ==> #[trigger] r@[j] == vis_band_active_spec(j, sample_rate as nat),
        decreases VIS_BAND_COUNT - i,
    {
        r[i] = 2 * (vis_frequency(i) as u64) < sample_rate as u64;
        i = i + 1;
    }
    r
}

/// Samples per visualizer window: about 46 ms of audio at `sample_rate`
/// (2028 samples at 44.1 kHz).
pub open spec fn vis_window_spec(sample_rate: nat) -> nat {
    sample_rate * 46 / 1000
}

/// What the equalizer stage does with one sample that it has just pulled.
#[derive(Debug, Clone, Copy, PartialEq, Eq, Structural)]
pub struct SampleStep {
    /// The channel the sample belongs to.
    pub channel: u16,
    /// Which set of filter memory serves it: 0 for the first channel, 1 for any other.
    pub memory_slot: usize,
    /// Whether the visualizer analyses it (first channel only).
    pub analyze: bool,
    /// Whether this sample closes a visualizer window, so that the levels are
    /// published and the energy totals cleared.
    pub publish: bool,
}

/// The bookkeeping of one equalizer stage: which channel comes next, which
/// settings version the filters were built from, and how far the current
/// visualizer window has filled.
#[derive(Debug, Clone, Copy, PartialEq, Eq, Structural)]
pub struct StageControl {
    pub channels: u16,
    pub sample_rate: u32,
    pub current_channel: u16,
    pub last_checked_version: u64,
    pub vis_sample_count: u32,
    pub vis_window_size: u32,
}

/// The bookkeeping of a stage that has just been built.
pub open spec fn cold_control(channels: u16, sample_rate: u32, version: u64) -> StageControl {
    StageControl {
        channels,
        sample_rate,
        current_channel: 0,
        last_checked_version: version,
        vis_sample_count: 0,
        vis_window_size: vis_window_spec(sample_rate as nat) as u32,
    }
}

impl StageControl {
    /// The stage's invariant: at least one channel, the channel counter in range,
    /// the window sized to the sample rate, and the window count short of the window (or just cleared).
    pub open spec fn wf(&self) -> bool {
        &&& self.channels >= 1
        &&& self.current_channel < self.channels
        &&& self.vis_window_size == vis_window_spec(self.sample_rate as nat)
        &&& (self.vis_sample_count < self.vis_window_size || self.vis_sample_count == 0)
    }

    /// Bookkeeping for a new stage over a source with `channels` channels at
    /// `sample_rate`, whose filters were built from settings version `version`.
    pub fn new(channels: u16, sample_rate: u32, version: u64) -> (r: Self)
        requires
            channels >= 1,
        ensures
            r == cold_control(channels, sample_rate, version),
            r.wf(),
    {
        let window = (sample_rate as u64) * 46 / 1000;
        StageControl {
            channels,
            sample_rate,
            current_channel: 0,
            last_checked_version: version,
            vis_sample_count: 0,
            vis_window_size: window as u32,
        }
    }

    /// Whether the next sample starts a frame: the settings are checked only there.
    pub fn at_frame_start(&self) -> (r: bool)
        ensures
            r == (self.current_channel == 0),
    {
        self.current_channel == 0
    }

    /// Records the settings version just read; true when it differs from the one
    /// the filters were built from, so that they must be rebuilt.
    pub fn settings_changed(&mut self, current_version: u64) -> (r: bool)
        ensures
            r == (current_version != old(self).last_checked_version),
            *final(self) == (StageControl { last_checked_version: current_version, ..*old(self) }),
    {
        if current_version != self.last_checked_version {
            self.last_checked_version = current_version;
            true
        } else {
            false
        }
    }

    /// Accounts for one sample pulled from the source: says which channel it
    /// belongs to, whether the visualizer analyses it and whether it closes a
    /// window, and moves on to the next channel.
    pub fn advance(&mut self) -> (r: SampleStep)
        requires
            old(self).wf(),
        ensures
            final(self).wf(),
            r.channel == old(self).current_channel,
            r.memory_slot == if old(self).current_channel == 0 { 0usize } else { 1usize },
            r.analyze == (old(self).current_channel == 0),
            final(self).current_channel == (old(self).current_channel + 1) % (old(
                self,
            ).channels as int),
            final(self).channels == old(self).channels,
            final(self).sample_rate == old(self).sample_rate,
            final(self).last_checked_version == old(self).last_checked_version,
            final(self).vis_window_size == old(self).vis_window_size,
            r.analyze ==> r.publish == (old(self).vis_sample_count + 1 >= old(
                self,
            ).vis_window_size),
            !r.analyze ==> !r.publish,
            final(self).vis_sample_count == if !r.analyze {
                old(self).vis_sample_count as int
            } else if r.publish {
                0
            } else {
                old(self).vis_sample_count + 1
            },
    {
        let ch = self.current_channel;
        self.current_channel = ((ch as u32 + 1) % (self.channels as u32)) as u16;
        let analyze = ch == 0;
        let mut publish = false;
        if analyze {
            self.vis_sample_count = self.vis_sample_count + 1;
            if self.vis_sample_count >= self.vis_window_size {
                publish = true;
                self.vis_sample_count = 0;
            }
        }
        SampleStep {
            channel: ch,
            memory_slot: if ch == 0 { 0 } else { 1 },
            analyze,
            publish,
        }
    }

    /// After a seek: the channel counter and the visualizer window start over,
    /// together with the filter memory that the caller clears.
    pub fn seek_reset(&mut self)
        ensures
            *final(self) == (StageControl {
                current_channel: 0,
                vis_sample_count: 0,
                ..*old(self)
            }),
    {
        self.current_channel = 0;
        self.vis_sample_count = 0;
    }
}

/// After a seek the stage's bookkeeping is exactly that of a stage built afresh
/// over the same source (with the settings version it had already seen), so no
/// state from before the seek carries over.
pub proof fn lemma_seek_matches_cold_start(c: StageControl)
    requires
        c.wf(),
    ensures
        (StageControl { current_channel: 0, vis_sample_count: 0, ..c }) == cold_control(
            c.channels,
            c.sample_rate,
            c.last_checked_version,
        ),
{
}

} // verus!
