use std::sync::atomic::{AtomicU64, Ordering};
use vstd::prelude::*;

verus! {

/// Number of bands of the equalizer.
pub const BAND_COUNT: usize = 5;

/// Largest gain, in hundredths of a decibel, that a single band or the preamp is clamped to.
pub const GAIN_LIMIT_CDB: i32 = 1200;

/// A band whose gain is within this many hundredths of a decibel of zero is left as a bypass.
pub const BYPASS_THRESHOLD_CDB: i32 = 1;

/// The shape of one equalizer band's filter.
#[derive(Debug, Clone, Copy, PartialEq, Eq, Structural)]
pub enum FilterType {
    LowShelf,
    Peaking,
    HighShelf,
}

/// One band of the equalizer. Gains are in hundredths of a decibel and the
/// quality factor in thousandths, so that the settings are exact integers.
#[derive(Debug)]
pub struct BandSettings {
    pub frequency_hz: u32,
    pub gain_cdb: i32,
    pub q_milli: u32,
    pub filter_type: FilterType,
    pub label: String,
}

/// What a band is, as plain values.
pub struct BandModel {
    pub frequency_hz: nat,
    pub gain_cdb: int,
    pub q_milli: nat,
    pub filter_type: FilterType,
    pub label: Seq<char>,
}

impl View for BandSettings {
    type V = BandModel;

    open spec fn view(&self) -> BandModel {
        BandModel {
            frequency_hz: self.frequency_hz as nat,
            gain_cdb: self.gain_cdb as int,
            q_milli: self.q_milli as nat,
            filter_type: self.filter_type,
            label: self.label@,
        }
    }
}

/// The equalizer settings: an enable switch, a preamp and five bands.
#[derive(Debug)]
pub struct EqualizerSettings {
    pub enabled: bool,
    pub preamp_cdb: i32,
    pub bands: [BandSettings; 5],
    pub preset_name: String,
}

/// What the equalizer settings are, as plain values.
pub struct EqualizerModel {
    pub enabled: bool,
    pub preamp_cdb: int,
    pub bands: Seq<BandModel>,
    pub preset_name: Seq<char>,
}

impl View for EqualizerSettings {
    type V = EqualizerModel;

    open spec fn view(&self) -> EqualizerModel {
        EqualizerModel {
            enabled: self.enabled,
            preamp_cdb: self.preamp_cdb as int,
            bands: self.bands@.map_values(|b: BandSettings| b@),
            preset_name: self.preset_name@,
        }
    }
}

/// The value `x` held to `[lo, hi]`.
pub open spec fn clamp_spec(x: int, lo: int, hi: int) -> int {
    if x < lo {
        lo
    } else if x > hi {
        hi
    } else {
        x
    }
}

/// A gain held to the range that callers may set, `[-12 dB, 12 dB]`.
pub open spec fn clamp_gain_spec(g: int) -> int {
    clamp_spec(g, -GAIN_LIMIT_CDB as int, GAIN_LIMIT_CDB as int)
}

/// Holds a gain to the range that callers may set, `[-12 dB, 12 dB]`.
pub fn clamp_gain(gain_cdb: i32) -> (r: i32)
    ensures
        r == clamp_gain_spec(gain_cdb as int),
{
    if gain_cdb < -GAIN_LIMIT_CDB {
        -GAIN_LIMIT_CDB
    } else if gain_cdb > GAIN_LIMIT_CDB {
        GAIN_LIMIT_CDB
    } else {
        gain_cdb
    }
}

/// The band `b` with its gain replaced by `g`.
pub open spec fn with_gain(b: BandModel, g: int) -> BandModel {
    BandModel { gain_cdb: g, ..b }
}

/// One change to the equalizer settings.
#[derive(Debug)]
pub enum EqUpdate {
    /// Sets one band's gain, clamped; the preset becomes "Custom". A band past the
    /// last is ignored.
    Band { band: usize, gain_cdb: i32 },
    /// Switches the equalizer on or off.
    Enabled(bool),
    /// Sets every band's gain, the preamp and the preset name, as given.
    Preset { bands: [i32; 5], preamp_cdb: i32, name: String },
    /// Sets the preamp, clamped.
    Preamp(i32),
}

/// Name that a preset takes once a single band has been changed by hand.
pub open spec fn custom_name() -> Seq<char> {
    "Custom"@
}

/// The settings `s` after the update `u`.
pub open spec fn apply_spec(s: EqualizerModel, u: EqUpdate) -> EqualizerModel {
    match u {
        EqUpdate::Band { band, gain_cdb } => {
            if band < BAND_COUNT {
                EqualizerModel {
                    bands: s.bands.update(
                        band as int,
                        with_gain(s.bands[band as int], clamp_gain_spec(gain_cdb as int)),
                    ),
                    preset_name: custom_name(),
                    ..s
                }
            } else {
                s
            }
        },
        EqUpdate::Enabled(e) => EqualizerModel { enabled: e, ..s },
        EqUpdate::Preset { bands, preamp_cdb, name } => EqualizerModel {
            bands: Seq::new(
                s.bands.len(),
                |i: int| with_gain(s.bands[i], bands@[i] as int),
            ),
            preamp_cdb: preamp_cdb as int,
            preset_name: name@,
            ..s
        },
        EqUpdate::Preamp(p) => EqualizerModel { preamp_cdb: clamp_gain_spec(p as int), ..s },
    }
}

impl EqualizerSettings {
    /// Sets band `band`'s gain to `gain_cdb` held to `[-12 dB, 12 dB]`, and names
    /// the preset "Custom". Does nothing for a band past the last.
    pub fn set_band_gain(&mut self, band: usize, gain_cdb: i32)
        ensures
            final(self)@ == apply_spec(old(self)@, EqUpdate::Band { band, gain_cdb }),
    {
        if band < BAND_COUNT {
            self.bands[band].gain_cdb = clamp_gain(gain_cdb);
            self.preset_name = String::from_str("Custom");
            assert(self@.bands =~= apply_spec(old(self)@, EqUpdate::Band { band, gain_cdb }).bands);
        }
    }

    /// Switches the equalizer on or off.
    pub fn set_enabled(&mut self, enabled: bool)
        ensures
            final(self)@ == apply_spec(old(self)@, EqUpdate::Enabled(enabled)),
    {
        self.enabled = enabled;
    }

    /// Sets the preamp to `preamp_cdb` held to `[-12 dB, 12 dB]`.
    pub fn set_preamp(&mut self, preamp_cdb: i32)
        ensures
            final(self)@ == apply_spec(old(self)@, EqUpdate::Preamp(preamp_cdb)),
    {
        self.preamp_cdb = clamp_gain(preamp_cdb);
    }

    /// Loads a preset: every band's gain, the preamp and the name are taken as
    /// given, without clamping.
    pub fn apply_preset(&mut self, bands: [i32; 5], preamp_cdb: i32, name: String)
        ensures
            final(self)@ == apply_spec(
                old(self)@,
                EqUpdate::Preset { bands, preamp_cdb, name },
            ),
    {
        let ghost target = apply_spec(old(self)@, EqUpdate::Preset { bands, preamp_cdb, name });
        assert(target.bands.len() == BAND_COUNT);
        let mut i: usize = 0;
        while i < BAND_COUNT
            invariant
                i <= BAND_COUNT,
                target.bands.len() == BAND_COUNT,
                target == apply_spec(old(self)@, EqUpdate::Preset { bands, preamp_cdb, name }),
                self.enabled == old(self).enabled,
                self.preamp_cdb == old(self).preamp_cdb,
                self.preset_name == old(self).preset_name,
                forall|j: int| 0 <= j < i ==> #[trigger] self.bands@[j]@ == target.bands[j],
                forall|j: int| i <= j < BAND_COUNT ==> #[trigger] self.bands@[j] == old(self).bands@[j],
            decreases BAND_COUNT - i,
        {
            self.bands[i].gain_cdb = bands[i];
            i = i + 1;
        }
        self.preamp_cdb = preamp_cdb;
        self.preset_name = name;
        assert(self@.bands =~= target.bands);
    }

    /// Applies one change to the settings.
    pub fn apply_update(&mut self, update: EqUpdate)
        ensures
            final(self)@ == apply_spec(old(self)@, update),
    {
        match update {
            EqUpdate::Band { band, gain_cdb } => self.set_band_gain(band, gain_cdb),
            EqUpdate::Enabled(e) => self.set_enabled(e),
            EqUpdate::Preset { bands, preamp_cdb, name } => self.apply_preset(bands, preamp_cdb, name),
            EqUpdate::Preamp(p) => self.set_preamp(p),
        }
    }
}

/// A fixed band of the default layout, at zero gain.
pub open spec fn default_band(
    frequency_hz: nat,
    q_milli: nat,
    filter_type: FilterType,
    label: Seq<char>,
) -> BandModel {
    BandModel { frequency_hz, gain_cdb: 0, q_milli, filter_type, label }
}

/// The default settings: enabled, no preamp, every band flat, preset "Flat".
pub open spec fn default_model() -> EqualizerModel {
    EqualizerModel {
        enabled: true,
        preamp_cdb: 0,
        bands: seq![
            default_band(60, 707, FilterType::LowShelf, "60Hz"@),
            default_band(250, 1000, FilterType::Peaking, "250Hz"@),
            default_band(1000, 1000, FilterType::Peaking, "1kHz"@),
            default_band(4000, 1000, FilterType::Peaking, "4kHz"@),
            default_band(16000, 707, FilterType::HighShelf, "16kHz"@),
        ],
        preset_name: "Flat"@,
    }
}

impl BandSettings {
    fn flat(frequency_hz: u32, q_milli: u32, filter_type: FilterType, label: &str) -> (r: Self)
        ensures
            r@ == default_band(frequency_hz as nat, q_milli as nat, filter_type, label@),
    {
        BandSettings { frequency_hz, gain_cdb: 0, q_milli, filter_type, label: String::from_str(label) }
    }

    /// A copy of this band.
    pub fn snapshot(&self) -> (r: Self)
        ensures
            r@ == self@,
    {
        BandSettings {
            frequency_hz: self.frequency_hz,
            gain_cdb: self.gain_cdb,
            q_milli: self.q_milli,
            filter_type: self.filter_type,
            label: self.label.clone(),
        }
    }
}

impl Default for EqualizerSettings {
    fn default() -> (r: Self)
        ensures
            r@ == default_model(),
    {
        let r = EqualizerSettings {
            enabled: true,
            preamp_cdb: 0,
            bands: [
                BandSettings::flat(60, 707, FilterType::LowShelf, "60Hz"),
                BandSettings::flat(250, 1000, FilterType::Peaking, "250Hz"),
                BandSettings::flat(1000, 1000, FilterType::Peaking, "1kHz"),
                BandSettings::flat(4000, 1000, FilterType::Peaking, "4kHz"),
                BandSettings::flat(16000, 707, FilterType::HighShelf, "16kHz"),
            ],
            preset_name: String::from_str("Flat"),
        };
        assert(r@.bands =~= default_model().bands);
        r
    }
}

impl EqualizerSettings {
    /// A copy of the settings, as a reader takes it.
    pub fn snapshot(&self) -> (r: Self)
        ensures
            r@ == self@,
    {
        let r = EqualizerSettings {
            enabled: self.enabled,
            preamp_cdb: self.preamp_cdb,
            bands: [
                self.bands[0].snapshot(),
                self.bands[1].snapshot(),
                self.bands[2].snapshot(),
                self.bands[3].snapshot(),
                self.bands[4].snapshot(),
            ],
            preset_name: self.preset_name.clone(),
        };
        assert(r@.bands =~= self@.bands);
        r
    }
}

/// Whether band `i` runs its filter: only while the equalizer is enabled and the
/// band's gain is away from zero; otherwise the band is a bypass.
pub open spec fn band_active(s: EqualizerModel, i: int) -> bool {
    s.enabled && (s.bands[i].gain_cdb > BYPASS_THRESHOLD_CDB || s.bands[i].gain_cdb
        < -BYPASS_THRESHOLD_CDB)
}

impl EqualizerSettings {
    /// Which bands run their filter; the others pass samples through unchanged.
    pub fn active_bands(&self) -> (r: [bool; 5])
        ensures
            forall|i: int| 0 <= i < BAND_COUNT ==> #[trigger] r@[i] == band_active(self@, i),
    {
        let mut r = [false; 5];
        let mut i: usize = 0;
        while i < BAND_COUNT
            invariant
                i <= BAND_COUNT,
                forall|j: int| 0 <= j < i ==> #[trigger] r@[j] == band_active(self@, j),
            decreases BAND_COUNT - i,
        {
            let g = self.bands[i].gain_cdb;
            r[i] = self.enabled && (g > BYPASS_THRESHOLD_CDB || g < -BYPASS_THRESHOLD_CDB);
            i = i + 1;
        }
        r
    }
}

/// A named set of band gains and a preamp, in hundredths of a decibel.
#[derive(Debug)]
pub struct EqPreset {
    pub name: String,
    pub bands: [i32; 5],
    pub preamp_cdb: i32,
}

/// What a preset is, as plain values.
pub struct PresetModel {
    pub name: Seq<char>,
    pub bands: Seq<int>,
    pub preamp_cdb: int,
}

impl View for EqPreset {
    type V = PresetModel;

    open spec fn view(&self) -> PresetModel {
        PresetModel {
            name: self.name@,
            bands: self.bands@.map_values(|g: i32| g as int),
            preamp_cdb: self.preamp_cdb as int,
        }
    }
}

/// The built-in presets, in the order they are offered.
pub open spec fn preset_table() -> Seq<PresetModel> {
    seq![
        PresetModel { name: "Flat"@, bands: seq![0, 0, 0, 0, 0], preamp_cdb: 0 },
        PresetModel { name: "More Bass"@, bands: seq![600, 400, 0, 0, 0], preamp_cdb: -200 },
        PresetModel { name: "Rock"@, bands: seq![400, 200, -100, 300, 400], preamp_cdb: -100 },
        PresetModel { name: "Pop"@, bands: seq![-100, 200, 400, 200, -100], preamp_cdb: 0 },
        PresetModel { name: "Jazz"@, bands: seq![300, 100, -100, 200, 400], preamp_cdb: 0 },
        PresetModel { name: "Classical"@, bands: seq![0, 0, 0, 200, 400], preamp_cdb: 0 },
        PresetModel { name: "R&B"@, bands: seq![500, 300, -100, 200, 300], preamp_cdb: -100 },
        PresetModel { name: "Vocal Boost"@, bands: seq![-200, 0, 400, 300, 100], preamp_cdb: 0 },
    ]
}

fn preset(name: &str, bands: [i32; 5], preamp_cdb: i32) -> (r: EqPreset)
    ensures
        r.name@ == name@,
        r.bands == bands,
        r.preamp_cdb == preamp_cdb,
{
    EqPreset { name: String::from_str(name), bands, preamp_cdb }
}

/// The built-in presets.
pub fn get_presets() -> (r: Vec<EqPreset>)
    ensures
        r@.map_values(|p: EqPreset| p@) == preset_table(),
{
    let r = vec![
        preset("Flat", [0, 0, 0, 0, 0], 0),
        preset("More Bass", [600, 400, 0, 0, 0], -200),
        preset("Rock", [400, 200, -100, 300, 400], -100),
        preset("Pop", [-100, 200, 400, 200, -100], 0),
        preset("Jazz", [300, 100, -100, 200, 400], 0),
        preset("Classical", [0, 0, 0, 200, 400], 0),
        preset("R&B", [500, 300, -100, 200, 300], -100),
        preset("Vocal Boost", [-200, 0, 400, 300, 100], 0),
    ];
    assert(r@.map_values(|p: EqPreset| p@) =~= preset_table()) by {
        assert(r@[0]@.bands =~= preset_table()[0].bands);
        assert(r@[1]@.bands =~= preset_table()[1].bands);
        assert(r@[2]@.bands =~= preset_table()[2].bands);
        assert(r@[3]@.bands =~= preset_table()[3].bands);
        assert(r@[4]@.bands =~= preset_table()[4].bands);
        assert(r@[5]@.bands =~= preset_table()[5].bands);
        assert(r@[6]@.bands =~= preset_table()[6].bands);
        assert(r@[7]@.bands =~= preset_table()[7].bands);
    }
    r
}

/// The built-in preset named `name`: `Some` exactly when one of the table's
/// names equals `name`, and then that preset.
pub fn find_preset(name: &str) -> (r: Option<EqPreset>)
    ensures
        match r {
            Some(p) => exists|i: int|
                0 <= i < preset_table().len() && #[trigger] preset_table()[i].name == name@
                    && p@ == preset_table()[i],
            None => forall|i: int|
                0 <= i < preset_table().len() ==> #[trigger] preset_table()[i].name != name@,
        },
{
    let mut presets = get_presets();
    let ghost table = presets@.map_values(|p: EqPreset| p@);
    let target = String::from_str(name);
    let mut i: usize = 0;
    while i < presets.len()
        invariant
            table == preset_table(),
            presets@.map_values(|p: EqPreset| p@) == table,
            i <= presets@.len(),
            forall|j: int| 0 <= j < i ==> #[trigger] table[j].name != name@,
            target@ == name@,
        decreases presets@.len() - i,
    {
        if presets[i].name == target {
            let ghost k = i as int;
            assert(table[k] == presets@[k]@);
            let p = presets.remove(i);
            assert(preset_table()[k].name == name@ && p@ == preset_table()[k]);
            return Some(p);
        }
        assert(table[i as int] == presets@[i as int]@);
        i = i + 1;
    }
    None
}

/// Process-wide counter that every settings change bumps, so that consumers can
/// tell that the settings moved without taking the settings lock on every sample.
pub struct SettingsVersion {
    counter: AtomicU64,
}

impl SettingsVersion {
    /// A counter starting at zero.
    pub fn new() -> Self {
        SettingsVersion { counter: AtomicU64::new(0) }
    }
}

/// Announces a settings change to every consumer (the counter wraps on overflow).
pub fn bump_settings_version(version: &SettingsVersion) {
    let _ = version.counter.fetch_add(1, Ordering::Relaxed);
}

/// The counter's current value. Other threads may bump it at any moment, so no
/// particular value is promised.
pub fn get_settings_version(version: &SettingsVersion) -> u64 {
    version.counter.load(Ordering::Relaxed)
}

/// With the equalizer enabled and every band at zero gain, no band filter is
/// active: every band is left as a bypass.
pub proof fn lemma_flat_bands_bypass(s: EqualizerModel)
    requires
        s.enabled,
        s.bands.len() == BAND_COUNT,
        forall|i: int| 0 <= i < BAND_COUNT ==> #[trigger] s.bands[i].gain_cdb == 0,
    ensures
        forall|i: int| 0 <= i < BAND_COUNT ==> !#[trigger] band_active(s, i),
{
}

/// With the equalizer disabled no band filter runs, whatever the band settings.
pub proof fn lemma_disabled_bypasses_every_band(s: EqualizerModel)
    requires
        !s.enabled,
    ensures
        forall|i: int| 0 <= i < BAND_COUNT ==> !#[trigger] band_active(s, i),
{
}

/// Applying the same change twice leaves the same settings, and so the same
/// filter plan, as applying it once: nothing accumulates.
pub proof fn lemma_update_idempotent(s: EqualizerModel, u: EqUpdate)
    requires
        s.bands.len() == BAND_COUNT,
    ensures
        apply_spec(apply_spec(s, u), u) == apply_spec(s, u),
        forall|i: int|
            0 <= i < BAND_COUNT ==> #[trigger] band_active(apply_spec(apply_spec(s, u), u), i)
                == band_active(apply_spec(s, u), i),
{
    let once = apply_spec(s, u);
    let twice = apply_spec(once, u);
    match u {
        EqUpdate::Band { band, gain_cdb } => {
            if band < BAND_COUNT {
                assert(twice.bands =~= once.bands);
            }
        },
        EqUpdate::Preset { bands, preamp_cdb, name } => {
            assert(twice.bands =~= once.bands);
        },
        _ => {},
    }
}

/// Loading a preset and then reading the settings gives back exactly the
/// preset's band gains, preamp and name.
pub proof fn lemma_preset_round_trip(
    s: EqualizerModel,
    bands: [i32; 5],
    preamp_cdb: i32,
    name: String,
)
    requires
        s.bands.len() == BAND_COUNT,
    ensures
        ({
            let t = apply_spec(s, EqUpdate::Preset { bands, preamp_cdb, name });
            &&& t.bands.len() == BAND_COUNT
            &&& forall|i: int| 0 <= i < BAND_COUNT ==> #[trigger] t.bands[i].gain_cdb == bands@[i]
            &&& t.preamp_cdb == preamp_cdb
            &&& t.preset_name == name@
        }),
{
}

} // verus!
