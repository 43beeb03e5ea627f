//! Lights and their features.
use vstd::prelude::*;
use vstd::string::StringSliceAdditionalSpecFns;
use crate::device::ProductArchetype;

verus! {

#[derive(Clone, Copy, Debug, PartialEq, Eq, Hash, Structural)]
pub enum AlertEffectType {
    Breathe,
    Unknown,
}

#[derive(Clone, Debug, PartialEq)]
pub struct AlertState {
    /// Alert effects that the light supports.
    pub action_values: Vec<AlertEffectType>,
}

#[derive(Clone, Debug, PartialEq)]
pub struct ColorTempState {
    /// Color temperature in mirek or [None] when the light color is not in the ct spectrum.
    pub mirek: Option<u16>,
    /// Indication whether the value presented in mirek is valid.
    pub mirek_valid: bool,
    pub mirek_schema: MirekSchema,
}

#[derive(Clone, Copy, Debug, PartialEq, Eq, Hash, Structural)]
pub enum DynamicsStatus {
    DynamicPalette,
    /// No dynamics are playing (wire name `none`).
    NoDynamics,
    Unknown,
}

#[derive(Clone, Debug, PartialEq)]
pub struct EffectState {
    pub effect: Option<EffectType>,
    /// Possible effect values you can set in a light.
    pub effect_values: Vec<EffectType>,
    /// Current status values the light is in regarding effects.
    pub status: EffectType,
    /// Possible status values in which a light could be when playing an effect.
    pub status_values: Vec<EffectType>,
}

#[derive(Clone, Copy, Debug, PartialEq, Eq, Hash, Structural)]
pub enum EffectType {
    Prism,
    Opal,
    Glisten,
    Sparkle,
    Fire,
    Candle,
    Underwater,
    Cosmos,
    Sunbeam,
    Enchant,
    NoEffect,
    Unknown,
}

/// The gamut types supported by hue.
#[derive(Clone, Copy, Debug, PartialEq, Eq, Hash, Structural)]
pub enum GamutType {
    /// Gamut of early Philips color-only products
    A,
    /// Limited gamut of first Hue color products
    B,
    /// Richer color gamut of Hue white and color ambiance products
    C,
    /// Color gamut of non-hue products with non-hue gamuts resp w/o gamut
    Other,
}

#[derive(Clone, Copy, Debug, PartialEq, Eq, Hash, Structural)]
pub enum GradientMode {
    InterpolatedPalette,
    InterpolatedPaletteMirrored,
    RandomPixelated,
    Unknown,
}

#[derive(Clone, Debug, PartialEq)]
pub struct LightMetadata {
    /// Human readable name of a resource.
    pub name: String,
    /// Product archetype.
    pub archetype: ProductArchetype,
    /// A fixed mired value of the white lamp.
    pub fixed_mired: Option<u16>,
}

#[derive(Clone, Debug, PartialEq)]
pub struct MirekSchema {
    /// Minimum color temperature this light supports.
    pub mirek_minimum: u16,
    /// Maximum color temperature this light supports.
    pub mirek_maximum: u16,
}

#[derive(Clone, Copy, Debug, PartialEq, Eq, Hash, Structural)]
pub enum Mode {
    Normal,
    Streaming,
    Unknown,
}

#[derive(Clone, Debug, PartialEq)]
pub struct OnState {
    /// On/Off state of the light.
    ///
    /// on=true
    /// off=false
    pub on: bool,
}

#[derive(Clone, Copy, Debug, PartialEq, Eq, Hash, Structural)]
pub enum ParseColorError {
    InvalidByte,
    InvalidLength,
}

#[derive(Clone, Copy, Debug, PartialEq, Eq, Hash, Structural)]
pub enum PowerupOnMode {
    /// Use the value specified in the [PowerupOnState] `on` property.
    On,
    /// Alternate between on and off on each subsequent power toggle.
    Toggle,
    /// Return to the state it was in before powering off.
    Previous,
}

#[derive(Clone, Debug, PartialEq)]
pub struct PowerupOnState {
    /// State to activate after powerup. When setting mode [PowerupOnMode::On], the `on` property must be included.
    pub mode: PowerupOnMode,
    pub on: Option<OnState>,
}

#[derive(Clone, Copy, Debug, PartialEq, Eq, Hash, Structural)]
pub enum PowerupPresetType {
    Safety,
    Powerfail,
    LastOnState,
    Custom,
}

#[derive(Clone, Debug, PartialEq)]
pub struct PowerupState {
    /// When setting the [PowerupPresetType::Custom] preset the additional properties can be set.
    /// For all other presets, no other properties can be included.
    pub preset: PowerupPresetType,
    /// Indicates if the shown values have been configured in the lightsource.
    pub configured: bool,
    /// State to activate after powerup.
    pub on: PowerupOnState,
}

#[derive(Clone, Copy, Debug, PartialEq, Eq, Hash, Structural)]
pub enum SignalType {
    /// Stop active signal.
    NoSignal,
    /// Toggle between max brightness and off in fixed color.
    OnOff,
    /// Toggles between off and max brightness with a provided color.
    OnOffColor,
    /// Alternates between two provided colors.
    Alternating,
    Unknown,
}

#[derive(Clone, Debug, PartialEq)]
pub struct TimedEffectState {
    pub effect: Option<TimedEffectType>,
    /// Possible timed effect values you can set in a light.
    pub effect_values: Vec<TimedEffectType>,
    /// Current status values the light is in regarding timed effects.
    pub status: TimedEffectType,
    /// Possible status values in which a light could be when playing a timed effect.
    pub status_values: Vec<TimedEffectType>,
    /// Duration (ms) is mandatory when timed effect is set except for NoEffect.
    /// Resolution decreases for a larger duration. e.g effects with duration smaller than a minute
    /// will be rounded to a resolution of 1s, while effects with duration larger than an hour
    /// will be arounded up to a resolution of 300s. Duration has a max of 21600000 ms.
    pub duration: Option<usize>,
}

#[derive(Clone, Copy, Debug, PartialEq, Eq, Hash, Structural)]
pub enum TimedEffectType {
    Sunrise,
    Sunset,
    NoEffect,
    Unknown,
}

/// The value of a hexadecimal digit byte.
pub open spec fn hex_val(b: u8) -> Option<u8> {
    if 48 <= b <= 57 {
        Some((b - 48) as u8)
    } else if 65 <= b <= 70 {
        Some((b - 55) as u8)
    } else if 97 <= b <= 102 {
        Some((b - 87) as u8)
    } else {
        None
    }
}

/// The digit bytes of a color text: all after a leading `#` for lengths
/// four and seven, all of them otherwise.
pub open spec fn hex_digits(s: Seq<u8>) -> Seq<u8> {
    if s.len() == 4 || s.len() == 7 {
        s.subrange(1, s.len() as int)
    } else {
        s
    }
}

/// The three channels that a color text gives, from its UTF-8 bytes. Three
/// or four bytes are the short form, each digit times seventeen; six or
/// seven bytes give each channel from two digits, sixteen times the first
/// plus the second. Four and seven bytes must start with `#`.
pub open spec fn spec_hex_rgb(s: Seq<u8>) -> Result<(u8, u8, u8), ParseColorError> {
    let d = hex_digits(s);
    if !(s.len() == 3 || s.len() == 4 || s.len() == 6 || s.len() == 7) {
        Err(ParseColorError::InvalidLength)
    } else if (s.len() == 4 || s.len() == 7) && s[0] != 35 {
        Err(ParseColorError::InvalidByte)
    } else if exists|i: int| 0 <= i < d.len() && (#[trigger] hex_val(d[i])) is None {
        Err(ParseColorError::InvalidByte)
    } else if d.len() == 3 {
        Ok(
            (
                (17 * hex_val(d[0]).unwrap()) as u8,
                (17 * hex_val(d[1]).unwrap()) as u8,
                (17 * hex_val(d[2]).unwrap()) as u8,
            ),
        )
    } else {
        Ok(
            (
                (16 * hex_val(d[0]).unwrap() + hex_val(d[1]).unwrap()) as u8,
                (16 * hex_val(d[2]).unwrap() + hex_val(d[3]).unwrap()) as u8,
                (16 * hex_val(d[4]).unwrap() + hex_val(d[5]).unwrap()) as u8,
            ),
        )
    }
}

fn hex_value(b: u8) -> (r: Option<u8>)
    ensures
        r == hex_val(b),
        r is Some ==> r.unwrap() < 16,
{
    if 48 <= b && b <= 57 {
        Some(b - 48)
    } else if 65 <= b && b <= 70 {
        Some(b - 55)
    } else if 97 <= b && b <= 102 {
        Some(b - 87)
    } else {
        None
    }
}

/// Reads the red, green and blue channels of a color text such as
/// `#FAA020` or `fa2`.
pub fn parse_hex_rgb(hex: &str) -> (r: Result<(u8, u8, u8), ParseColorError>)
    ensures
        r == spec_hex_rgb(hex.spec_bytes()),
{
    let bytes = hex.as_bytes();
    let len = bytes.len();
    if !(len == 3 || len == 4 || len == 6 || len == 7) {
        return Err(ParseColorError::InvalidLength);
    }
    let start: usize = if len == 4 || len == 7 { 1 } else { 0 };
    if start == 1 && bytes[0] != 35 {
        return Err(ParseColorError::InvalidByte);
    }
    let ghost d = hex_digits(bytes@);
    assert(d =~= bytes@.subrange(start as int, len as int));
    let mut vals: Vec<u8> = Vec::new();
    let mut i: usize = start;
    while i < len
        invariant
            start <= i <= len,
            bytes@ == hex.spec_bytes(),
            len == bytes@.len(),
            len == 3 || len == 4 || len == 6 || len == 7,
            start == (if len == 4 || len == 7 { 1usize } else { 0usize }),
            start == 1 ==> bytes@[0] == 35,
            d == bytes@.subrange(start as int, len as int),
            vals.len() == i - start,
            forall|j: int| 0 <= j < vals.len() ==> hex_val(d[j]) == Some(#[trigger] vals[j]) && vals[j] < 16,
        decreases len - i,
    {
        match hex_value(bytes[i]) {
            Some(v) => vals.push(v),
            None => {
                assert(hex_val(d[i - start]) is None);
                return Err(ParseColorError::InvalidByte);
            },
        }
        i += 1;
    }
    assert forall|j: int| 0 <= j < d.len() implies (#[trigger] hex_val(d[j])) is Some by {
        assert(hex_val(d[j]) == Some(vals[j]));
    }
    if vals.len() == 3 {
        Ok((vals[0] * 17, vals[1] * 17, vals[2] * 17))
    } else {
        Ok((vals[0] * 16 + vals[1], vals[2] * 16 + vals[3], vals[4] * 16 + vals[5]))
    }
}

impl AlertEffectType {
    /// The wire name of this value.
    pub open spec fn spec_tag(&self) -> Seq<char> {
        match self {
            AlertEffectType::Breathe => "breathe"@,
            AlertEffectType::Unknown => "unknown"@,
        }
    }

    /// The wire name of this value.
    pub fn tag(&self) -> (r: &'static str)
        ensures
            r@ == self.spec_tag(),
    {
        match self {
            AlertEffectType::Breathe => "breathe",
            AlertEffectType::Unknown => "unknown",
        }
    }
}

impl EffectType {
    /// The wire name of this value.
    pub open spec fn spec_tag(&self) -> Seq<char> {
        match self {
            EffectType::Prism => "prism"@,
            EffectType::Opal => "opal"@,
            EffectType::Glisten => "glisten"@,
            EffectType::Sparkle => "sparkle"@,
            EffectType::Fire => "fire"@,
            EffectType::Candle => "candle"@,
            EffectType::Underwater => "underwater"@,
            EffectType::Cosmos => "cosmos"@,
            EffectType::Sunbeam => "sunbeam"@,
            EffectType::Enchant => "enchant"@,
            EffectType::NoEffect => "no_effect"@,
            EffectType::Unknown => "unknown"@,
        }
    }

    /// The wire name of this value.
    pub fn tag(&self) -> (r: &'static str)
        ensures
            r@ == self.spec_tag(),
    {
        match self {
            EffectType::Prism => "prism",
            EffectType::Opal => "opal",
            EffectType::Glisten => "glisten",
            EffectType::Sparkle => "sparkle",
            EffectType::Fire => "fire",
            EffectType::Candle => "candle",
            EffectType::Underwater => "underwater",
            EffectType::Cosmos => "cosmos",
            EffectType::Sunbeam => "sunbeam",
            EffectType::Enchant => "enchant",
            EffectType::NoEffect => "no_effect",
            EffectType::Unknown => "unknown",
        }
    }
}

impl GradientMode {
    /// The wire name of this value.
    pub open spec fn spec_tag(&self) -> Seq<char> {
        match self {
            GradientMode::InterpolatedPalette => "interpolated_palette"@,
            GradientMode::InterpolatedPaletteMirrored => "interpolated_palette_mirrored"@,
            GradientMode::RandomPixelated => "random_pixelated"@,
            GradientMode::Unknown => "unknown"@,
        }
    }

    /// The wire name of this value.
    pub fn tag(&self) -> (r: &'static str)
        ensures
            r@ == self.spec_tag(),
    {
        match self {
            GradientMode::InterpolatedPalette => "interpolated_palette",
            GradientMode::InterpolatedPaletteMirrored => "interpolated_palette_mirrored",
            GradientMode::RandomPixelated => "random_pixelated",
            GradientMode::Unknown => "unknown",
        }
    }
}

impl PowerupOnMode {
    /// The wire name of this value.
    pub open spec fn spec_tag(&self) -> Seq<char> {
        match self {
            PowerupOnMode::On => "on"@,
            PowerupOnMode::Toggle => "toggle"@,
            PowerupOnMode::Previous => "previous"@,
        }
    }

    /// The wire name of this value.
    pub fn tag(&self) -> (r: &'static str)
        ensures
            r@ == self.spec_tag(),
    {
        match self {
            PowerupOnMode::On => "on",
            PowerupOnMode::Toggle => "toggle",
            PowerupOnMode::Previous => "previous",
        }
    }
}

impl PowerupPresetType {
    /// The wire name of this value.
    pub open spec fn spec_tag(&self) -> Seq<char> {
        match self {
            PowerupPresetType::Safety => "safety"@,
            PowerupPresetType::Powerfail => "powerfail"@,
            PowerupPresetType::LastOnState => "last_on_state"@,
            PowerupPresetType::Custom => "custom"@,
        }
    }

    /// The wire name of this value.
    pub fn tag(&self) -> (r: &'static str)
        ensures
            r@ == self.spec_tag(),
    {
        match self {
            PowerupPresetType::Safety => "safety",
            PowerupPresetType::Powerfail => "powerfail",
            PowerupPresetType::LastOnState => "last_on_state",
            PowerupPresetType::Custom => "custom",
        }
    }
}

impl SignalType {
    /// The wire name of this value.
    pub open spec fn spec_tag(&self) -> Seq<char> {
        match self {
            SignalType::NoSignal => "no_signal"@,
            SignalType::OnOff => "on_off"@,
            SignalType::OnOffColor => "on_off_color"@,
            SignalType::Alternating => "alternating"@,
            SignalType::Unknown => "unknown"@,
        }
    }

    /// The wire name of this value.
    pub fn tag(&self) -> (r: &'static str)
        ensures
            r@ == self.spec_tag(),
    {
        match self {
            SignalType::NoSignal => "no_signal",
            SignalType::OnOff => "on_off",
            SignalType::OnOffColor => "on_off_color",
            SignalType::Alternating => "alternating",
            SignalType::Unknown => "unknown",
        }
    }
}

impl TimedEffectType {
    /// The wire name of this value.
    pub open spec fn spec_tag(&self) -> Seq<char> {
        match self {
            TimedEffectType::Sunrise => "sunrise"@,
            TimedEffectType::Sunset => "sunset"@,
            TimedEffectType::NoEffect => "no_effect"@,
            TimedEffectType::Unknown => "unknown"@,
        }
    }

    /// The wire name of this value.
    pub fn tag(&self) -> (r: &'static str)
        ensures
            r@ == self.spec_tag(),
    {
        match self {
            TimedEffectType::Sunrise => "sunrise",
            TimedEffectType::Sunset => "sunset",
            TimedEffectType::NoEffect => "no_effect",
            TimedEffectType::Unknown => "unknown",
        }
    }
}

} // verus!
