use vstd::prelude::*;
use vstd::string::StringSliceAdditionalSpecFns;
use vstd::utf8::encode_utf8;

use crate::errors::BlurErrorCode;
use crate::handles::BlurSystemHandle;
use crate::handles::BlurWindowHandle;

verus! {

/// The engine's closed performance/quality trade-off selector.
///
/// The ordinal values fixed by [`preset_ordinal`] are part of the wire
/// contract with the native layer and must not be renumbered.
#[derive(Clone, Copy, Debug, PartialEq, Eq, Structural)]
pub enum BlurQualityPreset {
    High,
    Balanced,
    Performance,
    Minimal,
}

/// The wire ordinal of a quality preset.
pub open spec fn spec_preset_ordinal(p: BlurQualityPreset) -> i32 {
    match p {
        BlurQualityPreset::High => 0,
        BlurQualityPreset::Balanced => 1,
        BlurQualityPreset::Performance => 2,
        BlurQualityPreset::Minimal => 3,
    }
}

/// Convert a quality preset to the fixed-width integer the native layer
/// expects.
#[verifier::when_used_as_spec(spec_preset_ordinal)]
pub fn preset_ordinal(p: BlurQualityPreset) -> (r: i32)
    ensures
        r == spec_preset_ordinal(p),
{
    match p {
        BlurQualityPreset::High => 0,
        BlurQualityPreset::Balanced => 1,
        BlurQualityPreset::Performance => 2,
        BlurQualityPreset::Minimal => 3,
    }
}

/// The flat integer the native layer expects for a boolean flag:
/// `1` for true, `0` for false.
pub open spec fn spec_bool_flag(b: bool) -> i32 {
    if b {
        1
    } else {
        0
    }
}

/// Convert a boolean to the fixed-width integer flag the native layer
/// expects.
#[verifier::when_used_as_spec(spec_bool_flag)]
pub fn bool_flag(b: bool) -> (r: i32)
    ensures
        r == spec_bool_flag(b),
{
    if b {
        1
    } else {
        0
    }
}

/// A pixel-coordinate rectangle, laid out as the native layer expects.
#[derive(Clone, Copy, Debug, PartialEq, Eq, Structural)]
pub struct BlurRect {
    pub left: i32,
    pub top: i32,
    pub right: i32,
    pub bottom: i32,
}

/// Typed configuration for system initialization: logging toggle, an
/// optional log file path (absent = the default console sink), and the
/// default quality preset.
#[derive(Clone, Debug, PartialEq)]
pub struct BlurSystemOptions {
    pub enable_logging: bool,
    pub log_path: Option<String>,
    pub default_preset: BlurQualityPreset,
}

/// System options in the primitive shape the native layer takes: integer
/// flag, optional null-terminated path bytes, preset ordinal.
#[derive(Clone, Debug, PartialEq)]
pub struct BlurSystemOptionsC {
    pub enable_logging: i32,
    pub log_path: Option<Vec<u8>>,
    pub default_preset: i32,
}

/// Window options in the primitive shape the native layer takes.
/// `owner` is the platform window identity the session is bound to,
/// with `0` standing for "none" (a standalone overlay).
#[derive(Clone, Copy, Debug, PartialEq, Eq, Structural)]
pub struct BlurWindowOptionsC {
    pub owner: u64,
    pub bounds: BlurRect,
    pub top_most: i32,
    pub click_through: i32,
}

/// One invocation of the native layer, with every argument already in
/// the exact primitive shape the foreign interface demands.
///
/// No code in this crate performs these calls: a verified operation
/// returns the calls it requires, the embedder issues them, and hands any
/// raw outcome back to a verified function. Scalar parameters that cross
/// the boundary as 32-bit floats are carried here as their IEEE-754 bit
/// patterns (`u32`), so that value identity across the boundary is exact.
#[derive(Clone, Debug, PartialEq)]
pub enum NativeCall {
    Init { opts: BlurSystemOptionsC },
    Shutdown { sys: BlurSystemHandle },
    CreateWindow { sys: BlurSystemHandle, owner: u64, opts: BlurWindowOptionsC },
    DestroyWindow { window: BlurWindowHandle },
    Start { window: BlurWindowHandle },
    Stop { window: BlurWindowHandle },
    SetPreset { window: BlurWindowHandle, preset: i32 },
    SetPipeline { window: BlurWindowHandle, json: Vec<u8> },
    SetEffectType { window: BlurWindowHandle, effect_type: i32 },
    SetStrength { window: BlurWindowHandle, strength: u32 },
    SetBlurParam { window: BlurWindowHandle, param: u32 },
    SetTintColor { window: BlurWindowHandle, r: u32, g: u32, b: u32, a: u32 },
    SetNoiseIntensity { window: BlurWindowHandle, intensity: u32 },
    SetNoiseScale { window: BlurWindowHandle, scale: u32 },
    SetNoiseSpeed { window: BlurWindowHandle, speed: u32 },
    SetNoiseType { window: BlurWindowHandle, noise_type: i32 },
    SetRainIntensity { window: BlurWindowHandle, intensity: u32 },
    SetRainDropSpeed { window: BlurWindowHandle, speed: u32 },
    SetRainRefraction { window: BlurWindowHandle, strength: u32 },
    SetRainTrailLength { window: BlurWindowHandle, length: u32 },
    SetRainDropSize { window: BlurWindowHandle, min_size: u32, max_size: u32 },
    GetFps { window: BlurWindowHandle },
}

/// Build the null-terminated byte string the native layer expects for a
/// textual payload. A payload holding an embedded terminator byte cannot
/// cross the boundary intact and is rejected as `InvalidParameter` — the
/// one validation this layer performs itself.
pub fn c_string_bytes(payload: &str) -> (r: Result<Vec<u8>, BlurErrorCode>)
    ensures
        payload.spec_bytes().contains(0u8) ==> r == Err::<
            Vec<u8>,
            BlurErrorCode,
        >(BlurErrorCode::InvalidParameter),
        !payload.spec_bytes().contains(0u8) ==> (r matches Ok(v) && v@ == payload.spec_bytes().push(
            0u8,
        )),
{
    let bytes: &[u8] = payload.as_bytes();
    let mut out: Vec<u8> = Vec::new();
    let mut i: usize = 0;
    while i < bytes.len()
        invariant
            i <= bytes@.len(),
            bytes@ == payload.spec_bytes(),
            out@ == bytes@.subrange(0, i as int),
            forall|k: int| 0 <= k < i ==> bytes@[k] != 0u8,
        decreases bytes@.len() - i,
    {
        let b = bytes[i];
        if b == 0u8 {
            assert(payload.spec_bytes().contains(0u8)) by {
                assert(bytes@[i as int] == 0u8);
            }
            return Err(BlurErrorCode::InvalidParameter);
        }
        out.push(b);
        i += 1;
    }
    assert(!payload.spec_bytes().contains(0u8)) by {
        assert(forall|k: int| 0 <= k < bytes@.len() ==> bytes@[k] != 0u8);
    }
    out.push(0u8);
    assert(out@ =~= payload.spec_bytes().push(0u8));
    Ok(out)
}

/// A typed system configuration that cannot cross the boundary: its log
/// path holds an embedded terminator byte.
pub open spec fn system_options_rejected(options: BlurSystemOptions) -> bool {
    match options.log_path {
        Some(p) => encode_utf8(p@).contains(0u8),
        None => false,
    }
}

/// The flat shape `c` is exactly the typed configuration `options` in
/// the primitive form the native layer takes: integer flag, preset
/// ordinal, and the log path as null-terminated bytes (or absent).
pub open spec fn system_options_flattened(
    options: BlurSystemOptions,
    c: BlurSystemOptionsC,
) -> bool {
    &&& c.enable_logging == spec_bool_flag(options.enable_logging)
    &&& c.default_preset == spec_preset_ordinal(options.default_preset)
    &&& (match (options.log_path, c.log_path) {
        (Some(p), Some(b)) => b@ == encode_utf8(p@).push(0u8),
        (None, None) => true,
        _ => false,
    })
}

impl BlurSystemOptions {
    /// Convert the typed configuration to the primitive shape the native
    /// initialization call takes. A log path holding an embedded
    /// terminator byte is rejected as `InvalidParameter`.
    pub fn to_c(&self) -> (r: Result<BlurSystemOptionsC, BlurErrorCode>)
        ensures
            system_options_rejected(*self) ==> r == Err::<BlurSystemOptionsC, BlurErrorCode>(
                BlurErrorCode::InvalidParameter,
            ),
            !system_options_rejected(*self) ==> (r matches Ok(c) && system_options_flattened(
                *self,
                c,
            )),
    {
        let log_path: Option<Vec<u8>> = match &self.log_path {
            Some(p) => {
                match c_string_bytes(p.as_str()) {
                    Ok(b) => Some(b),
                    Err(e) => {
                        return Err(e);
                    },
                }
            },
            None => None,
        };
        Ok(
            BlurSystemOptionsC {
                enable_logging: bool_flag(self.enable_logging),
                log_path,
                default_preset: preset_ordinal(self.default_preset),
            },
        )
    }
}

} // verus!
