use vstd::prelude::*;
use vstd::string::StringSliceAdditionalSpecFns;

use crate::errors::BlurErrorCode;
use crate::errors::check_code;
use crate::errors::spec_code_from_raw;
use crate::handles::BlurWindowHandle;
use crate::protocol::BlurQualityPreset;
use crate::protocol::NativeCall;
use crate::protocol::c_string_bytes;
use crate::protocol::spec_preset_ordinal;

verus! {

/// One window session: the owner of one native window handle, with its
/// runtime state.
///
/// State machine: created (not started), running, destroyed. A session
/// with a non-null handle may receive start/stop/parameter/fps
/// operations; one whose handle is null is destroyed, and every
/// operation against it fails deterministically without producing a
/// native call.
#[derive(Clone, Copy, Debug, PartialEq, Eq, Structural)]
pub struct BlurWindow {
    pub handle: BlurWindowHandle,
    pub running: bool,
}

/// One transition of a session's lifecycle, as driven by the embedder:
/// a start or stop attempt carries the raw code the engine returned for
/// it; destruction carries nothing.
#[derive(Clone, Copy, Debug, PartialEq, Eq, Structural)]
pub enum LifecycleOp {
    Start(i32),
    Stop(i32),
    Destroy,
}

impl BlurWindow {
    /// A destroyed (or never-created) session: the handle is null.
    pub open spec fn is_destroyed(self) -> bool {
        self.handle.spec_is_null()
    }

    /// A live session, able to receive operations.
    pub open spec fn is_live(self) -> bool {
        !self.is_destroyed()
    }

    /// True exactly when the session's handle is null.
    pub fn destroyed(&self) -> (r: bool)
        ensures
            r == self.is_destroyed(),
    {
        self.handle.is_null()
    }

    /// Gate a parameter call on the handle: a destroyed session rejects
    /// every call with `InvalidHandle`; a live one emits the call.
    pub open spec fn spec_emit(self, call: NativeCall) -> Result<NativeCall, BlurErrorCode> {
        if self.is_destroyed() {
            Err(BlurErrorCode::InvalidHandle)
        } else {
            Ok(call)
        }
    }

    /// Adopt the outcome of a window-creation call: a non-null handle
    /// yields a not-yet-started session that owns it; a null handle is a
    /// creation failure and yields no session at all.
    pub fn attach(raw: BlurWindowHandle) -> (r: Result<BlurWindow, String>)
        ensures
            raw.spec_is_null() ==> (r matches Err(m) && m@ == "Failed to create blur window"@),
            !raw.spec_is_null() ==> r == Ok::<BlurWindow, String>(
                BlurWindow { handle: raw, running: false },
            ),
    {
        if raw.is_null() {
            Err("Failed to create blur window".to_owned())
        } else {
            Ok(BlurWindow { handle: raw, running: false })
        }
    }

    /// What a start request yields: rejection when destroyed, success
    /// with no call when already running, and otherwise the one native
    /// start call.
    pub open spec fn spec_start_call(self) -> Result<Option<NativeCall>, BlurErrorCode> {
        if self.is_destroyed() {
            Err(BlurErrorCode::InvalidHandle)
        } else if self.running {
            Ok(None)
        } else {
            Ok(Some(NativeCall::Start { window: self.handle }))
        }
    }

    /// Request a start. Starting an already-running session is a no-op
    /// success that requires no native call.
    pub fn start(&self) -> (r: Result<Option<NativeCall>, BlurErrorCode>)
        ensures
            r == self.spec_start_call(),
    {
        if self.handle.is_null() {
            Err(BlurErrorCode::InvalidHandle)
        } else if self.running {
            Ok(None)
        } else {
            Ok(Some(NativeCall::Start { window: self.handle }))
        }
    }

    /// What a stop request yields: rejection when destroyed, success
    /// with no call when already stopped, and otherwise the one native
    /// stop call.
    pub open spec fn spec_stop_call(self) -> Result<Option<NativeCall>, BlurErrorCode> {
        if self.is_destroyed() {
            Err(BlurErrorCode::InvalidHandle)
        } else if !self.running {
            Ok(None)
        } else {
            Ok(Some(NativeCall::Stop { window: self.handle }))
        }
    }

    /// Request a stop. Stopping a session that is not running is a
    /// no-op success that requires no native call.
    pub fn stop(&self) -> (r: Result<Option<NativeCall>, BlurErrorCode>)
        ensures
            r == self.spec_stop_call(),
    {
        if self.handle.is_null() {
            Err(BlurErrorCode::InvalidHandle)
        } else if !self.running {
            Ok(None)
        } else {
            Ok(Some(NativeCall::Stop { window: self.handle }))
        }
    }

    /// The session after one lifecycle transition. A start or stop takes
    /// effect only when the session is live, in the matching state, and
    /// the engine reported success; a failed call leaves the handle
    /// valid and the state unchanged. Destruction always yields the
    /// destroyed session.
    pub open spec fn spec_step(self, op: LifecycleOp) -> BlurWindow {
        match op {
            LifecycleOp::Start(code) => if self.is_live() && !self.running && code == 0 {
                BlurWindow { running: true, ..self }
            } else {
                self
            },
            LifecycleOp::Stop(code) => if self.is_live() && self.running && code == 0 {
                BlurWindow { running: false, ..self }
            } else {
                self
            },
            LifecycleOp::Destroy => self.spec_destroyed(),
        }
    }

    /// Adopt the engine's answer to a start call issued for this
    /// session: success moves it to running; a failure code maps to the
    /// typed error and changes nothing.
    pub fn apply_start_result(&mut self, raw_code: i32) -> (r: Result<(), BlurErrorCode>)
        requires
            old(self).is_live(),
            !old(self).running,
        ensures
            *final(self) == old(self).spec_step(LifecycleOp::Start(raw_code)),
            r is Ok <==> raw_code == 0,
            raw_code != 0 ==> r == Err::<(), BlurErrorCode>(spec_code_from_raw(raw_code)),
    {
        let r = check_code(raw_code);
        if r.is_ok() {
            self.running = true;
        }
        r
    }

    /// Adopt the engine's answer to a stop call issued for this session:
    /// success moves it back to not-started; a failure code maps to the
    /// typed error and changes nothing.
    pub fn apply_stop_result(&mut self, raw_code: i32) -> (r: Result<(), BlurErrorCode>)
        requires
            old(self).is_live(),
            old(self).running,
        ensures
            *final(self) == old(self).spec_step(LifecycleOp::Stop(raw_code)),
            r is Ok <==> raw_code == 0,
            raw_code != 0 ==> r == Err::<(), BlurErrorCode>(spec_code_from_raw(raw_code)),
    {
        let r = check_code(raw_code);
        if r.is_ok() {
            self.running = false;
        }
        r
    }

    /// The destroyed session: null handle, not running.
    pub open spec fn spec_destroyed(self) -> BlurWindow {
        BlurWindow { handle: BlurWindowHandle(0), running: false }
    }

    /// The native call destruction requires: one destroy call for a live
    /// handle, and none at all for a session already destroyed.
    pub open spec fn spec_destroy_call(self) -> Option<NativeCall> {
        if self.is_destroyed() {
            None
        } else {
            Some(NativeCall::DestroyWindow { window: self.handle })
        }
    }

    /// Destroy the session: release ownership of the handle and mark it
    /// null, so that every later operation fails cleanly. Idempotent —
    /// a second destruction changes nothing and requires no native call.
    pub fn destroy(&mut self) -> (r: Option<NativeCall>)
        ensures
            *final(self) == old(self).spec_destroyed(),
            r == old(self).spec_destroy_call(),
    {
        let r = if self.handle.is_null() {
            None
        } else {
            Some(NativeCall::DestroyWindow { window: self.handle })
        };
        self.handle = BlurWindowHandle::null();
        self.running = false;
        r
    }

    /// The fps query: a query, not a fallible operation — a destroyed
    /// session yields no call (the reading falls back to the sentinel,
    /// see [`fps_from_result`]).
    pub open spec fn spec_fps_call(self) -> Option<NativeCall> {
        if self.is_destroyed() {
            None
        } else {
            Some(NativeCall::GetFps { window: self.handle })
        }
    }

    /// Request the last-measured frames-per-second.
    pub fn get_fps(&self) -> (r: Option<NativeCall>)
        ensures
            r == self.spec_fps_call(),
    {
        if self.handle.is_null() {
            None
        } else {
            Some(NativeCall::GetFps { window: self.handle })
        }
    }

    /// Request a quality-preset change, with the preset already in its
    /// wire ordinal.
    pub fn set_preset(&self, preset: BlurQualityPreset) -> (r: Result<NativeCall, BlurErrorCode>)
        ensures
            r == self.spec_emit(
                NativeCall::SetPreset {
                    window: self.handle,
                    preset: spec_preset_ordinal(preset),
                },
            ),
    {
        self.emit(
            NativeCall::SetPreset {
                window: self.handle,
                preset: crate::protocol::preset_ordinal(preset),
            },
        )
    }

    /// Request a pipeline-configuration update. The payload crosses the
    /// boundary as a null-terminated byte string; a payload holding an
    /// embedded terminator byte is rejected as `InvalidParameter` before
    /// any native call exists.
    pub fn set_pipeline(&self, json: &str) -> (r: Result<NativeCall, BlurErrorCode>)
        ensures
            self.is_destroyed() ==> r == Err::<NativeCall, BlurErrorCode>(
                BlurErrorCode::InvalidHandle,
            ),
            self.is_live() && json.spec_bytes().contains(0u8) ==> r == Err::<
                NativeCall,
                BlurErrorCode,
            >(BlurErrorCode::InvalidParameter),
            self.is_live() && !json.spec_bytes().contains(0u8) ==> (r matches Ok(c) && (
            c matches NativeCall::SetPipeline { window, json: j } && window == self.handle && j@
                == json.spec_bytes().push(0u8))),
    {
        if self.handle.is_null() {
            return Err(BlurErrorCode::InvalidHandle);
        }
        let bytes = c_string_bytes(json)?;
        Ok(NativeCall::SetPipeline { window: self.handle, json: bytes })
    }

    /// Request an effect-type change.
    pub fn set_effect_type(&self, effect_type: i32) -> (r: Result<NativeCall, BlurErrorCode>)
        ensures
            r == self.spec_emit(NativeCall::SetEffectType { window: self.handle, effect_type }),
    {
        self.emit(NativeCall::SetEffectType { window: self.handle, effect_type })
    }

    /// Request a strength change; the scalar crosses the boundary as a
    /// 32-bit float and is carried as its bit pattern.
    pub fn set_strength(&self, strength: u32) -> (r: Result<NativeCall, BlurErrorCode>)
        ensures
            r == self.spec_emit(NativeCall::SetStrength { window: self.handle, strength }),
    {
        self.emit(NativeCall::SetStrength { window: self.handle, strength })
    }

    /// Request a blur-parameter change (float bit pattern).
    pub fn set_blur_param(&self, param: u32) -> (r: Result<NativeCall, BlurErrorCode>)
        ensures
            r == self.spec_emit(NativeCall::SetBlurParam { window: self.handle, param }),
    {
        self.emit(NativeCall::SetBlurParam { window: self.handle, param })
    }

    /// Request a tint change. The four components cross the boundary as
    /// four 32-bit floats, in r, g, b, a order, each carried bit-for-bit
    /// as its bit pattern, with no reordering.
    pub fn set_tint_color(&self, r: u32, g: u32, b: u32, a: u32) -> (res: Result<
        NativeCall,
        BlurErrorCode,
    >)
        ensures
            res == self.spec_emit(NativeCall::SetTintColor { window: self.handle, r, g, b, a }),
    {
        self.emit(NativeCall::SetTintColor { window: self.handle, r, g, b, a })
    }

    /// Request a noise-intensity change (float bit pattern).
    pub fn set_noise_intensity(&self, intensity: u32) -> (r: Result<NativeCall, BlurErrorCode>)
        ensures
            r == self.spec_emit(NativeCall::SetNoiseIntensity { window: self.handle, intensity }),
    {
        self.emit(NativeCall::SetNoiseIntensity { window: self.handle, intensity })
    }

    /// Request a noise-scale change (float bit pattern).
    pub fn set_noise_scale(&self, scale: u32) -> (r: Result<NativeCall, BlurErrorCode>)
        ensures
            r == self.spec_emit(NativeCall::SetNoiseScale { window: self.handle, scale }),
    {
        self.emit(NativeCall::SetNoiseScale { window: self.handle, scale })
    }

    /// Request a noise-speed change (float bit pattern).
    pub fn set_noise_speed(&self, speed: u32) -> (r: Result<NativeCall, BlurErrorCode>)
        ensures
            r == self.spec_emit(NativeCall::SetNoiseSpeed { window: self.handle, speed }),
    {
        self.emit(NativeCall::SetNoiseSpeed { window: self.handle, speed })
    }

    /// Request a noise-type change.
    pub fn set_noise_type(&self, noise_type: i32) -> (r: Result<NativeCall, BlurErrorCode>)
        ensures
            r == self.spec_emit(NativeCall::SetNoiseType { window: self.handle, noise_type }),
    {
        self.emit(NativeCall::SetNoiseType { window: self.handle, noise_type })
    }

    /// Request a rain-intensity change (float bit pattern).
    pub fn set_rain_intensity(&self, intensity: u32) -> (r: Result<NativeCall, BlurErrorCode>)
        ensures
            r == self.spec_emit(NativeCall::SetRainIntensity { window: self.handle, intensity }),
    {
        self.emit(NativeCall::SetRainIntensity { window: self.handle, intensity })
    }

    /// Request a rain-drop-speed change (float bit pattern).
    pub fn set_rain_drop_speed(&self, speed: u32) -> (r: Result<NativeCall, BlurErrorCode>)
        ensures
            r == self.spec_emit(NativeCall::SetRainDropSpeed { window: self.handle, speed }),
    {
        self.emit(NativeCall::SetRainDropSpeed { window: self.handle, speed })
    }

    /// Request a rain-refraction change (float bit pattern).
    pub fn set_rain_refraction(&self, strength: u32) -> (r: Result<NativeCall, BlurErrorCode>)
        ensures
            r == self.spec_emit(NativeCall::SetRainRefraction { window: self.handle, strength }),
    {
        self.emit(NativeCall::SetRainRefraction { window: self.handle, strength })
    }

    /// Request a rain-trail-length change (float bit pattern).
    pub fn set_rain_trail_length(&self, length: u32) -> (r: Result<NativeCall, BlurErrorCode>)
        ensures
            r == self.spec_emit(NativeCall::SetRainTrailLength { window: self.handle, length }),
    {
        self.emit(NativeCall::SetRainTrailLength { window: self.handle, length })
    }

    /// Request a rain-drop-size-range change (two float bit patterns,
    /// minimum then maximum).
    pub fn set_rain_drop_size(&self, min_size: u32, max_size: u32) -> (r: Result<
        NativeCall,
        BlurErrorCode,
    >)
        ensures
            r == self.spec_emit(
                NativeCall::SetRainDropSize { window: self.handle, min_size, max_size },
            ),
    {
        self.emit(NativeCall::SetRainDropSize { window: self.handle, min_size, max_size })
    }

    /// Emit a parameter call against this session's handle, or reject it
    /// when the session is destroyed.
    fn emit(&self, call: NativeCall) -> (r: Result<NativeCall, BlurErrorCode>)
        ensures
            r == self.spec_emit(call),
    {
        if self.handle.is_null() {
            Err(BlurErrorCode::InvalidHandle)
        } else {
            Ok(call)
        }
    }
}

/// The reading a completed fps query yields, or the sentinel when no
/// query was possible: a destroyed session reads as the bit pattern of
/// zero frames per second rather than as an error.
pub fn fps_from_result(sample: Option<u32>) -> (r: u32)
    ensures
        sample matches Some(bits) ==> r == bits,
        sample is None ==> r == 0,
{
    match sample {
        Some(bits) => bits,
        None => 0,
    }
}

/// The session after a whole sequence of lifecycle transitions, first
/// transition first.
pub open spec fn spec_run(w: BlurWindow, ops: Seq<LifecycleOp>) -> BlurWindow
    decreases ops.len(),
{
    if ops.len() == 0 {
        w
    } else {
        spec_run(w.spec_step(ops[0]), ops.drop_first())
    }
}

/// Once destroyed, a session stays destroyed under every further
/// sequence of transitions.
pub proof fn lemma_destroyed_is_final(w: BlurWindow, ops: Seq<LifecycleOp>)
    requires
        w.is_destroyed(),
    ensures
        spec_run(w, ops).is_destroyed(),
    decreases ops.len(),
{
    if ops.len() > 0 {
        lemma_destroyed_is_final(w.spec_step(ops[0]), ops.drop_first());
    }
}

/// Law: over every sequence of lifecycle transitions applied to a
/// freshly created session, the handle is null exactly when destruction
/// has occurred — starts and stops, successful or failed, never change
/// the handle, and destruction alone nulls it. (A failed creation yields
/// no session in the first place.)
pub proof fn lemma_handle_null_iff_destroyed(w: BlurWindow, ops: Seq<LifecycleOp>)
    requires
        w.is_live(),
    ensures
        spec_run(w, ops).is_destroyed() <==> ops.contains(LifecycleOp::Destroy),
    decreases ops.len(),
{
    if ops.len() == 0 {
        assert(!ops.contains(LifecycleOp::Destroy));
    } else {
        let w1 = w.spec_step(ops[0]);
        if ops[0] == LifecycleOp::Destroy {
            lemma_destroyed_is_final(w1, ops.drop_first());
            assert(ops.contains(LifecycleOp::Destroy));
        } else {
            assert(w1.handle == w.handle);
            lemma_handle_null_iff_destroyed(w1, ops.drop_first());
            assert(ops.contains(LifecycleOp::Destroy) <==> ops.drop_first().contains(
                LifecycleOp::Destroy,
            )) by {
                if ops.drop_first().contains(LifecycleOp::Destroy) {
                    let i = choose|i: int|
                        0 <= i < ops.drop_first().len() && ops.drop_first()[i]
                            == LifecycleOp::Destroy;
                    assert(ops[i + 1] == LifecycleOp::Destroy);
                }
                if ops.contains(LifecycleOp::Destroy) {
                    let i = choose|i: int| 0 <= i < ops.len() && ops[i] == LifecycleOp::Destroy;
                    assert(ops.drop_first()[i - 1] == LifecycleOp::Destroy);
                }
            }
        }
    }
}

/// Law: destruction is idempotent — destroying an already-destroyed
/// session yields the identical observable state (null handle, not
/// running) and requires no native call.
pub proof fn lemma_destroy_idempotent(w: BlurWindow)
    ensures
        w.spec_destroyed().spec_destroyed() == w.spec_destroyed(),
        w.spec_destroyed().spec_destroy_call() is None,
{
}

/// Law: a session whose handle is null rejects every operation without
/// producing a native call — every parameter call is refused with
/// `InvalidHandle`, start and stop requests are refused with
/// `InvalidHandle`, the fps query yields no call, and a repeated
/// destruction yields no call.
pub proof fn lemma_destroyed_rejects_all(w: BlurWindow, call: NativeCall)
    requires
        w.is_destroyed(),
    ensures
        w.spec_emit(call) == Err::<NativeCall, BlurErrorCode>(BlurErrorCode::InvalidHandle),
        w.spec_start_call() == Err::<Option<NativeCall>, BlurErrorCode>(
            BlurErrorCode::InvalidHandle,
        ),
        w.spec_stop_call() == Err::<Option<NativeCall>, BlurErrorCode>(
            BlurErrorCode::InvalidHandle,
        ),
        w.spec_fps_call() is None,
        w.spec_destroy_call() is None,
{
}

} // verus!
