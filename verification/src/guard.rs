use vstd::pervasive::unreached;
use vstd::prelude::*;

use crate::errors::BlurErrorCode;
use crate::errors::spec_code_from_raw;
use crate::handles::BlurSystemHandle;
use crate::handles::BlurWindowHandle;
use crate::protocol::BlurQualityPreset;
use crate::protocol::BlurSystemOptions;
use crate::protocol::NativeCall;
use crate::system::BlurSystem;
use crate::window::BlurWindow;
use crate::window::LifecycleOp;

verus! {

/// The shared slot structure of the shell variant: at most one system
/// context and at most one window session, reached by concurrently
/// dispatched commands.
///
/// Every read and write of these slots must happen under one
/// mutual-exclusion guard covering both together; the embedder supplies
/// that guard, and each command then performs one of the verified
/// transitions below while holding it. The policy enforced here is:
/// at most one window, idempotent start, and stop/destroy that clears
/// the slot in the same atomic step, so no call site can observe a
/// handle that was already destroyed.
#[derive(Clone, Debug, PartialEq)]
pub struct BlurState {
    pub sys: Option<BlurSystem>,
    pub window: Option<BlurWindow>,
}

/// One observable transition of the shared slots, as driven by a
/// command holding the guard: the outcome of an initialization or
/// window-creation call, the raw code answering the start call, or a
/// stop command.
#[derive(Clone, Copy, Debug, PartialEq, Eq, Structural)]
pub enum GuardEvent {
    Init(BlurSystemHandle),
    Created(BlurWindowHandle),
    Started(i32),
    Stopped,
}

/// What an ensure-started command must do next, given the current
/// slots: nothing at all, or issue the one native call it carries.
#[derive(Clone, Debug, PartialEq)]
pub enum StartPlan {
    /// A session already exists: succeed immediately, no native call.
    AlreadyActive,
    /// No system context yet: issue this initialization call first.
    NeedInit(NativeCall),
    /// A live context but no session: issue this window-creation call.
    NeedCreate(NativeCall),
}

/// The fixed configuration the shell variant initializes the system
/// with: logging on, the default console sink, the highest-quality
/// preset.
pub open spec fn spec_shell_options() -> BlurSystemOptions {
    BlurSystemOptions {
        enable_logging: true,
        log_path: None,
        default_preset: BlurQualityPreset::High,
    }
}

/// Exec form of the shell variant's fixed system configuration.
pub fn shell_system_options() -> (r: BlurSystemOptions)
    ensures
        r == spec_shell_options(),
{
    BlurSystemOptions {
        enable_logging: true,
        log_path: None,
        default_preset: BlurQualityPreset::High,
    }
}

/// The calls one optional parameter contributes: one, or none.
pub open spec fn opt_calls(c: Option<NativeCall>) -> Seq<NativeCall> {
    match c {
        Some(x) => seq![x],
        None => Seq::empty(),
    }
}

impl BlurState {
    /// Well-formedness of the shared slots: a held system context is
    /// initialized, a held window session is live (never a destroyed
    /// handle), and a window exists only under a context.
    pub open spec fn wf(self) -> bool {
        &&& (match self.sys {
            Some(s) => s.is_initialized(),
            None => true,
        })
        &&& (match self.window {
            Some(w) => w.is_live(),
            None => true,
        })
        &&& (self.window is Some ==> self.sys is Some)
    }

    /// Executable form of [`BlurState::wf`], so an embedder — whose
    /// code is not verified — can test the slots before handing them to
    /// a transition that requires well-formedness.
    pub fn invariant_holds(&self) -> (r: bool)
        ensures
            r == self.wf(),
    {
        let sys_ok = match &self.sys {
            Some(s) => s.initialized(),
            None => true,
        };
        let win_ok = match &self.window {
            Some(w) => !w.destroyed(),
            None => true,
        };
        let dep_ok = self.window.is_none() || self.sys.is_some();
        sys_ok && win_ok && dep_ok
    }

    /// Empty slots: no context, no session.
    pub fn new() -> (r: BlurState)
        ensures
            r.sys is None,
            r.window is None,
            r.wf(),
    {
        BlurState { sys: None, window: None }
    }

    /// What an ensure-started command must do next. A session already
    /// in the slot satisfies the command immediately (at-most-one-window
    /// policy); otherwise the context is lazily initialized first, and
    /// then a session is created with the shell's fixed geometry and
    /// flags.
    pub open spec fn spec_start_plan(self) -> StartPlan {
        match self.window {
            Some(_) => StartPlan::AlreadyActive,
            None => match self.sys {
                None => StartPlan::NeedInit(
                    NativeCall::Init {
                        opts: crate::protocol::BlurSystemOptionsC {
                            enable_logging: 1,
                            log_path: None,
                            default_preset: 0,
                        },
                    },
                ),
                Some(s) => StartPlan::NeedCreate(
                    NativeCall::CreateWindow {
                        sys: s.handle,
                        owner: 0,
                        opts: crate::protocol::BlurWindowOptionsC {
                            owner: 0,
                            bounds: crate::protocol::BlurRect {
                                left: 100,
                                top: 100,
                                right: 600,
                                bottom: 500,
                            },
                            top_most: 1,
                            click_through: 0,
                        },
                    },
                ),
            },
        }
    }

    /// Plan the next step of an ensure-started command.
    pub fn start_plan(&self) -> (r: StartPlan)
        requires
            self.wf(),
        ensures
            r == self.spec_start_plan(),
    {
        match &self.window {
            Some(_) => StartPlan::AlreadyActive,
            None => match &self.sys {
                None => {
                    let opts = shell_system_options();
                    match BlurSystem::init_call(&opts) {
                        Ok(c) => StartPlan::NeedInit(c),
                        Err(_) => unreached(),
                    }
                },
                Some(s) => {
                    match s.create_window(0, 100, 100, 500, 400, true, false) {
                        Ok(c) => StartPlan::NeedCreate(c),
                        Err(_) => unreached(),
                    }
                },
            },
        }
    }

    /// Adopt the outcome of the lazy initialization call: a non-null
    /// handle fills the system slot with a context carrying the shell
    /// configuration; a null handle is the initialization failure and
    /// changes nothing.
    pub fn apply_init(&mut self, raw: BlurSystemHandle) -> (r: Result<(), String>)
        requires
            old(self).wf(),
            old(self).sys is None,
            old(self).window is None,
        ensures
            *final(self) == spec_guard_step(*old(self), GuardEvent::Init(raw)),
            final(self).wf(),
            raw.spec_is_null() ==> (*final(self) == *old(self) && (r matches Err(m) && m@
                == "Failed to initialize blur system"@)),
            !raw.spec_is_null() ==> r is Ok,
    {
        match BlurSystem::new(shell_system_options(), raw, None) {
            Ok(s) => {
                self.sys = Some(s);
                Ok(())
            },
            Err(m) => Err(m),
        }
    }

    /// Adopt the outcome of the window-creation call: a non-null handle
    /// fills the window slot with a not-yet-started session and yields
    /// the start call the command must issue next; a null handle is the
    /// creation failure and changes nothing.
    pub fn apply_created(&mut self, raw: BlurWindowHandle) -> (r: Result<NativeCall, String>)
        requires
            old(self).wf(),
            old(self).window is None,
            old(self).sys is Some,
        ensures
            *final(self) == spec_guard_step(*old(self), GuardEvent::Created(raw)),
            final(self).wf(),
            raw.spec_is_null() ==> (*final(self) == *old(self) && (r matches Err(m) && m@
                == "Failed to create blur window"@)),
            !raw.spec_is_null() ==> r == Ok::<NativeCall, String>(
                NativeCall::Start { window: raw },
            ),
    {
        match BlurWindow::attach(raw) {
            Err(m) => Err(m),
            Ok(w) => {
                let call = match w.start() {
                    Ok(Some(c)) => c,
                    _ => unreached(),
                };
                self.window = Some(w);
                Ok(call)
            },
        }
    }

    /// Adopt the raw code the engine returned for the start call issued
    /// by an ensure-started command: success marks the held session
    /// running; a failure code maps to the typed error and changes
    /// nothing.
    pub fn note_start_result(&mut self, raw_code: i32) -> (r: Result<(), BlurErrorCode>)
        requires
            old(self).wf(),
            old(self).window matches Some(w) && !w.running,
        ensures
            *final(self) == spec_guard_step(*old(self), GuardEvent::Started(raw_code)),
            final(self).wf(),
            r is Ok <==> raw_code == 0,
            raw_code != 0 ==> r == Err::<(), BlurErrorCode>(spec_code_from_raw(raw_code)),
    {
        match &mut self.window {
            Some(w) => w.apply_start_result(raw_code),
            None => unreached(),
        }
    }

    /// The optional effect-selector call an ensure-started command
    /// applies after the session is started: one call when both a
    /// session and a selector are present, none otherwise.
    pub fn effect_call(&self, effect_type: Option<i32>) -> (r: Option<NativeCall>)
        requires
            self.wf(),
        ensures
            (match (self.window, effect_type) {
                (Some(w), Some(t)) => r == Some(
                    NativeCall::SetEffectType { window: w.handle, effect_type: t },
                ),
                _ => r is None,
            }),
    {
        match (&self.window, effect_type) {
            (Some(w), Some(t)) => match w.set_effect_type(t) {
                Ok(c) => Some(c),
                Err(_) => unreached(),
            },
            _ => None,
        }
    }

    /// Stop and destroy the held session, if any, clearing the window
    /// slot in the same atomic step; a no-op when no session exists.
    /// Returns the calls the command must issue, in order: the stop
    /// call when the session was running, then the destroy call.
    pub fn ensure_stopped(&mut self) -> (calls: Vec<NativeCall>)
        requires
            old(self).wf(),
        ensures
            *final(self) == spec_guard_step(*old(self), GuardEvent::Stopped),
            final(self).wf(),
            final(self).window is None,
            final(self).sys == old(self).sys,
            (match old(self).window {
                Some(w) => if w.running {
                    calls@ == seq![
                        NativeCall::Stop { window: w.handle },
                        NativeCall::DestroyWindow { window: w.handle },
                    ]
                } else {
                    calls@ == seq![NativeCall::DestroyWindow { window: w.handle }]
                },
                None => calls@ == Seq::<NativeCall>::empty(),
            }),
    {
        let mut calls: Vec<NativeCall> = Vec::new();
        match self.window {
            None => {},
            Some(w0) => {
                let mut w = w0;
                match w.stop() {
                    Ok(Some(c)) => calls.push(c),
                    Ok(None) => {},
                    Err(_) => unreached(),
                }
                match w.destroy() {
                    Some(c) => calls.push(c),
                    None => unreached(),
                }
                self.window = None;
            },
        }
        calls
    }

    /// Apply a blur parameter-update command against the held session:
    /// one call per supplied field, in the fixed order effect type,
    /// strength, blur parameter, tint; silently nothing when no session
    /// is active — a benign race rather than a fault.
    pub fn update_blur_parameters(
        &self,
        effect_type: Option<i32>,
        strength: Option<u32>,
        param: Option<u32>,
        color: Option<(u32, u32, u32, u32)>,
    ) -> (calls: Vec<NativeCall>)
        requires
            self.wf(),
        ensures
            (match self.window {
                Some(w) => calls@ == spec_blur_calls(w.handle, effect_type, strength, param, color),
                None => calls@ == Seq::<NativeCall>::empty(),
            }),
    {
        let mut calls: Vec<NativeCall> = Vec::new();
        match &self.window {
            None => {},
            Some(w) => {
                if let Some(t) = effect_type {
                    match w.set_effect_type(t) {
                        Ok(c) => calls.push(c),
                        Err(_) => unreached(),
                    }
                }
                if let Some(s) = strength {
                    match w.set_strength(s) {
                        Ok(c) => calls.push(c),
                        Err(_) => unreached(),
                    }
                }
                if let Some(p) = param {
                    match w.set_blur_param(p) {
                        Ok(c) => calls.push(c),
                        Err(_) => unreached(),
                    }
                }
                if let Some((r, g, b, a)) = color {
                    match w.set_tint_color(r, g, b, a) {
                        Ok(c) => calls.push(c),
                        Err(_) => unreached(),
                    }
                }
                proof {
                    assert(calls@ =~= spec_blur_calls(
                        w.handle,
                        effect_type,
                        strength,
                        param,
                        color,
                    ));
                }
            },
        }
        calls
    }

    /// Apply a noise parameter-update command against the held session:
    /// one call per supplied field, in the fixed order intensity,
    /// scale, speed, type; silently nothing when no session is active.
    pub fn update_noise_parameters(
        &self,
        intensity: Option<u32>,
        scale: Option<u32>,
        speed: Option<u32>,
        noise_type: Option<i32>,
    ) -> (calls: Vec<NativeCall>)
        requires
            self.wf(),
        ensures
            (match self.window {
                Some(w) => calls@ == spec_noise_calls(w.handle, intensity, scale, speed,
                noise_type),
                None => calls@ == Seq::<NativeCall>::empty(),
            }),
    {
        let mut calls: Vec<NativeCall> = Vec::new();
        match &self.window {
            None => {},
            Some(w) => {
                if let Some(i) = intensity {
                    match w.set_noise_intensity(i) {
                        Ok(c) => calls.push(c),
                        Err(_) => unreached(),
                    }
                }
                if let Some(s) = scale {
                    match w.set_noise_scale(s) {
                        Ok(c) => calls.push(c),
                        Err(_) => unreached(),
                    }
                }
                if let Some(v) = speed {
                    match w.set_noise_speed(v) {
                        Ok(c) => calls.push(c),
                        Err(_) => unreached(),
                    }
                }
                if let Some(t) = noise_type {
                    match w.set_noise_type(t) {
                        Ok(c) => calls.push(c),
                        Err(_) => unreached(),
                    }
                }
                proof {
                    assert(calls@ =~= spec_noise_calls(w.handle, intensity, scale, speed,
                    noise_type));
                }
            },
        }
        calls
    }

    /// Apply a rain parameter-update command against the held session:
    /// one call per supplied field, in the fixed order intensity, drop
    /// speed, refraction, trail length, and the drop-size range only
    /// when both of its bounds are supplied; silently nothing when no
    /// session is active.
    pub fn update_rain_parameters(
        &self,
        intensity: Option<u32>,
        drop_speed: Option<u32>,
        refraction: Option<u32>,
        trail_length: Option<u32>,
        min_size: Option<u32>,
        max_size: Option<u32>,
    ) -> (calls: Vec<NativeCall>)
        requires
            self.wf(),
        ensures
            (match self.window {
                Some(w) => calls@ == spec_rain_calls(
                    w.handle,
                    intensity,
                    drop_speed,
                    refraction,
                    trail_length,
                    min_size,
                    max_size,
                ),
                None => calls@ == Seq::<NativeCall>::empty(),
            }),
    {
        let mut calls: Vec<NativeCall> = Vec::new();
        match &self.window {
            None => {},
            Some(w) => {
                if let Some(i) = intensity {
                    match w.set_rain_intensity(i) {
                        Ok(c) => calls.push(c),
                        Err(_) => unreached(),
                    }
                }
                if let Some(s) = drop_speed {
                    match w.set_rain_drop_speed(s) {
                        Ok(c) => calls.push(c),
                        Err(_) => unreached(),
                    }
                }
                if let Some(r) = refraction {
                    match w.set_rain_refraction(r) {
                        Ok(c) => calls.push(c),
                        Err(_) => unreached(),
                    }
                }
                if let Some(t) = trail_length {
                    match w.set_rain_trail_length(t) {
                        Ok(c) => calls.push(c),
                        Err(_) => unreached(),
                    }
                }
                match (min_size, max_size) {
                    (Some(mn), Some(mx)) => {
                        match w.set_rain_drop_size(mn, mx) {
                            Ok(c) => calls.push(c),
                            Err(_) => unreached(),
                        }
                    },
                    _ => {},
                }
                proof {
                    assert(calls@ =~= spec_rain_calls(
                        w.handle,
                        intensity,
                        drop_speed,
                        refraction,
                        trail_length,
                        min_size,
                        max_size,
                    ));
                }
            },
        }
        calls
    }

    /// The fps-query call for the held session: none when no session is
    /// active — the command then reads the sentinel instead, a benign
    /// race rather than a fault.
    pub fn fps_call(&self) -> (r: Option<NativeCall>)
        requires
            self.wf(),
        ensures
            (match self.window {
                Some(w) => r == Some(NativeCall::GetFps { window: w.handle }),
                None => r is None,
            }),
    {
        match &self.window {
            Some(w) => w.get_fps(),
            None => None,
        }
    }
}

/// The exact calls a blur parameter-update command issues for a live
/// session: one per supplied field, in the fixed order effect type,
/// strength, blur parameter, tint. Properties are independent — a field
/// left unsupplied contributes no call and resets nothing.
pub open spec fn spec_blur_calls(
    h: BlurWindowHandle,
    effect_type: Option<i32>,
    strength: Option<u32>,
    param: Option<u32>,
    color: Option<(u32, u32, u32, u32)>,
) -> Seq<NativeCall> {
    opt_calls(
        match effect_type {
            Some(t) => Some(NativeCall::SetEffectType { window: h, effect_type: t }),
            None => None,
        },
    ) + opt_calls(
        match strength {
            Some(s) => Some(NativeCall::SetStrength { window: h, strength: s }),
            None => None,
        },
    ) + opt_calls(
        match param {
            Some(p) => Some(NativeCall::SetBlurParam { window: h, param: p }),
            None => None,
        },
    ) + opt_calls(
        match color {
            Some((r, g, b, a)) => Some(NativeCall::SetTintColor { window: h, r, g, b, a }),
            None => None,
        },
    )
}

/// The exact calls a noise parameter-update command issues for a live
/// session, in the fixed order intensity, scale, speed, type.
pub open spec fn spec_noise_calls(
    h: BlurWindowHandle,
    intensity: Option<u32>,
    scale: Option<u32>,
    speed: Option<u32>,
    noise_type: Option<i32>,
) -> Seq<NativeCall> {
    opt_calls(
        match intensity {
            Some(i) => Some(NativeCall::SetNoiseIntensity { window: h, intensity: i }),
            None => None,
        },
    ) + opt_calls(
        match scale {
            Some(s) => Some(NativeCall::SetNoiseScale { window: h, scale: s }),
            None => None,
        },
    ) + opt_calls(
        match speed {
            Some(v) => Some(NativeCall::SetNoiseSpeed { window: h, speed: v }),
            None => None,
        },
    ) + opt_calls(
        match noise_type {
            Some(t) => Some(NativeCall::SetNoiseType { window: h, noise_type: t }),
            None => None,
        },
    )
}

/// The exact calls a rain parameter-update command issues for a live
/// session, in the fixed order intensity, drop speed, refraction, trail
/// length, and the drop-size range only when both of its bounds are
/// supplied.
pub open spec fn spec_rain_calls(
    h: BlurWindowHandle,
    intensity: Option<u32>,
    drop_speed: Option<u32>,
    refraction: Option<u32>,
    trail_length: Option<u32>,
    min_size: Option<u32>,
    max_size: Option<u32>,
) -> Seq<NativeCall> {
    opt_calls(
        match intensity {
            Some(i) => Some(NativeCall::SetRainIntensity { window: h, intensity: i }),
            None => None,
        },
    ) + opt_calls(
        match drop_speed {
            Some(s) => Some(NativeCall::SetRainDropSpeed { window: h, speed: s }),
            None => None,
        },
    ) + opt_calls(
        match refraction {
            Some(r) => Some(NativeCall::SetRainRefraction { window: h, strength: r }),
            None => None,
        },
    ) + opt_calls(
        match trail_length {
            Some(t) => Some(NativeCall::SetRainTrailLength { window: h, length: t }),
            None => None,
        },
    ) + opt_calls(
        match (min_size, max_size) {
            (Some(mn), Some(mx)) => Some(
                NativeCall::SetRainDropSize { window: h, min_size: mn, max_size: mx },
            ),
            _ => None,
        },
    )
}

/// The shared slots after one transition. Each arm carries the guard
/// under which the corresponding command performs it, so the function
/// is total: an event arriving against the wrong state changes nothing.
pub open spec fn spec_guard_step(s: BlurState, e: GuardEvent) -> BlurState {
    match e {
        GuardEvent::Init(raw) => if s.sys is None && s.window is None && !raw.spec_is_null() {
            BlurState {
                sys: Some(BlurSystem { handle: raw, options: spec_shell_options() }),
                window: s.window,
            }
        } else {
            s
        },
        GuardEvent::Created(raw) => if s.window is None && s.sys is Some && !raw.spec_is_null() {
            BlurState { sys: s.sys, window: Some(BlurWindow { handle: raw, running: false }) }
        } else {
            s
        },
        GuardEvent::Started(code) => match s.window {
            Some(w) => if w.is_live() && !w.running {
                BlurState { sys: s.sys, window: Some(w.spec_step(LifecycleOp::Start(code))) }
            } else {
                s
            },
            None => s,
        },
        GuardEvent::Stopped => BlurState { sys: s.sys, window: None },
    }
}

/// The shared slots after a whole sequence of transitions, first
/// transition first.
pub open spec fn spec_guard_run(s: BlurState, evs: Seq<GuardEvent>) -> BlurState
    decreases evs.len(),
{
    if evs.len() == 0 {
        s
    } else {
        spec_guard_run(spec_guard_step(s, evs[0]), evs.drop_first())
    }
}

/// Law: once a window session occupies the slot, planning a start again
/// yields an immediate success that carries no native call — so two
/// ensure-started commands without an intervening stop issue exactly
/// one window-creation call.
pub proof fn lemma_ensure_started_idempotent(s: BlurState)
    requires
        s.window is Some,
    ensures
        s.spec_start_plan() == StartPlan::AlreadyActive,
{
}

/// Law: adopting a successful window creation leaves the slots in a
/// state whose next start plan is an immediate success; combined with
/// [`lemma_ensure_started_idempotent`], a second ensure-started command
/// can never reach a second creation call.
pub proof fn lemma_created_then_no_second_create(s: BlurState, raw: BlurWindowHandle)
    requires
        s.window is None,
        s.sys is Some,
        !raw.spec_is_null(),
    ensures
        spec_guard_step(s, GuardEvent::Created(raw)).spec_start_plan() == StartPlan::AlreadyActive,
{
}

/// One guard transition preserves well-formedness of the slots.
pub proof fn lemma_guard_step_wf(s: BlurState, e: GuardEvent)
    requires
        s.wf(),
    ensures
        spec_guard_step(s, e).wf(),
{
}

/// Law: across every sequence of guard transitions from well-formed
/// slots, the slots stay well-formed — in particular the window slot
/// never holds a destroyed (null) handle, because the stop transition
/// clears the slot in the same atomic step that releases the handle.
/// Interleaved commands each perform one such transition under the one
/// mutual-exclusion guard, so no interleaving can observe a
/// use-after-destroy through the slots.
pub proof fn lemma_slots_never_hold_destroyed(s: BlurState, evs: Seq<GuardEvent>)
    requires
        s.wf(),
    ensures
        spec_guard_run(s, evs).wf(),
    decreases evs.len(),
{
    if evs.len() > 0 {
        lemma_guard_step_wf(s, evs[0]);
        lemma_slots_never_hold_destroyed(spec_guard_step(s, evs[0]), evs.drop_first());
    }
}

/// Law: the stop transition always leaves the window slot empty, so the
/// slots' final state matches the last command's intent.
pub proof fn lemma_stopped_clears_window(s: BlurState)
    ensures
        spec_guard_step(s, GuardEvent::Stopped).window is None,
{
}

} // verus!
