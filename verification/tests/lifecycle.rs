use blur_windows::errors::BlurErrorCode;
use blur_windows::handles::BlurWindowHandle;
use blur_windows::protocol::NativeCall;
use blur_windows::window::{fps_from_result, BlurWindow};

/// A minimal stand-in for the native engine: it only counts the calls
/// it is asked to perform and remembers the last tint it was handed.
struct FakeEngine {
    calls: Vec<NativeCall>,
    tint: Option<(f32, f32, f32, f32)>,
}

impl FakeEngine {
    fn new() -> FakeEngine {
        FakeEngine { calls: Vec::new(), tint: None }
    }

    fn perform(&mut self, call: NativeCall) {
        if let NativeCall::SetTintColor { r, g, b, a, .. } = &call {
            self.tint = Some((
                f32::from_bits(*r),
                f32::from_bits(*g),
                f32::from_bits(*b),
                f32::from_bits(*a),
            ));
        }
        self.calls.push(call);
    }

    fn native_call_count(&self) -> usize {
        self.calls.len()
    }
}

#[test]
fn handle_null_iff_destroyed_over_full_lifecycle() {
    let mut engine = FakeEngine::new();
    let mut w = BlurWindow::attach(BlurWindowHandle(0x1000)).unwrap();
    assert!(!w.destroyed());

    let start = w.start().unwrap().unwrap();
    engine.perform(start);
    w.apply_start_result(0).unwrap();
    assert!(!w.destroyed());
    assert!(w.running);

    let stop = w.stop().unwrap().unwrap();
    engine.perform(stop);
    w.apply_stop_result(0).unwrap();
    assert!(!w.destroyed());
    assert!(!w.running);

    let destroy = w.destroy().unwrap();
    engine.perform(destroy);
    assert!(w.destroyed());
    assert_eq!(w.handle, BlurWindowHandle(0));
    assert_eq!(engine.native_call_count(), 3);
}

#[test]
fn failed_creation_yields_no_session() {
    let r = BlurWindow::attach(BlurWindowHandle(0));
    assert_eq!(r.unwrap_err(), "Failed to create blur window");
}

#[test]
fn failed_start_leaves_state_unchanged() {
    let mut w = BlurWindow::attach(BlurWindowHandle(3)).unwrap();
    let err = w.apply_start_result(-4).unwrap_err();
    assert_eq!(err, BlurErrorCode::D3D11Failed);
    assert!(!w.running);
    assert!(!w.destroyed());
}

#[test]
fn destroy_twice_is_idempotent() {
    let mut w = BlurWindow::attach(BlurWindowHandle(0x2000)).unwrap();

    let first = w.destroy();
    assert_eq!(
        first,
        Some(NativeCall::DestroyWindow { window: BlurWindowHandle(0x2000) })
    );
    let state_after_first = w;

    let second = w.destroy();
    assert_eq!(second, None);
    assert_eq!(w, state_after_first);
    assert_eq!(w.handle, BlurWindowHandle(0));
    assert!(!w.running);
}

#[test]
fn destroyed_session_rejects_everything_with_zero_native_calls() {
    let mut engine = FakeEngine::new();
    let mut w = BlurWindow::attach(BlurWindowHandle(0x3000)).unwrap();
    let destroy = w.destroy().unwrap();
    engine.perform(destroy);
    let baseline = engine.native_call_count();

    assert_eq!(w.start().unwrap_err(), BlurErrorCode::InvalidHandle);
    assert_eq!(w.stop().unwrap_err(), BlurErrorCode::InvalidHandle);
    assert_eq!(w.set_strength(1.0f32.to_bits()).unwrap_err(), BlurErrorCode::InvalidHandle);
    assert_eq!(w.set_effect_type(2).unwrap_err(), BlurErrorCode::InvalidHandle);
    assert_eq!(
        w.set_tint_color(0, 0, 0, 0).unwrap_err(),
        BlurErrorCode::InvalidHandle
    );
    assert_eq!(w.set_pipeline("{}").unwrap_err(), BlurErrorCode::InvalidHandle);
    assert_eq!(w.get_fps(), None);
    assert_eq!(w.destroy(), None);

    // No operation produced a call, so the double performed none.
    assert_eq!(engine.native_call_count(), baseline);
}

#[test]
fn start_when_running_is_noop_success() {
    let mut w = BlurWindow::attach(BlurWindowHandle(4)).unwrap();
    let c = w.start().unwrap();
    assert!(matches!(c, Some(NativeCall::Start { .. })));
    w.apply_start_result(0).unwrap();

    // Already running: success, and no second native start call.
    assert_eq!(w.start().unwrap(), None);
}

#[test]
fn stop_when_not_running_is_noop_success() {
    let w = BlurWindow::attach(BlurWindowHandle(5)).unwrap();
    assert_eq!(w.stop().unwrap(), None);
}

#[test]
fn tint_components_cross_the_boundary_bit_for_bit() {
    let mut engine = FakeEngine::new();
    let w = BlurWindow::attach(BlurWindowHandle(0x4000)).unwrap();

    let (r, g, b, a) = (0.2f32, 0.4f32, 0.6f32, 1.0f32);
    let call = w
        .set_tint_color(r.to_bits(), g.to_bits(), b.to_bits(), a.to_bits())
        .unwrap();
    engine.perform(call);

    let (rr, rg, rb, ra) = engine.tint.unwrap();
    assert_eq!(rr.to_bits(), r.to_bits());
    assert_eq!(rg.to_bits(), g.to_bits());
    assert_eq!(rb.to_bits(), b.to_bits());
    assert_eq!(ra.to_bits(), a.to_bits());
}

#[test]
fn pipeline_with_embedded_terminator_is_rejected_before_any_call() {
    let mut engine = FakeEngine::new();
    let w = BlurWindow::attach(BlurWindowHandle(0x5000)).unwrap();

    let r = w.set_pipeline("{\"effect\":\"blur\0rain\"}");
    assert_eq!(r.unwrap_err(), BlurErrorCode::InvalidParameter);
    assert_eq!(engine.native_call_count(), 0);
}

#[test]
fn pipeline_payload_is_null_terminated() {
    let w = BlurWindow::attach(BlurWindowHandle(0x6000)).unwrap();
    let call = w.set_pipeline("{\"effect\":1}").unwrap();
    match call {
        NativeCall::SetPipeline { window, json } => {
            assert_eq!(window, BlurWindowHandle(0x6000));
            let mut expected = b"{\"effect\":1}".to_vec();
            expected.push(0);
            assert_eq!(json, expected);
        }
        other => panic!("unexpected call: {:?}", other),
    }
}

#[test]
fn fps_query_uses_sentinel_when_destroyed() {
    let mut w = BlurWindow::attach(BlurWindowHandle(0x7000)).unwrap();
    assert_eq!(
        w.get_fps(),
        Some(NativeCall::GetFps { window: BlurWindowHandle(0x7000) })
    );
    w.destroy();
    // No call possible: the reading falls back to the sentinel.
    let reading = fps_from_result(match w.get_fps() {
        Some(_) => Some(60.0f32.to_bits()),
        None => None,
    });
    assert_eq!(reading, 0);
    assert_eq!(f32::from_bits(reading), 0.0f32);
}

#[test]
fn preset_setter_carries_the_wire_ordinal() {
    let w = BlurWindow::attach(BlurWindowHandle(0x8000)).unwrap();
    let call = w
        .set_preset(blur_windows::protocol::BlurQualityPreset::Balanced)
        .unwrap();
    assert_eq!(
        call,
        NativeCall::SetPreset { window: BlurWindowHandle(0x8000), preset: 1 }
    );
}

#[test]
fn each_error_variant_comes_from_its_wire_code() {
    let mut w = BlurWindow::attach(BlurWindowHandle(0x9000)).unwrap();
    assert_eq!(w.apply_start_result(-1).unwrap_err(), BlurErrorCode::NotInitialized);
    assert_eq!(w.apply_start_result(-2).unwrap_err(), BlurErrorCode::InvalidHandle);
    assert_eq!(w.apply_start_result(-3).unwrap_err(), BlurErrorCode::InvalidParameter);
    assert_eq!(w.apply_start_result(-5).unwrap_err(), BlurErrorCode::CaptureFailed);
    assert_eq!(w.apply_start_result(17).unwrap_err(), BlurErrorCode::Unknown);
    assert!(!w.running);
}
