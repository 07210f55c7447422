use blur_windows::errors::{check_code, code_from_raw, raw_from_code, BlurErrorCode};
use blur_windows::handles::BlurSystemHandle;
use blur_windows::protocol::{
    bool_flag, c_string_bytes, preset_ordinal, BlurQualityPreset, BlurSystemOptions, NativeCall,
};
use blur_windows::system::BlurSystem;

#[test]
fn error_codes_map_exactly() {
    assert_eq!(code_from_raw(0), BlurErrorCode::Success);
    assert_eq!(code_from_raw(-1), BlurErrorCode::NotInitialized);
    assert_eq!(code_from_raw(-2), BlurErrorCode::InvalidHandle);
    assert_eq!(code_from_raw(-3), BlurErrorCode::InvalidParameter);
    assert_eq!(code_from_raw(-4), BlurErrorCode::D3D11Failed);
    assert_eq!(code_from_raw(-5), BlurErrorCode::CaptureFailed);
    assert_eq!(code_from_raw(-99), BlurErrorCode::Unknown);
    // Every unrecognized code collapses to Unknown.
    assert_eq!(code_from_raw(-6), BlurErrorCode::Unknown);
    assert_eq!(code_from_raw(1), BlurErrorCode::Unknown);
    assert_eq!(code_from_raw(i32::MAX), BlurErrorCode::Unknown);
    assert_eq!(code_from_raw(i32::MIN), BlurErrorCode::Unknown);
}

#[test]
fn error_code_wire_values_round_trip() {
    let all = [
        BlurErrorCode::Success,
        BlurErrorCode::NotInitialized,
        BlurErrorCode::InvalidHandle,
        BlurErrorCode::InvalidParameter,
        BlurErrorCode::D3D11Failed,
        BlurErrorCode::CaptureFailed,
        BlurErrorCode::Unknown,
    ];
    for code in all {
        assert_eq!(code_from_raw(raw_from_code(code)), code);
    }
    assert_eq!(raw_from_code(BlurErrorCode::Unknown), -99);
}

#[test]
fn check_code_success_exactly_on_zero() {
    assert_eq!(check_code(0), Ok(()));
    assert_eq!(check_code(-2), Err(BlurErrorCode::InvalidHandle));
    assert_eq!(check_code(7), Err(BlurErrorCode::Unknown));
}

#[test]
fn preset_ordinals_are_fixed() {
    assert_eq!(preset_ordinal(BlurQualityPreset::High), 0);
    assert_eq!(preset_ordinal(BlurQualityPreset::Balanced), 1);
    assert_eq!(preset_ordinal(BlurQualityPreset::Performance), 2);
    assert_eq!(preset_ordinal(BlurQualityPreset::Minimal), 3);
}

#[test]
fn bool_flags_are_fixed() {
    assert_eq!(bool_flag(true), 1);
    assert_eq!(bool_flag(false), 0);
}

#[test]
fn c_string_bytes_appends_terminator() {
    let v = c_string_bytes("abc").unwrap();
    assert_eq!(v, vec![b'a', b'b', b'c', 0]);
    let empty = c_string_bytes("").unwrap();
    assert_eq!(empty, vec![0]);
}

#[test]
fn c_string_bytes_rejects_embedded_terminator() {
    assert_eq!(c_string_bytes("a\0b").unwrap_err(), BlurErrorCode::InvalidParameter);
    assert_eq!(c_string_bytes("\0").unwrap_err(), BlurErrorCode::InvalidParameter);
}

#[test]
fn system_options_flatten_to_the_wire_shape() {
    let opts = BlurSystemOptions {
        enable_logging: true,
        log_path: None,
        default_preset: BlurQualityPreset::Balanced,
    };
    let c = opts.to_c().unwrap();
    assert_eq!(c.enable_logging, 1);
    assert_eq!(c.log_path, None);
    assert_eq!(c.default_preset, 1);

    let with_path = BlurSystemOptions {
        enable_logging: false,
        log_path: Some("blur.log".to_string()),
        default_preset: BlurQualityPreset::Minimal,
    };
    let c2 = with_path.to_c().unwrap();
    assert_eq!(c2.enable_logging, 0);
    assert_eq!(c2.default_preset, 3);
    let mut expected = b"blur.log".to_vec();
    expected.push(0);
    assert_eq!(c2.log_path, Some(expected));
}

#[test]
fn system_options_reject_log_path_with_terminator() {
    let opts = BlurSystemOptions {
        enable_logging: true,
        log_path: Some("bad\0path".to_string()),
        default_preset: BlurQualityPreset::High,
    };
    assert_eq!(opts.to_c().unwrap_err(), BlurErrorCode::InvalidParameter);
    assert_eq!(
        BlurSystem::init_call(&opts).unwrap_err(),
        BlurErrorCode::InvalidParameter
    );
}

#[test]
fn initialization_outcome_is_adopted_exactly() {
    let opts = BlurSystemOptions {
        enable_logging: true,
        log_path: None,
        default_preset: BlurQualityPreset::Balanced,
    };

    let ok = BlurSystem::new(opts.clone(), BlurSystemHandle(11), None).unwrap();
    assert_eq!(ok.handle, BlurSystemHandle(11));
    assert!(ok.initialized());
    assert_eq!(ok.options, opts);

    // A null handle surfaces the engine's detail when one is available …
    let detailed = BlurSystem::new(opts.clone(), BlurSystemHandle(0), Some("device lost".to_string()));
    assert_eq!(detailed.unwrap_err(), "device lost");

    // … and the generic message otherwise.
    let generic = BlurSystem::new(opts, BlurSystemHandle(0), None);
    assert_eq!(generic.unwrap_err(), "Failed to initialize blur system");
}

#[test]
fn create_window_requires_an_initialized_context() {
    let opts = BlurSystemOptions {
        enable_logging: true,
        log_path: None,
        default_preset: BlurQualityPreset::High,
    };
    let mut sys = BlurSystem::new(opts, BlurSystemHandle(21), None).unwrap();

    let call = sys.create_window(0, 10, 20, 300, 400, true, true).unwrap();
    match call {
        NativeCall::CreateWindow { sys: h, owner, opts } => {
            assert_eq!(h, BlurSystemHandle(21));
            assert_eq!(owner, 0);
            assert_eq!(opts.owner, 0);
            assert_eq!(opts.bounds.left, 10);
            assert_eq!(opts.bounds.top, 20);
            assert_eq!(opts.bounds.right, 310);
            assert_eq!(opts.bounds.bottom, 420);
            assert_eq!(opts.top_most, 1);
            assert_eq!(opts.click_through, 1);
        }
        other => panic!("unexpected call: {:?}", other),
    }

    // After close the context must not be used further.
    sys.close();
    assert_eq!(
        sys.create_window(0, 0, 0, 1, 1, true, true).unwrap_err(),
        BlurErrorCode::NotInitialized
    );
}

#[test]
fn close_is_idempotent() {
    let opts = BlurSystemOptions {
        enable_logging: true,
        log_path: None,
        default_preset: BlurQualityPreset::High,
    };
    let mut sys = BlurSystem::new(opts, BlurSystemHandle(31), None).unwrap();

    let first = sys.close();
    assert_eq!(first, Some(NativeCall::Shutdown { sys: BlurSystemHandle(31) }));
    assert!(!sys.initialized());

    let second = sys.close();
    assert_eq!(second, None);
    assert!(!sys.initialized());
}
