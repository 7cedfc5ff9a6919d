use nv_audio_fx_vst::ffi::{
    NvAFXStatus, NVAFX_EFFECT_DENOISER, NVAFX_EFFECT_DEREVERB, NVAFX_EFFECT_DEREVERB_DENOISER,
    NVAFX_PARAM_ENABLE_VAD, NVAFX_PARAM_NUM_INPUT_SAMPLES_PER_FRAME,
};

const ALL: [NvAFXStatus; 13] = [
    NvAFXStatus::Success,
    NvAFXStatus::Failed,
    NvAFXStatus::InvalidHandle,
    NvAFXStatus::InvalidParam,
    NvAFXStatus::ImmutableParam,
    NvAFXStatus::InsufficientData,
    NvAFXStatus::EffectNotAvailable,
    NvAFXStatus::OutputBufferTooSmall,
    NvAFXStatus::ModelLoadFailed,
    NvAFXStatus::Status32ServerNotRegistered,
    NvAFXStatus::Status32ComError,
    NvAFXStatus::GpuUnsupported,
    NvAFXStatus::CudaContextCreationFailed,
];

#[test]
fn status_codes_follow_the_c_enum() {
    for (i, s) in ALL.iter().enumerate() {
        assert_eq!(s.code(), i as i32);
    }
    assert_eq!(NvAFXStatus::GpuUnsupported.code(), 11);
}

#[test]
fn status_code_round_trip() {
    for s in ALL {
        assert_eq!(NvAFXStatus::from_code(s.code()), Some(s));
        assert_eq!(NvAFXStatus::from_raw(s.code()), s);
    }
}

#[test]
fn undefined_codes_are_rejected() {
    assert_eq!(NvAFXStatus::from_code(13), None);
    assert_eq!(NvAFXStatus::from_code(-1), None);
    assert_eq!(NvAFXStatus::from_raw(42), NvAFXStatus::Failed);
    assert_eq!(NvAFXStatus::from_raw(-7), NvAFXStatus::Failed);
}

#[test]
fn only_success_is_success() {
    assert!(NvAFXStatus::Success.is_success());
    for s in &ALL[1..] {
        assert!(!s.is_success());
    }
}

#[test]
fn selectors_are_nul_terminated() {
    assert_eq!(NVAFX_EFFECT_DENOISER.as_bytes(), b"denoiser\0");
    assert_eq!(NVAFX_EFFECT_DEREVERB.as_bytes(), b"dereverb\0");
    assert_eq!(NVAFX_EFFECT_DEREVERB_DENOISER.as_bytes(), b"dereverb_denoiser\0");
    assert_eq!(NVAFX_PARAM_ENABLE_VAD.as_bytes(), b"enable_vad\0");
    assert_eq!(
        NVAFX_PARAM_NUM_INPUT_SAMPLES_PER_FRAME.as_bytes(),
        b"num_input_samples_per_frame\0"
    );
}
