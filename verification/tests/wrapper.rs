use nv_audio_fx_vst::ffi::NvAFXStatus;
use nv_audio_fx_vst::wrapper::{
    model_file_name, model_search_dirs, EffectKind, ModelDir, ModelLookup, SetupAction,
    SetupError, SetupEvent, SetupState, U32Param,
};

fn ok() -> SetupEvent {
    SetupEvent::Status { status: NvAFXStatus::Success }
}

#[test]
fn selectors_round_trip() {
    for k in [EffectKind::Denoiser, EffectKind::Dereverb, EffectKind::DereverbDenoiser] {
        assert_eq!(EffectKind::from_selector(k.selector().as_bytes()), k);
    }
}

#[test]
fn unknown_selector_means_denoiser() {
    assert_eq!(EffectKind::from_selector(b"whatever\0"), EffectKind::Denoiser);
    assert_eq!(EffectKind::from_selector(b"dereverb"), EffectKind::Denoiser);
    assert_eq!(EffectKind::from_selector(b""), EffectKind::Denoiser);
}

#[test]
fn model_file_names() {
    assert_eq!(model_file_name(b"denoiser\0", 48000), "denoiser_48k.trtpkg");
    assert_eq!(model_file_name(b"denoiser\0", 16000), "denoiser_16k.trtpkg");
    assert_eq!(model_file_name(b"dereverb\0", 48000), "dereverb_48k.trtpkg");
    assert_eq!(model_file_name(b"dereverb\0", 8000), "dereverb_16k.trtpkg");
    assert_eq!(model_file_name(b"dereverb_denoiser\0", 96000), "dereverb_denoiser_48k.trtpkg");
    assert_eq!(model_file_name(b"dereverb_denoiser\0", 22050), "dereverb_denoiser_16k.trtpkg");
    assert_eq!(model_file_name(b"other\0", 48000), "denoiser_48k.trtpkg");
}

#[test]
fn rate_threshold_is_44100() {
    assert_eq!(model_file_name(b"denoiser\0", 44100), "denoiser_48k.trtpkg");
    assert_eq!(model_file_name(b"denoiser\0", 44099), "denoiser_16k.trtpkg");
}

#[test]
fn model_search_order() {
    assert_eq!(
        model_search_dirs(true),
        vec![
            ModelDir::SdkModels,
            ModelDir::SdkBinModels,
            ModelDir::SdkRoot,
            ModelDir::AudioEffectsModels,
            ModelDir::AudioEffectsBinModels,
            ModelDir::BroadcastModels,
        ]
    );
    assert_eq!(
        model_search_dirs(false),
        vec![ModelDir::AudioEffectsModels, ModelDir::AudioEffectsBinModels, ModelDir::BroadcastModels]
    );
}

#[test]
fn setup_success_run() {
    let (s, a) = SetupState::start();
    assert_eq!(a, SetupAction::CreateEffect);
    let (s, a) = s.step(SetupEvent::Created { status: NvAFXStatus::Success, handle_is_null: false });
    assert_eq!(a, SetupAction::ResolveModelPath);
    let (s, a) = s.step(SetupEvent::ModelPath { lookup: ModelLookup::Found });
    assert_eq!(a, SetupAction::SetU32 { param: U32Param::EnableVad, value: 1 });
    let (s, a) = s.step(SetupEvent::Status { status: NvAFXStatus::InvalidParam });
    assert_eq!(a, SetupAction::SetU32 { param: U32Param::DisableCudaGraph, value: 0 });
    let (s, a) = s.step(SetupEvent::Status { status: NvAFXStatus::Failed });
    assert_eq!(a, SetupAction::SetModelPath);
    let (s, a) = s.step(ok());
    assert_eq!(a, SetupAction::Load);
    let (s, a) = s.step(ok());
    assert_eq!(a, SetupAction::GetU32 { param: U32Param::NumInputSamplesPerFrame });
    let (s, a) = s.step(SetupEvent::Value { status: NvAFXStatus::Success, value: 480 });
    assert_eq!(a, SetupAction::Finish);
    assert_eq!(s, SetupState::Ready { frame_size: 480 });
    assert!(s.is_finished());
}

#[test]
fn create_failure_stops_without_release() {
    let (s, _) = SetupState::start();
    let (s, a) = s.step(SetupEvent::Created { status: NvAFXStatus::GpuUnsupported, handle_is_null: false });
    assert_eq!(a, SetupAction::Finish);
    assert_eq!(s, SetupState::Failed { error: SetupError::CreateFailed { status: NvAFXStatus::GpuUnsupported } });
}

#[test]
fn null_handle_counts_as_create_failure() {
    let (s, a) = SetupState::Creating.step(SetupEvent::Created { status: NvAFXStatus::Success, handle_is_null: true });
    assert_eq!(a, SetupAction::Finish);
    assert_eq!(s, SetupState::Failed { error: SetupError::CreateFailed { status: NvAFXStatus::Success } });
}

#[test]
fn missing_model_releases_handle() {
    let (s, a) = SetupState::ResolvingModel.step(SetupEvent::ModelPath { lookup: ModelLookup::NotFound });
    assert_eq!(a, SetupAction::DestroyEffect);
    assert_eq!(s, SetupState::Failed { error: SetupError::ModelNotFound });
    let (s, a) = SetupState::ResolvingModel.step(SetupEvent::ModelPath { lookup: ModelLookup::Unrepresentable });
    assert_eq!(a, SetupAction::DestroyEffect);
    assert_eq!(s, SetupState::Failed { error: SetupError::InvalidModelPath });
}

#[test]
fn rejected_model_path_releases_handle() {
    let (s, a) = SetupState::SettingModelPath.step(SetupEvent::Status { status: NvAFXStatus::InvalidParam });
    assert_eq!(a, SetupAction::DestroyEffect);
    assert_eq!(s, SetupState::Failed { error: SetupError::ModelPathRejected { status: NvAFXStatus::InvalidParam } });
}

#[test]
fn failed_load_releases_handle() {
    let (s, a) = SetupState::Loading.step(SetupEvent::Status { status: NvAFXStatus::ModelLoadFailed });
    assert_eq!(a, SetupAction::DestroyEffect);
    assert_eq!(s, SetupState::Failed { error: SetupError::LoadFailed { status: NvAFXStatus::ModelLoadFailed } });
}

#[test]
fn zero_or_unreadable_frame_size_releases_handle() {
    let (s, a) = SetupState::QueryingFrameSize.step(SetupEvent::Value { status: NvAFXStatus::Success, value: 0 });
    assert_eq!(a, SetupAction::DestroyEffect);
    assert_eq!(s, SetupState::Failed { error: SetupError::FrameSizeUnavailable });
    let (s, a) = SetupState::QueryingFrameSize.step(SetupEvent::Value { status: NvAFXStatus::Failed, value: 480 });
    assert_eq!(a, SetupAction::DestroyEffect);
    assert_eq!(s, SetupState::Failed { error: SetupError::FrameSizeUnavailable });
}

#[test]
fn unexpected_reply_repeats_pending_action() {
    let (s, a) = SetupState::Loading.step(SetupEvent::ModelPath { lookup: ModelLookup::Found });
    assert_eq!(s, SetupState::Loading);
    assert_eq!(a, SetupAction::Load);
}

#[test]
fn finished_setup_stays_finished() {
    let ready = SetupState::Ready { frame_size: 256 };
    assert_eq!(ready.step(ok()), (ready, SetupAction::Finish));
    let failed = SetupState::Failed { error: SetupError::ModelNotFound };
    assert_eq!(failed.step(ok()), (failed, SetupAction::Finish));
    assert!(!SetupState::Loading.is_finished());
}

#[test]
fn param_selectors() {
    assert_eq!(U32Param::EnableVad.selector(), "enable_vad\0");
    assert_eq!(U32Param::DisableCudaGraph.selector(), "disable_cuda_graph\0");
    assert_eq!(U32Param::NumInputSamplesPerFrame.selector(), "num_input_samples_per_frame\0");
}
