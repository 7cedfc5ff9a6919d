//! The decisions behind bringing up one Audio Effects SDK effect: which
//! model file it needs, where that file is looked for, and the order of the
//! SDK calls that create, configure and load the effect, with what is done
//! when one of them fails.
//!
//! The calls themselves go through raw C function pointers and stay with the
//! caller; this module is driven by their results.
use vstd::prelude::*;
use vstd::string::StringSliceAdditionalSpecFns;
use crate::ffi::{
    NvAFXStatus, NVAFX_EFFECT_DENOISER, NVAFX_EFFECT_DEREVERB, NVAFX_EFFECT_DEREVERB_DENOISER,
    NVAFX_PARAM_DISABLE_CUDA_GRAPH, NVAFX_PARAM_ENABLE_VAD, NVAFX_PARAM_NUM_INPUT_SAMPLES_PER_FRAME,
};

verus! {

/// The three effects that the SDK offers.
#[derive(Debug, Clone, Copy, PartialEq, Eq, Structural)]
pub enum EffectKind {
    Denoiser,
    Dereverb,
    DereverbDenoiser,
}

/// The selector string (with its terminating NUL) that names `k` in the C API.
pub open spec fn selector_of(k: EffectKind) -> &'static str {
    match k {
        EffectKind::Denoiser => NVAFX_EFFECT_DENOISER,
        EffectKind::Dereverb => NVAFX_EFFECT_DEREVERB,
        EffectKind::DereverbDenoiser => NVAFX_EFFECT_DEREVERB_DENOISER,
    }
}

/// The effect that the selector bytes `code` stand for when a model file is
/// chosen: the two dereverb selectors are recognised, anything else counts
/// as the denoiser.
pub open spec fn kind_of_selector(code: Seq<u8>) -> EffectKind {
    if code == NVAFX_EFFECT_DEREVERB.spec_bytes() {
        EffectKind::Dereverb
    } else if code == NVAFX_EFFECT_DEREVERB_DENOISER.spec_bytes() {
        EffectKind::DereverbDenoiser
    } else {
        EffectKind::Denoiser
    }
}

/// Whether two byte strings are equal.
fn bytes_equal(a: &[u8], b: &[u8]) -> (r: bool)
    ensures
        r == (a@ == b@),
{
    if a.len() != b.len() {
        return false;
    }
    let mut i: usize = 0;
    while i < a.len()
        invariant
            i <= a@.len(),
            a@.len() == b@.len(),
            forall|k: int| 0 <= k < i ==> a@[k] == b@[k],
        decreases a@.len() - i,
    {
        if a[i] != b[i] {
            return false;
        }
        i += 1;
    }
    assert(a@ =~= b@);
    true
}

impl EffectKind {
    /// The selector of this effect.
    pub fn selector(&self) -> (s: &'static str)
        ensures
            s == selector_of(*self),
    {
        match self {
            EffectKind::Denoiser => NVAFX_EFFECT_DENOISER,
            EffectKind::Dereverb => NVAFX_EFFECT_DEREVERB,
            EffectKind::DereverbDenoiser => NVAFX_EFFECT_DEREVERB_DENOISER,
        }
    }

    /// The effect named by the selector bytes `code`.
    pub fn from_selector(code: &[u8]) -> (k: EffectKind)
        ensures
            k == kind_of_selector(code@),
    {
        if bytes_equal(code, NVAFX_EFFECT_DEREVERB.as_bytes()) {
            EffectKind::Dereverb
        } else if bytes_equal(code, NVAFX_EFFECT_DEREVERB_DENOISER.as_bytes()) {
            EffectKind::DereverbDenoiser
        } else {
            EffectKind::Denoiser
        }
    }
}

/// Reading back the selector of an effect gives that effect.
pub proof fn lemma_selector_round_trip(k: EffectKind)
    ensures
        kind_of_selector(selector_of(k).spec_bytes()) == k,
{
    reveal_strlit("denoiser\0");
    reveal_strlit("dereverb\0");
    reveal_strlit("dereverb_denoiser\0");
    vstd::string::is_ascii_spec_bytes(NVAFX_EFFECT_DENOISER);
    vstd::string::is_ascii_spec_bytes(NVAFX_EFFECT_DEREVERB);
    vstd::string::is_ascii_spec_bytes(NVAFX_EFFECT_DEREVERB_DENOISER);
    assert(vstd::string::is_ascii(NVAFX_EFFECT_DENOISER));
    assert(vstd::string::is_ascii(NVAFX_EFFECT_DEREVERB));
    assert(vstd::string::is_ascii(NVAFX_EFFECT_DEREVERB_DENOISER));
    let d = NVAFX_EFFECT_DENOISER.spec_bytes();
    let r = NVAFX_EFFECT_DEREVERB.spec_bytes();
    let rd = NVAFX_EFFECT_DEREVERB_DENOISER.spec_bytes();
    assert(d[2] != r[2]);
    assert(d.len() != rd.len());
    assert(r.len() != rd.len());
}

/// The lowest sample rate that is served by the 48 kHz models.
pub const HIGH_RATE_THRESHOLD: u32 = 44100;

/// The file-name prefix of the models of effect `k`.
pub open spec fn model_prefix(k: EffectKind) -> Seq<char> {
    match k {
        EffectKind::Denoiser => "denoiser"@,
        EffectKind::Dereverb => "dereverb"@,
        EffectKind::DereverbDenoiser => "dereverb_denoiser"@,
    }
}

/// The sample-rate tag of the model that serves `sample_rate`: rates of
/// 44.1 kHz and above use the 48 kHz model, lower rates the 16 kHz one.
pub open spec fn rate_tag(sample_rate: u32) -> Seq<char> {
    if sample_rate >= HIGH_RATE_THRESHOLD {
        "48k"@
    } else {
        "16k"@
    }
}

/// The name of the model file, `<prefix>_<rate>.trtpkg`.
pub open spec fn model_file(k: EffectKind, sample_rate: u32) -> Seq<char> {
    model_prefix(k) + "_"@ + rate_tag(sample_rate) + ".trtpkg"@
}

/// The model file name depends on the sample rate only through one tag
/// shared by every effect: rates of 44100 Hz and above take the 48 kHz model,
/// lower rates the 16 kHz one. The name is the effect's selector without its
/// terminating NUL, then that tag, then `.trtpkg`.
pub proof fn lemma_model_file_rate_tag(k: EffectKind, other: EffectKind, sample_rate: u32)
    ensures
        model_file(k, sample_rate) == model_prefix(k) + (if sample_rate >= 44100 {
            "_48k.trtpkg"@
        } else {
            "_16k.trtpkg"@
        }),
        model_file(k, sample_rate).skip(model_prefix(k).len() as int) == model_file(
            other,
            sample_rate,
        ).skip(model_prefix(other).len() as int),
        model_prefix(k) == selector_of(k)@.drop_last(),
        selector_of(k)@.last() == '\0',
{
    reveal_strlit("denoiser");
    reveal_strlit("dereverb");
    reveal_strlit("dereverb_denoiser");
    reveal_strlit("denoiser\0");
    reveal_strlit("dereverb\0");
    reveal_strlit("dereverb_denoiser\0");
    reveal_strlit("48k");
    reveal_strlit("16k");
    reveal_strlit("_");
    reveal_strlit(".trtpkg");
    reveal_strlit("_48k.trtpkg");
    reveal_strlit("_16k.trtpkg");
    let tag: Seq<char> = if sample_rate >= 44100 {
        "_48k.trtpkg"@
    } else {
        "_16k.trtpkg"@
    };
    assert(model_file(k, sample_rate) =~= model_prefix(k) + tag);
    assert(model_file(other, sample_rate) =~= model_prefix(other) + tag);
    assert((model_prefix(k) + tag).skip(model_prefix(k).len() as int) =~= tag);
    assert((model_prefix(other) + tag).skip(model_prefix(other).len() as int) =~= tag);
    assert(model_prefix(k) =~= selector_of(k)@.drop_last());
}

/// Only the two dereverb selectors are told apart: a selector read as one of
/// them is exactly that selector's bytes, and everything else is the
/// denoiser.
pub proof fn lemma_kind_of_selector_exact(code: Seq<u8>)
    ensures
        kind_of_selector(code) == EffectKind::Dereverb ==> code == NVAFX_EFFECT_DEREVERB.spec_bytes(),
        kind_of_selector(code) == EffectKind::DereverbDenoiser ==> code
            == NVAFX_EFFECT_DEREVERB_DENOISER.spec_bytes(),
        (code != NVAFX_EFFECT_DEREVERB.spec_bytes() && code
            != NVAFX_EFFECT_DEREVERB_DENOISER.spec_bytes()) ==> kind_of_selector(code)
            == EffectKind::Denoiser,
{
}

/// The name of the model file that the effect selected by `effect_code`
/// loads at `sample_rate`.
pub fn model_file_name(effect_code: &[u8], sample_rate: u32) -> (name: &'static str)
    ensures
        name@ == model_file(kind_of_selector(effect_code@), sample_rate),
        name@ == model_prefix(kind_of_selector(effect_code@)) + (if sample_rate >= 44100 {
            "_48k.trtpkg"@
        } else {
            "_16k.trtpkg"@
        }),
{
    proof {
        lemma_model_file_rate_tag(kind_of_selector(effect_code@), EffectKind::Denoiser, sample_rate);
        reveal_strlit("denoiser");
        reveal_strlit("dereverb");
        reveal_strlit("dereverb_denoiser");
        reveal_strlit("48k");
        reveal_strlit("16k");
        reveal_strlit("_");
        reveal_strlit(".trtpkg");
    }
    let high = sample_rate >= HIGH_RATE_THRESHOLD;
    match EffectKind::from_selector(effect_code) {
        EffectKind::Denoiser => if high {
            proof { reveal_strlit("denoiser_48k.trtpkg"); }
            assert("denoiser_48k.trtpkg"@ =~= model_file(EffectKind::Denoiser, sample_rate));
            "denoiser_48k.trtpkg"
        } else {
            proof { reveal_strlit("denoiser_16k.trtpkg"); }
            assert("denoiser_16k.trtpkg"@ =~= model_file(EffectKind::Denoiser, sample_rate));
            "denoiser_16k.trtpkg"
        },
        EffectKind::Dereverb => if high {
            proof { reveal_strlit("dereverb_48k.trtpkg"); }
            assert("dereverb_48k.trtpkg"@ =~= model_file(EffectKind::Dereverb, sample_rate));
            "dereverb_48k.trtpkg"
        } else {
            proof { reveal_strlit("dereverb_16k.trtpkg"); }
            assert("dereverb_16k.trtpkg"@ =~= model_file(EffectKind::Dereverb, sample_rate));
            "dereverb_16k.trtpkg"
        },
        EffectKind::DereverbDenoiser => if high {
            proof { reveal_strlit("dereverb_denoiser_48k.trtpkg"); }
            assert("dereverb_denoiser_48k.trtpkg"@ =~= model_file(EffectKind::DereverbDenoiser, sample_rate));
            "dereverb_denoiser_48k.trtpkg"
        } else {
            proof { reveal_strlit("dereverb_denoiser_16k.trtpkg"); }
            assert("dereverb_denoiser_16k.trtpkg"@ =~= model_file(EffectKind::DereverbDenoiser, sample_rate));
            "dereverb_denoiser_16k.trtpkg"
        },
    }
}

/// The directories searched for model files.
#[derive(Debug, Clone, Copy, PartialEq, Eq, Structural)]
pub enum ModelDir {
    /// `models` under the directory named by `NVAFX_SDK_DIR`.
    SdkModels,
    /// `bin\models` under the directory named by `NVAFX_SDK_DIR`.
    SdkBinModels,
    /// The directory named by `NVAFX_SDK_DIR` itself.
    SdkRoot,
    /// The `models` directory of the Audio Effects SDK install.
    AudioEffectsModels,
    /// The `bin\models` directory of the Audio Effects SDK install.
    AudioEffectsBinModels,
    /// The `models` directory of the NVIDIA Broadcast install.
    BroadcastModels,
}

/// The order in which model directories are searched: the three places
/// under `NVAFX_SDK_DIR` when it is set, then the three standard installs.
pub open spec fn model_search_order(sdk_dir_set: bool) -> Seq<ModelDir> {
    let standard = seq![
        ModelDir::AudioEffectsModels,
        ModelDir::AudioEffectsBinModels,
        ModelDir::BroadcastModels,
    ];
    if sdk_dir_set {
        seq![ModelDir::SdkModels, ModelDir::SdkBinModels, ModelDir::SdkRoot] + standard
    } else {
        standard
    }
}

/// The directories to search for a model file, in search order.
pub fn model_search_dirs(sdk_dir_set: bool) -> (v: Vec<ModelDir>)
    ensures
        v@ == model_search_order(sdk_dir_set),
{
    let mut v: Vec<ModelDir> = Vec::new();
    if sdk_dir_set {
        v.push(ModelDir::SdkModels);
        v.push(ModelDir::SdkBinModels);
        v.push(ModelDir::SdkRoot);
    }
    v.push(ModelDir::AudioEffectsModels);
    v.push(ModelDir::AudioEffectsBinModels);
    v.push(ModelDir::BroadcastModels);
    assert(v@ =~= model_search_order(sdk_dir_set));
    v
}

/// Whether `dir` lies under the directory named by `NVAFX_SDK_DIR`.
pub open spec fn model_dir_under_sdk(dir: ModelDir) -> bool {
    dir == ModelDir::SdkModels || dir == ModelDir::SdkBinModels || dir == ModelDir::SdkRoot
}

/// The model search: with `NVAFX_SDK_DIR` set, its `models`, `bin\models`
/// and root directories are tried, in that order, before everything tried
/// without it; the standard search tries each install's model directory once
/// and none under the SDK directory, the Audio Effects SDK's `models` before
/// its `bin\models`, and both before NVIDIA Broadcast's.
pub proof fn lemma_model_search_order()
    ensures
        model_search_order(true) == seq![
            ModelDir::SdkModels,
            ModelDir::SdkBinModels,
            ModelDir::SdkRoot,
        ] + model_search_order(false),
        forall|d: ModelDir| #[trigger] model_search_order(true).contains(d),
        forall|d: ModelDir| #[trigger]
            model_search_order(false).contains(d) <==> !model_dir_under_sdk(d),
        model_search_order(true).no_duplicates(),
        model_search_order(false).index_of(ModelDir::AudioEffectsModels) < model_search_order(
            false,
        ).index_of(ModelDir::AudioEffectsBinModels),
        model_search_order(false).index_of(ModelDir::AudioEffectsBinModels) < model_search_order(
            false,
        ).index_of(ModelDir::BroadcastModels),
{
    let t = model_search_order(true);
    let f = model_search_order(false);
    assert(t =~= seq![ModelDir::SdkModels, ModelDir::SdkBinModels, ModelDir::SdkRoot] + f);
    assert forall|d: ModelDir| #[trigger] t.contains(d) by {
        match d {
            ModelDir::SdkModels => assert(t[0] == d),
            ModelDir::SdkBinModels => assert(t[1] == d),
            ModelDir::SdkRoot => assert(t[2] == d),
            ModelDir::AudioEffectsModels => assert(t[3] == d),
            ModelDir::AudioEffectsBinModels => assert(t[4] == d),
            ModelDir::BroadcastModels => assert(t[5] == d),
        }
    }
    assert forall|d: ModelDir| #[trigger] f.contains(d) <==> !model_dir_under_sdk(d) by {
        match d {
            ModelDir::AudioEffectsModels => assert(f[0] == d),
            ModelDir::AudioEffectsBinModels => assert(f[1] == d),
            ModelDir::BroadcastModels => assert(f[2] == d),
            _ => {},
        }
    }
    f.index_of_first_ensures(ModelDir::AudioEffectsModels);
    f.index_of_first_ensures(ModelDir::AudioEffectsBinModels);
    f.index_of_first_ensures(ModelDir::BroadcastModels);
}

/// What became of the search for the model file.
#[derive(Debug, Clone, Copy, PartialEq, Eq, Structural)]
pub enum ModelLookup {
    /// The file was found and its path can be handed to the SDK.
    Found,
    /// No searched directory holds the file.
    NotFound,
    /// The file was found but its path holds a NUL byte, so it cannot be
    /// passed as a C string.
    Unrepresentable,
}

/// Why an effect could not be brought up.
#[derive(Debug, Clone, Copy, PartialEq, Eq, Structural)]
pub enum SetupError {
    /// `NvAFX_CreateEffect` failed, or succeeded without giving a handle.
    CreateFailed { status: NvAFXStatus },
    /// The model file was not found.
    ModelNotFound,
    /// The model path cannot be passed as a C string.
    InvalidModelPath,
    /// The SDK refused the model path.
    ModelPathRejected { status: NvAFXStatus },
    /// `NvAFX_Load` failed.
    LoadFailed { status: NvAFXStatus },
    /// The frame size could not be read, or was zero.
    FrameSizeUnavailable,
}

/// The unsigned parameters that bringing up an effect touches.
#[derive(Debug, Clone, Copy, PartialEq, Eq, Structural)]
pub enum U32Param {
    EnableVad,
    DisableCudaGraph,
    NumInputSamplesPerFrame,
}

/// The selector of parameter `p`.
pub open spec fn param_selector(p: U32Param) -> &'static str {
    match p {
        U32Param::EnableVad => NVAFX_PARAM_ENABLE_VAD,
        U32Param::DisableCudaGraph => NVAFX_PARAM_DISABLE_CUDA_GRAPH,
        U32Param::NumInputSamplesPerFrame => NVAFX_PARAM_NUM_INPUT_SAMPLES_PER_FRAME,
    }
}

impl U32Param {
    /// The selector of this parameter.
    pub fn selector(&self) -> (s: &'static str)
        ensures
            s == param_selector(*self),
    {
        match self {
            U32Param::EnableVad => NVAFX_PARAM_ENABLE_VAD,
            U32Param::DisableCudaGraph => NVAFX_PARAM_DISABLE_CUDA_GRAPH,
            U32Param::NumInputSamplesPerFrame => NVAFX_PARAM_NUM_INPUT_SAMPLES_PER_FRAME,
        }
    }
}

/// The next thing to do while bringing up an effect.
#[derive(Debug, Clone, Copy, PartialEq, Eq, Structural)]
pub enum SetupAction {
    /// Call `NvAFX_CreateEffect` with the effect's selector.
    CreateEffect,
    /// Look for the model file and turn its path into a C string.
    ResolveModelPath,
    /// Call `NvAFX_SetU32(param, value)`.
    SetU32 { param: U32Param, value: u32 },
    /// Call `NvAFX_SetString` with the model path.
    SetModelPath,
    /// Call `NvAFX_Load`.
    Load,
    /// Call `NvAFX_GetU32(param)`.
    GetU32 { param: U32Param },
    /// Call `NvAFX_DestroyEffect` on the handle, then stop.
    DestroyEffect,
    /// Stop: the state says whether the effect is ready.
    Finish,
}

/// The reply to the last action.
#[derive(Debug, Clone, Copy, PartialEq, Eq, Structural)]
pub enum SetupEvent {
    /// `NvAFX_CreateEffect` returned `status` and a handle that is null or not.
    Created { status: NvAFXStatus, handle_is_null: bool },
    /// The model file search ended with `lookup`.
    ModelPath { lookup: ModelLookup },
    /// A setter or `NvAFX_Load` returned `status`.
    Status { status: NvAFXStatus },
    /// `NvAFX_GetU32` returned `status` and wrote `value`.
    Value { status: NvAFXStatus, value: u32 },
}

/// Where the bring-up of an effect stands.
#[derive(Debug, Clone, Copy, PartialEq, Eq, Structural)]
pub enum SetupState {
    Creating,
    ResolvingModel,
    EnablingVad,
    EnablingCudaGraph,
    SettingModelPath,
    Loading,
    QueryingFrameSize,
    Ready { frame_size: usize },
    Failed { error: SetupError },
}

/// The action that `state` waits on the reply to.
pub open spec fn pending_action(state: SetupState) -> SetupAction {
    match state {
        SetupState::Creating => SetupAction::CreateEffect,
        SetupState::ResolvingModel => SetupAction::ResolveModelPath,
        SetupState::EnablingVad => SetupAction::SetU32 { param: U32Param::EnableVad, value: 1 },
        SetupState::EnablingCudaGraph => SetupAction::SetU32 {
            param: U32Param::DisableCudaGraph,
            value: 0,
        },
        SetupState::SettingModelPath => SetupAction::SetModelPath,
        SetupState::Loading => SetupAction::Load,
        SetupState::QueryingFrameSize => SetupAction::GetU32 {
            param: U32Param::NumInputSamplesPerFrame,
        },
        _ => SetupAction::Finish,
    }
}

/// The transition taken on `event` in `state`.
///
/// Creation must succeed with a handle, or the bring-up stops with nothing
/// to release. Once the handle exists, every failure releases it before
/// stopping: a model file that is missing or whose path is no C string, a
/// refusal of the model path, a failed load, or a missing or zero frame
/// size. The two tuning parameters are set and their replies are not
/// checked. A reply of the wrong
/// kind changes nothing and repeats the pending action; a finished
/// bring-up stays finished.
pub open spec fn setup_step(state: SetupState, event: SetupEvent) -> (SetupState, SetupAction) {
    match (state, event) {
        (SetupState::Creating, SetupEvent::Created { status, handle_is_null }) =>
            if status == NvAFXStatus::Success && !handle_is_null {
                (SetupState::ResolvingModel, SetupAction::ResolveModelPath)
            } else {
                (
                    SetupState::Failed { error: SetupError::CreateFailed { status } },
                    SetupAction::Finish,
                )
            },
        (SetupState::ResolvingModel, SetupEvent::ModelPath { lookup }) => match lookup {
            ModelLookup::Found => (
                SetupState::EnablingVad,
                SetupAction::SetU32 { param: U32Param::EnableVad, value: 1 },
            ),
            ModelLookup::NotFound => (
                SetupState::Failed { error: SetupError::ModelNotFound },
                SetupAction::DestroyEffect,
            ),
            ModelLookup::Unrepresentable => (
                SetupState::Failed { error: SetupError::InvalidModelPath },
                SetupAction::DestroyEffect,
            ),
        },
        (SetupState::EnablingVad, SetupEvent::Status { .. }) => (
            SetupState::EnablingCudaGraph,
            SetupAction::SetU32 { param: U32Param::DisableCudaGraph, value: 0 },
        ),
        (SetupState::EnablingCudaGraph, SetupEvent::Status { .. }) => (
            SetupState::SettingModelPath,
            SetupAction::SetModelPath,
        ),
        (SetupState::SettingModelPath, SetupEvent::Status { status }) =>
            if status == NvAFXStatus::Success {
                (SetupState::Loading, SetupAction::Load)
            } else {
                (
                    SetupState::Failed { error: SetupError::ModelPathRejected { status } },
                    SetupAction::DestroyEffect,
                )
            },
        (SetupState::Loading, SetupEvent::Status { status }) =>
            if status == NvAFXStatus::Success {
                (
                    SetupState::QueryingFrameSize,
                    SetupAction::GetU32 { param: U32Param::NumInputSamplesPerFrame },
                )
            } else {
                (
                    SetupState::Failed { error: SetupError::LoadFailed { status } },
                    SetupAction::DestroyEffect,
                )
            },
        (SetupState::QueryingFrameSize, SetupEvent::Value { status, value }) =>
            if status == NvAFXStatus::Success && value != 0 {
                (SetupState::Ready { frame_size: value as usize }, SetupAction::Finish)
            } else {
                (
                    SetupState::Failed { error: SetupError::FrameSizeUnavailable },
                    SetupAction::DestroyEffect,
                )
            },
        _ => (state, pending_action(state)),
    }
}

/// How far along a bring-up is; a finished one has the highest rank.
pub open spec fn setup_rank(state: SetupState) -> int {
    match state {
        SetupState::Creating => 0,
        SetupState::ResolvingModel => 1,
        SetupState::EnablingVad => 2,
        SetupState::EnablingCudaGraph => 3,
        SetupState::SettingModelPath => 4,
        SetupState::Loading => 5,
        SetupState::QueryingFrameSize => 6,
        SetupState::Ready { .. } => 7,
        SetupState::Failed { .. } => 7,
    }
}

/// When every SDK call succeeds and the model file is found, the bring-up
/// creates the effect, looks for the model, enables voice activity
/// detection, enables CUDA graphs, sets the model path, loads the model and
/// reads the frame size, in that order, whatever the two tuning setters
/// reply, and ends ready with the frame size the SDK reported.
pub proof fn lemma_setup_success_run(vad_status: NvAFXStatus, graph_status: NvAFXStatus, frame_size: u32)
    requires
        frame_size != 0,
    ensures
        ({
            let (s1, a1) = setup_step(
                SetupState::Creating,
                SetupEvent::Created { status: NvAFXStatus::Success, handle_is_null: false },
            );
            let (s2, a2) = setup_step(s1, SetupEvent::ModelPath { lookup: ModelLookup::Found });
            let (s3, a3) = setup_step(s2, SetupEvent::Status { status: vad_status });
            let (s4, a4) = setup_step(s3, SetupEvent::Status { status: graph_status });
            let (s5, a5) = setup_step(s4, SetupEvent::Status { status: NvAFXStatus::Success });
            let (s6, a6) = setup_step(s5, SetupEvent::Status { status: NvAFXStatus::Success });
            let (s7, a7) = setup_step(
                s6,
                SetupEvent::Value { status: NvAFXStatus::Success, value: frame_size },
            );
            &&& a1 == SetupAction::ResolveModelPath
            &&& a2 == SetupAction::SetU32 { param: U32Param::EnableVad, value: 1 }
            &&& a3 == SetupAction::SetU32 { param: U32Param::DisableCudaGraph, value: 0 }
            &&& a4 == SetupAction::SetModelPath
            &&& a5 == SetupAction::Load
            &&& a6 == SetupAction::GetU32 { param: U32Param::NumInputSamplesPerFrame }
            &&& a7 == SetupAction::Finish
            &&& s7 == SetupState::Ready { frame_size: frame_size as usize }
        }),
{
}

/// Creation goes on only with a handle: from `Creating`, a `Created` reply
/// moves on to the model search exactly when the SDK reports success and
/// writes a non-null handle. Any other reply (a failure status, or a null
/// handle) ends the bring-up with `CreateFailed` carrying the reported
/// status, and there is nothing to release.
pub proof fn lemma_setup_create_reply(status: NvAFXStatus, handle_is_null: bool)
    ensures
        ({
            let (next, action) = setup_step(
                SetupState::Creating,
                SetupEvent::Created { status, handle_is_null },
            );
            &&& (next == SetupState::ResolvingModel) <==> (status == NvAFXStatus::Success
                && !handle_is_null)
            &&& (next == SetupState::ResolvingModel) ==> action == SetupAction::ResolveModelPath
            &&& !(status == NvAFXStatus::Success && !handle_is_null) ==> {
                &&& next == SetupState::Failed { error: SetupError::CreateFailed { status } }
                &&& action == SetupAction::Finish
            }
        }),
{
}

/// Every other reply, over all statuses and values: a found model leads to
/// enabling voice activity detection, a model that is missing or whose path
/// is no C string fails with the matching error and releases the handle; the
/// replies to the two tuning setters are ignored whatever their status; a
/// refused path or a failed load fails with that status and releases the
/// handle; a frame size is accepted exactly when it is read successfully and
/// is not zero, and becomes the ready frame size unchanged.
pub proof fn lemma_setup_replies(status: NvAFXStatus, value: u32, lookup: ModelLookup)
    ensures
        ({
            let (next, action) = setup_step(SetupState::ResolvingModel, SetupEvent::ModelPath { lookup });
            &&& lookup == ModelLookup::Found ==> next == SetupState::EnablingVad && action
                == SetupAction::SetU32 { param: U32Param::EnableVad, value: 1 }
            &&& lookup == ModelLookup::NotFound ==> next == SetupState::Failed {
                error: SetupError::ModelNotFound,
            } && action == SetupAction::DestroyEffect
            &&& lookup == ModelLookup::Unrepresentable ==> next == SetupState::Failed {
                error: SetupError::InvalidModelPath,
            } && action == SetupAction::DestroyEffect
        }),
        setup_step(SetupState::EnablingVad, SetupEvent::Status { status }) == (
            SetupState::EnablingCudaGraph,
            SetupAction::SetU32 { param: U32Param::DisableCudaGraph, value: 0 },
        ),
        setup_step(SetupState::EnablingCudaGraph, SetupEvent::Status { status }) == (
            SetupState::SettingModelPath,
            SetupAction::SetModelPath,
        ),
        status != NvAFXStatus::Success ==> setup_step(
            SetupState::SettingModelPath,
            SetupEvent::Status { status },
        ) == (
            SetupState::Failed { error: SetupError::ModelPathRejected { status } },
            SetupAction::DestroyEffect,
        ),
        setup_step(SetupState::SettingModelPath, SetupEvent::Status { status: NvAFXStatus::Success })
            == (SetupState::Loading, SetupAction::Load),
        status != NvAFXStatus::Success ==> setup_step(
            SetupState::Loading,
            SetupEvent::Status { status },
        ) == (
            SetupState::Failed { error: SetupError::LoadFailed { status } },
            SetupAction::DestroyEffect,
        ),
        setup_step(SetupState::Loading, SetupEvent::Status { status: NvAFXStatus::Success }) == (
            SetupState::QueryingFrameSize,
            SetupAction::GetU32 { param: U32Param::NumInputSamplesPerFrame },
        ),
        ({
            let (next, action) = setup_step(
                SetupState::QueryingFrameSize,
                SetupEvent::Value { status, value },
            );
            &&& (next is Ready) <==> (status == NvAFXStatus::Success && value != 0)
            &&& next is Ready ==> next->frame_size == value && action == SetupAction::Finish
            &&& !(next is Ready) ==> next == SetupState::Failed {
                error: SetupError::FrameSizeUnavailable,
            } && action == SetupAction::DestroyEffect
        }),
{
}

/// The handle is released exactly when the bring-up fails after the effect
/// was created: a missing or unrepresentable model file, a refused path, a
/// failed load, or a missing or zero frame size. A failed creation, which
/// leaves no handle, stops without a release.
pub proof fn lemma_setup_releases_handle(state: SetupState, event: SetupEvent)
    ensures
        ({
            let (next, action) = setup_step(state, event);
            &&& action == SetupAction::DestroyEffect <==> {
                &&& next is Failed
                &&& !(state is Failed)
                &&& (state is ResolvingModel || state is SettingModelPath || state is Loading
                    || state is QueryingFrameSize)
            }
            &&& (next is Failed && state is Creating) ==> action == SetupAction::Finish
        }),
{
}

/// Each reply of the expected kind moves the bring-up strictly forward, and
/// any other reply leaves it where it is and repeats the pending action; so
/// at most seven replies end it. A finished bring-up stays as it is.
pub proof fn lemma_setup_progress(state: SetupState, event: SetupEvent)
    ensures
        ({
            let (next, action) = setup_step(state, event);
            &&& setup_rank(next) > setup_rank(state) || (next == state && action
                == pending_action(state))
            &&& (state is Ready || state is Failed) ==> next == state && action
                == SetupAction::Finish
            &&& (next is Ready && !(state is Ready)) ==> next->frame_size > 0
            &&& (action == SetupAction::Finish || action == SetupAction::DestroyEffect) <==> (
            next is Ready || next is Failed)
        }),
{
}

impl SetupState {
    /// The state a bring-up starts in, and its first action.
    pub fn start() -> (r: (SetupState, SetupAction))
        ensures
            r == (SetupState::Creating, SetupAction::CreateEffect),
    {
        (SetupState::Creating, SetupAction::CreateEffect)
    }

    /// Whether the bring-up has ended, ready or failed.
    pub fn is_finished(&self) -> (b: bool)
        ensures
            b == (self is Ready || self is Failed),
    {
        match self {
            SetupState::Ready { .. } | SetupState::Failed { .. } => true,
            _ => false,
        }
    }

    /// The next state and action after `event`.
    pub fn step(&self, event: SetupEvent) -> (r: (SetupState, SetupAction))
        ensures
            r == setup_step(*self, event),
            *self == SetupState::Creating ==> (event matches SetupEvent::Created {
                status,
                handle_is_null,
            } ==> if status == NvAFXStatus::Success && !handle_is_null {
                r == (SetupState::ResolvingModel, SetupAction::ResolveModelPath)
            } else {
                r == (
                    SetupState::Failed { error: SetupError::CreateFailed { status } },
                    SetupAction::Finish,
                )
            }),
    {
        match (*self, event) {
            (SetupState::Creating, SetupEvent::Created { status, handle_is_null }) =>
                if status.is_success() && !handle_is_null {
                    (SetupState::ResolvingModel, SetupAction::ResolveModelPath)
                } else {
                    (
                        SetupState::Failed { error: SetupError::CreateFailed { status } },
                        SetupAction::Finish,
                    )
                },
            (SetupState::ResolvingModel, SetupEvent::ModelPath { lookup }) => match lookup {
                ModelLookup::Found => (
                    SetupState::EnablingVad,
                    SetupAction::SetU32 { param: U32Param::EnableVad, value: 1 },
                ),
                ModelLookup::NotFound => (
                    SetupState::Failed { error: SetupError::ModelNotFound },
                    SetupAction::DestroyEffect,
                ),
                ModelLookup::Unrepresentable => (
                    SetupState::Failed { error: SetupError::InvalidModelPath },
                    SetupAction::DestroyEffect,
                ),
            },
            (SetupState::EnablingVad, SetupEvent::Status { .. }) => (
                SetupState::EnablingCudaGraph,
                SetupAction::SetU32 { param: U32Param::DisableCudaGraph, value: 0 },
            ),
            (SetupState::EnablingCudaGraph, SetupEvent::Status { .. }) => (
                SetupState::SettingModelPath,
                SetupAction::SetModelPath,
            ),
            (SetupState::SettingModelPath, SetupEvent::Status { status }) =>
                if status.is_success() {
                    (SetupState::Loading, SetupAction::Load)
                } else {
                    (
                        SetupState::Failed { error: SetupError::ModelPathRejected { status } },
                        SetupAction::DestroyEffect,
                    )
                },
            (SetupState::Loading, SetupEvent::Status { status }) =>
                if status.is_success() {
                    (
                        SetupState::QueryingFrameSize,
                        SetupAction::GetU32 { param: U32Param::NumInputSamplesPerFrame },
                    )
                } else {
                    (
                        SetupState::Failed { error: SetupError::LoadFailed { status } },
                        SetupAction::DestroyEffect,
                    )
                },
            (SetupState::QueryingFrameSize, SetupEvent::Value { status, value }) =>
                if status.is_success() && value != 0 {
                    (SetupState::Ready { frame_size: value as usize }, SetupAction::Finish)
                } else {
                    (
                        SetupState::Failed { error: SetupError::FrameSizeUnavailable },
                        SetupAction::DestroyEffect,
                    )
                },
            (SetupState::Ready { .. }, _) | (SetupState::Failed { .. }, _) => (
                *self,
                SetupAction::Finish,
            ),
            (SetupState::Creating, _) => (*self, SetupAction::CreateEffect),
            (SetupState::ResolvingModel, _) => (*self, SetupAction::ResolveModelPath),
            (SetupState::EnablingVad, _) => (
                *self,
                SetupAction::SetU32 { param: U32Param::EnableVad, value: 1 },
            ),
            (SetupState::EnablingCudaGraph, _) => (
                *self,
                SetupAction::SetU32 { param: U32Param::DisableCudaGraph, value: 0 },
            ),
            (SetupState::SettingModelPath, _) => (*self, SetupAction::SetModelPath),
            (SetupState::Loading, _) => (*self, SetupAction::Load),
            (SetupState::QueryingFrameSize, _) => (
                *self,
                SetupAction::GetU32 { param: U32Param::NumInputSamplesPerFrame },
            ),
        }
    }
}

} // verus!
