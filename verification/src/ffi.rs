//! The vocabulary of the NVIDIA Maxine Audio Effects (AFX) C API: status
//! codes and the NUL-terminated selector names of effects and parameters.
use vstd::prelude::*;

verus! {

/// Status codes returned by the functions of the Audio Effects SDK.
#[derive(Debug, Clone, Copy, PartialEq, Eq, Structural)]
pub enum NvAFXStatus {
    Success,
    Failed,
    InvalidHandle,
    InvalidParam,
    ImmutableParam,
    InsufficientData,
    EffectNotAvailable,
    OutputBufferTooSmall,
    ModelLoadFailed,
    Status32ServerNotRegistered,
    Status32ComError,
    GpuUnsupported,
    CudaContextCreationFailed,
}

/// The integer that the C API uses for each status.
pub open spec fn status_code(s: NvAFXStatus) -> int {
    match s {
        NvAFXStatus::Success => 0,
        NvAFXStatus::Failed => 1,
        NvAFXStatus::InvalidHandle => 2,
        NvAFXStatus::InvalidParam => 3,
        NvAFXStatus::ImmutableParam => 4,
        NvAFXStatus::InsufficientData => 5,
        NvAFXStatus::EffectNotAvailable => 6,
        NvAFXStatus::OutputBufferTooSmall => 7,
        NvAFXStatus::ModelLoadFailed => 8,
        NvAFXStatus::Status32ServerNotRegistered => 9,
        NvAFXStatus::Status32ComError => 10,
        NvAFXStatus::GpuUnsupported => 11,
        NvAFXStatus::CudaContextCreationFailed => 12,
    }
}

impl NvAFXStatus {
    /// The C value of this status.
    pub fn code(&self) -> (c: i32)
        ensures
            c == status_code(*self),
    {
        match self {
            NvAFXStatus::Success => 0,
            NvAFXStatus::Failed => 1,
            NvAFXStatus::InvalidHandle => 2,
            NvAFXStatus::InvalidParam => 3,
            NvAFXStatus::ImmutableParam => 4,
            NvAFXStatus::InsufficientData => 5,
            NvAFXStatus::EffectNotAvailable => 6,
            NvAFXStatus::OutputBufferTooSmall => 7,
            NvAFXStatus::ModelLoadFailed => 8,
            NvAFXStatus::Status32ServerNotRegistered => 9,
            NvAFXStatus::Status32ComError => 10,
            NvAFXStatus::GpuUnsupported => 11,
            NvAFXStatus::CudaContextCreationFailed => 12,
        }
    }

    /// The status whose C value is `code`; `None` for a value that the API
    /// does not define.
    pub fn from_code(code: i32) -> (s: Option<NvAFXStatus>)
        ensures
            match s {
                Some(st) => status_code(st) == code,
                None => code < 0 || code > 12,
            },
    {
        match code {
            0 => Some(NvAFXStatus::Success),
            1 => Some(NvAFXStatus::Failed),
            2 => Some(NvAFXStatus::InvalidHandle),
            3 => Some(NvAFXStatus::InvalidParam),
            4 => Some(NvAFXStatus::ImmutableParam),
            5 => Some(NvAFXStatus::InsufficientData),
            6 => Some(NvAFXStatus::EffectNotAvailable),
            7 => Some(NvAFXStatus::OutputBufferTooSmall),
            8 => Some(NvAFXStatus::ModelLoadFailed),
            9 => Some(NvAFXStatus::Status32ServerNotRegistered),
            10 => Some(NvAFXStatus::Status32ComError),
            11 => Some(NvAFXStatus::GpuUnsupported),
            12 => Some(NvAFXStatus::CudaContextCreationFailed),
            _ => None,
        }
    }

    /// The status that a raw C return value stands for; a value the API
    /// does not define is taken as a generic failure.
    pub fn from_raw(code: i32) -> (s: NvAFXStatus)
        ensures
            0 <= code <= 12 ==> status_code(s) == code,
            (code < 0 || code > 12) ==> s == NvAFXStatus::Failed,
    {
        match NvAFXStatus::from_code(code) {
            Some(s) => s,
            None => NvAFXStatus::Failed,
        }
    }

    /// Whether this status reports success.
    pub fn is_success(&self) -> (b: bool)
        ensures
            b == (*self == NvAFXStatus::Success),
    {
        match self {
            NvAFXStatus::Success => true,
            _ => false,
        }
    }
}

/// Every status has a C value in `0..=12`, and distinct statuses have
/// distinct values, so `from_code` gives back the status a value came from.
pub proof fn lemma_status_code_injective(s: NvAFXStatus, t: NvAFXStatus)
    ensures
        0 <= status_code(s) <= 12,
        status_code(s) == status_code(t) ==> s == t,
        status_code(s) == 0 <==> s == NvAFXStatus::Success,
{
}

/// Every value from 0 to 12 is the code of some status, so `from_code`
/// accepts exactly the values the API defines.
pub proof fn lemma_status_codes_cover(code: int)
    requires
        0 <= code <= 12,
    ensures
        exists|s: NvAFXStatus| status_code(s) == code,
{
    let all = seq![
        NvAFXStatus::Success,
        NvAFXStatus::Failed,
        NvAFXStatus::InvalidHandle,
        NvAFXStatus::InvalidParam,
        NvAFXStatus::ImmutableParam,
        NvAFXStatus::InsufficientData,
        NvAFXStatus::EffectNotAvailable,
        NvAFXStatus::OutputBufferTooSmall,
        NvAFXStatus::ModelLoadFailed,
        NvAFXStatus::Status32ServerNotRegistered,
        NvAFXStatus::Status32ComError,
        NvAFXStatus::GpuUnsupported,
        NvAFXStatus::CudaContextCreationFailed,
    ];
    assert(forall|i: int| 0 <= i <= 12 ==> status_code(#[trigger] all[i]) == i);
    assert(status_code(all[code]) == code);
}

// Effect selectors.
pub const NVAFX_EFFECT_DENOISER: &'static str = "denoiser\0";
pub const NVAFX_EFFECT_DEREVERB: &'static str = "dereverb\0";
pub const NVAFX_EFFECT_DEREVERB_DENOISER: &'static str = "dereverb_denoiser\0";

// Parameter selectors.
pub const NVAFX_PARAM_MODEL_PATH: &'static str = "model_path\0";
pub const NVAFX_PARAM_INPUT_SAMPLE_RATE: &'static str = "input_sample_rate\0";
pub const NVAFX_PARAM_OUTPUT_SAMPLE_RATE: &'static str = "output_sample_rate\0";
pub const NVAFX_PARAM_NUM_INPUT_SAMPLES_PER_FRAME: &'static str = "num_input_samples_per_frame\0";
pub const NVAFX_PARAM_NUM_OUTPUT_SAMPLES_PER_FRAME: &'static str = "num_output_samples_per_frame\0";
pub const NVAFX_PARAM_NUM_INPUT_CHANNELS: &'static str = "num_input_channels\0";
pub const NVAFX_PARAM_NUM_OUTPUT_CHANNELS: &'static str = "num_output_channels\0";
pub const NVAFX_PARAM_INTENSITY_RATIO: &'static str = "intensity_ratio\0";
pub const NVAFX_PARAM_ENABLE_VAD: &'static str = "enable_vad\0";
pub const NVAFX_PARAM_VAD_RESULT: &'static str = "vad_result\0";
pub const NVAFX_PARAM_DISABLE_CUDA_GRAPH: &'static str = "disable_cuda_graph\0";

} // verus!
