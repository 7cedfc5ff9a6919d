use nv_audio_fx_vst::plugin::{
    next_hold_counter, select_effect, select_frame_size, EffectMode, EffectSlot, InitStatus,
    LoadedEffects, PluginCore, DEFAULT_FRAME_SIZE, RING_CAPACITY, SPEECH_HOLD_BLOCKS,
};

fn all_loaded() -> LoadedEffects {
    LoadedEffects { denoise: Some(480), dereverb: Some(480), combo: Some(480) }
}

#[test]
fn each_mode_uses_its_own_effect() {
    let l = all_loaded();
    assert_eq!(select_effect(EffectMode::Denoise, &l), Some(EffectSlot::Denoise));
    assert_eq!(select_effect(EffectMode::Dereverb, &l), Some(EffectSlot::Dereverb));
    assert_eq!(select_effect(EffectMode::DereverbDenoise, &l), Some(EffectSlot::Combo));
}

#[test]
fn dereverb_modes_fall_back_to_denoiser() {
    let l = LoadedEffects { denoise: Some(480), dereverb: None, combo: None };
    assert_eq!(select_effect(EffectMode::Dereverb, &l), Some(EffectSlot::Denoise));
    assert_eq!(select_effect(EffectMode::DereverbDenoise, &l), Some(EffectSlot::Denoise));
}

#[test]
fn denoise_mode_has_no_fallback() {
    let l = LoadedEffects { denoise: None, dereverb: Some(480), combo: Some(480) };
    assert_eq!(select_effect(EffectMode::Denoise, &l), None);
    let none = LoadedEffects { denoise: None, dereverb: None, combo: None };
    assert_eq!(select_effect(EffectMode::Dereverb, &none), None);
}

#[test]
fn frame_size_comes_from_first_loaded_effect() {
    assert_eq!(select_frame_size(&LoadedEffects { denoise: Some(160), dereverb: Some(480), combo: Some(320) }), Some(160));
    assert_eq!(select_frame_size(&LoadedEffects { denoise: None, dereverb: Some(480), combo: Some(320) }), Some(480));
    assert_eq!(select_frame_size(&LoadedEffects { denoise: None, dereverb: None, combo: Some(320) }), Some(320));
    assert_eq!(select_frame_size(&LoadedEffects { denoise: None, dereverb: None, combo: None }), None);
}

#[test]
fn hold_counter_steps() {
    assert_eq!(next_hold_counter(0, true), SPEECH_HOLD_BLOCKS);
    assert_eq!(next_hold_counter(5, true), 18);
    assert_eq!(next_hold_counter(5, false), 4);
    assert_eq!(next_hold_counter(0, false), 0);
}

#[test]
fn voice_light_holds_for_seventeen_silent_blocks() {
    let mut core = PluginCore::new(0.0f32);
    assert!(core.finish_block(true));
    for _ in 0..17 {
        assert!(core.finish_block(false));
    }
    assert!(!core.finish_block(false));
    assert!(!core.finish_block(false));
}

#[test]
fn new_core_is_idle() {
    let core = PluginCore::new(0.0f32);
    assert!(!core.is_ready());
    assert_eq!(core.frame_size(), DEFAULT_FRAME_SIZE);
    assert!(!core.frame_ready());
}

#[test]
fn initialize_without_library() {
    let mut core = PluginCore::new(0.0f32);
    assert_eq!(core.initialize(None), InitStatus::LibraryUnavailable);
    assert!(!core.is_ready());
    assert_eq!(core.frame_size(), DEFAULT_FRAME_SIZE);
}

#[test]
fn initialize_without_effects() {
    let mut core = PluginCore::new(0.0f32);
    let none = LoadedEffects { denoise: None, dereverb: None, combo: None };
    assert_eq!(core.initialize(Some(none)), InitStatus::NoEffectLoaded);
    assert!(!core.is_ready());
}

#[test]
fn initialize_primes_one_frame_of_silence() {
    let mut core = PluginCore::new(0.0f32);
    let l = LoadedEffects { denoise: None, dereverb: Some(4), combo: None };
    assert_eq!(core.initialize(Some(l)), InitStatus::Ready);
    assert!(core.is_ready());
    assert_eq!(core.frame_size(), 4);
    for _ in 0..4 {
        assert_eq!(core.pop_output(), 0.0);
    }
    // The output queue has run dry: silence again.
    assert_eq!(core.pop_output(), 0.0);
}

#[test]
fn failed_reinitialize_keeps_frame_size() {
    let mut core = PluginCore::new(0.0f32);
    core.initialize(Some(LoadedEffects { denoise: Some(8), dereverb: None, combo: None }));
    assert_eq!(core.initialize(None), InitStatus::LibraryUnavailable);
    assert!(!core.is_ready());
    assert_eq!(core.frame_size(), 8);
}

#[test]
fn pass_through_delays_by_one_frame() {
    let frame = 3;
    let mut core = PluginCore::new(0.0f32);
    core.initialize(Some(LoadedEffects { denoise: Some(frame), dereverb: None, combo: None }));
    let input: Vec<f32> = (1..=10).map(|i| i as f32).collect();
    let mut output = Vec::new();
    let mut scratch = vec![0.0f32; frame];
    for block in input.chunks(4) {
        for &s in block {
            core.push_input(&[s]);
        }
        while core.frame_ready() {
            assert!(core.take_frame(&mut scratch));
            core.push_output(&scratch);
        }
        for _ in 0..block.len() {
            output.push(core.pop_output());
        }
    }
    assert_eq!(output, vec![0.0, 0.0, 0.0, 1.0, 2.0, 3.0, 4.0, 5.0, 6.0, 7.0]);
}

#[test]
fn reset_drops_queued_audio() {
    let mut core = PluginCore::new(0u32);
    core.initialize(Some(LoadedEffects { denoise: Some(2), dereverb: None, combo: None }));
    core.push_input(&[5, 6, 7]);
    core.push_output(&[9, 9]);
    core.reset();
    assert!(!core.frame_ready());
    assert_eq!(core.pop_output(), 0);
    assert_eq!(core.pop_output(), 0);
    assert_eq!(core.pop_output(), 0);
    let mut f = [1u32; 2];
    assert!(!core.take_frame(&mut f));
    assert_eq!(f, [1, 1]);
}

#[test]
fn take_frame_moves_oldest_samples() {
    let mut core = PluginCore::new(0u32);
    core.initialize(Some(LoadedEffects { denoise: Some(2), dereverb: None, combo: None }));
    core.push_input(&[1, 2, 3]);
    assert!(core.frame_ready());
    let mut f = [0u32; 2];
    assert!(core.take_frame(&mut f));
    assert_eq!(f, [1, 2]);
    assert!(!core.frame_ready());
}

#[test]
fn input_queue_drops_overflow() {
    let mut core = PluginCore::new(0u8);
    core.initialize(Some(LoadedEffects { denoise: Some(RING_CAPACITY), dereverb: None, combo: None }));
    let big = vec![1u8; RING_CAPACITY + 10];
    core.push_input(&big);
    let mut frame = vec![0u8; RING_CAPACITY];
    assert!(core.take_frame(&mut frame));
    assert!(!core.frame_ready());
    let mut one = [0u8; 1];
    assert!(!core.take_frame(&mut one));
}

#[test]
fn processed_frames_are_played_one_frame_late() {
    let frame = 4;
    let mut core = PluginCore::new(0i32);
    core.initialize(Some(LoadedEffects { denoise: Some(frame), dereverb: None, combo: None }));
    let input: Vec<i32> = (1..=20).collect();
    let mut produced: Vec<i32> = Vec::new();
    let mut played: Vec<i32> = Vec::new();
    let mut scratch_in = vec![0i32; frame];
    let mut frames_done = 0;
    for block in [&input[0..3], &input[3..10], &input[10..11], &input[11..20]] {
        for &s in block {
            core.push_input(&[s]);
        }
        while core.frame_ready() {
            assert!(core.take_frame(&mut scratch_in));
            // The "effect": scale and tag each frame with its index.
            let scratch_out: Vec<i32> = scratch_in.iter().map(|s| s * 10 + frames_done).collect();
            frames_done += 1;
            produced.extend_from_slice(&scratch_out);
            core.push_output(&scratch_out);
        }
        for _ in 0..block.len() {
            played.push(core.pop_output());
        }
    }
    let mut expected = vec![0i32; frame];
    expected.extend_from_slice(&produced);
    expected.truncate(played.len());
    assert_eq!(played, expected);
    assert_eq!(frames_done, 5);
}
