use nv_audio_fx_vst::loader::{
    api_symbols, dll_candidates, first_found, first_missing_symbol, ApiSymbol, DllLocation,
};

#[test]
fn dll_search_order_with_sdk_dir() {
    assert_eq!(
        dll_candidates(true),
        vec![
            DllLocation::SdkDir,
            DllLocation::SdkBinDir,
            DllLocation::AudioEffects,
            DllLocation::AudioEffectsBin,
            DllLocation::Broadcast,
            DllLocation::BroadcastBin,
        ]
    );
}

#[test]
fn dll_search_order_without_sdk_dir() {
    assert_eq!(
        dll_candidates(false),
        vec![
            DllLocation::AudioEffects,
            DllLocation::AudioEffectsBin,
            DllLocation::Broadcast,
            DllLocation::BroadcastBin,
        ]
    );
}

#[test]
fn first_found_picks_the_earliest() {
    assert_eq!(first_found(&[false, true, true]), Some(1));
    assert_eq!(first_found(&[true, false]), Some(0));
    assert_eq!(first_found(&[false, false]), None);
    assert_eq!(first_found(&[]), None);
}

#[test]
fn symbols_are_resolved_in_order() {
    let names: Vec<&str> = api_symbols().iter().map(|s| s.name()).collect();
    assert_eq!(
        names,
        vec![
            "NvAFX_CreateEffect\0",
            "NvAFX_DestroyEffect\0",
            "NvAFX_SetU32\0",
            "NvAFX_SetString\0",
            "NvAFX_SetFloat\0",
            "NvAFX_GetU32\0",
            "NvAFX_GetBoolList\0",
            "NvAFX_Load\0",
            "NvAFX_Run\0",
            "NvAFX_Reset\0",
        ]
    );
}

#[test]
fn only_get_bool_list_is_optional() {
    for s in api_symbols() {
        assert_eq!(s.is_required(), s != ApiSymbol::GetBoolList);
    }
}

#[test]
fn all_found_means_nothing_missing() {
    assert_eq!(first_missing_symbol(&[true; 10]), None);
}

#[test]
fn missing_optional_symbol_is_tolerated() {
    let mut found = [true; 10];
    found[6] = false;
    assert_eq!(first_missing_symbol(&found), None);
}

#[test]
fn first_missing_required_symbol_is_reported() {
    let mut found = [true; 10];
    found[6] = false;
    found[8] = false;
    found[9] = false;
    assert_eq!(first_missing_symbol(&found), Some(ApiSymbol::Run));
    found[1] = false;
    assert_eq!(first_missing_symbol(&found), Some(ApiSymbol::DestroyEffect));
}

#[test]
fn unanswered_symbols_count_as_missing() {
    assert_eq!(first_missing_symbol(&[true, true, true]), Some(ApiSymbol::SetString));
    assert_eq!(first_missing_symbol(&[]), Some(ApiSymbol::CreateEffect));
}
