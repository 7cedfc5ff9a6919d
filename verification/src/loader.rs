//! The decisions behind loading the Audio Effects SDK library: where the
//! library file is looked for, in which order, and which of its exported
//! functions must be present.
//!
//! Reading the environment, probing the file system and resolving symbols
//! are left to the caller, which hands the results back here.
use vstd::prelude::*;

verus! {

/// The index of the first `true` in `found`, if any: the candidate that a
/// search in list order settles on.
pub fn first_found(found: &[bool]) -> (r: Option<usize>)
    ensures
        match r {
            Some(i) => i < found@.len() && found@[i as int] && forall|j: int|
                0 <= j < i ==> !found@[j],
            None => forall|j: int| 0 <= j < found@.len() ==> !found@[j],
        },
{
    let mut i: usize = 0;
    while i < found.len()
        invariant
            i <= found@.len(),
            forall|j: int| 0 <= j < i ==> !found@[j],
        decreases found@.len() - i,
    {
        if found[i] {
            return Some(i);
        }
        i += 1;
    }
    None
}

/// The places where the SDK library file may be installed.
#[derive(Debug, Clone, Copy, PartialEq, Eq, Structural)]
pub enum DllLocation {
    /// `NVAudioEffects.dll` directly in the directory named by `NVAFX_SDK_DIR`.
    SdkDir,
    /// `bin\NVAudioEffects.dll` under the directory named by `NVAFX_SDK_DIR`.
    SdkBinDir,
    /// The default install directory of the Audio Effects SDK.
    AudioEffects,
    /// The `bin` directory of the Audio Effects SDK install.
    AudioEffectsBin,
    /// The install directory of NVIDIA Broadcast.
    Broadcast,
    /// The `bin` directory of the NVIDIA Broadcast install.
    BroadcastBin,
}

/// The order in which the library file is looked for: the two places under
/// `NVAFX_SDK_DIR` first when that variable is set, then the four standard
/// install locations.
pub open spec fn dll_search_order(sdk_dir_set: bool) -> Seq<DllLocation> {
    let standard = seq![
        DllLocation::AudioEffects,
        DllLocation::AudioEffectsBin,
        DllLocation::Broadcast,
        DllLocation::BroadcastBin,
    ];
    if sdk_dir_set {
        seq![DllLocation::SdkDir, DllLocation::SdkBinDir] + standard
    } else {
        standard
    }
}

/// The candidate locations of the library file, in search order.
pub fn dll_candidates(sdk_dir_set: bool) -> (v: Vec<DllLocation>)
    ensures
        v@ == dll_search_order(sdk_dir_set),
{
    let mut v: Vec<DllLocation> = Vec::new();
    if sdk_dir_set {
        v.push(DllLocation::SdkDir);
        v.push(DllLocation::SdkBinDir);
    }
    v.push(DllLocation::AudioEffects);
    v.push(DllLocation::AudioEffectsBin);
    v.push(DllLocation::Broadcast);
    v.push(DllLocation::BroadcastBin);
    assert(v@ =~= dll_search_order(sdk_dir_set));
    v
}

/// The functions that the SDK library exports, in the order they are
/// resolved.
#[derive(Debug, Clone, Copy, PartialEq, Eq, Structural)]
pub enum ApiSymbol {
    CreateEffect,
    DestroyEffect,
    SetU32,
    SetString,
    SetFloat,
    GetU32,
    GetBoolList,
    Load,
    Run,
    Reset,
}

/// The exported name of `s`, NUL-terminated as the symbol lookup expects.
pub open spec fn symbol_name(s: ApiSymbol) -> &'static str {
    match s {
        ApiSymbol::CreateEffect => "NvAFX_CreateEffect\0",
        ApiSymbol::DestroyEffect => "NvAFX_DestroyEffect\0",
        ApiSymbol::SetU32 => "NvAFX_SetU32\0",
        ApiSymbol::SetString => "NvAFX_SetString\0",
        ApiSymbol::SetFloat => "NvAFX_SetFloat\0",
        ApiSymbol::GetU32 => "NvAFX_GetU32\0",
        ApiSymbol::GetBoolList => "NvAFX_GetBoolList\0",
        ApiSymbol::Load => "NvAFX_Load\0",
        ApiSymbol::Run => "NvAFX_Run\0",
        ApiSymbol::Reset => "NvAFX_Reset\0",
    }
}

/// Whether the library is unusable without `s`: every function but
/// `NvAFX_GetBoolList`, which older SDK releases lack, is required.
pub open spec fn symbol_required(s: ApiSymbol) -> bool {
    s != ApiSymbol::GetBoolList
}

/// The order in which the exported functions are resolved.
pub open spec fn symbol_order() -> Seq<ApiSymbol> {
    seq![
        ApiSymbol::CreateEffect,
        ApiSymbol::DestroyEffect,
        ApiSymbol::SetU32,
        ApiSymbol::SetString,
        ApiSymbol::SetFloat,
        ApiSymbol::GetU32,
        ApiSymbol::GetBoolList,
        ApiSymbol::Load,
        ApiSymbol::Run,
        ApiSymbol::Reset,
    ]
}

/// Whether the `i`-th symbol of the resolution order was found, by the
/// answers in `found` (a symbol without an answer counts as not found).
pub open spec fn symbol_found(found: Seq<bool>, i: int) -> bool {
    i < found.len() && found[i]
}

impl ApiSymbol {
    /// The exported name of this function.
    pub fn name(&self) -> (n: &'static str)
        ensures
            n == symbol_name(*self),
    {
        match self {
            ApiSymbol::CreateEffect => "NvAFX_CreateEffect\0",
            ApiSymbol::DestroyEffect => "NvAFX_DestroyEffect\0",
            ApiSymbol::SetU32 => "NvAFX_SetU32\0",
            ApiSymbol::SetString => "NvAFX_SetString\0",
            ApiSymbol::SetFloat => "NvAFX_SetFloat\0",
            ApiSymbol::GetU32 => "NvAFX_GetU32\0",
            ApiSymbol::GetBoolList => "NvAFX_GetBoolList\0",
            ApiSymbol::Load => "NvAFX_Load\0",
            ApiSymbol::Run => "NvAFX_Run\0",
            ApiSymbol::Reset => "NvAFX_Reset\0",
        }
    }

    /// Whether the library cannot be used without this function.
    pub fn is_required(&self) -> (b: bool)
        ensures
            b == symbol_required(*self),
    {
        match self {
            ApiSymbol::GetBoolList => false,
            _ => true,
        }
    }
}

/// The exported functions in resolution order.
pub fn api_symbols() -> (v: Vec<ApiSymbol>)
    ensures
        v@ == symbol_order(),
{
    let v = vec![
        ApiSymbol::CreateEffect,
        ApiSymbol::DestroyEffect,
        ApiSymbol::SetU32,
        ApiSymbol::SetString,
        ApiSymbol::SetFloat,
        ApiSymbol::GetU32,
        ApiSymbol::GetBoolList,
        ApiSymbol::Load,
        ApiSymbol::Run,
        ApiSymbol::Reset,
    ];
    assert(v@ =~= symbol_order());
    v
}

/// The first required function, in resolution order, that was not found:
/// the one whose lookup error loading reports. `None` when every required
/// function was found. `found[i]` answers for the `i`-th function of
/// `api_symbols()`.
pub fn first_missing_symbol(found: &[bool]) -> (r: Option<ApiSymbol>)
    ensures
        match r {
            Some(s) => exists|i: int|
                0 <= i < symbol_order().len() && symbol_order()[i] == s && symbol_required(s)
                    && !symbol_found(found@, i) && forall|j: int|
                    0 <= j < i ==> !symbol_required(symbol_order()[j]) || symbol_found(found@, j),
            None => forall|j: int|
                0 <= j < symbol_order().len() ==> !symbol_required(symbol_order()[j])
                    || symbol_found(found@, j),
        },
{
    let symbols = api_symbols();
    let mut i: usize = 0;
    while i < symbols.len()
        invariant
            i <= symbols@.len(),
            symbols@ == symbol_order(),
            forall|j: int|
                0 <= j < i ==> !symbol_required(symbol_order()[j]) || symbol_found(found@, j),
        decreases symbols@.len() - i,
    {
        let s = symbols[i];
        let present = i < found.len() && found[i];
        if s.is_required() && !present {
            assert(symbol_order()[i as int] == s);
            return Some(s);
        }
        i += 1;
    }
    None
}

/// Whether `loc` lies under the directory named by `NVAFX_SDK_DIR`.
pub open spec fn under_sdk_dir(loc: DllLocation) -> bool {
    loc == DllLocation::SdkDir || loc == DllLocation::SdkBinDir
}

/// The library search: with `NVAFX_SDK_DIR` set, the SDK directory and then
/// its `bin` directory are tried before everything tried without it; the
/// standard search tries every install location once and none under the SDK
/// directory, each install's own directory before its `bin` directory and
/// the Audio Effects SDK before NVIDIA Broadcast.
pub proof fn lemma_dll_search_order()
    ensures
        dll_search_order(true) == seq![DllLocation::SdkDir, DllLocation::SdkBinDir]
            + dll_search_order(false),
        forall|loc: DllLocation| #[trigger]
            dll_search_order(true).contains(loc),
        forall|loc: DllLocation| #[trigger]
            dll_search_order(false).contains(loc) <==> !under_sdk_dir(loc),
        dll_search_order(true).no_duplicates(),
        dll_search_order(false).index_of(DllLocation::AudioEffects) < dll_search_order(
            false,
        ).index_of(DllLocation::AudioEffectsBin),
        dll_search_order(false).index_of(DllLocation::AudioEffectsBin) < dll_search_order(
            false,
        ).index_of(DllLocation::Broadcast),
        dll_search_order(false).index_of(DllLocation::Broadcast) < dll_search_order(
            false,
        ).index_of(DllLocation::BroadcastBin),
{
    let t = dll_search_order(true);
    let f = dll_search_order(false);
    assert(t =~= seq![DllLocation::SdkDir, DllLocation::SdkBinDir] + f);
    assert forall|loc: DllLocation| #[trigger] t.contains(loc) by {
        match loc {
            DllLocation::SdkDir => assert(t[0] == loc),
            DllLocation::SdkBinDir => assert(t[1] == loc),
            DllLocation::AudioEffects => assert(t[2] == loc),
            DllLocation::AudioEffectsBin => assert(t[3] == loc),
            DllLocation::Broadcast => assert(t[4] == loc),
            DllLocation::BroadcastBin => assert(t[5] == loc),
        }
    }
    assert forall|loc: DllLocation| #[trigger] f.contains(loc) <==> !under_sdk_dir(loc) by {
        match loc {
            DllLocation::AudioEffects => assert(f[0] == loc),
            DllLocation::AudioEffectsBin => assert(f[1] == loc),
            DllLocation::Broadcast => assert(f[2] == loc),
            DllLocation::BroadcastBin => assert(f[3] == loc),
            _ => {},
        }
    }
    f.index_of_first_ensures(DllLocation::AudioEffects);
    f.index_of_first_ensures(DllLocation::AudioEffectsBin);
    f.index_of_first_ensures(DllLocation::Broadcast);
    f.index_of_first_ensures(DllLocation::BroadcastBin);
}

/// The resolution order names every exported function exactly once, and
/// every function but `NvAFX_GetBoolList` is required.
pub proof fn lemma_symbol_table()
    ensures
        forall|s: ApiSymbol| #[trigger] symbol_order().contains(s),
        symbol_order().no_duplicates(),
        forall|s: ApiSymbol| #[trigger] symbol_required(s) <==> s != ApiSymbol::GetBoolList,
{
    let o = symbol_order();
    assert forall|s: ApiSymbol| #[trigger] o.contains(s) by {
        match s {
            ApiSymbol::CreateEffect => assert(o[0] == s),
            ApiSymbol::DestroyEffect => assert(o[1] == s),
            ApiSymbol::SetU32 => assert(o[2] == s),
            ApiSymbol::SetString => assert(o[3] == s),
            ApiSymbol::SetFloat => assert(o[4] == s),
            ApiSymbol::GetU32 => assert(o[5] == s),
            ApiSymbol::GetBoolList => assert(o[6] == s),
            ApiSymbol::Load => assert(o[7] == s),
            ApiSymbol::Run => assert(o[8] == s),
            ApiSymbol::Reset => assert(o[9] == s),
        }
    }
}

} // verus!
