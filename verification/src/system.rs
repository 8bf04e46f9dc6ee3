//! Decisions about the machine and the game's processes: which processes
//! are the game, which cores the game may use, whether the processor has
//! AVX, and the wide-string path handed to the shell's delete operation.
use vstd::prelude::*;
use crate::config::{Renderer, renderer_label};
use crate::localization::Localization;
use crate::text::{chars_of, has_prefix, has_suffix};

verus! {

/// The executables of the game, one per renderer, with and without AVX.
pub const GAME_EXECUTABLES: [&'static str; 8] = [
    "AnomalyDX11AVX.exe",
    "AnomalyDX11.exe",
    "AnomalyDX10AVX.exe",
    "AnomalyDX10.exe",
    "AnomalyDX9AVX.exe",
    "AnomalyDX9.exe",
    "AnomalyDX8AVX.exe",
    "AnomalyDX8.exe",
];

/// The file name of the game's executable for a renderer, with or without
/// AVX.
pub open spec fn game_executable_name(r: Renderer, use_avx: bool) -> Seq<char> {
    match (r, use_avx) {
        (Renderer::DX11, true) => "AnomalyDX11AVX.exe"@,
        (Renderer::DX11, false) => "AnomalyDX11.exe"@,
        (Renderer::DX10, true) => "AnomalyDX10AVX.exe"@,
        (Renderer::DX10, false) => "AnomalyDX10.exe"@,
        (Renderer::DX9, true) => "AnomalyDX9AVX.exe"@,
        (Renderer::DX9, false) => "AnomalyDX9.exe"@,
        (Renderer::DX8, true) => "AnomalyDX8AVX.exe"@,
        (Renderer::DX8, false) => "AnomalyDX8.exe"@,
    }
}

/// The path of the game's executable, relative to the game folder.
pub open spec fn game_executable_path(r: Renderer, use_avx: bool) -> Seq<char> {
    "bin\\"@ + game_executable_name(r, use_avx)
}

/// Builds `game_executable_path`.
pub fn game_executable(r: Renderer, use_avx: bool) -> (path: String)
    ensures
        path@ == game_executable_path(r, use_avx),
{
    let name: &'static str = match (r, use_avx) {
            (Renderer::DX11, true) => "bin\\AnomalyDX11AVX.exe",
            (Renderer::DX11, false) => "bin\\AnomalyDX11.exe",
            (Renderer::DX10, true) => "bin\\AnomalyDX10AVX.exe",
            (Renderer::DX10, false) => "bin\\AnomalyDX10.exe",
            (Renderer::DX9, true) => "bin\\AnomalyDX9AVX.exe",
            (Renderer::DX9, false) => "bin\\AnomalyDX9.exe",
            (Renderer::DX8, true) => "bin\\AnomalyDX8AVX.exe",
            (Renderer::DX8, false) => "bin\\AnomalyDX8.exe",
    };
    proof {
        reveal_strlit("bin\\");
        reveal_strlit("bin\\AnomalyDX11AVX.exe");
        reveal_strlit("bin\\AnomalyDX11.exe");
        reveal_strlit("bin\\AnomalyDX10AVX.exe");
        reveal_strlit("bin\\AnomalyDX10.exe");
        reveal_strlit("bin\\AnomalyDX9AVX.exe");
        reveal_strlit("bin\\AnomalyDX9.exe");
        reveal_strlit("bin\\AnomalyDX8AVX.exe");
        reveal_strlit("bin\\AnomalyDX8.exe");
        reveal_strlit("AnomalyDX11AVX.exe");
        reveal_strlit("AnomalyDX11.exe");
        reveal_strlit("AnomalyDX10AVX.exe");
        reveal_strlit("AnomalyDX10.exe");
        reveal_strlit("AnomalyDX9AVX.exe");
        reveal_strlit("AnomalyDX9.exe");
        reveal_strlit("AnomalyDX8AVX.exe");
        reveal_strlit("AnomalyDX8.exe");
    }
    assert(name@ =~= game_executable_path(r, use_avx));
    String::from_str(name)
}

/// The executable started is the one of the renderer chosen, as shown to
/// the user: `bin\AnomalyDX`, then the version in the renderer's label
/// (`10` for `DirectX 10`), `AVX` when AVX is used, and `.exe`.
pub proof fn game_executable_follows_renderer(r: Renderer, use_avx: bool)
    ensures
        game_executable_path(r, use_avx) == "bin\\AnomalyDX"@ + renderer_label(r).skip(8) + (if use_avx {
            "AVX"@
        } else {
            Seq::empty()
        }) + ".exe"@,
{
    reveal_strlit("bin\\");
    reveal_strlit("bin\\AnomalyDX");
    reveal_strlit("AVX");
    reveal_strlit(".exe");
    reveal_strlit("DirectX 8");
    reveal_strlit("DirectX 9");
    reveal_strlit("DirectX 10");
    reveal_strlit("DirectX 11");
    reveal_strlit("AnomalyDX11AVX.exe");
    reveal_strlit("AnomalyDX11.exe");
    reveal_strlit("AnomalyDX10AVX.exe");
    reveal_strlit("AnomalyDX10.exe");
    reveal_strlit("AnomalyDX9AVX.exe");
    reveal_strlit("AnomalyDX9.exe");
    reveal_strlit("AnomalyDX8AVX.exe");
    reveal_strlit("AnomalyDX8.exe");
    assert(game_executable_path(r, use_avx) =~= "bin\\AnomalyDX"@ + renderer_label(r).skip(8) + (
    if use_avx {
        "AVX"@
    } else {
        Seq::empty()
    }) + ".exe"@);
}

/// The position in `GAME_EXECUTABLES` of a renderer's executable.
pub open spec fn game_executable_index(r: Renderer, use_avx: bool) -> int {
    match (r, use_avx) {
        (Renderer::DX11, true) => 0,
        (Renderer::DX11, false) => 1,
        (Renderer::DX10, true) => 2,
        (Renderer::DX10, false) => 3,
        (Renderer::DX9, true) => 4,
        (Renderer::DX9, false) => 5,
        (Renderer::DX8, true) => 6,
        (Renderer::DX8, false) => 7,
    }
}

/// The executable the launcher starts is one whose process gets the CPU
/// affinity: its name is one of `GAME_EXECUTABLES`.
pub proof fn started_game_is_recognized(r: Renderer, use_avx: bool)
    ensures
        is_game_process(game_executable_name(r, use_avx)),
{
    let k = game_executable_index(r, use_avx);
    assert(GAME_EXECUTABLES@[k]@ == game_executable_name(r, use_avx));
    let n = game_executable_name(r, use_avx);
    assert(n =~= n.subrange(0, n.len() as int));
    assert(GAME_EXECUTABLES@[k]@.is_prefix_of(n));
}

/// Whether a process name starts with the name of one of the game's
/// executables.
pub open spec fn is_game_process(name: Seq<char>) -> bool {
    exists|i: int| 0 <= i < GAME_EXECUTABLES@.len() && (#[trigger] GAME_EXECUTABLES@[i])@.is_prefix_of(name)
}

/// Decides `is_game_process`.
pub fn is_game_process_name(name: &str) -> (b: bool)
    ensures
        b == is_game_process(name@),
{
    let chars = chars_of(name);
    let n = GAME_EXECUTABLES.len();
    for i in 0..n
        invariant
            n == GAME_EXECUTABLES@.len(),
            chars@ == name@,
            forall|j: int| 0 <= j < i ==> !(#[trigger] GAME_EXECUTABLES@[j])@.is_prefix_of(name@),
    {
        let exe = chars_of(GAME_EXECUTABLES[i]);
        if has_prefix(chars.as_slice(), exe.as_slice()) {
            return true;
        }
    }
    false
}

/// The process ids of the game's processes among `(pid, name)` pairs, in
/// the order given.
pub open spec fn game_pids_of(procs: Seq<(u32, Seq<char>)>) -> Seq<u32>
    decreases procs.len(),
{
    if procs.len() == 0 {
        Seq::empty()
    } else {
        let rest = game_pids_of(procs.drop_last());
        if is_game_process(procs.last().1) {
            rest.push(procs.last().0)
        } else {
            rest
        }
    }
}

/// The processes whose affinity to set: those of the game, in order.
pub fn game_pids(procs: &Vec<(u32, String)>) -> (pids: Vec<u32>)
    ensures
        pids@ == game_pids_of(procs@.map_values(|p: (u32, String)| (p.0, p.1@))),
{
    let ghost pv = procs@.map_values(|p: (u32, String)| (p.0, p.1@));
    let mut pids: Vec<u32> = Vec::new();
    let n = procs.len();
    for i in 0..n
        invariant
            n == procs@.len(),
            pv == procs@.map_values(|p: (u32, String)| (p.0, p.1@)),
            pids@ == game_pids_of(pv.take(i as int)),
    {
        assert(pv.take(i + 1).drop_last() =~= pv.take(i as int));
        let (pid, name) = (procs[i].0, &procs[i].1);
        if is_game_process_name(name.as_str()) {
            pids.push(pid);
        }
    }
    assert(pv.take(n as int) =~= pv);
    pids
}

/// Every process whose name starts with the name of one of
/// `GAME_EXECUTABLES`, wherever it stands in the list, has its id taken,
/// and every id taken is that of such a process.
pub proof fn game_pids_are_the_game_processes(procs: Seq<(u32, Seq<char>)>)
    ensures
        forall|k: int, i: int|
            #![trigger procs[k], GAME_EXECUTABLES@[i]]
            0 <= k < procs.len() && 0 <= i < GAME_EXECUTABLES@.len()
                && GAME_EXECUTABLES@[i]@.is_prefix_of(procs[k].1) ==> game_pids_of(procs).contains(
                procs[k].0,
            ),
        forall|j: int|
            #![trigger game_pids_of(procs)[j]]
            0 <= j < game_pids_of(procs).len() ==> exists|k: int|
                #![trigger procs[k]]
                0 <= k < procs.len() && procs[k].0 == game_pids_of(procs)[j] && exists|i: int|
                    #![trigger GAME_EXECUTABLES@[i]]
                    0 <= i < GAME_EXECUTABLES@.len() && GAME_EXECUTABLES@[i]@.is_prefix_of(
                        procs[k].1,
                    ),
    decreases procs.len(),
{
    if procs.len() > 0 {
        let rest = procs.drop_last();
        let before = game_pids_of(rest);
        let now = game_pids_of(procs);
        let last = procs.len() - 1;
        game_pids_are_the_game_processes(rest);
        assert forall|k: int| 0 <= k < rest.len() implies #[trigger] rest[k] == procs[k] by {}
        assert forall|j: int| 0 <= j < before.len() implies #[trigger] now[j] == before[j] by {}
        assert forall|k: int, i: int|
            #![trigger procs[k], GAME_EXECUTABLES@[i]]
            0 <= k < procs.len() && 0 <= i < GAME_EXECUTABLES@.len()
                && GAME_EXECUTABLES@[i]@.is_prefix_of(procs[k].1) implies now.contains(
                procs[k].0,
            ) by {
            if k < last {
                assert(rest[k] == procs[k]);
                assert(before.contains(rest[k].0));
                let j = choose|j: int| 0 <= j < before.len() && before[j] == rest[k].0;
                assert(now[j] == before[j]);
            } else {
                assert(is_game_process(procs.last().1));
                assert(now == before.push(procs.last().0));
                assert(now[before.len() as int] == procs[k].0);
            }
        }
        assert forall|j: int|
            #![trigger now[j]]
            0 <= j < now.len() implies exists|k: int|
            #![trigger procs[k]]
            0 <= k < procs.len() && procs[k].0 == now[j] && is_game_process(procs[k].1) by {
            if j < before.len() {
                assert(now[j] == before[j]);
                let k = choose|k: int|
                    #![trigger rest[k]]
                    0 <= k < rest.len() && rest[k].0 == before[j] && is_game_process(rest[k].1);
                assert(rest[k] == procs[k]);
            } else {
                assert(now == before.push(procs.last().0));
                assert(procs[last].0 == now[j] && is_game_process(procs[last].1));
            }
        }
    }
}

/// Whether core `i` is in an affinity mask.
pub open spec fn has_core(mask: u32, i: u32) -> bool {
    (mask >> i) & 1u32 == 1u32
}

/// The affinity mask for the game on a machine with `logical_cores`
/// logical cores: every core but the first two. The computation overflows
/// below two cores and from 32 on.
pub fn affinity_mask(logical_cores: usize) -> (mask: u32)
    requires
        2 <= logical_cores < 32,
    ensures
        mask == (1u32 << logical_cores as u32) - 4,
        forall|i: u32| i < 32 ==> (has_core(mask, i) <==> 2 <= i < logical_cores),
{
    let n = logical_cores as u32;
    assert(2 <= n < 32 ==> (1u32 << n) >= 4) by (bit_vector);
    let mask = (1u32 << n) - 4;
    assert(forall|i: u32|
        #![auto]
        i < 32 ==> ((mask >> i) & 1u32 == 1u32 <==> 2 <= i < n)) by (bit_vector)
        requires
            2 <= n < 32,
            mask == ((1u32 << n) - 4) as u32,
    ;
    mask
}

/// Whether bit 28 of ECX, the AVX flag of CPUID leaf 1, is set.
pub open spec fn avx_flag(ecx: u32) -> bool {
    (ecx >> 28u32) & 1u32 == 1u32
}

/// The AVX flag is the bit of value `0x1000_0000` of ECX and no other:
/// AVX is reported exactly when that bit is set.
pub proof fn avx_flag_is_bit_28(ecx: u32)
    ensures
        avx_flag(ecx) == (ecx & 0x1000_0000u32 != 0u32),
{
    assert(((ecx >> 28u32) & 1u32 == 1u32) == (ecx & 0x1000_0000u32 != 0u32)) by (bit_vector);
}

/// Reads the AVX flag from the ECX output of CPUID leaf 1.
pub fn avx_supported(ecx: u32) -> (b: bool)
    ensures
        b == avx_flag(ecx),
{
    assert((ecx & (1u32 << 28u32) != 0u32) == ((ecx >> 28u32) & 1u32 == 1u32)) by (bit_vector);
    (ecx & (1u32 << 28u32)) != 0
}

/// The game's shader cache folder, relative to the game folder.
pub const SHADER_CACHE_DIR: &'static str = "appdata\\shaders_cache";

/// The UTF-16 code units of a character.
pub open spec fn utf16_units(c: char) -> Seq<u16> {
    let u = c as u32;
    if u < 0x10000 {
        seq![u as u16]
    } else {
        let v = (u - 0x10000) as u32;
        seq![(0xd800 + (v >> 10u32)) as u16, (0xdc00 + (v & 0x3ffu32)) as u16]
    }
}

/// A character beyond the basic plane becomes a high surrogate
/// (`D800`..`DBFF`) and a low surrogate (`DC00`..`DFFF`) from which it is
/// read back; any other character is its own single code unit.
pub proof fn utf16_units_decode(c: char)
    ensures
        (c as u32) < 0x10000 ==> utf16_units(c).len() == 1 && utf16_units(c)[0] == c as u32,
        (c as u32) >= 0x10000 ==> ({
            &&& utf16_units(c).len() == 2
            &&& 0xd800 <= utf16_units(c)[0] < 0xdc00
            &&& 0xdc00 <= utf16_units(c)[1] < 0xe000
            &&& 0x10000 + (utf16_units(c)[0] - 0xd800) * 0x400 + (utf16_units(c)[1] - 0xdc00)
                == c as u32
        }),
{
    let u = c as u32;
    assert(u <= 0x10ffff);
    if u >= 0x10000 {
        let v = (u - 0x10000) as u32;
        let hi = (0xd800 + (v >> 10u32)) as u16;
        let lo = (0xdc00 + (v & 0x3ffu32)) as u16;
        assert(0xd800 <= hi < 0xdc00 && 0xdc00 <= lo < 0xe000 && 0x10000 + (hi - 0xd800) * 0x400 + (
        lo - 0xdc00) == u) by (bit_vector)
            requires
                0x10000 <= u <= 0x10ffff,
                v == u - 0x10000,
                hi == (0xd800 + (v >> 10u32)) as u16,
                lo == (0xdc00 + (v & 0x3ffu32)) as u16,
        ;
    }
}

/// The UTF-16 encoding of a string.
pub open spec fn utf16(s: Seq<char>) -> Seq<u16>
    decreases s.len(),
{
    if s.len() == 0 {
        Seq::empty()
    } else {
        utf16(s.drop_last()) + utf16_units(s.last())
    }
}

/// A path as the shell's file operations take it: UTF-16, ended by two
/// zero code units.
pub fn wide_path_list(path: &str) -> (wide: Vec<u16>)
    ensures
        wide@ == utf16(path@) + seq![0u16, 0u16],
{
    let chars = chars_of(path);
    let mut wide: Vec<u16> = Vec::new();
    let n = chars.len();
    for i in 0..n
        invariant
            n == chars@.len(),
            chars@ == path@,
            wide@ == utf16(chars@.take(i as int)),
    {
        let c = chars[i];
        let u = c as u32;
        assert(chars@.take(i + 1).drop_last() =~= chars@.take(i as int));
        if u < 0x10000 {
            wide.push(u as u16);
        } else {
            let v = u - 0x10000;
            assert((v >> 10u32) <= 0x3fffff) by (bit_vector);
            assert((v & 0x3ffu32) <= 0x3ff) by (bit_vector);
            wide.push((0xd800 + (v >> 10)) as u16);
            wide.push((0xdc00 + (v & 0x3ff)) as u16);
        }
        assert(wide@ =~= utf16(chars@.take(i + 1)));
    }
    assert(chars@.take(n as int) =~= chars@);
    wide.push(0);
    wide.push(0);
    assert(wide@ =~= utf16(path@) + seq![0u16, 0u16]);
    wide
}


/// Files under the game's data folder that the game itself creates and
/// that therefore do not count as installed addons.
pub const NON_ADDON_FILES: [&'static str; 6] = [
    "atmosfear_default_settings.ltx",
    "atmosfear_options.ltx",
    "axr_options.ltx",
    "cache_dbg.ltx",
    "localization.ltx",
    "warfare_options.ltx",
];

/// A file under the data folder counts as an addon unless its path ends
/// with one of `NON_ADDON_FILES`.
pub open spec fn is_addon_file(path: Seq<char>) -> bool {
    !exists|i: int| 0 <= i < NON_ADDON_FILES@.len() && (#[trigger] NON_ADDON_FILES@[i])@.is_suffix_of(path)
}

/// Decides `is_addon_file`.
pub fn addon_file(path: &str) -> (b: bool)
    ensures
        b == is_addon_file(path@),
{
    let chars = chars_of(path);
    let n = NON_ADDON_FILES.len();
    for i in 0..n
        invariant
            n == NON_ADDON_FILES@.len(),
            chars@ == path@,
            forall|j: int| 0 <= j < i ==> !(#[trigger] NON_ADDON_FILES@[j])@.is_suffix_of(path@),
    {
        let known = chars_of(NON_ADDON_FILES[i]);
        if has_suffix(chars.as_slice(), known.as_slice()) {
            return false;
        }
    }
    true
}

/// A file under the data folder is an addon exactly when its path ends
/// with none of `NON_ADDON_FILES`: whatever its folder or extension, any
/// other file counts.
pub proof fn addon_files_are_the_unknown_ones(path: Seq<char>)
    ensures
        is_addon_file(path) <==> forall|i: int|
            0 <= i < NON_ADDON_FILES@.len() ==> !(#[trigger] NON_ADDON_FILES@[i])@.is_suffix_of(
                path,
            ),
{
}

/// A file of `NON_ADDON_FILES`, in whatever folder, is never an addon.
pub proof fn known_files_are_not_addons(folder: Seq<char>, i: int)
    requires
        0 <= i < NON_ADDON_FILES@.len(),
    ensures
        !is_addon_file(folder + NON_ADDON_FILES@[i]@),
{
    let path = folder + NON_ADDON_FILES@[i]@;
    assert(NON_ADDON_FILES@[i]@ =~= path.subrange(
        (path.len() - NON_ADDON_FILES@[i]@.len()) as int,
        path.len() as int,
    ));
    assert(NON_ADDON_FILES@[i]@.is_suffix_of(path));
}

/// The warning shown at start-up: the addon warning when the data folder
/// is missing or holds an addon, nothing otherwise.
pub open spec fn startup_warning_text(
    data_folder_exists: bool,
    addon_found: bool,
    loc: Localization,
) -> Seq<char> {
    if !data_folder_exists || addon_found {
        loc.warning1@
    } else {
        Seq::empty()
    }
}

/// Builds `startup_warning_text`.
pub fn startup_warning(data_folder_exists: bool, addon_found: bool, loc: &Localization) -> (w:
    String)
    ensures
        w@ == startup_warning_text(data_folder_exists, addon_found, *loc),
{
    if !data_folder_exists || addon_found {
        loc.warning1.clone()
    } else {
        String::new()
    }
}

} // verus!
