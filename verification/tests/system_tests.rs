use anomaly_launcher::config::Renderer;
use anomaly_launcher::system::game_executable;
use anomaly_launcher::system::game_pids;
use anomaly_launcher::system::{addon_file, NON_ADDON_FILES};
use anomaly_launcher::localization::Localization;
use anomaly_launcher::system::startup_warning;
use anomaly_launcher::system::{affinity_mask, avx_supported, is_game_process_name, wide_path_list, SHADER_CACHE_DIR};

#[test]
fn affinity_masks_leave_out_first_two_cores() {
    assert_eq!(affinity_mask(2), 0);
    assert_eq!(affinity_mask(4), 0b1100);
    assert_eq!(affinity_mask(8), 0b1111_1100);
    assert_eq!(affinity_mask(16), 0xfffc);
    assert_eq!(affinity_mask(31), 0x7fff_fffc);
}

#[test]
fn avx_flag_is_bit_28() {
    assert!(avx_supported(1 << 28));
    assert!(avx_supported(0xffff_ffff));
    assert!(!avx_supported(0));
    assert!(!avx_supported(0xefff_ffff));
    assert!(!avx_supported(1 << 27));
}

#[test]
fn game_processes_by_name_prefix() {
    assert!(is_game_process_name("AnomalyDX11AVX.exe"));
    assert!(is_game_process_name("AnomalyDX8.exe"));
    assert!(is_game_process_name("AnomalyDX9.exe (deleted)"));
    assert!(!is_game_process_name("anomalydx11.exe"));
    assert!(!is_game_process_name("AnomalyLauncher.exe"));
    assert!(!is_game_process_name(""));
}

#[test]
fn wide_paths_end_in_two_zeros() {
    let w = wide_path_list(SHADER_CACHE_DIR);
    let mut expected: Vec<u16> = "appdata\\shaders_cache".encode_utf16().collect();
    expected.push(0);
    expected.push(0);
    assert_eq!(w, expected);
    assert_eq!(wide_path_list("a\u{1F600}"), vec![0x61, 0xd83d, 0xde00, 0, 0]);
    assert_eq!(wide_path_list(""), vec![0, 0]);
}

#[test]
fn game_pids_keep_order() {
    let procs = vec![
        (10, "explorer.exe".to_string()),
        (20, "AnomalyDX11AVX.exe".to_string()),
        (30, "AnomalyLauncher.exe".to_string()),
        (5, "AnomalyDX8.exe".to_string()),
    ];
    assert_eq!(game_pids(&procs), vec![20, 5]);
    assert!(game_pids(&Vec::new()).is_empty());
}

#[test]
fn addon_files_by_suffix() {
    for f in NON_ADDON_FILES {
        assert!(!addon_file(&format!("C:\\Games\\Anomaly\\gamedata\\configs\\{}", f)));
    }
    assert!(!addon_file("gamedata/configs/my_axr_options.ltx"));
    assert!(addon_file("gamedata/scripts/my_mod.script"));
    assert!(addon_file("gamedata/configs/axr_options.ltx.bak"));
}

#[test]
fn startup_warnings() {
    let l = Localization::new(None);
    assert_eq!(startup_warning(false, false, &l), "Installed addons can cause problems or crashes");
    assert_eq!(startup_warning(true, true, &l), "Installed addons can cause problems or crashes");
    assert_eq!(startup_warning(true, false, &l), "");
}

#[test]
fn game_executables() {
    assert_eq!(game_executable(Renderer::DX11, true), "bin\\AnomalyDX11AVX.exe");
    assert_eq!(game_executable(Renderer::DX11, false), "bin\\AnomalyDX11.exe");
    assert_eq!(game_executable(Renderer::DX10, true), "bin\\AnomalyDX10AVX.exe");
    assert_eq!(game_executable(Renderer::DX9, false), "bin\\AnomalyDX9.exe");
    assert_eq!(game_executable(Renderer::DX8, true), "bin\\AnomalyDX8AVX.exe");
    for r in [Renderer::DX8, Renderer::DX9, Renderer::DX10, Renderer::DX11] {
        for avx in [false, true] {
            let path = game_executable(r, avx);
            assert!(is_game_process_name(path.strip_prefix("bin\\").unwrap()));
        }
    }
}
