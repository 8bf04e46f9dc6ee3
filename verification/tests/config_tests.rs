use anomaly_launcher::config::{AppConfig, AppConfigError, Renderer, ShadowMapSize, WindowMode};
use anomaly_launcher::localization::Localization;

#[test]
fn default_settings() {
    let c = AppConfig::default();
    assert_eq!(c.renderer, Renderer::DX11);
    assert_eq!(c.shadow_map, ShadowMapSize::Size1536);
    assert!(!c.debug);
    assert!(!c.use_avx);
    assert!(!c.prefetch_sounds);
    assert!(c.cpuaffinity);
    assert!(!c.sndfix);
    assert_eq!(c.window_mode, WindowMode::Default);
    assert!(!c.custom_args);
    assert_eq!(c.custom_args_text, "");
}

#[test]
fn renderer_labels() {
    assert_eq!(Renderer::DX8.to_string(), "DirectX 8");
    assert_eq!(Renderer::DX9.to_string(), "DirectX 9");
    assert_eq!(Renderer::DX10.to_string(), "DirectX 10");
    assert_eq!(Renderer::DX11.to_string(), "DirectX 11");
}

#[test]
fn shadow_map_labels() {
    assert_eq!(ShadowMapSize::Size1536.to_string(), "1536");
    assert_eq!(ShadowMapSize::Size2048.to_string(), "2048");
    assert_eq!(ShadowMapSize::Size2560.to_string(), "2560");
    assert_eq!(ShadowMapSize::Size3072.to_string(), "3072");
    assert_eq!(ShadowMapSize::Size4096.to_string(), "4096");
}

#[test]
fn window_mode_labels_follow_language() {
    let en = Localization::new(None);
    assert_eq!(WindowMode::Default.to_string(&en), "------");
    assert_eq!(WindowMode::Fullscreen.to_string(&en), "Fullscreen");
    assert_eq!(WindowMode::Windowed.to_string(&en), "Windowed");
    assert_eq!(WindowMode::BorderlessWindowed.to_string(&en), "Borderless Windowed");
    let ru = Localization::new(Some("ru_RU"));
    assert_eq!(WindowMode::Windowed.to_string(&ru), "Оконный режим");
}

#[test]
fn launch_args_for_default_settings() {
    assert_eq!(AppConfig::default().launch_args(), vec!["-smap1536"]);
}

#[test]
fn launch_args_with_everything_on() {
    let mut c = AppConfig::default();
    c.shadow_map = ShadowMapSize::Size2048;
    c.debug = true;
    c.prefetch_sounds = true;
    c.custom_args = true;
    c.custom_args_text = "  -nointro \t -noprefetch ".to_string();
    assert_eq!(c.launch_args(), vec!["-smap2048", "-dbg", "-nointro", "-noprefetch", "-prefetch_sounds"]);
}

#[test]
fn custom_args_only_when_switched_on() {
    let mut c = AppConfig::default();
    c.shadow_map = ShadowMapSize::Size4096;
    c.custom_args = false;
    c.custom_args_text = "-nointro".to_string();
    assert_eq!(c.launch_args(), vec!["-smap4096"]);
    c.custom_args = true;
    c.custom_args_text = "   ".to_string();
    assert_eq!(c.launch_args(), vec!["-smap4096"]);
}

#[test]
fn shadow_map_option_is_dash_smap_and_label() {
    for s in [
        ShadowMapSize::Size1536,
        ShadowMapSize::Size2048,
        ShadowMapSize::Size2560,
        ShadowMapSize::Size3072,
        ShadowMapSize::Size4096,
    ] {
        let mut c = AppConfig::default();
        c.shadow_map = s;
        assert_eq!(c.launch_args()[0], format!("-smap{}", s.to_string()));
    }
}

#[test]
fn avx_is_dropped_only_without_support() {
    let mut c = AppConfig::default();
    c.use_avx = true;
    c.restrict_to_cpu(true);
    assert!(c.use_avx);
    c.restrict_to_cpu(false);
    assert!(!c.use_avx);
    assert!(c.cpuaffinity);
}

#[test]
fn load_outcomes() {
    assert_eq!(AppConfig::load_outcome(false, None).unwrap_err(), AppConfigError::ReadFailed);
    assert_eq!(
        AppConfig::load_outcome(false, Some(AppConfig::default())).unwrap_err(),
        AppConfigError::ReadFailed
    );
    assert_eq!(AppConfig::load_outcome(true, None).unwrap_err(), AppConfigError::BadStructure);
    let mut c = AppConfig::default();
    c.renderer = Renderer::DX9;
    let loaded = AppConfig::load_outcome(true, Some(c)).ok().unwrap();
    assert_eq!(loaded.renderer, Renderer::DX9);
}

#[test]
fn write_outcomes() {
    assert!(AppConfig::write_outcome(true).is_ok());
    assert_eq!(AppConfig::write_outcome(false).unwrap_err(), AppConfigError::WriteFailed);
}

#[test]
fn error_dialogs() {
    let (t, d) = AppConfigError::ReadFailed.dialog_text();
    assert_eq!(t, "Read Failed");
    assert_eq!(d, "Failed to read the configuration file. Please remove 'launcherconfig.toml' and try to launch program again.");
    let (t, d) = AppConfigError::BadStructure.dialog_text();
    assert_eq!(t, "Bad configuration");
    assert_eq!(d, "Your configuration seems to be damaged. Please remove 'launcherconfig.toml' and try to launch program again.");
    let (t, d) = AppConfigError::WriteFailed.dialog_text();
    assert_eq!(t, "Write Failed");
    assert_eq!(d, "Failed to write data to configuration file. You might need to set your options again.");
    assert_eq!(anomaly_launcher::config::CONFIG_FILE, "launcherconfig.toml");
}
