use anomaly_launcher::localization::{language_from_code, locale_language_code};
use anomaly_launcher::localization::{detect_language, Language, Localization};

#[test]
fn language_from_locale_prefix() {
    assert_eq!(detect_language(Some("ru-RU")), Language::Russian);
    assert_eq!(detect_language(Some("ru")), Language::Russian);
    assert_eq!(detect_language(Some("es_AR")), Language::Spanish);
    assert_eq!(detect_language(Some("en-US")), Language::English);
    assert_eq!(detect_language(Some("de-DE")), Language::English);
    assert_eq!(detect_language(Some("RU")), Language::English);
    assert_eq!(detect_language(Some("r")), Language::English);
    assert_eq!(detect_language(Some("")), Language::English);
    assert_eq!(detect_language(None), Language::English);
}

#[test]
fn russian_texts() {
    let l = Localization::new(Some("ru-RU"));
    assert_eq!(l.play_button, "Играть");
    assert_eq!(l.quit_button, "Выйти");
    assert_eq!(l.clear_shader_cache_button, "      Очистить\nкеш шейдеров");
    assert_eq!(l.warning2, "Папка gamedata не найдена");
}

#[test]
fn spanish_texts() {
    let l = Localization::new(Some("es-ES"));
    assert_eq!(l.play_button, "Jugar");
    assert_eq!(l.notsupportedavx, "AVX no soportado!");
    assert_eq!(l.customlaunch_hover, "Usar sólo si sabes lo que estás haciendo");
}

#[test]
fn english_texts_by_default() {
    let l = Localization::new(None);
    assert_eq!(l.play_button, "Play");
    assert_eq!(l.reset_user_ltx_button, "  Reset\nUser.ltx");
    assert_eq!(l.warning1, "Installed addons can cause problems or crashes");
    let f = Localization::new(Some("fr_FR"));
    assert_eq!(f.useavx, "Use AVX");
    let e = Localization::for_language(Language::English);
    assert_eq!(e.renderer, "Renderer");
}

#[test]
fn language_codes() {
    assert_eq!(locale_language_code(Some("ru-RU")), "ru");
    assert_eq!(locale_language_code(Some("e")), "e");
    assert_eq!(locale_language_code(Some("")), "");
    assert_eq!(locale_language_code(Some("日本語")), "日本");
    assert_eq!(locale_language_code(None), "en");
    assert_eq!(language_from_code("es"), Language::Spanish);
    assert_eq!(language_from_code("ru"), Language::Russian);
    assert_eq!(language_from_code("rus"), Language::English);
}
