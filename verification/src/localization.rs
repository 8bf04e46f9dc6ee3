//! The launcher's interface texts in the languages it speaks, chosen by
//! the system locale.
use vstd::prelude::*;
use crate::text::{chars_of, string_of};

verus! {

/// The interface texts.
pub struct Localization {
    pub play_button: String,
    pub clear_shader_cache_button: String,
    pub reset_user_ltx_button: String,
    pub verify_installation_button: String,
    pub quit_button: String,
    pub renderer: String,
    pub shadowmap: String,
    pub winmode: String,
    pub fullscr: String,
    pub wined: String,
    pub borlesswined: String,
    pub misclabel: String,
    pub debug_mode: String,
    pub pref_sounds: String,
    pub workaround: String,
    pub useavx: String,
    pub notsupportedavx: String,
    pub useaffinity: String,
    pub customlaunch: String,
    pub renderer_hover: String,
    pub shadowmap_hover: String,
    pub debug_mode_hover: String,
    pub pref_sounds_hover: String,
    pub workaround_hover: String,
    pub useavx_hover: String,
    pub useaffinity_hover: String,
    pub customlaunch_hover: String,
    pub warning1: String,
    pub warning2: String,
}

/// The interface texts, as character sequences.
pub struct LocalizationText {
    pub play_button: Seq<char>,
    pub clear_shader_cache_button: Seq<char>,
    pub reset_user_ltx_button: Seq<char>,
    pub verify_installation_button: Seq<char>,
    pub quit_button: Seq<char>,
    pub renderer: Seq<char>,
    pub shadowmap: Seq<char>,
    pub winmode: Seq<char>,
    pub fullscr: Seq<char>,
    pub wined: Seq<char>,
    pub borlesswined: Seq<char>,
    pub misclabel: Seq<char>,
    pub debug_mode: Seq<char>,
    pub pref_sounds: Seq<char>,
    pub workaround: Seq<char>,
    pub useavx: Seq<char>,
    pub notsupportedavx: Seq<char>,
    pub useaffinity: Seq<char>,
    pub customlaunch: Seq<char>,
    pub renderer_hover: Seq<char>,
    pub shadowmap_hover: Seq<char>,
    pub debug_mode_hover: Seq<char>,
    pub pref_sounds_hover: Seq<char>,
    pub workaround_hover: Seq<char>,
    pub useavx_hover: Seq<char>,
    pub useaffinity_hover: Seq<char>,
    pub customlaunch_hover: Seq<char>,
    pub warning1: Seq<char>,
    pub warning2: Seq<char>,
}

impl View for Localization {
    type V = LocalizationText;

    open spec fn view(&self) -> LocalizationText {
        LocalizationText {
            play_button: self.play_button@,
            clear_shader_cache_button: self.clear_shader_cache_button@,
            reset_user_ltx_button: self.reset_user_ltx_button@,
            verify_installation_button: self.verify_installation_button@,
            quit_button: self.quit_button@,
            renderer: self.renderer@,
            shadowmap: self.shadowmap@,
            winmode: self.winmode@,
            fullscr: self.fullscr@,
            wined: self.wined@,
            borlesswined: self.borlesswined@,
            misclabel: self.misclabel@,
            debug_mode: self.debug_mode@,
            pref_sounds: self.pref_sounds@,
            workaround: self.workaround@,
            useavx: self.useavx@,
            notsupportedavx: self.notsupportedavx@,
            useaffinity: self.useaffinity@,
            customlaunch: self.customlaunch@,
            renderer_hover: self.renderer_hover@,
            shadowmap_hover: self.shadowmap_hover@,
            debug_mode_hover: self.debug_mode_hover@,
            pref_sounds_hover: self.pref_sounds_hover@,
            workaround_hover: self.workaround_hover@,
            useavx_hover: self.useavx_hover@,
            useaffinity_hover: self.useaffinity_hover@,
            customlaunch_hover: self.customlaunch_hover@,
            warning1: self.warning1@,
            warning2: self.warning2@,
        }
    }
}

/// The languages of the interface.
#[derive(PartialEq, Eq, Structural, Debug, Clone, Copy)]
pub enum Language {
    Russian,
    Spanish,
    English,
}

/// The language code of a locale: its first two characters (all of it when
/// shorter), with `en` when the locale is unknown.
pub open spec fn language_code(locale: Option<Seq<char>>) -> Seq<char> {
    let l = match locale {
        Some(s) => s,
        None => "en"@,
    };
    if l.len() >= 2 {
        l.take(2)
    } else {
        l
    }
}

/// The interface language for a language code: Russian for `ru`, Spanish
/// for `es`, English otherwise.
pub open spec fn language_for_code(code: Seq<char>) -> Language {
    if code == "ru"@ {
        Language::Russian
    } else if code == "es"@ {
        Language::Spanish
    } else {
        Language::English
    }
}

/// The interface language for a locale.
pub open spec fn language_of(locale: Option<Seq<char>>) -> Language {
    language_for_code(language_code(locale))
}

/// The interface is in Russian exactly for a locale that starts with `ru`,
/// in Spanish exactly for one that starts with `es`, and in English for
/// every other locale and when the locale is unknown.
pub proof fn language_follows_locale_prefix(locale: Option<Seq<char>>)
    ensures
        (language_of(locale) == Language::Russian) == (locale is Some && "ru"@.is_prefix_of(
            locale->0,
        )),
        (language_of(locale) == Language::Spanish) == (locale is Some && "es"@.is_prefix_of(
            locale->0,
        )),
        locale is None ==> language_of(locale) == Language::English,
{
    reveal_strlit("ru");
    reveal_strlit("es");
    reveal_strlit("en");
    assert("ru"@ =~= seq!['r', 'u']);
    assert("es"@ =~= seq!['e', 's']);
    assert("en"@ =~= seq!['e', 'n']);
    match locale {
        Some(l) => {
            if l.len() >= 2 {
                assert("ru"@.is_prefix_of(l) == (l.take(2) =~= "ru"@));
                assert("es"@.is_prefix_of(l) == (l.take(2) =~= "es"@));
            } else {
                assert(l != "ru"@ && l != "es"@);
            }
        },
        None => {
            assert("en"@[0] != "ru"@[0] && "en"@[1] != "es"@[1]);
        },
    }
}

/// The language code of a locale (see `language_code`).
pub fn locale_language_code(locale: Option<&str>) -> (code: String)
    ensures
        code@ == language_code(
            match locale {
                Some(s) => Some(s@),
                None => None,
            },
        ),
{
    let l = match locale {
        Some(s) => chars_of(s),
        None => chars_of("en"),
    };
    let mut code: Vec<char> = Vec::new();
    let mut i: usize = 0;
    while i < 2 && i < l.len()
        invariant
            i <= 2,
            i <= l@.len(),
            code@ == l@.take(i as int),
        decreases 2 - i,
    {
        code.push(l[i]);
        i = i + 1;
        assert(code@ =~= l@.take(i as int));
    }
    assert(code@ =~= language_code(
        match locale {
            Some(s) => Some(s@),
            None => None,
        },
    ));
    string_of(code.as_slice())
}

/// Decides `language_for_code`.
pub fn language_from_code(code: &str) -> (lang: Language)
    ensures
        lang == language_for_code(code@),
{
    let c = chars_of(code);
    let ru = chars_of("ru");
    let es = chars_of("es");
    proof {
        reveal_strlit("ru");
        reveal_strlit("es");
    }
    if c.len() == 2 && c[0] == ru[0] && c[1] == ru[1] {
        assert(c@ =~= ru@);
        Language::Russian
    } else if c.len() == 2 && c[0] == es[0] && c[1] == es[1] {
        assert(c@ =~= es@);
        Language::Spanish
    } else {
        assert(c@ != ru@ && c@ != es@) by {
            if c@ == ru@ {
                assert(c@[0] == ru@[0] && c@[1] == ru@[1]);
            }
            if c@ == es@ {
                assert(c@[0] == es@[0] && c@[1] == es@[1]);
            }
        }
        Language::English
    }
}

/// Decides `language_of`.
pub fn detect_language(locale: Option<&str>) -> (lang: Language)
    ensures
        lang == language_of(
            match locale {
                Some(s) => Some(s@),
                None => None,
            },
        ),
{
    let code = locale_language_code(locale);
    language_from_code(code.as_str())
}

/// The interface texts of each language.
pub open spec fn texts_of(lang: Language) -> LocalizationText {
    match lang {
        Language::Russian => LocalizationText {
            play_button: "Играть"@,
            clear_shader_cache_button: "      Очистить\nкеш шейдеров"@,
            reset_user_ltx_button: "Сбросить\n    User.ltx"@,
            verify_installation_button: "Проверить\nустановку"@,
            quit_button: "Выйти"@,
            renderer: "Рендер движок"@,
            shadowmap: "Разрешение теней"@,
            winmode: "Режим окна"@,
            fullscr: "Полноэкранный режим"@,
            wined: "Оконный режим"@,
            borlesswined: "Безрамочный оконный режим"@,
            misclabel: "Дополнительные настройки"@,
            debug_mode: "Режим отладки"@,
            pref_sounds: "Предзагрузка звуков"@,
            workaround: "Обход ошибки для звука"@,
            useavx: "Использовать AVX"@,
            notsupportedavx: "AVX не поддерживается!"@,
            useaffinity: "Использовать привязку к ядрам"@,
            customlaunch: "Кастомные параметры запуска"@,
            renderer_hover: "Графический движок для Аномали\n Dx8 для слабых пк \n Dx11 для пк помощнее"@,
            shadowmap_hover: "Разрешение теней в игре\n Больше - красивее\n Меньше - лучше фпс"@,
            debug_mode_hover: "Дебаг режим игры, для спавна предметов/нпс и т.д. или просто если ты моддер :D"@,
            pref_sounds_hover: "Загружает звуки заранее, может помочь с микро-фризами"@,
            workaround_hover: "Может помочь с проблемами со звуком"@,
            useavx_hover: "На некоторых устройствах может немного улучшить производительность"@,
            useaffinity_hover: "Иногда может помочь с микро-фризами фпс, если упор в процессор"@,
            customlaunch_hover: "Используй только если знаешь, что делаешь"@,
            warning1: "Установленные аддоны могут вызвать проблемы или вылеты"@,
            warning2: "Папка gamedata не найдена"@,
        },
        Language::Spanish => LocalizationText {
            play_button: "Jugar"@,
            clear_shader_cache_button: "             Limpiar\nCaché de Shaders"@,
            reset_user_ltx_button: "Reiniciar\n User.ltx"@,
            verify_installation_button: "   Verificar\nInstalación"@,
            quit_button: "Salir"@,
            renderer: "Renderizador"@,
            shadowmap: "Tamaño del Mapa de Sombra"@,
            winmode: "Modo Ventana"@,
            fullscr: "Pantalla completa"@,
            wined: "Ventana"@,
            borlesswined: "Ventana sin bordes"@,
            misclabel: "Ajustes"@,
            debug_mode: "Modo Debug"@,
            pref_sounds: "Prefabricar Audio"@,
            workaround: "Arreglo para el problema de sonido"@,
            useavx: "Usar AVX"@,
            notsupportedavx: "AVX no soportado!"@,
            useaffinity: "Usar Afinidad de CPU"@,
            customlaunch: "Parámetros modificados de lanzamiento"@,
            renderer_hover: "Motor Gráfico de Anomaly\n Dx8 para PCs de gama baja\n Dx11 para PCs más potentes"@,
            shadowmap_hover: "Resolución de Sombra en el juego\n Alta - mejor detalle\n Baja - mejor FPS"@,
            debug_mode_hover: "Modo desarrollador, para generar objetos, NPCs, etc... o si eres modder :D"@,
            pref_sounds_hover: "Pre-cargar audio. Podría ayudar con trompicones"@,
            workaround_hover: "Podría ayudar si tienes problema con el audio"@,
            useavx_hover: "En algunos dispositivos, podria mejorar ligeramente el rendimiento"@,
            useaffinity_hover: "A veces puede ayudar con micro trompicones de FPS si la CPU es un cuello de botella"@,
            customlaunch_hover: "Usar sólo si sabes lo que estás haciendo"@,
            warning1: "Addons instalados pueden causar problemas o caídas al escritorio"@,
            warning2: "Carpeta Gamedata no encontrada"@,
        },
        Language::English => LocalizationText {
            play_button: "Play"@,
            clear_shader_cache_button: "        Clear\nShader Cache"@,
            reset_user_ltx_button: "  Reset\nUser.ltx"@,
            verify_installation_button: "      Verify\nInstallation"@,
            quit_button: "Quit"@,
            renderer: "Renderer"@,
            shadowmap: "Shadow Map Size"@,
            winmode: "Window Mode"@,
            fullscr: "Fullscreen"@,
            wined: "Windowed"@,
            borlesswined: "Borderless Windowed"@,
            misclabel: "Misc settings"@,
            debug_mode: "Debug Mode"@,
            pref_sounds: "Prefetch Sounds"@,
            workaround: "Workaround for the sound problem"@,
            useavx: "Use AVX"@,
            notsupportedavx: "AVX not supported!"@,
            useaffinity: "Use CPU Affinity"@,
            customlaunch: "Custom launch parameters"@,
            renderer_hover: "Graphics engine for Anomaly\n Dx8 for weaker PCs\n Dx11 for more powerful PCs"@,
            shadowmap_hover: "Shadow resolution in the game\n Higher - more beautiful\n Lower - better FPS"@,
            debug_mode_hover: "Debug mode for the game, for spawning items/NPCs, etc., or just if you're a modder :D"@,
            pref_sounds_hover: "Pre-loads sounds. Might help with stutters"@,
            workaround_hover: "Might help if you have problem with sounds"@,
            useavx_hover: "On some devices, it may slightly improve performance"@,
            useaffinity_hover: "Sometimes it can help with micro FPS stutters if the bottleneck is the CPU"@,
            customlaunch_hover: "Use only if you know what you are doing"@,
            warning1: "Installed addons can cause problems or crashes"@,
            warning2: "Gamedata folder not found"@,
        },
    }
}

impl Localization {
    /// The texts of a language.
    pub fn for_language(lang: Language) -> (l: Self)
        ensures
            l@ == texts_of(lang),
    {
        match lang {
            Language::Russian => Localization {
                play_button: String::from_str("Играть"),
                clear_shader_cache_button: String::from_str("      Очистить\nкеш шейдеров"),
                reset_user_ltx_button: String::from_str("Сбросить\n    User.ltx"),
                verify_installation_button: String::from_str("Проверить\nустановку"),
                quit_button: String::from_str("Выйти"),
                renderer: String::from_str("Рендер движок"),
                shadowmap: String::from_str("Разрешение теней"),
                winmode: String::from_str("Режим окна"),
                fullscr: String::from_str("Полноэкранный режим"),
                wined: String::from_str("Оконный режим"),
                borlesswined: String::from_str("Безрамочный оконный режим"),
                misclabel: String::from_str("Дополнительные настройки"),
                debug_mode: String::from_str("Режим отладки"),
                pref_sounds: String::from_str("Предзагрузка звуков"),
                workaround: String::from_str("Обход ошибки для звука"),
                useavx: String::from_str("Использовать AVX"),
                notsupportedavx: String::from_str("AVX не поддерживается!"),
                useaffinity: String::from_str("Использовать привязку к ядрам"),
                customlaunch: String::from_str("Кастомные параметры запуска"),
                renderer_hover: String::from_str("Графический движок для Аномали\n Dx8 для слабых пк \n Dx11 для пк помощнее"),
                shadowmap_hover: String::from_str("Разрешение теней в игре\n Больше - красивее\n Меньше - лучше фпс"),
                debug_mode_hover: String::from_str("Дебаг режим игры, для спавна предметов/нпс и т.д. или просто если ты моддер :D"),
                pref_sounds_hover: String::from_str("Загружает звуки заранее, может помочь с микро-фризами"),
                workaround_hover: String::from_str("Может помочь с проблемами со звуком"),
                useavx_hover: String::from_str("На некоторых устройствах может немного улучшить производительность"),
                useaffinity_hover: String::from_str("Иногда может помочь с микро-фризами фпс, если упор в процессор"),
                customlaunch_hover: String::from_str("Используй только если знаешь, что делаешь"),
                warning1: String::from_str("Установленные аддоны могут вызвать проблемы или вылеты"),
                warning2: String::from_str("Папка gamedata не найдена"),
            },
            Language::Spanish => Localization {
                play_button: String::from_str("Jugar"),
                clear_shader_cache_button: String::from_str("             Limpiar\nCaché de Shaders"),
                reset_user_ltx_button: String::from_str("Reiniciar\n User.ltx"),
                verify_installation_button: String::from_str("   Verificar\nInstalación"),
                quit_button: String::from_str("Salir"),
                renderer: String::from_str("Renderizador"),
                shadowmap: String::from_str("Tamaño del Mapa de Sombra"),
                winmode: String::from_str("Modo Ventana"),
                fullscr: String::from_str("Pantalla completa"),
                wined: String::from_str("Ventana"),
                borlesswined: String::from_str("Ventana sin bordes"),
                misclabel: String::from_str("Ajustes"),
                debug_mode: String::from_str("Modo Debug"),
                pref_sounds: String::from_str("Prefabricar Audio"),
                workaround: String::from_str("Arreglo para el problema de sonido"),
                useavx: String::from_str("Usar AVX"),
                notsupportedavx: String::from_str("AVX no soportado!"),
                useaffinity: String::from_str("Usar Afinidad de CPU"),
                customlaunch: String::from_str("Parámetros modificados de lanzamiento"),
                renderer_hover: String::from_str("Motor Gráfico de Anomaly\n Dx8 para PCs de gama baja\n Dx11 para PCs más potentes"),
                shadowmap_hover: String::from_str("Resolución de Sombra en el juego\n Alta - mejor detalle\n Baja - mejor FPS"),
                debug_mode_hover: String::from_str("Modo desarrollador, para generar objetos, NPCs, etc... o si eres modder :D"),
                pref_sounds_hover: String::from_str("Pre-cargar audio. Podría ayudar con trompicones"),
                workaround_hover: String::from_str("Podría ayudar si tienes problema con el audio"),
                useavx_hover: String::from_str("En algunos dispositivos, podria mejorar ligeramente el rendimiento"),
                useaffinity_hover: String::from_str("A veces puede ayudar con micro trompicones de FPS si la CPU es un cuello de botella"),
                customlaunch_hover: String::from_str("Usar sólo si sabes lo que estás haciendo"),
                warning1: String::from_str("Addons instalados pueden causar problemas o caídas al escritorio"),
                warning2: String::from_str("Carpeta Gamedata no encontrada"),
            },
            Language::English => Localization {
                play_button: String::from_str("Play"),
                clear_shader_cache_button: String::from_str("        Clear\nShader Cache"),
                reset_user_ltx_button: String::from_str("  Reset\nUser.ltx"),
                verify_installation_button: String::from_str("      Verify\nInstallation"),
                quit_button: String::from_str("Quit"),
                renderer: String::from_str("Renderer"),
                shadowmap: String::from_str("Shadow Map Size"),
                winmode: String::from_str("Window Mode"),
                fullscr: String::from_str("Fullscreen"),
                wined: String::from_str("Windowed"),
                borlesswined: String::from_str("Borderless Windowed"),
                misclabel: String::from_str("Misc settings"),
                debug_mode: String::from_str("Debug Mode"),
                pref_sounds: String::from_str("Prefetch Sounds"),
                workaround: String::from_str("Workaround for the sound problem"),
                useavx: String::from_str("Use AVX"),
                notsupportedavx: String::from_str("AVX not supported!"),
                useaffinity: String::from_str("Use CPU Affinity"),
                customlaunch: String::from_str("Custom launch parameters"),
                renderer_hover: String::from_str("Graphics engine for Anomaly\n Dx8 for weaker PCs\n Dx11 for more powerful PCs"),
                shadowmap_hover: String::from_str("Shadow resolution in the game\n Higher - more beautiful\n Lower - better FPS"),
                debug_mode_hover: String::from_str("Debug mode for the game, for spawning items/NPCs, etc., or just if you're a modder :D"),
                pref_sounds_hover: String::from_str("Pre-loads sounds. Might help with stutters"),
                workaround_hover: String::from_str("Might help if you have problem with sounds"),
                useavx_hover: String::from_str("On some devices, it may slightly improve performance"),
                useaffinity_hover: String::from_str("Sometimes it can help with micro FPS stutters if the bottleneck is the CPU"),
                customlaunch_hover: String::from_str("Use only if you know what you are doing"),
                warning1: String::from_str("Installed addons can cause problems or crashes"),
                warning2: String::from_str("Gamedata folder not found"),
            },
        }
    }

    /// The texts for the system locale (`None` when it is unknown).
    pub fn new(locale: Option<&str>) -> (l: Self)
        ensures
            l@ == texts_of(
                language_of(
                    match locale {
                        Some(s) => Some(s@),
                        None => None,
                    },
                ),
            ),
    {
        Self::for_language(detect_language(locale))
    }
}

} // verus!
