//! The launcher's settings: renderer, shadow map size, window mode and the
//! other options, their defaults, how they are shown, and the command line
//! that they give the game.
use vstd::prelude::*;
use crate::localization::Localization;
use crate::text::{chars_of, split_tokens, string_of, tokens, views, lemma_char_vec_deep_view};

verus! {

/// The game's rendering back end.
#[derive(PartialEq, Eq, Structural, Debug, Clone, Copy)]
pub enum Renderer {
    DX8,
    DX9,
    DX10,
    DX11,
}

/// The resolution of the game's shadow map.
#[derive(PartialEq, Eq, Structural, Debug, Clone, Copy)]
pub enum ShadowMapSize {
    Size1536,
    Size2048,
    Size2560,
    Size3072,
    Size4096,
}

/// How the game's window is shown; `Default` leaves the game's own
/// setting alone.
#[derive(PartialEq, Eq, Structural, Debug, Clone, Copy)]
pub enum WindowMode {
    Default,
    Fullscreen,
    Windowed,
    BorderlessWindowed,
}

/// All the launcher's settings.
#[derive(Debug, Clone)]
pub struct AppConfig {
    pub renderer: Renderer,
    pub use_avx: bool,
    pub shadow_map: ShadowMapSize,
    pub debug: bool,
    pub prefetch_sounds: bool,
    pub cpuaffinity: bool,
    pub sndfix: bool,
    pub window_mode: WindowMode,
    pub custom_args: bool,
    pub custom_args_text: String,
}

/// Why the settings could not be read or saved.
#[derive(PartialEq, Eq, Structural, Debug, Clone, Copy)]
pub enum AppConfigError {
    /// The settings file could not be read.
    ReadFailed,
    /// The settings file does not hold valid settings.
    BadStructure,
    /// The settings file could not be written.
    WriteFailed,
}

/// The settings file, in the game folder.
pub const CONFIG_FILE: &'static str = "launcherconfig.toml";

/// The title and text of the dialog that reports an error.
pub open spec fn error_dialog_text(e: AppConfigError) -> (Seq<char>, Seq<char>) {
    match e {
        AppConfigError::ReadFailed => (
            "Read Failed"@,
            "Failed to read the configuration file. Please remove 'launcherconfig.toml' and try to launch program again."@,
        ),
        AppConfigError::BadStructure => (
            "Bad configuration"@,
            "Your configuration seems to be damaged. Please remove 'launcherconfig.toml' and try to launch program again."@,
        ),
        AppConfigError::WriteFailed => (
            "Write Failed"@,
            "Failed to write data to configuration file. You might need to set your options again."@,
        ),
    }
}

impl AppConfigError {
    /// The title and text of the dialog that reports this error.
    pub fn dialog_text(&self) -> (t: (String, String))
        ensures
            (t.0@, t.1@) == error_dialog_text(*self),
    {
        match self {
            AppConfigError::ReadFailed => (
                String::from_str("Read Failed"),
                String::from_str(
                    "Failed to read the configuration file. Please remove 'launcherconfig.toml' and try to launch program again.",
                ),
            ),
            AppConfigError::BadStructure => (
                String::from_str("Bad configuration"),
                String::from_str(
                    "Your configuration seems to be damaged. Please remove 'launcherconfig.toml' and try to launch program again.",
                ),
            ),
            AppConfigError::WriteFailed => (
                String::from_str("Write Failed"),
                String::from_str(
                    "Failed to write data to configuration file. You might need to set your options again.",
                ),
            ),
        }
    }
}

impl AppConfig {
    /// The settings used when there is no settings file: DirectX 11, the
    /// smallest shadow map, CPU affinity on, everything else off, no
    /// custom arguments.
    pub open spec fn is_default(&self) -> bool {
        &&& self.renderer == Renderer::DX11
        &&& self.shadow_map == ShadowMapSize::Size1536
        &&& !self.debug
        &&& !self.use_avx
        &&& !self.prefetch_sounds
        &&& self.cpuaffinity
        &&& !self.sndfix
        &&& self.window_mode == WindowMode::Default
        &&& !self.custom_args
        &&& self.custom_args_text@ == Seq::<char>::empty()
    }
}

impl Default for AppConfig {
    fn default() -> (c: Self)
        ensures
            c.is_default(),
    {
        AppConfig {
            renderer: Renderer::DX11,
            shadow_map: ShadowMapSize::Size1536,
            debug: false,
            use_avx: false,
            prefetch_sounds: false,
            cpuaffinity: true,
            sndfix: false,
            window_mode: WindowMode::Default,
            custom_args: false,
            custom_args_text: String::new(),
        }
    }
}


/// The name under which a renderer is shown.
pub open spec fn renderer_label(r: Renderer) -> Seq<char> {
    match r {
        Renderer::DX8 => "DirectX 8"@,
        Renderer::DX9 => "DirectX 9"@,
        Renderer::DX10 => "DirectX 10"@,
        Renderer::DX11 => "DirectX 11"@,
    }
}

impl Renderer {
    /// The renderer's name as shown to the user.
    pub fn to_string(&self) -> (s: String)
        ensures
            s@ == renderer_label(*self),
    {
        match self {
            Renderer::DX8 => String::from_str("DirectX 8"),
            Renderer::DX9 => String::from_str("DirectX 9"),
            Renderer::DX10 => String::from_str("DirectX 10"),
            Renderer::DX11 => String::from_str("DirectX 11"),
        }
    }
}

/// The shadow map size as shown: its resolution in pixels.
pub open spec fn shadow_map_label(s: ShadowMapSize) -> Seq<char> {
    match s {
        ShadowMapSize::Size1536 => "1536"@,
        ShadowMapSize::Size2048 => "2048"@,
        ShadowMapSize::Size2560 => "2560"@,
        ShadowMapSize::Size3072 => "3072"@,
        ShadowMapSize::Size4096 => "4096"@,
    }
}

impl ShadowMapSize {
    /// The shadow map size as shown to the user.
    pub fn to_string(&self) -> (s: String)
        ensures
            s@ == shadow_map_label(*self),
    {
        match self {
            ShadowMapSize::Size1536 => String::from_str("1536"),
            ShadowMapSize::Size2048 => String::from_str("2048"),
            ShadowMapSize::Size2560 => String::from_str("2560"),
            ShadowMapSize::Size3072 => String::from_str("3072"),
            ShadowMapSize::Size4096 => String::from_str("4096"),
        }
    }
}

/// The name under which a window mode is shown, in the interface's
/// language; `Default` shows as a dash line.
pub open spec fn window_mode_label(m: WindowMode, loc: Localization) -> Seq<char> {
    match m {
        WindowMode::Default => "------"@,
        WindowMode::Fullscreen => loc.fullscr@,
        WindowMode::Windowed => loc.wined@,
        WindowMode::BorderlessWindowed => loc.borlesswined@,
    }
}

impl WindowMode {
    /// The window mode's name as shown to the user.
    pub fn to_string(&self, loc: &Localization) -> (s: String)
        ensures
            s@ == window_mode_label(*self, *loc),
    {
        match self {
            WindowMode::Default => String::from_str("------"),
            WindowMode::Fullscreen => loc.fullscr.clone(),
            WindowMode::Windowed => loc.wined.clone(),
            WindowMode::BorderlessWindowed => loc.borlesswined.clone(),
        }
    }
}

/// The game's command-line option for a shadow map size.
pub open spec fn shadow_map_arg(s: ShadowMapSize) -> Seq<char> {
    match s {
        ShadowMapSize::Size1536 => "-smap1536"@,
        ShadowMapSize::Size2048 => "-smap2048"@,
        ShadowMapSize::Size2560 => "-smap2560"@,
        ShadowMapSize::Size3072 => "-smap3072"@,
        ShadowMapSize::Size4096 => "-smap4096"@,
    }
}

/// The option for the shadow map size is `-smap` followed by the size as
/// shown to the user.
pub proof fn shadow_map_arg_names_size(s: ShadowMapSize)
    ensures
        shadow_map_arg(s) == "-smap"@ + shadow_map_label(s),
{
    reveal_strlit("-smap");
    match s {
        ShadowMapSize::Size1536 => {
            reveal_strlit("-smap1536");
            reveal_strlit("1536");
        },
        ShadowMapSize::Size2048 => {
            reveal_strlit("-smap2048");
            reveal_strlit("2048");
        },
        ShadowMapSize::Size2560 => {
            reveal_strlit("-smap2560");
            reveal_strlit("2560");
        },
        ShadowMapSize::Size3072 => {
            reveal_strlit("-smap3072");
            reveal_strlit("3072");
        },
        ShadowMapSize::Size4096 => {
            reveal_strlit("-smap4096");
            reveal_strlit("4096");
        },
    }
    assert(shadow_map_arg(s) =~= "-smap"@ + shadow_map_label(s));
}

/// The arguments the game is started with: the shadow map option, `-dbg`
/// in debug mode, the custom arguments split at whitespace when they are
/// switched on and not empty, and `-prefetch_sounds` when sounds are
/// prefetched.
pub open spec fn launch_arguments(c: AppConfig) -> Seq<Seq<char>> {
    seq![shadow_map_arg(c.shadow_map)] + (if c.debug {
        seq!["-dbg"@]
    } else {
        Seq::empty()
    }) + (if c.custom_args && c.custom_args_text@.len() > 0 {
        tokens(c.custom_args_text@)
    } else {
        Seq::empty()
    }) + (if c.prefetch_sounds {
        seq!["-prefetch_sounds"@]
    } else {
        Seq::empty()
    })
}

/// Where each setting stands among the game's arguments: the shadow map
/// option (`-smap` and the size) first, `-dbg` second in debug mode, then
/// the custom arguments, whitespace-separated, when they are switched on and
/// not empty, and `-prefetch_sounds` last whenever sounds are prefetched,
/// whatever the custom arguments are; nothing else is added.
pub proof fn launch_arguments_layout(c: AppConfig)
    ensures
        ({
            let a = launch_arguments(c);
            let d: int = if c.debug {
                1
            } else {
                0
            };
            let custom = if c.custom_args && c.custom_args_text@.len() > 0 {
                tokens(c.custom_args_text@)
            } else {
                Seq::empty()
            };
            let p: int = if c.prefetch_sounds {
                1
            } else {
                0
            };
            &&& a.len() == 1 + d + custom.len() + p
            &&& a[0] == "-smap"@ + shadow_map_label(c.shadow_map)
            &&& c.debug ==> a[1] == "-dbg"@
            &&& a.subrange(1 + d, 1 + d + custom.len()) == custom
            &&& c.prefetch_sounds ==> a[a.len() - 1] == "-prefetch_sounds"@
        }),
{
    shadow_map_arg_names_size(c.shadow_map);
    let a = launch_arguments(c);
    let head = seq![shadow_map_arg(c.shadow_map)];
    let dbg: Seq<Seq<char>> = if c.debug {
        seq!["-dbg"@]
    } else {
        Seq::empty()
    };
    let custom = if c.custom_args && c.custom_args_text@.len() > 0 {
        tokens(c.custom_args_text@)
    } else {
        Seq::empty()
    };
    let pre: Seq<Seq<char>> = if c.prefetch_sounds {
        seq!["-prefetch_sounds"@]
    } else {
        Seq::empty()
    };
    assert(a == head + dbg + custom + pre);
    assert(a.subrange(1 + dbg.len() as int, 1 + dbg.len() + custom.len() as int) =~= custom);
}

impl AppConfig {
    /// The arguments to start the game with (see `launch_arguments`).
    pub fn launch_args(&self) -> (args: Vec<String>)
        ensures
            views(args@) == launch_arguments(*self),
    {
        let mut args: Vec<String> = Vec::new();
        let smap = match self.shadow_map {
            ShadowMapSize::Size1536 => String::from_str("-smap1536"),
            ShadowMapSize::Size2048 => String::from_str("-smap2048"),
            ShadowMapSize::Size2560 => String::from_str("-smap2560"),
            ShadowMapSize::Size3072 => String::from_str("-smap3072"),
            ShadowMapSize::Size4096 => String::from_str("-smap4096"),
        };
        args.push(smap);
        let ghost a0 = views(args@);
        assert(a0 =~= seq![shadow_map_arg(self.shadow_map)]);
        if self.debug {
            args.push(String::from_str("-dbg"));
        }
        let ghost a1 = views(args@);
        assert(a1 =~= a0 + (if self.debug {
            seq!["-dbg"@]
        } else {
            Seq::empty()
        }));
        if self.custom_args && !self.custom_args_text.as_str().is_empty() {
            let text = chars_of(self.custom_args_text.as_str());
            let toks = split_tokens(text.as_slice());
            let n = toks.len();
            for i in 0..n
                invariant
                    n == toks@.len(),
                    toks.deep_view() == tokens(self.custom_args_text@),
                    views(args@) == a1 + toks.deep_view().take(i as int),
            {
                proof {
                    lemma_char_vec_deep_view(&toks@[i as int]);
                }
                let ghost before = views(args@);
                args.push(string_of(toks[i].as_slice()));
                assert(views(args@) =~= before.push(toks.deep_view()[i as int]));
                assert(toks.deep_view().take(i + 1) =~= toks.deep_view().take(i as int).push(
                    toks.deep_view()[i as int],
                ));
            }
            assert(toks.deep_view().take(n as int) =~= toks.deep_view());
        }
        let ghost a2 = views(args@);
        assert(a2 =~= a1 + (if self.custom_args && self.custom_args_text@.len() > 0 {
            tokens(self.custom_args_text@)
        } else {
            Seq::empty()
        }));
        if self.prefetch_sounds {
            args.push(String::from_str("-prefetch_sounds"));
        }
        assert(views(args@) =~= launch_arguments(*self));
        args
    }

    /// Turns AVX off when the processor lacks it; nothing else changes.
    pub fn restrict_to_cpu(&mut self, avx_supported: bool)
        ensures
            final(self).use_avx == (old(self).use_avx && avx_supported),
            final(self).renderer == old(self).renderer,
            final(self).shadow_map == old(self).shadow_map,
            final(self).debug == old(self).debug,
            final(self).prefetch_sounds == old(self).prefetch_sounds,
            final(self).cpuaffinity == old(self).cpuaffinity,
            final(self).sndfix == old(self).sndfix,
            final(self).window_mode == old(self).window_mode,
            final(self).custom_args == old(self).custom_args,
            final(self).custom_args_text@ == old(self).custom_args_text@,
    {
        if !avx_supported {
            self.use_avx = false;
        }
    }

    /// The outcome of loading the settings, given whether the settings file
    /// could be read and, when it could, the settings parsed from it:
    /// `ReadFailed` when it could not be read, `BadStructure` when it could
    /// not be parsed, the parsed settings otherwise.
    pub fn load_outcome(read_succeeded: bool, parsed: Option<AppConfig>) -> (r: Result<
        AppConfig,
        AppConfigError,
    >)
        ensures
            !read_succeeded ==> r == Err::<AppConfig, AppConfigError>(AppConfigError::ReadFailed),
            read_succeeded && parsed is None ==> r == Err::<AppConfig, AppConfigError>(
                AppConfigError::BadStructure,
            ),
            read_succeeded && parsed is Some ==> r == Ok::<AppConfig, AppConfigError>(
                parsed->0,
            ),
    {
        if !read_succeeded {
            Err(AppConfigError::ReadFailed)
        } else {
            match parsed {
                Some(c) => Ok(c),
                None => Err(AppConfigError::BadStructure),
            }
        }
    }

    /// The outcome of saving the settings: `WriteFailed` exactly when the
    /// file could not be written.
    pub fn write_outcome(write_succeeded: bool) -> (r: Result<(), AppConfigError>)
        ensures
            r == if write_succeeded {
                Ok::<(), AppConfigError>(())
            } else {
                Err(AppConfigError::WriteFailed)
            },
    {
        if write_succeeded {
            Ok(())
        } else {
            Err(AppConfigError::WriteFailed)
        }
    }
}

} // verus!
