//! The game's `user.ltx` settings file: its default contents and how the
//! window mode is written into it.
use vstd::prelude::*;
use crate::config::WindowMode;
use crate::text::{
    chars_of, has_prefix, join, join_chars, lemma_char_vec_deep_view, lines, lines_of_joined,
    is_plain_line, lines_of_text_without_cr_are_plain, plain_lines_round_trip, split_lines,
    string_of, strip_cr,
};

verus! {

/// The lines of a freshly reset `user.ltx`.
pub const DEFAULT_USER_LTX: [&'static str; 302] = [
    "_preset Default",
    "ai_aim_max_angle 0.7854",
    "ai_aim_min_angle 0.19635",
    "ai_aim_min_speed 0.24",
    "ai_aim_predict_time 0.4",
    "ai_aim_use_smooth_aim 1",
    "ai_die_in_anomaly 0",
    "ai_use_old_vision 0",
    "ai_use_torch_dynamic_lights on",
    "default_controls",
    "bind left kLEFT",
    "bind right kRIGHT",
    "bind up kUP",
    "bind down kDOWN",
    "bind jump kSPACE",
    "bind crouch kLCONTROL",
    "bind accel kLSHIFT",
    "bind sprint_toggle kX",
    "bind forward kW",
    "bind back kS",
    "bind lstrafe kA",
    "bind rstrafe kD",
    "bind llookout kQ",
    "bind rlookout kE",
    "bind cam_zoom_in kT",
    "bind cam_zoom_out kRBRACKET",
    "bind torch kL",
    "bind night_vision kN",
    "bind show_detector kO",
    "bind wpn_1 k1",
    "bind wpn_2 k2",
    "bind wpn_3 k3",
    "bind wpn_4 k4",
    "bind wpn_5 k5",
    "bind wpn_6 k6",
    "bind wpn_next kY",
    "bind wpn_fire mouse1",
    "bind wpn_zoom mouse2",
    "bind wpn_reload kR",
    "bind wpn_func kV",
    "bind wpn_firemode_prev k9",
    "bind wpn_firemode_next k0",
    "bind pause kPAUSE",
    "bind drop kG",
    "bind use kF",
    "bind scores kTAB",
    "bind screenshot kF12",
    "bind quit kESCAPE",
    "bind console kGRAVE",
    "bind inventory kI",
    "bind active_jobs kP",
    "bind quick_use_1 kF1",
    "bind quick_use_2 kF2",
    "bind quick_use_3 kF3",
    "bind quick_use_4 kF4",
    "bind quick_save kF5",
    "bind quick_load kF9",
    "bind custom1 kNUMPAD1",
    "bind custom2 kNUMPAD2",
    "bind custom3 kNUMPAD3",
    "bind custom4 kNUMPAD4",
    "bind custom5 kNUMPAD5",
    "bind custom6 kNUMPAD0",
    "bind custom13 k7",
    "bind custom14 k8",
    "bind custom15 kU",
    "bind custom17 kF7",
    "bind custom18 mouse3",
    "bind safemode kB",
    "cam_inert 0.",
    "cam_slide_inert 0.25",
    "cl_cod_pickup_mode on",
    "cl_dynamiccrosshair on",
    "con_sensitive 0.15",
    "discord_status on",
    "discord_update_rate 0.5",
    "fov 75.",
    "g_3d_pda on",
    "g_always_active off",
    "g_autopickup on",
    "g_backrun on",
    "g_crosshair_color (255, 255, 255, 255)",
    "g_crouch_toggle off",
    "g_dead_body_collision actor_only",
    "g_dispersion_base 1.",
    "g_dispersion_factor 1.",
    "g_dynamic_music off",
    "g_end_modif 0.",
    "g_feel_grenade off",
    "g_firepos off",
    "g_freelook_toggle off",
    "g_game_difficulty gd_stalker",
    "g_god off",
    "g_hit_pwr_modif 1.",
    "g_important_save on",
    "g_ironsights_zoom_factor 1.25",
    "g_lookout_toggle off",
    "g_multi_item_pickup on",
    "g_simple_pda on",
    "g_sleep_time 1",
    "g_sprint_toggle on",
    "g_unlimitedammo off",
    "g_use_tracers on",
    "g_walk_toggle off",
    "head_bob_factor 1.",
    "hud_crosshair on",
    "hud_crosshair_dist off",
    "hud_draw on",
    "hud_fov 0.45",
    "hud_info on",
    "hud_weapon on",
    "keypress_on_start on",
    "log_missing_ini off",
    "mouse_invert off",
    "mouse_sens 0.12",
    "mouse_sens_aim 1.",
    "ph_frequency 100.00000",
    "ph_gravity 19.62",
    "ph_iterations 18",
    "power_loss_bias 0.25",
    "power_loss_factor 0.5",
    "r1_detail_textures off",
    "r1_dlights on",
    "r1_dlights_clip 40.",
    "r1_fog_luminance 1.1",
    "r1_glows_per_frame 16",
    "r1_lmodel_lerp 0.1",
    "r1_pps_u 0.",
    "r1_pps_v 0.",
    "r1_software_skinning 0",
    "r1_ssa_lod_a 64.",
    "r1_ssa_lod_b 48.",
    "r2_aa off",
    "r2_aa_break (0.800000, 0.100000, 0.000000)",
    "r2_aa_kernel 0.5",
    "r2_aa_weight (0.250000, 0.250000, 0.000000)",
    "r2_allow_r1_lights off",
    "r2_detail_bump on",
    "r2_dof -1.000000,0.000000,800.000000",
    "r2_dof_enable off",
    "r2_dof_radius 0.25",
    "r2_dof_sky 30.",
    "r2_drops_control (0.000000, 1.150000, 0.000000)",
    "r2_exp_donttest_shad off",
    "r2_gi off",
    "r2_gi_clip 0.001",
    "r2_gi_depth 1",
    "r2_gi_photons 16",
    "r2_gi_refl 0.9",
    "r2_gloss_factor 2.5",
    "r2_gloss_min 0.5",
    "r2_ls_bloom_fast off",
    "r2_ls_bloom_kernel_b 0.1",
    "r2_ls_bloom_kernel_g 1.",
    "r2_ls_bloom_kernel_scale 0.05",
    "r2_ls_bloom_speed 100.",
    "r2_ls_bloom_threshold 0.",
    "r2_ls_depth_bias -0.001",
    "r2_ls_depth_scale 1.00001",
    "r2_ls_dsm_kernel 0.7",
    "r2_ls_psm_kernel 0.7",
    "r2_ls_squality 1.",
    "r2_ls_ssm_kernel 0.7",
    "r2_mask_control (0.000000, 0.000000, 0.000000, 0.000000)",
    "r2_mblur 0.",
    "r2_mblur_enabled off",
    "r2_parallax_h 0.02",
    "r2_qsync 0",
    "r2_shadow_cascede_old off",
    "r2_slight_fade 0.5",
    "r2_smaa high",
    "r2_soft_particles on",
    "r2_soft_water on",
    "r2_ss_sunshafts_length 1.",
    "r2_ss_sunshafts_radius 1.",
    "r2_ssa_lod_a 64.",
    "r2_ssa_lod_b 48.",
    "r2_ssao st_opt_high",
    "r2_ssao_blur off",
    "r2_ssao_half_data on",
    "r2_ssao_hbao off",
    "r2_ssao_hdao off",
    "r2_ssao_mode hdao",
    "r2_ssao_opt_data off",
    "r2_steep_parallax on",
    "r2_sun on",
    "r2_sun_depth_far_bias -0.00002",
    "r2_sun_depth_far_scale 1.",
    "r2_sun_depth_near_bias 0.00001",
    "r2_sun_depth_near_scale 1.",
    "r2_sun_details off",
    "r2_sun_far 100.",
    "r2_sun_focus on",
    "r2_sun_lumscale 2.",
    "r2_sun_lumscale_amb 1.",
    "r2_sun_lumscale_hemi 1.",
    "r2_sun_near 20.",
    "r2_sun_near_border 0.75",
    "r2_sun_quality st_opt_medium",
    "r2_sun_tsm on",
    "r2_sun_tsm_bias -0.01",
    "r2_sun_tsm_proj 0.3",
    "r2_sunshafts_min 0.",
    "r2_sunshafts_mode volumetric",
    "r2_sunshafts_quality st_opt_medium",
    "r2_sunshafts_value 0.75",
    "r2_terrain_z_prepass off",
    "r2_tnmp_a 0.15",
    "r2_tnmp_b 0.5",
    "r2_tnmp_c 0.1",
    "r2_tnmp_d 0.2",
    "r2_tnmp_e 0.2",
    "r2_tnmp_exposure 0.16033",
    "r2_tnmp_f 0.3",
    "r2_tnmp_gamma 0.76667",
    "r2_tnmp_onoff 0.",
    "r2_tnmp_w 1.12",
    "r2_tonemap on",
    "r2_tonemap_adaptation 10.",
    "r2_tonemap_amount 1.",
    "r2_tonemap_lowlum 0.5",
    "r2_tonemap_middlegray 1.5",
    "r2_volumetric_lights on",
    "r2_wait_sleep 0",
    "r2_water_reflections on",
    "r2_zfill off",
    "r2_zfill_depth 0.25",
    "r2em 0.",
    "r3_dynamic_wet_surfaces on",
    "r3_dynamic_wet_surfaces_far 100.",
    "r3_dynamic_wet_surfaces_near 70.",
    "r3_dynamic_wet_surfaces_sm_res 2048",
    "r3_minmax_sm off",
    "r3_msaa st_opt_off",
    "r3_msaa_alphatest st_opt_off",
    "r3_use_dx10_1 off",
    "r3_volumetric_smoke on",
    "r4_enable_tessellation on",
    "r4_wireframe off",
    "r__actor_shadow off",
    "r__bloom_thresh (0.700000, 0.800000, 0.900000, 0.000000)",
    "r__bloom_weight (0.330000, 0.330000, 0.330000, 0.000000)",
    "r__clear_models_on_unload off",
    "r__color_grading (0.000000, 0.000000, 0.000000)",
    "r__detail_density 0.6",
    "r__detail_height 1.",
    "r__detail_radius 49",
    "r__dtex_range 50.",
    "r__enable_grass_shadow off",
    "r__exposure 1.",
    "r__framelimit 0",
    "r__gamma 1.",
    "r__geometry_lod 0.75",
    "r__lens_flares on",
    "r__nightvision 0",
    "r__no_ram_textures on",
    "r__no_scale_on_fade off",
    "r__optimize_dynamic_geom 1",
    "r__optimize_shadow_geom on",
    "r__optimize_static_geom 1",
    "r__saturation 1.",
    "r__supersample 1",
    "r__tf_aniso 8",
    "r__tf_mipbias -0.5",
    "r__use_precompiled_shaders off",
    "r__wallmark_ttl 50.",
    "r_screenshot_mode jpg",
    "renderer renderer_r4",
    "rs_c_brightness 1.",
    "rs_c_contrast 1.",
    "rs_c_gamma 1.",
    "rs_cam_pos off",
    "rs_screenmode borderless",
    "rs_skeleton_update 32",
    "rs_stats off",
    "rs_v_sync on",
    "rs_vis_distance 1.",
    "shader_param_1 (0.000000, 0.000000, 0.000000, 0.000000)",
    "shader_param_2 (0.000000, 0.000000, 0.000000, 0.000000)",
    "shader_param_3 (0.000000, 0.000000, 0.000000, 0.000000)",
    "shader_param_4 (0.000000, 0.000000, 0.000000, 0.000000)",
    "shader_param_5 (0.000000, 0.000000, 0.000000, 0.000000)",
    "shader_param_6 (0.000000, 0.000000, 0.000000, 0.000000)",
    "shader_param_7 (0.000000, 0.000000, 0.000000, 0.000000)",
    "shader_param_8 (0.000000, 0.000000, 0.000000, 0.000000)",
    "slot_0 medkit",
    "slot_1 bandage",
    "slot_2 antirad",
    "slot_3 conserva",
    "snd_acceleration on",
    "snd_cache_size 256",
    "snd_device OpenAL Soft",
    "snd_efx off",
    "snd_targets 1024",
    "snd_volume_eff 1.",
    "snd_volume_music 1.",
    "texture_lod 1",
    "time_factor 1.000000",
    "vid_mode 1024x768",
    "weapon_sway off",
    "wpn_aim_toggle off",
    "wpn_degradation 1.",
];

/// The lines of the default `user.ltx`.
pub open spec fn default_lines() -> Seq<Seq<char>> {
    DEFAULT_USER_LTX@.map_values(|s: &str| s@)
}

/// The default lines, as character vectors.
fn default_line_chars() -> (ls: Vec<Vec<char>>)
    ensures
        ls.deep_view() == default_lines(),
{
    let mut ls: Vec<Vec<char>> = Vec::new();
    let n = DEFAULT_USER_LTX.len();
    for i in 0..n
        invariant
            n == DEFAULT_USER_LTX@.len(),
            ls.deep_view() == default_lines().take(i as int),
    {
        let l = chars_of(DEFAULT_USER_LTX[i]);
        proof {
            lemma_char_vec_deep_view(&l);
        }
        let ghost before = ls.deep_view();
        let ghost lv = l@;
        ls.push(l);
        assert(ls.deep_view() =~= before.push(lv));
        assert(default_lines().take(i + 1) =~= default_lines().take(i as int).push(lv));
    }
    assert(default_lines().take(n as int) =~= default_lines());
    ls
}

/// The contents of a freshly reset `user.ltx`: the default lines joined by
/// newlines.
pub open spec fn default_user_ltx() -> Seq<char> {
    join(default_lines(), "\n"@)
}

/// Builds `default_user_ltx`.
pub fn default_user_ltx_text() -> (text: String)
    ensures
        text@ == default_user_ltx(),
{
    let ls = default_line_chars();
    let sep = chars_of("\n");
    let joined = join_chars(&ls, sep.as_slice());
    string_of(joined.as_slice())
}

/// A line that sets the window mode: one starting with `rs_borderless`,
/// `rs_fullscreen` or `rs_screenmode`.
pub open spec fn is_window_mode_line(l: Seq<char>) -> bool {
    ||| "rs_borderless"@.is_prefix_of(l)
    ||| "rs_fullscreen"@.is_prefix_of(l)
    ||| "rs_screenmode"@.is_prefix_of(l)
}

/// Whether a line survives the update: it does not set the window mode.
pub open spec fn keeps_line(l: Seq<char>) -> bool {
    !is_window_mode_line(l)
}

/// The lines without those that set the window mode, in order.
pub open spec fn without_window_mode(ls: Seq<Seq<char>>) -> Seq<Seq<char>> {
    ls.filter(|l: Seq<char>| keeps_line(l))
}

/// The lines that set a window mode; none for `Default`.
#[verifier::opaque]
pub open spec fn window_mode_lines(m: WindowMode) -> Seq<Seq<char>> {
    match m {
        WindowMode::Fullscreen => seq![
            "rs_borderless 0"@,
            "rs_fullscreen on"@,
            "rs_screenmode fullscreen"@,
        ],
        WindowMode::Windowed => seq![
            "rs_borderless 0"@,
            "rs_fullscreen off"@,
            "rs_screenmode windowed"@,
        ],
        WindowMode::BorderlessWindowed => seq![
            "rs_borderless 1"@,
            "rs_fullscreen off"@,
            "rs_screenmode borderless"@,
        ],
        WindowMode::Default => Seq::empty(),
    }
}

/// The lines after the update: the old window-mode lines removed, the
/// chosen mode's lines added at the end.
pub open spec fn with_window_mode(ls: Seq<Seq<char>>, m: WindowMode) -> Seq<Seq<char>> {
    without_window_mode(ls) + window_mode_lines(m)
}

/// The lines the update starts from: those of the existing file, or the
/// default lines when there is none.
pub open spec fn current_lines(existing: Option<Seq<char>>) -> Seq<Seq<char>> {
    match existing {
        Some(text) => lines(text),
        None => default_lines(),
    }
}

/// The new contents of `user.ltx` for window mode `m`, given the current
/// contents (`None` when the file does not exist).
pub open spec fn updated_user_ltx(existing: Option<Seq<char>>, m: WindowMode) -> Seq<char> {
    join(with_window_mode(current_lines(existing), m), "\n"@)
}

/// Whether a line sets the window mode.
pub fn window_mode_line(l: &[char]) -> (b: bool)
    ensures
        b == is_window_mode_line(l@),
{
    let a = chars_of("rs_borderless");
    let b = chars_of("rs_fullscreen");
    let c = chars_of("rs_screenmode");
    has_prefix(l, a.as_slice()) || has_prefix(l, b.as_slice()) || has_prefix(l, c.as_slice())
}

/// Removes the lines that set the window mode, keeping the others in order.
fn drop_window_mode_lines(ls: Vec<Vec<char>>) -> (kept: Vec<Vec<char>>)
    ensures
        kept.deep_view() == without_window_mode(ls.deep_view()),
{
    let ghost dv = ls.deep_view();
    let mut kept: Vec<Vec<char>> = Vec::new();
    let n = ls.len();
    for i in 0..n
        invariant
            n == ls@.len(),
            dv == ls.deep_view(),
            kept.deep_view() == without_window_mode(dv.take(i as int)),
    {
        let l = ls[i].clone();
        proof {
            lemma_char_vec_deep_view(&l);
            lemma_char_vec_deep_view(&ls@[i as int]);
            reveal(Seq::filter);
            assert(dv.take(i + 1).drop_last() =~= dv.take(i as int));
        }
        if !window_mode_line(l.as_slice()) {
            let ghost before = kept.deep_view();
            let ghost lv = l@;
            kept.push(l);
            assert(kept.deep_view() =~= before.push(lv));
        }
    }
    assert(dv.take(n as int) =~= dv);
    kept
}

/// The lines that set window mode `m`.
fn mode_line_chars(m: WindowMode) -> (ls: Vec<Vec<char>>)
    ensures
        ls.deep_view() == window_mode_lines(m),
{
    let texts: Vec<&'static str> = match m {
        WindowMode::Fullscreen => vec!["rs_borderless 0", "rs_fullscreen on", "rs_screenmode fullscreen"],
        WindowMode::Windowed => vec!["rs_borderless 0", "rs_fullscreen off", "rs_screenmode windowed"],
        WindowMode::BorderlessWindowed => vec!["rs_borderless 1", "rs_fullscreen off", "rs_screenmode borderless"],
        WindowMode::Default => Vec::new(),
    };
    let ghost want = texts@.map_values(|s: &str| s@);
    assert(want =~= window_mode_lines(m)) by {
        reveal(window_mode_lines);
    }
    let mut ls: Vec<Vec<char>> = Vec::new();
    let n = texts.len();
    for i in 0..n
        invariant
            n == texts@.len(),
            want == texts@.map_values(|s: &str| s@),
            ls.deep_view() == want.take(i as int),
    {
        let l = chars_of(texts[i]);
        proof {
            lemma_char_vec_deep_view(&l);
        }
        let ghost before = ls.deep_view();
        let ghost lv = l@;
        ls.push(l);
        assert(ls.deep_view() =~= before.push(lv));
        assert(want.take(i + 1) =~= want.take(i as int).push(lv));
    }
    assert(want.take(n as int) =~= want);
    ls
}

/// The new contents of `user.ltx` (see `updated_user_ltx`).
pub fn update_user_ltx_text(existing: Option<&str>, mode: WindowMode) -> (text: String)
    ensures
        text@ == updated_user_ltx(
            match existing {
                Some(t) => Some(t@),
                None => None,
            },
            mode,
        ),
{
    let ls = match existing {
        Some(t) => {
            let cs = chars_of(t);
            split_lines(cs.as_slice())
        },
        None => default_line_chars(),
    };
    let mut kept = drop_window_mode_lines(ls);
    let extra = mode_line_chars(mode);
    let ghost k0 = kept.deep_view();
    let ghost e0 = extra.deep_view();
    let mut extra = extra;
    kept.append(&mut extra);
    assert(kept.deep_view() =~= k0 + e0);
    let sep = chars_of("\n");
    let joined = join_chars(&kept, sep.as_slice());
    string_of(joined.as_slice())
}


/// Filtering lines that all survive keeps them all.
proof fn lemma_filter_keeps_kept(ls: Seq<Seq<char>>)
    requires
        forall|i: int| 0 <= i < ls.len() ==> keeps_line(#[trigger] ls[i]),
    ensures
        without_window_mode(ls) == ls,
    decreases ls.len(),
{
    reveal(Seq::filter);
    if ls.len() > 0 {
        lemma_filter_keeps_kept(ls.drop_last());
        assert(ls.drop_last().push(ls.last()) =~= ls);
    }
}

/// Filtering lines none of which survive leaves nothing.
proof fn lemma_filter_drops_all(ls: Seq<Seq<char>>)
    requires
        forall|i: int| 0 <= i < ls.len() ==> !keeps_line(#[trigger] ls[i]),
    ensures
        without_window_mode(ls) == Seq::<Seq<char>>::empty(),
    decreases ls.len(),
{
    reveal(Seq::filter);
    if ls.len() > 0 {
        lemma_filter_drops_all(ls.drop_last());
    }
}

/// Removing the window-mode lines twice is removing them once.
proof fn lemma_without_idempotent(ls: Seq<Seq<char>>)
    ensures
        without_window_mode(without_window_mode(ls)) == without_window_mode(ls),
{
    broadcast use vstd::seq_lib::group_filter_ensures;

    let w = without_window_mode(ls);
    assert forall|i: int| 0 <= i < w.len() implies keeps_line(#[trigger] w[i]) by {
        ls.lemma_filter_pred(|l: Seq<char>| keeps_line(l), i);
    }
    lemma_filter_keeps_kept(w);
}

/// Each line that a window mode writes sets the window mode.
proof fn lemma_mode_lines_are_window_mode_lines(m: WindowMode)
    ensures
        forall|i: int|
            0 <= i < window_mode_lines(m).len() ==> is_window_mode_line(
                #[trigger] window_mode_lines(m)[i],
            ),
{
    reveal(window_mode_lines);
    reveal_strlit("rs_borderless");
    reveal_strlit("rs_fullscreen");
    reveal_strlit("rs_screenmode");
    reveal_strlit("rs_borderless 0");
    reveal_strlit("rs_borderless 1");
    reveal_strlit("rs_fullscreen on");
    reveal_strlit("rs_fullscreen off");
    reveal_strlit("rs_screenmode fullscreen");
    reveal_strlit("rs_screenmode windowed");
    reveal_strlit("rs_screenmode borderless");
    let ml = window_mode_lines(m);
    assert forall|i: int| 0 <= i < ml.len() implies is_window_mode_line(#[trigger] ml[i]) by {
        match m {
            WindowMode::Fullscreen => {
                assert("rs_borderless"@ =~= "rs_borderless 0"@.subrange(0, 13));
                assert("rs_fullscreen"@ =~= "rs_fullscreen on"@.subrange(0, 13));
                assert("rs_screenmode"@ =~= "rs_screenmode fullscreen"@.subrange(0, 13));
            },
            WindowMode::Windowed => {
                assert("rs_borderless"@ =~= "rs_borderless 0"@.subrange(0, 13));
                assert("rs_fullscreen"@ =~= "rs_fullscreen off"@.subrange(0, 13));
                assert("rs_screenmode"@ =~= "rs_screenmode windowed"@.subrange(0, 13));
            },
            WindowMode::BorderlessWindowed => {
                assert("rs_borderless"@ =~= "rs_borderless 1"@.subrange(0, 13));
                assert("rs_fullscreen"@ =~= "rs_fullscreen off"@.subrange(0, 13));
                assert("rs_screenmode"@ =~= "rs_screenmode borderless"@.subrange(0, 13));
            },
            WindowMode::Default => {},
        }
    }
}

/// Writing a window mode replaces whatever mode was written before: the
/// lines after writing `first` and then `second` are those after writing
/// `second` alone. With `first == second`, writing a mode twice is writing
/// it once.
pub proof fn window_mode_last_write_wins(ls: Seq<Seq<char>>, first: WindowMode, second: WindowMode)
    ensures
        with_window_mode(with_window_mode(ls, first), second) == with_window_mode(ls, second),
{
    broadcast use vstd::seq_lib::group_filter_ensures;

    let w = without_window_mode(ls);
    let ml = window_mode_lines(first);
    Seq::filter_distributes_over_add(w, ml, |l: Seq<char>| keeps_line(l));
    lemma_without_idempotent(ls);
    lemma_mode_lines_are_window_mode_lines(first);
    lemma_filter_drops_all(ml);
    assert(without_window_mode(w + ml) =~= w);
}

/// After writing a window mode, the lines that do not set the window mode
/// are those from before, in order.
pub proof fn window_mode_lines_after_write(ls: Seq<Seq<char>>, m: WindowMode)
    ensures
        without_window_mode(with_window_mode(ls, m)) == without_window_mode(ls),
{
    let e = window_mode_lines(WindowMode::Default);
    assert(e =~= Seq::<Seq<char>>::empty()) by {
        reveal(window_mode_lines);
    }
    let r = with_window_mode(ls, m);
    let w = without_window_mode(ls);
    window_mode_last_write_wins(ls, m, WindowMode::Default);
    assert(with_window_mode(r, WindowMode::Default) == without_window_mode(r) + e);
    assert(with_window_mode(ls, WindowMode::Default) == w + e);
    assert(without_window_mode(r) + e == without_window_mode(r));
    assert(w + e == w);
}


/// Writing a window mode into plain lines gives plain lines; for a mode
/// other than `Default` the last of them is not empty.
proof fn lemma_with_window_mode_plain(ls: Seq<Seq<char>>, m: WindowMode)
    requires
        forall|i: int| 0 <= i < ls.len() ==> is_plain_line(#[trigger] ls[i]),
    ensures
        forall|i: int|
            0 <= i < with_window_mode(ls, m).len() ==> is_plain_line(
                #[trigger] with_window_mode(ls, m)[i],
            ),
        m != WindowMode::Default ==> with_window_mode(ls, m).len() > 0
            && with_window_mode(ls, m).last().len() > 0,
{
    let w = without_window_mode(ls);
    let ml = window_mode_lines(m);
    let r = with_window_mode(ls, m);
    assert forall|i: int| 0 <= i < w.len() implies is_plain_line(#[trigger] w[i]) by {
        assert(w.contains(w[i]));
        ls.lemma_filter_contains_rev(|l: Seq<char>| keeps_line(l), w[i]);
        let k = choose|k: int| 0 <= k < ls.len() && ls[k] == w[i];
        assert(is_plain_line(ls[k]));
    }
    assert(forall|i: int| 0 <= i < ml.len() ==> is_plain_line(#[trigger] ml[i])) by {
        reveal(window_mode_lines);
        reveal_strlit("rs_borderless 0");
        reveal_strlit("rs_borderless 1");
        reveal_strlit("rs_fullscreen on");
        reveal_strlit("rs_fullscreen off");
        reveal_strlit("rs_screenmode fullscreen");
        reveal_strlit("rs_screenmode windowed");
        reveal_strlit("rs_screenmode borderless");
    }
    assert forall|i: int| 0 <= i < r.len() implies is_plain_line(#[trigger] r[i]) by {
        if i < w.len() {
            assert(r[i] == w[i]);
        } else {
            assert(r[i] == ml[i - w.len()]);
        }
    }
    if m != WindowMode::Default {
        assert(ml.len() == 3 && ml.last().len() > 0) by {
            reveal(window_mode_lines);
            reveal_strlit("rs_screenmode fullscreen");
            reveal_strlit("rs_screenmode windowed");
            reveal_strlit("rs_screenmode borderless");
        }
        assert(r.last() == ml.last());
    }
}

/// The default lines are plain (none holds a newline or ends with a
/// carriage return), and the last is not empty.
#[verifier::rlimit(100)]
proof fn lemma_default_lines_plain()
    ensures
        forall|i: int| 0 <= i < default_lines().len() ==> is_plain_line(#[trigger] default_lines()[i]),
        default_lines().last().len() > 0,
{
    lemma_default_lines_facts();
}

/// A line keeps its place in an update when its start differs from all
/// three window-mode keys, as read from its first five characters.
proof fn lemma_keeps_line_by_start(l: Seq<char>)
    requires
        l.len() < 13 || l[0] != 'r' || l[1] != 's' || l[2] != '_' || (l[3] != 'b' && l[3] != 'f'
            && l[3] != 's') || (l[3] == 's' && l[4] != 'c'),
    ensures
        keeps_line(l),
{
    reveal_strlit("rs_borderless");
    reveal_strlit("rs_fullscreen");
    reveal_strlit("rs_screenmode");
    if "rs_borderless"@.is_prefix_of(l) {
        assert(l[0] == "rs_borderless"@[0] && l[1] == "rs_borderless"@[1] && l[2]
            == "rs_borderless"@[2] && l[3] == "rs_borderless"@[3]);
    }
    if "rs_fullscreen"@.is_prefix_of(l) {
        assert(l[0] == "rs_fullscreen"@[0] && l[1] == "rs_fullscreen"@[1] && l[2]
            == "rs_fullscreen"@[2] && l[3] == "rs_fullscreen"@[3]);
    }
    if "rs_screenmode"@.is_prefix_of(l) {
        assert(l[0] == "rs_screenmode"@[0] && l[1] == "rs_screenmode"@[1] && l[2]
            == "rs_screenmode"@[2] && l[3] == "rs_screenmode"@[3] && l[4] == "rs_screenmode"@[4]);
    }
}

/// Facts about the default lines, read from the literals: all are plain,
/// the last is not empty, and the only one that sets the window mode is
/// line 272, `rs_screenmode borderless`.
#[verifier::rlimit(100)]
proof fn lemma_default_lines_facts()
    ensures
        forall|i: int| 0 <= i < default_lines().len() ==> is_plain_line(#[trigger] default_lines()[i]),
        default_lines().last().len() > 0,
        default_lines().len() == 302,
        default_lines()[272] == "rs_screenmode borderless"@,
        forall|i: int|
            0 <= i < default_lines().len() && i != 272 ==> keeps_line(#[trigger] default_lines()[i]),
        !keeps_line(default_lines()[272]),
{
    reveal_strlit("rs_borderless");
    reveal_strlit("rs_fullscreen");
    reveal_strlit("rs_screenmode");
    reveal_strlit("_preset Default");
    reveal_strlit("ai_aim_max_angle 0.7854");
    reveal_strlit("ai_aim_min_angle 0.19635");
    reveal_strlit("ai_aim_min_speed 0.24");
    reveal_strlit("ai_aim_predict_time 0.4");
    reveal_strlit("ai_aim_use_smooth_aim 1");
    reveal_strlit("ai_die_in_anomaly 0");
    reveal_strlit("ai_use_old_vision 0");
    reveal_strlit("ai_use_torch_dynamic_lights on");
    reveal_strlit("default_controls");
    reveal_strlit("bind left kLEFT");
    reveal_strlit("bind right kRIGHT");
    reveal_strlit("bind up kUP");
    reveal_strlit("bind down kDOWN");
    reveal_strlit("bind jump kSPACE");
    reveal_strlit("bind crouch kLCONTROL");
    reveal_strlit("bind accel kLSHIFT");
    reveal_strlit("bind sprint_toggle kX");
    reveal_strlit("bind forward kW");
    reveal_strlit("bind back kS");
    reveal_strlit("bind lstrafe kA");
    reveal_strlit("bind rstrafe kD");
    reveal_strlit("bind llookout kQ");
    reveal_strlit("bind rlookout kE");
    reveal_strlit("bind cam_zoom_in kT");
    reveal_strlit("bind cam_zoom_out kRBRACKET");
    reveal_strlit("bind torch kL");
    reveal_strlit("bind night_vision kN");
    reveal_strlit("bind show_detector kO");
    reveal_strlit("bind wpn_1 k1");
    reveal_strlit("bind wpn_2 k2");
    reveal_strlit("bind wpn_3 k3");
    reveal_strlit("bind wpn_4 k4");
    reveal_strlit("bind wpn_5 k5");
    reveal_strlit("bind wpn_6 k6");
    reveal_strlit("bind wpn_next kY");
    reveal_strlit("bind wpn_fire mouse1");
    reveal_strlit("bind wpn_zoom mouse2");
    reveal_strlit("bind wpn_reload kR");
    reveal_strlit("bind wpn_func kV");
    reveal_strlit("bind wpn_firemode_prev k9");
    reveal_strlit("bind wpn_firemode_next k0");
    reveal_strlit("bind pause kPAUSE");
    reveal_strlit("bind drop kG");
    reveal_strlit("bind use kF");
    reveal_strlit("bind scores kTAB");
    reveal_strlit("bind screenshot kF12");
    reveal_strlit("bind quit kESCAPE");
    reveal_strlit("bind console kGRAVE");
    reveal_strlit("bind inventory kI");
    reveal_strlit("bind active_jobs kP");
    reveal_strlit("bind quick_use_1 kF1");
    reveal_strlit("bind quick_use_2 kF2");
    reveal_strlit("bind quick_use_3 kF3");
    reveal_strlit("bind quick_use_4 kF4");
    reveal_strlit("bind quick_save kF5");
    reveal_strlit("bind quick_load kF9");
    reveal_strlit("bind custom1 kNUMPAD1");
    reveal_strlit("bind custom2 kNUMPAD2");
    reveal_strlit("bind custom3 kNUMPAD3");
    reveal_strlit("bind custom4 kNUMPAD4");
    reveal_strlit("bind custom5 kNUMPAD5");
    reveal_strlit("bind custom6 kNUMPAD0");
    reveal_strlit("bind custom13 k7");
    reveal_strlit("bind custom14 k8");
    reveal_strlit("bind custom15 kU");
    reveal_strlit("bind custom17 kF7");
    reveal_strlit("bind custom18 mouse3");
    reveal_strlit("bind safemode kB");
    reveal_strlit("cam_inert 0.");
    reveal_strlit("cam_slide_inert 0.25");
    reveal_strlit("cl_cod_pickup_mode on");
    reveal_strlit("cl_dynamiccrosshair on");
    reveal_strlit("con_sensitive 0.15");
    reveal_strlit("discord_status on");
    reveal_strlit("discord_update_rate 0.5");
    reveal_strlit("fov 75.");
    reveal_strlit("g_3d_pda on");
    reveal_strlit("g_always_active off");
    reveal_strlit("g_autopickup on");
    reveal_strlit("g_backrun on");
    reveal_strlit("g_crosshair_color (255, 255, 255, 255)");
    reveal_strlit("g_crouch_toggle off");
    reveal_strlit("g_dead_body_collision actor_only");
    reveal_strlit("g_dispersion_base 1.");
    reveal_strlit("g_dispersion_factor 1.");
    reveal_strlit("g_dynamic_music off");
    reveal_strlit("g_end_modif 0.");
    reveal_strlit("g_feel_grenade off");
    reveal_strlit("g_firepos off");
    reveal_strlit("g_freelook_toggle off");
    reveal_strlit("g_game_difficulty gd_stalker");
    reveal_strlit("g_god off");
    reveal_strlit("g_hit_pwr_modif 1.");
    reveal_strlit("g_important_save on");
    reveal_strlit("g_ironsights_zoom_factor 1.25");
    reveal_strlit("g_lookout_toggle off");
    reveal_strlit("g_multi_item_pickup on");
    reveal_strlit("g_simple_pda on");
    reveal_strlit("g_sleep_time 1");
    reveal_strlit("g_sprint_toggle on");
    reveal_strlit("g_unlimitedammo off");
    reveal_strlit("g_use_tracers on");
    reveal_strlit("g_walk_toggle off");
    reveal_strlit("head_bob_factor 1.");
    reveal_strlit("hud_crosshair on");
    reveal_strlit("hud_crosshair_dist off");
    reveal_strlit("hud_draw on");
    reveal_strlit("hud_fov 0.45");
    reveal_strlit("hud_info on");
    reveal_strlit("hud_weapon on");
    reveal_strlit("keypress_on_start on");
    reveal_strlit("log_missing_ini off");
    reveal_strlit("mouse_invert off");
    reveal_strlit("mouse_sens 0.12");
    reveal_strlit("mouse_sens_aim 1.");
    reveal_strlit("ph_frequency 100.00000");
    reveal_strlit("ph_gravity 19.62");
    reveal_strlit("ph_iterations 18");
    reveal_strlit("power_loss_bias 0.25");
    reveal_strlit("power_loss_factor 0.5");
    reveal_strlit("r1_detail_textures off");
    reveal_strlit("r1_dlights on");
    reveal_strlit("r1_dlights_clip 40.");
    reveal_strlit("r1_fog_luminance 1.1");
    reveal_strlit("r1_glows_per_frame 16");
    reveal_strlit("r1_lmodel_lerp 0.1");
    reveal_strlit("r1_pps_u 0.");
    reveal_strlit("r1_pps_v 0.");
    reveal_strlit("r1_software_skinning 0");
    reveal_strlit("r1_ssa_lod_a 64.");
    reveal_strlit("r1_ssa_lod_b 48.");
    reveal_strlit("r2_aa off");
    reveal_strlit("r2_aa_break (0.800000, 0.100000, 0.000000)");
    reveal_strlit("r2_aa_kernel 0.5");
    reveal_strlit("r2_aa_weight (0.250000, 0.250000, 0.000000)");
    reveal_strlit("r2_allow_r1_lights off");
    reveal_strlit("r2_detail_bump on");
    reveal_strlit("r2_dof -1.000000,0.000000,800.000000");
    reveal_strlit("r2_dof_enable off");
    reveal_strlit("r2_dof_radius 0.25");
    reveal_strlit("r2_dof_sky 30.");
    reveal_strlit("r2_drops_control (0.000000, 1.150000, 0.000000)");
    reveal_strlit("r2_exp_donttest_shad off");
    reveal_strlit("r2_gi off");
    reveal_strlit("r2_gi_clip 0.001");
    reveal_strlit("r2_gi_depth 1");
    reveal_strlit("r2_gi_photons 16");
    reveal_strlit("r2_gi_refl 0.9");
    reveal_strlit("r2_gloss_factor 2.5");
    reveal_strlit("r2_gloss_min 0.5");
    reveal_strlit("r2_ls_bloom_fast off");
    reveal_strlit("r2_ls_bloom_kernel_b 0.1");
    reveal_strlit("r2_ls_bloom_kernel_g 1.");
    reveal_strlit("r2_ls_bloom_kernel_scale 0.05");
    reveal_strlit("r2_ls_bloom_speed 100.");
    reveal_strlit("r2_ls_bloom_threshold 0.");
    reveal_strlit("r2_ls_depth_bias -0.001");
    reveal_strlit("r2_ls_depth_scale 1.00001");
    reveal_strlit("r2_ls_dsm_kernel 0.7");
    reveal_strlit("r2_ls_psm_kernel 0.7");
    reveal_strlit("r2_ls_squality 1.");
    reveal_strlit("r2_ls_ssm_kernel 0.7");
    reveal_strlit("r2_mask_control (0.000000, 0.000000, 0.000000, 0.000000)");
    reveal_strlit("r2_mblur 0.");
    reveal_strlit("r2_mblur_enabled off");
    reveal_strlit("r2_parallax_h 0.02");
    reveal_strlit("r2_qsync 0");
    reveal_strlit("r2_shadow_cascede_old off");
    reveal_strlit("r2_slight_fade 0.5");
    reveal_strlit("r2_smaa high");
    reveal_strlit("r2_soft_particles on");
    reveal_strlit("r2_soft_water on");
    reveal_strlit("r2_ss_sunshafts_length 1.");
    reveal_strlit("r2_ss_sunshafts_radius 1.");
    reveal_strlit("r2_ssa_lod_a 64.");
    reveal_strlit("r2_ssa_lod_b 48.");
    reveal_strlit("r2_ssao st_opt_high");
    reveal_strlit("r2_ssao_blur off");
    reveal_strlit("r2_ssao_half_data on");
    reveal_strlit("r2_ssao_hbao off");
    reveal_strlit("r2_ssao_hdao off");
    reveal_strlit("r2_ssao_mode hdao");
    reveal_strlit("r2_ssao_opt_data off");
    reveal_strlit("r2_steep_parallax on");
    reveal_strlit("r2_sun on");
    reveal_strlit("r2_sun_depth_far_bias -0.00002");
    reveal_strlit("r2_sun_depth_far_scale 1.");
    reveal_strlit("r2_sun_depth_near_bias 0.00001");
    reveal_strlit("r2_sun_depth_near_scale 1.");
    reveal_strlit("r2_sun_details off");
    reveal_strlit("r2_sun_far 100.");
    reveal_strlit("r2_sun_focus on");
    reveal_strlit("r2_sun_lumscale 2.");
    reveal_strlit("r2_sun_lumscale_amb 1.");
    reveal_strlit("r2_sun_lumscale_hemi 1.");
    reveal_strlit("r2_sun_near 20.");
    reveal_strlit("r2_sun_near_border 0.75");
    reveal_strlit("r2_sun_quality st_opt_medium");
    reveal_strlit("r2_sun_tsm on");
    reveal_strlit("r2_sun_tsm_bias -0.01");
    reveal_strlit("r2_sun_tsm_proj 0.3");
    reveal_strlit("r2_sunshafts_min 0.");
    reveal_strlit("r2_sunshafts_mode volumetric");
    reveal_strlit("r2_sunshafts_quality st_opt_medium");
    reveal_strlit("r2_sunshafts_value 0.75");
    reveal_strlit("r2_terrain_z_prepass off");
    reveal_strlit("r2_tnmp_a 0.15");
    reveal_strlit("r2_tnmp_b 0.5");
    reveal_strlit("r2_tnmp_c 0.1");
    reveal_strlit("r2_tnmp_d 0.2");
    reveal_strlit("r2_tnmp_e 0.2");
    reveal_strlit("r2_tnmp_exposure 0.16033");
    reveal_strlit("r2_tnmp_f 0.3");
    reveal_strlit("r2_tnmp_gamma 0.76667");
    reveal_strlit("r2_tnmp_onoff 0.");
    reveal_strlit("r2_tnmp_w 1.12");
    reveal_strlit("r2_tonemap on");
    reveal_strlit("r2_tonemap_adaptation 10.");
    reveal_strlit("r2_tonemap_amount 1.");
    reveal_strlit("r2_tonemap_lowlum 0.5");
    reveal_strlit("r2_tonemap_middlegray 1.5");
    reveal_strlit("r2_volumetric_lights on");
    reveal_strlit("r2_wait_sleep 0");
    reveal_strlit("r2_water_reflections on");
    reveal_strlit("r2_zfill off");
    reveal_strlit("r2_zfill_depth 0.25");
    reveal_strlit("r2em 0.");
    reveal_strlit("r3_dynamic_wet_surfaces on");
    reveal_strlit("r3_dynamic_wet_surfaces_far 100.");
    reveal_strlit("r3_dynamic_wet_surfaces_near 70.");
    reveal_strlit("r3_dynamic_wet_surfaces_sm_res 2048");
    reveal_strlit("r3_minmax_sm off");
    reveal_strlit("r3_msaa st_opt_off");
    reveal_strlit("r3_msaa_alphatest st_opt_off");
    reveal_strlit("r3_use_dx10_1 off");
    reveal_strlit("r3_volumetric_smoke on");
    reveal_strlit("r4_enable_tessellation on");
    reveal_strlit("r4_wireframe off");
    reveal_strlit("r__actor_shadow off");
    reveal_strlit("r__bloom_thresh (0.700000, 0.800000, 0.900000, 0.000000)");
    reveal_strlit("r__bloom_weight (0.330000, 0.330000, 0.330000, 0.000000)");
    reveal_strlit("r__clear_models_on_unload off");
    reveal_strlit("r__color_grading (0.000000, 0.000000, 0.000000)");
    reveal_strlit("r__detail_density 0.6");
    reveal_strlit("r__detail_height 1.");
    reveal_strlit("r__detail_radius 49");
    reveal_strlit("r__dtex_range 50.");
    reveal_strlit("r__enable_grass_shadow off");
    reveal_strlit("r__exposure 1.");
    reveal_strlit("r__framelimit 0");
    reveal_strlit("r__gamma 1.");
    reveal_strlit("r__geometry_lod 0.75");
    reveal_strlit("r__lens_flares on");
    reveal_strlit("r__nightvision 0");
    reveal_strlit("r__no_ram_textures on");
    reveal_strlit("r__no_scale_on_fade off");
    reveal_strlit("r__optimize_dynamic_geom 1");
    reveal_strlit("r__optimize_shadow_geom on");
    reveal_strlit("r__optimize_static_geom 1");
    reveal_strlit("r__saturation 1.");
    reveal_strlit("r__supersample 1");
    reveal_strlit("r__tf_aniso 8");
    reveal_strlit("r__tf_mipbias -0.5");
    reveal_strlit("r__use_precompiled_shaders off");
    reveal_strlit("r__wallmark_ttl 50.");
    reveal_strlit("r_screenshot_mode jpg");
    reveal_strlit("renderer renderer_r4");
    reveal_strlit("rs_c_brightness 1.");
    reveal_strlit("rs_c_contrast 1.");
    reveal_strlit("rs_c_gamma 1.");
    reveal_strlit("rs_cam_pos off");
    reveal_strlit("rs_screenmode borderless");
    reveal_strlit("rs_skeleton_update 32");
    reveal_strlit("rs_stats off");
    reveal_strlit("rs_v_sync on");
    reveal_strlit("rs_vis_distance 1.");
    reveal_strlit("shader_param_1 (0.000000, 0.000000, 0.000000, 0.000000)");
    reveal_strlit("shader_param_2 (0.000000, 0.000000, 0.000000, 0.000000)");
    reveal_strlit("shader_param_3 (0.000000, 0.000000, 0.000000, 0.000000)");
    reveal_strlit("shader_param_4 (0.000000, 0.000000, 0.000000, 0.000000)");
    reveal_strlit("shader_param_5 (0.000000, 0.000000, 0.000000, 0.000000)");
    reveal_strlit("shader_param_6 (0.000000, 0.000000, 0.000000, 0.000000)");
    reveal_strlit("shader_param_7 (0.000000, 0.000000, 0.000000, 0.000000)");
    reveal_strlit("shader_param_8 (0.000000, 0.000000, 0.000000, 0.000000)");
    reveal_strlit("slot_0 medkit");
    reveal_strlit("slot_1 bandage");
    reveal_strlit("slot_2 antirad");
    reveal_strlit("slot_3 conserva");
    reveal_strlit("snd_acceleration on");
    reveal_strlit("snd_cache_size 256");
    reveal_strlit("snd_device OpenAL Soft");
    reveal_strlit("snd_efx off");
    reveal_strlit("snd_targets 1024");
    reveal_strlit("snd_volume_eff 1.");
    reveal_strlit("snd_volume_music 1.");
    reveal_strlit("texture_lod 1");
    reveal_strlit("time_factor 1.000000");
    reveal_strlit("vid_mode 1024x768");
    reveal_strlit("weapon_sway off");
    reveal_strlit("wpn_aim_toggle off");
    reveal_strlit("wpn_degradation 1.");
    assert forall|i: int| 0 <= i < 302 implies !(#[trigger] default_lines()[i]).contains('\n')
        && strip_cr(default_lines()[i]) == default_lines()[i] by {}
    assert(default_lines().last().len() > 0);
    assert forall|i: int| 0 <= i < 302 && i != 272 implies keeps_line(#[trigger] default_lines()[i]) by {
        lemma_keeps_line_by_start(default_lines()[i]);
    }
    assert("rs_screenmode"@ =~= default_lines()[272].subrange(0, 13));
}

/// The lines of the default contents are the default lines.
pub proof fn default_user_ltx_lines()
    ensures
        lines(default_user_ltx()) == default_lines(),
{
    lemma_default_lines_plain();
    plain_lines_round_trip(default_lines());
    lines_of_joined(default_lines());
}


/// The lines of `user.ltx` before an update are plain when the file does
/// not exist or holds no carriage return.
proof fn lemma_current_lines_plain(existing: Option<Seq<char>>)
    requires
        existing is Some ==> !existing->0.contains('\r'),
    ensures
        forall|i: int|
            0 <= i < current_lines(existing).len() ==> is_plain_line(
                #[trigger] current_lines(existing)[i],
            ),
{
    match existing {
        Some(t) => lines_of_text_without_cr_are_plain(t),
        None => lemma_default_lines_plain(),
    }
}

/// Over the file itself: when `user.ltx` is missing or holds no carriage
/// return, writing window mode `first` (other than `Default`) and then
/// `second` leaves the same file as writing `second` alone. With
/// `first == second`, writing a mode twice is writing it once.
pub proof fn user_ltx_last_write_wins(
    existing: Option<Seq<char>>,
    first: WindowMode,
    second: WindowMode,
)
    requires
        first != WindowMode::Default,
        existing is Some ==> !existing->0.contains('\r'),
    ensures
        updated_user_ltx(Some(updated_user_ltx(existing, first)), second) == updated_user_ltx(
            existing,
            second,
        ),
{
    let ls = current_lines(existing);
    lemma_current_lines_plain(existing);
    lemma_with_window_mode_plain(ls, first);
    let w1 = with_window_mode(ls, first);
    plain_lines_round_trip(w1);
    lines_of_joined(w1);
    assert(current_lines(Some(updated_user_ltx(existing, first))) == w1);
    window_mode_last_write_wins(ls, first, second);
}


/// Removing the window-mode lines from lines of which exactly one, at
/// `k`, sets the window mode removes just that line.
proof fn lemma_filter_drops_one(ls: Seq<Seq<char>>, k: int)
    requires
        0 <= k < ls.len(),
        !keeps_line(ls[k]),
        forall|i: int| 0 <= i < ls.len() && i != k ==> keeps_line(#[trigger] ls[i]),
    ensures
        without_window_mode(ls) == ls.remove(k),
    decreases ls.len(),
{
    reveal(Seq::filter);
    let init = ls.drop_last();
    if k == ls.len() - 1 {
        assert forall|i: int| 0 <= i < init.len() implies keeps_line(#[trigger] init[i]) by {
            assert(init[i] == ls[i]);
        }
        lemma_filter_keeps_kept(init);
        assert(ls.remove(k) =~= init);
    } else {
        assert forall|i: int| 0 <= i < init.len() && i != k implies keeps_line(#[trigger] init[i]) by {
            assert(init[i] == ls[i]);
        }
        assert(init[k] == ls[k]);
        lemma_filter_drops_one(init, k);
        assert(keeps_line(ls.last()));
        assert(init.remove(k).push(ls.last()) =~= ls.remove(k));
    }
}

/// With no `user.ltx`, an update writes the default lines without their
/// one window-mode line, `rs_screenmode borderless`, followed by the chosen
/// mode's lines, all joined by newlines.
pub proof fn update_without_file(m: WindowMode)
    ensures
        default_lines()[272] == "rs_screenmode borderless"@,
        with_window_mode(default_lines(), m) == default_lines().remove(272) + window_mode_lines(m),
        updated_user_ltx(None, m) == join(default_lines().remove(272) + window_mode_lines(m), "\n"@),
{
    lemma_default_lines_facts();
    lemma_filter_drops_one(default_lines(), 272);
}

} // verus!
