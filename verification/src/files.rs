//! The file moves behind the sound workaround and the `user.ltx` reset.
//! Each is planned here from what exists on disk; the caller carries out
//! the steps in order. A model of the files involved states what the steps
//! achieve.
use vstd::prelude::*;
use crate::config::WindowMode;
use crate::text::join;
use crate::user_ltx::{
    default_lines, default_user_ltx, default_user_ltx_lines, update_without_file, updated_user_ltx,
    window_mode_lines,
};

verus! {

/// OpenAL's settings file, which the sound workaround moves aside.
pub const ALSOFT_INI: &'static str = "bin/alsoft.ini";

/// Where the sound workaround keeps OpenAL's settings file.
pub const ALSOFT_INI_BAK: &'static str = "bin/alsoft.ini.bak";

/// The game's user settings file.
pub const USER_LTX: &'static str = "appdata/user.ltx";

/// Where a reset keeps the previous user settings file.
pub const USER_LTX_OLD: &'static str = "appdata/user.ltx.old";

/// One step of switching the sound workaround.
#[derive(PartialEq, Eq, Structural, Debug, Clone, Copy)]
pub enum SoundFixStep {
    /// Delete `ALSOFT_INI_BAK`.
    RemoveBackup,
    /// Rename `ALSOFT_INI` to `ALSOFT_INI_BAK`.
    MoveIniToBackup,
    /// Rename `ALSOFT_INI_BAK` to `ALSOFT_INI`.
    MoveBackupToIni,
}

/// The steps that switch the sound workaround on (`enable`) or off, given
/// whether `ALSOFT_INI` and `ALSOFT_INI_BAK` exist. On: nothing when there
/// is no settings file, else the settings file replaces any backup. Off:
/// nothing when the settings file exists, else the backup, if any, is
/// moved back.
pub open spec fn sound_fix_steps(enable: bool, ini_exists: bool, backup_exists: bool) -> Seq<
    SoundFixStep,
> {
    if enable {
        if !ini_exists {
            Seq::empty()
        } else if backup_exists {
            seq![SoundFixStep::RemoveBackup, SoundFixStep::MoveIniToBackup]
        } else {
            seq![SoundFixStep::MoveIniToBackup]
        }
    } else {
        if ini_exists {
            Seq::empty()
        } else if backup_exists {
            seq![SoundFixStep::MoveBackupToIni]
        } else {
            Seq::empty()
        }
    }
}

/// Plans the steps of `sound_fix_steps`.
pub fn sound_fix_plan(enable: bool, ini_exists: bool, backup_exists: bool) -> (steps: Vec<
    SoundFixStep,
>)
    ensures
        steps@ == sound_fix_steps(enable, ini_exists, backup_exists),
{
    let mut steps: Vec<SoundFixStep> = Vec::new();
    if enable {
        if ini_exists {
            if backup_exists {
                steps.push(SoundFixStep::RemoveBackup);
            }
            steps.push(SoundFixStep::MoveIniToBackup);
        }
    } else {
        if !ini_exists && backup_exists {
            steps.push(SoundFixStep::MoveBackupToIni);
        }
    }
    assert(steps@ =~= sound_fix_steps(enable, ini_exists, backup_exists));
    steps
}

/// The two files the workaround touches: the contents of the settings file
/// and of its backup, `None` where a file does not exist.
pub struct SoundFiles {
    pub ini: Option<int>,
    pub backup: Option<int>,
}

/// The files after one step.
pub open spec fn sound_step(f: SoundFiles, step: SoundFixStep) -> SoundFiles {
    match step {
        SoundFixStep::RemoveBackup => SoundFiles { ini: f.ini, backup: None },
        SoundFixStep::MoveIniToBackup => SoundFiles { ini: None, backup: f.ini },
        SoundFixStep::MoveBackupToIni => SoundFiles { ini: f.backup, backup: None },
    }
}

/// The files after the steps, in order.
pub open spec fn sound_steps(f: SoundFiles, steps: Seq<SoundFixStep>) -> SoundFiles
    decreases steps.len(),
{
    if steps.len() == 0 {
        f
    } else {
        sound_step(sound_steps(f, steps.drop_last()), steps.last())
    }
}

/// The files after switching the workaround as planned from them.
pub open spec fn switch_sound_fix(f: SoundFiles, enable: bool) -> SoundFiles {
    sound_steps(f, sound_fix_steps(enable, f.ini is Some, f.backup is Some))
}

/// Switching the workaround on leaves no settings file; the settings file
/// that was there, if any, becomes the backup, else the backup stays.
pub proof fn sound_fix_on_moves_ini_aside(f: SoundFiles)
    ensures
        switch_sound_fix(f, true).ini is None,
        switch_sound_fix(f, true).backup == (if f.ini is Some {
            f.ini
        } else {
            f.backup
        }),
{
    reveal_with_fuel(sound_steps, 3);
    let steps = sound_fix_steps(true, f.ini is Some, f.backup is Some);
    if f.ini is Some && f.backup is Some {
        assert(steps.drop_last() =~= seq![SoundFixStep::RemoveBackup]);
        assert(steps.drop_last().drop_last() =~= Seq::<SoundFixStep>::empty());
    } else if f.ini is Some {
        assert(steps.drop_last() =~= Seq::<SoundFixStep>::empty());
    }
}

/// Switching the workaround off keeps an existing settings file as it is;
/// without one, the backup, if any, becomes the settings file.
pub proof fn sound_fix_off_restores_ini(f: SoundFiles)
    ensures
        switch_sound_fix(f, false) == (if f.ini is Some || f.backup is None {
            f
        } else {
            SoundFiles { ini: f.backup, backup: None }
        }),
{
    reveal_with_fuel(sound_steps, 2);
    let steps = sound_fix_steps(false, f.ini is Some, f.backup is Some);
    if f.ini is None && f.backup is Some {
        assert(steps.drop_last() =~= Seq::<SoundFixStep>::empty());
    }
}

/// Switching the workaround on and then off brings back the settings file
/// that was there, with no backup left.
pub proof fn sound_fix_round_trip(f: SoundFiles)
    requires
        f.ini is Some,
    ensures
        switch_sound_fix(switch_sound_fix(f, true), false) == (SoundFiles {
            ini: f.ini,
            backup: None,
        }),
{
    sound_fix_on_moves_ini_aside(f);
    sound_fix_off_restores_ini(switch_sound_fix(f, true));
}

/// Switching the workaround to the same position twice is switching it
/// once.
pub proof fn sound_fix_idempotent(f: SoundFiles, enable: bool)
    ensures
        switch_sound_fix(switch_sound_fix(f, enable), enable) == switch_sound_fix(f, enable),
{
    if enable {
        sound_fix_on_moves_ini_aside(f);
        sound_fix_on_moves_ini_aside(switch_sound_fix(f, true));
    } else {
        sound_fix_off_restores_ini(f);
        sound_fix_off_restores_ini(switch_sound_fix(f, false));
    }
}


/// One step of resetting `user.ltx`.
#[derive(PartialEq, Eq, Structural, Debug, Clone, Copy)]
pub enum LtxResetStep {
    /// Delete `USER_LTX_OLD`.
    RemoveOld,
    /// Rename `USER_LTX` to `USER_LTX_OLD`.
    MoveToOld,
    /// Write the default contents (`default_user_ltx`) to `USER_LTX`.
    WriteDefault,
}

/// The steps of a reset, given whether `USER_LTX` and `USER_LTX_OLD` exist:
/// an existing `USER_LTX` replaces any older copy, then the default
/// contents are written.
pub open spec fn ltx_reset_steps(ltx_exists: bool, old_exists: bool) -> Seq<LtxResetStep> {
    if !ltx_exists {
        seq![LtxResetStep::WriteDefault]
    } else if old_exists {
        seq![LtxResetStep::RemoveOld, LtxResetStep::MoveToOld, LtxResetStep::WriteDefault]
    } else {
        seq![LtxResetStep::MoveToOld, LtxResetStep::WriteDefault]
    }
}

/// Plans the steps of `ltx_reset_steps`.
pub fn ltx_reset_plan(ltx_exists: bool, old_exists: bool) -> (steps: Vec<LtxResetStep>)
    ensures
        steps@ == ltx_reset_steps(ltx_exists, old_exists),
{
    let mut steps: Vec<LtxResetStep> = Vec::new();
    if ltx_exists {
        if old_exists {
            steps.push(LtxResetStep::RemoveOld);
        }
        steps.push(LtxResetStep::MoveToOld);
    }
    steps.push(LtxResetStep::WriteDefault);
    assert(steps@ =~= ltx_reset_steps(ltx_exists, old_exists));
    steps
}

/// The two files a reset touches: the contents of `user.ltx` and of its
/// older copy, `None` where a file does not exist.
pub struct LtxFiles {
    pub ltx: Option<Seq<char>>,
    pub old: Option<Seq<char>>,
}

/// The files after one step.
pub open spec fn ltx_step(f: LtxFiles, step: LtxResetStep) -> LtxFiles {
    match step {
        LtxResetStep::RemoveOld => LtxFiles { ltx: f.ltx, old: None },
        LtxResetStep::MoveToOld => LtxFiles { ltx: None, old: f.ltx },
        LtxResetStep::WriteDefault => LtxFiles { ltx: Some(default_user_ltx()), old: f.old },
    }
}

/// The files after the steps, in order.
pub open spec fn ltx_steps(f: LtxFiles, steps: Seq<LtxResetStep>) -> LtxFiles
    decreases steps.len(),
{
    if steps.len() == 0 {
        f
    } else {
        ltx_step(ltx_steps(f, steps.drop_last()), steps.last())
    }
}

/// The files after a reset planned from them.
pub open spec fn reset_ltx(f: LtxFiles) -> LtxFiles {
    ltx_steps(f, ltx_reset_steps(f.ltx is Some, f.old is Some))
}

/// After a reset `user.ltx` holds the default contents, and the older copy
/// is the `user.ltx` from before the reset when there was one, else it is
/// unchanged.
pub proof fn reset_ltx_keeps_previous(f: LtxFiles)
    ensures
        reset_ltx(f).ltx == Some(default_user_ltx()),
        reset_ltx(f).old == (if f.ltx is Some {
            f.ltx
        } else {
            f.old
        }),
{
    reveal_with_fuel(ltx_steps, 4);
    let steps = ltx_reset_steps(f.ltx is Some, f.old is Some);
    if f.ltx is Some && f.old is Some {
        assert(steps.drop_last() =~= seq![LtxResetStep::RemoveOld, LtxResetStep::MoveToOld]);
        assert(steps.drop_last().drop_last() =~= seq![LtxResetStep::RemoveOld]);
        assert(steps.drop_last().drop_last().drop_last() =~= Seq::<LtxResetStep>::empty());
    } else if f.ltx is Some {
        assert(steps.drop_last() =~= seq![LtxResetStep::MoveToOld]);
        assert(steps.drop_last().drop_last() =~= Seq::<LtxResetStep>::empty());
    } else {
        assert(steps.drop_last() =~= Seq::<LtxResetStep>::empty());
    }
}


/// Choosing a window mode right after a reset gives the same `user.ltx` as
/// choosing it when there is no `user.ltx` at all: the default lines
/// without their one `rs_screenmode borderless` line, followed by the
/// mode's lines, joined by newlines.
pub proof fn update_after_reset(f: LtxFiles, m: WindowMode)
    ensures
        updated_user_ltx(reset_ltx(f).ltx, m) == updated_user_ltx(None, m),
        updated_user_ltx(reset_ltx(f).ltx, m) == join(
            default_lines().remove(272) + window_mode_lines(m),
            "\n"@,
        ),
        default_lines()[272] == "rs_screenmode borderless"@,
{
    reset_ltx_keeps_previous(f);
    default_user_ltx_lines();
    update_without_file(m);
}

} // verus!
