use anomaly_launcher::files::{ltx_reset_plan, sound_fix_plan, LtxResetStep, SoundFixStep};

#[test]
fn sound_fix_on() {
    assert!(sound_fix_plan(true, false, false).is_empty());
    assert!(sound_fix_plan(true, false, true).is_empty());
    assert_eq!(sound_fix_plan(true, true, false), vec![SoundFixStep::MoveIniToBackup]);
    assert_eq!(
        sound_fix_plan(true, true, true),
        vec![SoundFixStep::RemoveBackup, SoundFixStep::MoveIniToBackup]
    );
}

#[test]
fn sound_fix_off() {
    assert!(sound_fix_plan(false, true, false).is_empty());
    assert!(sound_fix_plan(false, true, true).is_empty());
    assert!(sound_fix_plan(false, false, false).is_empty());
    assert_eq!(sound_fix_plan(false, false, true), vec![SoundFixStep::MoveBackupToIni]);
}

/// Carries out steps on an in-memory pair of files (settings, backup).
fn run(mut files: (Option<u32>, Option<u32>), steps: &[SoundFixStep]) -> (Option<u32>, Option<u32>) {
    for s in steps {
        files = match s {
            SoundFixStep::RemoveBackup => (files.0, None),
            SoundFixStep::MoveIniToBackup => (None, files.0),
            SoundFixStep::MoveBackupToIni => (files.1, None),
        };
    }
    files
}

fn switch(files: (Option<u32>, Option<u32>), on: bool) -> (Option<u32>, Option<u32>) {
    run(files, &sound_fix_plan(on, files.0.is_some(), files.1.is_some()))
}

#[test]
fn sound_fix_round_trip_and_idempotence() {
    for f in [(Some(1), None), (Some(1), Some(2)), (None, Some(2)), (None, None)] {
        let on = switch(f, true);
        assert_eq!(on.0, None);
        assert_eq!(switch(on, true), on);
        let off = switch(f, false);
        assert_eq!(switch(off, false), off);
        if f.0.is_some() {
            assert_eq!(switch(on, false), (f.0, None));
        }
    }
}

#[test]
fn reset_plans() {
    assert_eq!(ltx_reset_plan(false, false), vec![LtxResetStep::WriteDefault]);
    assert_eq!(ltx_reset_plan(false, true), vec![LtxResetStep::WriteDefault]);
    assert_eq!(ltx_reset_plan(true, false), vec![LtxResetStep::MoveToOld, LtxResetStep::WriteDefault]);
    assert_eq!(
        ltx_reset_plan(true, true),
        vec![LtxResetStep::RemoveOld, LtxResetStep::MoveToOld, LtxResetStep::WriteDefault]
    );
}
