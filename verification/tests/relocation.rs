use rtodo::relocate::{
    is_system_file_name, migrate_data, DirEntry, DirImage, FaultPlan, RelocationError,
    RelocationStage, RelocationWorld,
};

fn entry(path: &[&str], data: &[u8]) -> DirEntry {
    DirEntry {
        path: path.iter().map(|s| s.to_string()).collect(),
        data: data.to_vec(),
    }
}

fn source_image() -> DirImage {
    DirImage {
        entries: vec![
            entry(&["rtodo.db"], b"sqlite-image"),
            entry(&["attachments", "a1.bin"], b"first"),
            entry(&["attachments", "a2.bin"], b"second"),
        ],
    }
}

fn world() -> RelocationWorld {
    RelocationWorld {
        source: Some(source_image()),
        staging: None,
        dest: None,
        dest_backup: None,
    }
}

fn no_faults() -> FaultPlan {
    FaultPlan::none()
}

#[test]
fn relocation_moves_database_and_attachments() {
    let run = migrate_data(world(), false, false, no_faults());
    assert_eq!(run.result, Ok(false));
    let dest = run.world.dest.expect("destination created");
    assert_eq!(dest.entries.len(), 3);
    assert_eq!(dest.entries[0], entry(&["rtodo.db"], b"sqlite-image"));
    assert_eq!(dest.entries[1], entry(&["attachments", "a1.bin"], b"first"));
    assert_eq!(dest.entries[2], entry(&["attachments", "a2.bin"], b"second"));
    // The original location is gone, and so are staging and any backup.
    assert_eq!(run.world.source, None);
    assert_eq!(run.world.staging, None);
    assert_eq!(run.world.dest_backup, None);
    let tags: Vec<&str> = run.events.iter().map(|e| e.tag()).collect();
    assert_eq!(
        tags,
        vec![
            "started",
            "copying_db",
            "copying_attachments",
            "validating",
            "finalizing",
            "cleaning",
            "completed"
        ]
    );
}

#[test]
fn keep_original_retains_the_source() {
    let run = migrate_data(world(), false, true, no_faults());
    assert_eq!(run.result, Ok(true));
    assert_eq!(run.world.source, Some(source_image()));
    assert!(run.world.dest.is_some());
    let tags: Vec<&str> = run.events.iter().map(|e| e.tag()).collect();
    assert!(!tags.contains(&"cleaning"));
    assert_eq!(tags.last(), Some(&"completed"));
}

#[test]
fn cross_device_fallback_reaches_the_same_state() {
    let plain = migrate_data(world(), false, false, no_faults());
    let crossed = migrate_data(
        world(),
        false,
        false,
        FaultPlan { rename_cross_device: true, ..no_faults() },
    );
    assert_eq!(plain.result, crossed.result);
    assert_eq!(plain.world, crossed.world);
    let plain_tags: Vec<&str> = plain.events.iter().map(|e| e.tag()).collect();
    let crossed_tags: Vec<&str> = crossed.events.iter().map(|e| e.tag()).collect();
    assert_eq!(plain_tags, crossed_tags);
    // And the rename failure the fallback absorbed does not surface.
    assert!(crossed.world.staging.is_none());
}

#[test]
fn copy_db_failure_leaves_everything_untouched() {
    let run = migrate_data(
        world(),
        false,
        false,
        FaultPlan { copy_db_fails: true, ..no_faults() },
    );
    assert_eq!(run.result, Err(RelocationError::CopyDbFailed));
    assert_eq!(run.world.source, Some(source_image()));
    assert_eq!(run.world.dest, None);
    assert_eq!(run.world.dest_backup, None);
    assert_eq!(run.world.staging, None);
}

#[test]
fn copy_attachments_failure_leaves_everything_untouched() {
    let run = migrate_data(
        world(),
        false,
        false,
        FaultPlan { copy_attachments_fails: true, ..no_faults() },
    );
    assert_eq!(run.result, Err(RelocationError::CopyAttachmentsFailed));
    assert_eq!(run.world.source, Some(source_image()));
    assert_eq!(run.world.dest, None);
    assert_eq!(run.world.staging, None);
}

#[test]
fn validation_failure_leaves_everything_untouched() {
    let run = migrate_data(
        world(),
        false,
        false,
        FaultPlan { validate_fails: true, ..no_faults() },
    );
    assert_eq!(run.result, Err(RelocationError::ValidateFailed));
    assert_eq!(run.world.source, Some(source_image()));
    assert_eq!(run.world.dest, None);
    assert_eq!(run.world.staging, None);
    assert_eq!(run.result.unwrap_err().stage(), RelocationStage::Validating);
}

#[test]
fn missing_database_is_reported_before_anything_happens() {
    let w = RelocationWorld {
        source: Some(DirImage { entries: vec![entry(&["attachments", "x"], b"y")] }),
        staging: None,
        dest: None,
        dest_backup: None,
    };
    let run = migrate_data(w, false, false, no_faults());
    assert_eq!(run.result, Err(RelocationError::DatabaseMissing));
    assert_eq!(run.world.dest, None);
}

#[test]
fn same_target_path_is_rejected_as_user_error() {
    let run = migrate_data(world(), true, false, no_faults());
    assert_eq!(run.result, Err(RelocationError::SameTargetPath));
    assert_eq!(run.world, world());
    let tags: Vec<&str> = run.events.iter().map(|e| e.tag()).collect();
    assert_eq!(tags, vec!["started"]);
}

#[test]
fn failed_move_keeps_staging_for_recovery() {
    let run = migrate_data(
        world(),
        false,
        false,
        FaultPlan { rename_fails: true, ..no_faults() },
    );
    assert_eq!(run.result, Err(RelocationError::MoveFailed));
    assert_eq!(run.world.source, Some(source_image()));
    let staging = run.world.staging.expect("staging kept for forensics");
    assert_eq!(staging.entries.len(), 3);
    assert_eq!(staging.entries[0], entry(&["rtodo.db"], b"sqlite-image"));
}

#[test]
fn destination_with_user_data_is_backed_aside() {
    let mut w = world();
    w.dest = Some(DirImage { entries: vec![entry(&["notes.txt"], b"mine")] });
    let run = migrate_data(w, false, true, no_faults());
    assert_eq!(run.result, Ok(true));
    let backup = run.world.dest_backup.expect("backup created");
    assert_eq!(backup.entries[0], entry(&["notes.txt"], b"mine"));
}

#[test]
fn destination_backup_is_removed_when_original_not_kept() {
    let mut w = world();
    w.dest = Some(DirImage { entries: vec![entry(&["notes.txt"], b"mine")] });
    let run = migrate_data(w, false, false, no_faults());
    assert_eq!(run.result, Ok(false));
    assert_eq!(run.world.dest_backup, None);
}

#[test]
fn destination_with_housekeeping_files_only_is_cleared() {
    let mut w = world();
    w.dest = Some(DirImage {
        entries: vec![entry(&["desktop.ini"], b""), entry(&[".DS_Store"], b"")],
    });
    let run = migrate_data(w, false, true, no_faults());
    assert_eq!(run.result, Ok(true));
    assert_eq!(run.world.dest_backup, None);
    assert_eq!(run.world.dest.expect("moved").entries.len(), 3);
}

#[test]
fn stale_staging_is_cleaned_before_a_run() {
    let mut w = world();
    w.staging = Some(DirImage { entries: vec![entry(&["leftover"], b"junk")] });
    let run = migrate_data(w, false, true, no_faults());
    assert_eq!(run.result, Ok(true));
    assert_eq!(run.world.staging, None);
}

#[test]
fn housekeeping_names_are_recognized() {
    for name in [
        "desktop.ini",
        "Thumbs.db",
        ".DS_Store",
        ".Spotlight-V100",
        ".Trashes",
        "$RECYCLE.BIN",
        "System Volume Information",
    ] {
        assert!(is_system_file_name(name));
    }
    assert!(!is_system_file_name("notes.txt"));
    assert!(!is_system_file_name("rtodo.db"));
    assert!(!is_system_file_name(""));
}
