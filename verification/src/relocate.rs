//! The data-path relocation protocol.
//!
//! The protocol moves the data directory (one database file plus an
//! `attachments` subtree) to a new location: assemble a complete copy in a
//! staging directory, validate it, then swap it into place, backing aside any
//! user data already at the destination. Failures before the swap leave the
//! original untouched and remove the staging directory; a failed swap keeps
//! the staging directory for manual recovery.
//!
//! The directories involved are modelled as file images — relative paths
//! with their bytes — held in four slots (source, staging, destination,
//! destination backup). The engine here is the protocol's whole decision
//! logic over that model; performing the real filesystem operations, and
//! reporting each emitted stage to the observer, is the caller's thin glue.

use vstd::prelude::*;
use crate::text::str_eq;

verus! {

/// One file inside a directory image: its relative path, component by
/// component, and its bytes.
#[derive(Debug, PartialEq)]
pub struct DirEntry {
    pub path: Vec<String>,
    pub data: Vec<u8>,
}

pub struct DirEntryModel {
    pub path: Seq<Seq<char>>,
    pub data: Seq<u8>,
}

impl View for DirEntry {
    type V = DirEntryModel;

    open spec fn view(&self) -> DirEntryModel {
        DirEntryModel { path: self.path@.map_values(|s: String| s@), data: self.data@ }
    }
}

fn clone_path(p: &Vec<String>) -> (r: Vec<String>)
    ensures
        r@.map_values(|s: String| s@) == p@.map_values(|s: String| s@),
{
    let mut out: Vec<String> = Vec::new();
    let mut i: usize = 0;
    while i < p.len()
        invariant
            0 <= i <= p@.len(),
            out@.len() == i,
            forall|j: int| 0 <= j < i ==> (#[trigger] out@[j])@ == p@[j]@,
        decreases p@.len() - i,
    {
        out.push(p[i].clone());
        i = i + 1;
    }
    proof {
        assert(out@.map_values(|s: String| s@) =~= p@.map_values(|s: String| s@));
    }
    out
}

fn clone_bytes(b: &Vec<u8>) -> (r: Vec<u8>)
    ensures
        r@ == b@,
{
    let mut out: Vec<u8> = Vec::new();
    let mut i: usize = 0;
    while i < b.len()
        invariant
            0 <= i <= b@.len(),
            out@.len() == i,
            forall|j: int| 0 <= j < i ==> out@[j] == b@[j],
        decreases b@.len() - i,
    {
        out.push(b[i]);
        i = i + 1;
    }
    proof {
        assert(out@ =~= b@);
    }
    out
}

impl Clone for DirEntry {
    fn clone(&self) -> (r: Self)
        ensures
            r@ == self@,
    {
        DirEntry { path: clone_path(&self.path), data: clone_bytes(&self.data) }
    }
}

/// A directory's files; directories themselves are implicit in the entries'
/// leading path components.
#[derive(Debug, PartialEq)]
pub struct DirImage {
    pub entries: Vec<DirEntry>,
}

impl View for DirImage {
    type V = Seq<DirEntryModel>;

    open spec fn view(&self) -> Seq<DirEntryModel> {
        self.entries@.map_values(|e: DirEntry| e@)
    }
}

/// The database file's name inside the data directory.
pub fn db_file_name() -> (r: &'static str)
    ensures
        r@ == "rtodo.db"@,
{
    "rtodo.db"
}

/// The attachments subdirectory's name inside the data directory.
pub fn attachments_dir_name() -> (r: &'static str)
    ensures
        r@ == "attachments"@,
{
    "attachments"
}

/// Whether this entry is the database file.
pub open spec fn is_db_entry(e: DirEntryModel) -> bool {
    e.path.len() == 1 && e.path[0] == "rtodo.db"@
}

/// Whether this entry lies inside the attachments subtree.
pub open spec fn is_attachment_entry(e: DirEntryModel) -> bool {
    e.path.len() >= 2 && e.path[0] == "attachments"@
}

/// The bytes of the first database entry of the image, if any.
pub open spec fn find_db(d: Seq<DirEntryModel>) -> Option<Seq<u8>>
    decreases d.len(),
{
    if d.len() == 0 {
        None
    } else if is_db_entry(d.first()) {
        Some(d.first().data)
    } else {
        find_db(d.drop_first())
    }
}

/// The attachment entries of the image, in order.
pub open spec fn attachment_entries(d: Seq<DirEntryModel>) -> Seq<DirEntryModel>
    decreases d.len(),
{
    if d.len() == 0 {
        Seq::empty()
    } else if is_attachment_entry(d.first()) {
        seq![d.first()] + attachment_entries(d.drop_first())
    } else {
        attachment_entries(d.drop_first())
    }
}

/// What the staging directory holds once assembled: a consistent snapshot of
/// the database (the online-safe copy of its bytes) followed by the
/// attachment files.
pub open spec fn snapshot(d: Seq<DirEntryModel>) -> Seq<DirEntryModel>
    recommends
        find_db(d) is Some,
{
    seq![DirEntryModel { path: seq!["rtodo.db"@], data: find_db(d)->0 }] + attachment_entries(d)
}

/// The OS housekeeping files whose presence still counts a directory as
/// empty.
pub open spec fn is_system_name(s: Seq<char>) -> bool {
    ||| s == "desktop.ini"@
    ||| s == "Thumbs.db"@
    ||| s == ".DS_Store"@
    ||| s == ".Spotlight-V100"@
    ||| s == ".Trashes"@
    ||| s == "$RECYCLE.BIN"@
    ||| s == "System Volume Information"@
}

/// Whether a directory-entry name is OS housekeeping.
pub fn is_system_file_name(s: &str) -> (r: bool)
    ensures
        r == is_system_name(s@),
{
    str_eq(s, "desktop.ini") || str_eq(s, "Thumbs.db") || str_eq(s, ".DS_Store") || str_eq(
        s,
        ".Spotlight-V100",
    ) || str_eq(s, ".Trashes") || str_eq(s, "$RECYCLE.BIN") || str_eq(
        s,
        "System Volume Information",
    )
}

/// Whether an image holds nothing but OS housekeeping files, so clearing it
/// destroys no user data.
pub open spec fn all_system_entries(d: Seq<DirEntryModel>) -> bool {
    forall|i: int|
        0 <= i < d.len() ==> (#[trigger] d[i]).path.len() > 0 && is_system_name(d[i].path[0])
}

fn entries_all_system(d: &DirImage) -> (r: bool)
    ensures
        r == all_system_entries(d@),
{
    let n = d.entries.len();
    let mut i: usize = 0;
    while i < n
        invariant
            0 <= i <= n,
            n == d.entries@.len(),
            forall|j: int|
                0 <= j < i ==> (#[trigger] d@[j]).path.len() > 0 && is_system_name(d@[j].path[0]),
        decreases n - i,
    {
        let e = &d.entries[i];
        let ok = e.path.len() > 0 && is_system_file_name(e.path[0].as_str());
        if !ok {
            proof {
                assert(!((#[trigger] d@[i as int]).path.len() > 0 && is_system_name(
                    d@[i as int].path[0],
                )));
            }
            return false;
        }
        i = i + 1;
    }
    true
}

fn find_db_file(d: &DirImage) -> (r: Option<Vec<u8>>)
    ensures
        match r {
            Some(b) => find_db(d@) == Some(b@),
            None => find_db(d@) is None,
        },
{
    let ghost dm = d@;
    let n = d.entries.len();
    proof {
        assert(dm.skip(0) =~= dm);
    }
    let mut i: usize = 0;
    while i < n
        invariant
            0 <= i <= n,
            n == d.entries@.len(),
            dm == d@,
            find_db(dm) == find_db(dm.skip(i as int)),
        decreases n - i,
    {
        let ghost rest = dm.skip(i as int);
        proof {
            assert(rest.first() == dm[i as int]);
            assert(rest.drop_first() =~= dm.skip(i as int + 1));
        }
        let e = &d.entries[i];
        let hit = e.path.len() == 1 && str_eq(e.path[0].as_str(), "rtodo.db");
        if hit {
            proof {
                assert(is_db_entry(dm[i as int]));
            }
            return Some(clone_bytes(&e.data));
        }
        proof {
            assert(!is_db_entry(dm[i as int]));
        }
        i = i + 1;
    }
    proof {
        assert(dm.skip(n as int) =~= Seq::<DirEntryModel>::empty());
    }
    None
}

fn collect_attachments(d: &DirImage) -> (r: Vec<DirEntry>)
    ensures
        r@.map_values(|e: DirEntry| e@) == attachment_entries(d@),
{
    let ghost dm = d@;
    let n = d.entries.len();
    let mut out: Vec<DirEntry> = Vec::new();
    proof {
        assert(dm.skip(0) =~= dm);
        assert(out@.map_values(|e: DirEntry| e@) =~= Seq::<DirEntryModel>::empty());
        assert(Seq::<DirEntryModel>::empty() + attachment_entries(dm) =~= attachment_entries(dm));
    }
    let mut i: usize = 0;
    while i < n
        invariant
            0 <= i <= n,
            n == d.entries@.len(),
            dm == d@,
            attachment_entries(dm) == out@.map_values(|e: DirEntry| e@) + attachment_entries(
                dm.skip(i as int),
            ),
        decreases n - i,
    {
        let ghost out_m = out@.map_values(|e: DirEntry| e@);
        let ghost rest = dm.skip(i as int);
        proof {
            assert(rest.first() == dm[i as int]);
            assert(rest.drop_first() =~= dm.skip(i as int + 1));
        }
        let e = &d.entries[i];
        let hit = e.path.len() >= 2 && str_eq(e.path[0].as_str(), "attachments");
        if hit {
            proof {
                assert(is_attachment_entry(dm[i as int]));
            }
            let copy = e.clone();
            proof {
                assert(out_m + (seq![dm[i as int]] + attachment_entries(dm.skip(i as int + 1)))
                    =~= out_m.push(dm[i as int]) + attachment_entries(dm.skip(i as int + 1)));
                assert(out@.push(copy).map_values(|e: DirEntry| e@) =~= out_m.push(dm[i as int]));
            }
            out.push(copy);
        } else {
            proof {
                assert(!is_attachment_entry(dm[i as int]));
            }
        }
        i = i + 1;
    }
    proof {
        assert(dm.skip(n as int) =~= Seq::<DirEntryModel>::empty());
        assert(out@.map_values(|e: DirEntry| e@) + Seq::<DirEntryModel>::empty() =~= out@.map_values(
            |e: DirEntry| e@,
        ));
    }
    out
}

/// The protocol's stages, in the order they are entered; each entered stage
/// is reported to the observer.
#[derive(Debug, Clone, Copy, PartialEq, Eq, Structural)]
pub enum RelocationStage {
    Started,
    CopyingDb,
    CopyingAttachments,
    Validating,
    Finalizing,
    Cleaning,
    Completed,
}

impl RelocationStage {
    /// The status tag reported with this stage's progress notification.
    pub fn tag(&self) -> (r: &'static str)
        ensures
            *self == RelocationStage::Started ==> r@ == "started"@,
            *self == RelocationStage::CopyingDb ==> r@ == "copying_db"@,
            *self == RelocationStage::CopyingAttachments ==> r@ == "copying_attachments"@,
            *self == RelocationStage::Validating ==> r@ == "validating"@,
            *self == RelocationStage::Finalizing ==> r@ == "finalizing"@,
            *self == RelocationStage::Cleaning ==> r@ == "cleaning"@,
            *self == RelocationStage::Completed ==> r@ == "completed"@,
    {
        match self {
            RelocationStage::Started => "started",
            RelocationStage::CopyingDb => "copying_db",
            RelocationStage::CopyingAttachments => "copying_attachments",
            RelocationStage::Validating => "validating",
            RelocationStage::Finalizing => "finalizing",
            RelocationStage::Cleaning => "cleaning",
            RelocationStage::Completed => "completed",
        }
    }
}

/// Why a relocation stopped, tagged so the caller can tell "nothing
/// happened" from "partially happened".
#[derive(Debug, Clone, Copy, PartialEq, Eq, Structural)]
pub enum RelocationError {
    /// The target path equals the current data directory; a no-op relocation
    /// is rejected as user error.
    SameTargetPath,
    /// The source database file does not exist.
    DatabaseMissing,
    /// The online-safe database copy into staging failed.
    CopyDbFailed,
    /// Copying the attachments subtree into staging failed.
    CopyAttachmentsFailed,
    /// The staged copy could not be opened as a well-formed database.
    ValidateFailed,
    /// Moving staging into the destination failed for a reason other than
    /// crossing devices; staging is kept for manual recovery.
    MoveFailed,
}

/// The stage a given error is reported under.
pub open spec fn error_stage(e: RelocationError) -> RelocationStage {
    match e {
        RelocationError::SameTargetPath => RelocationStage::Started,
        RelocationError::DatabaseMissing => RelocationStage::CopyingDb,
        RelocationError::CopyDbFailed => RelocationStage::CopyingDb,
        RelocationError::CopyAttachmentsFailed => RelocationStage::CopyingAttachments,
        RelocationError::ValidateFailed => RelocationStage::Validating,
        RelocationError::MoveFailed => RelocationStage::Finalizing,
    }
}

impl RelocationError {
    /// Exec form of [`error_stage`].
    pub fn stage(&self) -> (r: RelocationStage)
        ensures
            r == error_stage(*self),
    {
        match self {
            RelocationError::SameTargetPath => RelocationStage::Started,
            RelocationError::DatabaseMissing => RelocationStage::CopyingDb,
            RelocationError::CopyDbFailed => RelocationStage::CopyingDb,
            RelocationError::CopyAttachmentsFailed => RelocationStage::CopyingAttachments,
            RelocationError::ValidateFailed => RelocationStage::Validating,
            RelocationError::MoveFailed => RelocationStage::Finalizing,
        }
    }
}

/// Which I/O operations fail during a run. The caller reports the outcomes
/// of its real filesystem work through this record; tests inject failures
/// with it. `rename_cross_device` is not a failure of the protocol: it
/// triggers the copy-then-delete fallback.
#[derive(Debug, Clone, Copy, PartialEq, Eq, Structural)]
pub struct FaultPlan {
    pub copy_db_fails: bool,
    pub copy_attachments_fails: bool,
    pub validate_fails: bool,
    pub rename_cross_device: bool,
    pub rename_fails: bool,
}

impl FaultPlan {
    /// A run in which every operation succeeds and the rename stays on one
    /// device.
    pub fn none() -> (r: FaultPlan)
        ensures
            r == (FaultPlan {
                copy_db_fails: false,
                copy_attachments_fails: false,
                validate_fails: false,
                rename_cross_device: false,
                rename_fails: false,
            }),
    {
        FaultPlan {
            copy_db_fails: false,
            copy_attachments_fails: false,
            validate_fails: false,
            rename_cross_device: false,
            rename_fails: false,
        }
    }
}

/// The four filesystem locations the protocol touches; `None` means the
/// directory does not exist.
#[derive(Debug, PartialEq)]
pub struct RelocationWorld {
    pub source: Option<DirImage>,
    pub staging: Option<DirImage>,
    pub dest: Option<DirImage>,
    pub dest_backup: Option<DirImage>,
}

pub struct WorldModel {
    pub source: Option<Seq<DirEntryModel>>,
    pub staging: Option<Seq<DirEntryModel>>,
    pub dest: Option<Seq<DirEntryModel>>,
    pub dest_backup: Option<Seq<DirEntryModel>>,
}

/// The view of an optional directory image.
pub open spec fn opt_dir_view(o: Option<DirImage>) -> Option<Seq<DirEntryModel>> {
    match o {
        Some(d) => Some(d@),
        None => None,
    }
}

impl View for RelocationWorld {
    type V = WorldModel;

    open spec fn view(&self) -> WorldModel {
        WorldModel {
            source: opt_dir_view(self.source),
            staging: opt_dir_view(self.staging),
            dest: opt_dir_view(self.dest),
            dest_backup: opt_dir_view(self.dest_backup),
        }
    }
}

/// The files of the source directory, none when it does not exist.
pub open spec fn source_files(w: WorldModel) -> Seq<DirEntryModel> {
    match w.source {
        Some(d) => d,
        None => Seq::empty(),
    }
}

/// The record of one run: the final state of the four locations, the stages
/// entered in order, and the result (`Ok` carries whether the original data
/// was retained).
pub struct RelocationRun {
    pub world: RelocationWorld,
    pub events: Vec<RelocationStage>,
    pub result: Result<bool, RelocationError>,
}

pub struct RunModel {
    pub world: WorldModel,
    pub events: Seq<RelocationStage>,
    pub result: Result<bool, RelocationError>,
}

impl View for RelocationRun {
    type V = RunModel;

    open spec fn view(&self) -> RunModel {
        RunModel { world: self.world@, events: self.events@, result: self.result }
    }
}

/// The whole protocol over the model: what one relocation attempt does to
/// the four locations, stage by stage.
pub open spec fn relocate_model(
    w: WorldModel,
    target_is_current: bool,
    keep_original: bool,
    f: FaultPlan,
) -> RunModel {
    let ev = seq![RelocationStage::Started];
    if target_is_current {
        RunModel { world: w, events: ev, result: Err(RelocationError::SameTargetPath) }
    } else {
        // Stale staging is cleared and a fresh staging directory created.
        let src = source_files(w);
        let ev = ev + seq![RelocationStage::CopyingDb];
        if find_db(src) is None {
            RunModel {
                world: WorldModel { staging: None, ..w },
                events: ev,
                result: Err(RelocationError::DatabaseMissing),
            }
        } else if f.copy_db_fails {
            RunModel {
                world: WorldModel { staging: None, ..w },
                events: ev,
                result: Err(RelocationError::CopyDbFailed),
            }
        } else {
            let staged = snapshot(src);
            let ev = if attachment_entries(src).len() > 0 {
                ev + seq![RelocationStage::CopyingAttachments]
            } else {
                ev
            };
            if attachment_entries(src).len() > 0 && f.copy_attachments_fails {
                RunModel {
                    world: WorldModel { staging: None, ..w },
                    events: ev,
                    result: Err(RelocationError::CopyAttachmentsFailed),
                }
            } else {
                let ev = ev + seq![RelocationStage::Validating];
                if f.validate_fails {
                    RunModel {
                        world: WorldModel { staging: None, ..w },
                        events: ev,
                        result: Err(RelocationError::ValidateFailed),
                    }
                } else {
                    let ev = ev + seq![RelocationStage::Finalizing];
                    // Clear the destination: delete it when it holds nothing of
                    // the user's, rename it aside otherwise.
                    let backup = match w.dest {
                        Some(ddir) => if ddir.len() == 0 || all_system_entries(ddir) {
                            w.dest_backup
                        } else {
                            Some(ddir)
                        },
                        None => w.dest_backup,
                    };
                    if f.rename_fails && !f.rename_cross_device {
                        RunModel {
                            world: WorldModel {
                                staging: Some(staged),
                                dest: None,
                                dest_backup: backup,
                                ..w
                            },
                            events: ev,
                            result: Err(RelocationError::MoveFailed),
                        }
                    } else {
                        // Plain rename, or the copy-then-delete fallback when
                        // the rename crossed devices: the same end state.
                        let moved = WorldModel {
                            staging: None,
                            dest: Some(staged),
                            dest_backup: backup,
                            ..w
                        };
                        if keep_original {
                            RunModel {
                                world: moved,
                                events: ev + seq![RelocationStage::Completed],
                                result: Ok(true),
                            }
                        } else {
                            RunModel {
                                world: WorldModel { source: None, dest_backup: None, ..moved },
                                events: ev + seq![
                                    RelocationStage::Cleaning,
                                    RelocationStage::Completed,
                                ],
                                result: Ok(false),
                            }
                        }
                    }
                }
            }
        }
    }
}

/// One relocation attempt over the model world. `target_is_current` is the
/// caller's comparison of the resolved current and target paths; `faults`
/// carries the outcomes of the individual filesystem operations (reported by
/// the caller's glue, or injected by a test). The run records the final
/// state of the four locations, every stage entered, and the result.
pub fn migrate_data(
    w: RelocationWorld,
    target_is_current: bool,
    keep_original: bool,
    faults: FaultPlan,
) -> (r: RelocationRun)
    ensures
        r@ == relocate_model(w@, target_is_current, keep_original, faults),
{
    let ghost wm = w@;
    let mut events: Vec<RelocationStage> = Vec::new();
    events.push(RelocationStage::Started);
    proof {
        assert(events@ =~= seq![RelocationStage::Started]);
    }
    if target_is_current {
        return RelocationRun { world: w, events, result: Err(RelocationError::SameTargetPath) };
    }
    let RelocationWorld { source, staging: _, dest, dest_backup } = w;
    events.push(RelocationStage::CopyingDb);
    proof {
        assert(events@ =~= seq![RelocationStage::Started] + seq![RelocationStage::CopyingDb]);
    }
    let ghost src = source_files(wm);
    let (db_bytes, atts) = match &source {
        Some(dir) => (find_db_file(dir), collect_attachments(dir)),
        None => (None, Vec::new()),
    };
    proof {
        if source is None {
            assert(attachment_entries(src) =~= Seq::<DirEntryModel>::empty());
        }
    }
    let db_bytes = match db_bytes {
        None => {
            return RelocationRun {
                world: RelocationWorld { source, staging: None, dest, dest_backup },
                events,
                result: Err(RelocationError::DatabaseMissing),
            };
        },
        Some(b) => b,
    };
    if faults.copy_db_fails {
        return RelocationRun {
            world: RelocationWorld { source, staging: None, dest, dest_backup },
            events,
            result: Err(RelocationError::CopyDbFailed),
        };
    }
    let has_atts = atts.len() > 0;
    let mut staged_entries: Vec<DirEntry> = Vec::new();
    let mut db_path: Vec<String> = Vec::new();
    db_path.push(String::from_str(db_file_name()));
    let db_entry = DirEntry { path: db_path, data: db_bytes };
    proof {
        assert(db_entry@.path =~= seq!["rtodo.db"@]);
        assert(db_entry@ == DirEntryModel { path: seq!["rtodo.db"@], data: find_db(src)->0 });
    }
    staged_entries.push(db_entry);
    let mut atts = atts;
    staged_entries.append(&mut atts);
    let staged = DirImage { entries: staged_entries };
    proof {
        assert(staged@ =~= snapshot(src));
    }
    if has_atts {
        events.push(RelocationStage::CopyingAttachments);
        proof {
            assert(events@ =~= (seq![RelocationStage::Started] + seq![RelocationStage::CopyingDb])
                + seq![RelocationStage::CopyingAttachments]);
        }
        if faults.copy_attachments_fails {
            return RelocationRun {
                world: RelocationWorld { source, staging: None, dest, dest_backup },
                events,
                result: Err(RelocationError::CopyAttachmentsFailed),
            };
        }
    }
    let ghost ev_after_copy = events@;
    events.push(RelocationStage::Validating);
    proof {
        assert(events@ =~= ev_after_copy + seq![RelocationStage::Validating]);
    }
    if faults.validate_fails {
        return RelocationRun {
            world: RelocationWorld { source, staging: None, dest, dest_backup },
            events,
            result: Err(RelocationError::ValidateFailed),
        };
    }
    let ghost ev_after_validate = events@;
    events.push(RelocationStage::Finalizing);
    proof {
        assert(events@ =~= ev_after_validate + seq![RelocationStage::Finalizing]);
    }
    let backup: Option<DirImage> = match dest {
        Some(ddir) => {
            let clearable = ddir.entries.len() == 0 || entries_all_system(&ddir);
            if clearable {
                dest_backup
            } else {
                Some(ddir)
            }
        },
        None => dest_backup,
    };
    if faults.rename_fails && !faults.rename_cross_device {
        return RelocationRun {
            world: RelocationWorld {
                source,
                staging: Some(staged),
                dest: None,
                dest_backup: backup,
            },
            events,
            result: Err(RelocationError::MoveFailed),
        };
    }
    let ghost ev_after_finalize = events@;
    if keep_original {
        events.push(RelocationStage::Completed);
        proof {
            assert(events@ =~= ev_after_finalize + seq![RelocationStage::Completed]);
        }
        RelocationRun {
            world: RelocationWorld {
                source,
                staging: None,
                dest: Some(staged),
                dest_backup: backup,
            },
            events,
            result: Ok(true),
        }
    } else {
        events.push(RelocationStage::Cleaning);
        events.push(RelocationStage::Completed);
        proof {
            assert(events@ =~= ev_after_finalize + seq![
                RelocationStage::Cleaning,
                RelocationStage::Completed,
            ]);
        }
        RelocationRun {
            world: RelocationWorld {
                source: None,
                staging: None,
                dest: Some(staged),
                dest_backup: None,
            },
            events,
            result: Ok(false),
        }
    }
}

// ---------------------------------------------------------------------------
// Laws of the protocol
// ---------------------------------------------------------------------------
/// Cross-device fallback transparency: when the rename into place cannot be
/// used and the protocol falls back to copy-then-delete, the final
/// locations, the emitted stages and the result are exactly those of the
/// plain rename.
pub proof fn lemma_cross_device_fallback_equivalent(
    w: WorldModel,
    target_is_current: bool,
    keep_original: bool,
    f: FaultPlan,
)
    ensures
        relocate_model(
            w,
            target_is_current,
            keep_original,
            FaultPlan { rename_cross_device: true, ..f },
        ) == relocate_model(
            w,
            target_is_current,
            keep_original,
            FaultPlan { rename_cross_device: false, rename_fails: false, ..f },
        ),
{
}

/// A successful cross-device relocation leaves the destination holding
/// exactly the staged snapshot, with the staging directory gone.
pub proof fn lemma_cross_device_success_state(w: WorldModel, keep_original: bool, f: FaultPlan)
    requires
        f.rename_cross_device,
        relocate_model(w, false, keep_original, f).result is Ok,
    ensures
        relocate_model(w, false, keep_original, f).world.dest == Some(snapshot(source_files(w))),
        relocate_model(w, false, keep_original, f).world.staging is None,
{
}

/// A failure while copying the database, copying the attachments or
/// validating leaves the source, the destination and the destination's
/// backup exactly as they were, with the staging directory removed.
pub proof fn lemma_failure_non_destructive(
    w: WorldModel,
    target_is_current: bool,
    keep_original: bool,
    f: FaultPlan,
)
    ensures
        ({
            let m = relocate_model(w, target_is_current, keep_original, f);
            m.result matches Err(e) && e != RelocationError::SameTargetPath && e
                != RelocationError::MoveFailed ==> m.world.source == w.source && m.world.dest
                == w.dest && m.world.dest_backup == w.dest_backup && m.world.staging is None
        }),
{
}

/// A rejected no-op relocation (target equals current) changes nothing.
pub proof fn lemma_same_path_rejected(w: WorldModel, keep_original: bool, f: FaultPlan)
    ensures
        relocate_model(w, true, keep_original, f).world == w,
        relocate_model(w, true, keep_original, f).result == Err::<bool, RelocationError>(
            RelocationError::SameTargetPath,
        ),
{
}

/// After a failed move into the destination the source is untouched and the
/// staging directory still holds the complete snapshot, kept for manual
/// recovery.
pub proof fn lemma_move_failure_keeps_staging(
    w: WorldModel,
    target_is_current: bool,
    keep_original: bool,
    f: FaultPlan,
)
    ensures
        ({
            let m = relocate_model(w, target_is_current, keep_original, f);
            m.result == Err::<bool, RelocationError>(RelocationError::MoveFailed)
                ==> m.world.source == w.source && m.world.staging == Some(
                snapshot(source_files(w)),
            ) && m.world.dest is None
        }),
{
}

/// A successful run leaves the destination holding the snapshot of the
/// source and no staging directory; with `keep_original` the source and any
/// backup are kept, without it they are gone.
pub proof fn lemma_success_state(
    w: WorldModel,
    target_is_current: bool,
    keep_original: bool,
    f: FaultPlan,
)
    ensures
        ({
            let m = relocate_model(w, target_is_current, keep_original, f);
            m.result is Ok ==> {
                &&& m.world.dest == Some(snapshot(source_files(w)))
                &&& m.world.staging is None
                &&& m.result == Ok::<bool, RelocationError>(keep_original)
                &&& (keep_original ==> m.world.source == w.source)
                &&& (!keep_original ==> m.world.source is None && m.world.dest_backup is None)
            }
        }),
{
}

} // verus!
