//! The anonymous-survey bookkeeping: where its state lives, how it is read back and
//! written safely, and what a submission records.
use vstd::prelude::*;
use crate::text::{chars_of, push_decimal, push_str, decimal};

verus! {

/// What the survey remembers between runs.
#[derive(Clone, Copy, Debug, PartialEq, Eq, Structural)]
pub struct SurveyState {
    pub has_opted_in: bool,
    pub last_submitted_epoch: u64,
    pub last_score: u32,
}

/// The state before anything was ever saved: not opted in, nothing submitted.
pub open spec fn empty_state() -> SurveyState {
    SurveyState { has_opted_in: false, last_submitted_epoch: 0, last_score: 0 }
}

impl Default for SurveyState {
    fn default() -> (r: Self)
        ensures
            r == empty_state(),
    {
        SurveyState { has_opted_in: false, last_submitted_epoch: 0, last_score: 0 }
    }
}

// ---------------------------------------------------------------- Where the state lives

/// `base` joined with the relative path `rel`, as `PathBuf::join` does on Unix: a `/` is
/// put between them unless `base` already ends with one.
pub open spec fn join_path(base: Seq<char>, rel: Seq<char>) -> Seq<char> {
    if base.len() > 0 && base.last() == '/' {
        base + rel
    } else {
        base + "/"@ + rel
    }
}

/// The state file's path, from `$XDG_STATE_HOME` and `$HOME` (each `None` when unset or
/// not valid Unicode): under a non-empty `$XDG_STATE_HOME`, else under a non-empty `$HOME`,
/// else a fixed path in `/var/empty`.
pub open spec fn survey_state_path(state_home: Option<Seq<char>>, home: Option<Seq<char>>) -> Seq<
    char,
> {
    if state_home is Some && state_home->0.len() > 0 {
        join_path(state_home->0, "omarank/survey_state.json"@)
    } else if home is Some && home->0.len() > 0 {
        join_path(home->0, ".local/state/omarank/survey_state.json"@)
    } else {
        "/var/empty/omarank_state.json"@
    }
}

fn join(base: &str, rel: &str) -> (r: String)
    ensures
        r@ == join_path(base@, rel@),
{
    let b = chars_of(base);
    let mut r = String::new();
    push_str(&mut r, base);
    if !(b.len() > 0 && b[b.len() - 1] == '/') {
        r.push('/');
    }
    push_str(&mut r, rel);
    proof {
        reveal_strlit("/");
    }
    assert(r@ =~= join_path(base@, rel@));
    r
}

/// The path of the survey state file, given the values of `$XDG_STATE_HOME` and `$HOME`.
pub fn get_survey_state_path(state_home: Option<&str>, home: Option<&str>) -> (r: String)
    ensures
        r@ == survey_state_path(
            match state_home {
                Some(s) => Some(s@),
                None => None,
            },
            match home {
                Some(s) => Some(s@),
                None => None,
            },
        ),
{
    if let Some(s) = state_home {
        if !s.is_empty() {
            return join(s, "omarank/survey_state.json");
        }
    }
    if let Some(h) = home {
        if !h.is_empty() {
            return join(h, ".local/state/omarank/survey_state.json");
        }
    }
    "/var/empty/omarank_state.json".to_owned()
}

// ---------------------------------------------------------------- Submitting

/// The state after a submission at `epoch` of a machine scoring `score`.
pub open spec fn submitted_state(prev: SurveyState, epoch: u64, score: u32) -> SurveyState {
    SurveyState { has_opted_in: true, last_submitted_epoch: epoch, last_score: score }
}

/// Records a submission: the user has opted in, and the time and score are remembered.
pub fn record_submission(prev: SurveyState, epoch: u64, score: u32) -> (r: SurveyState)
    ensures
        r == submitted_state(prev, epoch, score),
{
    let mut s = prev;
    s.has_opted_in = true;
    s.last_submitted_epoch = epoch;
    s.last_score = score;
    s
}

/// The message shown after a submission, depending on whether a server answered.
pub open spec fn submission_message_text(delivered: bool) -> Seq<char> {
    if delivered {
        "Successfully submitted anonymous hardware profile to OmaStat survey!"@
    } else {
        "✓ Profile saved locally (Awaiting OmaStat community server deployment)"@
    }
}

/// The outcome reported after a submission: it always counts as done, because the
/// profile is kept locally when no server answers.
pub fn submission_outcome(delivered: bool) -> (r: (bool, String))
    ensures
        r.0,
        r.1@ == submission_message_text(delivered),
{
    if delivered {
        (true, "Successfully submitted anonymous hardware profile to OmaStat survey!".to_owned())
    } else {
        (true, "✓ Profile saved locally (Awaiting OmaStat community server deployment)".to_owned())
    }
}

/// The name of a staging file: `.tmp_survey_state_<pid>_<nanos>_<seq>.json`.
pub open spec fn staging_name(pid: nat, nanos: nat, seq: nat) -> Seq<char> {
    ".tmp_survey_state_"@ + decimal(pid) + "_"@ + decimal(nanos) + "_"@ + decimal(seq) + ".json"@
}

/// The file name of a staging file made by process `pid` at `nanos` nanoseconds after the
/// Unix epoch, as the `seq`-th staging attempt of the process.
pub fn staging_file_name(pid: u32, nanos: u128, seq: u64) -> (r: String)
    ensures
        r@ == staging_name(pid as nat, nanos as nat, seq as nat),
{
    let mut r = String::new();
    push_str(&mut r, ".tmp_survey_state_");
    push_decimal(&mut r, pid as u128);
    push_str(&mut r, "_");
    push_decimal(&mut r, nanos);
    push_str(&mut r, "_");
    push_decimal(&mut r, seq as u128);
    push_str(&mut r, ".json");
    r
}


// ---------------------------------------------------------------- File facts

/// What `lstat` (or `fstat` on an open file) says of a path.
#[derive(Clone, Copy, Debug, PartialEq, Eq, Structural)]
pub struct FileFacts {
    pub is_symlink: bool,
    pub is_file: bool,
    pub is_dir: bool,
    pub uid: u32,
    pub len: u64,
}

/// A regular file, not a symbolic link, owned by `uid`.
pub open spec fn owned_regular_file(f: FileFacts, uid: u32) -> bool {
    !f.is_symlink && f.is_file && f.uid == uid
}

/// A directory, not a symbolic link, owned by `uid`.
pub open spec fn owned_real_dir(f: FileFacts, uid: u32) -> bool {
    !f.is_symlink && f.is_dir && f.uid == uid
}

/// The most bytes of the state file that are read.
pub const READ_LIMIT: u64 = 65536;

// ---------------------------------------------------------------- Loading

/// What the caller observed after carrying out the last load action.
pub enum LoadEvent {
    /// Loading starts.
    Begin,
    /// `lstat` of the state path: `None` when it failed.
    PathInspected(Option<FileFacts>),
    /// The path opened for reading without following a final symbolic link, and `fstat`
    /// of the open file: `None` when either failed.
    Opened(Option<FileFacts>),
    /// The open file read to the end, at most `READ_LIMIT` bytes: `None` when reading
    /// failed or the bytes were not UTF-8.
    Read(Option<String>),
    /// The text decoded as a saved state: `None` when it was not one.
    Decoded(Option<SurveyState>),
}

/// What the caller is to do next.
pub enum LoadAction {
    /// `lstat` the state path.
    InspectPath,
    /// Open the state path for reading with `O_NOFOLLOW`, then `fstat` the open file.
    OpenNoFollow,
    /// Read at most this many bytes from the open file as UTF-8 text.
    ReadAtMost(u64),
    /// Decode this text as a saved state.
    Decode(String),
    /// Loading is over; this is the state.
    Finish(SurveyState),
}

/// Where a load stands. The phases after the path check keep the facts that passed.
pub enum LoadPhase {
    Start,
    Inspecting,
    Opening { path: FileFacts },
    Reading { path: FileFacts, file: FileFacts },
    Decoding { path: FileFacts, file: FileFacts },
    Done,
}

/// A load of the survey state by the user with id `uid`.
pub struct SurveyLoad {
    pub uid: u32,
    pub phase: LoadPhase,
}

/// The open file is a regular file owned by `uid`.
pub open spec fn owned_open_file(f: FileFacts, uid: u32) -> bool {
    f.is_file && f.uid == uid
}

/// One step of a load: the next phase and action after `event` in `phase`. Any failure,
/// any check that does not pass and any event out of turn ends it with the empty state.
pub open spec fn load_next(uid: u32, phase: LoadPhase, event: LoadEvent) -> (LoadPhase, LoadAction) {
    match (phase, event) {
        (LoadPhase::Start, LoadEvent::Begin) => (LoadPhase::Inspecting, LoadAction::InspectPath),
        (LoadPhase::Inspecting, LoadEvent::PathInspected(Some(f))) => if owned_regular_file(f, uid) {
            (LoadPhase::Opening { path: f }, LoadAction::OpenNoFollow)
        } else {
            (LoadPhase::Done, LoadAction::Finish(empty_state()))
        },
        (LoadPhase::Opening { path }, LoadEvent::Opened(Some(g))) => if owned_open_file(g, uid) {
            (LoadPhase::Reading { path, file: g }, LoadAction::ReadAtMost(READ_LIMIT))
        } else {
            (LoadPhase::Done, LoadAction::Finish(empty_state()))
        },
        (LoadPhase::Reading { path, file }, LoadEvent::Read(Some(text))) => (
            LoadPhase::Decoding { path, file },
            LoadAction::Decode(text),
        ),
        (LoadPhase::Decoding { .. }, LoadEvent::Decoded(Some(s))) => (
            LoadPhase::Done,
            LoadAction::Finish(s),
        ),
        _ => (LoadPhase::Done, LoadAction::Finish(empty_state())),
    }
}

impl SurveyLoad {
    /// A load about to begin, for the user with id `uid`.
    pub fn new(uid: u32) -> (r: SurveyLoad)
        ensures
            r.uid == uid,
            r.phase == LoadPhase::Start,
    {
        SurveyLoad { uid, phase: LoadPhase::Start }
    }
}

/// Advances the loading of the survey state by one observed event and says what to do
/// next. A state other than the empty one comes back only from a path that is a regular
/// file, not a symbolic link, owned by the user, opened without following links, whose
/// open handle is again a regular file owned by the user.
pub fn load_survey_state(machine: &mut SurveyLoad, event: LoadEvent) -> (r: LoadAction)
    ensures
        final(machine).uid == old(machine).uid,
        (final(machine).phase, r) == load_next(old(machine).uid, old(machine).phase, event),
{
    let uid = machine.uid;
    let mut phase = LoadPhase::Done;
    std::mem::swap(&mut phase, &mut machine.phase);
    let (next, action) = match (phase, event) {
        (LoadPhase::Start, LoadEvent::Begin) => (LoadPhase::Inspecting, LoadAction::InspectPath),
        (LoadPhase::Inspecting, LoadEvent::PathInspected(Some(f))) => {
            if !f.is_symlink && f.is_file && f.uid == uid {
                (LoadPhase::Opening { path: f }, LoadAction::OpenNoFollow)
            } else {
                (LoadPhase::Done, LoadAction::Finish(SurveyState::default()))
            }
        },
        (LoadPhase::Opening { path }, LoadEvent::Opened(Some(g))) => {
            if g.is_file && g.uid == uid {
                (LoadPhase::Reading { path, file: g }, LoadAction::ReadAtMost(READ_LIMIT))
            } else {
                (LoadPhase::Done, LoadAction::Finish(SurveyState::default()))
            }
        },
        (LoadPhase::Reading { path, file }, LoadEvent::Read(Some(text))) => (
            LoadPhase::Decoding { path, file },
            LoadAction::Decode(text),
        ),
        (LoadPhase::Decoding { .. }, LoadEvent::Decoded(Some(s))) => (
            LoadPhase::Done,
            LoadAction::Finish(s),
        ),
        _ => (LoadPhase::Done, LoadAction::Finish(SurveyState::default())),
    };
    machine.phase = next;
    action
}

/// The facts a load phase keeps have passed the checks.
pub open spec fn load_phase_ok(uid: u32, phase: LoadPhase) -> bool {
    match phase {
        LoadPhase::Opening { path } => owned_regular_file(path, uid),
        LoadPhase::Reading { path, file } => owned_regular_file(path, uid) && owned_open_file(
            file,
            uid,
        ),
        LoadPhase::Decoding { path, file } => owned_regular_file(path, uid) && owned_open_file(
            file,
            uid,
        ),
        _ => true,
    }
}

/// A load only ever trusts checked files: every step keeps the recorded facts checked,
/// and a load that ends with a state other than the empty one ends by decoding the text
/// of a file whose path was a regular, non-link file owned by the user and whose open
/// handle was a regular file owned by the user. A path that is a symbolic link, not a
/// regular file, or owned by someone else ends the load with the empty state.
pub proof fn law_load_trusts_only_checked_files(uid: u32, phase: LoadPhase, event: LoadEvent)
    requires
        load_phase_ok(uid, phase),
    ensures
        load_phase_ok(uid, LoadPhase::Start),
        load_phase_ok(uid, load_next(uid, phase, event).0),
        load_next(uid, phase, event).1 matches LoadAction::Finish(s) ==> (s == empty_state() || (
        phase matches LoadPhase::Decoding { path, file } && owned_regular_file(path, uid)
            && owned_open_file(file, uid) && event == LoadEvent::Decoded(Some(s)))),
        phase == LoadPhase::Inspecting ==> (event matches LoadEvent::PathInspected(Some(f)) ==> (
        !owned_regular_file(f, uid) ==> load_next(uid, phase, event).1 == LoadAction::Finish(
            empty_state(),
        ))),
{
}


// ---------------------------------------------------------------- Saving

/// The permissions of the state directory.
pub const DIR_MODE: u32 = 0o700;

/// The permissions of the state file and of its staging file.
pub const FILE_MODE: u32 = 0o600;

/// How many staging names are tried before saving gives up.
pub const STAGING_ATTEMPTS: u32 = 10;

/// How the exclusive creation of a staging file went.
#[derive(Clone, Copy, Debug, PartialEq, Eq, Structural)]
pub enum CreateOutcome {
    Created,
    AlreadyExists,
    Failed,
}

/// What the caller observed after carrying out the last save action.
pub enum SaveEvent {
    /// Saving starts.
    Begin,
    /// Whether the state path has a parent directory.
    ParentKnown(bool),
    /// Whether the parent directory exists.
    ParentExists(bool),
    /// Whether creating the parent directory (and its ancestors) succeeded.
    ParentCreated(bool),
    /// `lstat` of the parent directory: `None` when it failed.
    ParentInspected(Option<FileFacts>),
    /// An action whose outcome does not matter has been carried out.
    Done,
    /// `lstat` of the state path: `None` when it failed (for instance, no file yet).
    TargetInspected(Option<FileFacts>),
    /// The state encoded as JSON: `None` when encoding failed.
    Encoded(Option<String>),
    /// How creating the next staging file went.
    StagingCreated(CreateOutcome),
    /// Whether writing the whole text to the staging file succeeded.
    Written(bool),
    /// Whether flushing the staging file to disk succeeded.
    Synced(bool),
    /// `fstat` of the staging file: `None` when it failed.
    StagingInspected(Option<FileFacts>),
    /// Whether renaming the staging file over the state path succeeded.
    Renamed(bool),
}

/// What the caller is to do next.
pub enum SaveAction {
    /// Find the parent directory of the state path.
    LocateParent,
    /// Check whether the parent directory exists.
    CheckParentExists,
    /// Create the parent directory and its ancestors.
    CreateParent,
    /// `lstat` the parent directory.
    InspectParent,
    /// Set the parent directory's permissions (the outcome does not matter).
    SetParentMode(u32),
    /// `lstat` the state path.
    InspectTarget,
    /// Encode the state as pretty-printed JSON.
    Encode,
    /// Create a new staging file in the parent directory under a fresh name, exclusively
    /// (failing if the name exists) and without following symbolic links, with these
    /// permissions.
    CreateStaging(u32),
    /// Set the staging file's permissions (the outcome does not matter).
    SetStagingMode(u32),
    /// Write this text to the staging file.
    WriteStaging(String),
    /// Flush the staging file to disk.
    SyncStaging,
    /// `fstat` the staging file.
    InspectStaging,
    /// Close the staging file.
    CloseStaging,
    /// Rename the staging file over the state path.
    Rename,
    /// Set the state file's permissions (the outcome does not matter).
    SetTargetMode(u32),
    /// Remove the staging file (the outcome does not matter).
    RemoveStaging,
    /// Saving is over.
    Finish,
}

/// Where a save stands. From the parent check on, the phases keep the parent's facts,
/// and from the target check on the target's (`None` when it did not exist).
pub enum SavePhase {
    Start,
    Locating,
    CheckingParent,
    CreatingParent,
    InspectingParent,
    RestrictingParent { parent: FileFacts },
    InspectingTarget { parent: FileFacts },
    Encoding { parent: FileFacts, target: Option<FileFacts> },
    Creating { parent: FileFacts, target: Option<FileFacts>, json: String, tried: u32 },
    RestrictingStaging { parent: FileFacts, target: Option<FileFacts>, json: String },
    Writing { parent: FileFacts, target: Option<FileFacts>, len: u64 },
    Syncing { parent: FileFacts, target: Option<FileFacts>, len: u64 },
    InspectingStaging { parent: FileFacts, target: Option<FileFacts>, len: u64 },
    Closing { parent: FileFacts, target: Option<FileFacts>, len: u64 },
    Reinspecting { parent: FileFacts, target: Option<FileFacts>, len: u64 },
    Renaming { parent: FileFacts, target: Option<FileFacts>, len: u64 },
    RestrictingTarget,
    Removing,
    Done,
}

/// A save of the survey state by the user with id `uid`.
pub struct SurveySave {
    pub uid: u32,
    pub phase: SavePhase,
}

/// An existing state path may be replaced only when it is a regular file, not a link,
/// owned by `uid`.
pub open spec fn replaceable(target: Option<FileFacts>, uid: u32) -> bool {
    match target {
        Some(f) => owned_regular_file(f, uid),
        None => true,
    }
}

/// The phases in which a staging file exists under its staging name.
pub open spec fn holds_staging(phase: SavePhase) -> bool {
    ||| phase is RestrictingStaging
    ||| phase is Writing
    ||| phase is Syncing
    ||| phase is InspectingStaging
    ||| phase is Closing
    ||| phase is Reinspecting
    ||| phase is Renaming
}

/// The step taken on an event out of turn: a held staging file is removed first.
pub open spec fn save_abort(phase: SavePhase) -> (SavePhase, SaveAction) {
    if holds_staging(phase) {
        (SavePhase::Removing, SaveAction::RemoveStaging)
    } else {
        (SavePhase::Done, SaveAction::Finish)
    }
}

/// The byte length of the encoded text, as `str::len` reports it and as the staging file's
/// size is compared with.
pub open spec fn staged_len(json: Seq<char>) -> u64 {
    vstd::utf8::encode_utf8(json).len() as usize as u64
}

/// One step of a save: the next phase and action after `event` in `phase`.
pub open spec fn save_next(uid: u32, phase: SavePhase, event: SaveEvent) -> (SavePhase, SaveAction) {
    match (phase, event) {
        (SavePhase::Start, SaveEvent::Begin) => (SavePhase::Locating, SaveAction::LocateParent),
        (SavePhase::Locating, SaveEvent::ParentKnown(true)) => (
            SavePhase::CheckingParent,
            SaveAction::CheckParentExists,
        ),
        (SavePhase::CheckingParent, SaveEvent::ParentExists(true)) => (
            SavePhase::InspectingParent,
            SaveAction::InspectParent,
        ),
        (SavePhase::CheckingParent, SaveEvent::ParentExists(false)) => (
            SavePhase::CreatingParent,
            SaveAction::CreateParent,
        ),
        (SavePhase::CreatingParent, SaveEvent::ParentCreated(true)) => (
            SavePhase::InspectingParent,
            SaveAction::InspectParent,
        ),
        (SavePhase::InspectingParent, SaveEvent::ParentInspected(Some(f))) => if owned_real_dir(
            f,
            uid,
        ) {
            (SavePhase::RestrictingParent { parent: f }, SaveAction::SetParentMode(DIR_MODE))
        } else {
            (SavePhase::Done, SaveAction::Finish)
        },
        (SavePhase::RestrictingParent { parent }, SaveEvent::Done) => (
            SavePhase::InspectingTarget { parent },
            SaveAction::InspectTarget,
        ),
        (SavePhase::InspectingTarget { parent }, SaveEvent::TargetInspected(t)) => if replaceable(
            t,
            uid,
        ) {
            (SavePhase::Encoding { parent, target: t }, SaveAction::Encode)
        } else {
            (SavePhase::Done, SaveAction::Finish)
        },
        (SavePhase::Encoding { parent, target }, SaveEvent::Encoded(Some(json))) => (
            SavePhase::Creating { parent, target, json, tried: 1 },
            SaveAction::CreateStaging(FILE_MODE),
        ),
        (SavePhase::Creating { parent, target, json, tried }, SaveEvent::StagingCreated(o)) => {
            match o {
                CreateOutcome::Created => (
                    SavePhase::RestrictingStaging { parent, target, json },
                    SaveAction::SetStagingMode(FILE_MODE),
                ),
                CreateOutcome::AlreadyExists => if tried < STAGING_ATTEMPTS {
                    (
                        SavePhase::Creating { parent, target, json, tried: (tried + 1) as u32 },
                        SaveAction::CreateStaging(FILE_MODE),
                    )
                } else {
                    (SavePhase::Done, SaveAction::Finish)
                },
                CreateOutcome::Failed => (SavePhase::Done, SaveAction::Finish),
            }
        },
        (SavePhase::RestrictingStaging { parent, target, json }, SaveEvent::Done) => (
            SavePhase::Writing { parent, target, len: staged_len(json@) },
            SaveAction::WriteStaging(json),
        ),
        (SavePhase::Writing { parent, target, len }, SaveEvent::Written(true)) => (
            SavePhase::Syncing { parent, target, len },
            SaveAction::SyncStaging,
        ),
        (SavePhase::Syncing { parent, target, len }, SaveEvent::Synced(true)) => (
            SavePhase::InspectingStaging { parent, target, len },
            SaveAction::InspectStaging,
        ),
        (
            SavePhase::InspectingStaging { parent, target, len },
            SaveEvent::StagingInspected(Some(f)),
        ) => if f.len == len {
            (SavePhase::Closing { parent, target, len }, SaveAction::CloseStaging)
        } else {
            (SavePhase::Removing, SaveAction::RemoveStaging)
        },
        (SavePhase::Closing { parent, target, len }, SaveEvent::Done) => (
            SavePhase::Reinspecting { parent, target, len },
            SaveAction::InspectTarget,
        ),
        (SavePhase::Reinspecting { parent, target, len }, SaveEvent::TargetInspected(t)) => if replaceable(
            t,
            uid,
        ) {
            (SavePhase::Renaming { parent, target, len }, SaveAction::Rename)
        } else {
            (SavePhase::Removing, SaveAction::RemoveStaging)
        },
        (SavePhase::Renaming { .. }, SaveEvent::Renamed(true)) => (
            SavePhase::RestrictingTarget,
            SaveAction::SetTargetMode(FILE_MODE),
        ),
        (SavePhase::RestrictingTarget, SaveEvent::Done) => (SavePhase::Done, SaveAction::Finish),
        (SavePhase::Removing, SaveEvent::Done) => (SavePhase::Done, SaveAction::Finish),
        (p, _) => save_abort(p),
    }
}


impl SurveySave {
    /// A save about to begin, for the user with id `uid`.
    pub fn new(uid: u32) -> (r: SurveySave)
        ensures
            r.uid == uid,
            r.phase == SavePhase::Start,
    {
        SurveySave { uid, phase: SavePhase::Start }
    }
}

/// Advances the saving of the survey state by one observed event and says what to do
/// next.
///
/// The state is written to a staging file created exclusively, without following links
/// and with permissions 0600, in a parent directory that is a real directory owned by the
/// user (set to 0700); it is flushed, its size checked, and renamed over the state path
/// only when that path is missing or a regular file, not a link, owned by the user, both
/// before encoding and just before the rename. A staging file that is not renamed is
/// removed.
pub fn save_survey_state(machine: &mut SurveySave, event: SaveEvent) -> (r: SaveAction)
    ensures
        final(machine).uid == old(machine).uid,
        (final(machine).phase, r) == save_next(old(machine).uid, old(machine).phase, event),
{
    let uid = machine.uid;
    let mut phase = SavePhase::Done;
    std::mem::swap(&mut phase, &mut machine.phase);
    let ghost old_phase = phase;
    let (next, action) = match phase {
        SavePhase::Start => match event {
            SaveEvent::Begin => (SavePhase::Locating, SaveAction::LocateParent),
            _ => (SavePhase::Done, SaveAction::Finish),
        },
        SavePhase::Locating => match event {
            SaveEvent::ParentKnown(true) => (SavePhase::CheckingParent, SaveAction::CheckParentExists),
            _ => (SavePhase::Done, SaveAction::Finish),
        },
        SavePhase::CheckingParent => match event {
            SaveEvent::ParentExists(true) => (SavePhase::InspectingParent, SaveAction::InspectParent),
            SaveEvent::ParentExists(false) => (SavePhase::CreatingParent, SaveAction::CreateParent),
            _ => (SavePhase::Done, SaveAction::Finish),
        },
        SavePhase::CreatingParent => match event {
            SaveEvent::ParentCreated(true) => (SavePhase::InspectingParent, SaveAction::InspectParent),
            _ => (SavePhase::Done, SaveAction::Finish),
        },
        SavePhase::InspectingParent => match event {
            SaveEvent::ParentInspected(Some(f)) => {
                if !f.is_symlink && f.is_dir && f.uid == uid {
                    (SavePhase::RestrictingParent { parent: f }, SaveAction::SetParentMode(DIR_MODE))
                } else {
                    (SavePhase::Done, SaveAction::Finish)
                }
            },
            _ => (SavePhase::Done, SaveAction::Finish),
        },
        SavePhase::RestrictingParent { parent } => match event {
            SaveEvent::Done => (SavePhase::InspectingTarget { parent }, SaveAction::InspectTarget),
            _ => (SavePhase::Done, SaveAction::Finish),
        },
        SavePhase::InspectingTarget { parent } => match event {
            SaveEvent::TargetInspected(t) => {
                if is_replaceable(t, uid) {
                    (SavePhase::Encoding { parent, target: t }, SaveAction::Encode)
                } else {
                    (SavePhase::Done, SaveAction::Finish)
                }
            },
            _ => (SavePhase::Done, SaveAction::Finish),
        },
        SavePhase::Encoding { parent, target } => match event {
            SaveEvent::Encoded(Some(json)) => (
                SavePhase::Creating { parent, target, json, tried: 1 },
                SaveAction::CreateStaging(FILE_MODE),
            ),
            _ => (SavePhase::Done, SaveAction::Finish),
        },
        SavePhase::Creating { parent, target, json, tried } => match event {
            SaveEvent::StagingCreated(CreateOutcome::Created) => (
                SavePhase::RestrictingStaging { parent, target, json },
                SaveAction::SetStagingMode(FILE_MODE),
            ),
            SaveEvent::StagingCreated(CreateOutcome::AlreadyExists) => {
                if tried < STAGING_ATTEMPTS {
                    (
                        SavePhase::Creating { parent, target, json, tried: tried + 1 },
                        SaveAction::CreateStaging(FILE_MODE),
                    )
                } else {
                    (SavePhase::Done, SaveAction::Finish)
                }
            },
            _ => (SavePhase::Done, SaveAction::Finish),
        },
        SavePhase::RestrictingStaging { parent, target, json } => match event {
            SaveEvent::Done => {
                let len = json.as_str().len() as u64;
                (SavePhase::Writing { parent, target, len }, SaveAction::WriteStaging(json))
            },
            _ => (SavePhase::Removing, SaveAction::RemoveStaging),
        },
        SavePhase::Writing { parent, target, len } => match event {
            SaveEvent::Written(true) => (SavePhase::Syncing { parent, target, len }, SaveAction::SyncStaging),
            _ => (SavePhase::Removing, SaveAction::RemoveStaging),
        },
        SavePhase::Syncing { parent, target, len } => match event {
            SaveEvent::Synced(true) => (
                SavePhase::InspectingStaging { parent, target, len },
                SaveAction::InspectStaging,
            ),
            _ => (SavePhase::Removing, SaveAction::RemoveStaging),
        },
        SavePhase::InspectingStaging { parent, target, len } => match event {
            SaveEvent::StagingInspected(Some(f)) => {
                if f.len == len {
                    (SavePhase::Closing { parent, target, len }, SaveAction::CloseStaging)
                } else {
                    (SavePhase::Removing, SaveAction::RemoveStaging)
                }
            },
            _ => (SavePhase::Removing, SaveAction::RemoveStaging),
        },
        SavePhase::Closing { parent, target, len } => match event {
            SaveEvent::Done => (SavePhase::Reinspecting { parent, target, len }, SaveAction::InspectTarget),
            _ => (SavePhase::Removing, SaveAction::RemoveStaging),
        },
        SavePhase::Reinspecting { parent, target, len } => match event {
            SaveEvent::TargetInspected(t) => {
                if is_replaceable(t, uid) {
                    (SavePhase::Renaming { parent, target, len }, SaveAction::Rename)
                } else {
                    (SavePhase::Removing, SaveAction::RemoveStaging)
                }
            },
            _ => (SavePhase::Removing, SaveAction::RemoveStaging),
        },
        SavePhase::Renaming { parent, target, len } => match event {
            SaveEvent::Renamed(true) => (SavePhase::RestrictingTarget, SaveAction::SetTargetMode(FILE_MODE)),
            _ => (SavePhase::Removing, SaveAction::RemoveStaging),
        },
        SavePhase::RestrictingTarget => match event {
            SaveEvent::Done => (SavePhase::Done, SaveAction::Finish),
            _ => (SavePhase::Done, SaveAction::Finish),
        },
        SavePhase::Removing => match event {
            SaveEvent::Done => (SavePhase::Done, SaveAction::Finish),
            _ => (SavePhase::Done, SaveAction::Finish),
        },
        SavePhase::Done => (SavePhase::Done, SaveAction::Finish),
    };
    machine.phase = next;
    action
}

fn is_replaceable(t: Option<FileFacts>, uid: u32) -> (b: bool)
    ensures
        b == replaceable(t, uid),
{
    match t {
        Some(f) => !f.is_symlink && f.is_file && f.uid == uid,
        None => true,
    }
}


/// The facts a save phase keeps have passed the checks, and the staging attempts are
/// counted from 1 up to `STAGING_ATTEMPTS`.
pub open spec fn save_phase_ok(uid: u32, phase: SavePhase) -> bool {
    match phase {
        SavePhase::RestrictingParent { parent } => owned_real_dir(parent, uid),
        SavePhase::InspectingTarget { parent } => owned_real_dir(parent, uid),
        SavePhase::Encoding { parent, target } => owned_real_dir(parent, uid) && replaceable(
            target,
            uid,
        ),
        SavePhase::Creating { parent, target, tried, .. } => owned_real_dir(parent, uid)
            && replaceable(target, uid) && 1 <= tried <= STAGING_ATTEMPTS,
        SavePhase::RestrictingStaging { parent, target, .. } => owned_real_dir(parent, uid)
            && replaceable(target, uid),
        SavePhase::Writing { parent, target, .. } => owned_real_dir(parent, uid) && replaceable(
            target,
            uid,
        ),
        SavePhase::Syncing { parent, target, .. } => owned_real_dir(parent, uid) && replaceable(
            target,
            uid,
        ),
        SavePhase::InspectingStaging { parent, target, .. } => owned_real_dir(parent, uid)
            && replaceable(target, uid),
        SavePhase::Closing { parent, target, .. } => owned_real_dir(parent, uid) && replaceable(
            target,
            uid,
        ),
        SavePhase::Reinspecting { parent, target, .. } => owned_real_dir(parent, uid)
            && replaceable(target, uid),
        SavePhase::Renaming { parent, target, .. } => owned_real_dir(parent, uid) && replaceable(
            target,
            uid,
        ),
        _ => true,
    }
}

/// A save replaces the state file only after every check: each step keeps the recorded
/// facts checked; a rename is asked for only while the parent is a real directory owned by
/// the user and the state path, both before encoding and just before the rename, is
/// missing or a regular, non-link file owned by the user; a staging file is created only
/// in such a directory, with permissions 0600 and at most `STAGING_ATTEMPTS` times; and a
/// parent that is a link, not a directory or owned by someone else ends the save at once.
pub proof fn law_save_replaces_only_checked_files(uid: u32, phase: SavePhase, event: SaveEvent)
    requires
        save_phase_ok(uid, phase),
    ensures
        save_phase_ok(uid, SavePhase::Start),
        save_phase_ok(uid, save_next(uid, phase, event).0),
        save_next(uid, phase, event).1 == SaveAction::Rename ==> (phase is Reinspecting
            && save_phase_ok(uid, phase) && (event matches SaveEvent::TargetInspected(t)
            && replaceable(t, uid))),
        save_next(uid, phase, event).1 matches SaveAction::CreateStaging(mode) ==> (mode
            == FILE_MODE && save_next(uid, phase, event).0 is Creating && save_phase_ok(
            uid,
            save_next(uid, phase, event).0,
        )),
        phase == SavePhase::InspectingParent ==> (event matches SaveEvent::ParentInspected(Some(f))
            ==> (!owned_real_dir(f, uid) ==> save_next(uid, phase, event) == (
            SavePhase::Done,
            SaveAction::Finish,
        ))),
{
}

/// A staging file is never left behind: while one exists, no step finishes the save; it
/// is either carried on to the rename or removed, and removing it is the last thing done.
pub proof fn law_save_never_leaves_staging(uid: u32, phase: SavePhase, event: SaveEvent)
    ensures
        holds_staging(phase) ==> save_next(uid, phase, event).1 != SaveAction::Finish,
        holds_staging(phase) ==> (holds_staging(save_next(uid, phase, event).0)
            || save_next(uid, phase, event) == (SavePhase::Removing, SaveAction::RemoveStaging)
            || (phase is Renaming && event == SaveEvent::Renamed(true))),
        phase == SavePhase::Removing ==> save_next(uid, phase, event).1 == SaveAction::Finish,
        event == SaveEvent::StagingCreated(CreateOutcome::Created) && phase is Creating
            ==> holds_staging(save_next(uid, phase, event).0),
{
}

/// The text a save phase carries towards the staging file.
pub open spec fn phase_text(phase: SavePhase) -> Option<String> {
    match phase {
        SavePhase::Creating { json, .. } => Some(json),
        SavePhase::RestrictingStaging { json, .. } => Some(json),
        _ => None,
    }
}

/// The byte length a save phase expects of the staging file.
pub open spec fn phase_len(phase: SavePhase) -> Option<u64> {
    match phase {
        SavePhase::Writing { len, .. } => Some(len),
        SavePhase::Syncing { len, .. } => Some(len),
        SavePhase::InspectingStaging { len, .. } => Some(len),
        SavePhase::Closing { len, .. } => Some(len),
        SavePhase::Reinspecting { len, .. } => Some(len),
        SavePhase::Renaming { len, .. } => Some(len),
        _ => None,
    }
}

/// What is written is what the state was encoded to, and the staging file is taken on
/// towards the rename only when its size is the byte length of that text.
pub proof fn law_save_writes_the_encoded_text(uid: u32, phase: SavePhase, event: SaveEvent)
    ensures
        event matches SaveEvent::Encoded(Some(json)) ==> (phase is Encoding ==> phase_text(
            save_next(uid, phase, event).0,
        ) == Some(json)),
        phase is Creating && save_next(uid, phase, event).0 is Creating ==> phase_text(
            save_next(uid, phase, event).0,
        ) == phase_text(phase),
        phase is Creating && save_next(uid, phase, event).0 is RestrictingStaging ==> phase_text(
            save_next(uid, phase, event).0,
        ) == phase_text(phase),
        save_next(uid, phase, event).1 matches SaveAction::WriteStaging(text) ==> (
        phase is RestrictingStaging && phase_text(phase) == Some(text)
            && phase_len(save_next(uid, phase, event).0) == Some(staged_len(text@))),
        save_next(uid, phase, event).1 == SaveAction::CloseStaging ==> (phase is InspectingStaging
            && (event matches SaveEvent::StagingInspected(Some(f)) && phase_len(phase) == Some(
            f.len,
        ))),
        phase_len(phase) is Some && phase_len(save_next(uid, phase, event).0) is Some
            ==> phase_len(save_next(uid, phase, event).0) == phase_len(phase),
{
}


/// A load of a state file that passes the checks gives back what the file's text decodes
/// to: after the path and the open handle are found to be a regular file owned by the
/// user, the text read is handed over for decoding unchanged, and the decoded state is
/// the result.
pub proof fn law_load_returns_decoded_state(
    uid: u32,
    path: FileFacts,
    file: FileFacts,
    text: String,
    s: SurveyState,
)
    requires
        owned_regular_file(path, uid),
        owned_open_file(file, uid),
    ensures
        load_next(uid, LoadPhase::Start, LoadEvent::Begin) == (
            LoadPhase::Inspecting,
            LoadAction::InspectPath,
        ),
        load_next(uid, LoadPhase::Inspecting, LoadEvent::PathInspected(Some(path))) == (
            LoadPhase::Opening { path },
            LoadAction::OpenNoFollow,
        ),
        load_next(uid, LoadPhase::Opening { path }, LoadEvent::Opened(Some(file))) == (
            LoadPhase::Reading { path, file },
            LoadAction::ReadAtMost(READ_LIMIT),
        ),
        load_next(uid, LoadPhase::Reading { path, file }, LoadEvent::Read(Some(text))) == (
            LoadPhase::Decoding { path, file },
            LoadAction::Decode(text),
        ),
        load_next(uid, LoadPhase::Decoding { path, file }, LoadEvent::Decoded(Some(s))) == (
            LoadPhase::Done,
            LoadAction::Finish(s),
        ),
{
}

/// A save in which every check passes and every operation succeeds writes exactly the
/// encoded text to a 0600 staging file, checks its size, renames it over the state path
/// and sets the state file to 0600; the parent directory is set to 0700 first.
pub proof fn law_save_succeeds_with_encoded_text(
    uid: u32,
    parent: FileFacts,
    target: Option<FileFacts>,
    json: String,
    staged: FileFacts,
)
    requires
        owned_real_dir(parent, uid),
        replaceable(target, uid),
        staged.len == staged_len(json@),
    ensures
        save_next(uid, SavePhase::Start, SaveEvent::Begin) == (
            SavePhase::Locating,
            SaveAction::LocateParent,
        ),
        save_next(uid, SavePhase::InspectingParent, SaveEvent::ParentInspected(Some(parent))) == (
            SavePhase::RestrictingParent { parent },
            SaveAction::SetParentMode(DIR_MODE),
        ),
        save_next(uid, SavePhase::RestrictingParent { parent }, SaveEvent::Done) == (
            SavePhase::InspectingTarget { parent },
            SaveAction::InspectTarget,
        ),
        save_next(uid, SavePhase::InspectingTarget { parent }, SaveEvent::TargetInspected(target))
            == (SavePhase::Encoding { parent, target }, SaveAction::Encode),
        save_next(uid, SavePhase::Encoding { parent, target }, SaveEvent::Encoded(Some(json))) == (
            SavePhase::Creating { parent, target, json, tried: 1 },
            SaveAction::CreateStaging(FILE_MODE),
        ),
        save_next(
            uid,
            SavePhase::Creating { parent, target, json, tried: 1 },
            SaveEvent::StagingCreated(CreateOutcome::Created),
        ) == (SavePhase::RestrictingStaging { parent, target, json }, SaveAction::SetStagingMode(
            FILE_MODE,
        )),
        save_next(uid, SavePhase::RestrictingStaging { parent, target, json }, SaveEvent::Done) == (
            SavePhase::Writing { parent, target, len: staged.len },
            SaveAction::WriteStaging(json),
        ),
        save_next(
            uid,
            SavePhase::Writing { parent, target, len: staged.len },
            SaveEvent::Written(true),
        ) == (SavePhase::Syncing { parent, target, len: staged.len }, SaveAction::SyncStaging),
        save_next(
            uid,
            SavePhase::Syncing { parent, target, len: staged.len },
            SaveEvent::Synced(true),
        ) == (
            SavePhase::InspectingStaging { parent, target, len: staged.len },
            SaveAction::InspectStaging,
        ),
        save_next(
            uid,
            SavePhase::InspectingStaging { parent, target, len: staged.len },
            SaveEvent::StagingInspected(Some(staged)),
        ) == (SavePhase::Closing { parent, target, len: staged.len }, SaveAction::CloseStaging),
        save_next(uid, SavePhase::Closing { parent, target, len: staged.len }, SaveEvent::Done) == (
            SavePhase::Reinspecting { parent, target, len: staged.len },
            SaveAction::InspectTarget,
        ),
        save_next(
            uid,
            SavePhase::Reinspecting { parent, target, len: staged.len },
            SaveEvent::TargetInspected(target),
        ) == (SavePhase::Renaming { parent, target, len: staged.len }, SaveAction::Rename),
        save_next(
            uid,
            SavePhase::Renaming { parent, target, len: staged.len },
            SaveEvent::Renamed(true),
        ) == (SavePhase::RestrictingTarget, SaveAction::SetTargetMode(FILE_MODE)),
        save_next(uid, SavePhase::RestrictingTarget, SaveEvent::Done) == (
            SavePhase::Done,
            SaveAction::Finish,
        ),
{
}

/// The permissions a save sets are always the fixed ones: 0700 for the directory, 0600
/// for the staging file and the state file.
pub proof fn law_save_sets_fixed_modes(uid: u32, phase: SavePhase, event: SaveEvent)
    ensures
        save_next(uid, phase, event).1 matches SaveAction::SetParentMode(m) ==> m == DIR_MODE,
        save_next(uid, phase, event).1 matches SaveAction::CreateStaging(m) ==> m == FILE_MODE,
        save_next(uid, phase, event).1 matches SaveAction::SetStagingMode(m) ==> m == FILE_MODE,
        save_next(uid, phase, event).1 matches SaveAction::SetTargetMode(m) ==> m == FILE_MODE,
        DIR_MODE == 0o700,
        FILE_MODE == 0o600,
{
}

}
