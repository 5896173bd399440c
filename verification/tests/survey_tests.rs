use omarank::survey::{
    get_survey_state_path, load_survey_state, record_submission, save_survey_state,
    staging_file_name, submission_outcome, CreateOutcome, FileFacts, LoadAction, LoadEvent,
    SaveAction, SaveEvent, SurveyLoad, SurveySave, SurveyState, DIR_MODE, FILE_MODE,
    READ_LIMIT, STAGING_ATTEMPTS,
};

const UID: u32 = 1000;

fn regular(uid: u32, len: u64) -> FileFacts {
    FileFacts { is_symlink: false, is_file: true, is_dir: false, uid, len }
}

fn symlink() -> FileFacts {
    FileFacts { is_symlink: true, is_file: false, is_dir: false, uid: UID, len: 8 }
}

fn dir(uid: u32) -> FileFacts {
    FileFacts { is_symlink: false, is_file: false, is_dir: true, uid, len: 4096 }
}

/// Runs a load in which the file reads as `text` and decodes as `decoded`.
fn load_with(path: Option<FileFacts>, opened: Option<FileFacts>, text: &str, decoded: Option<SurveyState>) -> SurveyState {
    let mut m = SurveyLoad::new(UID);
    let mut action = load_survey_state(&mut m, LoadEvent::Begin);
    loop {
        let event = match action {
            LoadAction::InspectPath => LoadEvent::PathInspected(path),
            LoadAction::OpenNoFollow => LoadEvent::Opened(opened),
            LoadAction::ReadAtMost(n) => {
                assert_eq!(n, READ_LIMIT);
                LoadEvent::Read(Some(text.to_string()))
            },
            LoadAction::Decode(t) => {
                assert_eq!(t, text);
                LoadEvent::Decoded(decoded)
            },
            LoadAction::Finish(s) => return s,
        };
        action = load_survey_state(&mut m, event);
    }
}

/// What a simulated save did: whether it renamed a staging file over the target, the text
/// written, the modes set, and whether a staging file was left behind.
struct SaveRun {
    renamed: bool,
    written: Option<String>,
    modes: Vec<u32>,
    staging_left: bool,
    creations: u32,
}

fn save_with(
    parent: Option<FileFacts>,
    target_before: Option<FileFacts>,
    target_after: Option<FileFacts>,
    json: &str,
    existing_names: u32,
) -> SaveRun {
    let mut m = SurveySave::new(UID);
    let mut run = SaveRun { renamed: false, written: None, modes: vec![], staging_left: false, creations: 0 };
    let mut inspections = 0;
    let mut action = save_survey_state(&mut m, SaveEvent::Begin);
    loop {
        let event = match action {
            SaveAction::LocateParent => SaveEvent::ParentKnown(true),
            SaveAction::CheckParentExists => SaveEvent::ParentExists(true),
            SaveAction::CreateParent => SaveEvent::ParentCreated(true),
            SaveAction::InspectParent => SaveEvent::ParentInspected(parent),
            SaveAction::SetParentMode(mode) => {
                run.modes.push(mode);
                SaveEvent::Done
            },
            SaveAction::InspectTarget => {
                inspections += 1;
                SaveEvent::TargetInspected(if inspections == 1 { target_before } else { target_after })
            },
            SaveAction::Encode => SaveEvent::Encoded(Some(json.to_string())),
            SaveAction::CreateStaging(mode) => {
                run.modes.push(mode);
                run.creations += 1;
                if run.creations <= existing_names {
                    SaveEvent::StagingCreated(CreateOutcome::AlreadyExists)
                } else {
                    run.staging_left = true;
                    SaveEvent::StagingCreated(CreateOutcome::Created)
                }
            },
            SaveAction::SetStagingMode(mode) => {
                run.modes.push(mode);
                SaveEvent::Done
            },
            SaveAction::WriteStaging(text) => {
                run.written = Some(text);
                SaveEvent::Written(true)
            },
            SaveAction::SyncStaging => SaveEvent::Synced(true),
            SaveAction::InspectStaging => {
                let len = run.written.as_ref().map(|t| t.len() as u64).unwrap_or(0);
                SaveEvent::StagingInspected(Some(regular(UID, len)))
            },
            SaveAction::CloseStaging => SaveEvent::Done,
            SaveAction::Rename => {
                run.renamed = true;
                run.staging_left = false;
                SaveEvent::Renamed(true)
            },
            SaveAction::SetTargetMode(mode) => {
                run.modes.push(mode);
                SaveEvent::Done
            },
            SaveAction::RemoveStaging => {
                run.staging_left = false;
                SaveEvent::Done
            },
            SaveAction::Finish => return run,
        };
        action = save_survey_state(&mut m, event);
    }
}

#[test]
fn state_path_from_the_environment() {
    assert_eq!(get_survey_state_path(Some("/tmp/state"), Some("/home/u")), "/tmp/state/omarank/survey_state.json");
    assert_eq!(get_survey_state_path(Some("/tmp/state/"), None), "/tmp/state/omarank/survey_state.json");
    assert_eq!(get_survey_state_path(Some(""), Some("/home/u")), "/home/u/.local/state/omarank/survey_state.json");
    assert_eq!(get_survey_state_path(None, Some("/home/u")), "/home/u/.local/state/omarank/survey_state.json");
    assert_eq!(get_survey_state_path(None, Some("")), "/var/empty/omarank_state.json");
    assert_eq!(get_survey_state_path(None, None), "/var/empty/omarank_state.json");
}

#[test]
fn test_secure_survey_state_creation_and_permissions() {
    let test_state = SurveyState { has_opted_in: true, last_submitted_epoch: 123456789, last_score: 88 };
    let json = "{\n  \"has_opted_in\": true,\n  \"last_submitted_epoch\": 123456789,\n  \"last_score\": 88\n}";
    let run = save_with(Some(dir(UID)), None, None, json, 0);
    assert!(run.renamed);
    assert_eq!(run.written.as_deref(), Some(json));
    assert_eq!(run.modes, vec![DIR_MODE, FILE_MODE, FILE_MODE, FILE_MODE]);
    assert_eq!(FILE_MODE, 0o600, "File permissions must be strictly 0600");
    assert_eq!(DIR_MODE, 0o700, "Directory permissions must be 0700");
    let loaded = load_with(Some(regular(UID, json.len() as u64)), Some(regular(UID, json.len() as u64)), json, Some(test_state));
    assert_eq!(loaded, test_state);
}

#[test]
fn test_symlink_rejection_on_state_file() {
    let state = load_with(Some(symlink()), Some(regular(UID, 2)), "{}", Some(SurveyState { has_opted_in: true, last_submitted_epoch: 1, last_score: 1 }));
    assert_eq!(state, SurveyState::default(), "Symlink must be rejected on load");
    let run = save_with(Some(dir(UID)), Some(symlink()), Some(symlink()), "{}", 0);
    assert!(!run.renamed, "Symlink target must not be overwritten");
    assert_eq!(run.written, None);
    assert_eq!(run.creations, 0);
}

#[test]
fn test_symlink_rejection_on_parent_dir() {
    let linked_parent = FileFacts { is_symlink: true, is_file: false, is_dir: false, uid: UID, len: 0 };
    let run = save_with(Some(linked_parent), None, None, "{}", 0);
    assert!(!run.renamed, "Write through symlinked parent directory must be rejected");
    assert_eq!(run.creations, 0);
    let foreign_parent = dir(0);
    assert!(!save_with(Some(foreign_parent), None, None, "{}", 0).renamed);
}

#[test]
fn test_preplanted_tmp_symlink_rejection() {
    // a name that already exists (a planted link) is never opened: a fresh name is tried
    let run = save_with(Some(dir(UID)), None, None, "{\"x\":1}", 3);
    assert_eq!(run.creations, 4);
    assert!(run.renamed);
    assert_eq!(run.written.as_deref(), Some("{\"x\":1}"));
    let run = save_with(Some(dir(UID)), None, None, "{}", STAGING_ATTEMPTS);
    assert_eq!(run.creations, STAGING_ATTEMPTS);
    assert!(!run.renamed);
}

#[test]
fn load_rejects_foreign_or_odd_files() {
    let good = SurveyState { has_opted_in: true, last_submitted_epoch: 5, last_score: 60 };
    assert_eq!(load_with(None, None, "", Some(good)), SurveyState::default());
    assert_eq!(load_with(Some(regular(0, 10)), Some(regular(0, 10)), "x", Some(good)), SurveyState::default());
    assert_eq!(load_with(Some(dir(UID)), Some(dir(UID)), "x", Some(good)), SurveyState::default());
    assert_eq!(load_with(Some(regular(UID, 10)), Some(regular(0, 10)), "x", Some(good)), SurveyState::default());
    assert_eq!(load_with(Some(regular(UID, 10)), Some(regular(UID, 10)), "garbage", None), SurveyState::default());
    assert_eq!(load_with(Some(regular(UID, 10)), None, "x", Some(good)), SurveyState::default());
}

#[test]
fn target_replaced_between_checks_is_left_alone() {
    let run = save_with(Some(dir(UID)), None, Some(symlink()), "{}", 0);
    assert!(!run.renamed);
    assert!(!run.staging_left);
    assert_eq!(run.written.as_deref(), Some("{}"));
}

#[test]
fn existing_own_file_is_replaced() {
    let run = save_with(Some(dir(UID)), Some(regular(UID, 3)), Some(regular(UID, 3)), "{}", 0);
    assert!(run.renamed);
    let run = save_with(Some(dir(UID)), Some(regular(0, 3)), Some(regular(0, 3)), "{}", 0);
    assert!(!run.renamed);
}

#[test]
fn staging_names() {
    assert_eq!(staging_file_name(4242, 1700000000123456789, 0), ".tmp_survey_state_4242_1700000000123456789_0.json");
    assert_eq!(staging_file_name(0, 0, 17), ".tmp_survey_state_0_0_17.json");
}

#[test]
fn submissions_are_recorded() {
    let prev = SurveyState::default();
    let s = record_submission(prev, 1700000000, 77);
    assert_eq!(s, SurveyState { has_opted_in: true, last_submitted_epoch: 1700000000, last_score: 77 });
    let (ok, msg) = submission_outcome(true);
    assert!(ok);
    assert_eq!(msg, "Successfully submitted anonymous hardware profile to OmaStat survey!");
    let (ok, msg) = submission_outcome(false);
    assert!(ok);
    assert_eq!(msg, "✓ Profile saved locally (Awaiting OmaStat community server deployment)");
}
