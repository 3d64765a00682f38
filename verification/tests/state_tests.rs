use scan_orchestrator::save_result::{save_result, Options as SaveOptions, SaveReport};
use scan_orchestrator::state::{CancelToken, JobStateStore, ListenerFlag, OrchestratorState, ThreadSetup};
use scan_orchestrator::tools::{parse_tool, Tool};

#[test]
fn stop_request_is_observed_by_the_next_poll() {
    let mut token = CancelToken::new();
    assert!(!token.is_cancelled());
    token.request_stop();
    assert!(token.is_cancelled());
}

#[test]
fn new_job_clears_stale_cancellation() {
    let mut state: OrchestratorState<u32> = OrchestratorState::new();
    state.token.request_stop();
    assert!(state.token.is_cancelled());
    state.acquire_job_token();
    assert!(!state.token.is_cancelled());
}

#[test]
fn thread_setup_is_one_shot() {
    let mut setup = ThreadSetup::new();
    assert_eq!(setup.setup(8), 8);
    assert_eq!(setup.setup(4), 8);
    assert_eq!(setup.setup(16), 8);
}

#[test]
fn listener_starts_once() {
    let mut flag = ListenerFlag::new();
    assert!(flag.try_start());
    assert!(!flag.try_start());
    assert!(!flag.try_start());
}

#[test]
fn store_keeps_the_latest_state_per_tool() {
    let mut store: JobStateStore<&str> = JobStateStore::new();
    assert!(store.get(Tool::BigFiles).is_none());
    store.store(Tool::BigFiles, "first run");
    store.store(Tool::EmptyFiles, "other tool");
    assert_eq!(*store.get(Tool::BigFiles), Some("first run"));
    assert_eq!(*store.get(Tool::EmptyFiles), Some("other tool"));
    store.store(Tool::BigFiles, "second run");
    assert_eq!(*store.get(Tool::BigFiles), Some("second run"));
    assert_eq!(*store.get(Tool::EmptyFiles), Some("other tool"));
    assert!(store.get(Tool::SimilarImages).is_none());
}

#[test]
fn tool_names_round_trip() {
    let tools = [
        Tool::DuplicateFiles,
        Tool::EmptyFolders,
        Tool::BigFiles,
        Tool::EmptyFiles,
        Tool::TemporaryFiles,
        Tool::SimilarImages,
        Tool::SimilarVideos,
        Tool::MusicDuplicates,
        Tool::InvalidSymlinks,
        Tool::BrokenFiles,
        Tool::BadExtensions,
    ];
    for (i, tool) in tools.iter().enumerate() {
        assert_eq!(parse_tool(tool.name()), Some(*tool));
        assert_eq!(tool.index(), i);
    }
    assert_eq!(parse_tool("No Such Tool"), None);
}

#[test]
fn save_stems_are_fixed() {
    assert_eq!(Tool::DuplicateFiles.save_stem(), "results_duplicates");
    assert_eq!(Tool::EmptyFolders.save_stem(), "results_empty_directories");
    assert_eq!(Tool::MusicDuplicates.save_stem(), "results_same_music");
}

#[test]
fn save_result_messages() {
    let options = SaveOptions {
        current_tool: "Big Files".to_string(),
        destination: "/out".to_string(),
    };
    assert_eq!(
        save_result(&options, SaveReport::SaveOk),
        "Successfully saved `Big Files` results to `/out`"
    );
    assert_eq!(
        save_result(&options, SaveReport::SaveFailed),
        "Failed to Save `Big Files` results to `/out`"
    );
    assert_eq!(
        save_result(&options, SaveReport::NoEngine),
        "Failed to Save `Big Files` results to `/out`"
    );
    // an unrecognized tool name still gets its completion message
    let unknown = SaveOptions {
        current_tool: "Mystery".to_string(),
        destination: "/out".to_string(),
    };
    assert_eq!(
        save_result(&unknown, SaveReport::SaveOk),
        "Failed to Save `Mystery` results to `/out`"
    );
    assert_eq!(
        save_result(&unknown, SaveReport::NoEngine),
        "Failed to Save `Mystery` results to `/out`"
    );
}
