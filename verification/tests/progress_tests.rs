use scan_orchestrator::progress::{
    process_progress_data, ProgressSample, StageTag, all_progress_percent,
    current_progress_percent, is_cache_stage,
};
use scan_orchestrator::tools::Tool;

fn sample(
    tool: Tool,
    stage: StageTag,
    idx: u8,
    max: u8,
    checked: u64,
    to_check: u64,
) -> ProgressSample {
    ProgressSample {
        tool,
        stage,
        current_stage_idx: idx,
        max_stage_idx: max,
        entries_checked: checked,
        entries_to_check: to_check,
        bytes_checked: 0,
        bytes_to_check: 0,
    }
}

#[test]
fn unknown_totals_report_sentinel() {
    let s = sample(Tool::DuplicateFiles, StageTag::CollectingItems, 0, 3, 5, 0);
    let r = process_progress_data(&s);
    assert_eq!(r.current_progress, -1);
    assert_eq!(r.all_progress, 0);
    assert_eq!(r.step_name, "Scanning 5 file");
}

#[test]
fn unknown_totals_mid_job() {
    assert_eq!(all_progress_percent(2, 3, 0, 0), 50);
    assert_eq!(current_progress_percent(123, 0), -1);
}

#[test]
fn known_totals_compute_both_percentages() {
    let mut s = sample(Tool::BrokenFiles, StageTag::BrokenFilesChecking, 1, 1, 50, 100);
    s.bytes_checked = 50;
    s.bytes_to_check = 100;
    let r = process_progress_data(&s);
    assert_eq!(r.current_progress, 50);
    assert_eq!(r.all_progress, 75);
    assert_eq!(r.step_name, "Checked 50/100 file (50 B/100 B)");
}

#[test]
fn full_stage_is_clamped_to_99() {
    assert_eq!(current_progress_percent(100, 100), 99);
    assert_eq!(all_progress_percent(1, 1, 100, 100), 99);
}

#[test]
fn current_progress_is_monotone() {
    let mut last = -1;
    for checked in 0..=100u64 {
        let p = current_progress_percent(checked, 100);
        assert!(p >= last);
        assert!((0..=99).contains(&p));
        last = p;
    }
}

#[test]
fn folder_tool_counts_folders() {
    let s = sample(Tool::EmptyFolders, StageTag::CollectingItems, 0, 0, 3, 0);
    let r = process_progress_data(&s);
    assert_eq!(r.step_name, "Scanning 3 folder");
}

#[test]
fn duplicate_collect_labels() {
    let s = sample(Tool::DuplicateFiles, StageTag::DuplicateScanningName, 0, 4, 7, 0);
    assert_eq!(process_progress_data(&s).step_name, "Scanning name of 7 file");
    let s = sample(Tool::DuplicateFiles, StageTag::DuplicateScanningSizeName, 0, 4, 7, 0);
    assert_eq!(
        process_progress_data(&s).step_name,
        "Scanning size and name of 7 file"
    );
    let s = sample(Tool::DuplicateFiles, StageTag::DuplicateScanningSize, 0, 4, 7, 0);
    assert_eq!(process_progress_data(&s).step_name, "Scanning size of 7 file");
}

#[test]
fn cache_labels_are_fixed() {
    let s = sample(Tool::DuplicateFiles, StageTag::DuplicateCacheLoading, 1, 4, 0, 0);
    assert_eq!(process_progress_data(&s).step_name, "Loading hash cache");
    let s = sample(Tool::MusicDuplicates, StageTag::SameMusicCacheSavingFingerprints, 2, 4, 0, 0);
    assert_eq!(process_progress_data(&s).step_name, "Saving fingerprints cache");
}

#[test]
fn counting_labels() {
    let s = sample(Tool::MusicDuplicates, StageTag::SameMusicComparingTags, 2, 4, 3, 9);
    assert_eq!(process_progress_data(&s).step_name, "Compared tags of 3/9");
    let s = sample(Tool::BadExtensions, StageTag::BadExtensionsChecking, 1, 1, 2, 4);
    assert_eq!(process_progress_data(&s).step_name, "Checked 2/4 file");
    let s = sample(Tool::SimilarVideos, StageTag::SimilarVideosCalculatingHashes, 1, 1, 1, 2);
    assert_eq!(process_progress_data(&s).step_name, "Hashed of 1/2 video");
}

#[test]
fn cache_stage_classification() {
    assert!(is_cache_stage(StageTag::DuplicatePreHashCacheSaving));
    assert!(is_cache_stage(StageTag::SameMusicCacheLoadingTags));
    assert!(!is_cache_stage(StageTag::BrokenFilesChecking));
    assert!(!is_cache_stage(StageTag::CollectingItems));
}
