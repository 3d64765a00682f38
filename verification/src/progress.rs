//! Progress normalization: a raw progress sample (stage indices and counts)
//! is mapped to a UI-ready percentage pair.

use vstd::prelude::*;
use vstd::math::min;
use vstd::string::StringExecFns;
use crate::text::dec_digits;
use crate::tools::Tool;

verus! {

/// Normalized progress event: overall percentage across all stages,
/// percentage within the current stage (-1 when unknown), and a label.
pub struct ProgressToSend {
    pub current_progress: i32,
    pub all_progress: i32,
    pub step_name: String,
}

/// The sub-stage tag of a progress sample: a finer phase within a scan job,
/// used to pick the progress label.
#[derive(Clone, Copy, PartialEq, Eq, Structural, Debug)]
pub enum StageTag {
    CollectingItems,
    DuplicateScanningName,
    DuplicateScanningSizeName,
    DuplicateScanningSize,
    SameMusicCacheLoadingTags,
    SameMusicCacheLoadingFingerprints,
    SameMusicCacheSavingTags,
    SameMusicCacheSavingFingerprints,
    DuplicatePreHashCacheLoading,
    DuplicatePreHashCacheSaving,
    DuplicateCacheLoading,
    DuplicateCacheSaving,
    SameMusicReadingTags,
    SameMusicCalculatingFingerprints,
    SameMusicComparingTags,
    SameMusicComparingFingerprints,
    SimilarImagesCalculatingHashes,
    SimilarImagesComparingHashes,
    SimilarVideosCalculatingHashes,
    BrokenFilesChecking,
    BadExtensionsChecking,
    DuplicatePreHashing,
    DuplicateFullHashing,
}

/// One raw progress emission of a running job.
pub struct ProgressSample {
    pub tool: Tool,
    pub stage: StageTag,
    pub current_stage_idx: u8,
    pub max_stage_idx: u8,
    pub entries_checked: u64,
    pub entries_to_check: u64,
    pub bytes_checked: u64,
    pub bytes_to_check: u64,
}

/// Whether the tag marks a cache loading or saving phase.
pub open spec fn spec_is_cache_stage(s: StageTag) -> bool {
    match s {
        StageTag::SameMusicCacheLoadingTags => true,
        StageTag::SameMusicCacheLoadingFingerprints => true,
        StageTag::SameMusicCacheSavingTags => true,
        StageTag::SameMusicCacheSavingFingerprints => true,
        StageTag::DuplicatePreHashCacheLoading => true,
        StageTag::DuplicatePreHashCacheSaving => true,
        StageTag::DuplicateCacheLoading => true,
        StageTag::DuplicateCacheSaving => true,
        _ => false,
    }
}

/// Whether the tag belongs to a stage with known totals and its own
/// counting label.
pub open spec fn spec_is_counting_stage(s: StageTag) -> bool {
    match s {
        StageTag::SameMusicReadingTags => true,
        StageTag::SameMusicCalculatingFingerprints => true,
        StageTag::SameMusicComparingTags => true,
        StageTag::SameMusicComparingFingerprints => true,
        StageTag::SimilarImagesCalculatingHashes => true,
        StageTag::SimilarImagesComparingHashes => true,
        StageTag::SimilarVideosCalculatingHashes => true,
        StageTag::BrokenFilesChecking => true,
        StageTag::BadExtensionsChecking => true,
        StageTag::DuplicatePreHashing => true,
        StageTag::DuplicateFullHashing => true,
        _ => false,
    }
}

/// Overall percentage across all stages. With no totals known, only the
/// stage index contributes; with totals known, the within-stage fraction is
/// added and the result is clamped to 99 so that a stage never shows as
/// finished before it formally completes.
pub open spec fn spec_all_progress(idx: int, max_idx: int, checked: int, to_check: int) -> int {
    if to_check == 0 {
        100 * idx / (max_idx + 1)
    } else {
        min(100 * (idx * to_check + checked) / ((max_idx + 1) * to_check), 99)
    }
}

/// Percentage within the current stage: -1 when total work is unknown,
/// otherwise the checked/to-check fraction truncated and clamped to 99.
pub open spec fn spec_current_progress(checked: int, to_check: int) -> int {
    if to_check == 0 {
        -1
    } else {
        min(100 * checked / to_check, 99)
    }
}

/// Overall percentage, computed exactly as `spec_all_progress` states.
pub fn all_progress_percent(idx: u8, max_idx: u8, checked: u64, to_check: u64) -> (r: i32)
    requires
        idx <= max_idx,
    ensures
        r == spec_all_progress(idx as int, max_idx as int, checked as int, to_check as int),
        0 <= r <= 99,
{
    if to_check == 0 {
        let q: u128 = (100u128 * (idx as u128)) / ((max_idx as u128) + 1);
        proof {
            let d = (max_idx as int) + 1;
            assert(100 * (idx as int) < d * 100) by {
                vstd::arithmetic::mul::lemma_mul_strict_inequality(idx as int, d, 100);
                vstd::arithmetic::mul::lemma_mul_is_commutative(idx as int, 100);
            }
            vstd::arithmetic::div_mod::lemma_multiply_divide_lt(100 * (idx as int), d, 100);
        }
        q as i32
    } else {
        proof {
            vstd::arithmetic::mul::lemma_mul_upper_bound(
                idx as int,
                0xff,
                to_check as int,
                0xffff_ffff_ffff_ffff,
            );
            vstd::arithmetic::mul::lemma_mul_upper_bound(
                (max_idx as int) + 1,
                0x100,
                to_check as int,
                0xffff_ffff_ffff_ffff,
            );
            vstd::arithmetic::mul::lemma_mul_strictly_positive(
                (max_idx as int) + 1,
                to_check as int,
            );
        }
        let num: u128 = 100u128 * ((idx as u128) * (to_check as u128) + (checked as u128));
        let den: u128 = ((max_idx as u128) + 1) * (to_check as u128);
        let q: u128 = num / den;
        if q >= 99 {
            99
        } else {
            q as i32
        }
    }
}

/// Within-stage percentage, computed exactly as `spec_current_progress` states.
pub fn current_progress_percent(checked: u64, to_check: u64) -> (r: i32)
    ensures
        r == spec_current_progress(checked as int, to_check as int),
        -1 <= r <= 99,
{
    if to_check == 0 {
        -1
    } else {
        let q: u128 = (100u128 * (checked as u128)) / (to_check as u128);
        if q >= 99 {
            99
        } else {
            q as i32
        }
    }
}

/// The human-readable text of a byte count in decimal units. Named after
/// `humansize::format_size`, whose result depends on the byte count alone.
pub uninterp spec fn size_text(bytes: u64) -> Seq<char>;

/// Relies on `humansize::format_size` with the decimal options: it formats
/// the byte count, and nothing else, as text.
#[verifier::external_body]
fn format_size_decimal(bytes: u64) -> (r: String)
    ensures
        r@ == size_text(bytes),
{
    humansize::format_size(bytes, humansize::DECIMAL)
}

/// The label of a sample in the item-collection stage: what is being
/// scanned, with the number of entries seen so far.
pub open spec fn spec_collect_label(tool: Tool, stage: StageTag, checked: int) -> Seq<char> {
    if stage == StageTag::DuplicateScanningName {
        "Scanning name of "@ + dec_digits(checked as nat) + " file"@
    } else if stage == StageTag::DuplicateScanningSizeName {
        "Scanning size and name of "@ + dec_digits(checked as nat) + " file"@
    } else if stage == StageTag::DuplicateScanningSize {
        "Scanning size of "@ + dec_digits(checked as nat) + " file"@
    } else if tool != Tool::EmptyFolders {
        "Scanning "@ + dec_digits(checked as nat) + " file"@
    } else {
        "Scanning "@ + dec_digits(checked as nat) + " folder"@
    }
}

/// The label of a sample in a cache loading or saving stage.
pub open spec fn spec_cache_label(stage: StageTag) -> Seq<char> {
    match stage {
        StageTag::SameMusicCacheLoadingTags => "Loading tags cache"@,
        StageTag::SameMusicCacheLoadingFingerprints => "Loading fingerprints cache"@,
        StageTag::SameMusicCacheSavingTags => "Saving tags cache"@,
        StageTag::SameMusicCacheSavingFingerprints => "Saving fingerprints cache"@,
        StageTag::DuplicatePreHashCacheLoading => "Loading prehash cache"@,
        StageTag::DuplicatePreHashCacheSaving => "Saving prehash cache"@,
        StageTag::DuplicateCacheLoading => "Loading hash cache"@,
        StageTag::DuplicateCacheSaving => "Saving hash cache"@,
        _ => ""@,
    }
}

/// "checked/to-check" as text.
pub open spec fn spec_items_stats(checked: int, to_check: int) -> Seq<char> {
    dec_digits(checked as nat) + "/"@ + dec_digits(to_check as nat)
}

/// "checked bytes/to-check bytes" as text, in decimal units.
pub open spec fn spec_size_stats(bytes_checked: u64, bytes_to_check: u64) -> Seq<char> {
    size_text(bytes_checked) + "/"@ + size_text(bytes_to_check)
}

/// The label of a sample in a counting stage with known totals.
pub open spec fn spec_counting_label(
    stage: StageTag,
    checked: int,
    to_check: int,
    bytes_checked: u64,
    bytes_to_check: u64,
) -> Seq<char> {
    let items = spec_items_stats(checked, to_check);
    let sizes = spec_size_stats(bytes_checked, bytes_to_check);
    match stage {
        StageTag::SameMusicReadingTags => "Checked tags of "@ + items,
        StageTag::SameMusicCalculatingFingerprints => "Checked content of "@ + items + " ("@
            + sizes + ")"@,
        StageTag::SameMusicComparingTags => "Compared tags of "@ + items,
        StageTag::SameMusicComparingFingerprints => "Compared content of "@ + items,
        StageTag::SimilarImagesCalculatingHashes => "Hashed of "@ + items + " image ("@ + sizes
            + ")"@,
        StageTag::SimilarImagesComparingHashes => "Compared "@ + items + " image hash"@,
        StageTag::SimilarVideosCalculatingHashes => "Hashed of "@ + items + " video"@,
        StageTag::BrokenFilesChecking => "Checked "@ + items + " file ("@ + sizes + ")"@,
        StageTag::BadExtensionsChecking => "Checked "@ + items + " file"@,
        StageTag::DuplicatePreHashing => "Analyzed partial hash of "@ + items + " files ("@
            + sizes + ")"@,
        StageTag::DuplicateFullHashing => "Analyzed full hash of "@ + items + " files ("@ + sizes
            + ")"@,
        _ => ""@,
    }
}

impl ProgressSample {
    /// The stage indices are consistent, and in a stage that is neither
    /// item collection nor cache work the tag is a counting one.
    pub open spec fn well_formed(self) -> bool {
        &&& self.current_stage_idx <= self.max_stage_idx
        &&& (self.current_stage_idx > 0 && !spec_is_cache_stage(self.stage))
            ==> spec_is_counting_stage(self.stage)
    }

    /// The label this sample is shown with.
    pub open spec fn spec_step_name(self) -> Seq<char> {
        if self.current_stage_idx == 0 {
            spec_collect_label(self.tool, self.stage, self.entries_checked as int)
        } else if spec_is_cache_stage(self.stage) {
            spec_cache_label(self.stage)
        } else {
            spec_counting_label(
                self.stage,
                self.entries_checked as int,
                self.entries_to_check as int,
                self.bytes_checked,
                self.bytes_to_check,
            )
        }
    }
}

/// The within-stage percentage never decreases while work proceeds within a
/// fixed stage: more entries checked can only raise the reported percentage.
pub proof fn lemma_current_progress_monotone(checked1: int, checked2: int, to_check: int)
    requires
        0 <= checked1 <= checked2,
        to_check > 0,
    ensures
        spec_current_progress(checked1, to_check) <= spec_current_progress(checked2, to_check),
{
    assert(100 * checked1 <= 100 * checked2);
    vstd::arithmetic::div_mod::lemma_div_is_ordered(
        100 * checked1,
        100 * checked2,
        to_check,
    );
}

/// Law: while total work is unknown, the within-stage percentage is the
/// unknown sentinel and the overall percentage is the floor of the stage
/// fraction alone.
pub proof fn law_progress_unknown_totals(idx: int, max_idx: int, checked: int)
    requires
        0 <= idx <= max_idx,
    ensures
        spec_current_progress(checked, 0) == -1,
        spec_all_progress(idx, max_idx, checked, 0) == 100 * idx / (max_idx + 1),
{
}

/// Law: with totals known, the within-stage percentage stays between 0 and
/// 99 and never decreases as entries are checked within a fixed stage.
pub proof fn law_progress_known_totals(checked1: int, checked2: int, to_check: int)
    requires
        0 <= checked1 <= checked2,
        to_check > 0,
    ensures
        0 <= spec_current_progress(checked1, to_check) <= 99,
        spec_current_progress(checked1, to_check) <= spec_current_progress(checked2, to_check),
{
    vstd::arithmetic::div_mod::lemma_div_pos_is_pos(100 * checked1, to_check);
    lemma_current_progress_monotone(checked1, checked2, to_check);
}

/// The collection-stage label, exactly as `spec_collect_label` states.
fn collect_label(tool: Tool, stage: StageTag, checked: u64) -> (r: String)
    ensures
        r@ == spec_collect_label(tool, stage, checked as int),
{
    let n = crate::text::u64_to_string(checked);
    if matches!(stage, StageTag::DuplicateScanningName) {
        let mut s = String::from_str("Scanning name of ");
        s.append(n.as_str());
        s.append(" file");
        s
    } else if matches!(stage, StageTag::DuplicateScanningSizeName) {
        let mut s = String::from_str("Scanning size and name of ");
        s.append(n.as_str());
        s.append(" file");
        s
    } else if matches!(stage, StageTag::DuplicateScanningSize) {
        let mut s = String::from_str("Scanning size of ");
        s.append(n.as_str());
        s.append(" file");
        s
    } else {
        let mut s = String::from_str("Scanning ");
        s.append(n.as_str());
        if !matches!(tool, Tool::EmptyFolders) {
            s.append(" file");
        } else {
            s.append(" folder");
        }
        s
    }
}

/// The cache-stage label, exactly as `spec_cache_label` states.
fn cache_label(stage: StageTag) -> (r: String)
    requires
        spec_is_cache_stage(stage),
    ensures
        r@ == spec_cache_label(stage),
{
    match stage {
        StageTag::SameMusicCacheLoadingTags => String::from_str("Loading tags cache"),
        StageTag::SameMusicCacheLoadingFingerprints => String::from_str(
            "Loading fingerprints cache",
        ),
        StageTag::SameMusicCacheSavingTags => String::from_str("Saving tags cache"),
        StageTag::SameMusicCacheSavingFingerprints => String::from_str(
            "Saving fingerprints cache",
        ),
        StageTag::DuplicatePreHashCacheLoading => String::from_str("Loading prehash cache"),
        StageTag::DuplicatePreHashCacheSaving => String::from_str("Saving prehash cache"),
        StageTag::DuplicateCacheLoading => String::from_str("Loading hash cache"),
        _ => String::from_str("Saving hash cache"),
    }
}

/// The counting-stage label, exactly as `spec_counting_label` states.
fn counting_label(
    stage: StageTag,
    checked: u64,
    to_check: u64,
    bytes_checked: u64,
    bytes_to_check: u64,
) -> (r: String)
    requires
        spec_is_counting_stage(stage),
    ensures
        r@ == spec_counting_label(
            stage,
            checked as int,
            to_check as int,
            bytes_checked,
            bytes_to_check,
        ),
{
    let mut items = crate::text::u64_to_string(checked);
    items.append("/");
    let tcs = crate::text::u64_to_string(to_check);
    items.append(tcs.as_str());
    let mut sizes = format_size_decimal(bytes_checked);
    sizes.append("/");
    let bts = format_size_decimal(bytes_to_check);
    sizes.append(bts.as_str());
    match stage {
        StageTag::SameMusicReadingTags => {
            let mut s = String::from_str("Checked tags of ");
            s.append(items.as_str());
            s
        },
        StageTag::SameMusicCalculatingFingerprints => {
            let mut s = String::from_str("Checked content of ");
            s.append(items.as_str());
            s.append(" (");
            s.append(sizes.as_str());
            s.append(")");
            s
        },
        StageTag::SameMusicComparingTags => {
            let mut s = String::from_str("Compared tags of ");
            s.append(items.as_str());
            s
        },
        StageTag::SameMusicComparingFingerprints => {
            let mut s = String::from_str("Compared content of ");
            s.append(items.as_str());
            s
        },
        StageTag::SimilarImagesCalculatingHashes => {
            let mut s = String::from_str("Hashed of ");
            s.append(items.as_str());
            s.append(" image (");
            s.append(sizes.as_str());
            s.append(")");
            s
        },
        StageTag::SimilarImagesComparingHashes => {
            let mut s = String::from_str("Compared ");
            s.append(items.as_str());
            s.append(" image hash");
            s
        },
        StageTag::SimilarVideosCalculatingHashes => {
            let mut s = String::from_str("Hashed of ");
            s.append(items.as_str());
            s.append(" video");
            s
        },
        StageTag::BrokenFilesChecking => {
            let mut s = String::from_str("Checked ");
            s.append(items.as_str());
            s.append(" file (");
            s.append(sizes.as_str());
            s.append(")");
            s
        },
        StageTag::BadExtensionsChecking => {
            let mut s = String::from_str("Checked ");
            s.append(items.as_str());
            s.append(" file");
            s
        },
        StageTag::DuplicatePreHashing => {
            let mut s = String::from_str("Analyzed partial hash of ");
            s.append(items.as_str());
            s.append(" files (");
            s.append(sizes.as_str());
            s.append(")");
            s
        },
        _ => {
            let mut s = String::from_str("Analyzed full hash of ");
            s.append(items.as_str());
            s.append(" files (");
            s.append(sizes.as_str());
            s.append(")");
            s
        },
    }
}

/// Maps one raw progress sample to the normalized event the UI shows:
/// the percentage pair follows `spec_all_progress` and
/// `spec_current_progress`, and the label follows `spec_step_name`.
pub fn process_progress_data(sample: &ProgressSample) -> (r: ProgressToSend)
    requires
        sample.well_formed(),
    ensures
        r.all_progress == spec_all_progress(
            sample.current_stage_idx as int,
            sample.max_stage_idx as int,
            sample.entries_checked as int,
            sample.entries_to_check as int,
        ),
        r.current_progress == spec_current_progress(
            sample.entries_checked as int,
            sample.entries_to_check as int,
        ),
        r.step_name@ == sample.spec_step_name(),
{
    let all_progress = all_progress_percent(
        sample.current_stage_idx,
        sample.max_stage_idx,
        sample.entries_checked,
        sample.entries_to_check,
    );
    let current_progress = current_progress_percent(
        sample.entries_checked,
        sample.entries_to_check,
    );
    let step_name = if sample.current_stage_idx == 0 {
        collect_label(sample.tool, sample.stage, sample.entries_checked)
    } else if is_cache_stage(sample.stage) {
        cache_label(sample.stage)
    } else {
        counting_label(
            sample.stage,
            sample.entries_checked,
            sample.entries_to_check,
            sample.bytes_checked,
            sample.bytes_to_check,
        )
    };
    ProgressToSend { current_progress, all_progress, step_name }
}

/// Whether a sample can be normalized, exactly as `well_formed` states:
/// the stage indices are consistent, and past the collection stage the tag
/// is either a cache or a counting one.
pub fn sample_well_formed(sample: &ProgressSample) -> (r: bool)
    ensures
        r == sample.well_formed(),
{
    sample.current_stage_idx <= sample.max_stage_idx && (sample.current_stage_idx == 0
        || is_cache_stage(sample.stage) || is_counting_stage(sample.stage))
}

/// Whether the tag belongs to a stage with known totals and its own
/// counting label, exactly as `spec_is_counting_stage` states.
pub fn is_counting_stage(stage: StageTag) -> (r: bool)
    ensures
        r == spec_is_counting_stage(stage),
{
    matches!(
        stage,
        StageTag::SameMusicReadingTags
        | StageTag::SameMusicCalculatingFingerprints
        | StageTag::SameMusicComparingTags
        | StageTag::SameMusicComparingFingerprints
        | StageTag::SimilarImagesCalculatingHashes
        | StageTag::SimilarImagesComparingHashes
        | StageTag::SimilarVideosCalculatingHashes
        | StageTag::BrokenFilesChecking
        | StageTag::BadExtensionsChecking
        | StageTag::DuplicatePreHashing
        | StageTag::DuplicateFullHashing
    )
}

/// Whether the tag marks a cache loading or saving phase, exactly as
/// `spec_is_cache_stage` states.
pub fn is_cache_stage(stage: StageTag) -> (r: bool)
    ensures
        r == spec_is_cache_stage(stage),
{
    matches!(
        stage,
        StageTag::SameMusicCacheLoadingTags
        | StageTag::SameMusicCacheLoadingFingerprints
        | StageTag::SameMusicCacheSavingTags
        | StageTag::SameMusicCacheSavingFingerprints
        | StageTag::DuplicatePreHashCacheLoading
        | StageTag::DuplicatePreHashCacheSaving
        | StageTag::DuplicateCacheLoading
        | StageTag::DuplicateCacheSaving
    )
}

} // verus!
