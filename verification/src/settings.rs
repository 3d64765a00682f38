//! Scan configuration: the common settings payload, the string-keyed
//! sub-options parsed into closed enumerations with documented fallbacks,
//! and the platform defaults assembled from plain environment inputs.

use vstd::prelude::*;
use vstd::string::StringExecFns;
use crate::text::str_eq;
use crate::scaner::{spec_conflicts, spec_conflict_messages, validate_directory_conflicts};
use crate::utils::{spec_split_comma, split_str_with_comma};

verus! {

/// The part of the settings payload that the orchestration itself consumes.
pub struct ScanSettings {
    pub included_directories: Vec<String>,
    pub included_directories_referenced: Vec<String>,
    pub excluded_directories: Vec<String>,
    pub excluded_items: String,
    pub allowed_extensions: String,
    pub excluded_extensions: String,
    pub minimum_file_size: i32,
    pub maximum_file_size: i32,
    pub recursive_search: bool,
    pub use_cache: bool,
    pub save_also_as_json: bool,
}

/// The common configuration handed to a scan engine, with sizes scaled and
/// the excluded-item patterns split.
pub struct CommonScanConfig {
    pub included_directories: Vec<String>,
    pub reference_directories: Vec<String>,
    pub use_reference: bool,
    pub excluded_directories: Vec<String>,
    pub recursive_search: bool,
    pub minimal_file_size: u64,
    pub maximal_file_size: u64,
    pub allowed_extensions: String,
    pub excluded_extensions: String,
    pub excluded_items: Vec<String>,
    pub use_cache: bool,
    pub save_also_as_json: bool,
}

/// Builds the common engine configuration and the conflict warnings: every
/// field carries over exactly, file sizes are scaled to bytes, reference
/// directories apply only when they differ in number from the included
/// ones, and a warning is produced for each included (and, when present,
/// referenced) directory lying inside an excluded one.
pub fn build_common_config(settings: ScanSettings) -> (r: (CommonScanConfig, Vec<String>))
    requires
        0 <= settings.minimum_file_size,
        0 <= settings.maximum_file_size,
    ensures
        r.0.included_directories == settings.included_directories,
        r.0.use_reference == (settings.included_directories@.len()
            != settings.included_directories_referenced@.len()),
        r.0.use_reference ==> r.0.reference_directories
            == settings.included_directories_referenced,
        !r.0.use_reference ==> r.0.reference_directories@.len() == 0,
        r.0.excluded_directories == settings.excluded_directories,
        r.0.recursive_search == settings.recursive_search,
        r.0.minimal_file_size == settings.minimum_file_size * 1000,
        r.0.maximal_file_size == settings.maximum_file_size * 1000,
        r.0.allowed_extensions == settings.allowed_extensions,
        r.0.excluded_extensions == settings.excluded_extensions,
        r.0.excluded_items.deep_view() == spec_split_comma(settings.excluded_items@),
        r.0.use_cache == settings.use_cache,
        r.0.save_also_as_json == settings.save_also_as_json,
        r.1.deep_view() == spec_conflict_messages(
            spec_conflicts(
                settings.included_directories.deep_view(),
                settings.excluded_directories.deep_view(),
            ),
        ) + if settings.included_directories_referenced@.len() > 0 {
            spec_conflict_messages(
                spec_conflicts(
                    settings.included_directories_referenced.deep_view(),
                    settings.excluded_directories.deep_view(),
                ),
            )
        } else {
            Seq::empty()
        },
{
    let mut warnings = validate_directory_conflicts(
        &settings.included_directories,
        &settings.excluded_directories,
    );
    let ghost w1 = warnings.deep_view();
    if settings.included_directories_referenced.len() > 0 {
        let mut more = validate_directory_conflicts(
            &settings.included_directories_referenced,
            &settings.excluded_directories,
        );
        let ghost w2 = more.deep_view();
        warnings.append(&mut more);
        proof {
            assert(warnings.deep_view() =~~= w1 + w2);
        }
    } else {
        proof {
            assert(warnings.deep_view() =~~= w1 + Seq::<Seq<char>>::empty());
        }
    }
    let use_reference = settings.included_directories.len()
        != settings.included_directories_referenced.len();
    let reference_directories = if use_reference {
        settings.included_directories_referenced
    } else {
        Vec::new()
    };
    let config = CommonScanConfig {
        included_directories: settings.included_directories,
        reference_directories,
        use_reference,
        excluded_directories: settings.excluded_directories,
        recursive_search: settings.recursive_search,
        minimal_file_size: (settings.minimum_file_size as u64) * 1000,
        maximal_file_size: (settings.maximum_file_size as u64) * 1000,
        allowed_extensions: settings.allowed_extensions,
        excluded_extensions: settings.excluded_extensions,
        excluded_items: split_str_with_comma(settings.excluded_items),
        use_cache: settings.use_cache,
        save_also_as_json: settings.save_also_as_json,
    };
    (config, warnings)
}

/// The hash algorithm for duplicate detection.
#[derive(Clone, Copy, PartialEq, Eq, Structural, Debug)]
pub enum HashKind {
    Blake3,
    Crc32,
    Xxh3,
}

/// Which hash a name selects; anything unrecognized falls back to Blake3.
pub open spec fn spec_parse_hash_kind(name: Seq<char>) -> HashKind {
    if name == "CRC32"@ {
        HashKind::Crc32
    } else if name == "XXH3"@ {
        HashKind::Xxh3
    } else {
        HashKind::Blake3
    }
}

/// Parses the hash-algorithm name, exactly as `spec_parse_hash_kind`
/// states.
pub fn parse_hash_kind(name: &str) -> (r: HashKind)
    ensures
        r == spec_parse_hash_kind(name@),
{
    if str_eq(name, "CRC32") {
        HashKind::Crc32
    } else if str_eq(name, "XXH3") {
        HashKind::Xxh3
    } else {
        HashKind::Blake3
    }
}

/// How duplicates are matched.
#[derive(Clone, Copy, PartialEq, Eq, Structural, Debug)]
pub enum CheckMethod {
    Hash,
    Size,
    Name,
    SizeName,
}

/// Which method a name selects; anything unrecognized falls back to Hash.
pub open spec fn spec_parse_check_method(name: Seq<char>) -> CheckMethod {
    if name == "Size"@ {
        CheckMethod::Size
    } else if name == "Name"@ {
        CheckMethod::Name
    } else if name == "SizeAndName"@ {
        CheckMethod::SizeName
    } else {
        CheckMethod::Hash
    }
}

/// Parses the check-method name, exactly as `spec_parse_check_method`
/// states.
pub fn parse_check_method(name: &str) -> (r: CheckMethod)
    ensures
        r == spec_parse_check_method(name@),
{
    if str_eq(name, "Size") {
        CheckMethod::Size
    } else if str_eq(name, "Name") {
        CheckMethod::Name
    } else if str_eq(name, "SizeAndName") {
        CheckMethod::SizeName
    } else {
        CheckMethod::Hash
    }
}

/// The perceptual hash algorithm for similar images.
#[derive(Clone, Copy, PartialEq, Eq, Structural, Debug)]
pub enum ImageHashAlg {
    Mean,
    Gradient,
    Blockhash,
    VertGradient,
    DoubleGradient,
    Median,
}

/// Which image hash a name selects; anything unrecognized falls back to
/// Mean.
pub open spec fn spec_parse_image_hash_alg(name: Seq<char>) -> ImageHashAlg {
    if name == "Gradient"@ {
        ImageHashAlg::Gradient
    } else if name == "BlockHash"@ {
        ImageHashAlg::Blockhash
    } else if name == "VertGradient"@ {
        ImageHashAlg::VertGradient
    } else if name == "DoubleGradient"@ {
        ImageHashAlg::DoubleGradient
    } else if name == "Median"@ {
        ImageHashAlg::Median
    } else {
        ImageHashAlg::Mean
    }
}

/// Parses the image-hash name, exactly as `spec_parse_image_hash_alg`
/// states.
pub fn parse_image_hash_alg(name: &str) -> (r: ImageHashAlg)
    ensures
        r == spec_parse_image_hash_alg(name@),
{
    if str_eq(name, "Gradient") {
        ImageHashAlg::Gradient
    } else if str_eq(name, "BlockHash") {
        ImageHashAlg::Blockhash
    } else if str_eq(name, "VertGradient") {
        ImageHashAlg::VertGradient
    } else if str_eq(name, "DoubleGradient") {
        ImageHashAlg::DoubleGradient
    } else if str_eq(name, "Median") {
        ImageHashAlg::Median
    } else {
        ImageHashAlg::Mean
    }
}

/// The image resize filter for similar images.
#[derive(Clone, Copy, PartialEq, Eq, Structural, Debug)]
pub enum ResizeAlg {
    Lanczos3,
    Gaussian,
    CatmullRom,
    Triangle,
    Nearest,
}

/// Which resize filter a name selects; anything unrecognized falls back to
/// Lanczos3.
pub open spec fn spec_parse_resize_alg(name: Seq<char>) -> ResizeAlg {
    if name == "Gaussian"@ {
        ResizeAlg::Gaussian
    } else if name == "CatmullRom"@ {
        ResizeAlg::CatmullRom
    } else if name == "Triangle"@ {
        ResizeAlg::Triangle
    } else if name == "Nearest"@ {
        ResizeAlg::Nearest
    } else {
        ResizeAlg::Lanczos3
    }
}

/// Parses the resize-filter name, exactly as `spec_parse_resize_alg`
/// states.
pub fn parse_resize_alg(name: &str) -> (r: ResizeAlg)
    ensures
        r == spec_parse_resize_alg(name@),
{
    if str_eq(name, "Gaussian") {
        ResizeAlg::Gaussian
    } else if str_eq(name, "CatmullRom") {
        ResizeAlg::CatmullRom
    } else if str_eq(name, "Triangle") {
        ResizeAlg::Triangle
    } else if str_eq(name, "Nearest") {
        ResizeAlg::Nearest
    } else {
        ResizeAlg::Lanczos3
    }
}

/// Whether the biggest or the smallest files are sought.
#[derive(Clone, Copy, PartialEq, Eq, Structural, Debug)]
pub enum BigFilesMode {
    BiggestFiles,
    SmallestFiles,
}

/// Which mode a name selects; anything unrecognized falls back to the
/// biggest files.
pub open spec fn spec_parse_big_files_mode(name: Seq<char>) -> BigFilesMode {
    if name == "SmallestFiles"@ {
        BigFilesMode::SmallestFiles
    } else {
        BigFilesMode::BiggestFiles
    }
}

/// Parses the search-mode name, exactly as `spec_parse_big_files_mode`
/// states.
pub fn parse_big_files_mode(name: &str) -> (r: BigFilesMode)
    ensures
        r == spec_parse_big_files_mode(name@),
{
    if str_eq(name, "SmallestFiles") {
        BigFilesMode::SmallestFiles
    } else {
        BigFilesMode::BiggestFiles
    }
}

/// How music duplicates are compared.
#[derive(Clone, Copy, PartialEq, Eq, Structural, Debug)]
pub enum AudioCheck {
    AudioTags,
    AudioContent,
}

/// Which audio check a name selects; anything unrecognized falls back to
/// tags.
pub open spec fn spec_parse_audio_check(name: Seq<char>) -> AudioCheck {
    if name == "Fingerprint"@ {
        AudioCheck::AudioContent
    } else {
        AudioCheck::AudioTags
    }
}

/// Parses the audio-check name, exactly as `spec_parse_audio_check`
/// states.
pub fn parse_audio_check(name: &str) -> (r: AudioCheck)
    ensures
        r == spec_parse_audio_check(name@),
{
    if str_eq(name, "Fingerprint") {
        AudioCheck::AudioContent
    } else {
        AudioCheck::AudioTags
    }
}

/// The music-similarity flag for matching track titles.
pub const MUSIC_TRACK_TITLE: u32 = 1;

/// The music-similarity flag for matching track artists.
pub const MUSIC_TRACK_ARTIST: u32 = 2;

/// The music-similarity flag for matching years.
pub const MUSIC_YEAR: u32 = 4;

/// The music-similarity flag for matching bitrates.
pub const MUSIC_BITRATE: u32 = 8;

/// The music-similarity flag for matching genres.
pub const MUSIC_GENRE: u32 = 16;

/// The music-similarity flag for matching lengths.
pub const MUSIC_LENGTH: u32 = 32;

/// The flag set the music sub-options select; with nothing selected, the
/// documented default is title and artist.
pub open spec fn spec_music_similarity_flags(
    title: bool,
    artist: bool,
    year: bool,
    bitrate: bool,
    genre: bool,
    length: bool,
) -> u32 {
    let v = (if title {
        MUSIC_TRACK_TITLE
    } else {
        0
    }) + (if artist {
        MUSIC_TRACK_ARTIST
    } else {
        0
    }) + (if year {
        MUSIC_YEAR
    } else {
        0
    }) + (if bitrate {
        MUSIC_BITRATE
    } else {
        0
    }) + (if genre {
        MUSIC_GENRE
    } else {
        0
    }) + (if length {
        MUSIC_LENGTH
    } else {
        0
    });
    if v == 0 {
        (MUSIC_TRACK_TITLE + MUSIC_TRACK_ARTIST) as u32
    } else {
        v as u32
    }
}

/// Builds the music-similarity flag set, exactly as
/// `spec_music_similarity_flags` states.
pub fn music_similarity_flags(
    title: bool,
    artist: bool,
    year: bool,
    bitrate: bool,
    genre: bool,
    length: bool,
) -> (r: u32)
    ensures
        r == spec_music_similarity_flags(title, artist, year, bitrate, genre, length),
{
    let mut v: u32 = 0;
    if title {
        v = v + MUSIC_TRACK_TITLE;
    }
    if artist {
        v = v + MUSIC_TRACK_ARTIST;
    }
    if year {
        v = v + MUSIC_YEAR;
    }
    if bitrate {
        v = v + MUSIC_BITRATE;
    }
    if genre {
        v = v + MUSIC_GENRE;
    }
    if length {
        v = v + MUSIC_LENGTH;
    }
    if v == 0 {
        MUSIC_TRACK_TITLE + MUSIC_TRACK_ARTIST
    } else {
        v
    }
}

/// The broken-files flag for checking audio files.
pub const BROKEN_AUDIO: u32 = 1;

/// The broken-files flag for checking PDF files.
pub const BROKEN_PDF: u32 = 2;

/// The broken-files flag for checking archives.
pub const BROKEN_ARCHIVE: u32 = 4;

/// The broken-files flag for checking images.
pub const BROKEN_IMAGE: u32 = 8;

/// The flag set the broken-files sub-options select; with nothing
/// selected, the documented default is audio alone.
pub open spec fn spec_broken_checked_types(
    audio: bool,
    pdf: bool,
    archive: bool,
    image: bool,
) -> u32 {
    let v = (if audio {
        BROKEN_AUDIO
    } else {
        0
    }) + (if pdf {
        BROKEN_PDF
    } else {
        0
    }) + (if archive {
        BROKEN_ARCHIVE
    } else {
        0
    }) + (if image {
        BROKEN_IMAGE
    } else {
        0
    });
    if v == 0 {
        BROKEN_AUDIO
    } else {
        v as u32
    }
}

/// Builds the broken-files flag set, exactly as
/// `spec_broken_checked_types` states.
pub fn broken_checked_types(audio: bool, pdf: bool, archive: bool, image: bool) -> (r: u32)
    ensures
        r == spec_broken_checked_types(audio, pdf, archive, image),
{
    let mut v: u32 = 0;
    if audio {
        v = v + BROKEN_AUDIO;
    }
    if pdf {
        v = v + BROKEN_PDF;
    }
    if archive {
        v = v + BROKEN_ARCHIVE;
    }
    if image {
        v = v + BROKEN_IMAGE;
    }
    if v == 0 {
        BROKEN_AUDIO
    } else {
        v
    }
}

/// The numeric value of a run of decimal digits, read left to right.
pub open spec fn spec_digits_value(s: Seq<char>) -> int
    decreases s.len(),
{
    if s.len() == 0 {
        0
    } else {
        spec_digits_value(s.drop_last()) * 10 + (s.last() as u32 - 48)
    }
}

/// Whether every character is a decimal digit.
pub open spec fn spec_all_digits(s: Seq<char>) -> bool {
    forall|i: int| 0 <= i < s.len() ==> 48 <= (#[trigger] s[i]) as u32 <= 57
}

/// What parsing a string as a small number gives: its value, when the
/// string is a nonempty run of digits whose value fits.
pub open spec fn spec_parse_u8(s: Seq<char>) -> Option<u8> {
    if s.len() > 0 && spec_all_digits(s) && spec_digits_value(s) <= 255 {
        Some(spec_digits_value(s) as u8)
    } else {
        None
    }
}

/// The value of a digit run never shrinks as digits are appended.
proof fn lemma_digits_value_grows(s: Seq<char>, j: int)
    requires
        0 <= j <= s.len(),
        spec_all_digits(s),
    ensures
        spec_digits_value(s.take(j)) <= spec_digits_value(s),
        spec_digits_value(s) >= 0,
    decreases s.len(),
{
    if s.len() > 0 {
        assert(s.drop_last() =~= s.take(s.len() - 1));
        assert(spec_all_digits(s.take(s.len() - 1)));
        lemma_digits_value_grows(s.take(s.len() - 1), if j < s.len() {
            j
        } else {
            s.len() - 1
        });
        if j == s.len() {
            assert(s.take(j) =~= s);
        } else {
            assert(s.take(s.len() - 1).take(j) =~= s.take(j));
        }
    } else {
        assert(s.take(j) =~= s);
    }
}

/// Parses a run of digits, exactly as `spec_parse_u8` states.
pub fn parse_u8(s: &str) -> (r: Option<u8>)
    ensures
        r == spec_parse_u8(s@),
{
    let chars = crate::text::str_to_chars(s);
    if chars.len() == 0 {
        return None;
    }
    let mut acc: u32 = 0;
    let mut i: usize = 0;
    while i < chars.len()
        invariant
            i <= chars@.len(),
            chars@ == s@,
            acc == spec_digits_value(s@.take(i as int)),
            acc <= 255,
            spec_all_digits(s@.take(i as int)),
        decreases chars@.len() - i,
    {
        let c = chars[i];
        let code = c as u32;
        proof {
            assert(s@.take(i as int + 1).drop_last() =~= s@.take(i as int));
            assert(s@.take(i as int + 1).last() == s@[i as int]);
        }
        if code < 48 || code > 57 {
            return None;
        }
        let next: u32 = acc * 10 + (code - 48);
        proof {
            assert(spec_all_digits(s@.take(i as int + 1)));
        }
        if next > 255 {
            proof {
                if spec_all_digits(s@) {
                    lemma_digits_value_grows(s@, i as int + 1);
                }
            }
            return None;
        }
        acc = next;
        i = i + 1;
    }
    proof {
        assert(s@.take(s@.len() as int) =~= s@);
    }
    Some(acc as u8)
}

/// The hash side length the settings select: the parsed value, or 16 when
/// the string does not parse.
pub open spec fn spec_hash_size_or_default(s: Seq<char>) -> u8 {
    match spec_parse_u8(s) {
        Some(v) => v,
        None => 16,
    }
}

/// Picks the hash side length, exactly as `spec_hash_size_or_default`
/// states.
pub fn hash_size_or_default(s: &str) -> (r: u8)
    ensures
        r == spec_hash_size_or_default(s@),
{
    match parse_u8(s) {
        Some(v) => v,
        None => 16,
    }
}

/// The platform defaults handed to the UI: default include and exclude
/// directories, the default excluded item patterns, the hardware thread
/// count, and the cache directory.
pub struct PlatformSettings {
    pub included_directories: Vec<String>,
    pub excluded_directories: Vec<String>,
    pub excluded_items: String,
    pub available_thread_number: usize,
    pub cache_dir_path: String,
}

/// The default included directories: the home directory when known, else
/// the current directory when known, else the filesystem root of the
/// platform.
pub open spec fn spec_default_included(
    home: Option<Seq<char>>,
    current: Option<Seq<char>>,
    unix: bool,
) -> Seq<Seq<char>> {
    match home {
        Some(h) => seq![h],
        None => match current {
            Some(c) => seq![c],
            None => if unix {
                seq!["/"@]
            } else {
                seq!["C:\\"@]
            },
        },
    }
}

/// The default included directories, exactly as `spec_default_included`
/// states.
pub fn default_included_directories(
    home: &Option<String>,
    current: &Option<String>,
    unix: bool,
) -> (r: Vec<String>)
    ensures
        r.deep_view() == spec_default_included(
            match home {
                Some(h) => Some(h@),
                None => None,
            },
            match current {
                Some(c) => Some(c@),
                None => None,
            },
            unix,
        ),
{
    let mut r: Vec<String> = Vec::new();
    match home {
        Some(h) => r.push(h.clone()),
        None => match current {
            Some(c) => r.push(c.clone()),
            None => if unix {
                r.push(String::from_str("/"));
            } else {
                r.push(String::from_str("C:\\"));
            },
        },
    }
    proof {
        assert(r.deep_view() =~~= Seq::<Seq<char>>::empty().push(r@[0]@));
    }
    r
}

/// The directories excluded by default under a home directory on a
/// platform with per-user media libraries.
pub open spec fn spec_home_excluded(h: Seq<char>) -> Seq<Seq<char>> {
    seq![
        h + "/Downloads"@,
        h + "/Documents"@,
        h + "/Desktop"@,
        h + "/Pictures/Photos Library.photoslibrary"@,
        h + "/Library/Photos/Libraries/Syndication.photoslibrary"@,
        h + "/Library/Application Support/AddressBook"@,
        h + "/Library/Calendars"@,
        h + "/Library/Reminders"@,
    ]
}

/// The default excluded directories: on a platform with per-user media
/// libraries, the home-relative set first, then the engine's own defaults.
pub open spec fn spec_default_excluded(
    home: Option<Seq<char>>,
    macos: bool,
    engine_defaults: Seq<Seq<char>>,
) -> Seq<Seq<char>> {
    (if macos {
        match home {
            Some(h) => spec_home_excluded(h),
            None => Seq::empty(),
        }
    } else {
        Seq::empty()
    }) + engine_defaults
}

/// The default excluded directories, exactly as `spec_default_excluded`
/// states.
pub fn default_excluded_directories(
    home: &Option<String>,
    macos: bool,
    engine_defaults: &Vec<String>,
) -> (r: Vec<String>)
    ensures
        r.deep_view() == spec_default_excluded(
            match home {
                Some(h) => Some(h@),
                None => None,
            },
            macos,
            engine_defaults.deep_view(),
        ),
{
    let mut r: Vec<String> = Vec::new();
    if macos {
        if let Some(h) = home {
            push_home_dir(&mut r, h, "/Downloads");
            push_home_dir(&mut r, h, "/Documents");
            push_home_dir(&mut r, h, "/Desktop");
            push_home_dir(&mut r, h, "/Pictures/Photos Library.photoslibrary");
            push_home_dir(&mut r, h, "/Library/Photos/Libraries/Syndication.photoslibrary");
            push_home_dir(&mut r, h, "/Library/Application Support/AddressBook");
            push_home_dir(&mut r, h, "/Library/Calendars");
            push_home_dir(&mut r, h, "/Library/Reminders");
            proof {
                assert(r.deep_view() =~~= spec_home_excluded(h@));
            }
        }
    }
    let ghost base = r.deep_view();
    let mut i: usize = 0;
    proof {
        assert(base + engine_defaults.deep_view().take(0) =~~= base);
    }
    while i < engine_defaults.len()
        invariant
            i <= engine_defaults@.len(),
            r.deep_view() == base + engine_defaults.deep_view().take(i as int),
        decreases engine_defaults@.len() - i,
    {
        let ghost old_r = r.deep_view();
        r.push(engine_defaults[i].clone());
        i = i + 1;
        proof {
            assert(r.deep_view() =~~= old_r.push(engine_defaults@[i - 1]@));
            assert(r.deep_view() =~~= base + engine_defaults.deep_view().take(i as int));
        }
    }
    proof {
        assert(engine_defaults.deep_view().take(engine_defaults@.len() as int)
            =~~= engine_defaults.deep_view());
    }
    r
}

/// Appends one home-relative directory.
fn push_home_dir(r: &mut Vec<String>, home: &String, item: &str)
    ensures
        final(r)@.len() == old(r)@.len() + 1,
        final(r).deep_view() =~= old(r).deep_view().push(home@ + item@),
{
    let mut s = home.clone();
    s.append(item);
    r.push(s);
    proof {
        assert(r.deep_view() =~~= old(r).deep_view().push(home@ + item@));
    }
}

/// Assembles the platform settings from plain environment inputs: the
/// default directory lists follow `spec_default_included` and
/// `spec_default_excluded`, the engine's default excluded items and the
/// thread count carry over, and a missing cache directory becomes the
/// empty string.
pub fn get_platform_settings(
    home: &Option<String>,
    current: &Option<String>,
    unix: bool,
    macos: bool,
    engine_excluded_defaults: &Vec<String>,
    engine_excluded_items: String,
    available_threads: usize,
    cache_dir_path: Option<String>,
) -> (r: PlatformSettings)
    ensures
        r.included_directories.deep_view() == spec_default_included(
            match home {
                Some(h) => Some(h@),
                None => None,
            },
            match current {
                Some(c) => Some(c@),
                None => None,
            },
            unix,
        ),
        r.excluded_directories.deep_view() == spec_default_excluded(
            match home {
                Some(h) => Some(h@),
                None => None,
            },
            macos,
            engine_excluded_defaults.deep_view(),
        ),
        r.excluded_items == engine_excluded_items,
        r.available_thread_number == available_threads,
        r.cache_dir_path@ == match cache_dir_path {
            Some(p) => p@,
            None => Seq::<char>::empty(),
        },
{
    let included_directories = default_included_directories(home, current, unix);
    let excluded_directories = default_excluded_directories(home, macos, engine_excluded_defaults);
    let cache_dir = match cache_dir_path {
        Some(p) => p,
        None => String::new(),
    };
    PlatformSettings {
        included_directories,
        excluded_directories,
        excluded_items: engine_excluded_items,
        available_thread_number: available_threads,
        cache_dir_path: cache_dir,
    }
}

} // verus!
