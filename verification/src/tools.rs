//! The closed set of tools whose jobs the dispatcher runs, with the
//! per-tool names used at the command boundary.

use vstd::prelude::*;
use crate::text::str_eq;

verus! {

/// One scan tool.
#[derive(Clone, Copy, PartialEq, Eq, Structural, Debug)]
pub enum Tool {
    DuplicateFiles,
    EmptyFolders,
    BigFiles,
    EmptyFiles,
    TemporaryFiles,
    SimilarImages,
    SimilarVideos,
    MusicDuplicates,
    InvalidSymlinks,
    BrokenFiles,
    BadExtensions,
}

/// How many tools there are.
pub const TOOL_COUNT: usize = 11;

/// A distinct index for each tool, used to key the job state registry.
pub open spec fn spec_tool_index(t: Tool) -> int {
    match t {
        Tool::DuplicateFiles => 0,
        Tool::EmptyFolders => 1,
        Tool::BigFiles => 2,
        Tool::EmptyFiles => 3,
        Tool::TemporaryFiles => 4,
        Tool::SimilarImages => 5,
        Tool::SimilarVideos => 6,
        Tool::MusicDuplicates => 7,
        Tool::InvalidSymlinks => 8,
        Tool::BrokenFiles => 9,
        Tool::BadExtensions => 10,
    }
}

/// The user-visible name under which a save request addresses a tool.
pub open spec fn spec_tool_name(t: Tool) -> Seq<char> {
    match t {
        Tool::DuplicateFiles => "Duplicate Files"@,
        Tool::EmptyFolders => "Empty Folders"@,
        Tool::BigFiles => "Big Files"@,
        Tool::EmptyFiles => "Empty Files"@,
        Tool::TemporaryFiles => "Temporary Files"@,
        Tool::SimilarImages => "Similar Images"@,
        Tool::SimilarVideos => "Similar Videos"@,
        Tool::MusicDuplicates => "Music Duplicates"@,
        Tool::InvalidSymlinks => "Invalid Symlinks"@,
        Tool::BrokenFiles => "Broken Files"@,
        Tool::BadExtensions => "Bad Extensions"@,
    }
}

/// The fixed per-tool filename stem under which results are saved.
pub open spec fn spec_save_stem(t: Tool) -> Seq<char> {
    match t {
        Tool::DuplicateFiles => "results_duplicates"@,
        Tool::EmptyFolders => "results_empty_directories"@,
        Tool::BigFiles => "results_big_files"@,
        Tool::EmptyFiles => "results_empty_files"@,
        Tool::TemporaryFiles => "results_temporary_files"@,
        Tool::SimilarImages => "results_similar_images"@,
        Tool::SimilarVideos => "results_similar_videos"@,
        Tool::MusicDuplicates => "results_same_music"@,
        Tool::InvalidSymlinks => "results_invalid_symlinks"@,
        Tool::BrokenFiles => "results_broken_files"@,
        Tool::BadExtensions => "results_bad_extensions"@,
    }
}

/// The command tag a scan result event carries for a tool.
pub open spec fn spec_command_tag(t: Tool) -> Seq<char> {
    match t {
        Tool::DuplicateFiles => "scan_duplicate_files"@,
        Tool::EmptyFolders => "scan_empty_folders"@,
        Tool::BigFiles => "scan_big_files"@,
        Tool::EmptyFiles => "scan_empty_files"@,
        Tool::TemporaryFiles => "scan_temporary_files"@,
        Tool::SimilarImages => "scan_similar_images"@,
        Tool::SimilarVideos => "scan_similar_videos"@,
        Tool::MusicDuplicates => "scan_music_duplicates"@,
        Tool::InvalidSymlinks => "scan_invalid_symlinks"@,
        Tool::BrokenFiles => "scan_broken_files"@,
        Tool::BadExtensions => "scan_bad_extensions"@,
    }
}

/// The noun phrase that the one-line summary counts for a tool.
pub open spec fn spec_found_noun(t: Tool) -> Seq<char> {
    match t {
        Tool::DuplicateFiles => "similar duplicates files"@,
        Tool::EmptyFolders => "empty folders"@,
        Tool::BigFiles => "files"@,
        Tool::EmptyFiles => "empty files"@,
        Tool::TemporaryFiles => "files"@,
        Tool::SimilarImages => "similar image files"@,
        Tool::SimilarVideos => "similar video files"@,
        Tool::MusicDuplicates => "similar music files"@,
        Tool::InvalidSymlinks => "invalid symlinks"@,
        Tool::BrokenFiles => "files"@,
        Tool::BadExtensions => "files with bad extensions"@,
    }
}

/// Which tool a user-visible name addresses, if any.
pub open spec fn spec_parse_tool(name: Seq<char>) -> Option<Tool> {
    if name == spec_tool_name(Tool::DuplicateFiles) {
        Some(Tool::DuplicateFiles)
    } else if name == spec_tool_name(Tool::EmptyFolders) {
        Some(Tool::EmptyFolders)
    } else if name == spec_tool_name(Tool::BigFiles) {
        Some(Tool::BigFiles)
    } else if name == spec_tool_name(Tool::EmptyFiles) {
        Some(Tool::EmptyFiles)
    } else if name == spec_tool_name(Tool::TemporaryFiles) {
        Some(Tool::TemporaryFiles)
    } else if name == spec_tool_name(Tool::SimilarImages) {
        Some(Tool::SimilarImages)
    } else if name == spec_tool_name(Tool::SimilarVideos) {
        Some(Tool::SimilarVideos)
    } else if name == spec_tool_name(Tool::MusicDuplicates) {
        Some(Tool::MusicDuplicates)
    } else if name == spec_tool_name(Tool::InvalidSymlinks) {
        Some(Tool::InvalidSymlinks)
    } else if name == spec_tool_name(Tool::BrokenFiles) {
        Some(Tool::BrokenFiles)
    } else if name == spec_tool_name(Tool::BadExtensions) {
        Some(Tool::BadExtensions)
    } else {
        None
    }
}

impl Tool {
    /// The registry index of this tool; distinct tools have distinct indices.
    pub fn index(self) -> (r: usize)
        ensures
            r == spec_tool_index(self),
            r < TOOL_COUNT,
    {
        match self {
            Tool::DuplicateFiles => 0,
            Tool::EmptyFolders => 1,
            Tool::BigFiles => 2,
            Tool::EmptyFiles => 3,
            Tool::TemporaryFiles => 4,
            Tool::SimilarImages => 5,
            Tool::SimilarVideos => 6,
            Tool::MusicDuplicates => 7,
            Tool::InvalidSymlinks => 8,
            Tool::BrokenFiles => 9,
            Tool::BadExtensions => 10,
        }
    }

    /// The user-visible name of this tool.
    pub fn name(self) -> (r: &'static str)
        ensures
            r@ == spec_tool_name(self),
    {
        match self {
            Tool::DuplicateFiles => "Duplicate Files",
            Tool::EmptyFolders => "Empty Folders",
            Tool::BigFiles => "Big Files",
            Tool::EmptyFiles => "Empty Files",
            Tool::TemporaryFiles => "Temporary Files",
            Tool::SimilarImages => "Similar Images",
            Tool::SimilarVideos => "Similar Videos",
            Tool::MusicDuplicates => "Music Duplicates",
            Tool::InvalidSymlinks => "Invalid Symlinks",
            Tool::BrokenFiles => "Broken Files",
            Tool::BadExtensions => "Bad Extensions",
        }
    }

    /// The fixed filename stem under which this tool's results are saved.
    pub fn save_stem(self) -> (r: &'static str)
        ensures
            r@ == spec_save_stem(self),
    {
        match self {
            Tool::DuplicateFiles => "results_duplicates",
            Tool::EmptyFolders => "results_empty_directories",
            Tool::BigFiles => "results_big_files",
            Tool::EmptyFiles => "results_empty_files",
            Tool::TemporaryFiles => "results_temporary_files",
            Tool::SimilarImages => "results_similar_images",
            Tool::SimilarVideos => "results_similar_videos",
            Tool::MusicDuplicates => "results_same_music",
            Tool::InvalidSymlinks => "results_invalid_symlinks",
            Tool::BrokenFiles => "results_broken_files",
            Tool::BadExtensions => "results_bad_extensions",
        }
    }

    /// The command tag of this tool's scan result event.
    pub fn command_tag(self) -> (r: &'static str)
        ensures
            r@ == spec_command_tag(self),
    {
        match self {
            Tool::DuplicateFiles => "scan_duplicate_files",
            Tool::EmptyFolders => "scan_empty_folders",
            Tool::BigFiles => "scan_big_files",
            Tool::EmptyFiles => "scan_empty_files",
            Tool::TemporaryFiles => "scan_temporary_files",
            Tool::SimilarImages => "scan_similar_images",
            Tool::SimilarVideos => "scan_similar_videos",
            Tool::MusicDuplicates => "scan_music_duplicates",
            Tool::InvalidSymlinks => "scan_invalid_symlinks",
            Tool::BrokenFiles => "scan_broken_files",
            Tool::BadExtensions => "scan_bad_extensions",
        }
    }

    /// The noun phrase that the one-line summary counts for this tool.
    pub fn found_noun(self) -> (r: &'static str)
        ensures
            r@ == spec_found_noun(self),
    {
        match self {
            Tool::DuplicateFiles => "similar duplicates files",
            Tool::EmptyFolders => "empty folders",
            Tool::BigFiles => "files",
            Tool::EmptyFiles => "empty files",
            Tool::TemporaryFiles => "files",
            Tool::SimilarImages => "similar image files",
            Tool::SimilarVideos => "similar video files",
            Tool::MusicDuplicates => "similar music files",
            Tool::InvalidSymlinks => "invalid symlinks",
            Tool::BrokenFiles => "files",
            Tool::BadExtensions => "files with bad extensions",
        }
    }
}

/// Parses a user-visible tool name into the closed enumeration; an
/// unrecognized name gives `None`, exactly as `spec_parse_tool` states.
pub fn parse_tool(name: &str) -> (r: Option<Tool>)
    ensures
        r == spec_parse_tool(name@),
{
    if str_eq(name, "Duplicate Files") {
        Some(Tool::DuplicateFiles)
    } else if str_eq(name, "Empty Folders") {
        Some(Tool::EmptyFolders)
    } else if str_eq(name, "Big Files") {
        Some(Tool::BigFiles)
    } else if str_eq(name, "Empty Files") {
        Some(Tool::EmptyFiles)
    } else if str_eq(name, "Temporary Files") {
        Some(Tool::TemporaryFiles)
    } else if str_eq(name, "Similar Images") {
        Some(Tool::SimilarImages)
    } else if str_eq(name, "Similar Videos") {
        Some(Tool::SimilarVideos)
    } else if str_eq(name, "Music Duplicates") {
        Some(Tool::MusicDuplicates)
    } else if str_eq(name, "Invalid Symlinks") {
        Some(Tool::InvalidSymlinks)
    } else if str_eq(name, "Broken Files") {
        Some(Tool::BrokenFiles)
    } else if str_eq(name, "Bad Extensions") {
        Some(Tool::BadExtensions)
    } else {
        None
    }
}

} // verus!
