//! A model of the filesystem for reasoning about the move fallback: a map
//! from paths to contents. A same-filesystem rename moves an entry in one
//! step; when the rename is refused (a cross-device destination), copying
//! the contents and then removing the source must land in the same state.

use vstd::prelude::*;

verus! {

/// The filesystem after the source's contents appear at the destination.
pub open spec fn spec_copy_entry(
    fs: Map<Seq<char>, Seq<u8>>,
    source: Seq<char>,
    dest: Seq<char>,
) -> Map<Seq<char>, Seq<u8>>
    recommends
        fs.contains_key(source),
{
    fs.insert(dest, fs[source])
}

/// The filesystem after an entry is removed.
pub open spec fn spec_remove_entry(fs: Map<Seq<char>, Seq<u8>>, p: Seq<char>) -> Map<
    Seq<char>,
    Seq<u8>,
> {
    fs.remove(p)
}

/// The filesystem after a one-step rename of the source to the
/// destination.
pub open spec fn spec_rename_entry(
    fs: Map<Seq<char>, Seq<u8>>,
    source: Seq<char>,
    dest: Seq<char>,
) -> Map<Seq<char>, Seq<u8>>
    recommends
        fs.contains_key(source),
{
    fs.insert(dest, fs[source]).remove(source)
}

/// Law: when a direct rename is refused, the fallback of copying the
/// contents and then removing the source still moves the file: afterwards
/// the source no longer exists, the destination exists and holds the
/// source's old contents, and the filesystem is exactly what the one-step
/// rename would have left.
pub proof fn law_move_fallback(fs: Map<Seq<char>, Seq<u8>>, source: Seq<char>, dest: Seq<char>)
    requires
        fs.contains_key(source),
        source != dest,
    ensures
        !spec_remove_entry(spec_copy_entry(fs, source, dest), source).contains_key(source),
        spec_remove_entry(spec_copy_entry(fs, source, dest), source).contains_key(dest),
        spec_remove_entry(spec_copy_entry(fs, source, dest), source)[dest] == fs[source],
        spec_remove_entry(spec_copy_entry(fs, source, dest), source) == spec_rename_entry(
            fs,
            source,
            dest,
        ),
{
    assert(spec_remove_entry(spec_copy_entry(fs, source, dest), source) =~= spec_rename_entry(
        fs,
        source,
        dest,
    ));
}

} // verus!
