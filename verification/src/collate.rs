//! The result collator: the scan engine's raw grouping arrives as plain
//! entries, and leaves as a uniform list of result groups whose members
//! are ordered by the path comparator, with the reference item, when one
//! exists, carried separately and excluded from its own group.

use vstd::prelude::*;
use vstd::string::StringExecFns;
use vstd::multiset::Multiset;
use crate::paths::{spec_path_le, path_le, lemma_path_le_total, lemma_path_le_transitive};
use crate::text::{str_to_chars, u64_to_string, dec_digits};
use crate::tools::{Tool, spec_found_noun};

verus! {

/// One matched item, as the collator sees it: its path (the item's
/// identity and sort key), its size, its modification time, and a
/// similarity rank where the tool produces one.
pub struct ScanEntry {
    pub path: String,
    pub size: u64,
    pub modified_date: u64,
    pub similarity: u32,
}

/// One collated group: an optional reference item and the ordered members.
pub struct ResultGroup {
    pub reference: Option<ScanEntry>,
    pub members: Vec<ScanEntry>,
}

/// Whether the entries stand in path order.
pub open spec fn spec_entries_sorted(s: Seq<ScanEntry>) -> bool {
    forall|i: int, j: int| 0 <= i < j < s.len() ==> spec_path_le(s[i].path@, s[j].path@)
}

/// Whether one entry's path comes at or before another's.
fn entry_path_le(a: &ScanEntry, b: &ScanEntry) -> (r: bool)
    ensures
        r == spec_path_le(a.path@, b.path@),
{
    let ac = str_to_chars(a.path.as_str());
    let bc = str_to_chars(b.path.as_str());
    path_le(&ac, &bc)
}

/// The position at which an entry joins a sorted run: everything before it
/// comes at or before the entry, everything from it on comes at or after.
fn find_insert_pos(v: &Vec<ScanEntry>, x: &ScanEntry) -> (k: usize)
    requires
        spec_entries_sorted(v@),
    ensures
        k <= v@.len(),
        forall|m: int| 0 <= m < k ==> spec_path_le(v@[m].path@, x.path@),
        k < v@.len() ==> !spec_path_le(v@[k as int].path@, x.path@),
{
    let mut k: usize = 0;
    loop
        invariant
            k <= v@.len(),
            forall|m: int| 0 <= m < k ==> spec_path_le(v@[m].path@, x.path@),
        decreases v@.len() - k,
    {
        if k >= v.len() {
            return k;
        }
        if !entry_path_le(&v[k], x) {
            return k;
        }
        k = k + 1;
    }
}

/// Puts one entry into a sorted run, keeping it sorted and adding exactly
/// that entry.
fn insert_sorted(v: &mut Vec<ScanEntry>, x: ScanEntry)
    requires
        spec_entries_sorted(old(v)@),
    ensures
        spec_entries_sorted(final(v)@),
        final(v)@.to_multiset() == old(v)@.to_multiset().insert(x),
        final(v)@.len() == old(v)@.len() + 1,
{
    let ghost s = v@;
    let k = find_insert_pos(v, &x);
    proof {
        lemma_path_le_total(s[k as int].path@, x.path@);
        assert forall|m: int| k <= m < s.len() implies spec_path_le(x.path@, s[m].path@) by {
            if m > k {
                lemma_path_le_transitive(x.path@, s[k as int].path@, s[m].path@);
            }
        }
    }
    v.insert(k, x);
    proof {
        vstd::seq_lib::to_multiset_insert(s, k as int, x);
        assert forall|i: int, j: int| 0 <= i < j < v@.len() implies spec_path_le(
            v@[i].path@,
            v@[j].path@,
        ) by {
            if j < k {
            } else if i < k && j == k {
            } else if i < k && j > k {
                assert(spec_path_le(v@[i].path@, s[j - 1].path@));
            } else if i == k {
                assert(v@[j] == s[j - 1]);
            } else {
                assert(v@[i] == s[i - 1] && v@[j] == s[j - 1]);
            }
        }
    }
}

/// The entries in path order: a permutation of the input whose members
/// stand in the order the path comparator gives, so parent directories
/// come before their children.
pub fn sort_entries_by_path(v: Vec<ScanEntry>) -> (r: Vec<ScanEntry>)
    ensures
        r@.to_multiset() == v@.to_multiset(),
        r@.len() == v@.len(),
        spec_entries_sorted(r@),
{
    let ghost s = v@;
    let mut rest = v;
    let mut out: Vec<ScanEntry> = Vec::new();
    let mut i: usize = 0;
    proof {
        broadcast use vstd::seq_lib::group_to_multiset_ensures;

        assert(s.take(0).to_multiset() =~= Multiset::<ScanEntry>::empty());
        assert(out@.to_multiset() =~= Multiset::<ScanEntry>::empty());
    }
    while i < rest.len()
        invariant
            i <= s.len(),
            rest@ == s,
            spec_entries_sorted(out@),
            out@.to_multiset() == s.take(i as int).to_multiset(),
            out@.len() == i,
        decreases s.len() - i,
    {
        let x = clone_entry(&rest[i]);
        proof {
            assert(s.take(i as int + 1) =~= s.take(i as int).push(s[i as int]));
            broadcast use vstd::seq_lib::group_to_multiset_ensures;

        }
        insert_sorted(&mut out, x);
        i = i + 1;
    }
    proof {
        assert(s.take(s.len() as int) =~= s);
    }
    out
}

/// An integer sort key over entries: the similarity rank, or the size in
/// either direction.
#[derive(Clone, Copy, PartialEq, Eq, Structural, Debug)]
pub enum SortKey {
    Similarity,
    SizeAscending,
    SizeDescending,
}

/// The rank an entry sorts by under an integer key; a descending key
/// negates the order by complementing the value.
pub open spec fn spec_key_rank(k: SortKey, e: ScanEntry) -> int {
    match k {
        SortKey::Similarity => e.similarity as int,
        SortKey::SizeAscending => e.size as int,
        SortKey::SizeDescending => 0xffff_ffff_ffff_ffff - e.size as int,
    }
}

/// Whether the entries stand in ascending rank order under the key.
pub open spec fn spec_entries_sorted_by_key(k: SortKey, s: Seq<ScanEntry>) -> bool {
    forall|i: int, j: int|
        0 <= i < j < s.len() ==> spec_key_rank(k, s[i]) <= spec_key_rank(k, s[j])
}

/// The rank an entry sorts by, exactly as `spec_key_rank` states.
fn key_rank(k: SortKey, e: &ScanEntry) -> (r: u64)
    ensures
        r == spec_key_rank(k, *e),
{
    match k {
        SortKey::Similarity => e.similarity as u64,
        SortKey::SizeAscending => e.size,
        SortKey::SizeDescending => 0xffff_ffff_ffff_ffff - e.size,
    }
}

/// The position at which a rank joins a run sorted by the key.
fn find_insert_pos_by_key(k: SortKey, v: &Vec<ScanEntry>, xr: u64) -> (pos: usize)
    ensures
        pos <= v@.len(),
        forall|m: int| 0 <= m < pos ==> spec_key_rank(k, v@[m]) <= xr,
        pos < v@.len() ==> spec_key_rank(k, v@[pos as int]) > xr,
{
    let mut pos: usize = 0;
    loop
        invariant
            pos <= v@.len(),
            forall|m: int| 0 <= m < pos ==> spec_key_rank(k, v@[m]) <= xr,
        decreases v@.len() - pos,
    {
        if pos >= v.len() {
            return pos;
        }
        if key_rank(k, &v[pos]) > xr {
            return pos;
        }
        pos = pos + 1;
    }
}

/// Puts one entry into a run sorted by the key, keeping it sorted and
/// adding exactly that entry.
fn insert_sorted_by_key(k: SortKey, v: &mut Vec<ScanEntry>, x: ScanEntry)
    requires
        spec_entries_sorted_by_key(k, old(v)@),
    ensures
        spec_entries_sorted_by_key(k, final(v)@),
        final(v)@.to_multiset() == old(v)@.to_multiset().insert(x),
        final(v)@.len() == old(v)@.len() + 1,
{
    let ghost s = v@;
    let xr = key_rank(k, &x);
    let pos = find_insert_pos_by_key(k, v, xr);
    v.insert(pos, x);
    proof {
        vstd::seq_lib::to_multiset_insert(s, pos as int, x);
        assert forall|i: int, j: int| 0 <= i < j < v@.len() implies spec_key_rank(k, v@[i])
            <= spec_key_rank(k, v@[j]) by {
            if i == pos {
                assert(v@[j] == s[j - 1]);
            } else if j == pos {
            } else if i > pos {
                assert(v@[i] == s[i - 1] && v@[j] == s[j - 1]);
            } else if j > pos {
                assert(v@[j] == s[j - 1]);
            }
        }
    }
}

/// The entries in ascending rank order under the key: a permutation of the
/// input.
pub fn sort_entries_by_key(k: SortKey, v: Vec<ScanEntry>) -> (r: Vec<ScanEntry>)
    ensures
        r@.to_multiset() == v@.to_multiset(),
        r@.len() == v@.len(),
        spec_entries_sorted_by_key(k, r@),
{
    let ghost s = v@;
    let rest = v;
    let mut out: Vec<ScanEntry> = Vec::new();
    let mut i: usize = 0;
    proof {
        broadcast use vstd::seq_lib::group_to_multiset_ensures;

        assert(s.take(0).to_multiset() =~= Multiset::<ScanEntry>::empty());
        assert(out@.to_multiset() =~= Multiset::<ScanEntry>::empty());
    }
    while i < rest.len()
        invariant
            i <= s.len(),
            rest@ == s,
            spec_entries_sorted_by_key(k, out@),
            out@.to_multiset() == s.take(i as int).to_multiset(),
            out@.len() == i,
        decreases s.len() - i,
    {
        let x = clone_entry(&rest[i]);
        proof {
            assert(s.take(i as int + 1) =~= s.take(i as int).push(s[i as int]));
            broadcast use vstd::seq_lib::group_to_multiset_ensures;

        }
        insert_sorted_by_key(k, &mut out, x);
        i = i + 1;
    }
    proof {
        assert(s.take(s.len() as int) =~= s);
    }
    out
}

/// The entries of a group that stay among its members when the given path
/// is the reference: everything whose path differs from it, in order.
pub open spec fn spec_members_kept(group: Seq<ScanEntry>, ref_path: Seq<char>) -> Seq<ScanEntry>
    decreases group.len(),
{
    if group.len() == 0 {
        Seq::empty()
    } else {
        let rest = spec_members_kept(group.drop_last(), ref_path);
        if group.last().path@ != ref_path {
            rest.push(group.last())
        } else {
            rest
        }
    }
}

/// No kept member carries the reference path.
pub proof fn lemma_members_kept_excludes(group: Seq<ScanEntry>, ref_path: Seq<char>)
    ensures
        forall|j: int|
            0 <= j < spec_members_kept(group, ref_path).len() ==> #[trigger] spec_members_kept(
                group,
                ref_path,
            )[j].path@ != ref_path,
    decreases group.len(),
{
    if group.len() > 0 {
        lemma_members_kept_excludes(group.drop_last(), ref_path);
        let rest = spec_members_kept(group.drop_last(), ref_path);
        let cur = spec_members_kept(group, ref_path);
        assert forall|j: int| 0 <= j < cur.len() implies cur[j].path@ != ref_path by {
            if j < rest.len() {
                assert(cur[j] == rest[j]);
            } else {
                assert(cur[j] == group.last());
            }
        }
    }
}

/// The group's members with the reference path excluded, exactly as
/// `spec_members_kept` states.
fn members_kept(group: &Vec<ScanEntry>, ref_path: &String) -> (r: Vec<ScanEntry>)
    ensures
        r@ == spec_members_kept(group@, ref_path@),
{
    let mut r: Vec<ScanEntry> = Vec::new();
    let mut i: usize = 0;
    proof {
        assert(r@ =~= spec_members_kept(group@.take(0), ref_path@));
    }
    while i < group.len()
        invariant
            i <= group@.len(),
            r@ == spec_members_kept(group@.take(i as int), ref_path@),
        decreases group@.len() - i,
    {
        proof {
            assert(group@.take(i as int + 1).drop_last() =~= group@.take(i as int));
            assert(group@.take(i as int + 1).last() == group@[i as int]);
        }
        let e = &group[i];
        if !(e.path == *ref_path) {
            r.push(clone_entry(e));
        }
        i = i + 1;
    }
    proof {
        assert(group@.take(group@.len() as int) =~= group@);
    }
    r
}

/// Collates a plain grouping: every output group carries no reference
/// item, and its members are the input group's entries in path order.
pub fn collate_groups(groups: Vec<Vec<ScanEntry>>) -> (r: Vec<ResultGroup>)
    ensures
        r@.len() == groups@.len(),
        forall|i: int| 0 <= i < r@.len() ==> (#[trigger] r@[i].reference) is None,
        forall|i: int|
            0 <= i < r@.len() ==> (#[trigger] r@[i].members)@.to_multiset()
                == groups@[i]@.to_multiset(),
        forall|i: int| 0 <= i < r@.len() ==> spec_entries_sorted((#[trigger] r@[i].members)@),
{
    let mut r: Vec<ResultGroup> = Vec::new();
    let mut rest = groups;
    let ghost gv = rest@;
    let mut i: usize = 0;
    while i < rest.len()
        invariant
            i <= gv.len(),
            rest@ == gv,
            r@.len() == i,
            forall|m: int| 0 <= m < i ==> (#[trigger] r@[m].reference) is None,
            forall|m: int|
                0 <= m < i ==> (#[trigger] r@[m].members)@.to_multiset()
                    == gv[m]@.to_multiset(),
            forall|m: int| 0 <= m < i ==> spec_entries_sorted((#[trigger] r@[m].members)@),
        decreases gv.len() - i,
    {
        let members = sort_entries_by_path(clone_entries(&rest[i]));
        r.push(ResultGroup { reference: None, members });
        i = i + 1;
    }
    r
}

/// Collates a referenced grouping: every output group carries the input
/// pair's reference item, and its members are the pair's other entries in
/// path order with the reference's path excluded.
pub fn collate_referenced(groups: Vec<(ScanEntry, Vec<ScanEntry>)>) -> (r: Vec<ResultGroup>)
    ensures
        r@.len() == groups@.len(),
        forall|i: int| 0 <= i < r@.len() ==> (#[trigger] r@[i].reference) == Some(groups@[i].0),
        forall|i: int|
            0 <= i < r@.len() ==> (#[trigger] r@[i].members)@.to_multiset()
                == spec_members_kept(groups@[i].1@, groups@[i].0.path@).to_multiset(),
        forall|i: int| 0 <= i < r@.len() ==> spec_entries_sorted((#[trigger] r@[i].members)@),
        forall|i: int, j: int|
            0 <= i < r@.len() && 0 <= j < r@[i].members@.len() ==> (#[trigger] r@[i].members@[j]).path@
                != groups@[i].0.path@,
{
    let mut r: Vec<ResultGroup> = Vec::new();
    let rest = groups;
    let ghost gv = rest@;
    let mut i: usize = 0;
    while i < rest.len()
        invariant
            i <= gv.len(),
            rest@ == gv,
            r@.len() == i,
            forall|m: int| 0 <= m < i ==> (#[trigger] r@[m].reference) == Some(gv[m].0),
            forall|m: int|
                0 <= m < i ==> (#[trigger] r@[m].members)@.to_multiset() == spec_members_kept(
                    gv[m].1@,
                    gv[m].0.path@,
                ).to_multiset(),
            forall|m: int| 0 <= m < i ==> spec_entries_sorted((#[trigger] r@[m].members)@),
            forall|m: int, j: int|
                0 <= m < i && 0 <= j < r@[m].members@.len() ==> (#[trigger] r@[m].members@[j]).path@
                    != gv[m].0.path@,
        decreases gv.len() - i,
    {
        let pair = &rest[i];
        let kept = members_kept(&pair.1, &pair.0.path);
        let members = sort_entries_by_path(kept);
        proof {
            broadcast use vstd::seq_lib::group_to_multiset_ensures;

            lemma_members_kept_excludes(gv[i as int].1@, gv[i as int].0.path@);
            let kv = spec_members_kept(gv[i as int].1@, gv[i as int].0.path@);
            assert forall|j: int| 0 <= j < members@.len() implies (#[trigger] members@[j]).path@
                != gv[i as int].0.path@ by {
                assert(members@.to_multiset().contains(members@[j]));
                assert(kv.to_multiset().contains(members@[j]));
                assert(kv.contains(members@[j]));
            }
        }
        let reference = Some(clone_entry(&pair.0));
        r.push(ResultGroup { reference, members });
        i = i + 1;
    }
    r
}

/// Copies of the entries.
pub fn clone_entries(v: &Vec<ScanEntry>) -> (r: Vec<ScanEntry>)
    ensures
        r@ == v@,
{
    let mut r: Vec<ScanEntry> = Vec::new();
    let mut i: usize = 0;
    while i < v.len()
        invariant
            i <= v@.len(),
            r@ == v@.take(i as int),
        decreases v@.len() - i,
    {
        r.push(clone_entry(&v[i]));
        i = i + 1;
        proof {
            assert(r@ =~= v@.take(i as int));
        }
    }
    proof {
        assert(v@.take(v@.len() as int) =~= v@);
    }
    r
}

/// The one-line summary of a completed scan: a count line for the tool,
/// then the engine's own diagnostic text.
pub open spec fn spec_found_message(tool: Tool, count: int, engine_text: Seq<char>) -> Seq<char> {
    "Found "@ + dec_digits(count as nat) + " "@ + spec_found_noun(tool) + "\n"@ + engine_text
}

/// Builds the summary message, exactly as `spec_found_message` states.
pub fn found_message(tool: Tool, count: u64, engine_text: &str) -> (r: String)
    ensures
        r@ == spec_found_message(tool, count as int, engine_text@),
{
    let mut s = String::from_str("Found ");
    let n = u64_to_string(count);
    s.append(n.as_str());
    s.append(" ");
    s.append(tool.found_noun());
    s.append("\n");
    s.append(engine_text);
    s
}

/// A copy of one entry.
pub fn clone_entry(e: &ScanEntry) -> (r: ScanEntry)
    ensures
        r == *e,
{
    let path = e.path.clone();
    proof {
        assert(path == e.path);
    }
    ScanEntry { path, size: e.size, modified_date: e.modified_date, similarity: e.similarity }
}

} // verus!
