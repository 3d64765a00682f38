//! The extension-rename operation: the new path is computed here; when it
//! differs from the old one the rename itself happens outside the library
//! and comes back as an event. An unchanged path is a trivial success that
//! touches nothing.

use vstd::prelude::*;
use crate::outcome::{FileOpOutcome, spec_failed_msg, failed_msg};
use crate::paths::{spec_with_extension, with_extension, chars_eq, law_with_extension_idempotent};
use crate::text::{str_to_chars, chars_to_string};

verus! {

/// One rename request: a path and the target extension.
pub struct Item {
    pub path: String,
    pub ext: String,
}

/// A rename request over several items.
pub struct Options {
    pub items: Vec<Item>,
}

/// What the filesystem reported for one item that needed renaming.
pub enum RenameEvent {
    Done,
    Failed(String),
}

/// Computes the renamed path and whether it differs from the old one,
/// exactly as `spec_with_extension` states.
pub fn rename_plan(path: &str, ext: &str) -> (r: (String, bool))
    ensures
        r.0@ == spec_with_extension(path@, ext@),
        r.1 == (r.0@ != path@),
{
    let old_chars = str_to_chars(path);
    let ext_chars = str_to_chars(ext);
    let new_chars = with_extension(&old_chars, &ext_chars);
    let changed = !chars_eq(&new_chars, &old_chars);
    (chars_to_string(&new_chars), changed)
}

/// Whether one item of a rename run succeeds: either the path already
/// carries the target extension, or the filesystem did the rename.
pub open spec fn spec_rename_item_ok(path: Seq<char>, ext: Seq<char>, ev: RenameEvent) -> bool {
    spec_with_extension(path, ext) == path || ev is Done
}

/// The paths a rename run reports as done, in order.
pub open spec fn spec_rename_successes(items: Seq<Item>, evs: Seq<RenameEvent>) -> Seq<Seq<char>>
    decreases evs.len(),
{
    if evs.len() == 0 {
        Seq::empty()
    } else {
        let rest = spec_rename_successes(items.drop_last(), evs.drop_last());
        if spec_rename_item_ok(items.last().path@, items.last().ext@, evs.last()) {
            rest.push(items.last().path@)
        } else {
            rest
        }
    }
}

/// The errors a rename run reports, in order.
pub open spec fn spec_rename_errors(items: Seq<Item>, evs: Seq<RenameEvent>) -> Seq<Seq<char>>
    decreases evs.len(),
{
    if evs.len() == 0 {
        Seq::empty()
    } else {
        let rest = spec_rename_errors(items.drop_last(), evs.drop_last());
        if spec_rename_item_ok(items.last().path@, items.last().ext@, evs.last()) {
            rest
        } else {
            rest.push(
                spec_failed_msg(
                    items.last().path@,
                    match evs.last() {
                        RenameEvent::Failed(e) => e@,
                        RenameEvent::Done => Seq::empty(),
                    },
                ),
            )
        }
    }
}

/// Law: a rename run accounts for every requested item exactly once.
pub proof fn law_rename_accounts_every_item(items: Seq<Item>, evs: Seq<RenameEvent>)
    requires
        items.len() == evs.len(),
    ensures
        spec_rename_successes(items, evs).len() + spec_rename_errors(items, evs).len()
            == items.len(),
    decreases evs.len(),
{
    if evs.len() > 0 {
        law_rename_accounts_every_item(items.drop_last(), evs.drop_last());
    }
}

/// Law: renaming is idempotent. An item whose path came out of an earlier
/// rename to the same plain extension (nonempty, without dots or
/// separators) is already in its final shape: the new path equals the old
/// one, so the run reports success whatever the filesystem would have
/// said, and no rename is attempted.
pub proof fn law_rename_twice_trivial(path: Seq<char>, ext: Seq<char>, ev: RenameEvent)
    requires
        ext.len() > 0,
        forall|j: int| 0 <= j < ext.len() ==> ext[j] != '.',
        forall|j: int| 0 <= j < ext.len() ==> ext[j] != '/',
    ensures
        spec_rename_item_ok(spec_with_extension(path, ext), ext, ev),
{
    law_with_extension_idempotent(path, ext);
}

/// Assembles the outcome of a rename run: items whose path is unchanged
/// succeed without an event; the others follow what the filesystem said,
/// exactly as the spec sequences state.
pub fn rename_ext(options: &Options, events: &Vec<RenameEvent>) -> (r: FileOpOutcome)
    requires
        events@.len() == options.items@.len(),
    ensures
        r.success_paths.deep_view() == spec_rename_successes(options.items@, events@),
        r.errors.deep_view() == spec_rename_errors(options.items@, events@),
{
    let ghost iv = options.items@;
    let mut success_paths: Vec<String> = Vec::new();
    let mut errors: Vec<String> = Vec::new();
    let mut i: usize = 0;
    proof {
        assert(success_paths.deep_view() =~~= spec_rename_successes(iv.take(0), events@.take(0)));
        assert(errors.deep_view() =~~= spec_rename_errors(iv.take(0), events@.take(0)));
    }
    while i < events.len()
        invariant
            i <= events@.len(),
            events@.len() == options.items@.len(),
            iv == options.items@,
            success_paths.deep_view() == spec_rename_successes(
                iv.take(i as int),
                events@.take(i as int),
            ),
            errors.deep_view() == spec_rename_errors(iv.take(i as int), events@.take(i as int)),
        decreases events@.len() - i,
    {
        let ghost old_s = success_paths.deep_view();
        let ghost old_e = errors.deep_view();
        proof {
            assert(iv.take(i as int + 1).drop_last() =~= iv.take(i as int));
            assert(events@.take(i as int + 1).drop_last() =~= events@.take(i as int));
            assert(iv.take(i as int + 1).last() == iv[i as int]);
            assert(events@.take(i as int + 1).last() == events@[i as int]);
        }
        let item = &options.items[i];
        let (_, changed) = rename_plan(item.path.as_str(), item.ext.as_str());
        let ok = if !changed {
            true
        } else {
            matches!(&events[i], RenameEvent::Done)
        };
        if ok {
            success_paths.push(item.path.clone());
            proof {
                assert(success_paths.deep_view() =~~= old_s.push(iv[i as int].path@));
            }
        } else {
            match &events[i] {
                RenameEvent::Failed(e) => {
                    errors.push(failed_msg(item.path.as_str(), e.as_str()));
                    proof {
                        assert(errors.deep_view() =~~= old_e.push(
                            spec_failed_msg(iv[i as int].path@, e@),
                        ));
                    }
                },
                RenameEvent::Done => {
                    proof {
                        assert(false);
                    }
                },
            }
        }
        i = i + 1;
    }
    proof {
        assert(iv.take(iv.len() as int) =~= iv);
        assert(events@.take(events@.len() as int) =~= events@);
    }
    FileOpOutcome { success_paths, errors }
}

} // verus!
