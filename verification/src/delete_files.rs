//! The delete operation: per-item policy and outcome assembly. The
//! filesystem work itself happens outside the library; each item comes
//! back as an event, and the outcome is assembled and proved here.

use vstd::prelude::*;
use crate::outcome::{
    FileOpOutcome, spec_not_found_msg, spec_failed_msg, not_found_msg, failed_msg,
};

verus! {

/// A delete request: the target paths, whether removal goes to the
/// recoverable trash, and whether only empty directory trees may go.
pub struct Options {
    pub paths: Vec<String>,
    pub move_deleted_files_to_trash: bool,
    pub is_empty_folders_tool: bool,
}

/// What the worker does to one existing path.
#[derive(Clone, Copy, PartialEq, Eq, Structural, Debug)]
pub enum DeleteAction {
    RemoveEmptyFolderTree { to_trash: bool },
    MoveToTrash,
    RemoveFile,
}

/// What the filesystem reported for one path.
pub enum DeleteEvent {
    Missing,
    Done,
    Failed(String),
}

/// The action a delete request implies for an existing path: the
/// empty-folders restriction wins, then the trash choice, then permanent
/// removal.
pub open spec fn spec_delete_action(move_to_trash: bool, empty_folders_tool: bool) -> DeleteAction {
    if empty_folders_tool {
        DeleteAction::RemoveEmptyFolderTree { to_trash: move_to_trash }
    } else if move_to_trash {
        DeleteAction::MoveToTrash
    } else {
        DeleteAction::RemoveFile
    }
}

/// Picks the per-item action, exactly as `spec_delete_action` states.
pub fn delete_action(move_to_trash: bool, empty_folders_tool: bool) -> (r: DeleteAction)
    ensures
        r == spec_delete_action(move_to_trash, empty_folders_tool),
{
    if empty_folders_tool {
        DeleteAction::RemoveEmptyFolderTree { to_trash: move_to_trash }
    } else if move_to_trash {
        DeleteAction::MoveToTrash
    } else {
        DeleteAction::RemoveFile
    }
}

/// The paths a delete run reports as removed: exactly those whose event
/// says the work was done, in order.
pub open spec fn spec_delete_successes(paths: Seq<Seq<char>>, evs: Seq<DeleteEvent>) -> Seq<
    Seq<char>,
>
    decreases evs.len(),
{
    if evs.len() == 0 {
        Seq::empty()
    } else {
        let rest = spec_delete_successes(paths.drop_last(), evs.drop_last());
        match evs.last() {
            DeleteEvent::Done => rest.push(paths.last()),
            _ => rest,
        }
    }
}

/// The errors a delete run reports: a not-found text for each missing
/// path, a failure text for each path whose removal failed, in order.
pub open spec fn spec_delete_errors(paths: Seq<Seq<char>>, evs: Seq<DeleteEvent>) -> Seq<Seq<char>>
    decreases evs.len(),
{
    if evs.len() == 0 {
        Seq::empty()
    } else {
        let rest = spec_delete_errors(paths.drop_last(), evs.drop_last());
        match evs.last() {
            DeleteEvent::Missing => rest.push(spec_not_found_msg(paths.last())),
            DeleteEvent::Failed(e) => rest.push(spec_failed_msg(paths.last(), e@)),
            DeleteEvent::Done => rest,
        }
    }
}

/// Law: a delete run accounts for every requested path exactly once:
/// each path lands in the success list or in the error list, so the two
/// lengths sum to the number of paths.
pub proof fn law_delete_accounts_every_item(paths: Seq<Seq<char>>, evs: Seq<DeleteEvent>)
    requires
        paths.len() == evs.len(),
    ensures
        spec_delete_successes(paths, evs).len() + spec_delete_errors(paths, evs).len()
            == paths.len(),
    decreases evs.len(),
{
    if evs.len() > 0 {
        law_delete_accounts_every_item(paths.drop_last(), evs.drop_last());
    }
}

/// Law: each requested path lands in its own category: a path whose work
/// was done is among the reported successes, a missing path's not-found
/// text and a failing path's failure text among the reported errors. With
/// the counting law, every path appears exactly once across the two.
pub proof fn law_delete_item_classified(paths: Seq<Seq<char>>, evs: Seq<DeleteEvent>, i: int)
    requires
        paths.len() == evs.len(),
        0 <= i < evs.len(),
    ensures
        evs[i] is Done ==> spec_delete_successes(paths, evs).contains(paths[i]),
        evs[i] is Missing ==> spec_delete_errors(paths, evs).contains(
            spec_not_found_msg(paths[i]),
        ),
        evs[i] is Failed ==> spec_delete_errors(paths, evs).contains(
            spec_failed_msg(paths[i], evs[i]->Failed_0@),
        ),
    decreases evs.len(),
{
    let ss = spec_delete_successes(paths, evs);
    let es = spec_delete_errors(paths, evs);
    if i == evs.len() - 1 {
        match evs[i] {
            DeleteEvent::Done => {
                assert(ss.last() == paths[i]);
            },
            DeleteEvent::Missing => {
                assert(es.last() == spec_not_found_msg(paths[i]));
            },
            DeleteEvent::Failed(e) => {
                assert(es.last() == spec_failed_msg(paths[i], e@));
            },
        }
    } else {
        law_delete_item_classified(paths.drop_last(), evs.drop_last(), i);
        let prev_s = spec_delete_successes(paths.drop_last(), evs.drop_last());
        let prev_e = spec_delete_errors(paths.drop_last(), evs.drop_last());
        match evs[i] {
            DeleteEvent::Done => {
                let j = choose|j: int| 0 <= j < prev_s.len() && prev_s[j] == paths[i];
                assert(ss[j] == paths[i]);
            },
            DeleteEvent::Missing => {
                let j = choose|j: int|
                    0 <= j < prev_e.len() && prev_e[j] == spec_not_found_msg(paths[i]);
                assert(es[j] == spec_not_found_msg(paths[i]));
            },
            DeleteEvent::Failed(e) => {
                let j = choose|j: int|
                    0 <= j < prev_e.len() && prev_e[j] == spec_failed_msg(paths[i], e@);
                assert(es[j] == spec_failed_msg(paths[i], e@));
            },
        }
    }
}

/// Law: processing two partitions separately and concatenating their
/// outcomes reports exactly what one run over the concatenated input
/// would: the parallel fold loses nothing and duplicates nothing.
pub proof fn law_delete_merge_homomorphic(
    paths1: Seq<Seq<char>>,
    evs1: Seq<DeleteEvent>,
    paths2: Seq<Seq<char>>,
    evs2: Seq<DeleteEvent>,
)
    requires
        paths1.len() == evs1.len(),
        paths2.len() == evs2.len(),
    ensures
        spec_delete_successes(paths1 + paths2, evs1 + evs2) =~= spec_delete_successes(
            paths1,
            evs1,
        ) + spec_delete_successes(paths2, evs2),
        spec_delete_errors(paths1 + paths2, evs1 + evs2) =~= spec_delete_errors(paths1, evs1)
            + spec_delete_errors(paths2, evs2),
    decreases evs2.len(),
{
    if evs2.len() == 0 {
        assert(paths1 + paths2 =~= paths1);
        assert(evs1 + evs2 =~= evs1);
    } else {
        assert((paths1 + paths2).drop_last() =~= paths1 + paths2.drop_last());
        assert((evs1 + evs2).drop_last() =~= evs1 + evs2.drop_last());
        assert((evs1 + evs2).last() == evs2.last());
        assert((paths1 + paths2).last() == paths2.last());
        law_delete_merge_homomorphic(paths1, evs1, paths2.drop_last(), evs2.drop_last());
    }
}

/// Assembles the outcome of a delete run from the per-path events: the
/// success and error lists are exactly what `spec_delete_successes` and
/// `spec_delete_errors` state.
pub fn delete_files(options: &Options, events: &Vec<DeleteEvent>) -> (r: FileOpOutcome)
    requires
        events@.len() == options.paths@.len(),
    ensures
        r.success_paths.deep_view() == spec_delete_successes(
            options.paths.deep_view(),
            events@,
        ),
        r.errors.deep_view() == spec_delete_errors(options.paths.deep_view(), events@),
{
    let ghost pv = options.paths.deep_view();
    let mut success_paths: Vec<String> = Vec::new();
    let mut errors: Vec<String> = Vec::new();
    let mut i: usize = 0;
    proof {
        assert(success_paths.deep_view() =~~= spec_delete_successes(pv.take(0), events@.take(0)));
        assert(errors.deep_view() =~~= spec_delete_errors(pv.take(0), events@.take(0)));
    }
    while i < events.len()
        invariant
            i <= events@.len(),
            events@.len() == options.paths@.len(),
            pv == options.paths.deep_view(),
            success_paths.deep_view() == spec_delete_successes(
                pv.take(i as int),
                events@.take(i as int),
            ),
            errors.deep_view() == spec_delete_errors(pv.take(i as int), events@.take(i as int)),
        decreases events@.len() - i,
    {
        let ghost old_s = success_paths.deep_view();
        let ghost old_e = errors.deep_view();
        proof {
            assert(pv.take(i as int + 1).drop_last() =~~= pv.take(i as int));
            assert(events@.take(i as int + 1).drop_last() =~= events@.take(i as int));
            assert(pv.take(i as int + 1).last() == pv[i as int]);
            assert(events@.take(i as int + 1).last() == events@[i as int]);
            assert(pv[i as int] =~= options.paths@[i as int]@);
        }
        let path = &options.paths[i];
        match &events[i] {
            DeleteEvent::Missing => {
                errors.push(not_found_msg(path.as_str()));
                proof {
                    assert(errors.deep_view() =~~= old_e.push(spec_not_found_msg(pv[i as int])));
                }
            },
            DeleteEvent::Done => {
                success_paths.push(path.clone());
                proof {
                    assert(success_paths.deep_view() =~~= old_s.push(pv[i as int]));
                }
            },
            DeleteEvent::Failed(e) => {
                errors.push(failed_msg(path.as_str(), e.as_str()));
                proof {
                    assert(errors.deep_view() =~~= old_e.push(
                        spec_failed_msg(pv[i as int], e@),
                    ));
                }
            },
        }
        i = i + 1;
    }
    proof {
        assert(pv.take(pv.len() as int) =~~= pv);
        assert(events@.take(events@.len() as int) =~= events@);
    }
    FileOpOutcome { success_paths, errors }
}

} // verus!
