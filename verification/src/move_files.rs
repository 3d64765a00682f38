//! The move/copy operation: destination planning, collision policy, and
//! outcome assembly. The filesystem work happens outside the library and
//! comes back as per-item events.

use vstd::prelude::*;
use vstd::string::StringExecFns;
use crate::outcome::{
    FileOpOutcome, spec_failed_msg, spec_already_exists_msg, failed_msg, already_exists_msg,
};
use crate::paths::{
    spec_file_name, spec_join, spec_parent_normal_segments, file_name, parent_normal_segments,
    push_segment, copy_chars,
};
use crate::text::{str_to_chars, chars_to_string};

verus! {

/// A move/copy request: the source paths, the destination root, whether to
/// copy instead of move, whether to rebuild the sources' directory
/// structure under the destination, and whether existing destinations may
/// be overwritten.
pub struct Options {
    pub paths: Vec<String>,
    pub destination: String,
    pub copy_mode: bool,
    pub preserve_structure: bool,
    pub override_mode: bool,
}

/// The planned filesystem locations for one item: the directory to create
/// and the full destination path.
#[derive(Debug)]
pub struct MovePlan {
    pub dest_dir: String,
    pub dest_path: String,
}

/// The error text for a source whose file name cannot be determined.
pub open spec fn spec_no_file_name_msg(p: Seq<char>) -> Seq<char> {
    "Failed to get file name of `"@ + p + "`"@
}

/// A base directory extended by the given segments, one join at a time.
pub open spec fn spec_push_all(dir: Seq<char>, segs: Seq<Seq<char>>) -> Seq<char>
    decreases segs.len(),
{
    if segs.len() == 0 {
        dir
    } else {
        spec_join(spec_push_all(dir, segs.drop_last()), segs.last())
    }
}

/// The directory an item lands in: the destination root, extended by the
/// normal components of the source's parent when structure is preserved.
pub open spec fn spec_dest_dir(source: Seq<char>, destination: Seq<char>, preserve: bool) -> Seq<
    char,
> {
    if preserve {
        spec_push_all(destination, spec_parent_normal_segments(source))
    } else {
        destination
    }
}

/// The full destination path of an item: its directory plus the source's
/// file name.
pub open spec fn spec_dest_path(source: Seq<char>, destination: Seq<char>, preserve: bool) -> Seq<
    char,
> {
    spec_join(spec_dest_dir(source, destination, preserve), spec_file_name(source)->Some_0)
}

/// Plans one item: a source without a file name is rejected with the exact
/// error text; otherwise the destination directory and path are computed
/// as `spec_dest_dir` and `spec_dest_path` state.
pub fn move_plan(source: &str, destination: &str, preserve_structure: bool) -> (r: Result<
    MovePlan,
    String,
>)
    ensures
        match r {
            Ok(plan) => spec_file_name(source@) is Some && plan.dest_dir@ == spec_dest_dir(
                source@,
                destination@,
                preserve_structure,
            ) && plan.dest_path@ == spec_dest_path(source@, destination@, preserve_structure),
            Err(m) => spec_file_name(source@) is None && m@ == spec_no_file_name_msg(source@),
        },
{
    let source_chars = str_to_chars(source);
    let name = match file_name(&source_chars) {
        Some(n) => n,
        None => {
            let mut m = String::from_str("Failed to get file name of `");
            m.append(source);
            m.append("`");
            return Err(m);
        },
    };
    let mut dir = str_to_chars(destination);
    if preserve_structure {
        let segs = parent_normal_segments(&source_chars);
        let ghost sv = segs.deep_view();
        let mut i: usize = 0;
        proof {
            assert(sv.take(0) =~~= Seq::<Seq<char>>::empty());
        }
        while i < segs.len()
            invariant
                i <= segs@.len(),
                sv == segs.deep_view(),
                dir@ == spec_push_all(destination@, sv.take(i as int)),
            decreases segs@.len() - i,
        {
            proof {
                assert(sv.take(i as int + 1).drop_last() =~~= sv.take(i as int));
                assert(sv.take(i as int + 1).last() == sv[i as int]);
                assert(segs@[i as int]@ =~= sv[i as int]);
            }
            push_segment(&mut dir, &segs[i]);
            i = i + 1;
        }
        proof {
            assert(sv.take(sv.len() as int) =~~= sv);
        }
    }
    let mut path_chars = copy_chars(&dir);
    push_segment(&mut path_chars, &name);
    let dest_dir = chars_to_string(&dir);
    let dest_path = chars_to_string(&path_chars);
    Ok(MovePlan { dest_dir, dest_path })
}

/// Whether an existing destination blocks the item: it does exactly when
/// overwriting was not requested.
pub fn collision_blocked(dest_exists: bool, override_mode: bool) -> (r: bool)
    ensures
        r == (dest_exists && !override_mode),
{
    dest_exists && !override_mode
}

/// What the filesystem reported for one planned item.
pub enum MoveEvent {
    DirCreateFailed(String),
    DestinationExists,
    Done,
    Failed(String),
}

/// Whether one item of a move run succeeds: its source must have a file
/// name and the filesystem work must have been done.
pub open spec fn spec_move_item_ok(source: Seq<char>, ev: MoveEvent) -> bool {
    spec_file_name(source) is Some && ev is Done
}

/// The error text of one failing item of a move run.
pub open spec fn spec_move_item_error(
    source: Seq<char>,
    destination: Seq<char>,
    preserve: bool,
    ev: MoveEvent,
) -> Seq<char> {
    if spec_file_name(source) is None {
        spec_no_file_name_msg(source)
    } else {
        match ev {
            MoveEvent::DirCreateFailed(e) => spec_failed_msg(source, e@),
            MoveEvent::DestinationExists => spec_already_exists_msg(
                spec_dest_path(source, destination, preserve),
            ),
            MoveEvent::Failed(e) => spec_failed_msg(source, e@),
            MoveEvent::Done => Seq::empty(),
        }
    }
}

/// The paths a move run reports as moved, in order.
pub open spec fn spec_move_successes(paths: Seq<Seq<char>>, evs: Seq<MoveEvent>) -> Seq<Seq<char>>
    decreases evs.len(),
{
    if evs.len() == 0 {
        Seq::empty()
    } else {
        let rest = spec_move_successes(paths.drop_last(), evs.drop_last());
        if spec_move_item_ok(paths.last(), evs.last()) {
            rest.push(paths.last())
        } else {
            rest
        }
    }
}

/// The errors a move run reports, in order.
pub open spec fn spec_move_errors(
    paths: Seq<Seq<char>>,
    destination: Seq<char>,
    preserve: bool,
    evs: Seq<MoveEvent>,
) -> Seq<Seq<char>>
    decreases evs.len(),
{
    if evs.len() == 0 {
        Seq::empty()
    } else {
        let rest = spec_move_errors(paths.drop_last(), destination, preserve, evs.drop_last());
        if spec_move_item_ok(paths.last(), evs.last()) {
            rest
        } else {
            rest.push(spec_move_item_error(paths.last(), destination, preserve, evs.last()))
        }
    }
}

/// Law: a move run accounts for every requested path exactly once.
pub proof fn law_move_accounts_every_item(
    paths: Seq<Seq<char>>,
    destination: Seq<char>,
    preserve: bool,
    evs: Seq<MoveEvent>,
)
    requires
        paths.len() == evs.len(),
    ensures
        spec_move_successes(paths, evs).len() + spec_move_errors(
            paths,
            destination,
            preserve,
            evs,
        ).len() == paths.len(),
    decreases evs.len(),
{
    if evs.len() > 0 {
        law_move_accounts_every_item(paths.drop_last(), destination, preserve, evs.drop_last());
    }
}

/// Assembles the outcome of a move run from the per-item events: an item
/// whose source has no file name fails with the exact text, a blocked
/// destination is named, a failure carries its reason, and everything else
/// succeeds, as the spec sequences state.
pub fn move_files(options: &Options, events: &Vec<MoveEvent>) -> (r: FileOpOutcome)
    requires
        events@.len() == options.paths@.len(),
    ensures
        r.success_paths.deep_view() == spec_move_successes(options.paths.deep_view(), events@),
        r.errors.deep_view() == spec_move_errors(
            options.paths.deep_view(),
            options.destination@,
            options.preserve_structure,
            events@,
        ),
{
    let ghost pv = options.paths.deep_view();
    let ghost dest = options.destination@;
    let ghost pres = options.preserve_structure;
    let mut success_paths: Vec<String> = Vec::new();
    let mut errors: Vec<String> = Vec::new();
    let mut i: usize = 0;
    proof {
        assert(success_paths.deep_view() =~~= spec_move_successes(pv.take(0), events@.take(0)));
        assert(errors.deep_view() =~~= spec_move_errors(pv.take(0), dest, pres, events@.take(0)));
    }
    while i < events.len()
        invariant
            i <= events@.len(),
            events@.len() == options.paths@.len(),
            pv == options.paths.deep_view(),
            dest == options.destination@,
            pres == options.preserve_structure,
            success_paths.deep_view() == spec_move_successes(
                pv.take(i as int),
                events@.take(i as int),
            ),
            errors.deep_view() == spec_move_errors(
                pv.take(i as int),
                dest,
                pres,
                events@.take(i as int),
            ),
        decreases events@.len() - i,
    {
        let ghost old_s = success_paths.deep_view();
        let ghost old_e = errors.deep_view();
        proof {
            assert(pv.take(i as int + 1).drop_last() =~~= pv.take(i as int));
            assert(events@.take(i as int + 1).drop_last() =~= events@.take(i as int));
            assert(pv.take(i as int + 1).last() == pv[i as int]);
            assert(events@.take(i as int + 1).last() == events@[i as int]);
            assert(pv[i as int] =~= options.paths@[i as int]@);
        }
        let path = &options.paths[i];
        match move_plan(path.as_str(), options.destination.as_str(), options.preserve_structure) {
            Err(m) => {
                errors.push(m);
                proof {
                    assert(errors.deep_view() =~~= old_e.push(
                        spec_move_item_error(pv[i as int], dest, pres, events@[i as int]),
                    ));
                }
            },
            Ok(plan) => {
                match &events[i] {
                    MoveEvent::Done => {
                        success_paths.push(path.clone());
                        proof {
                            assert(success_paths.deep_view() =~~= old_s.push(pv[i as int]));
                        }
                    },
                    MoveEvent::DirCreateFailed(e) => {
                        errors.push(failed_msg(path.as_str(), e.as_str()));
                        proof {
                            assert(errors.deep_view() =~~= old_e.push(
                                spec_move_item_error(pv[i as int], dest, pres, events@[i as int]),
                            ));
                        }
                    },
                    MoveEvent::DestinationExists => {
                        errors.push(already_exists_msg(plan.dest_path.as_str()));
                        proof {
                            assert(errors.deep_view() =~~= old_e.push(
                                spec_move_item_error(pv[i as int], dest, pres, events@[i as int]),
                            ));
                        }
                    },
                    MoveEvent::Failed(e) => {
                        errors.push(failed_msg(path.as_str(), e.as_str()));
                        proof {
                            assert(errors.deep_view() =~~= old_e.push(
                                spec_move_item_error(pv[i as int], dest, pres, events@[i as int]),
                            ));
                        }
                    },
                }
            },
        }
        i = i + 1;
    }
    proof {
        assert(pv.take(pv.len() as int) =~~= pv);
        assert(events@.take(events@.len() as int) =~= events@);
    }
    FileOpOutcome { success_paths, errors }
}

} // verus!
