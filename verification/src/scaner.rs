//! Directory-conflict checks for scan configuration: an included directory
//! that lies inside an excluded one is flagged before a scan starts.

use vstd::prelude::*;
use vstd::string::StringExecFns;
use crate::paths::{spec_path_starts_with, path_starts_with};
use crate::text::str_to_chars;

verus! {

/// One conflict between configured directories.
pub struct ConflictInfo {
    pub included: String,
    pub excluded: String,
}

/// The conflicting pairs among the given directory lists: each included
/// path that starts with an excluded path, paired with it, included paths
/// in outer order and excluded paths in inner order.
pub open spec fn spec_conflicts(included: Seq<Seq<char>>, excluded: Seq<Seq<char>>) -> Seq<
    (Seq<char>, Seq<char>),
>
    decreases included.len(),
{
    if included.len() == 0 {
        Seq::empty()
    } else {
        spec_conflicts(included.drop_last(), excluded) + spec_conflict_row(
            included.last(),
            excluded,
        )
    }
}

/// The conflicts of one included path against the excluded list, in order.
pub open spec fn spec_conflict_row(inc: Seq<char>, excluded: Seq<Seq<char>>) -> Seq<
    (Seq<char>, Seq<char>),
>
    decreases excluded.len(),
{
    if excluded.len() == 0 {
        Seq::empty()
    } else {
        let rest = spec_conflict_row(inc, excluded.drop_last());
        if spec_path_starts_with(inc, excluded.last()) {
            rest.push((inc, excluded.last()))
        } else {
            rest
        }
    }
}

/// The views of a list of path pairs.
pub open spec fn spec_pairs_view(s: Seq<(String, String)>) -> Seq<(Seq<char>, Seq<char>)> {
    s.map_values(|p: (String, String)| (p.0@, p.1@))
}

/// Finds all conflicts between included and excluded directories: every
/// pair where the included path lies inside the excluded path, exactly as
/// `spec_conflicts` states.
pub fn find_conflicts(included: &Vec<String>, excluded: &Vec<String>) -> (r: Vec<(String, String)>)
    ensures
        spec_pairs_view(r@) == spec_conflicts(included.deep_view(), excluded.deep_view()),
{
    let ghost iv = included.deep_view();
    let ghost ev = excluded.deep_view();
    let mut r: Vec<(String, String)> = Vec::new();
    let mut i: usize = 0;
    proof {
        assert(spec_pairs_view(r@) =~= spec_conflicts(iv.take(0), ev));
    }
    while i < included.len()
        invariant
            i <= included@.len(),
            iv == included.deep_view(),
            ev == excluded.deep_view(),
            spec_pairs_view(r@) == spec_conflicts(iv.take(i as int), ev),
        decreases included@.len() - i,
    {
        let inc_chars = str_to_chars(included[i].as_str());
        let ghost inc = iv[i as int];
        proof {
            assert(included@[i as int]@ =~= inc);
            assert(iv.take(i as int + 1).drop_last() =~~= iv.take(i as int));
            assert(iv.take(i as int + 1).last() == inc);
            assert(ev.take(0) =~~= Seq::<Seq<char>>::empty());
        }
        let mut j: usize = 0;
        while j < excluded.len()
            invariant
                j <= excluded@.len(),
                i < included@.len(),
                iv == included.deep_view(),
                ev == excluded.deep_view(),
                inc == iv[i as int],
                inc_chars@ == inc,
                spec_pairs_view(r@) == spec_conflicts(iv.take(i as int), ev) + spec_conflict_row(
                    inc,
                    ev.take(j as int),
                ),
            decreases excluded@.len() - j,
        {
            let ghost old_r = r@;
            proof {
                assert(ev.take(j as int + 1).drop_last() =~~= ev.take(j as int));
                assert(ev.take(j as int + 1).last() == ev[j as int]);
                assert(excluded@[j as int]@ =~= ev[j as int]);
            }
            let exc_chars = str_to_chars(excluded[j].as_str());
            if path_starts_with(&inc_chars, &exc_chars) {
                r.push((included[i].clone(), excluded[j].clone()));
                proof {
                    assert(spec_pairs_view(r@) =~= spec_pairs_view(old_r).push(
                        (inc, ev[j as int]),
                    ));
                }
            }
            j = j + 1;
        }
        proof {
            assert(ev.take(ev.len() as int) =~~= ev);
        }
        i = i + 1;
    }
    proof {
        assert(iv.take(iv.len() as int) =~~= iv);
    }
    r
}

/// The warning text for one conflicting pair.
pub open spec fn spec_conflict_message(inc: Seq<char>, exc: Seq<char>) -> Seq<char> {
    "Included '"@ + inc + "' and Excluded '"@ + exc + "'"@
}

/// The warning texts of all conflicting pairs, in order.
pub open spec fn spec_conflict_messages(pairs: Seq<(Seq<char>, Seq<char>)>) -> Seq<Seq<char>>
    decreases pairs.len(),
{
    if pairs.len() == 0 {
        Seq::empty()
    } else {
        spec_conflict_messages(pairs.drop_last()).push(
            spec_conflict_message(pairs.last().0, pairs.last().1),
        )
    }
}

/// Validates that no included directory lies inside an excluded one:
/// returns one human-readable warning per conflicting pair, exactly as
/// `spec_conflict_messages` over `spec_conflicts` states.
pub fn validate_directory_conflicts(included: &Vec<String>, excluded: &Vec<String>) -> (r: Vec<
    String,
>)
    ensures
        r.deep_view() == spec_conflict_messages(
            spec_conflicts(included.deep_view(), excluded.deep_view()),
        ),
{
    let conflicts = find_conflicts(included, excluded);
    let ghost cv = spec_pairs_view(conflicts@);
    let mut r: Vec<String> = Vec::new();
    let mut i: usize = 0;
    proof {
        assert(r.deep_view() =~~= spec_conflict_messages(cv.take(0)));
    }
    while i < conflicts.len()
        invariant
            i <= conflicts@.len(),
            cv == spec_pairs_view(conflicts@),
            r.deep_view() == spec_conflict_messages(cv.take(i as int)),
        decreases conflicts@.len() - i,
    {
        let ghost old_r = r.deep_view();
        proof {
            assert(cv.take(i as int + 1).drop_last() =~= cv.take(i as int));
            assert(cv.take(i as int + 1).last() == cv[i as int]);
            assert(cv[i as int] == (conflicts@[i as int].0@, conflicts@[i as int].1@));
        }
        let pair = &conflicts[i];
        let mut s = String::from_str("Included '");
        s.append(pair.0.as_str());
        s.append("' and Excluded '");
        s.append(pair.1.as_str());
        s.append("'");
        r.push(s);
        proof {
            assert(r.deep_view() =~~= old_r.push(
                spec_conflict_message(cv[i as int].0, cv[i as int].1),
            ));
        }
        i = i + 1;
    }
    proof {
        assert(cv.take(cv.len() as int) =~= cv);
    }
    r
}

/// Checks whether adding one path to a directory field would conflict:
/// a path added to the included list is checked against the current
/// excluded list, a path added to the excluded list against the current
/// included list, and any other field never conflicts. The first
/// conflicting pair is reported.
pub fn check_path_conflict(
    path_to_add: &str,
    target_field: &str,
    current_included: &Vec<String>,
    current_excluded: &Vec<String>,
) -> (r: Option<ConflictInfo>)
    ensures
        ({
            let conflicts = if target_field@ == "includedDirectories"@ {
                spec_conflicts(seq![path_to_add@], current_excluded.deep_view())
            } else if target_field@ == "excludedDirectories"@ {
                spec_conflicts(current_included.deep_view(), seq![path_to_add@])
            } else {
                Seq::empty()
            };
            match r {
                Some(info) => conflicts.len() > 0 && info.included@ == conflicts[0].0
                    && info.excluded@ == conflicts[0].1,
                None => conflicts.len() == 0,
            }
        }),
{
    let conflicts = if crate::text::str_eq(target_field, "includedDirectories") {
        let mut single: Vec<String> = Vec::new();
        single.push(path_to_add.to_owned());
        proof {
            assert(single.deep_view() =~~= seq![path_to_add@]);
        }
        find_conflicts(&single, current_excluded)
    } else if crate::text::str_eq(target_field, "excludedDirectories") {
        let mut single: Vec<String> = Vec::new();
        single.push(path_to_add.to_owned());
        proof {
            assert(single.deep_view() =~~= seq![path_to_add@]);
        }
        find_conflicts(current_included, &single)
    } else {
        Vec::new()
    };
    proof {
        assert(spec_pairs_view(Seq::<(String, String)>::empty()) =~= Seq::<
            (Seq<char>, Seq<char>),
        >::empty());
    }
    if conflicts.len() > 0 {
        let pair = &conflicts[0];
        proof {
            assert(spec_pairs_view(conflicts@)[0] == (conflicts@[0].0@, conflicts@[0].1@));
        }
        Some(ConflictInfo { included: pair.0.clone(), excluded: pair.1.clone() })
    } else {
        None
    }
}

} // verus!
