//! Outcomes of bulk file operations: every item ends as either a success
//! path or an error text, partial outcomes merge by concatenation, and
//! nothing is lost or duplicated on the way.

use vstd::prelude::*;
use vstd::string::StringExecFns;

verus! {

/// What one item of a bulk operation came to.
pub enum ItemResult {
    Success(String),
    Error(String),
}

/// The outcome of a bulk file operation: the paths that succeeded, and a
/// human-readable error for each path that failed.
pub struct FileOpOutcome {
    pub success_paths: Vec<String>,
    pub errors: Vec<String>,
}

/// The success paths among a run of item results, in order.
pub open spec fn spec_success_texts(rs: Seq<ItemResult>) -> Seq<Seq<char>>
    decreases rs.len(),
{
    if rs.len() == 0 {
        Seq::empty()
    } else {
        let rest = spec_success_texts(rs.drop_last());
        match rs.last() {
            ItemResult::Success(s) => rest.push(s@),
            ItemResult::Error(_) => rest,
        }
    }
}

/// The error texts among a run of item results, in order.
pub open spec fn spec_error_texts(rs: Seq<ItemResult>) -> Seq<Seq<char>>
    decreases rs.len(),
{
    if rs.len() == 0 {
        Seq::empty()
    } else {
        let rest = spec_error_texts(rs.drop_last());
        match rs.last() {
            ItemResult::Success(_) => rest,
            ItemResult::Error(e) => rest.push(e@),
        }
    }
}

/// Law: an outcome accounts for every item exactly once: each item result
/// lands in the success list or in the error list, never in both and never
/// in neither, so the two lengths always sum to the number of items.
pub proof fn law_outcome_accounts_every_item(rs: Seq<ItemResult>)
    ensures
        spec_success_texts(rs).len() + spec_error_texts(rs).len() == rs.len(),
    decreases rs.len(),
{
    if rs.len() > 0 {
        law_outcome_accounts_every_item(rs.drop_last());
    }
}

/// Law: each item lands in its own category: a success's path is among
/// the reported successes and an error's text among the reported errors.
/// With the counting law, every item appears exactly once across the two.
pub proof fn law_outcome_classifies_each_item(rs: Seq<ItemResult>, i: int)
    requires
        0 <= i < rs.len(),
    ensures
        match rs[i] {
            ItemResult::Success(s) => spec_success_texts(rs).contains(s@),
            ItemResult::Error(e) => spec_error_texts(rs).contains(e@),
        },
    decreases rs.len(),
{
    let ss = spec_success_texts(rs);
    let es = spec_error_texts(rs);
    if i == rs.len() - 1 {
        match rs[i] {
            ItemResult::Success(s) => {
                assert(ss.last() == s@);
            },
            ItemResult::Error(e) => {
                assert(es.last() == e@);
            },
        }
    } else {
        law_outcome_classifies_each_item(rs.drop_last(), i);
        let prev_s = spec_success_texts(rs.drop_last());
        let prev_e = spec_error_texts(rs.drop_last());
        match rs[i] {
            ItemResult::Success(s) => {
                let j = choose|j: int| 0 <= j < prev_s.len() && prev_s[j] == s@;
                assert(ss[j] == s@);
            },
            ItemResult::Error(e) => {
                let j = choose|j: int| 0 <= j < prev_e.len() && prev_e[j] == e@;
                assert(es[j] == e@);
            },
        }
    }
}

/// Law: merging by concatenation respects partitioning: the outcome of two
/// partitions processed separately and merged holds exactly the successes
/// and errors of the concatenated run, so parallel partitions lose nothing
/// and duplicate nothing.
pub proof fn law_outcome_merge_homomorphic(rs1: Seq<ItemResult>, rs2: Seq<ItemResult>)
    ensures
        spec_success_texts(rs1 + rs2) =~= spec_success_texts(rs1) + spec_success_texts(rs2),
        spec_error_texts(rs1 + rs2) =~= spec_error_texts(rs1) + spec_error_texts(rs2),
    decreases rs2.len(),
{
    if rs2.len() == 0 {
        assert(rs1 + rs2 =~= rs1);
    } else {
        assert((rs1 + rs2).drop_last() =~= rs1 + rs2.drop_last());
        assert((rs1 + rs2).last() == rs2.last());
        law_outcome_merge_homomorphic(rs1, rs2.drop_last());
    }
}

/// Folds a run of item results into the outcome: the success list holds
/// exactly the success paths, the error list exactly the error texts, in
/// order.
pub fn collect_outcome(results: Vec<ItemResult>) -> (r: FileOpOutcome)
    ensures
        r.success_paths.deep_view() == spec_success_texts(results@),
        r.errors.deep_view() == spec_error_texts(results@),
{
    let mut success_paths: Vec<String> = Vec::new();
    let mut errors: Vec<String> = Vec::new();
    let mut i: usize = 0;
    proof {
        assert(success_paths.deep_view() =~~= spec_success_texts(results@.take(0)));
        assert(errors.deep_view() =~~= spec_error_texts(results@.take(0)));
    }
    while i < results.len()
        invariant
            i <= results@.len(),
            success_paths.deep_view() == spec_success_texts(results@.take(i as int)),
            errors.deep_view() == spec_error_texts(results@.take(i as int)),
        decreases results@.len() - i,
    {
        let ghost old_s = success_paths.deep_view();
        let ghost old_e = errors.deep_view();
        proof {
            assert(results@.take(i as int + 1).drop_last() =~= results@.take(i as int));
            assert(results@.take(i as int + 1).last() == results@[i as int]);
        }
        match &results[i] {
            ItemResult::Success(p) => {
                success_paths.push(p.clone());
                proof {
                    assert(success_paths.deep_view() =~~= old_s.push(p@));
                }
            },
            ItemResult::Error(e) => {
                errors.push(e.clone());
                proof {
                    assert(errors.deep_view() =~~= old_e.push(e@));
                }
            },
        }
        i = i + 1;
    }
    proof {
        assert(results@.take(results@.len() as int) =~= results@);
    }
    FileOpOutcome { success_paths, errors }
}

/// Merges two partial outcomes by concatenation, the success and error
/// lists each in partition order.
pub fn merge_outcomes(a: FileOpOutcome, b: FileOpOutcome) -> (r: FileOpOutcome)
    ensures
        r.success_paths@ == a.success_paths@ + b.success_paths@,
        r.errors@ == a.errors@ + b.errors@,
{
    let FileOpOutcome { success_paths: mut sa, errors: mut ea } = a;
    let FileOpOutcome { success_paths: mut sb, errors: mut eb } = b;
    sa.append(&mut sb);
    ea.append(&mut eb);
    FileOpOutcome { success_paths: sa, errors: ea }
}

/// The error text for a path that does not exist.
pub open spec fn spec_not_found_msg(p: Seq<char>) -> Seq<char> {
    "`"@ + p + "` not found"@
}

/// The error text for a path whose operation failed for the given reason.
pub open spec fn spec_failed_msg(p: Seq<char>, reason: Seq<char>) -> Seq<char> {
    "`"@ + p + "` Failed, reason: "@ + reason
}

/// The error text for a destination that already exists.
pub open spec fn spec_already_exists_msg(p: Seq<char>) -> Seq<char> {
    "`"@ + p + "` already exists"@
}

/// Builds the not-found error text, exactly as `spec_not_found_msg` states.
pub fn not_found_msg(p: &str) -> (r: String)
    ensures
        r@ == spec_not_found_msg(p@),
{
    let mut s = String::from_str("`");
    s.append(p);
    s.append("` not found");
    s
}

/// Builds the failure error text, exactly as `spec_failed_msg` states.
pub fn failed_msg(p: &str, reason: &str) -> (r: String)
    ensures
        r@ == spec_failed_msg(p@, reason@),
{
    let mut s = String::from_str("`");
    s.append(p);
    s.append("` Failed, reason: ");
    s.append(reason);
    s
}

/// Builds the collision error text, exactly as `spec_already_exists_msg`
/// states.
pub fn already_exists_msg(p: &str) -> (r: String)
    ensures
        r@ == spec_already_exists_msg(p@),
{
    let mut s = String::from_str("`");
    s.append(p);
    s.append("` already exists");
    s
}

} // verus!
