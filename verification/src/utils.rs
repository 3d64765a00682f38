//! Small conversions used at the command boundary.

use vstd::prelude::*;
use crate::text::{str_to_chars, chars_to_string};
use std::path::PathBuf;

verus! {

#[verifier::external_type_specification]
#[verifier::external_body]
pub struct ExPathBuf(PathBuf);

/// The owned path a path string converts to. Named after `PathBuf::from`,
/// whose result depends on the string alone.
pub uninterp spec fn pathbuf_of(s: Seq<char>) -> PathBuf;

/// Relies on `PathBuf::from` over a `String`: a plain conversion of one
/// path string into an owned path, a function of the string alone.
#[verifier::external_body]
fn pathbuf_from_string(s: String) -> (r: PathBuf)
    ensures
        r == pathbuf_of(s@),
{
    PathBuf::from(s)
}

/// Turns path strings into owned paths: one for each input string, in
/// order, each the path its own string converts to.
pub fn convert_strs_to_path_bufs(strs: Vec<String>) -> (r: Vec<PathBuf>)
    ensures
        r@.len() == strs@.len(),
        forall|i: int| 0 <= i < r@.len() ==> r@[i] == pathbuf_of(strs@[i]@),
{
    let ghost sv = strs@;
    let rest = strs;
    let mut r: Vec<PathBuf> = Vec::new();
    let mut i: usize = 0;
    while i < rest.len()
        invariant
            i <= sv.len(),
            rest@ == sv,
            r@.len() == i,
            forall|j: int| 0 <= j < i ==> r@[j] == pathbuf_of(sv[j]@),
        decreases sv.len() - i,
    {
        r.push(pathbuf_from_string(rest[i].clone()));
        i = i + 1;
    }
    r
}

/// The pieces of a string between commas; empty pieces are kept, and the
/// empty string is one empty piece, with `cur` the pending piece read so
/// far.
pub open spec fn spec_split_comma_acc(p: Seq<char>, cur: Seq<char>) -> Seq<Seq<char>>
    decreases p.len(),
{
    if p.len() == 0 {
        seq![cur]
    } else if p.first() == ',' {
        seq![cur] + spec_split_comma_acc(p.drop_first(), Seq::empty())
    } else {
        spec_split_comma_acc(p.drop_first(), cur.push(p.first()))
    }
}

/// The pieces of a string between commas.
pub open spec fn spec_split_comma(p: Seq<char>) -> Seq<Seq<char>> {
    spec_split_comma_acc(p, Seq::empty())
}

/// Splits a string at commas, exactly as `spec_split_comma` states.
pub fn split_str_with_comma(s: String) -> (r: Vec<String>)
    ensures
        r.deep_view() == spec_split_comma(s@),
{
    let chars = str_to_chars(s.as_str());
    let mut r: Vec<String> = Vec::new();
    let mut cur: Vec<char> = Vec::new();
    let mut i: usize = 0;
    proof {
        assert(chars@.skip(0) =~= chars@);
        assert(r.deep_view() =~~= Seq::<Seq<char>>::empty());
    }
    while i < chars.len()
        invariant
            i <= chars@.len(),
            chars@ == s@,
            spec_split_comma(s@) == r.deep_view() + spec_split_comma_acc(
                chars@.skip(i as int),
                cur@,
            ),
        decreases chars@.len() - i,
    {
        let ghost old_r = r.deep_view();
        let ghost old_cur = cur@;
        let ghost rest = chars@.skip(i as int);
        proof {
            assert(rest.first() == chars@[i as int]);
            assert(rest.drop_first() =~= chars@.skip(i as int + 1));
        }
        if chars[i] == ',' {
            r.push(chars_to_string(&cur));
            cur = Vec::new();
            proof {
                assert(r.deep_view() =~~= old_r.push(old_cur));
                assert(cur@ =~= Seq::<char>::empty());
                assert(old_r + spec_split_comma_acc(rest, old_cur) =~~= r.deep_view()
                    + spec_split_comma_acc(chars@.skip(i as int + 1), cur@));
            }
        } else {
            cur.push(chars[i]);
            proof {
                assert(cur@ == old_cur.push(rest.first()));
            }
        }
        i = i + 1;
    }
    proof {
        assert(chars@.skip(chars@.len() as int) =~= Seq::<char>::empty());
    }
    let ghost old_r = r.deep_view();
    let ghost old_cur = cur@;
    r.push(chars_to_string(&cur));
    proof {
        assert(r.deep_view() =~~= old_r.push(old_cur));
        assert(old_r + seq![old_cur] =~= r.deep_view());
    }
    r
}

} // verus!
