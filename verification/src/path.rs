//! Path resolution: a request's segments are appended, in order, to the
//! directory that is served.

use std::path::PathBuf;
use vstd::prelude::*;

verus! {

/// `std::path::PathBuf`, carried through as an opaque value.
#[verifier::external_type_specification]
#[verifier::external_body]
pub struct ExPathBuf(PathBuf);

/// The path that `PathBuf::push` leaves in a buffer that held `base` when it
/// is handed `segment`: the platform's rule for joining paths. Nothing is
/// claimed of it but that it depends on these two alone.
pub uninterp spec fn pushed(base: PathBuf, segment: Seq<char>) -> PathBuf;

/// `root` with each of `segments` joined onto it, first to last.
pub open spec fn resolved(root: PathBuf, segments: Seq<Seq<char>>) -> PathBuf
    decreases segments.len(),
{
    if segments.len() == 0 {
        root
    } else {
        pushed(resolved(root, segments.drop_last()), segments.last())
    }
}

/// `PathBuf::push` with a `String` as the pushed path. The buffer afterwards
/// holds what the platform's joining rule makes of its former value and the
/// segment. `push` does not fail and does not touch the filesystem.
#[verifier::external_body]
fn push_segment(path: &mut PathBuf, segment: &String)
    ensures
        *final(path) == pushed(*old(path), segment@),
{
    path.push(segment)
}

/// `Clone` for `PathBuf`: the copy is the same path.
pub assume_specification[ <PathBuf as Clone>::clone ](path: &PathBuf) -> (copy: PathBuf)
    ensures
        copy == *path,
;

/// Joining one more segment onto an already resolved path is the same as
/// resolving with that segment at the end.
pub proof fn lemma_resolved_push(root: PathBuf, segments: Seq<Seq<char>>, segment: Seq<char>)
    ensures
        resolved(root, segments.push(segment)) == pushed(resolved(root, segments), segment),
{
    assert(segments.push(segment).drop_last() =~= segments);
}

/// Resolving a request in two parts, the second from where the first has
/// led, gives the path that resolving it whole gives: a longer request only
/// ever extends, by further joins, what a shorter one resolves to.
pub proof fn lemma_resolved_concat(root: PathBuf, first: Seq<Seq<char>>, rest: Seq<Seq<char>>)
    ensures
        resolved(root, first + rest) == resolved(resolved(root, first), rest),
    decreases rest.len(),
{
    if rest.len() == 0 {
        assert(first + rest =~= first);
    } else {
        lemma_resolved_concat(root, first, rest.drop_last());
        assert((first + rest).drop_last() =~= first + rest.drop_last());
    }
}

/// The filesystem path that a request for `segments` stands for under `root`.
/// No segment is inspected or rejected, and nothing is looked up on disk.
pub fn resolve(root: &PathBuf, segments: &[String]) -> (path: PathBuf)
    ensures
        path == resolved(*root, segments.deep_view()),
{
    let mut path = root.clone();
    let mut done: usize = 0;
    while done < segments.len()
        invariant
            done <= segments.len(),
            path == resolved(*root, segments.deep_view().take(done as int)),
        decreases segments.len() - done,
    {
        proof {
            let all = segments.deep_view();
            lemma_resolved_push(*root, all.take(done as int), all[done as int]);
            assert(all.take(done as int).push(all[done as int]) =~= all.take(done + 1));
        }
        push_segment(&mut path, &segments[done]);
        done += 1;
    }
    assert(segments.deep_view().take(done as int) =~= segments.deep_view());
    path
}

} // verus!
