//! The repository backend: the calls into `git2` that the search makes.
//!
//! Nothing here is proved. Each function is one call into `git2`, and what
//! its contract says is taken on trust from that crate. What a repository
//! holds is not known before it is asked, so nothing is claimed of the
//! answers themselves: the search is verified for every answer.
//!
//! A failure of `git2` is handed on as a [`GitFailure`]: whether its code is
//! `git2::ErrorCode::NotFound`, and the text that it displays.
//!
//! Of a walker two things are known, because the walker is told them and
//! keeps them while it walks: the order in which it gives commits, and the
//! objects from which it sets out. The methods of `git2::Revwalk` hand their
//! arguments to the functions of libgit2 of the same names,
//! `git_revwalk_sorting`, `git_revwalk_push` and `git_revwalk_next`; what is
//! said here of the two is what those do to the fields `sorting` and
//! `user_input` of the walker.

use vstd::prelude::*;
use crate::error::GitFailure;

verus! {

/// `git2::Repository`: a repository, open for reading. It is handed to the
/// backend as it came; nothing of what it holds is known here.
#[verifier::external_type_specification]
#[verifier::external_body]
pub struct ExRepository(git2::Repository);

/// `git2::Oid`: the identifier of a commit. The search hands identifiers on
/// and never looks into one.
#[verifier::external_type_specification]
#[verifier::external_body]
pub struct ExOid(git2::Oid);

/// `git2::Commit`: a commit that the backend has loaded.
#[verifier::external_type_specification]
#[verifier::external_body]
pub struct ExCommit<'repo>(git2::Commit<'repo>);

/// A walk through the commits of a repository, as a `git2::Revwalk` carries
/// it out. The walker belongs to the backend: of what it holds, only its
/// order and its starts are spoken of here.
#[verifier::external_body]
pub struct Walker<'repo> {
    inner: git2::Revwalk<'repo>,
}

/// The sort modes that `walker` was last given, as the bits of a
/// `git2::Sort`; 0 if it was given none.
pub uninterp spec fn walker_sorting(walker: Walker<'_>) -> u32;

/// The objects from whose commits `walker` sets out: an object is among them
/// if the commit that it names has been handed to the walker as a start.
pub uninterp spec fn walker_starts(walker: Walker<'_>) -> Set<git2::Oid>;

/// `git2::Repository::revparse_single`, then `git2::Object::id`: the
/// identifier of the object that the revision text `spec` names in `repo`.
#[verifier::external_body]
pub(crate) fn resolve_revision(repo: &git2::Repository, spec: &str) -> Result<git2::Oid, GitFailure> {
    match repo.revparse_single(spec) {
        Ok(object) => Ok(object.id()),
        Err(e) => Err(GitFailure {
            not_found: e.code() == git2::ErrorCode::NotFound,
            text: e.to_string(),
        }),
    }
}

/// `git2::Repository::revwalk`: a walker over the commits of `repo` that has
/// no commit to set out from yet.
#[verifier::external_body]
pub(crate) fn new_walker<'repo>(repo: &'repo git2::Repository) -> Result<Walker<'repo>, GitFailure> {
    match repo.revwalk() {
        Ok(inner) => Ok(Walker { inner }),
        Err(e) => Err(GitFailure {
            not_found: e.code() == git2::ErrorCode::NotFound,
            text: e.to_string(),
        }),
    }
}

/// `git2::Revwalk::set_sorting`, with the `git2::Sort` whose bits are those
/// of `modes`: 1 for topological order, 2 for order by commit time, 4 to
/// reverse the order. There are no other bits. Where the call succeeds,
/// `modes` is the order of the walker from then on.
#[verifier::external_body]
pub(crate) fn set_sorting<'repo>(walker: &mut Walker<'repo>, modes: u32) -> (set: Result<(), GitFailure>)
    requires
        modes <= 7,
    ensures
        set is Ok ==> walker_sorting(*final(walker)) == modes,
{
    match walker.inner.set_sorting(git2::Sort::from_bits_truncate(modes)) {
        Ok(()) => Ok(()),
        Err(e) => Err(GitFailure {
            not_found: e.code() == git2::ErrorCode::NotFound,
            text: e.to_string(),
        }),
    }
}

/// `git2::Revwalk::push`: makes the commit that `start` names one from which
/// `walker` sets out. Where the call succeeds, `start` is among the starts of
/// the walker, and the walker has the order that it had.
#[verifier::external_body]
pub(crate) fn push_start<'repo>(walker: &mut Walker<'repo>, start: git2::Oid) -> (pushed: Result<(), GitFailure>)
    ensures
        pushed is Ok ==> walker_sorting(*final(walker)) == walker_sorting(*old(walker)),
        pushed is Ok ==> walker_starts(*final(walker)).contains(start),
{
    match walker.inner.push(start) {
        Ok(()) => Ok(()),
        Err(e) => Err(GitFailure {
            not_found: e.code() == git2::ErrorCode::NotFound,
            text: e.to_string(),
        }),
    }
}

/// `git2::Revwalk::next`: the next commit of the walk, `None` once the walk
/// is over, or the failure that stopped it. Which of these comes depends on
/// the repository. Unless the walk is over, the walker keeps its order and
/// its starts.
#[verifier::external_body]
pub(crate) fn next_commit<'repo>(walker: &mut Walker<'repo>) -> (next: Option<Result<git2::Oid, GitFailure>>)
    ensures
        next is Some ==> walker_sorting(*final(walker)) == walker_sorting(*old(walker)),
        next is Some ==> walker_starts(*final(walker)) == walker_starts(*old(walker)),
{
    match walker.inner.next() {
        None => None,
        Some(Ok(id)) => Some(Ok(id)),
        Some(Err(e)) => Some(Err(GitFailure {
            not_found: e.code() == git2::ErrorCode::NotFound,
            text: e.to_string(),
        })),
    }
}

/// `git2::Repository::find_commit`: the commit that `id` names in `repo`.
#[verifier::external_body]
pub(crate) fn find_commit<'repo>(repo: &'repo git2::Repository, id: git2::Oid) -> Result<git2::Commit<'repo>, GitFailure> {
    match repo.find_commit(id) {
        Ok(commit) => Ok(commit),
        Err(e) => Err(GitFailure {
            not_found: e.code() == git2::ErrorCode::NotFound,
            text: e.to_string(),
        }),
    }
}

/// `git2::Commit::message_bytes`: the message of `commit` as the bytes that
/// were stored, but for newlines at its very start, which the backend drops.
#[verifier::external_body]
pub(crate) fn message_bytes<'a, 'repo>(commit: &'a git2::Commit<'repo>) -> &'a [u8] {
    commit.message_bytes()
}

} // verus!
