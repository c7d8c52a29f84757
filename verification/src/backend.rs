//! Trusted facade over the git backend.
//!
//! Every function here is an unverified wrapper around exactly one backend
//! operation; the engine composes them and is verified against their
//! contracts.  Commit identifiers cross this boundary as plain byte vectors
//! of [`OID_LEN`] bytes, so that the verified code can speak about them.

use vstd::prelude::*;

verus! {

/// The length in bytes of a raw commit identifier.
pub const OID_LEN: usize = 20;

#[verifier::external_type_specification]
#[verifier::external_body]
pub struct ExRepository(git2::Repository);

#[verifier::external_type_specification]
#[verifier::external_body]
pub struct ExError(git2::Error);

#[verifier::external_type_specification]
#[verifier::external_body]
pub struct ExReference<'a>(git2::Reference<'a>);

#[verifier::external_type_specification]
#[verifier::external_body]
pub struct ExAnnotatedCommit<'a>(git2::AnnotatedCommit<'a>);

#[verifier::external_type_specification]
#[verifier::external_body]
pub struct ExCommit<'a>(git2::Commit<'a>);

#[verifier::external_type_specification]
#[verifier::external_body]
pub struct ExTree<'a>(git2::Tree<'a>);

#[verifier::external_type_specification]
#[verifier::external_body]
pub struct ExIndex(git2::Index);

/// Relies on `git2::Repository::find_reference`: looks the branch up under
/// `refs/heads/`, failing when no such reference exists.
#[verifier::external_body]
pub(crate) fn lookup_branch_ref<'r>(repo: &'r git2::Repository, name: &str) -> (r: Result<
    git2::Reference<'r>,
    git2::Error,
>) {
    repo.find_reference(&format!("refs/heads/{}", name))
}

/// Relies on `git2::Repository::reference_to_annotated_commit`: turns a
/// resolved reference into a commit handle usable as a merge input.
#[verifier::external_body]
pub(crate) fn annotated_from_ref<'r>(
    repo: &'r git2::Repository,
    reference: &git2::Reference<'r>,
) -> (r: Result<git2::AnnotatedCommit<'r>, git2::Error>) {
    repo.reference_to_annotated_commit(reference)
}

/// Relies on `git2::AnnotatedCommit::id` (and `git2::Oid::as_bytes`): hands
/// out the raw identifier of the commit the handle stands for.
#[verifier::external_body]
pub(crate) fn annotated_commit_id(commit: &git2::AnnotatedCommit<'_>) -> (r: Vec<u8>)
    ensures
        r@.len() == OID_LEN,
{
    commit.id().as_bytes().to_vec()
}

/// Relies on `git2::Repository::merge_analysis_for_ref`: reports, as a word
/// of combinable bit flags, the opportunities for merging the given commit
/// into the reference's current position.  This only inspects history; it
/// does not touch the index or working tree.
#[verifier::external_body]
pub(crate) fn merge_analysis_bits(
    repo: &git2::Repository,
    our_ref: &git2::Reference<'_>,
    their_head: &git2::AnnotatedCommit<'_>,
) -> (r: Result<u32, git2::Error>) {
    match repo.merge_analysis_for_ref(our_ref, &[their_head]) {
        Ok((analysis, _preference)) => Ok(analysis.bits()),
        Err(e) => Err(e),
    }
}

/// Relies on `git2::Repository::merge_base` (and `git2::Oid::from_bytes` /
/// `as_bytes` for the identifier conversions): the most recent common
/// ancestor of the two commits, failing when they share no history.
#[verifier::external_body]
pub(crate) fn merge_base_id(repo: &git2::Repository, one: &Vec<u8>, two: &Vec<u8>) -> (r: Result<
    Vec<u8>,
    git2::Error,
>)
    requires
        one@.len() == OID_LEN,
        two@.len() == OID_LEN,
    ensures
        r matches Ok(id) ==> id@.len() == OID_LEN,
{
    let a = git2::Oid::from_bytes(one)?;
    let b = git2::Oid::from_bytes(two)?;
    Ok(repo.merge_base(a, b)?.as_bytes().to_vec())
}

/// Relies on `git2::Repository::find_commit` (and `git2::Oid::from_bytes`):
/// looks a commit up by its raw identifier.
#[verifier::external_body]
pub(crate) fn lookup_commit<'r>(repo: &'r git2::Repository, id: &Vec<u8>) -> (r: Result<
    git2::Commit<'r>,
    git2::Error,
>)
    requires
        id@.len() == OID_LEN,
{
    repo.find_commit(git2::Oid::from_bytes(id)?)
}

/// Relies on `git2::Commit::tree`: the tree the commit points at.
#[verifier::external_body]
pub(crate) fn tree_of_commit<'r>(commit: &git2::Commit<'r>) -> (r: Result<
    git2::Tree<'r>,
    git2::Error,
>) {
    commit.tree()
}

/// Relies on `git2::Repository::merge_trees` with default options: computes
/// a three-way merge of the two trees against the ancestor tree, producing
/// an in-memory index that records any conflicting entries.  The repository
/// itself is not modified.
#[verifier::external_body]
pub(crate) fn merge_trees_index(
    repo: &git2::Repository,
    ancestor: &git2::Tree<'_>,
    ours: &git2::Tree<'_>,
    theirs: &git2::Tree<'_>,
) -> (r: Result<git2::Index, git2::Error>) {
    repo.merge_trees(ancestor, ours, theirs, None)
}

/// Relies on `git2::Index::has_conflicts`: whether the index contains any
/// conflicting entry.
#[verifier::external_body]
pub(crate) fn index_has_conflicts(index: &git2::Index) -> (r: bool) {
    index.has_conflicts()
}

/// Relies on `git2::Repository::checkout_index`: writes the given index out
/// to the working tree, keeping conflicting entries so their markers become
/// visible in the files.
#[verifier::external_body]
pub(crate) fn checkout_index_into_worktree(
    repo: &git2::Repository,
    index: &mut git2::Index,
) -> (r: Result<(), git2::Error>) {
    let mut opts = git2::build::CheckoutBuilder::new();
    opts.force().allow_conflicts(true);
    repo.checkout_index(Some(index), Some(&mut opts))
}

/// Relies on `git2::Repository::refname_to_id` (and `git2::Oid::as_bytes`):
/// resolves `HEAD` straight through to the commit it points at.
#[verifier::external_body]
pub(crate) fn head_commit_id(repo: &git2::Repository) -> (r: Result<Vec<u8>, git2::Error>)
    ensures
        r matches Ok(id) ==> id@.len() == OID_LEN,
{
    Ok(repo.refname_to_id("HEAD")?.as_bytes().to_vec())
}

/// Relies on `git2::Repository::reset` with `ResetType::Hard` (and
/// `git2::Commit::as_object`): moves `HEAD`, the index and the working tree
/// back to the given commit.
#[verifier::external_body]
pub(crate) fn hard_reset_to_commit(repo: &git2::Repository, commit: &git2::Commit<'_>) -> (r:
    Result<(), git2::Error>) {
    repo.reset(commit.as_object(), git2::ResetType::Hard, None)
}

} // verus!
