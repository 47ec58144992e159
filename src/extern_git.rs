//! The parts of `git2` (and of `std::str`) that the library calls, with what
//! it relies on of each.
//!
//! A `git2` handle stands for an object that git has parsed and never
//! changes, so what its accessors return depends on the handle alone. The
//! `*_of` names below stand for those results.

use vstd::prelude::*;
use vstd::utf8::{decode_utf8, valid_utf8};
use crate::oid::OID_LEN;
use git2::{
    Commit as GitCommit, Error as GitError, Oid, Signature as GitSignature, Time as GitTime,
    Tree as GitTree,
};

verus! {

#[verifier::external_type_specification]
#[verifier::external_body]
pub struct ExCommit<'repo>(GitCommit<'repo>);

#[verifier::external_type_specification]
#[verifier::external_body]
pub struct ExTree<'repo>(GitTree<'repo>);

#[verifier::external_type_specification]
#[verifier::external_body]
pub struct ExSignature<'a>(GitSignature<'a>);

#[verifier::external_type_specification]
#[verifier::external_body]
pub struct ExOid(Oid);

#[verifier::external_type_specification]
#[verifier::external_body]
pub struct ExTime(GitTime);

#[verifier::external_type_specification]
#[verifier::external_body]
pub struct ExError(GitError);

/// The identifier of a commit.
pub uninterp spec fn commit_id_of(c: GitCommit) -> Oid;

/// The identifier on a commit's `tree` header.
pub uninterp spec fn commit_tree_id_of(c: GitCommit) -> Oid;

/// The number of a commit's `parent` headers.
pub uninterp spec fn commit_parent_count_of(c: GitCommit) -> usize;

/// The identifier on a commit's `parent` header at a position.
pub uninterp spec fn commit_parent_id_of(c: GitCommit, i: usize) -> Oid;

/// A commit's raw message.
pub uninterp spec fn commit_message_of(c: GitCommit) -> Seq<u8>;

/// A commit's `author` signature.
pub uninterp spec fn commit_author_of(c: GitCommit) -> GitSignature;

/// A commit's `committer` signature.
pub uninterp spec fn commit_committer_of(c: GitCommit) -> GitSignature;

/// The identifier of a tree.
pub uninterp spec fn tree_id_of(t: GitTree) -> Oid;

/// The raw name of a signature.
pub uninterp spec fn signature_name_of(s: GitSignature) -> Seq<u8>;

/// The raw email of a signature.
pub uninterp spec fn signature_email_of(s: GitSignature) -> Seq<u8>;

/// The time of a signature.
pub uninterp spec fn signature_when_of(s: GitSignature) -> GitTime;

/// Seconds since the epoch of a time.
pub uninterp spec fn time_seconds_of(t: GitTime) -> i64;

/// The time zone offset of a time, in minutes.
pub uninterp spec fn time_offset_of(t: GitTime) -> i32;

/// The raw bytes of an identifier.
pub uninterp spec fn oid_bytes_of(o: Oid) -> Seq<u8>;

/// Relies on git2::Commit::id: the commit's identifier.
pub assume_specification<'repo>[ GitCommit::<'repo>::id ](c: &GitCommit<'repo>) -> (r: Oid)
    ensures
        r == commit_id_of(*c),
;

/// Relies on git2::Commit::tree_id: the identifier on the commit's `tree`
/// header.
pub assume_specification<'repo>[ GitCommit::<'repo>::tree_id ](c: &GitCommit<'repo>) -> (r: Oid)
    ensures
        r == commit_tree_id_of(*c),
;

/// Relies on git2::Commit::parent_count: the number of parents, which
/// libgit2 hands out as a C `unsigned int`.
pub assume_specification<'repo>[ GitCommit::<'repo>::parent_count ](c: &GitCommit<'repo>) -> (r:
    usize)
    ensures
        r == commit_parent_count_of(*c),
        r <= u32::MAX,
;

/// Relies on git2::Commit::message_bytes: the raw message of the commit.
#[verifier::external_body]
pub(crate) fn commit_message_bytes(c: &GitCommit) -> (r: Vec<u8>)
    ensures
        r@ == commit_message_of(*c),
{
    c.message_bytes().to_vec()
}

/// Relies on git2::Commit::author: the author's signature.
#[verifier::external_body]
pub(crate) fn commit_author<'a>(c: &'a GitCommit) -> (r: GitSignature<'a>)
    ensures
        r == commit_author_of(*c),
{
    c.author()
}

/// Relies on git2::Commit::committer: the committer's signature.
#[verifier::external_body]
pub(crate) fn commit_committer<'a>(c: &'a GitCommit) -> (r: GitSignature<'a>)
    ensures
        r == commit_committer_of(*c),
{
    c.committer()
}

/// Relies on git2::Commit::tree: libgit2 looks the tree up by the commit's
/// tree identifier (`git_commit_tree`), so a tree found carries it; the
/// lookup may fail.
pub assume_specification<'repo>[ GitCommit::<'repo>::tree ](c: &GitCommit<'repo>) -> (r: Result<
    GitTree<'repo>,
    GitError,
>)
    ensures
        r matches Ok(t) ==> tree_id_of(t) == commit_tree_id_of(*c),
;

/// Relies on git2::Commit::parent: libgit2 (`git_commit_parent`) fails for
/// an index at or past the parent count, and otherwise looks up the commit
/// named on the parent header at that index, which may fail. The index is
/// passed on as a C `unsigned int`, hence the bound.
pub assume_specification<'repo>[ GitCommit::<'repo>::parent ](c: &GitCommit<'repo>, i: usize) -> (r:
    Result<GitCommit<'repo>, GitError>)
    ensures
        i <= u32::MAX && i >= commit_parent_count_of(*c) ==> r is Err,
        i <= u32::MAX && r is Ok ==> i < commit_parent_count_of(*c),
        i <= u32::MAX ==> (r matches Ok(p) ==> commit_id_of(p) == commit_parent_id_of(*c, i)),
;

/// Relies on git2::Commit's `Clone`: libgit2 (`git_object_dup`) hands out
/// the same object again, with its count of users raised.
pub assume_specification<'repo>[ <GitCommit<'repo> as Clone>::clone ](c: &GitCommit<'repo>) -> (r:
    GitCommit<'repo>)
    ensures
        r == *c,
;

/// Relies on git2::Tree::id: the tree's identifier.
pub assume_specification<'repo>[ GitTree::<'repo>::id ](t: &GitTree<'repo>) -> (r: Oid)
    ensures
        r == tree_id_of(*t),
;

/// Relies on git2::Signature::name_bytes: the raw name of a signature.
#[verifier::external_body]
pub(crate) fn signature_name_bytes(s: &GitSignature) -> (r: Vec<u8>)
    ensures
        r@ == signature_name_of(*s),
{
    s.name_bytes().to_vec()
}

/// Relies on git2::Signature::email_bytes: the raw email of a signature.
#[verifier::external_body]
pub(crate) fn signature_email_bytes(s: &GitSignature) -> (r: Vec<u8>)
    ensures
        r@ == signature_email_of(*s),
{
    s.email_bytes().to_vec()
}

/// Relies on git2::Signature::when: the time of a signature.
pub assume_specification<'a>[ GitSignature::<'a>::when ](s: &GitSignature<'a>) -> (r: GitTime)
    ensures
        r == signature_when_of(*s),
;

/// Relies on git2::Time::seconds: seconds since the epoch.
pub assume_specification[ GitTime::seconds ](t: &GitTime) -> (r: i64)
    ensures
        r == time_seconds_of(*t),
;

/// Relies on git2::Time::offset_minutes: the time zone offset in minutes.
pub assume_specification[ GitTime::offset_minutes ](t: &GitTime) -> (r: i32)
    ensures
        r == time_offset_of(*t),
;

/// Relies on git2::Oid::as_bytes: the identifier's raw bytes, 20 of them
/// (SHA-1; the crate is built without git2's SHA-256 feature).
#[verifier::external_body]
pub(crate) fn oid_bytes(o: &Oid) -> (r: Vec<u8>)
    ensures
        r@ == oid_bytes_of(*o),
        r@.len() == OID_LEN,
{
    o.as_bytes().to_vec()
}

/// Relies on std::str::from_utf8: it accepts exactly the valid UTF-8 byte
/// sequences, and the text it returns has the same bytes.
#[verifier::external_body]
pub(crate) fn utf8_text(b: &[u8]) -> (r: Option<&str>)
    ensures
        r is Some <==> valid_utf8(b@),
        r matches Some(s) ==> s@ == decode_utf8(b@),
{
    std::str::from_utf8(b).ok()
}

} // verus!
