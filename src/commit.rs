use vstd::prelude::*;
use vstd::utf8::{decode_utf8, valid_utf8};
use crate::extern_git::{
    commit_author, commit_author_of, commit_committer, commit_committer_of, commit_id_of,
    commit_message_bytes, commit_message_of, commit_parent_count_of, commit_parent_id_of,
    commit_tree_id_of, oid_bytes_of, tree_id_of, utf8_text,
};
use crate::oid::ObjectId;
use crate::signature::{signature_model_of, Signature, SignatureModel, Timestamp};

verus! {

/// What a commit holds, as plain values.
pub struct CommitModel {
    pub id: Seq<u8>,
    pub tree_id: Seq<u8>,
    /// The identifiers on the `parent` headers, in order.
    pub parent_ids: Seq<Seq<u8>>,
    pub author: SignatureModel,
    pub committer: SignatureModel,
    pub message: Seq<u8>,
}

/// The commit that git reports in `c`, as plain values.
pub open spec fn commit_model_of(c: git2::Commit) -> CommitModel {
    CommitModel {
        id: oid_bytes_of(commit_id_of(c)),
        tree_id: oid_bytes_of(commit_tree_id_of(c)),
        parent_ids: Seq::new(
            commit_parent_count_of(c) as nat,
            |i: int| oid_bytes_of(commit_parent_id_of(c, i as usize)),
        ),
        author: signature_model_of(commit_author_of(c)),
        committer: signature_model_of(commit_committer_of(c)),
        message: commit_message_of(c),
    }
}

/// The tree (directory snapshot) that a commit points to.
pub struct Tree<'repo> {
    tree: git2::Tree<'repo>,
    id: ObjectId,
}

impl<'repo> View for Tree<'repo> {
    type V = Seq<u8>;

    /// The identifier of the tree.
    closed spec fn view(&self) -> Seq<u8> {
        oid_bytes_of(tree_id_of(self.tree))
    }
}

impl<'repo> Tree<'repo> {
    #[verifier::type_invariant]
    closed spec fn inv(&self) -> bool {
        self.id@ == oid_bytes_of(tree_id_of(self.tree))
    }

    /// The git handle that the tree wraps.
    pub closed spec fn raw(&self) -> git2::Tree<'repo> {
        self.tree
    }

    /// Wraps a tree that git handed out, keeping that very handle.
    pub fn from_git(tree: git2::Tree<'repo>) -> (r: Tree<'repo>)
        ensures
            r.raw() == tree,
            r@ == oid_bytes_of(tree_id_of(tree)),
    {
        let id = ObjectId::from_git(&tree.id());
        Tree { tree, id }
    }

    /// The identifier of the tree.
    pub fn id(&self) -> (r: ObjectId)
        ensures
            r@ == self@,
    {
        proof {
            use_type_invariant(self);
        }
        self.id.clone()
    }

    /// The wrapped git handle.
    pub fn as_git(&self) -> (r: &git2::Tree<'repo>)
        ensures
            *r == self.raw(),
    {
        &self.tree
    }
}

/// A read-only view of one commit of a repository.
///
/// Besides git's own handle it keeps, as plain values, what git reports of
/// that handle; the type invariant ties the two together.
pub struct Commit<'repo> {
    commit: git2::Commit<'repo>,
    id: ObjectId,
    tree_id: ObjectId,
    parent_count: usize,
    author: Signature,
    committer: Signature,
    message: Vec<u8>,
}

impl<'repo> View for Commit<'repo> {
    type V = CommitModel;

    closed spec fn view(&self) -> CommitModel {
        commit_model_of(self.commit)
    }
}

impl<'repo> Commit<'repo> {
    #[verifier::type_invariant]
    closed spec fn inv(&self) -> bool {
        let m = commit_model_of(self.commit);
        &&& self.id@ == m.id
        &&& self.tree_id@ == m.tree_id
        &&& self.parent_count == m.parent_ids.len()
        &&& self.parent_count <= u32::MAX
        &&& self.author@ == m.author
        &&& self.committer@ == m.committer
        &&& self.message@ == m.message
    }

    /// The git handle that the view wraps.
    pub closed spec fn raw(&self) -> git2::Commit<'repo> {
        self.commit
    }

    /// Wraps a commit that git handed out, keeping that very handle; every
    /// value the view gives is what git reports of it.
    pub fn from_git(commit: git2::Commit<'repo>) -> (r: Commit<'repo>)
        ensures
            r.raw() == commit,
            r@ == commit_model_of(commit),
    {
        let id = ObjectId::from_git(&commit.id());
        let tree_id = ObjectId::from_git(&commit.tree_id());
        let parent_count = commit.parent_count();
        let author = Signature::from_git(&commit_author(&commit));
        let committer = Signature::from_git(&commit_committer(&commit));
        let message = commit_message_bytes(&commit);
        Commit { commit, id, tree_id, parent_count, author, committer, message }
    }

    /// Wraps a copy of a commit handle; git's copy is the same object.
    pub fn from_git_ref(commit: &git2::Commit<'repo>) -> (r: Commit<'repo>)
        ensures
            r.raw() == *commit,
            r@ == commit_model_of(*commit),
    {
        Commit::from_git(commit.clone())
    }

    /// The wrapped git handle.
    pub fn as_git(&self) -> (r: &git2::Commit<'repo>)
        ensures
            *r == self.raw(),
    {
        &self.commit
    }

    /// The content hash of the commit; the same on every call.
    pub fn id(&self) -> (r: ObjectId)
        ensures
            r@ == self@.id,
    {
        proof {
            use_type_invariant(self);
        }
        self.id.clone()
    }

    /// How many parents the commit has: none for a root commit.
    pub fn parent_count(&self) -> (r: usize)
        ensures
            r == self@.parent_ids.len(),
    {
        proof {
            use_type_invariant(self);
        }
        self.parent_count
    }

    /// Looks up the commit's tree, as `resolve_tree` says. Where the lookup
    /// succeeds, the tree's identifier is the commit's `tree_id`.
    pub fn tree(&self) -> (r: Result<Tree<'repo>, git2::Error>)
        ensures
            r matches Ok(t) ==> t@ == self@.tree_id,
    {
        Self::resolve_tree(self.commit.tree())
    }

    /// What a tree lookup in the repository turns into: a found tree is
    /// wrapped as it is, a failure is passed on unchanged.
    pub fn resolve_tree(found: Result<git2::Tree<'repo>, git2::Error>) -> (r: Result<
        Tree<'repo>,
        git2::Error,
    >)
        ensures
            found matches Ok(t) ==> r matches Ok(x) && x.raw() == t && x@ == oid_bytes_of(
                tree_id_of(t),
            ),
            found matches Err(e) ==> r matches Err(g) && g == e,
    {
        match found {
            Ok(t) => Ok(Tree::from_git(t)),
            Err(e) => Err(e),
        }
    }

    /// The identifier of the commit's tree, read without looking it up.
    pub fn tree_id(&self) -> (r: ObjectId)
        ensures
            r@ == self@.tree_id,
    {
        proof {
            use_type_invariant(self);
        }
        self.tree_id.clone()
    }

    /// The parent at zero-based position `n`, as `resolve_parent` says of
    /// git's lookup. An index at or past the parent count fails with git's
    /// own error; a parent found is the one named at position `n`.
    pub fn parent(&self, n: usize) -> (r: Result<Commit<'repo>, git2::Error>)
        ensures
            n >= self@.parent_ids.len() ==> r is Err,
            r matches Ok(p) ==> n < self@.parent_ids.len() && p@.id == self@.parent_ids[n as int],
    {
        proof {
            use_type_invariant(self);
        }
        // git takes the index as a C `unsigned int`. No commit has
        // `u32::MAX` parents, so a larger index is asked as that one, which
        // git refuses as out of range.
        let asked: usize = if n > u32::MAX as usize {
            u32::MAX as usize
        } else {
            n
        };
        Self::resolve_parent(self.commit.parent(asked))
    }

    /// What a parent lookup in the repository turns into: a found commit is
    /// wrapped as it is, a failure is passed on unchanged.
    pub fn resolve_parent(found: Result<git2::Commit<'repo>, git2::Error>) -> (r: Result<
        Commit<'repo>,
        git2::Error,
    >)
        ensures
            found matches Ok(c) ==> r matches Ok(p) && p.raw() == c && p@ == commit_model_of(c),
            found matches Err(e) ==> r matches Err(g) && g == e,
    {
        match found {
            Ok(c) => Ok(Commit::from_git(c)),
            Err(e) => Err(e),
        }
    }

    /// When the change was written: the author's timestamp.
    pub fn time(&self) -> (r: Timestamp)
        ensures
            r == self@.author.when,
    {
        proof {
            use_type_invariant(self);
        }
        self.author.when
    }

    /// Who wrote the change.
    pub fn author(&self) -> (r: &Signature)
        ensures
            r@ == self@.author,
    {
        proof {
            use_type_invariant(self);
        }
        &self.author
    }

    /// The commit message as text, or `None` where its bytes are not valid
    /// UTF-8.
    pub fn message(&self) -> (r: Option<&str>)
        ensures
            r is Some <==> valid_utf8(self@.message),
            r matches Some(s) ==> s@ == decode_utf8(self@.message),
    {
        proof {
            use_type_invariant(self);
        }
        utf8_text(self.message.as_slice())
    }

    /// The commit message as raw bytes.
    pub fn message_bytes(&self) -> (r: &[u8])
        ensures
            r@ == self@.message,
    {
        proof {
            use_type_invariant(self);
        }
        self.message.as_slice()
    }

    /// Who made the commit.
    pub fn committer(&self) -> (r: &Signature)
        ensures
            r@ == self@.committer,
    {
        proof {
            use_type_invariant(self);
        }
        &self.committer
    }
}

/// The identifier of a commit view is the one git reports of the record it
/// wraps: wrapping loses nothing of it.
pub proof fn lemma_wrapped_identifier(c: &Commit)
    ensures
        c@.id == oid_bytes_of(commit_id_of(c.raw())),
        c@ == commit_model_of(c.raw()),
{
}

/// Two views over the same record give the same identifier.
pub proof fn lemma_same_record_same_identifier(a: &Commit, b: &Commit)
    requires
        a.raw() == b.raw(),
    ensures
        a@.id == b@.id,
{
}

} // verus!
