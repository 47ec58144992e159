use git2::{ObjectType, Odb, Oid, Repository};
use git2::ErrorCode;
use gitcommit::commit::Commit;
use gitcommit::oid::ObjectId;
use gitcommit::signature::{Signature, Timestamp};

const AUTHOR: &[u8] = b"author Ann Author <ann@example.com> 1700000000 +0130\n";
const COMMITTER: &[u8] = b"committer Cal Committer <cal@example.com> 1700000600 -0200\n";

fn memory_repo() -> Repository {
    let repo = Repository::from_odb(Odb::new().unwrap()).unwrap();
    repo.odb().unwrap().add_new_mempack_backend(1).unwrap();
    repo
}

fn write(repo: &Repository, kind: ObjectType, data: &[u8]) -> Oid {
    repo.odb().unwrap().write(kind, data).unwrap()
}

fn empty_tree(repo: &Repository) -> Oid {
    write(repo, ObjectType::Tree, b"")
}

fn write_commit(repo: &Repository, tree: Oid, parents: &[Oid], message: &[u8]) -> Oid {
    let mut data = format!("tree {}\n", tree).into_bytes();
    for p in parents {
        data.extend_from_slice(format!("parent {}\n", p).as_bytes());
    }
    data.extend_from_slice(AUTHOR);
    data.extend_from_slice(COMMITTER);
    data.extend_from_slice(b"\n");
    data.extend_from_slice(message);
    write(repo, ObjectType::Commit, &data)
}

fn view(repo: &Repository, oid: Oid) -> Commit<'_> {
    Commit::from_git(repo.find_commit(oid).unwrap())
}

fn id_of(oid: Oid) -> ObjectId {
    ObjectId::from_bytes(oid.as_bytes().to_vec()).unwrap()
}

#[test]
fn root_commit_parent_is_out_of_range() {
    let repo = memory_repo();
    let tree = empty_tree(&repo);
    let root = write_commit(&repo, tree, &[], b"root\n");
    let c = view(&repo, root);
    assert_eq!(c.parent_count(), 0);
    match c.parent(0) {
        Err(e) => assert_eq!(e.code(), ErrorCode::NotFound),
        Ok(_) => panic!("expected git's out-of-range error"),
    };
}

#[test]
fn parents_resolve_below_count_only() {
    let repo = memory_repo();
    let tree = empty_tree(&repo);
    let a = write_commit(&repo, tree, &[], b"a\n");
    let b = write_commit(&repo, tree, &[a], b"b\n");
    let m = write_commit(&repo, tree, &[a, b], b"merge\n");
    let c = view(&repo, m);
    assert_eq!(c.parent_count(), 2);
    let p0 = c.parent(0).ok().unwrap();
    let p1 = c.parent(1).ok().unwrap();
    assert_eq!(p0.id(), id_of(a));
    assert_eq!(p1.id(), id_of(b));
    assert_eq!(p1.parent_count(), 1);
    assert_eq!(p1.parent(0).ok().unwrap().id(), id_of(a));
    for n in [2usize, 3, usize::MAX] {
        match c.parent(n) {
            Err(e) => assert_eq!(e.code(), ErrorCode::NotFound),
            Ok(_) => panic!("expected git's out-of-range error"),
        };
    }
}

#[test]
fn missing_parent_object_is_a_git_error() {
    let repo = memory_repo();
    let tree = empty_tree(&repo);
    let absent = Oid::from_str("1111111111111111111111111111111111111111").unwrap();
    let c = view(&repo, write_commit(&repo, tree, &[absent], b"orphan\n"));
    assert_eq!(c.parent_count(), 1);
    assert!(matches!(c.parent(0), Err(_)));
}

#[test]
fn resolve_parent_passes_lookup_through() {
    let repo = memory_repo();
    let tree = empty_tree(&repo);
    let a = write_commit(&repo, tree, &[], b"a\n");
    let found = Commit::resolve_parent(repo.find_commit(a)).ok().unwrap();
    assert_eq!(found.id(), id_of(a));
    let absent = Oid::from_str("2222222222222222222222222222222222222222").unwrap();
    assert!(matches!(Commit::resolve_parent(repo.find_commit(absent)), Err(_)));
}

#[test]
fn identifier_is_stable_and_content_addressed() {
    let repo = memory_repo();
    let tree = empty_tree(&repo);
    let a = write_commit(&repo, tree, &[], b"same\n");
    let again = write_commit(&repo, tree, &[], b"same\n");
    assert_eq!(a, again);
    let c = view(&repo, a);
    assert_eq!(c.id(), c.id());
    assert_eq!(c.id(), view(&repo, again).id());
    let other = write_commit(&repo, tree, &[], b"different\n");
    assert_ne!(c.id(), view(&repo, other).id());
}

#[test]
fn tree_id_matches_resolved_tree() {
    let repo = memory_repo();
    let tree = empty_tree(&repo);
    assert_eq!(tree.to_string(), "4b825dc642cb6eb9a060e54bf8d69288fbee4904");
    let c = view(&repo, write_commit(&repo, tree, &[], b"t\n"));
    assert_eq!(c.tree_id(), id_of(tree));
    let t = c.tree().ok().unwrap();
    assert_eq!(t.id(), c.tree_id());
    assert_eq!(t.as_git().id(), tree);
}

#[test]
fn missing_tree_is_a_git_error() {
    let repo = memory_repo();
    let absent = Oid::from_str("3333333333333333333333333333333333333333").unwrap();
    let c = view(&repo, write_commit(&repo, absent, &[], b"no tree\n"));
    assert_eq!(c.tree_id(), id_of(absent));
    assert!(matches!(c.tree(), Err(_)));
}

#[test]
fn message_is_exact_text() {
    let repo = memory_repo();
    let tree = empty_tree(&repo);
    let c = view(&repo, write_commit(&repo, tree, &[], "Fix naïve parser\n\nBody.\n".as_bytes()));
    assert_eq!(c.message(), Some("Fix naïve parser\n\nBody.\n"));
    assert_eq!(c.message_bytes(), "Fix naïve parser\n\nBody.\n".as_bytes());
}

#[test]
fn message_with_invalid_bytes_is_absent() {
    let repo = memory_repo();
    let tree = empty_tree(&repo);
    let raw: &[u8] = b"bad \xff\xfe bytes\n";
    let c = view(&repo, write_commit(&repo, tree, &[], raw));
    assert_eq!(c.message(), None);
    assert_eq!(c.message_bytes(), raw);
}

#[test]
fn wrapping_keeps_the_record() {
    let repo = memory_repo();
    let tree = empty_tree(&repo);
    let oid = write_commit(&repo, tree, &[], b"wrapped\n");
    let native = repo.find_commit(oid).unwrap();
    let native_id = native.id();
    let c = Commit::from_git(native);
    assert_eq!(c.id().as_bytes(), native_id.as_bytes());
    assert_eq!(c.as_git().id(), oid);
    assert_eq!(c.as_git().tree_id(), tree);
}

#[test]
fn signatures_and_time() {
    let repo = memory_repo();
    let tree = empty_tree(&repo);
    let c = view(&repo, write_commit(&repo, tree, &[], b"s\n"));
    let author = c.author();
    assert_eq!(author.name(), Some("Ann Author"));
    assert_eq!(author.email(), Some("ann@example.com"));
    assert_eq!(author.when(), Timestamp::new(1_700_000_000, 90));
    let committer = c.committer();
    assert_eq!(committer.name(), Some("Cal Committer"));
    assert_eq!(committer.email(), Some("cal@example.com"));
    assert_eq!(committer.when(), Timestamp::new(1_700_000_600, -120));
    assert_eq!(c.time(), Timestamp::new(1_700_000_000, 90));
}

#[test]
fn signature_text_needs_valid_utf8() {
    let s = Signature {
        name: vec![0x41, 0xff],
        email: b"x@example.com".to_vec(),
        when: Timestamp::new(0, 0),
    };
    assert_eq!(s.name(), None);
    assert_eq!(s.email(), Some("x@example.com"));
    let t = Timestamp::new(-5, -30);
    assert_eq!(t.seconds, -5);
    assert_eq!(t.offset_minutes, -30);
}

#[test]
fn object_id_needs_twenty_bytes() {
    let bytes: Vec<u8> = (0u8..20).collect();
    let id = ObjectId::from_bytes(bytes.clone()).unwrap();
    assert_eq!(id.as_bytes(), &bytes[..]);
    assert!(ObjectId::from_bytes(vec![0u8; 19]).is_none());
    assert!(ObjectId::from_bytes(vec![0u8; 21]).is_none());
    assert!(ObjectId::from_bytes(Vec::new()).is_none());
    let mut other = bytes.clone();
    other[19] = 99;
    assert_ne!(id, ObjectId::from_bytes(other).unwrap());
    assert_eq!(id.clone(), id);
}

#[test]
fn wrapping_by_reference_keeps_the_record() {
    let repo = memory_repo();
    let tree = empty_tree(&repo);
    let a = write_commit(&repo, tree, &[], b"a\n");
    let oid = write_commit(&repo, tree, &[a], b"by reference\n");
    let native = repo.find_commit(oid).unwrap();
    let c = Commit::from_git_ref(&native);
    assert_eq!(c.id(), id_of(native.id()));
    assert_eq!(c.parent_count(), native.parent_count());
    assert_eq!(c.tree_id(), id_of(native.tree_id()));
    assert_eq!(c.message_bytes(), native.message_bytes());
    assert_eq!(&c.author().name[..], native.author().name_bytes());
    assert_eq!(native.id(), oid);
}

#[test]
fn resolve_tree_passes_lookup_through() {
    let repo = memory_repo();
    let tree = empty_tree(&repo);
    let found = Commit::resolve_tree(repo.find_tree(tree)).ok().unwrap();
    assert_eq!(found.id(), id_of(tree));
    assert_eq!(found.as_git().id(), tree);
    let absent = Oid::from_str("4444444444444444444444444444444444444444").unwrap();
    let err = Commit::resolve_tree(repo.find_tree(absent)).err().unwrap();
    assert_eq!(err.code(), ErrorCode::NotFound);
}
