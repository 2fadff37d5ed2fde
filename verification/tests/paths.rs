//! Names of rollouts, of what stands beside them, and of journals.

use rollout_migration::discovery::all_rollout_paths;
use rollout_migration::discovery::find_current_rollout_path;
use rollout_migration::discovery::newest_first;
use rollout_migration::discovery::pending_first;
use rollout_migration::discovery::rollout_entry;
use rollout_migration::discovery::RolloutEntry;
use rollout_migration::error::ThreadId;
use rollout_migration::operations::Artifact;
use rollout_migration::operations::FileRef;
use rollout_migration::paths::migration_journal_path;
use rollout_migration::paths::migration_journal_staged_path;
use rollout_migration::paths::plain_rollout_path;
use rollout_migration::paths::preserved_legacy_rollout_path;
use rollout_migration::paths::retained_migration_recovery_path;
use rollout_migration::paths::retained_path_from_pending_journal;
use rollout_migration::paths::rollout_path_is_compressed;
use rollout_migration::paths::same_rollout_filename;
use rollout_migration::paths::thread_id_from_journal_name;
use rollout_migration::paths::thread_id_from_rollout_filename;
use rollout_migration::paths::RolloutPath;
use rollout_migration::walk::DirectoryEntry;
use rollout_migration::walk::EntryKind;
use rollout_migration::walk::FindRollouts;
use rollout_migration::walk::JournalThreads;
use rollout_migration::walk::WalkAction;
use rollout_migration::walk::WalkReply;
use rollout_migration::walk::WalkStep;
use std::collections::BTreeMap;

fn path(text: &str) -> RolloutPath {
    RolloutPath::new(text.to_owned())
}

fn id(value: u128) -> ThreadId {
    ThreadId::from_u128(value)
}

fn rollout(day: &str, value: u128) -> RolloutPath {
    path(&format!("/home/sessions/rollout-{day}-{}.jsonl", id(value).to_text()))
}

#[test]
fn identifiers_are_spelled_as_uuids() {
    let text = "00000000-0000-0000-0000-0000000012ab";
    assert_eq!(id(0x12ab).to_text(), text);
    assert_eq!(ThreadId::from_string(text), Some(id(0x12ab)));
    assert_eq!(ThreadId::from_string("thread"), None);
}

#[test]
fn rollouts_are_named_after_their_physical_rollout() {
    assert_eq!(thread_id_from_rollout_filename(&rollout("2025-01-03T12-00-00", 7)), Some(id(7)));
    let compressed = path(&format!("/a/rollout-2025-{}.jsonl.zst", id(8).to_text()));
    assert_eq!(thread_id_from_rollout_filename(&compressed), Some(id(8)));
    assert_eq!(thread_id_from_rollout_filename(&path("/a/rollout-2025.jsonl")), None);
    assert_eq!(thread_id_from_rollout_filename(&path("/a/notes.txt")), None);
}

#[test]
fn compressed_rollouts_have_a_plain_name() {
    assert_eq!(plain_rollout_path(&path("/a/rollout-1.jsonl.zst")), path("/a/rollout-1.jsonl"));
    assert_eq!(plain_rollout_path(&path("/a/rollout-1.jsonl")), path("/a/rollout-1.jsonl"));
    assert!(rollout_path_is_compressed(&path("/a/rollout-1.jsonl.zst")));
    assert!(!rollout_path_is_compressed(&path("/a/rollout-1.jsonl")));
    assert!(same_rollout_filename(&path("/a/r.jsonl"), &path("/b/r.jsonl.zst")));
    assert!(!same_rollout_filename(&path("/a/r.jsonl"), &path("/a/s.jsonl")));
}

#[test]
fn artifacts_stand_beside_their_rollout() {
    let rollout_path = path("/a/rollout.jsonl");
    let beside = |artifact| {
        FileRef::Beside { rollout_path: path("/a/rollout.jsonl"), artifact }
            .resolve()
            .expect("named rollout")
            .text
    };
    assert_eq!(beside(Artifact::Staged), "/a/.rollout.jsonl.paginated.tmp");
    assert_eq!(beside(Artifact::Rewritten), "/a/.rollout.jsonl.paginated.tmp.head.tmp");
    assert_eq!(beside(Artifact::CompressedStaged), "/a/.rollout.jsonl.paginated.zst.tmp");
    assert_eq!(beside(Artifact::Decompressed), "/a/.rollout.jsonl.decompressed.tmp");
    assert_eq!(
        preserved_legacy_rollout_path(&rollout_path).expect("named").text,
        "/a/.rollout.jsonl.legacy-before-pagination"
    );
    assert_eq!(FileRef::Path(path("/b")).resolve().expect("path"), path("/b"));
    assert!(FileRef::Beside { rollout_path: path("/"), artifact: Artifact::Staged }
        .resolve()
        .is_err());
}

#[test]
fn journals_are_named_after_their_thread() {
    let home = path("/home");
    let text = id(5).to_text();
    let pending = migration_journal_path(&home, id(5));
    assert_eq!(pending.text, format!("/home/rollout-migrations/{text}.pending"));
    let retained = retained_migration_recovery_path(&home, id(5));
    assert_eq!(retained.text, format!("/home/rollout-migrations/{text}.retained"));
    assert_eq!(retained_path_from_pending_journal(&pending).expect("pending"), retained);
    assert!(retained_path_from_pending_journal(&retained).is_err());
    assert_eq!(
        migration_journal_staged_path(&pending).expect("named").text,
        format!("/home/rollout-migrations/.{text}.pending.tmp")
    );
    assert_eq!(
        thread_id_from_journal_name(&format!("{text}.pending"), ".pending"),
        Some(id(5))
    );
    assert_eq!(thread_id_from_journal_name(&format!("{text}.pending"), ".retained"), None);
}

#[test]
fn paths_have_names_and_parents() {
    assert_eq!(path("/a/b").file_name(), Some("b".to_owned()));
    assert_eq!(path("/a/..").file_name(), None);
    assert_eq!(path("/a/b").parent(), Some(path("/a")));
    assert_eq!(path("/a").parent(), Some(path("/")));
    assert_eq!(path("/").parent(), None);
    assert!(path("/a/b").starts_with(&path("/a")));
    assert!(!path("/ab").starts_with(&path("/a")));
    assert!(path("/a/b").is_normalized());
    assert!(!path("/a/../b").is_normalized());
    assert!(!path("a/b").is_normalized());
}

#[test]
fn paths_are_normalised() {
    for (text, normal) in [
        ("/a//b", "/a/b"),
        ("/a/b/", "/a/b"),
        ("/a/./b", "/a/b"),
        ("/a/b/.", "/a/b"),
        ("//a", "/a"),
        ("///", "/"),
        ("/.", "/"),
        ("a//b/./", "a/b"),
        ("./a", "./a"),
        ("./", "."),
        (".", "."),
        ("", ""),
        ("/a/../b", "/a/../b"),
        ("/.a/b.", "/.a/b."),
    ] {
        assert_eq!(path(text).text, normal, "{text}");
        assert_eq!(path(normal).text, normal);
    }
    assert!(path("/a//b/").same(&path("/a/b")));
    assert!(!path("/a/../b").same(&path("/b")));
    assert!(!path("./a").same(&path("a")));
    assert_eq!(path("/a//b/").file_name(), Some("b".to_owned()));
    assert_eq!(path("/a//b").parent(), Some(path("/a")));
    assert!(path("/a//b").is_normalized());
    assert!(path("/a//b/c").starts_with(&path("/a/b/")));
}

#[test]
fn discovery_takes_rollouts_and_nothing_else() {
    assert_eq!(rollout_entry("rollout-1.jsonl"), RolloutEntry::Take);
    assert_eq!(rollout_entry("rollout-1.jsonl.zst"), RolloutEntry::TakeUnlessPlainExists);
    assert_eq!(rollout_entry("rollout-1.txt"), RolloutEntry::Ignore);
    assert_eq!(rollout_entry(".rollout-1.jsonl.paginated.tmp"), RolloutEntry::Ignore);
    assert_eq!(
        rollout_entry(".rollout-1.jsonl.legacy-before-pagination"),
        RolloutEntry::Ignore
    );
}

#[test]
fn rollouts_come_newest_first_and_pending_ones_before_all_others() {
    let a = || rollout("2025-01-01", 1);
    let b = || rollout("2025-01-02", 2);
    let c = || rollout("2025-01-03", 3);
    assert_eq!(newest_first(vec![b(), c(), a()]), vec![c(), b(), a()]);
    assert_eq!(
        pending_first(&vec![c(), b(), a()], &vec![id(1)]),
        vec![a(), c(), b()]
    );
    // Components are compared one by one, so a directory stands before its longer namesakes.
    assert_eq!(
        newest_first(vec![path("/s/a/x"), path("/s/a-b/x")]),
        vec![path("/s/a-b/x"), path("/s/a/x")]
    );
    assert_eq!(all_rollout_paths(vec![a()], vec![b()]), vec![a(), b()]);
}

#[test]
fn moved_rollouts_are_found_by_their_plain_name() {
    let all = vec![path("/archived/rollout-1.jsonl.zst"), path("/sessions/rollout-2.jsonl")];
    assert_eq!(
        find_current_rollout_path(&all, &path("/sessions/rollout-1.jsonl")),
        Some(path("/archived/rollout-1.jsonl.zst"))
    );
    assert_eq!(find_current_rollout_path(&all, &path("/sessions/rollout-3.jsonl")), None);
}

/// Walks a tree: each directory has its entries, and some paths exist.
fn walk(
    tree: &BTreeMap<&str, Vec<(&str, EntryKind)>>,
) -> Result<Vec<String>, String> {
    let mut step = FindRollouts::begin(path("/s"));
    let mut queue: Vec<DirectoryEntry> = Vec::new();
    loop {
        match step {
            WalkStep::End(Ok(found)) => {
                return Ok(found.into_iter().map(|path| path.text).collect());
            }
            WalkStep::End(Err(error)) => return Err(error.to_text()),
            WalkStep::Ask(walk, action) => {
                let reply = match action {
                    WalkAction::ReadDirectory { path: directory } => {
                        match tree.get(directory.text.as_str()) {
                            None => WalkReply::NotFound,
                            Some(entries) => {
                                queue = entries
                                    .iter()
                                    .rev()
                                    .map(|(name, kind)| DirectoryEntry {
                                        path: directory.join(name),
                                        name: Some((*name).to_owned()),
                                        kind: *kind,
                                    })
                                    .collect();
                                WalkReply::Done
                            }
                        }
                    }
                    WalkAction::NextEntry => match queue.pop() {
                        Some(entry) => WalkReply::Entry(entry),
                        None => WalkReply::NoMore,
                    },
                    WalkAction::Exists { path } => WalkReply::Answer(tree.iter().any(
                        |(directory, entries)| {
                            entries.iter().any(|(name, _)| format!("{directory}/{name}") == path.text)
                        },
                    )),
                };
                step = walk.advance(reply);
            }
        }
    }
}

#[test]
fn walks_find_every_rollout_once() {
    let tree = BTreeMap::from([
        ("/s", vec![("2025", EntryKind::Directory), ("gone", EntryKind::Directory)]),
        (
            "/s/2025",
            vec![
                ("rollout-1.jsonl", EntryKind::File),
                ("rollout-1.jsonl.zst", EntryKind::File),
                ("rollout-2.jsonl.zst", EntryKind::File),
                ("rollout-3.jsonl", EntryKind::Other),
                (".rollout-1.jsonl.paginated.tmp", EntryKind::File),
            ],
        ),
    ]);
    assert_eq!(
        walk(&tree).expect("walk"),
        vec!["/s/2025/rollout-2.jsonl.zst", "/s/2025/rollout-1.jsonl"]
    );
    assert!(walk(&BTreeMap::new()).expect("nothing there").is_empty());
}

#[test]
fn failed_walks_are_reported() {
    let WalkStep::Ask(walk, _) = FindRollouts::begin(path("/s")) else {
        panic!("a walk begins with its root");
    };
    match walk.advance(WalkReply::Failed("denied".to_owned())) {
        WalkStep::End(Err(error)) => assert!(error.to_text().ends_with("failed: denied")),
        _ => panic!("the walk has failed"),
    }
}

#[test]
fn journals_are_listed_by_thread() {
    let mut pending = JournalThreads::new(".pending");
    let name = |value: u128, suffix: &str| Some(format!("{}{suffix}", id(value).to_text()));
    pending.take_entry(EntryKind::File, &name(1, ".pending"));
    pending.take_entry(EntryKind::File, &name(2, ".retained"));
    pending.take_entry(EntryKind::Directory, &name(3, ".pending"));
    pending.take_entry(EntryKind::File, &Some("notes.pending".to_owned()));
    pending.take_entry(EntryKind::File, &None);
    pending.take_entry(EntryKind::File, &name(1, ".pending"));
    assert_eq!(pending.finish(), vec![id(1)]);
}
