//! What holds of the names that a migration works with.

use crate::error::ThreadId;
use crate::id_order::parts_at;
use crate::id_order::text_before;
use crate::id_order::texts_stand_in_the_order_of_values;
use crate::operation_laws::MigrationNames;
use crate::operations::artifact_of;
use crate::operations::Artifact;
use crate::outside::hex_char;
use crate::paths::child;
use crate::paths::directory_prefix;
use crate::paths::file_name_of;
use crate::paths::is_rollout_name;
use crate::paths::journal_directory;
use crate::paths::last_separator;
use crate::paths::lemma_last_separator;
use crate::paths::normal;
use crate::paths::normal_head;
use crate::paths::parent_of;
use crate::paths::pending_journal_of;
use crate::paths::plain_path;
use crate::paths::preserved_name;
use crate::paths::preserved_of;
use crate::paths::retained_from_pending;
use crate::paths::retained_journal_of;
use crate::paths::rollout_id_in_path;
use crate::paths::rollout_stem;
use crate::paths::sibling;
use crate::paths::staged_name;
use crate::paths::staged_of;
use crate::publish_laws::Names;
use vstd::prelude::*;

verus! {

/// Whether a text can be the name of a file.
pub open spec fn is_file_name(name: Seq<char>) -> bool {
    &&& name.len() > 0
    &&& name != "."@ && name != ".."@
    &&& forall|i: int| 0 <= i < name.len() ==> #[trigger] name[i] != '/'
}

proof fn lemma_separator_before_name(head: Seq<char>, name: Seq<char>)
    requires
        head.len() == 0 || head.last() == '/',
        forall|i: int| 0 <= i < name.len() ==> #[trigger] name[i] != '/',
    ensures
        last_separator(head + name) == head.len() - 1,
    decreases name.len(),
{
    let path = head + name;
    if name.len() == 0 {
        assert(path =~= head);
    } else {
        assert(path.last() == name.last());
        assert(path.drop_last() =~= head + name.drop_last());
        lemma_separator_before_name(head, name.drop_last());
    }
}

proof fn lemma_file_name(head: Seq<char>, name: Seq<char>)
    requires
        head.len() == 0 || head.last() == '/',
        is_file_name(name),
    ensures
        file_name_of(head + name) == Some(name),
        directory_prefix(head + name) == head,
{
    lemma_separator_before_name(head, name);
    assert((head + name).skip(head.len() as int) =~= name);
    assert((head + name).take(head.len() as int) =~= head);
    reveal_strlit("");
}

pub(crate) proof fn lemma_file_name_is_one(path: Seq<char>)
    requires
        file_name_of(path) is Some,
    ensures
        is_file_name(file_name_of(path)->0),
        path == directory_prefix(path) + file_name_of(path)->0,
        directory_prefix(path).len() == 0 || directory_prefix(path).last() == '/',
{
    lemma_last_separator(path);
    let at = last_separator(path);
    let name = file_name_of(path)->0;
    reveal_strlit("");
    if name.len() == 0 {
        assert(name =~= ""@);
    }
    assert(path =~= directory_prefix(path) + name);
    assert forall|i: int| 0 <= i < name.len() implies #[trigger] name[i] != '/' by {
        assert(name[i] == path[at + 1 + i]);
    }
}

proof fn lemma_sibling(path: Seq<char>, name: Seq<char>)
    requires
        is_file_name(name),
    ensures
        file_name_of(sibling(path, name)) == Some(name),
        directory_prefix(sibling(path, name)) == directory_prefix(path),
{
    lemma_last_separator(path);
    lemma_file_name(directory_prefix(path), name);
}

proof fn lemma_child(directory: Seq<char>, name: Seq<char>)
    requires
        is_file_name(name),
    ensures
        file_name_of(child(directory, name)) == Some(name),
{
    reveal_strlit("/");
    if directory.len() == 0 {
        lemma_file_name(Seq::empty(), name);
        assert(Seq::<char>::empty() + name =~= name);
    } else if directory.last() == '/' {
        lemma_file_name(directory, name);
    } else {
        lemma_file_name(directory + "/"@, name);
    }
}

proof fn lemma_id_text(thread_id: ThreadId)
    ensures
        thread_id.text().len() == 36,
        forall|i: int|
            0 <= i < 36 ==> #[trigger] thread_id.text()[i] != '/' && thread_id.text()[i] != '.',
{
    let text = thread_id.text();
    assert forall|i: int| 0 <= i < 36 implies #[trigger] text[i] != '/' && text[i] != '.' by {
        if i != 8 && i != 13 && i != 18 && i != 23 {
            let before = if i < 8 {
                0int
            } else if i < 13 {
                1
            } else if i < 18 {
                2
            } else if i < 23 {
                3
            } else {
                4
            };
            let d = ((thread_id.value as nat) / crate::outside::pow16(
                (31 - (i - before)) as nat,
            )) % 16;
            assert(text[i] == hex_char(d));
        }
    }
}

proof fn lemma_journal_name(thread_id: ThreadId, suffix: Seq<char>)
    requires
        suffix.len() > 0,
        forall|i: int| 0 <= i < suffix.len() ==> #[trigger] suffix[i] != '/',
    ensures
        is_file_name(thread_id.text() + suffix),
{
    lemma_id_text(thread_id);
    let name = thread_id.text() + suffix;
    reveal_strlit(".");
    reveal_strlit("..");
    assert forall|i: int| 0 <= i < name.len() implies #[trigger] name[i] != '/' by {
        if i < 36 {
            assert(name[i] == thread_id.text()[i]);
        } else {
            assert(name[i] == suffix[i - 36]);
        }
    }
}

/// The rollout and the files that a migration keeps beside it all have different names.
pub proof fn artifacts_have_names_of_their_own(rollout: Seq<char>, a: Artifact, b: Artifact)
    requires
        file_name_of(rollout) is Some,
    ensures
        artifact_of(rollout, a) == artifact_of(rollout, b) <==> a == b,
        artifact_of(rollout, a) != rollout,
        artifact_of(rollout, a) != plain_path(rollout),
        artifact_of(rollout, a) != preserved_of(rollout),
        preserved_of(rollout) != rollout,
        preserved_of(rollout) != plain_path(rollout),
{
    reveal_strlit(".jsonl.zst");
    lemma_artifact_length(rollout, a);
    lemma_artifact_length(rollout, b);
    lemma_preserved_length(rollout);
}

spec fn artifact_length(artifact: Artifact) -> int {
    match artifact {
        Artifact::Staged => 15,
        Artifact::Rewritten => 24,
        Artifact::CompressedStaged => 19,
        Artifact::Decompressed => 18,
    }
}

proof fn lemma_reveal_names()
    ensures
        "."@.len() == 1,
        "."@[0] == '.',
        ".tmp"@.len() == 4,
        "paginated"@.len() == 9,
        "paginated.zst"@.len() == 13,
        "decompressed"@.len() == 12,
        ".head.tmp"@.len() == 9,
        ".legacy-before-pagination"@.len() == 25,
        forall|i: int| 0 <= i < 4 ==> #[trigger] ".tmp"@[i] != '/',
        forall|i: int| 0 <= i < 9 ==> #[trigger] "paginated"@[i] != '/',
        forall|i: int| 0 <= i < 13 ==> #[trigger] "paginated.zst"@[i] != '/',
        forall|i: int| 0 <= i < 12 ==> #[trigger] "decompressed"@[i] != '/',
{
    reveal_strlit(".");
    reveal_strlit(".tmp");
    reveal_strlit("paginated");
    reveal_strlit("paginated.zst");
    reveal_strlit("decompressed");
    reveal_strlit(".head.tmp");
    reveal_strlit(".legacy-before-pagination");
}

proof fn lemma_staged_name(name: Seq<char>, suffix: Seq<char>)
    requires
        is_file_name(name),
        forall|i: int| 0 <= i < suffix.len() ==> #[trigger] suffix[i] != '/',
    ensures
        is_file_name(staged_name(name, suffix)),
        staged_name(name, suffix).len() == name.len() + suffix.len() + 6,
        staged_name(name, suffix)[0] == '.',
{
    lemma_reveal_names();
    reveal_strlit("..");
    let all = staged_name(name, suffix);
    assert forall|i: int| 0 <= i < all.len() implies #[trigger] all[i] != '/' by {
        let n = name.len() as int;
        let s = suffix.len() as int;
        if i == 0 {
            assert(all[i] == "."@[0]);
        } else if i < 1 + n {
            assert(all[i] == name[i - 1]);
        } else if i == 1 + n {
            assert(all[i] == "."@[0]);
        } else if i < 2 + n + s {
            assert(all[i] == suffix[i - 2 - n]);
        } else {
            assert(all[i] == ".tmp"@[i - 2 - n - s]);
        }
    }
    assert(all[0] == "."@[0]);
}

proof fn lemma_artifact_length(rollout: Seq<char>, artifact: Artifact)
    requires
        file_name_of(rollout) is Some,
    ensures
        artifact_of(rollout, artifact).len() == rollout.len() + artifact_length(artifact),
{
    lemma_reveal_names();
    lemma_file_name_is_one(rollout);
    let name = file_name_of(rollout)->0;
    let staged = staged_of(rollout, "paginated"@);
    lemma_staged_name(name, "paginated"@);
    lemma_sibling(rollout, staged_name(name, "paginated"@));
    assert(file_name_of(staged) == Some(staged_name(name, "paginated"@)));
    lemma_staged_name(name, "paginated.zst"@);
    lemma_staged_name(name, "decompressed"@);
}

proof fn lemma_preserved_length(rollout: Seq<char>)
    requires
        file_name_of(rollout) is Some,
    ensures
        preserved_of(rollout).len() == rollout.len() + 26,
{
    lemma_reveal_names();
    lemma_file_name_is_one(rollout);
}

/// No file that a migration keeps beside a rollout is ever taken for a rollout.
pub proof fn artifacts_are_never_discovered(name: Seq<char>, suffix: Seq<char>)
    ensures
        !is_rollout_name(staged_name(name, suffix)),
        !is_rollout_name(preserved_name(name)),
        !is_rollout_name("."@ + name + ".tmp"@),
{
    reveal_strlit("rollout-");
    reveal_strlit(".");
    assert(staged_name(name, suffix)[0] == '.');
    assert(preserved_name(name)[0] == '.');
    assert(("."@ + name + ".tmp"@)[0] == '.');
    assert("rollout-"@[0] == 'r');
}

/// The plain name of a rollout is its own plain name.
pub proof fn plain_names_are_settled(path: Seq<char>)
    ensures
        plain_path(plain_path(path)) == plain_path(path),
{
    reveal_strlit(".jsonl.zst");
    if ".jsonl.zst"@.is_suffix_of(path) {
        let plain = path.take(path.len() - 4);
        let tail = path.subrange(path.len() - 10, path.len() as int);
        assert(tail =~= ".jsonl.zst"@);
        assert(plain.last() == tail[5]);
        assert(plain.last() == 'l');
        if ".jsonl.zst"@.is_suffix_of(plain) {
            assert(plain.subrange(plain.len() - 10, plain.len() as int)[9] == 't');
        }
    }
}

/// A rollout is the same physical rollout whether it is compressed or not.
pub proof fn compression_keeps_the_rollout(path: Seq<char>)
    requires
        file_name_of(path) is Some,
    ensures
        rollout_id_in_path(plain_path(path)) == rollout_id_in_path(path),
        directory_prefix(plain_path(path)) == directory_prefix(path),
{
    reveal_strlit(".jsonl.zst");
    reveal_strlit(".jsonl");
    reveal_strlit(".");
    reveal_strlit("..");
    if ".jsonl.zst"@.is_suffix_of(path) {
        lemma_file_name_is_one(path);
        let head = directory_prefix(path);
        let name = file_name_of(path)->0;
        let tail = path.subrange(path.len() - 10, path.len() as int);
        assert(tail =~= ".jsonl.zst"@);
        if name.len() < 10 {
            assert(head.last() == path[head.len() - 1]);
            assert(path[head.len() - 1] == tail[head.len() - 1 - (path.len() - 10)]);
        }
        let short = name.take(name.len() - 4);
        assert(plain_path(path) =~= head + short);
        assert forall|i: int| 0 <= i < short.len() implies #[trigger] short[i] != '/' by {
            assert(short[i] == name[i]);
        }
        lemma_file_name(head, short);
        assert(name.subrange(name.len() - 10, name.len() as int) =~= tail);
        let end = short.subrange(short.len() - 6, short.len() as int);
        assert forall|i: int| 0 <= i < 6 implies #[trigger] end[i] == ".jsonl"@[i] by {
            assert(end[i] == name[name.len() - 10 + i]);
            assert(tail[i] == name[name.len() - 10 + i]);
            assert(tail[i] == ".jsonl.zst"@[i]);
        }
        assert(end =~= ".jsonl"@);
        assert(short.last() == tail[5]);
        if ".jsonl.zst"@.is_suffix_of(short) {
            assert(short.subrange(short.len() - 10, short.len() as int)[9] == 't');
        }
        assert(short.take(short.len() - 6) =~= name.take(name.len() - 10));
        assert(rollout_stem(short) == rollout_stem(name));
    }
}

/// Different threads have different journals, and no pending journal is a retained record.
pub proof fn journals_have_names_of_their_own(home: Seq<char>, a: ThreadId, b: ThreadId)
    ensures
        pending_journal_of(home, a) == pending_journal_of(home, b) <==> a == b,
        retained_journal_of(home, a) == retained_journal_of(home, b) <==> a == b,
        pending_journal_of(home, a) != retained_journal_of(home, b),
{
    reveal_strlit(".pending");
    reveal_strlit(".retained");
    let directory = journal_directory(home);
    lemma_journal_name(a, ".pending"@);
    lemma_journal_name(b, ".pending"@);
    lemma_journal_name(a, ".retained"@);
    lemma_journal_name(b, ".retained"@);
    lemma_child(directory, a.text() + ".pending"@);
    lemma_child(directory, b.text() + ".pending"@);
    lemma_child(directory, a.text() + ".retained"@);
    lemma_child(directory, b.text() + ".retained"@);
    lemma_id_text(a);
    lemma_id_text(b);
    assert((a.text() + ".pending"@).len() == 44);
    assert((b.text() + ".retained"@).len() == 45);
    if a != b {
        identifiers_have_texts_of_their_own(a, b);
        assert((a.text() + ".pending"@).take(36) =~= a.text());
        assert((b.text() + ".pending"@).take(36) =~= b.text());
        assert((a.text() + ".retained"@).take(36) =~= a.text());
        assert((b.text() + ".retained"@).take(36) =~= b.text());
    }
}

/// Different identifiers have different texts.
pub proof fn identifiers_have_texts_of_their_own(a: ThreadId, b: ThreadId)
    ensures
        a.text() == b.text() <==> a == b,
{
    if a.value < b.value {
        lemma_texts_differ(a, b);
    } else if b.value < a.value {
        lemma_texts_differ(b, a);
    }
}

proof fn lemma_texts_differ(a: ThreadId, b: ThreadId)
    requires
        a.value < b.value,
    ensures
        a.text() != b.text(),
{
    texts_stand_in_the_order_of_values(a, b);
    assert(text_before(a.text(), b.text()));
    let k = choose|k: int| #[trigger] parts_at(a.text(), b.text(), k);
    assert(parts_at(a.text(), b.text(), k));
}

/// A pending journal becomes the retained record of the same thread.
pub proof fn pending_journals_become_retained_records(home: Seq<char>, thread_id: ThreadId)
    ensures
        file_name_of(pending_journal_of(home, thread_id)) is Some,
        retained_from_pending(pending_journal_of(home, thread_id)) == retained_journal_of(
            home,
            thread_id,
        ),
{
    reveal_strlit(".pending");
    reveal_strlit(".retained");
    reveal_strlit("/");
    let directory = journal_directory(home);
    let name = thread_id.text() + ".pending"@;
    let kept = thread_id.text() + ".retained"@;
    lemma_journal_name(thread_id, ".pending"@);
    lemma_journal_name(thread_id, ".retained"@);
    lemma_id_text(thread_id);
    assert(name.take(name.len() - 8) =~= thread_id.text());
    if directory.len() == 0 {
        lemma_file_name(Seq::empty(), name);
        assert(Seq::<char>::empty() + name =~= name);
        assert(Seq::<char>::empty() + kept =~= kept);
    } else if directory.last() == '/' {
        lemma_file_name(directory, name);
    } else {
        lemma_file_name(directory + "/"@, name);
    }
}

/// The names that the migration of a rollout works with are different from each other.
pub proof fn migrations_work_with_distinct_names(
    home: Seq<char>,
    thread_id: ThreadId,
    rollout: Seq<char>,
)
    requires
        file_name_of(rollout) is Some,
        is_rollout_name(file_name_of(rollout)->0),
    ensures
        (Names {
            rollout,
            published: plain_path(rollout),
            staged: staged_of(rollout, "paginated"@),
            preserved: preserved_of(rollout),
            journal: pending_journal_of(home, thread_id),
        }).distinct(),
{
    lemma_reveal_names();
    reveal_strlit(".pending");
    reveal_strlit("rollout-");
    reveal_strlit(".jsonl");
    reveal_strlit(".jsonl.zst");
    reveal_strlit("..");
    lemma_file_name_is_one(rollout);
    lemma_id_text(thread_id);
    let name = file_name_of(rollout)->0;
    let staged = staged_name(name, "paginated"@);
    let preserved = preserved_name(name);
    let journal = thread_id.text() + ".pending"@;
    let pending = "."@ + journal + ".tmp"@;
    artifacts_have_names_of_their_own(rollout, Artifact::Staged, Artifact::Staged);
    lemma_staged_name(name, "paginated"@);
    lemma_sibling(rollout, staged);
    lemma_preserved_name(name);
    lemma_sibling(rollout, preserved);
    lemma_journal_name(thread_id, ".pending"@);
    lemma_child(journal_directory(home), journal);
    lemma_hidden_name(journal);
    lemma_sibling(pending_journal_of(home, thread_id), pending);
    // The journal is told apart by its first character, and by its length where that is not enough.
    assert(name[0] == 'r') by {
        assert(name.take(8) =~= "rollout-"@);
        assert(name.take(8)[0] == 'r');
    }
    assert(staged[0] == '.');
    assert(preserved[0] == '.');
    assert(pending[0] == '.');
    assert(journal[0] != '.' && journal[0] != 'r') by {
        lemma_id_starts_with_a_digit(thread_id);
        assert(journal[0] == thread_id.text()[0]);
    }
    // The file in which it is written ends in `g.tmp`, where the staged rollout ends in `d.tmp`.
    let n = staged.len() as int;
    let m = pending.len() as int;
    assert(staged[n - 5] == "paginated"@[8]);
    assert(pending[m - 5] == journal[43]);
    assert(journal[43] == ".pending"@[7]);
    reveal_strlit("paginated");
    assert(staged[n - 5] == 'd' && pending[m - 5] == 'g');
    assert(staged != pending);
    assert(preserved.last() == ".legacy-before-pagination"@[24]);
    assert(pending.last() == ".tmp"@[3]);
    reveal_strlit(".tmp");
    reveal_strlit(".legacy-before-pagination");
    assert(preserved != pending);
    lemma_plain_name(rollout);
    assert(pending != journal);
}

/// The retained record of a migration, and the file in which it is written, have names of their own
/// too.
pub proof fn migrations_retain_under_distinct_names(
    home: Seq<char>,
    thread_id: ThreadId,
    rollout: Seq<char>,
)
    requires
        file_name_of(rollout) is Some,
        is_rollout_name(file_name_of(rollout)->0),
    ensures
        (MigrationNames {
            names: Names {
                rollout,
                published: plain_path(rollout),
                staged: staged_of(rollout, "paginated"@),
                preserved: preserved_of(rollout),
                journal: pending_journal_of(home, thread_id),
            },
            retained: retained_journal_of(home, thread_id),
        }).distinct(),
{
    migrations_work_with_distinct_names(home, thread_id, rollout);
    journals_have_names_of_their_own(home, thread_id, thread_id);
    lemma_reveal_names();
    reveal_strlit(".pending");
    reveal_strlit(".retained");
    reveal_strlit(".tmp");
    reveal_strlit(".legacy-before-pagination");
    lemma_file_name_is_one(rollout);
    lemma_id_text(thread_id);
    lemma_plain_name(rollout);
    let name = file_name_of(rollout)->0;
    let preserved = preserved_name(name);
    let journal = thread_id.text() + ".pending"@;
    let retained = thread_id.text() + ".retained"@;
    let journal_staged = "."@ + journal + ".tmp"@;
    let retained_staged = "."@ + retained + ".tmp"@;
    lemma_preserved_name(name);
    lemma_sibling(rollout, preserved);
    lemma_journal_name(thread_id, ".pending"@);
    lemma_journal_name(thread_id, ".retained"@);
    lemma_child(journal_directory(home), journal);
    lemma_child(journal_directory(home), retained);
    lemma_hidden_name(journal);
    lemma_hidden_name(retained);
    lemma_sibling(pending_journal_of(home, thread_id), journal_staged);
    lemma_sibling(retained_journal_of(home, thread_id), retained_staged);
    lemma_id_starts_with_a_digit(thread_id);
    assert(journal[0] == thread_id.text()[0]);
    assert(retained[0] == thread_id.text()[0]);
    assert(preserved.last() == ".legacy-before-pagination"@[24]);
    assert(retained_staged.last() == ".tmp"@[3]);
}

proof fn lemma_preserved_name(name: Seq<char>)
    requires
        is_file_name(name),
    ensures
        is_file_name(preserved_name(name)),
        preserved_name(name)[0] == '.',
{
    reveal_strlit(".");
    reveal_strlit("..");
    reveal_strlit(".legacy-before-pagination");
    let all = preserved_name(name);
    let n = name.len() as int;
    assert forall|i: int| 0 <= i < all.len() implies #[trigger] all[i] != '/' by {
        if i == 0 {
            assert(all[i] == "."@[0]);
        } else if i < 1 + n {
            assert(all[i] == name[i - 1]);
        } else {
            assert(all[i] == ".legacy-before-pagination"@[i - 1 - n]);
        }
    }
    assert(all[0] == "."@[0]);
}

proof fn lemma_hidden_name(name: Seq<char>)
    requires
        is_file_name(name),
    ensures
        is_file_name("."@ + name + ".tmp"@),
        ("."@ + name + ".tmp"@)[0] == '.',
{
    reveal_strlit(".");
    reveal_strlit("..");
    reveal_strlit(".tmp");
    let all = "."@ + name + ".tmp"@;
    let n = name.len() as int;
    assert forall|i: int| 0 <= i < all.len() implies #[trigger] all[i] != '/' by {
        if i == 0 {
            assert(all[i] == "."@[0]);
        } else if i < 1 + n {
            assert(all[i] == name[i - 1]);
        } else {
            assert(all[i] == ".tmp"@[i - 1 - n]);
        }
    }
    assert(all[0] == "."@[0]);
}

proof fn lemma_id_starts_with_a_digit(thread_id: ThreadId)
    ensures
        thread_id.text()[0] != 'r',
        thread_id.text()[0] != '.',
{
    let d = ((thread_id.value as nat) / crate::outside::pow16(31)) % 16;
    assert(thread_id.text()[0] == hex_char(d));
}

/// The plain name of a discovered rollout begins as the rollout does.
proof fn lemma_plain_name(rollout: Seq<char>)
    requires
        file_name_of(rollout) is Some,
        is_rollout_name(file_name_of(rollout)->0),
    ensures
        file_name_of(plain_path(rollout)) is Some,
        file_name_of(plain_path(rollout))->0[0] == 'r',
{
    reveal_strlit("rollout-");
    reveal_strlit(".jsonl.zst");
    reveal_strlit(".jsonl");
    reveal_strlit(".");
    reveal_strlit("..");
    lemma_file_name_is_one(rollout);
    let head = directory_prefix(rollout);
    let name = file_name_of(rollout)->0;
    assert(name.take(8) =~= "rollout-"@);
    assert(name[0] == name.take(8)[0]);
    if ".jsonl.zst"@.is_suffix_of(rollout) {
        let short = name.take(name.len() - 4);
        assert(plain_path(rollout) =~= head + short);
        assert forall|i: int| 0 <= i < short.len() implies #[trigger] short[i] != '/' by {
            assert(short[i] == name[i]);
        }
        lemma_file_name(head, short);
    }
}

/// The components of a path: the root, the names, `..` wherever it stands, and `.` where the path
/// begins with it.
pub open spec fn components(path: Seq<char>) -> Seq<Seq<char>>
    decreases path.len(),
    via components_end
{
    let at = last_separator(path);
    let name = path.skip(at + 1);
    let head = if at < 0 {
        seq![]
    } else if at == 0 {
        seq!["/"@]
    } else {
        components(path.take(at))
    };
    if name == ""@ || (name == "."@ && at >= 0) {
        head
    } else {
        head.push(name)
    }
}

#[via_fn]
proof fn components_end(path: Seq<char>) {
    lemma_last_separator(path);
}

/// The path that components make up.
pub open spec fn joined(parts: Seq<Seq<char>>) -> Seq<char>
    decreases parts.len(),
{
    if parts.len() == 0 {
        ""@
    } else if parts.len() == 1 {
        parts[0]
    } else {
        child(joined(parts.drop_last()), parts.last())
    }
}

proof fn lemma_normal(path: Seq<char>)
    ensures
        path.len() > 0 ==> components(path).len() > 0 && normal(path).len() > 0,
        normal(path).len() > 0 && normal(path).last() == '/' ==> normal(path) == "/"@,
        normal(path) == joined(components(path)),
        components(normal(path)) == components(path),
    decreases path.len(),
{
    lemma_last_separator(path);
    reveal_strlit("");
    reveal_strlit("/");
    reveal_strlit(".");
    let at = last_separator(path);
    let name = path.skip(at + 1);
    assert forall|i: int| 0 <= i < name.len() implies #[trigger] name[i] != '/' by {
        assert(name[i] == path[at + 1 + i]);
    }
    if at < 0 {
        assert(name =~= path);
        if path.len() == 0 {
            assert(path =~= ""@);
            assert(components(path) =~= seq![]);
        } else {
            assert(components(path) =~= seq![path]);
        }
        assert(normal(path) == joined(components(path)));
    } else {
        let head = normal_head(path);
        lemma_separator_before_name("/"@, Seq::empty());
        assert("/"@ + Seq::<char>::empty() =~= "/"@);
        assert("/"@.skip(1) =~= ""@);
        assert(components("/"@) == seq!["/"@]);
        if at > 0 {
            lemma_normal(path.take(at));
        }
        if name.len() == 0 {
            assert(name =~= ""@);
        }
        if name == ""@ || name == "."@ {
            assert(components(path) == components(head));
            assert(normal(path) == joined(components(path)));
        } else {
            let before = if head.last() == '/' {
                head
            } else {
                head + "/"@
            };
            let whole = child(head, name);
            assert(whole == before + name);
            assert(before.last() == '/');
            lemma_separator_before_name(before, name);
            assert(whole.skip(before.len() as int) =~= name);
            assert(whole.last() == name.last());
            if head.last() == '/' {
                assert(before.len() == 1);
                assert(components(whole) == seq!["/"@].push(name));
            } else {
                assert(whole.take(before.len() - 1) =~= head);
                assert(components(whole) == components(head).push(name));
            }
            assert(components(path) == components(head).push(name));
            let parts = components(path);
            assert(parts.drop_last() =~= components(head));
            assert(parts.last() == name);
            assert(parts.len() >= 2);
            assert(joined(components(head)) == head);
            assert(joined(parts) == child(joined(parts.drop_last()), parts.last()));
        }
    }
}

/// A path that was made from a text is normalised: to make it again from its text changes nothing.
pub proof fn paths_are_normalised_once(text: Seq<char>)
    ensures
        normal(normal(text)) == normal(text),
{
    lemma_normal(text);
    lemma_normal(normal(text));
}

/// Two texts make the same path exactly where they have the same components.
pub proof fn paths_are_their_components(a: Seq<char>, b: Seq<char>)
    ensures
        normal(a) == normal(b) <==> components(a) == components(b),
        components(normal(a)) == components(a),
{
    lemma_normal(a);
    lemma_normal(b);
}

/// What stands in a directory under a name, beside a path under a name, and above a path is
/// normalised where the path is.
pub proof fn paths_stay_normalised(path: Seq<char>, name: Seq<char>)
    requires
        normal(path) == path,
        is_file_name(name),
    ensures
        normal(child(path, name)) == child(path, name),
        file_name_of(path) is Some ==> normal(sibling(path, name)) == sibling(path, name),
        parent_of(path) is Some ==> normal(parent_of(path)->0) == parent_of(path)->0,
        parent_of(path) is Some && path.last() != '/' ==> child(
            parent_of(path)->0,
            path.skip(last_separator(path) + 1),
        ) == path,
{
    reveal_strlit("");
    reveal_strlit("/");
    reveal_strlit(".");
    lemma_normal(path);
    lemma_last_separator(path);
    let at = last_separator(path);
    lemma_child_is_normal(path, name);
    if at > 0 {
        let above = path.take(at);
        lemma_normal(above);
        lemma_last_separator(above);
        let own = path.skip(at + 1);
        if own == ""@ || own == "."@ {
            assert(normal(path) == normal(above));
            lemma_normal_is_no_longer(above);
        } else {
            assert(path == child(normal(above), own));
            let head = normal(above);
            if head.last() == '/' {
                assert(path[0] == '/' && path.len() == 1 + own.len());
                assert(own.len() == path.len() - at - 1);
            } else {
                assert(path.take(head.len() as int) =~= head);
                assert(own.len() == path.len() - at - 1);
                assert(head.len() == at);
            }
            assert(normal(above) == above);
            lemma_child_is_normal(above, name);
            assert(sibling(path, name) =~= child(above, name));
            assert(child(above, own) =~= path);
        }
    } else if at == 0 {
        paths_are_normalised_once("/"@);
        lemma_separator_before_name("/"@, Seq::empty());
        assert("/"@ + Seq::<char>::empty() =~= "/"@);
        assert("/"@.skip(1) =~= ""@);
        assert(normal("/"@) == "/"@);
        lemma_child_is_normal("/"@, name);
        assert(sibling(path, name) =~= child("/"@, name));
        assert(child("/"@, path.skip(1)) =~= path);
    } else {
        lemma_child_is_normal(""@, name);
        assert(sibling(path, name) =~= name);
        assert(path.skip(0) =~= path);
        assert(last_separator(""@) == -1);
    }
}

proof fn lemma_normal_is_no_longer(path: Seq<char>)
    ensures
        normal(path).len() <= path.len(),
    decreases path.len(),
{
    lemma_last_separator(path);
    reveal_strlit("");
    reveal_strlit("/");
    let at = last_separator(path);
    if at > 0 {
        lemma_normal_is_no_longer(path.take(at));
    }
}

proof fn lemma_child_is_normal(directory: Seq<char>, name: Seq<char>)
    requires
        normal(directory) == directory,
        is_file_name(name),
    ensures
        normal(child(directory, name)) == child(directory, name),
{
    reveal_strlit("");
    reveal_strlit("/");
    reveal_strlit(".");
    lemma_normal(directory);
    let whole = child(directory, name);
    if directory.len() == 0 {
        lemma_separator_before_name(Seq::empty(), name);
        assert(Seq::<char>::empty() + name =~= name);
    } else {
        let before = if directory.last() == '/' {
            directory
        } else {
            directory + "/"@
        };
        assert(whole == before + name);
        lemma_separator_before_name(before, name);
        assert(whole.skip(before.len() as int) =~= name);
        if directory.last() != '/' {
            assert(whole.take(before.len() - 1) =~= directory);
        }
    }
}

} // verus!
