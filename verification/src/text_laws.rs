//! What texts, numbers and paths are made of.

use crate::error::spelled_thread_id;
use crate::error::ThreadId;
use crate::operations::artifact_of;
use crate::operations::Artifact;
use crate::paths::child;
use crate::paths::file_name_of;
use crate::paths::is_compressed;
use crate::paths::is_inside;
use crate::paths::is_normalized_absolute;
use crate::paths::is_rollout_name;
use crate::paths::journal_staged_of;
use crate::paths::last_separator;
use crate::paths::parent_of;
use crate::paths::pending_journal_of;
use crate::paths::plain_path;
use crate::paths::preserved_of;
use crate::paths::retained_journal_of;
use crate::paths::rollout_id_in_name;
use crate::paths::rollout_id_in_path;
use crate::paths::sibling;
use crate::text::decimal;
use crate::text::digit_char;
use crate::text::is_blank_text;
use crate::text::is_white_space;
use crate::text::joined;
use crate::text::texts;
use vstd::prelude::*;

verus! {

/// A decimal digit is its own decimal form, and a larger number is its tenth followed by its last
/// digit.
pub proof fn numbers_are_written_digit_by_digit(n: nat, d: nat)
    requires
        d < 10,
    ensures
        decimal(d) == seq![digit_char(d)],
        n > 0 ==> decimal(10 * n + d) == decimal(n).push(digit_char(d)),
        digit_char(d) as nat == 48 + d,
{
}

/// A text is blank where every character is white space: the empty text is, and so is a blank text
/// with white space behind it. Letters, digits and signs are no white space.
pub proof fn blank_texts_hold_white_space_only(text: Seq<char>, c: char)
    ensures
        is_blank_text(Seq::empty()),
        is_blank_text(text.push(c)) == (is_blank_text(text) && is_white_space(c)),
        is_white_space(' ') && is_white_space('\t') && is_white_space('\n') && is_white_space('\r'),
        33 <= (c as u32) <= 126 ==> !is_white_space(c),
{
    assert(text.push(c)[text.len() as int] == c);
    if is_blank_text(text.push(c)) {
        assert forall|i: int| 0 <= i < text.len() implies is_white_space(#[trigger] text[i]) by {
            assert(text.push(c)[i] == text[i]);
        }
    }
}

/// Texts are joined in order, with the separator between each two of them.
pub proof fn texts_are_joined_by_the_separator(
    parts: Seq<Seq<char>>,
    part: Seq<char>,
    separator: Seq<char>,
)
    ensures
        joined(Seq::empty(), separator).len() == 0,
        joined(seq![part], separator) == part,
        parts.len() > 0 ==> joined(parts.push(part), separator) == joined(parts, separator)
            + separator + part,
{
    assert(parts.push(part).drop_last() =~= parts);
}

/// A list of texts is its texts, one for one.
pub proof fn lists_are_their_texts(list: Seq<String>, i: int)
    ensures
        texts(list).len() == list.len(),
        0 <= i < list.len() ==> texts(list)[i] == list[i]@,
{
}

proof fn lemma_name_behind(directory: Seq<char>, name: Seq<char>)
    requires
        forall|i: int| 0 <= i < name.len() ==> name[i] != '/',
    ensures
        last_separator(directory + seq!['/'] + name) == directory.len(),
    decreases name.len(),
{
    let path = directory + seq!['/'] + name;
    if name.len() == 0 {
        assert(path.last() == '/');
    } else {
        let rest = name.drop_last();
        assert(path.drop_last() =~= directory + seq!['/'] + rest);
        assert(path.last() == name.last());
        assert(name[name.len() - 1] != '/');
        assert forall|i: int| 0 <= i < rest.len() implies rest[i] != '/' by {
            assert(rest[i] == name[i]);
        }
        lemma_name_behind(directory, rest);
    }
}

/// The parts of a path: the name stands behind the last separator and the directory before it. Another
/// name beside it stands in the same directory, and a name in the directory is the path again.
pub proof fn paths_have_a_directory_and_a_name(
    directory: Seq<char>,
    name: Seq<char>,
    other: Seq<char>,
)
    requires
        directory.len() > 0,
        directory.last() != '/',
        name.len() > 0,
        forall|i: int| 0 <= i < name.len() ==> name[i] != '/',
        name != seq!['.'],
        name != seq!['.', '.'],
    ensures
        ({
            let path = directory + seq!['/'] + name;
            &&& file_name_of(path) == Some(name)
            &&& parent_of(path) == Some(directory)
            &&& sibling(path, other) == directory + seq!['/'] + other
            &&& child(directory, name) == path
            &&& is_inside(path, directory)
        }),
{
    let path = directory + seq!['/'] + name;
    lemma_name_behind(directory, name);
    reveal_strlit("");
    reveal_strlit(".");
    reveal_strlit("..");
    reveal_strlit("/");
    assert(path.skip(directory.len() as int + 1) =~= name);
    assert(path.take(directory.len() as int + 1) =~= directory + seq!['/']);
    assert(path.take(directory.len() as int) =~= directory);
    assert("."@ =~= seq!['.']);
    assert(".."@ =~= seq!['.', '.']);
    assert(name != ""@);
    assert("/"@ =~= seq!['/']);
    assert(child(directory, ""@) =~= directory + seq!['/']);
    assert(path.take(directory.len() as int + 1) =~= child(directory, ""@));
    assert(child(directory, ""@).is_prefix_of(path));
    assert(sibling(path, other) =~= directory + seq!['/'] + other);
    assert(child(directory, name) =~= path);
}

/// The artifacts of a rollout stand beside it, under a hidden name made of its own.
pub proof fn artifacts_stand_beside_their_rollout(directory: Seq<char>, name: Seq<char>)
    requires
        directory.len() > 0,
        directory.last() != '/',
        name.len() > 0,
        forall|i: int| 0 <= i < name.len() ==> name[i] != '/',
        name != seq!['.'],
        name != seq!['.', '.'],
    ensures
        ({
            let path = directory + seq!['/'] + name;
            let hidden = directory + seq!['/'] + ("."@ + name);
            &&& preserved_of(path) == hidden + ".legacy-before-pagination"@
            &&& artifact_of(path, Artifact::Staged) == hidden + "."@ + "paginated"@ + ".tmp"@
            &&& artifact_of(path, Artifact::CompressedStaged) == hidden + "."@ + "paginated.zst"@
                + ".tmp"@
            &&& artifact_of(path, Artifact::Decompressed) == hidden + "."@ + "decompressed"@
                + ".tmp"@
            &&& journal_staged_of(path) == hidden + ".tmp"@
        }),
{
    let path = directory + seq!['/'] + name;
    let hidden = directory + seq!['/'] + ("."@ + name);
    paths_have_a_directory_and_a_name(directory, name, "."@ + name + ".legacy-before-pagination"@);
    paths_have_a_directory_and_a_name(
        directory,
        name,
        "."@ + name + "."@ + "paginated"@ + ".tmp"@,
    );
    paths_have_a_directory_and_a_name(
        directory,
        name,
        "."@ + name + "."@ + "paginated.zst"@ + ".tmp"@,
    );
    paths_have_a_directory_and_a_name(
        directory,
        name,
        "."@ + name + "."@ + "decompressed"@ + ".tmp"@,
    );
    paths_have_a_directory_and_a_name(directory, name, "."@ + name + ".tmp"@);
    assert(preserved_of(path) =~= hidden + ".legacy-before-pagination"@);
    assert(artifact_of(path, Artifact::Staged) =~= hidden + "."@ + "paginated"@ + ".tmp"@);
    assert(artifact_of(path, Artifact::CompressedStaged) =~= hidden + "."@ + "paginated.zst"@
        + ".tmp"@);
    assert(artifact_of(path, Artifact::Decompressed) =~= hidden + "."@ + "decompressed"@ + ".tmp"@);
    assert(journal_staged_of(path) =~= hidden + ".tmp"@);
}

/// The journals of a thread stand in their own directory below the home, one for each kind.
pub proof fn journals_stand_below_the_home_directory(home: Seq<char>, thread_id: ThreadId)
    requires
        home.len() > 0,
        home.last() != '/',
    ensures
        pending_journal_of(home, thread_id) == home + "/rollout-migrations/"@ + thread_id.text()
            + ".pending"@,
        retained_journal_of(home, thread_id) == home + "/rollout-migrations/"@ + thread_id.text()
            + ".retained"@,
{
    reveal_strlit("/");
    reveal_strlit("rollout-migrations");
    reveal_strlit("/rollout-migrations/");
    let directory = home + "/"@ + "rollout-migrations"@;
    assert(child(home, "rollout-migrations"@) =~= directory);
    assert(directory.last() == 's');
    assert(home + "/rollout-migrations/"@ =~= directory + "/"@);
    assert(pending_journal_of(home, thread_id) =~= home + "/rollout-migrations/"@
        + thread_id.text() + ".pending"@);
    assert(retained_journal_of(home, thread_id) =~= home + "/rollout-migrations/"@
        + thread_id.text() + ".retained"@);
}

/// The plain name of a compressed rollout is its name without the compression; any other path is its
/// own plain name.
pub proof fn plain_names_leave_out_the_compression(path: Seq<char>)
    ensures
        plain_path(path + ".jsonl.zst"@) == path + ".jsonl"@,
        !".jsonl.zst"@.is_suffix_of(path) ==> plain_path(path) == path,
{
    reveal_strlit(".jsonl.zst");
    reveal_strlit(".jsonl");
    let packed = path + ".jsonl.zst"@;
    assert(packed.skip(path.len() as int) =~= ".jsonl.zst"@);
    assert(".jsonl.zst"@.is_suffix_of(packed));
    assert(plain_path(packed) =~= path + ".jsonl"@);
}

/// A rollout is named `rollout-`, something, and one of the two formats; nothing else is one.
pub proof fn rollouts_are_named_by_prefix_and_format(middle: Seq<char>, name: Seq<char>)
    ensures
        is_rollout_name("rollout-"@ + middle + ".jsonl"@),
        is_rollout_name("rollout-"@ + middle + ".jsonl.zst"@),
        is_rollout_name(name) ==> "rollout-"@.is_prefix_of(name) && (".jsonl"@.is_suffix_of(name)
            || ".jsonl.zst"@.is_suffix_of(name)),
{
    let head = "rollout-"@;
    let a = head + middle + ".jsonl"@;
    let b = head + middle + ".jsonl.zst"@;
    assert(a.take(head.len() as int) =~= head);
    assert(b.take(head.len() as int) =~= head);
    assert(a.skip((head + middle).len() as int) =~= ".jsonl"@);
    assert(b.skip((head + middle).len() as int) =~= ".jsonl.zst"@);
    assert(head.is_prefix_of(a) && head.is_prefix_of(b));
    assert(".jsonl"@.is_suffix_of(a) && ".jsonl.zst"@.is_suffix_of(b));
}

/// The file whose head is being rewritten stands beside the staged one, under its name and a suffix.
pub proof fn rewritten_heads_stand_beside_the_staged_file(directory: Seq<char>, name: Seq<char>)
    requires
        directory.len() > 0,
        directory.last() != '/',
        name.len() > 0,
        forall|i: int| 0 <= i < name.len() ==> name[i] != '/',
        name != seq!['.'],
        name != seq!['.', '.'],
    ensures
        ({
            let path = directory + seq!['/'] + name;
            artifact_of(path, Artifact::Rewritten) == artifact_of(path, Artifact::Staged)
                + ".head.tmp"@
        }),
{
    let path = directory + seq!['/'] + name;
    let staged = "."@ + name + "."@ + "paginated"@ + ".tmp"@;
    reveal_strlit(".");
    reveal_strlit("paginated");
    reveal_strlit(".tmp");
    paths_have_a_directory_and_a_name(directory, name, staged);
    paths_have_a_directory_and_a_name(directory, staged, staged + ".head.tmp"@);
    assert(artifact_of(path, Artifact::Rewritten) =~= artifact_of(path, Artifact::Staged)
        + ".head.tmp"@);
}

/// A rollout is compressed by its name alone, and its identifier is what its name ends with before the
/// format.
pub proof fn rollouts_are_known_by_their_name(directory: Seq<char>, stem: Seq<char>, id: ThreadId)
    requires
        directory.len() > 0,
        directory.last() != '/',
        forall|i: int| 0 <= i < stem.len() ==> stem[i] != '/',
        spelled_thread_id(id.text()) == Some(id),
        forall|i: int| 0 <= i < id.text().len() ==> id.text()[i] != '/',
    ensures
        ({
            let plain = directory + seq!['/'] + (stem + id.text() + ".jsonl"@);
            let packed = directory + seq!['/'] + (stem + id.text() + ".jsonl.zst"@);
            &&& rollout_id_in_path(plain) == Some(id)
            &&& rollout_id_in_path(packed) == Some(id)
            &&& is_compressed(packed)
            &&& !is_compressed(plain)
        }),
{
    reveal_strlit(".jsonl");
    reveal_strlit(".jsonl.zst");
    let text = stem + id.text();
    assert(id.text().len() == 36);
    let a = text + ".jsonl"@;
    let b = text + ".jsonl.zst"@;
    assert forall|i: int| 0 <= i < a.len() implies a[i] != '/' by {
        if i < stem.len() {
            assert(a[i] == stem[i]);
        } else if i < text.len() {
            assert(a[i] == id.text()[i - stem.len()]);
        }
    }
    assert forall|i: int| 0 <= i < b.len() implies b[i] != '/' by {
        if i < stem.len() {
            assert(b[i] == stem[i]);
        } else if i < text.len() {
            assert(b[i] == id.text()[i - stem.len()]);
        }
    }
    paths_have_a_directory_and_a_name(directory, a, a);
    paths_have_a_directory_and_a_name(directory, b, b);
    assert(a.skip(text.len() as int) =~= ".jsonl"@);
    assert(b.skip(text.len() as int) =~= ".jsonl.zst"@);
    assert(".jsonl"@.is_suffix_of(a));
    assert(".jsonl.zst"@.is_suffix_of(b));
    assert(a.last() == 'l');
    assert(".jsonl.zst"@.last() == 't');
    if ".jsonl.zst"@.is_suffix_of(a) {
        assert(a.subrange(a.len() - 10, a.len() as int).last() == a.last());
    }
    assert(a.take(a.len() - 6) =~= text);
    assert(b.take(b.len() - 10) =~= text);
    assert(text.skip(text.len() - 36) =~= id.text());
}

/// A name without a format has no identifier, and neither has one that is too short.
pub proof fn short_names_have_no_identifier(stem: Seq<char>)
    ensures
        stem.len() < 36 ==> rollout_id_in_name(stem + ".jsonl"@) is None,
        !".jsonl"@.is_suffix_of(stem) && !".jsonl.zst"@.is_suffix_of(stem) ==> rollout_id_in_name(
            stem,
        ) is None,
{
    reveal_strlit(".jsonl");
    reveal_strlit(".jsonl.zst");
    let name = stem + ".jsonl"@;
    assert(name.skip(stem.len() as int) =~= ".jsonl"@);
    assert(name.last() == 'l');
    assert(".jsonl.zst"@.last() == 't');
    if ".jsonl.zst"@.is_suffix_of(name) {
        assert(name.subrange(name.len() - 10, name.len() as int).last() == name.last());
    }
    assert(name.take(name.len() - 6) =~= stem);
}

/// A path that stands beside a directory, under a name that only begins like it, is not inside it.
pub proof fn names_that_begin_alike_are_not_inside(directory: Seq<char>, rest: Seq<char>)
    requires
        directory.len() > 0,
        directory.last() != '/',
        rest.len() > 0,
        rest[0] != '/',
    ensures
        !is_inside(directory + rest, directory),
        is_inside(directory, directory),
{
    reveal_strlit("/");
    reveal_strlit("");
    let inner = child(directory, ""@);
    assert(inner =~= directory + "/"@);
    let path = directory + rest;
    if inner.is_prefix_of(path) {
        assert(path.subrange(0, inner.len() as int)[directory.len() as int] == path[directory.len() as int]);
    }
}

/// A path is a normalised absolute one only where it begins at the root and no component is `..`.
pub proof fn absolute_paths_do_not_climb(path: Seq<char>, before: Seq<char>, after: Seq<char>)
    ensures
        path.len() == 0 || path[0] != '/' ==> !is_normalized_absolute(path),
        before.len() > 0 && before.last() == '/' && (after.len() == 0 || after[0] == '/')
            ==> !is_normalized_absolute(before + seq!['.', '.'] + after),
        is_normalized_absolute(seq!['/']),
{
    let climbs = before + seq!['.', '.'] + after;
    let at = before.len() as int;
    if before.len() > 0 && before.last() == '/' && (after.len() == 0 || after[0] == '/') {
        assert(climbs[at] == '.' && climbs[at + 1] == '.');
        assert(climbs[at - 1] == before.last());
        if after.len() > 0 {
            assert(climbs[at + 2] == after[0]);
        }
        assert(crate::paths::parent_component_at(climbs, at));
    }
}



} // verus!
