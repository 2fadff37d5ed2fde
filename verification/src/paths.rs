//! File paths of rollouts and of the artifacts that a migration keeps beside them.
//!
//! A path is held as normalised text: components separated by `/`, no empty component, no `.`
//! component, and no trailing separator except for the root itself.

use crate::error::migration_error;
use crate::error::migration_failure;
use crate::error::spelled_thread_id;
use crate::error::ThreadId;
use crate::error::ThreadStoreResult;
use crate::text::concat2;
use crate::text::concat3;
use crate::text::same_text;
use crate::text::strip_suffix;
use crate::text::text_ends_with;
use crate::text::text_starts_with;
use vstd::prelude::*;

verus! {

/// A path as normalised text.
#[derive(Debug, PartialEq, Eq)]
pub struct RolloutPath {
    pub text: String,
}

impl View for RolloutPath {
    type V = Seq<char>;

    open spec fn view(&self) -> Seq<char> {
        self.text@
    }
}

impl Clone for RolloutPath {
    fn clone(&self) -> (r: Self)
        ensures
            r == *self,
    {
        RolloutPath { text: self.text.clone() }
    }
}

/// The position of the last separator, or -1.
pub open spec fn last_separator(path: Seq<char>) -> int
    decreases path.len(),
{
    if path.len() == 0 {
        -1
    } else if path.last() == '/' {
        path.len() - 1
    } else {
        last_separator(path.drop_last())
    }
}

/// The file name of a path: its last component, unless that is missing or stands for a directory.
pub open spec fn file_name_of(path: Seq<char>) -> Option<Seq<char>> {
    let name = path.skip(last_separator(path) + 1);
    if name == ""@ || name == "."@ || name == ".."@ {
        None
    } else {
        Some(name)
    }
}

/// The directory part of a path, with its trailing separator where it has one.
pub open spec fn directory_prefix(path: Seq<char>) -> Seq<char> {
    path.take(last_separator(path) + 1)
}

/// The directory that holds a path.
pub open spec fn parent_of(path: Seq<char>) -> Option<Seq<char>> {
    let at = last_separator(path);
    if path == ""@ || path == "/"@ {
        None
    } else if at == 0 {
        Some("/"@)
    } else if at < 0 {
        Some(""@)
    } else {
        Some(path.take(at))
    }
}

/// A path whose file name is replaced.
pub open spec fn sibling(path: Seq<char>, name: Seq<char>) -> Seq<char> {
    directory_prefix(path) + name
}

/// A name inside a directory.
pub open spec fn child(directory: Seq<char>, name: Seq<char>) -> Seq<char> {
    if directory.len() == 0 {
        name
    } else if directory.last() == '/' {
        directory + name
    } else {
        directory + "/"@ + name
    }
}

/// Whether a path is a directory or stands somewhere inside it.
pub open spec fn is_inside(path: Seq<char>, directory: Seq<char>) -> bool {
    path == directory || child(directory, ""@).is_prefix_of(path)
}

/// Whether a component that begins at a position is `..`.
pub open spec fn parent_component_at(path: Seq<char>, i: int) -> bool {
    &&& 0 <= i && i + 1 < path.len()
    &&& path[i] == '.' && path[i + 1] == '.'
    &&& i == 0 || path[i - 1] == '/'
    &&& i + 2 == path.len() || path[i + 2] == '/'
}

/// Whether a path begins at the root and has no `..` component.
pub open spec fn is_normalized_absolute(path: Seq<char>) -> bool {
    &&& path.len() > 0 && path[0] == '/'
    &&& forall|i: int| 0 <= i < path.len() ==> !#[trigger] parent_component_at(path, i)
}

/// What stands before the last component of a path, normalised. The root stands for itself.
pub open spec fn normal_head(path: Seq<char>) -> Seq<char>
    decreases path.len(), 0nat,
    via normal_head_ends
{
    let at = last_separator(path);
    if at < 0 {
        ""@
    } else if at == 0 {
        "/"@
    } else {
        normal(path.take(at))
    }
}

/// A path without empty components, without `.` components behind another one, and without a
/// trailing separator. Where a path begins with `.`, that stays.
pub open spec fn normal(path: Seq<char>) -> Seq<char>
    decreases path.len(), 1nat,
    via normal_ends
{
    let name = path.skip(last_separator(path) + 1);
    if last_separator(path) < 0 {
        path
    } else if name == ""@ || name == "."@ {
        normal_head(path)
    } else {
        child(normal_head(path), name)
    }
}

#[via_fn]
proof fn normal_head_ends(path: Seq<char>) {
    lemma_last_separator(path);
}

#[via_fn]
proof fn normal_ends(path: Seq<char>) {
}

/// The plain name of a rollout: a compressed rollout without its compression suffix.
pub open spec fn plain_path(path: Seq<char>) -> Seq<char> {
    if ".jsonl.zst"@.is_suffix_of(path) {
        path.take(path.len() - 4)
    } else {
        path
    }
}

/// Whether a path names a compressed rollout.
pub open spec fn is_compressed(path: Seq<char>) -> bool {
    file_name_of(path) is Some && ".jsonl.zst"@.is_suffix_of(file_name_of(path)->0)
}

/// The name of a rollout file without its format suffixes.
pub open spec fn rollout_stem(name: Seq<char>) -> Option<Seq<char>> {
    if ".jsonl.zst"@.is_suffix_of(name) {
        Some(name.take(name.len() - 10))
    } else if ".jsonl"@.is_suffix_of(name) {
        Some(name.take(name.len() - 6))
    } else {
        None
    }
}

/// The rollout identifier that a file name ends with.
pub open spec fn rollout_id_in_name(name: Seq<char>) -> Option<ThreadId> {
    match rollout_stem(name) {
        Some(stem) => if stem.len() < 36 {
            None
        } else {
            spelled_thread_id(stem.skip(stem.len() - 36))
        },
        None => None,
    }
}

/// The rollout identifier that the file name of a path ends with.
pub open spec fn rollout_id_in_path(path: Seq<char>) -> Option<ThreadId> {
    match file_name_of(path) {
        Some(name) => rollout_id_in_name(name),
        None => None,
    }
}

/// Whether discovery takes a file of this name for a rollout.
pub open spec fn is_rollout_name(name: Seq<char>) -> bool {
    "rollout-"@.is_prefix_of(name) && (".jsonl"@.is_suffix_of(name)
        || ".jsonl.zst"@.is_suffix_of(name))
}

/// The hidden temporary file that stands beside a rollout for one purpose.
pub open spec fn staged_name(name: Seq<char>, suffix: Seq<char>) -> Seq<char> {
    "."@ + name + "."@ + suffix + ".tmp"@
}

/// The hidden name that keeps the legacy source of a rollout.
pub open spec fn preserved_name(name: Seq<char>) -> Seq<char> {
    "."@ + name + ".legacy-before-pagination"@
}

/// The temporary file beside a rollout, where the rollout has a file name.
pub open spec fn staged_of(path: Seq<char>, suffix: Seq<char>) -> Seq<char> {
    sibling(path, staged_name(file_name_of(path)->0, suffix))
}

/// The path that keeps the legacy source of a rollout, where the rollout has a file name.
pub open spec fn preserved_of(path: Seq<char>) -> Seq<char> {
    sibling(path, preserved_name(file_name_of(path)->0))
}

/// The temporary file of a journal, where the journal has a file name.
pub open spec fn journal_staged_of(path: Seq<char>) -> Seq<char> {
    sibling(path, "."@ + file_name_of(path)->0 + ".tmp"@)
}

/// The directory of the migration journals.
pub open spec fn journal_directory(home: Seq<char>) -> Seq<char> {
    child(home, "rollout-migrations"@)
}

/// The journal of a migration that has not finished.
pub open spec fn pending_journal_of(home: Seq<char>, thread_id: ThreadId) -> Seq<char> {
    child(journal_directory(home), thread_id.text() + ".pending"@)
}

/// The record of a finished migration whose legacy source is still kept.
pub open spec fn retained_journal_of(home: Seq<char>, thread_id: ThreadId) -> Seq<char> {
    child(journal_directory(home), thread_id.text() + ".retained"@)
}

pub(crate) proof fn lemma_last_separator(path: Seq<char>)
    ensures
        -1 <= last_separator(path) < path.len(),
        last_separator(path) >= 0 ==> path[last_separator(path)] == '/',
        forall|i: int| last_separator(path) < i < path.len() ==> path[i] != '/',
    decreases path.len(),
{
    if path.len() > 0 && path.last() != '/' {
        lemma_last_separator(path.drop_last());
        assert forall|i: int| last_separator(path) < i < path.len() implies path[i] != '/' by {
            if i < path.len() - 1 {
                assert(path.drop_last()[i] == path[i]);
            }
        }
    }
}

/// A normalised head, behind which a component follows that begins at some position.
fn extended(head: String, start: usize, name: &str, Ghost(path): Ghost<Seq<char>>) -> (r: String)
    requires
        start == last_separator(path) + 1,
        head@ == normal_head(path),
        name@ == path.skip(start as int),
    ensures
        r@ == normal(path),
{
    if start == 0 {
        assert(path.skip(0) =~= path);
        name.to_owned()
    } else if same_text(name, "") || same_text(name, ".") {
        head
    } else {
        RolloutPath { text: head }.join(name).text
    }
}

impl RolloutPath {
    /// The path with the given text, which is normalised.
    pub fn new(text: String) -> (r: Self)
        ensures
            r@ == normal(text@),
    {
        let whole: &str = text.as_str();
        let total: usize = whole.unicode_len();
        let mut head: String = "".to_owned();
        let mut start: usize = 0;
        let mut i: usize = 0;
        while i < total
            invariant
                start <= i <= total,
                total == whole@.len(),
                last_separator(whole@.take(i as int)) == start - 1,
                head@ == normal_head(whole@.take(i as int)),
            decreases total - i,
        {
            let ghost before = whole@.take(i as int);
            let ghost after = whole@.take(i + 1);
            assert(after.last() == whole@[i as int]);
            assert(after.drop_last() =~= before);
            if whole.get_char(i) == '/' {
                assert(after.take(i as int) =~= before);
                if i == 0 {
                    head = "/".to_owned();
                } else {
                    assert(whole@.subrange(start as int, i as int) =~= before.skip(start as int));
                    head = extended(head, start, whole.substring_char(start, i), Ghost(before));
                }
                start = i + 1;
            } else if start > 0 {
                assert(after.take(start - 1) =~= before.take(start - 1));
            }
            i += 1;
        }
        assert(whole@.take(total as int) =~= whole@);
        let text: String = extended(
            head,
            start,
            whole.substring_char(start, total),
            Ghost(whole@),
        );
        RolloutPath { text }
    }

    /// Whether two paths are the same.
    pub fn same(&self, other: &RolloutPath) -> (r: bool)
        ensures
            r == (self@ == other@),
    {
        self.text == other.text
    }

    fn separator(&self) -> (r: usize)
        ensures
            r == last_separator(self@) + 1,
            r <= self@.len(),
    {
        let mut i: usize = self.text.as_str().unicode_len();
        proof {
            lemma_last_separator(self@);
            assert(self@.take(self@.len() as int) =~= self@);
        }
        while i > 0
            invariant
                i <= self@.len(),
                last_separator(self@.take(i as int)) == last_separator(self@),
            ensures
                i == last_separator(self@) + 1,
                i <= self@.len(),
            decreases i,
        {
            let ghost head = self@.take(i as int);
            assert(head.last() == self@[i - 1]);
            if self.text.as_str().get_char(i - 1) == '/' {
                break;
            }
            assert(head.drop_last() =~= self@.take(i - 1));
            i -= 1;
        }
        i
    }

    /// The file name of the path.
    pub fn file_name(&self) -> (r: Option<String>)
        ensures
            r is Some == file_name_of(self@) is Some,
            r is Some ==> r->0@ == file_name_of(self@)->0,
    {
        let at: usize = self.separator();
        let total: usize = self.text.as_str().unicode_len();
        let name: String = self.text.as_str().substring_char(at, total).to_owned();
        assert(name@ =~= self@.skip(last_separator(self@) + 1));
        if same_text(name.as_str(), "") || same_text(name.as_str(), ".") || same_text(
            name.as_str(),
            "..",
        ) {
            None
        } else {
            Some(name)
        }
    }

    /// The path with another file name in the same directory.
    pub fn with_file_name(&self, name: &str) -> (r: RolloutPath)
        ensures
            r@ == sibling(self@, name@),
    {
        let at: usize = self.separator();
        let text: String = concat2(self.text.as_str().substring_char(0, at), name);
        assert(text@ =~= sibling(self@, name@));
        RolloutPath { text }
    }

    /// The directory that holds the path.
    pub fn parent(&self) -> (r: Option<RolloutPath>)
        ensures
            r is Some == parent_of(self@) is Some,
            r is Some ==> r->0@ == parent_of(self@)->0,
    {
        if same_text(self.text.as_str(), "") || same_text(self.text.as_str(), "/") {
            return None;
        }
        let at: usize = self.separator();
        if at == 0 {
            Some(RolloutPath { text: "".to_owned() })
        } else if at == 1 {
            Some(RolloutPath { text: "/".to_owned() })
        } else {
            let text: String = self.text.as_str().substring_char(0, at - 1).to_owned();
            assert(text@ =~= self@.take(last_separator(self@)));
            Some(RolloutPath { text })
        }
    }

    /// A name inside this directory.
    pub fn join(&self, name: &str) -> (r: RolloutPath)
        ensures
            r@ == child(self@, name@),
    {
        let n: usize = self.text.as_str().unicode_len();
        if n == 0 {
            RolloutPath { text: name.to_owned() }
        } else if self.text.as_str().get_char(n - 1) == '/' {
            RolloutPath { text: concat2(self.text.as_str(), name) }
        } else {
            RolloutPath { text: concat3(self.text.as_str(), "/", name) }
        }
    }

    /// Whether the path is a directory or stands somewhere inside it.
    pub fn starts_with(&self, directory: &RolloutPath) -> (r: bool)
        ensures
            r == is_inside(self@, directory@),
    {
        if self.same(directory) {
            return true;
        }
        let prefix: RolloutPath = directory.join("");
        text_starts_with(self.text.as_str(), prefix.text.as_str())
    }

    /// Whether the path begins at the root and has no `..` component.
    pub fn is_normalized(&self) -> (r: bool)
        ensures
            r == is_normalized_absolute(self@),
    {
        let total: usize = self.text.as_str().unicode_len();
        if total == 0 || self.text.as_str().get_char(0) != '/' {
            return false;
        }
        let mut i: usize = 0;
        while i < total
            invariant
                i <= total,
                total == self@.len(),
                forall|j: int| 0 <= j < i ==> !#[trigger] parent_component_at(self@, j),
            decreases total - i,
        {
            let text: &str = self.text.as_str();
            let dots: bool = i + 1 < total && text.get_char(i) == '.' && text.get_char(i + 1) == '.';
            let begins: bool = i == 0 || text.get_char(i - 1) == '/';
            if dots && begins && (i + 2 == total || text.get_char(i + 2) == '/') {
                assert(parent_component_at(self@, i as int));
                return false;
            }
            i += 1;
        }
        true
    }
}

/// The plain name of a rollout.
pub fn plain_rollout_path(path: &RolloutPath) -> (r: RolloutPath)
    ensures
        r@ == plain_path(path@),
{
    if text_ends_with(path.text.as_str(), ".jsonl.zst") {
        proof {
            reveal_strlit(".jsonl.zst");
        }
        let total: usize = path.text.as_str().unicode_len();
        let text: String = path.text.as_str().substring_char(0, total - 4).to_owned();
        assert(text@ =~= plain_path(path@));
        RolloutPath { text }
    } else {
        path.clone()
    }
}

/// Whether a path names a compressed rollout.
pub fn rollout_path_is_compressed(path: &RolloutPath) -> (r: bool)
    ensures
        r == is_compressed(path@),
{
    match path.file_name() {
        Some(name) => text_ends_with(name.as_str(), ".jsonl.zst"),
        None => false,
    }
}

/// The rollout identifier that the file name of a path ends with.
pub fn thread_id_from_rollout_filename(path: &RolloutPath) -> (r: Option<ThreadId>)
    ensures
        r == rollout_id_in_path(path@),
        forall|head: Seq<char>, id: ThreadId|
            file_name_of(path@) == Some(#[trigger] (head + id.text()) + ".jsonl"@) ==> r == Some(
                id,
            ),
        forall|head: Seq<char>, id: ThreadId|
            file_name_of(path@) == Some(#[trigger] (head + id.text()) + ".jsonl.zst"@) ==> r
                == Some(id),
{
    proof {
        reveal_strlit(".jsonl.zst");
        reveal_strlit(".jsonl");
        assert forall|head: Seq<char>, id: ThreadId|
            file_name_of(path@) == Some(
                #[trigger] (head + id.text()) + ".jsonl.zst"@,
            ) implies rollout_stem(file_name_of(path@)->0) == Some(head + id.text()) by {
            let name = file_name_of(path@)->0;
            assert(name.subrange(name.len() - 10, name.len() as int) =~= ".jsonl.zst"@);
            assert(name.take(name.len() - 10) =~= head + id.text());
        }
        assert forall|head: Seq<char>, id: ThreadId|
            file_name_of(path@) == Some(
                #[trigger] (head + id.text()) + ".jsonl"@,
            ) implies rollout_stem(file_name_of(path@)->0) == Some(head + id.text()) by {
            let name = file_name_of(path@)->0;
            assert(name.subrange(name.len() - 6, name.len() as int) =~= ".jsonl"@);
            if ".jsonl.zst"@.is_suffix_of(name) {
                assert(name.subrange(name.len() - 10, name.len() as int)[9] == 't');
                assert(name.subrange(name.len() - 6, name.len() as int)[5] == 'l');
            }
            assert(name.take(name.len() - 6) =~= head + id.text());
        }
    }
    let name: String = match path.file_name() {
        Some(name) => name,
        None => {
            return None;
        },
    };
    let stem: String = match strip_suffix(name.as_str(), ".jsonl.zst") {
        Some(stem) => stem,
        None => match strip_suffix(name.as_str(), ".jsonl") {
            Some(stem) => stem,
            None => {
                return None;
            },
        },
    };
    assert(rollout_stem(name@) == Some(stem@));
    let total: usize = stem.as_str().unicode_len();
    if total < 36 {
        assert forall|head: Seq<char>, id: ThreadId|
            stem@ == #[trigger] (head + id.text()) implies false by {
            assert(id.text().len() == 36);
        }
        return None;
    }
    let tail: String = stem.as_str().substring_char(total - 36, total).to_owned();
    assert(tail@ =~= stem@.skip(stem@.len() - 36));
    assert forall|head: Seq<char>, id: ThreadId| stem@ == #[trigger] (head + id.text()) implies tail@
        == id.text() by {
        assert(tail@ =~= id.text());
    }
    ThreadId::from_string(tail.as_str())
}

/// Whether two paths name the same rollout, in whatever directory and compressed or not.
pub fn same_rollout_filename(left: &RolloutPath, right: &RolloutPath) -> (r: bool)
    ensures
        r == (file_name_of(plain_path(left@)) == file_name_of(plain_path(right@))),
{
    match (plain_rollout_path(left).file_name(), plain_rollout_path(right).file_name()) {
        (Some(a), Some(b)) => a == b,
        (None, None) => true,
        _ => false,
    }
}

/// Whether discovery takes a file of this name for a rollout.
pub fn is_rollout_file_name(name: &str) -> (r: bool)
    ensures
        r == is_rollout_name(name@),
{
    text_starts_with(name, "rollout-") && (text_ends_with(name, ".jsonl") || text_ends_with(
        name,
        ".jsonl.zst",
    ))
}

/// The temporary file that stands beside a rollout for the purpose that the suffix names.
pub fn staged_path(rollout_path: &RolloutPath, suffix: &str) -> (r: ThreadStoreResult<RolloutPath>)
    ensures
        r is Ok == file_name_of(rollout_path@) is Some,
        r is Ok ==> r->Ok_0@ == staged_of(rollout_path@, suffix@),
        r is Err ==> r->Err_0@ == migration_failure("rollout path has no valid filename"@),
{
    match rollout_path.file_name() {
        Some(name) => {
            let hidden: String = crate::text::concat5(".", name.as_str(), ".", suffix, ".tmp");
            Ok(rollout_path.with_file_name(hidden.as_str()))
        },
        None => Err(migration_error("rollout path has no valid filename")),
    }
}

/// The file in which the paginated replacement of a rollout is built.
pub fn staged_rollout_path(rollout_path: &RolloutPath) -> (r: ThreadStoreResult<RolloutPath>)
    ensures
        r is Ok == file_name_of(rollout_path@) is Some,
        r is Ok ==> r->Ok_0@ == staged_of(rollout_path@, "paginated"@),
        r is Err ==> r->Err_0@ == migration_failure("rollout path has no valid filename"@),
{
    staged_path(rollout_path, "paginated")
}

/// The file that holds a compressed rollout while it is read.
pub fn decompressed_staged_rollout_path(rollout_path: &RolloutPath) -> (r: ThreadStoreResult<
    RolloutPath,
>)
    ensures
        r is Ok == file_name_of(rollout_path@) is Some,
        r is Ok ==> r->Ok_0@ == staged_of(rollout_path@, "decompressed"@),
        r is Err ==> r->Err_0@ == migration_failure("rollout path has no valid filename"@),
{
    staged_path(rollout_path, "decompressed")
}

/// The file in which a compressed replacement of a rollout would be built.
pub fn compressed_staged_rollout_path(rollout_path: &RolloutPath) -> (r: ThreadStoreResult<
    RolloutPath,
>)
    ensures
        r is Ok == file_name_of(rollout_path@) is Some,
        r is Ok ==> r->Ok_0@ == staged_of(rollout_path@, "paginated.zst"@),
        r is Err ==> r->Err_0@ == migration_failure("rollout path has no valid filename"@),
{
    staged_path(rollout_path, "paginated.zst")
}

/// The path that keeps the legacy source of a rollout across publication.
pub fn preserved_legacy_rollout_path(rollout_path: &RolloutPath) -> (r: ThreadStoreResult<
    RolloutPath,
>)
    ensures
        r is Ok == file_name_of(rollout_path@) is Some,
        r is Ok ==> r->Ok_0@ == preserved_of(rollout_path@),
        r is Err ==> r->Err_0@ == migration_failure("rollout path has no valid filename"@),
{
    match rollout_path.file_name() {
        Some(name) => {
            let hidden: String = concat3(".", name.as_str(), ".legacy-before-pagination");
            Ok(rollout_path.with_file_name(hidden.as_str()))
        },
        None => Err(migration_error("rollout path has no valid filename")),
    }
}

/// The file in which the head of a staged rollout is rewritten.
pub fn rewritten_staged_rollout_path(staged_path: &RolloutPath) -> (r: ThreadStoreResult<
    RolloutPath,
>)
    ensures
        r is Ok == file_name_of(staged_path@) is Some,
        r is Ok ==> r->Ok_0@ == sibling(
            staged_path@,
            file_name_of(staged_path@)->0 + ".head.tmp"@,
        ),
        r is Err ==> r->Err_0@ == migration_failure("staged rollout path has no valid filename"@),
{
    match staged_path.file_name() {
        Some(name) => {
            let head: String = concat2(name.as_str(), ".head.tmp");
            Ok(staged_path.with_file_name(head.as_str()))
        },
        None => Err(migration_error("staged rollout path has no valid filename")),
    }
}

/// The journal of a migration that has not finished.
pub fn migration_journal_path(home: &RolloutPath, thread_id: ThreadId) -> (r: RolloutPath)
    ensures
        r@ == pending_journal_of(home@, thread_id),
{
    home.join("rollout-migrations").join(
        concat2(thread_id.to_text().as_str(), ".pending").as_str(),
    )
}

/// The record of a finished migration whose legacy source is still kept.
pub fn retained_migration_recovery_path(home: &RolloutPath, thread_id: ThreadId) -> (r: RolloutPath)
    ensures
        r@ == retained_journal_of(home@, thread_id),
{
    home.join("rollout-migrations").join(
        concat2(thread_id.to_text().as_str(), ".retained").as_str(),
    )
}

/// The file in which a journal is written before it takes its place.
pub fn migration_journal_staged_path(journal_path: &RolloutPath) -> (r: ThreadStoreResult<
    RolloutPath,
>)
    ensures
        r is Ok == file_name_of(journal_path@) is Some,
        r is Ok ==> r->Ok_0@ == journal_staged_of(journal_path@),
        r is Err ==> r->Err_0@ == migration_failure(
            "rollout migration journal has no valid filename"@,
        ),
{
    match journal_path.file_name() {
        Some(name) => {
            let hidden: String = concat3(".", name.as_str(), ".tmp");
            Ok(journal_path.with_file_name(hidden.as_str()))
        },
        None => Err(migration_error("rollout migration journal has no valid filename")),
    }
}

/// The retained record that a pending journal becomes.
pub fn retained_path_from_pending_journal(journal_path: &RolloutPath) -> (r: ThreadStoreResult<
    RolloutPath,
>)
    ensures
        r is Ok == (file_name_of(journal_path@) is Some && ".pending"@.is_suffix_of(
            file_name_of(journal_path@)->0,
        )),
        r is Ok ==> r->Ok_0@ == retained_from_pending(journal_path@),
        r is Err ==> r->Err_0@ == migration_failure(
            "rollout migration journal is not a pending journal"@,
        ),
{
    let name: String = match journal_path.file_name() {
        Some(name) => name,
        None => {
            return Err(migration_error("rollout migration journal is not a pending journal"));
        },
    };
    proof {
        reveal_strlit(".pending");
    }
    match strip_suffix(name.as_str(), ".pending") {
        Some(stem) => {
            let retained: String = concat2(stem.as_str(), ".retained");
            Ok(journal_path.with_file_name(retained.as_str()))
        },
        None => Err(migration_error("rollout migration journal is not a pending journal")),
    }
}

/// The retained record that stands for a pending journal.
pub open spec fn retained_from_pending(path: Seq<char>) -> Seq<char> {
    let name = file_name_of(path)->0;
    sibling(path, name.take(name.len() - 8) + ".retained"@)
}

/// The thread that the file name of a journal spells before the given suffix, if it spells one.
pub fn thread_id_from_journal_name(name: &str, suffix: &str) -> (r: Option<ThreadId>)
    ensures
        r == (if suffix@.is_suffix_of(name@) {
            spelled_thread_id(name@.take(name@.len() - suffix@.len()))
        } else {
            None
        }),
        forall|id: ThreadId| name@ == #[trigger] id.text() + suffix@ ==> r == Some(id),
{
    proof {
        assert forall|id: ThreadId| name@ == #[trigger] id.text() + suffix@ implies {
            &&& suffix@.is_suffix_of(name@)
            &&& name@.take(name@.len() - suffix@.len()) == id.text()
        } by {
            assert(name@.skip(id.text().len() as int) =~= suffix@);
            assert(name@.take(id.text().len() as int) =~= id.text());
        }
    }
    match strip_suffix(name, suffix) {
        Some(stem) => ThreadId::from_string(stem.as_str()),
        None => None,
    }
}

} // verus!
