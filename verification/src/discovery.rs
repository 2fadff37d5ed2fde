//! Which files are rollouts, and in which order they are migrated.

use crate::error::ThreadId;
use crate::paths::file_name_of;
use crate::paths::is_rollout_file_name;
use crate::paths::is_rollout_name;
use crate::paths::plain_path;
use crate::paths::plain_rollout_path;
use crate::paths::rollout_id_in_path;
use crate::paths::thread_id_from_rollout_filename;
use crate::paths::RolloutPath;
use crate::text::text_ends_with;
use vstd::prelude::*;

verus! {

/// What discovery does with a file.
#[derive(Clone, Copy, Debug, PartialEq, Eq, Structural)]
pub enum RolloutEntry {
    /// It is no rollout.
    Ignore,
    /// It is a rollout.
    Take,
    /// It is a compressed rollout, which counts only where the plain one does not exist.
    TakeUnlessPlainExists,
}

/// What discovery does with a file of the given name.
pub fn rollout_entry(name: &str) -> (r: RolloutEntry)
    ensures
        r == (if !is_rollout_name(name@) {
            RolloutEntry::Ignore
        } else if ".jsonl.zst"@.is_suffix_of(name@) {
            RolloutEntry::TakeUnlessPlainExists
        } else {
            RolloutEntry::Take
        }),
{
    if !is_rollout_file_name(name) {
        RolloutEntry::Ignore
    } else if text_ends_with(name, ".jsonl.zst") {
        RolloutEntry::TakeUnlessPlainExists
    } else {
        RolloutEntry::Take
    }
}

/// The rank of a character in a path: a separator ranks below every other character, so that
/// paths are compared component by component.
pub open spec fn rank(c: char) -> nat {
    if c == '/' {
        0
    } else {
        (c as nat) + 1
    }
}

/// Whether a path stands before another in ascending order.
pub open spec fn precedes(a: Seq<char>, b: Seq<char>) -> bool
    decreases a.len(),
{
    if b.len() == 0 {
        false
    } else if a.len() == 0 {
        true
    } else if rank(a[0]) != rank(b[0]) {
        rank(a[0]) < rank(b[0])
    } else {
        precedes(a.skip(1), b.skip(1))
    }
}

proof fn lemma_rank_tells_apart(a: char, b: char)
    requires
        rank(a) == rank(b),
    ensures
        a == b,
{
}

proof fn lemma_precedes_total(a: Seq<char>, b: Seq<char>)
    ensures
        a == b || precedes(a, b) || precedes(b, a),
        !(precedes(a, b) && precedes(b, a)),
        !precedes(a, a),
    decreases a.len(),
{
    if a.len() > 0 && b.len() > 0 {
        lemma_precedes_total(a.skip(1), b.skip(1));
        if rank(a[0]) == rank(b[0]) && a.skip(1) == b.skip(1) {
            lemma_rank_tells_apart(a[0], b[0]);
            assert(a =~= seq![a[0]] + a.skip(1));
            assert(b =~= seq![b[0]] + b.skip(1));
        }
    } else if a.len() == 0 && b.len() == 0 {
        assert(a =~= b);
    } else if a.len() > 0 {
        lemma_precedes_total(a.skip(1), a.skip(1));
    }
}

proof fn lemma_precedes_transitive(a: Seq<char>, b: Seq<char>, c: Seq<char>)
    requires
        precedes(a, b),
        precedes(b, c),
    ensures
        precedes(a, c),
    decreases a.len(),
{
    if a.len() > 0 && b.len() > 0 && c.len() > 0 && rank(a[0]) == rank(b[0]) && rank(b[0]) == rank(
        c[0],
    ) {
        lemma_precedes_transitive(a.skip(1), b.skip(1), c.skip(1));
    }
}

/// The characters of a path, each by its rank.
fn ranks(path: &RolloutPath) -> (r: Vec<u32>)
    ensures
        r@.len() == path@.len(),
        forall|i: int| 0 <= i < r@.len() ==> (#[trigger] r@[i]) as nat == rank(path@[i]),
{
    let mut out: Vec<u32> = Vec::new();
    let total: usize = path.text.as_str().unicode_len();
    let mut i: usize = 0;
    while i < total
        invariant
            i <= total,
            total == path@.len(),
            out@.len() == i,
            forall|j: int| 0 <= j < i ==> (#[trigger] out@[j]) as nat == rank(path@[j]),
        decreases total - i,
    {
        let c: char = path.text.as_str().get_char(i);
        if c == '/' {
            out.push(0);
        } else {
            out.push(c as u32 + 1);
        }
        i += 1;
    }
    out
}

proof fn lemma_equal_heads(a: Seq<char>, b: Seq<char>, n: int)
    requires
        0 <= n <= a.len(),
        n <= b.len(),
        forall|i: int| 0 <= i < n ==> rank(#[trigger] a[i]) == rank(b[i]),
    ensures
        precedes(a, b) == precedes(a.skip(n), b.skip(n)),
    decreases n,
{
    if n == 0 {
        assert(a.skip(0) =~= a);
        assert(b.skip(0) =~= b);
    } else {
        assert(rank(a[0]) == rank(b[0]));
        assert forall|i: int| 0 <= i < n - 1 implies rank(#[trigger] a.skip(1)[i]) == rank(
            b.skip(1)[i],
        ) by {
            assert(rank(a[i + 1]) == rank(b[i + 1]));
        }
        lemma_equal_heads(a.skip(1), b.skip(1), n - 1);
        assert(a.skip(1).skip(n - 1) =~= a.skip(n));
        assert(b.skip(1).skip(n - 1) =~= b.skip(n));
    }
}

fn ranks_precede(a: &Vec<u32>, b: &Vec<u32>, Ghost(x): Ghost<Seq<char>>, Ghost(y): Ghost<Seq<char>>)
    -> (r: bool)
    requires
        a@.len() == x.len(),
        b@.len() == y.len(),
        forall|i: int| 0 <= i < a@.len() ==> (#[trigger] a@[i]) as nat == rank(x[i]),
        forall|i: int| 0 <= i < b@.len() ==> (#[trigger] b@[i]) as nat == rank(y[i]),
    ensures
        r == precedes(x, y),
{
    let mut i: usize = 0;
    while i < a.len() && i < b.len()
        invariant
            i <= a@.len(),
            i <= b@.len(),
            a@.len() == x.len(),
            b@.len() == y.len(),
            forall|j: int| 0 <= j < a@.len() ==> (#[trigger] a@[j]) as nat == rank(x[j]),
            forall|j: int| 0 <= j < b@.len() ==> (#[trigger] b@[j]) as nat == rank(y[j]),
            forall|j: int| 0 <= j < i ==> rank(#[trigger] x[j]) == rank(y[j]),
        decreases a.len() - i,
    {
        if a[i] != b[i] {
            proof {
                lemma_equal_heads(x, y, i as int);
                assert(a@[i as int] as nat == rank(x[i as int]));
                assert(b@[i as int] as nat == rank(y[i as int]));
            }
            return a[i] < b[i];
        }
        proof {
            assert(a@[i as int] as nat == rank(x[i as int]));
            assert(b@[i as int] as nat == rank(y[i as int]));
        }
        i += 1;
    }
    proof {
        lemma_equal_heads(x, y, i as int);
    }
    i < b.len()
}

/// The texts of a list of paths.
pub open spec fn path_texts(paths: Seq<RolloutPath>) -> Seq<Seq<char>> {
    paths.map_values(|path: RolloutPath| path@)
}

/// Whether a list of paths is in descending order.
pub open spec fn descends(paths: Seq<Seq<char>>) -> bool {
    forall|i: int, j: int|
        0 <= i < j < paths.len() ==> !precedes(#[trigger] paths[i], #[trigger] paths[j])
}

/// The paths in descending order, which is newest first where names begin with a date.
pub fn newest_first(paths: Vec<RolloutPath>) -> (r: Vec<RolloutPath>)
    ensures
        descends(path_texts(r@)),
        r@.to_multiset() == paths@.to_multiset(),
{
    let mut sorted: Vec<RolloutPath> = Vec::new();
    let mut keys: Vec<Vec<u32>> = Vec::new();
    let mut next: usize = 0;
    assert(paths@.take(0) =~= Seq::<RolloutPath>::empty());
    while next < paths.len()
        invariant
            next <= paths@.len(),
            sorted@.len() == next,
            keys@.len() == next,
            sorted@.to_multiset() == paths@.take(next as int).to_multiset(),
            descends(path_texts(sorted@)),
            forall|i: int| 0 <= i < next ==> is_key(#[trigger] keys@[i]@, sorted@[i]@),
        decreases paths.len() - next,
    {
        let key: Vec<u32> = ranks(&paths[next]);
        let ghost text = paths@[next as int]@;
        let ghost before = path_texts(sorted@);
        let mut low: usize = 0;
        let mut high: usize = next;
        while low < high
            invariant
                low <= high <= next,
                next < paths@.len(),
                text == paths@[next as int]@,
                before == path_texts(sorted@),
                descends(before),
                sorted@.len() == next,
                keys@.len() == next,
                is_key(key@, text),
                forall|i: int| 0 <= i < next ==> is_key(#[trigger] keys@[i]@, sorted@[i]@),
                forall|i: int| 0 <= i < low ==> !precedes(#[trigger] before[i], text),
                forall|i: int| high <= i < next ==> precedes(#[trigger] before[i], text),
            decreases high - low,
        {
            let middle: usize = low + (high - low) / 2;
            assert(is_key(keys@[middle as int]@, sorted@[middle as int]@));
            let ghost at = sorted@[middle as int]@;
            assert(before[middle as int] == at);
            if ranks_precede(&keys[middle], &key, Ghost(at), Ghost(text)) {
                proof {
                    assert forall|i: int| middle <= i < next implies precedes(
                        #[trigger] before[i],
                        text,
                    ) by {
                        if i > middle {
                            lemma_precedes_total(before[middle as int], before[i]);
                            if before[i] != at {
                                lemma_precedes_transitive(before[i], at, text);
                            }
                        }
                    }
                }
                high = middle;
            } else {
                proof {
                    assert forall|i: int| 0 <= i <= middle implies !precedes(
                        #[trigger] before[i],
                        text,
                    ) by {
                        if i < middle && precedes(before[i], text) {
                            lemma_precedes_total(before[i], at);
                            if before[i] != at {
                                lemma_precedes_transitive(at, before[i], text);
                            }
                        }
                    }
                }
                low = middle + 1;
            }
        }
        let ghost old_sorted = sorted@;
        let ghost old_keys = keys@;
        sorted.insert(low, paths[next].clone());
        keys.insert(low, key);
        proof {
            let after = path_texts(sorted@);
            assert(after =~= before.insert(low as int, text));
            assert forall|i: int, j: int| 0 <= i < j < after.len() implies !precedes(
                #[trigger] after[i],
                #[trigger] after[j],
            ) by {
                if i == low {
                    assert(after[j] == before[j - 1]);
                    lemma_precedes_total(before[j - 1], text);
                } else if j == low {
                    assert(after[i] == before[i]);
                } else {
                    let x = if i < low {
                        i
                    } else {
                        i - 1
                    };
                    let y = if j < low {
                        j
                    } else {
                        j - 1
                    };
                    assert(after[i] == before[x]);
                    assert(after[j] == before[y]);
                }
            }
            assert forall|i: int| 0 <= i < next + 1 implies is_key(
                #[trigger] keys@[i]@,
                sorted@[i]@,
            ) by {
                if i < low {
                    assert(keys@[i] == old_keys[i]);
                    assert(sorted@[i] == old_sorted[i]);
                    assert(is_key(old_keys[i]@, old_sorted[i]@));
                } else if i > low {
                    assert(keys@[i] == old_keys[i - 1]);
                    assert(sorted@[i] == old_sorted[i - 1]);
                    assert(is_key(old_keys[i - 1]@, old_sorted[i - 1]@));
                }
            }
            assert(paths@.take(next + 1) =~= paths@.take(next as int).push(paths@[next as int]));
            lemma_insert_multiset(old_sorted, low as int, paths@[next as int]);
            paths@.take(next as int).to_multiset_ensures();
        }
        next += 1;
    }
    assert(paths@.take(paths@.len() as int) =~= paths@);
    sorted
}

/// Whether a list of numbers holds the ranks of a path.
pub open spec fn is_key(key: Seq<u32>, path: Seq<char>) -> bool {
    &&& key.len() == path.len()
    &&& forall|i: int| 0 <= i < key.len() ==> (#[trigger] key[i]) as nat == rank(path[i])
}

proof fn lemma_insert_multiset(s: Seq<RolloutPath>, at: int, path: RolloutPath)
    requires
        0 <= at <= s.len(),
    ensures
        s.insert(at, path).to_multiset() == s.to_multiset().insert(path),
{
    broadcast use vstd::seq_lib::group_to_multiset_ensures;

    let head = s.take(at);
    let tail = s.skip(at);
    assert(s =~= head + tail);
    assert(s.insert(at, path) =~= head.push(path) + tail);
    vstd::seq_lib::lemma_multiset_commutative(head, tail);
    vstd::seq_lib::lemma_multiset_commutative(head.push(path), tail);
    assert(head.push(path).to_multiset() =~= head.to_multiset().insert(path));
    assert(s.insert(at, path).to_multiset() =~= s.to_multiset().insert(path));
}

/// All rollouts: those of active sessions, then those of archived ones.
pub fn all_rollout_paths(active: Vec<RolloutPath>, archived: Vec<RolloutPath>) -> (r: Vec<
    RolloutPath,
>)
    ensures
        r@ == active@ + archived@,
{
    let mut all = active;
    let mut rest = archived;
    all.append(&mut rest);
    all
}

/// The rollout that a path names, wherever it stands now: the first of all rollouts with the same
/// plain file name.
pub fn find_current_rollout_path(all: &Vec<RolloutPath>, stale_path: &RolloutPath) -> (r: Option<
    RolloutPath,
>)
    ensures
        ({
            let wanted = file_name_of(plain_path(stale_path@));
            match r {
                None => wanted is None || forall|i: int|
                    0 <= i < all@.len() ==> file_name_of(plain_path((#[trigger] all@[i])@))
                        != wanted,
                Some(path) => wanted is Some && exists|i: int|
                    {
                        &&& 0 <= i < all@.len()
                        &&& #[trigger] all@[i] == path
                        &&& file_name_of(plain_path(path@)) == wanted
                        &&& forall|j: int|
                            0 <= j < i ==> file_name_of(plain_path((#[trigger] all@[j])@)) != wanted
                    },
            }
        }),
{
    let wanted: String = match plain_rollout_path(stale_path).file_name() {
        Some(name) => name,
        None => {
            return None;
        },
    };
    let mut i: usize = 0;
    while i < all.len()
        invariant
            i <= all@.len(),
            file_name_of(plain_path(stale_path@)) == Some(wanted@),
            forall|j: int|
                0 <= j < i ==> file_name_of(plain_path((#[trigger] all@[j])@)) != Some(wanted@),
        decreases all.len() - i,
    {
        let found: bool = match plain_rollout_path(&all[i]).file_name() {
            Some(name) => name == wanted,
            None => false,
        };
        if found {
            let path: RolloutPath = all[i].clone();
            assert(all@[i as int] == path);
            return Some(path);
        }
        i += 1;
    }
    None
}

/// Whether a rollout belongs to one of some threads.
pub open spec fn is_pending(path: RolloutPath, pending: Seq<ThreadId>) -> bool {
    rollout_id_in_path(path@) is Some && pending.contains(rollout_id_in_path(path@)->0)
}

fn path_is_pending(path: &RolloutPath, pending: &Vec<ThreadId>) -> (r: bool)
    ensures
        r == is_pending(*path, pending@),
{
    match thread_id_from_rollout_filename(path) {
        None => false,
        Some(id) => {
            let mut i: usize = 0;
            while i < pending.len()
                invariant
                    i <= pending@.len(),
                    rollout_id_in_path(path@) == Some(id),
                    forall|j: int| 0 <= j < i ==> #[trigger] pending@[j] != id,
                decreases pending.len() - i,
            {
                if pending[i] == id {
                    assert(pending@[i as int] == id);
                    return true;
                }
                i += 1;
            }
            false
        },
    }
}

/// The rollouts with an unfinished migration first, and otherwise in the order in which they came.
pub fn pending_first(paths: &Vec<RolloutPath>, pending: &Vec<ThreadId>) -> (r: Vec<RolloutPath>)
    ensures
        r@ == paths@.filter(|path: RolloutPath| is_pending(path, pending@)) + paths@.filter(
            |path: RolloutPath| !is_pending(path, pending@),
        ),
{
    let ghost yes = |path: RolloutPath| is_pending(path, pending@);
    let ghost no = |path: RolloutPath| !is_pending(path, pending@);
    let mut first: Vec<RolloutPath> = Vec::new();
    let mut rest: Vec<RolloutPath> = Vec::new();
    let mut i: usize = 0;
    proof {
        reveal(Seq::filter);
        assert(paths@.take(0) =~= Seq::<RolloutPath>::empty());
    }
    while i < paths.len()
        invariant
            i <= paths@.len(),
            yes == |path: RolloutPath| is_pending(path, pending@),
            no == |path: RolloutPath| !is_pending(path, pending@),
            first@ == paths@.take(i as int).filter(yes),
            rest@ == paths@.take(i as int).filter(no),
        decreases paths.len() - i,
    {
        proof {
            reveal(Seq::filter);
            assert(paths@.take(i + 1).drop_last() =~= paths@.take(i as int));
            assert(paths@.take(i + 1).last() == paths@[i as int]);
        }
        if path_is_pending(&paths[i], pending) {
            first.push(paths[i].clone());
        } else {
            rest.push(paths[i].clone());
        }
        i += 1;
    }
    assert(paths@.take(paths@.len() as int) =~= paths@);
    first.append(&mut rest);
    first
}

} // verus!
