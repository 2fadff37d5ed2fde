//! Strings that a line break has torn apart, and what reading them gives back.

use crate::record::appended;
use crate::record::ends_line;
use crate::record::escaped_break;
use crate::record::grown;
use crate::record::lexed;
use crate::record::line_content;
use crate::record::scanned;
use crate::record::without_return;
use crate::record::LexState;
use crate::record::RecordState;
use crate::record::MAX_ROLLOUT_LINE_BYTES;
use vstd::prelude::*;

verus! {

/// Whether an escaped line break stands at a position.
pub open spec fn break_at(record: Seq<u8>, i: int) -> bool {
    0 <= i && i + 1 < record.len() && record[i] == 0x5c && record[i + 1] == 0x6e
}

/// Whether an escaped line break stands anywhere.
pub open spec fn has_break(record: Seq<u8>) -> bool {
    exists|i: int| break_at(record, i)
}

/// A record in which every escaped line break has become a real one.
pub open spec fn fractured(record: Seq<u8>) -> Seq<u8>
    decreases record.len(),
{
    if record.len() == 0 {
        Seq::empty()
    } else if break_at(record, 0) {
        seq![0x0au8] + fractured(record.skip(2))
    } else {
        seq![record[0]] + fractured(record.skip(1))
    }
}

/// Tears a record apart at each of its escaped line breaks, as some writers have done.
pub fn fracture_json_string_newlines(record: &[u8]) -> (r: Vec<u8>)
    requires
        has_break(record@),
    ensures
        r@ == fractured(record@),
{
    let mut out: Vec<u8> = Vec::new();
    let mut index: usize = 0;
    assert(record@.skip(0) =~= record@);
    while index < record.len()
        invariant
            index <= record.len(),
            out@ + fractured(record@.skip(index as int)) == fractured(record@),
        decreases record.len() - index,
    {
        let ghost rest = record@.skip(index as int);
        let ghost before = out@;
        if index + 1 < record.len() && record[index] == 0x5c && record[index + 1] == 0x6e {
            out.push(0x0a);
            assert(break_at(rest, 0));
            assert(rest.skip(2) =~= record@.skip(index + 2));
            assert(out@ + fractured(rest.skip(2)) =~= before + fractured(rest));
            index += 2;
        } else {
            out.push(record[index]);
            assert(!break_at(rest, 0));
            assert(rest.skip(1) =~= record@.skip(index + 1));
            assert(out@ + fractured(rest.skip(1)) =~= before + fractured(rest));
            index += 1;
        }
    }
    assert(out@ + fractured(record@.skip(record@.len() as int)) =~= out@);
    out
}

/// Whether what a record keeps fits what it has counted.
pub open spec fn sound(state: RecordState) -> bool {
    state.bytes.len() == if state.logical_bytes <= MAX_ROLLOUT_LINE_BYTES {
        state.logical_bytes
    } else {
        0
    }
}

proof fn lemma_scanned_concat(state: LexState, a: Seq<u8>, b: Seq<u8>)
    ensures
        scanned(state, a + b) == scanned(scanned(state, a), b),
    decreases b.len(),
{
    if b.len() == 0 {
        assert(a + b =~= a);
    } else {
        lemma_scanned_concat(state, a, b.drop_last());
        assert((a + b).drop_last() =~= a + b.drop_last());
    }
}

proof fn lemma_grown_concat(state: RecordState, a: Seq<u8>, b: Seq<u8>)
    requires
        state.logical_bytes + a.len() + b.len() <= u64::MAX,
    ensures
        grown(grown(state, a), b) == grown(state, a + b),
{
    assert(state.bytes + a + b =~= state.bytes + (a + b));
    assert(grown(grown(state, a), b) =~= grown(state, a + b));
}

/// Reading keeps what a record holds in step with what it has counted.
pub proof fn reading_keeps_records_sound(state: RecordState, chunk: Seq<u8>)
    requires
        sound(state),
    ensures
        sound(appended(state, chunk).0),
{
    reveal(appended);
}

/// The record behind a chunk that does not end in a torn string.
proof fn lemma_plain_chunk(state: RecordState, chunk: Seq<u8>)
    requires
        state.source_bytes + chunk.len() <= u64::MAX,
        state.logical_bytes + chunk.len() <= u64::MAX,
        !ends_line(chunk) || !scanned(state.lex, line_content(chunk)).in_string || scanned(
            state.lex,
            line_content(chunk),
        ).escaped,
    ensures
        appended(state, chunk) == (
            RecordState {
                bytes: grown(state, chunk).bytes,
                source_bytes: state.source_bytes + chunk.len(),
                logical_bytes: state.logical_bytes + chunk.len(),
                lex: scanned(state.lex, line_content(chunk)),
                repaired: state.repaired,
                terminated: ends_line(chunk),
            },
            Ok::<bool, Seq<char>>(ends_line(chunk)),
        ),
{
    reveal(appended);
}

/// The record behind a line that ends inside a torn string.
proof fn lemma_torn_chunk(state: RecordState, content: Seq<u8>)
    requires
        state.source_bytes + content.len() + 1 <= u64::MAX,
        state.logical_bytes + without_return(content).len() + 2 <= u64::MAX,
        scanned(state.lex, content) == (LexState { in_string: true, escaped: false }),
    ensures
        appended(state, content.push(0x0a)) == (
            RecordState {
                bytes: grown(state, without_return(content) + escaped_break()).bytes,
                source_bytes: state.source_bytes + content.len() + 1,
                logical_bytes: state.logical_bytes + without_return(content).len() + 2,
                lex: scanned(state.lex, content),
                repaired: true,
                terminated: false,
            },
            Ok::<bool, Seq<char>>(false),
        ),
{
    reveal(appended);
    let chunk = content.push(0x0a);
    assert(line_content(chunk) =~= content);
    let kept = without_return(content);
    lemma_grown_concat(state, kept, escaped_break());
    assert(escaped_break().len() == 2);
}

/// A chunk is taken in unless what it adds cannot be counted.
proof fn lemma_taken_in(state: RecordState, chunk: Seq<u8>)
    ensures
        appended(state, chunk).1 is Ok == {
            let content = line_content(chunk);
            let end = scanned(state.lex, content);
            let more = if ends_line(chunk) && end.in_string && !end.escaped {
                without_return(content).len() + 2
            } else {
                chunk.len()
            };
            &&& state.source_bytes + chunk.len() <= u64::MAX
            &&& state.logical_bytes + more <= u64::MAX
        },
{
    reveal(appended);
}

/// How a reader cuts a record into chunks does not change what is read: two chunks are taken in
/// one after the other exactly where they are taken in as one, and leave the same record. The one
/// exception is a cut between the two bytes of a Windows line break inside a torn string.
pub proof fn chunks_do_not_matter(state: RecordState, a: Seq<u8>, b: Seq<u8>)
    requires
        !ends_line(a),
        !(a.len() > 0 && a.last() == 0x0d && b == seq![0x0au8]),
    ensures
        appended(state, a + b).1 is Ok == (appended(state, a).1 is Ok && appended(
            appended(state, a).0,
            b,
        ).1 is Ok),
        appended(state, a + b).1 is Ok ==> {
            &&& appended(state, a).1 == Ok::<bool, Seq<char>>(false)
            &&& appended(appended(state, a).0, b) == appended(state, a + b)
        },
{
    let ab = a + b;
    let mid = appended(state, a).0;
    let content = line_content(b);
    lemma_taken_in(state, a);
    lemma_taken_in(state, ab);
    lemma_taken_in(mid, b);
    if b.len() == 0 {
        assert(ab =~= a);
        if appended(state, a).1 is Ok {
            lemma_plain_chunk(state, a);
            lemma_plain_chunk(mid, b);
            assert(scanned(mid.lex, line_content(b)) == mid.lex);
            assert(grown(mid, b).bytes =~= mid.bytes);
        }
    } else {
        assert(ab.last() == b.last());
        assert(line_content(ab) =~= a + content);
        lemma_scanned_concat(state.lex, a, content);
        let kept = without_return(content);
        assert(ends_line(b) ==> without_return(a + content) =~= a + kept) by {
            if ends_line(b) {
                assert(b =~= content.push(0x0a));
                if content.len() == 0 {
                    assert(b =~= seq![0x0au8]);
                    assert(a + content =~= a);
                    assert(a + kept =~= a);
                }
            }
        }
        if appended(state, a).1 is Ok {
            lemma_plain_chunk(state, a);
            let end = scanned(state.lex, a + content);
            if appended(state, ab).1 is Ok {
                if ends_line(b) && end.in_string && !end.escaped {
                    assert(b =~= content.push(0x0a));
                    assert(ab =~= (a + content).push(0x0a));
                    lemma_torn_chunk(mid, content);
                    lemma_torn_chunk(state, a + content);
                    lemma_grown_concat(state, a, kept + escaped_break());
                    assert(a + kept + escaped_break() =~= a + (kept + escaped_break()));
                } else {
                    lemma_plain_chunk(mid, b);
                    lemma_plain_chunk(state, ab);
                    lemma_grown_concat(state, a, b);
                }
            }
        }
    }
}

/// The first line of a source, with its line break where it has one.
pub open spec fn first_line(source: Seq<u8>) -> Seq<u8>
    decreases source.len(),
{
    if source.len() == 0 {
        Seq::empty()
    } else if source[0] == 0x0a {
        seq![0x0au8]
    } else {
        seq![source[0]] + first_line(source.skip(1))
    }
}

/// A record behind the lines of a source, up to the line that ends the record.
pub open spec fn record_read(state: RecordState, source: Seq<u8>) -> RecordState
    decreases source.len(),
{
    let line = first_line(source);
    if line.len() == 0 || line.len() > source.len() {
        state
    } else {
        let next = appended(state, line);
        if next.1 == Ok::<bool, Seq<char>>(false) {
            record_read(next.0, source.skip(line.len() as int))
        } else {
            next.0
        }
    }
}

/// Whether a record can be torn apart and mended without loss: it is one line, each of its escaped
/// line breaks is an escape inside a string and does not follow a carriage return, and the line
/// break that ends it does not stand inside a string.
pub open spec fn mendable(lex: LexState, record: Seq<u8>) -> bool {
    let end = scanned(lex, record.drop_last());
    &&& record.len() > 0
    &&& record.last() == 0x0a
    &&& forall|i: int| 0 <= i < record.len() - 1 ==> #[trigger] record[i] != 0x0a
    &&& forall|i: int| #[trigger]
        break_at(record, i) ==> scanned(lex, record.take(i)) == (LexState {
            in_string: true,
            escaped: false,
        }) && (i > 0 ==> record[i - 1] != 0x0d)
    &&& !end.in_string || end.escaped
}

proof fn lemma_unbroken(record: Seq<u8>)
    requires
        !has_break(record),
    ensures
        fractured(record) == record,
    decreases record.len(),
{
    if record.len() > 0 {
        assert(!break_at(record, 0));
        assert forall|i: int| !break_at(record.skip(1), i) by {
            if break_at(record.skip(1), i) {
                assert(break_at(record, i + 1));
            }
        }
        lemma_unbroken(record.skip(1));
        assert(seq![record[0]] + record.skip(1) =~= record);
    }
}

proof fn lemma_first_line(content: Seq<u8>, rest: Seq<u8>)
    requires
        forall|i: int| 0 <= i < content.len() ==> #[trigger] content[i] != 0x0a,
    ensures
        first_line(content + seq![0x0au8] + rest) == content + seq![0x0au8],
    decreases content.len(),
{
    let source = content + seq![0x0au8] + rest;
    if content.len() == 0 {
        assert(content + seq![0x0au8] =~= seq![0x0au8]);
        assert(source[0] == 0x0a);
    } else {
        lemma_first_line(content.skip(1), rest);
        assert(source.skip(1) =~= content.skip(1) + seq![0x0au8] + rest);
        assert(seq![content[0]] + (content.skip(1) + seq![0x0au8]) =~= content + seq![0x0au8]);
    }
}

proof fn lemma_first_break(record: Seq<u8>) -> (i: int)
    requires
        has_break(record),
    ensures
        break_at(record, i),
        forall|j: int| 0 <= j < i ==> !break_at(record, j),
        fractured(record) == record.take(i) + seq![0x0au8] + fractured(record.skip(i + 2)),
    decreases record.len(),
{
    if break_at(record, 0) {
        assert(record.take(0) + seq![0x0au8] =~= seq![0x0au8]);
        0
    } else {
        let rest = record.skip(1);
        let k = choose|k: int| break_at(record, k);
        assert(break_at(rest, k - 1));
        let j = lemma_first_break(rest);
        assert(break_at(record, j + 1));
        assert forall|m: int| 0 <= m < j + 1 implies !break_at(record, m) by {
            if break_at(record, m) && m > 0 {
                assert(break_at(rest, m - 1));
            }
        }
        assert(rest.skip(j + 2) =~= record.skip(j + 3));
        assert(seq![record[0]] + (rest.take(j) + seq![0x0au8] + fractured(rest.skip(j + 2)))
            =~= record.take(j + 1) + seq![0x0au8] + fractured(record.skip(j + 3)));
        j + 1
    }
}

/// Tearing a record apart and reading it gives the record back, byte for byte: whether it begins
/// with this record or goes on from an earlier part, reading leaves the same content and the same
/// end, and records that the string was mended where it was torn.
pub proof fn torn_records_are_mended(state: RecordState, record: Seq<u8>)
    requires
        mendable(state.lex, record),
        state.source_bytes + record.len() <= u64::MAX,
        state.logical_bytes + record.len() <= MAX_ROLLOUT_LINE_BYTES,
    ensures
        record_read(state, fractured(record)) == (RecordState {
            bytes: state.bytes + record,
            source_bytes: state.source_bytes + fractured(record).len(),
            logical_bytes: state.logical_bytes + record.len(),
            lex: scanned(state.lex, record.drop_last()),
            repaired: state.repaired || has_break(record),
            terminated: true,
        }),
        fractured(record).len() <= record.len(),
    decreases record.len(),
{
    if !has_break(record) {
        lemma_unbroken(record);
        let content = record.drop_last();
        lemma_first_line(content, Seq::empty());
        assert(content + seq![0x0au8] + Seq::<u8>::empty() =~= record);
        assert(content + seq![0x0au8] =~= record);
        assert(line_content(record) =~= content);
        lemma_plain_chunk(state, record);
        assert(record_read(state, record) == appended(state, record).0);
    } else {
        let i = lemma_first_break(record);
        let content = record.take(i);
        let rest = record.skip(i + 2);
        let line = content + seq![0x0au8];
        lemma_first_line(content, fractured(rest));
        assert(first_line(fractured(record)) == line);
        assert(line =~= content.push(0x0a));
        assert(without_return(content) =~= content);
        lemma_torn_chunk(state, content);
        let next = appended(state, line).0;
        let piece = content + escaped_break();
        assert(escaped_break().len() == 2);
        assert(fractured(record).skip(line.len() as int) =~= fractured(rest));
        assert(record =~= piece + rest);
        lemma_pair_keeps_state(state.lex, content);
        assert forall|j: int| 0 <= j <= rest.len() implies #[trigger] scanned(
            next.lex,
            rest.take(j),
        ) == scanned(state.lex, record.take(i + 2 + j)) by {
            assert(record.take(i + 2 + j) =~= piece + rest.take(j));
            lemma_scanned_concat(state.lex, piece, rest.take(j));
        }
        assert(record[i + 1] == 0x6e);
        assert(rest.len() > 0);
        assert(rest.drop_last() =~= rest.take(rest.len() - 1));
        assert(record.drop_last() =~= record.take(i + 2 + (rest.len() - 1)));
        assert forall|j: int| #[trigger] break_at(rest, j) implies scanned(next.lex, rest.take(j))
            == (LexState { in_string: true, escaped: false }) && (j > 0 ==> rest[j - 1] != 0x0d) by {
            assert(break_at(record, i + 2 + j));
        }
        assert forall|j: int| 0 <= j < rest.len() - 1 implies #[trigger] rest[j] != 0x0a by {
            assert(rest[j] == record[i + 2 + j]);
        }
        assert(mendable(next.lex, rest));
        torn_records_are_mended(next, rest);
        assert(state.bytes + piece + rest =~= state.bytes + record);
        assert(record_read(state, fractured(record)) == record_read(next, fractured(rest)));
    }
}

proof fn lemma_pair_keeps_state(lex: LexState, content: Seq<u8>)
    requires
        scanned(lex, content) == (LexState { in_string: true, escaped: false }),
    ensures
        scanned(lex, content + escaped_break()) == scanned(lex, content),
{
    let one = content.push(0x5cu8);
    let two = content + escaped_break();
    assert(two.drop_last() =~= one);
    assert(one.drop_last() =~= content);
    assert(scanned(lex, one) == lexed(scanned(lex, content), 0x5c));
}

} // verus!
