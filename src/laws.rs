use vstd::prelude::*;

use crate::digits::{lemma_zero_padded_injective, zero_padded};
use crate::paths::{segment_file_name_spec, INDEX_WIDTH};
use crate::sink::{candidate_index, next_attempt, opened, released, segment_prefix, with_header, SinkState};

verus! {

/// Ten to the power `e`.
pub open spec fn pow10(e: nat) -> nat
    decreases e,
{
    if e == 0 { 1 } else { 10 * pow10((e - 1) as nat) }
}

/// A zero-padded rendering has at least `width` digits, and exactly `width`
/// where the number fits in them.
pub proof fn lemma_zero_padded_len(n: nat, width: nat)
    ensures
        zero_padded(n, width).len() >= width,
        zero_padded(n, width).len() >= 1,
        width >= 1 && n < pow10(width) ==> zero_padded(n, width).len() == width,
    decreases n + width,
{
    if n < 10 && width <= 1 {
    } else {
        let w: nat = if width == 0 { 0 } else { (width - 1) as nat };
        lemma_zero_padded_len(n / 10, w);
        if width >= 1 && n < pow10(width) {
            assert(pow10(width) == 10 * pow10(w));
            assert(n / 10 < pow10(w));
            if w == 0 {
                assert(n < 10);
            }
        }
    }
}

/// The index in a segment's file name takes five digits below 100000.
pub proof fn lemma_index_field_width(index: u64)
    ensures
        zero_padded(index as nat, INDEX_WIDTH as nat).len() >= INDEX_WIDTH,
        index < 100000 ==> zero_padded(index as nat, INDEX_WIDTH as nat).len() == INDEX_WIDTH,
{
    reveal_with_fuel(pow10, 6);
    lemma_zero_padded_len(index as nat, INDEX_WIDTH as nat);
}

/// Segment file names that differ only in their index are different names.
pub proof fn lemma_file_names_distinct(
    stem: Seq<char>,
    channel: Seq<char>,
    timestamp: Seq<char>,
    ext: Seq<char>,
    a: u64,
    b: u64,
)
    requires
        a != b,
    ensures
        segment_file_name_spec(stem, channel, timestamp, a, ext) != segment_file_name_spec(
            stem,
            channel,
            timestamp,
            b,
            ext,
        ),
{
    let head = stem + seq!['_'] + channel + seq!['_'] + timestamp + seq!['_'];
    let tail = seq!['.'] + ext;
    let za = zero_padded(a as nat, INDEX_WIDTH as nat);
    let zb = zero_padded(b as nat, INDEX_WIDTH as nat);
    let na = segment_file_name_spec(stem, channel, timestamp, a, ext);
    let nb = segment_file_name_spec(stem, channel, timestamp, b, ext);
    lemma_zero_padded_injective(a as nat, b as nat, INDEX_WIDTH as nat);
    assert(na =~= head + za + tail);
    assert(nb =~= head + zb + tail);
    if na == nb && za.len() == zb.len() {
        assert(za =~= na.subrange(head.len() as int, (head.len() + za.len()) as int));
        assert(zb =~= nb.subrange(head.len() as int, (head.len() + zb.len()) as int));
    }
}

/// Without overwrite, a name that is taken moves creation on to the next
/// index, keeps the timestamp, and so tries a different file name.
pub proof fn lemma_collision_takes_next_index(
    s: SinkState,
    attempt: u64,
    stem: Seq<char>,
    timestamp: Seq<char>,
    ext: Seq<char>,
)
    requires
        !s.overwrite,
        s.segment_index + attempt < u64::MAX,
    ensures
        next_attempt(s, attempt, true) == Some((attempt + 1) as u64),
        candidate_index(s, (attempt + 1) as u64) == candidate_index(s, attempt) + 1,
        segment_file_name_spec(stem, s.channel, timestamp, candidate_index(s, attempt), ext)
            != segment_file_name_spec(
            stem,
            s.channel,
            timestamp,
            candidate_index(s, (attempt + 1) as u64),
            ext,
        ),
{
    lemma_file_names_distinct(
        stem,
        s.channel,
        timestamp,
        ext,
        candidate_index(s, attempt),
        candidate_index(s, (attempt + 1) as u64),
    );
}

/// With overwrite, no failure leads to another index: creation replaces
/// whatever stands at the first name it tries.
pub proof fn lemma_overwrite_never_retries(s: SinkState, attempt: u64, already_exists: bool)
    requires
        s.overwrite,
    ensures
        next_attempt(s, attempt, already_exists) is None,
{
}

/// A header set while no segment is open is what the next segment starts with.
pub proof fn lemma_header_starts_next_segment(s: SinkState, header: Seq<u8>, index: u64)
    requires
        !s.open,
    ensures
        !with_header(s, header).open,
        segment_prefix(opened(with_header(s, header), index)) == header,
{
}

/// After a flush the next write needs a new segment, and every index it may
/// take lies above that of the segment just released.
pub proof fn lemma_flush_rotates(s: SinkState, index: u64, attempt: u64)
    requires
        s.segment_index <= index,
        index < u64::MAX,
    ensures
        !released(opened(s, index)).open,
        candidate_index(released(opened(s, index)), attempt) > index,
{
}

/// A flush with no segment open leaves the sink as it was.
pub proof fn lemma_flush_when_closed(s: SinkState)
    requires
        !s.open,
    ensures
        released(s) == s,
{
}

/// The index of the next segment never decreases: creating a segment moves it
/// past the created one, and a flush or a new header keeps it.
pub proof fn lemma_index_monotone(s: SinkState, index: u64, header: Seq<u8>)
    requires
        s.segment_index <= index,
    ensures
        opened(s, index).segment_index >= s.segment_index,
        index < u64::MAX ==> opened(s, index).segment_index > index,
        released(s).segment_index == s.segment_index,
        with_header(s, header).segment_index == s.segment_index,
{
}

} // verus!
