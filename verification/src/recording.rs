//! The byte layout of a recording: a row of chunks, each a four-byte
//! little-endian length followed by that many bytes.
//!
//! The length comes first so that a recording cut short by a power loss still
//! reads up to where it was cut.

use vstd::prelude::*;
use vstd::string::*;

use crate::record::FORMAT_VERSION;
use crate::text;
use crate::text::push_decimal;

verus! {

/// Upper bound of one chunk's payload. Guards against a damaged length.
pub const MAX_CHUNK_BYTES: u32 = 4_194_304;

/// `n` as four bytes, least significant first.
#[verifier::opaque]
pub open spec fn le4(n: int) -> Seq<u8> {
    seq![
        (n % 256) as u8,
        (n / 256 % 256) as u8,
        (n / 65536 % 256) as u8,
        (n / 16777216 % 256) as u8,
    ]
}

/// The number that four bytes at `pos` hold.
#[verifier::opaque]
pub open spec fn le4_at(bytes: Seq<u8>, pos: int) -> nat {
    (bytes[pos] + 256 * bytes[pos + 1] + 65536 * bytes[pos + 2] + 16777216 * bytes[pos + 3]) as nat
}

/// One chunk. Only the low 32 bits of the length are written.
pub open spec fn chunk(payload: Seq<u8>) -> Seq<u8> {
    le4(payload.len() as int) + payload
}

/// What stands at `pos` of a recording.
#[derive(Clone, Copy, Debug, PartialEq, Eq, Structural)]
pub enum ChunkAt {
    /// A whole chunk: its payload is `start..end`, and the next one begins at `end`.
    Payload { start: usize, end: usize },
    /// Fewer bytes than a whole chunk needs.
    End,
    /// A length above the bound: the recording is damaged.
    TooLarge { len: u32 },
}

pub open spec fn chunk_at(bytes: Seq<u8>, pos: int) -> ChunkAt {
    if pos + 4 > bytes.len() {
        ChunkAt::End
    } else if le4_at(bytes, pos) > MAX_CHUNK_BYTES {
        ChunkAt::TooLarge { len: le4_at(bytes, pos) as u32 }
    } else if pos + 4 + le4_at(bytes, pos) > bytes.len() {
        ChunkAt::End
    } else {
        ChunkAt::Payload {
            start: (pos + 4) as usize,
            end: (pos + 4 + le4_at(bytes, pos)) as usize,
        }
    }
}

/// All payloads from `pos` on, up to the end or the first damaged length.
pub open spec fn payloads_from(bytes: Seq<u8>, pos: int) -> Seq<Seq<u8>>
    decreases bytes.len() - pos,
{
    if pos < 0 || bytes.len() > usize::MAX {
        Seq::empty()
    } else {
        match chunk_at(bytes, pos) {
            ChunkAt::Payload { start, end } => seq![bytes.subrange(start as int, end as int)]
                + payloads_from(bytes, end as int),
            _ => Seq::empty(),
        }
    }
}

/// The damaged length that reading from `pos` on stops at, if any.
pub open spec fn damage_from(bytes: Seq<u8>, pos: int) -> Option<u32>
    decreases bytes.len() - pos,
{
    if pos < 0 || bytes.len() > usize::MAX {
        None
    } else {
        match chunk_at(bytes, pos) {
            ChunkAt::Payload { start, end } => damage_from(bytes, end as int),
            ChunkAt::TooLarge { len } => Some(len),
            ChunkAt::End => None,
        }
    }
}

/// The chunks of several payloads, one after the other.
pub open spec fn chunks(payloads: Seq<Seq<u8>>) -> Seq<u8>
    decreases payloads.len(),
{
    if payloads.len() == 0 {
        Seq::empty()
    } else {
        chunk(payloads[0]) + chunks(payloads.drop_first())
    }
}

/// Appends one chunk.
pub fn write_chunk(out: &mut Vec<u8>, payload: &[u8])
    ensures
        final(out)@ == old(out)@ + chunk(payload@),
{
    let n: usize = payload.len();
    out.push((n % 256) as u8);
    out.push((n / 256 % 256) as u8);
    out.push((n / 65536 % 256) as u8);
    out.push((n / 16777216 % 256) as u8);
    assert(out@ == old(out)@ + le4(n as int)) by {
        reveal(le4);
    }
    let mut i: usize = 0;
    while i < n
        invariant
            i <= n,
            n == payload@.len(),
            out@ == old(out)@ + le4(n as int) + payload@.take(i as int),
        decreases n - i,
    {
        out.push(payload[i]);
        assert(payload@.take(i + 1) == payload@.take(i as int).push(payload@[i as int]));
        i += 1;
    }
    assert(payload@.take(n as int) == payload@);
}

/// Looks at the chunk at `pos`.
pub fn read_chunk(bytes: &[u8], pos: usize) -> (r: ChunkAt)
    requires
        pos <= bytes@.len(),
    ensures
        r == chunk_at(bytes@, pos as int),
{
    let n: usize = bytes.len();
    if n - pos < 4 {
        return ChunkAt::End;
    }
    let len: u32 = bytes[pos] as u32 + 256 * (bytes[pos + 1] as u32) + 65536 * (bytes[pos + 2] as u32)
        + 16777216 * (bytes[pos + 3] as u32);
    assert(len == le4_at(bytes@, pos as int)) by {
        reveal(le4_at);
    }
    if len > MAX_CHUNK_BYTES {
        return ChunkAt::TooLarge { len };
    }
    if n - pos - 4 < len as usize {
        return ChunkAt::End;
    }
    ChunkAt::Payload { start: pos + 4, end: pos + 4 + len as usize }
}

/// A recording taken apart.
pub struct Chunks {
    /// The payloads up to the end, or up to a damaged length.
    pub payloads: Vec<Vec<u8>>,
    /// The damaged length, if there is one.
    pub damage: Option<u32>,
}

/// Takes a recording apart. A chunk that was cut short ends it.
pub fn read_chunks(bytes: &[u8]) -> (r: Chunks)
    ensures
        r.payloads@.map_values(|p: Vec<u8>| p@) == payloads_from(bytes@, 0),
        r.damage == damage_from(bytes@, 0),
{
    let mut payloads: Vec<Vec<u8>> = Vec::new();
    let mut pos: usize = 0;
    let total: usize = bytes.len();
    loop
        invariant
            pos <= bytes@.len() == total,
            payloads@.map_values(|p: Vec<u8>| p@) + payloads_from(bytes@, pos as int) == payloads_from(
                bytes@,
                0,
            ),
            damage_from(bytes@, pos as int) == damage_from(bytes@, 0),
        decreases bytes@.len() - pos,
    {
        match read_chunk(bytes, pos) {
            ChunkAt::Payload { start, end } => {
                let mut payload: Vec<u8> = Vec::new();
                let mut i: usize = start;
                while i < end
                    invariant
                        start <= i <= end <= bytes@.len(),
                        payload@ == bytes@.subrange(start as int, i as int),
                    decreases end - i,
                {
                    payload.push(bytes[i]);
                    i += 1;
                }
                let ghost shown = payloads@.map_values(|p: Vec<u8>| p@);
                payloads.push(payload);
                proof {
                    assert(payloads@.map_values(|p: Vec<u8>| p@) == shown.push(payload@));
                    assert(shown.push(payload@) + payloads_from(bytes@, end as int) == shown
                        + payloads_from(bytes@, pos as int));
                }
                pos = end;
            },
            ChunkAt::End => {
                return Chunks { payloads, damage: None };
            },
            ChunkAt::TooLarge { len } => {
                return Chunks { payloads, damage: Some(len) };
            },
        }
    }
}

pub open spec fn too_large_message(len: u32) -> Seq<char> {
    "フレームが大きすぎます ("@ + text::decimal(len as nat) + " byte)。記録が壊れています"@
}

/// The complaint about a damaged length.
pub fn too_large(len: u32) -> (r: String)
    ensures
        r@ == too_large_message(len),
{
    let mut message: String = "フレームが大きすぎます (".to_owned();
    push_decimal(&mut message, len as u64);
    message.append(" byte)。記録が壊れています");
    message
}

pub open spec fn version_message(path: Seq<char>, version: u32) -> Seq<char> {
    path + " は書式 v"@ + text::decimal(version as nat) + " です（このビルドは v"@ + text::decimal(
        FORMAT_VERSION as nat,
    ) + "）"@
}

/// Refuses a recording of another layout version.
pub fn check_version(path: &str, version: u32) -> (r: Result<(), String>)
    ensures
        r is Ok <==> version == FORMAT_VERSION,
        r matches Err(e) ==> e@ == version_message(path@, version),
{
    if version == FORMAT_VERSION {
        return Ok(());
    }
    let mut message: String = path.to_owned();
    message.append(" は書式 v");
    push_decimal(&mut message, version as u64);
    message.append(" です（このビルドは v");
    push_decimal(&mut message, FORMAT_VERSION as u64);
    message.append("）");
    Err(message)
}

proof fn lemma_le4_at(bytes: Seq<u8>, pos: int, n: int)
    requires
        0 <= n < 0x1_0000_0000,
        0 <= pos,
        pos + 4 <= bytes.len(),
        bytes.subrange(pos, pos + 4) == le4(n),
    ensures
        le4_at(bytes, pos) == n,
{
    reveal(le4);
    reveal(le4_at);
    let le = bytes.subrange(pos, pos + 4);
    assert(bytes[pos] == le[0] && bytes[pos + 1] == le[1] && bytes[pos + 2] == le[2] && bytes[pos + 3]
        == le[3]);
}

proof fn lemma_le4_len(n: int)
    ensures
        le4(n).len() == 4,
{
    reveal(le4);
}

/// The chunk at a place where one was written is that chunk.
proof fn lemma_chunk_reads_back(before: Seq<u8>, payload: Seq<u8>, after: Seq<u8>)
    requires
        payload.len() <= MAX_CHUNK_BYTES,
        (before + chunk(payload) + after).len() <= usize::MAX,
    ensures
        chunk_at(before + chunk(payload) + after, before.len() as int) == (ChunkAt::Payload {
            start: (before.len() + 4) as usize,
            end: (before.len() + 4 + payload.len()) as usize,
        }),
        (before + chunk(payload) + after).subrange(
            before.len() as int + 4,
            before.len() as int + 4 + payload.len(),
        ) == payload,
{
    let all = before + chunk(payload) + after;
    let at = before.len() as int;
    lemma_le4_len(payload.len() as int);
    assert(all.subrange(at, at + 4) == le4(payload.len() as int));
    lemma_le4_at(all, at, payload.len() as int);
}

proof fn lemma_written_reads_back(before: Seq<u8>, payloads: Seq<Seq<u8>>)
    requires
        forall|i: int| 0 <= i < payloads.len() ==> (#[trigger] payloads[i]).len() <= MAX_CHUNK_BYTES,
        (before + chunks(payloads)).len() <= usize::MAX,
    ensures
        payloads_from(before + chunks(payloads), before.len() as int) == payloads,
        damage_from(before + chunks(payloads), before.len() as int) is None,
    decreases payloads.len(),
{
    let all = before + chunks(payloads);
    if payloads.len() > 0 {
        let rest = payloads.drop_first();
        let head = before + chunk(payloads[0]);
        assert(all == head + chunks(rest));
        assert(all == before + chunk(payloads[0]) + chunks(rest));
        lemma_chunk_reads_back(before, payloads[0], chunks(rest));
        assert forall|i: int| 0 <= i < rest.len() implies (#[trigger] rest[i]).len() <= MAX_CHUNK_BYTES by {
            assert(rest[i] == payloads[i + 1]);
        }
        lemma_le4_len(payloads[0].len() as int);
        lemma_written_reads_back(head, rest);
        assert(payloads == seq![payloads[0]] + rest);
    }
}

/// What is written is what comes back: a row of chunks reads as its payloads.
pub proof fn what_is_written_comes_back(payloads: Seq<Seq<u8>>)
    requires
        forall|i: int| 0 <= i < payloads.len() ==> (#[trigger] payloads[i]).len() <= MAX_CHUNK_BYTES,
        chunks(payloads).len() <= usize::MAX,
    ensures
        payloads_from(chunks(payloads), 0) == payloads,
        damage_from(chunks(payloads), 0) is None,
{
    lemma_written_reads_back(Seq::empty(), payloads);
    assert(Seq::<u8>::empty() + chunks(payloads) == chunks(payloads));
}

/// A recording cut inside its last chunk reads as everything before that chunk,
/// without a complaint.
pub proof fn a_cut_recording_reads_up_to_the_cut(payloads: Seq<Seq<u8>>, last: Seq<u8>, kept: int)
    requires
        forall|i: int| 0 <= i < payloads.len() ==> (#[trigger] payloads[i]).len() <= MAX_CHUNK_BYTES,
        last.len() <= MAX_CHUNK_BYTES,
        0 <= kept < chunk(last).len(),
        chunks(payloads).len() + kept <= usize::MAX,
    ensures
        payloads_from(chunks(payloads) + chunk(last).take(kept), 0) == payloads,
        damage_from(chunks(payloads) + chunk(last).take(kept), 0) is None,
{
    lemma_cut(Seq::empty(), payloads, last, kept);
    assert(Seq::<u8>::empty() + (chunks(payloads) + chunk(last).take(kept)) == chunks(payloads) + chunk(
        last,
    ).take(kept));
}

proof fn lemma_cut(before: Seq<u8>, payloads: Seq<Seq<u8>>, last: Seq<u8>, kept: int)
    requires
        forall|i: int| 0 <= i < payloads.len() ==> (#[trigger] payloads[i]).len() <= MAX_CHUNK_BYTES,
        last.len() <= MAX_CHUNK_BYTES,
        0 <= kept < chunk(last).len(),
        before.len() + chunks(payloads).len() + kept <= usize::MAX,
    ensures
        payloads_from(
            before + (chunks(payloads) + chunk(last).take(kept)),
            before.len() as int,
        ) == payloads,
        damage_from(
            before + (chunks(payloads) + chunk(last).take(kept)),
            before.len() as int,
        ) is None,
    decreases payloads.len(),
{
    let tail = chunk(last).take(kept);
    let all = before + (chunks(payloads) + tail);
    if payloads.len() > 0 {
        let rest = payloads.drop_first();
        let head = before + chunk(payloads[0]);
        assert(all == head + (chunks(rest) + tail));
        assert(all == before + chunk(payloads[0]) + (chunks(rest) + tail));
        lemma_chunk_reads_back(before, payloads[0], chunks(rest) + tail);
        assert forall|i: int| 0 <= i < rest.len() implies (#[trigger] rest[i]).len() <= MAX_CHUNK_BYTES by {
            assert(rest[i] == payloads[i + 1]);
        }
        lemma_le4_len(payloads[0].len() as int);
        lemma_cut(head, rest, last, kept);
        assert(payloads == seq![payloads[0]] + rest);
    } else {
        lemma_le4_len(last.len() as int);
        assert(all == before + tail);
        if kept >= 4 {
            let at = before.len() as int;
            assert(all.subrange(at, at + 4) == le4(last.len() as int));
            lemma_le4_at(all, at, last.len() as int);
        }
    }
}

/// A length is written with its low byte first, and read the same way.
pub proof fn the_low_byte_comes_first(n: int, bytes: Seq<u8>, pos: int)
    requires
        0 <= n < 0x1_0000_0000,
        0 <= pos,
        pos + 4 <= bytes.len(),
    ensures
        le4(n).len() == 4,
        le4(n)[0] == n % 256,
        le4(n)[0] + 256 * le4(n)[1] + 65536 * le4(n)[2] + 16777216 * le4(n)[3] == n,
        le4_at(bytes, pos) % 256 == bytes[pos],
        le4_at(bytes, pos) / 256 % 256 == bytes[pos + 1],
        le4_at(bytes, pos) / 65536 % 256 == bytes[pos + 2],
        le4_at(bytes, pos) / 16777216 == bytes[pos + 3],
{
    reveal(le4);
    reveal(le4_at);
}

/// A chunk is its length in four bytes and then its payload, nothing more.
pub proof fn a_chunk_is_its_length_and_its_payload(payload: Seq<u8>)
    requires
        payload.len() < 0x1_0000_0000,
    ensures
        chunk(payload).len() == 4 + payload.len(),
        chunk(payload).skip(4) == payload,
        chunk(payload)[0] + 256 * chunk(payload)[1] + 65536 * chunk(payload)[2] + 16777216 * chunk(
            payload,
        )[3] == payload.len(),
{
    lemma_le4_len(payload.len() as int);
    let n = payload.len() as int;
    reveal(le4);
    assert(chunk(payload).skip(4) == payload);
    assert(le4(n)[0] + 256 * le4(n)[1] + 65536 * le4(n)[2] + 16777216 * le4(n)[3] == n);
}

/// A length above four mebibytes is a damage: everything before it is read, and
/// the damage is reported as it stands.
pub proof fn a_damaged_length_is_reported(payloads: Seq<Seq<u8>>, n: int, after: Seq<u8>)
    requires
        forall|i: int| 0 <= i < payloads.len() ==> (#[trigger] payloads[i]).len() <= 4 * 1024 * 1024,
        4 * 1024 * 1024 < n < 0x1_0000_0000,
        chunks(payloads).len() + 4 + after.len() <= usize::MAX,
    ensures
        payloads_from(chunks(payloads) + le4(n) + after, 0) == payloads,
        damage_from(chunks(payloads) + le4(n) + after, 0) == Some(n as u32),
{
    lemma_damage(Seq::empty(), payloads, n, after);
    assert(Seq::<u8>::empty() + (chunks(payloads) + le4(n) + after) == chunks(payloads) + le4(n) + after);
}

proof fn lemma_damage(before: Seq<u8>, payloads: Seq<Seq<u8>>, n: int, after: Seq<u8>)
    requires
        forall|i: int| 0 <= i < payloads.len() ==> (#[trigger] payloads[i]).len() <= MAX_CHUNK_BYTES,
        MAX_CHUNK_BYTES < n < 0x1_0000_0000,
        before.len() + chunks(payloads).len() + 4 + after.len() <= usize::MAX,
    ensures
        payloads_from(before + (chunks(payloads) + le4(n) + after), before.len() as int) == payloads,
        damage_from(before + (chunks(payloads) + le4(n) + after), before.len() as int) == Some(n as u32),
    decreases payloads.len(),
{
    let all = before + (chunks(payloads) + le4(n) + after);
    lemma_le4_len(n);
    if payloads.len() > 0 {
        let rest = payloads.drop_first();
        let head = before + chunk(payloads[0]);
        assert(all == head + (chunks(rest) + le4(n) + after));
        assert(all == before + chunk(payloads[0]) + (chunks(rest) + le4(n) + after));
        lemma_chunk_reads_back(before, payloads[0], chunks(rest) + le4(n) + after);
        assert forall|i: int| 0 <= i < rest.len() implies (#[trigger] rest[i]).len() <= MAX_CHUNK_BYTES by {
            assert(rest[i] == payloads[i + 1]);
        }
        lemma_le4_len(payloads[0].len() as int);
        lemma_damage(head, rest, n, after);
        assert(payloads == seq![payloads[0]] + rest);
    } else {
        let at = before.len() as int;
        assert(all.subrange(at, at + 4) == le4(n));
        lemma_le4_at(all, at, n);
    }
}

} // verus!
