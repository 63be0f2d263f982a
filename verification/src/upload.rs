//! Chunked upload protocol: splits a media buffer into indexed 24-byte
//! chunks and plans the full start / length / transfer / end frame
//! sequence, including the 32-bit alignment padding of the final chunk on
//! the animated-media channel.
//!
//! The planner here is pure: it produces the exact frames, in the exact
//! order, that the transport shell must exchange one at a time, each fully
//! acknowledged before the next is sent.

use vstd::arithmetic::div_mod::{
    lemma_fundamental_div_mod, lemma_fundamental_div_mod_converse, lemma_mod_bound, lemma_mod_mod,
    lemma_mod_multiples_basic, lemma_small_mod,
};
use vstd::prelude::*;
use vstd::slice::slice_subrange;

use crate::checksum::{checksum, spec_checksum};
use crate::consts::{
    CHANNEL_GIF, CHANNEL_IMAGE, CHUNK_LEN, FRAME_LEN, FRAME_MARKER, GIF_SIZE_LIMIT, MAX_MEDIA_LEN,
    ZOOM65_RESET_SCREEN_ID, ZOOM65_UPLOAD_END, ZOOM65_UPLOAD_LENGTH, ZOOM65_UPLOAD_START_ID,
};
use crate::frame::{build_frame, spec_command_frame, zeros, Frame};
use crate::types::Zoom65Error;

verus! {

/// How many chunks a buffer of `len` bytes takes: the ceiling of `len / 24`.
pub open spec fn chunk_count(len: nat) -> nat {
    (len + 23) / 24
}

/// The bytes chunk `i` carries: the slice `[24*i, 24*i + 24)` of the
/// buffer, clipped to the buffer's end for the final chunk.
pub open spec fn spec_chunk(data: Seq<u8>, i: int) -> Seq<u8>
    recommends
        0 <= i < chunk_count(data.len()),
{
    if 24 * i + 24 <= data.len() {
        data.subrange(24 * i, 24 * i + 24)
    } else {
        data.subrange(24 * i, data.len() as int)
    }
}

/// The zero padding appended to chunk `i`'s checksummed span: only the
/// final ragged chunk of the animated-media channel is padded, up to the
/// next multiple of 4 bytes.
pub open spec fn spec_pad(len: nat, channel: u8, i: int) -> nat {
    if channel == CHANNEL_GIF && i == len / 24 {
        ((4 - (len % 24) % 4) % 4) as nat
    } else {
        0
    }
}

/// The span a chunk's checksum is computed over: the two big-endian index
/// bytes, the chunk data, and the padding — not the 3-byte header prefix.
pub open spec fn spec_chunk_span(index: nat, chunk: Seq<u8>, pad: nat) -> Seq<u8>
    recommends
        index < 65536,
{
    seq![(index / 256) as u8, (index % 256) as u8] + chunk + zeros(pad)
}

/// The full 64 bytes of one chunk-transfer frame: a 3-byte header (report
/// id, frame marker, declared length), the checksummed span, the 4-byte
/// checksum, and zero padding to the fixed report size.
pub open spec fn spec_chunk_frame(index: nat, chunk: Seq<u8>, pad: nat) -> Seq<u8>
    recommends
        index < 65536,
        chunk.len() + pad <= CHUNK_LEN,
{
    seq![0u8, FRAME_MARKER, (6 + chunk.len() + pad) as u8] + spec_chunk_span(index, chunk, pad)
        + spec_checksum(spec_chunk_span(index, chunk, pad)) + zeros(
        (FRAME_LEN - 9 - chunk.len() - pad) as nat,
    )
}

/// The big-endian 4-byte rendering of a 32-bit total length.
pub open spec fn spec_be32(n: nat) -> Seq<u8>
    recommends
        n < 0x100000000,
{
    seq![
        (n / 0x1000000 % 256) as u8,
        (n / 0x10000 % 256) as u8,
        (n / 256 % 256) as u8,
        (n % 256) as u8,
    ]
}

/// The complete frame sequence of one upload: announce the channel, then
/// the total length, then every chunk in strictly increasing index order,
/// then the end primitive and a screen reset.
pub open spec fn spec_upload_frames(data: Seq<u8>, channel: u8) -> Seq<Seq<u8>> {
    seq![
        spec_command_frame(ZOOM65_UPLOAD_START_ID[0], ZOOM65_UPLOAD_START_ID[1], seq![channel]),
        spec_command_frame(ZOOM65_UPLOAD_LENGTH[0], ZOOM65_UPLOAD_LENGTH[1], spec_be32(data.len())),
    ] + Seq::new(
        chunk_count(data.len()),
        |i: int| spec_chunk_frame(i as nat, spec_chunk(data, i), spec_pad(data.len(), channel, i)),
    ) + seq![
        spec_command_frame(ZOOM65_UPLOAD_END[0], ZOOM65_UPLOAD_END[1], seq![1u8]),
        spec_command_frame(ZOOM65_RESET_SCREEN_ID[0], ZOOM65_RESET_SCREEN_ID[1], Seq::<u8>::empty()),
    ]
}

/// Law: the chunk count is the ceiling of `len / 24`, and the chunks
/// together span at least `len` and at most `len + 23` bytes.
pub proof fn lemma_chunk_count(len: nat)
    ensures
        chunk_count(len) == if len % 24 == 0 {
            len / 24
        } else {
            len / 24 + 1
        },
        24 * chunk_count(len) >= len,
        24 * chunk_count(len) <= len + 23,
{
    lemma_fundamental_div_mod((len + 23) as int, 24);
    lemma_mod_bound((len + 23) as int, 24);
    lemma_fundamental_div_mod(len as int, 24);
    lemma_mod_bound(len as int, 24);
    if len % 24 == 0 {
        lemma_fundamental_div_mod_converse((len + 23) as int, 24, (len / 24) as int, 23);
    } else {
        lemma_fundamental_div_mod_converse(
            (len + 23) as int,
            24,
            (len / 24 + 1) as int,
            (len % 24 - 1) as int,
        );
    }
}

/// Chunks `0 .. n` of a buffer, concatenated in increasing index order.
pub open spec fn concat_chunks(data: Seq<u8>, n: int) -> Seq<u8>
    decreases n,
{
    if n <= 0 {
        Seq::empty()
    } else {
        concat_chunks(data, n - 1) + spec_chunk(data, n - 1)
    }
}

proof fn lemma_concat_chunks_prefix(data: Seq<u8>, n: int)
    requires
        0 <= n <= chunk_count(data.len()),
    ensures
        concat_chunks(data, n) == if 24 * n <= data.len() {
            data.take(24 * n)
        } else {
            data.take(data.len() as int)
        },
    decreases n,
{
    lemma_chunk_count(data.len());
    if n == 0 {
        assert(concat_chunks(data, 0) =~= data.take(0));
    } else {
        lemma_concat_chunks_prefix(data, n - 1);
        assert(24 * (n - 1) <= 24 * (chunk_count(data.len()) - 1));
        if 24 * n <= data.len() {
            assert(concat_chunks(data, n) =~= data.take(24 * n));
        } else {
            assert(concat_chunks(data, n) =~= data.take(data.len() as int));
        }
    }
}

/// Law: concatenating the data of all `ceil(len / 24)` chunks, in
/// increasing index order, reconstructs the original buffer exactly.
pub proof fn lemma_chunks_reconstruct(data: Seq<u8>)
    ensures
        concat_chunks(data, chunk_count(data.len()) as int) == data,
{
    lemma_chunk_count(data.len());
    lemma_concat_chunks_prefix(data, chunk_count(data.len()) as int);
    assert(data.take(data.len() as int) =~= data);
    if 24 * chunk_count(data.len()) <= data.len() {
        assert(data.take(24 * chunk_count(data.len()) as int) =~= data);
    }
}

/// Law: on the animated-media channel, the final chunk's padded span
/// (its data plus the alignment padding) is always a multiple of 4 bytes,
/// and the padding is zero exactly when the buffer length is already
/// 32-bit aligned (`len % 4 == 0`, which includes every exact multiple
/// of 24).
pub proof fn lemma_final_pad_alignment(len: nat)
    requires
        len > 0,
    ensures
        ({
            let last = chunk_count(len) - 1;
            let chunk_len: nat = if len % 24 == 0 {
                24
            } else {
                len % 24
            };
            let pad = spec_pad(len, CHANNEL_GIF, last);
            &&& (chunk_len + pad) % 4 == 0
            &&& (pad == 0 <==> len % 4 == 0)
        }),
{
    lemma_chunk_count(len);
    lemma_fundamental_div_mod(len as int, 24);
    lemma_mod_bound(len as int, 24);
    lemma_mod_mod(len as int, 4, 6);
    assert((len % 24) % 4 == len % 4);
    let r = len % 24;
    lemma_fundamental_div_mod(r as int, 4);
    lemma_mod_bound(r as int, 4);
    if r == 0 {
        // the final chunk is a full 24 bytes and its index is count - 1,
        // which is not len / 24, so no padding applies
        assert(len / 24 >= 1);
        assert(chunk_count(len) - 1 != len / 24);
        assert(spec_pad(len, CHANNEL_GIF, chunk_count(len) - 1) == 0);
        assert(24nat % 4 == 0);
    } else {
        assert(chunk_count(len) - 1 == len / 24);
        let m = r % 4;
        let pad = spec_pad(len, CHANNEL_GIF, chunk_count(len) - 1);
        if m == 0 {
            assert(pad == ((4 - 0) % 4) as nat);
            assert(pad == 0);
            lemma_mod_multiples_basic((r / 4) as int, 4);
            assert((r + pad) % 4 == 0);
        } else {
            lemma_small_mod((4 - m) as nat, 4);
            assert(pad == (4 - m) as nat);
            assert(r + pad == 4 * (r / 4) + 4);
            lemma_mod_multiples_basic((r / 4 + 1) as int, 4);
            assert((r + pad) % 4 == 0);
        }
    }
}

/// Builds one chunk-transfer frame for chunk `index` carrying `chunk`,
/// with `pad` zero bytes extending the checksummed span.
pub(crate) fn build_chunk_frame(index: usize, chunk: &[u8], pad: usize) -> (f: Frame)
    requires
        index < 65536,
        chunk@.len() + pad <= CHUNK_LEN,
    ensures
        f@ == spec_chunk_frame(index as nat, chunk@, pad as nat),
        f@.len() == FRAME_LEN,
{
    proof {
        lemma_fundamental_div_mod(index as int, 256);
        lemma_mod_bound(index as int, 256);
    }
    let mut span: Vec<u8> = Vec::new();
    span.push((index / 256) as u8);
    span.push((index % 256) as u8);
    let ghost idx_bytes = seq![((index as nat) / 256) as u8, ((index as nat) % 256) as u8];
    proof {
        assert(span@ =~= idx_bytes);
    }
    let mut i: usize = 0;
    while i < chunk.len()
        invariant
            i <= chunk@.len(),
            idx_bytes.len() == 2,
            span@ == idx_bytes + chunk@.take(i as int),
        decreases chunk@.len() - i,
    {
        span.push(chunk[i]);
        proof {
            assert(chunk@.take(i as int + 1) =~= chunk@.take(i as int).push(chunk@[i as int]));
            assert(span@ =~= idx_bytes + chunk@.take(i as int + 1));
        }
        i = i + 1;
    }
    proof {
        assert(chunk@.take(chunk@.len() as int) =~= chunk@);
        assert(span@ =~= idx_bytes + chunk@ + zeros(0));
    }
    let mut p: usize = 0;
    while p < pad
        invariant
            p <= pad,
            idx_bytes.len() == 2,
            span@ == idx_bytes + chunk@ + zeros(p as nat),
        decreases pad - p,
    {
        span.push(0u8);
        proof {
            assert(span@ =~= idx_bytes + chunk@ + zeros(p as nat + 1));
        }
        p = p + 1;
    }
    proof {
        assert(span@ =~= spec_chunk_span(index as nat, chunk@, pad as nat));
    }
    let crc = checksum(span.as_slice());
    let mut bytes: Vec<u8> = Vec::new();
    bytes.push(0u8);
    bytes.push(FRAME_MARKER);
    bytes.push((6 + chunk.len() + pad) as u8);
    let ghost header = seq![0u8, FRAME_MARKER, (6 + chunk@.len() + pad) as u8];
    proof {
        assert(bytes@ =~= header);
    }
    let mut j: usize = 0;
    while j < span.len()
        invariant
            j <= span@.len(),
            header.len() == 3,
            bytes@ == header + span@.take(j as int),
        decreases span@.len() - j,
    {
        let b = span[j];
        bytes.push(b);
        proof {
            assert(span@.take(j as int + 1) =~= span@.take(j as int).push(span@[j as int]));
            assert(bytes@ =~= header + span@.take(j as int + 1));
        }
        j = j + 1;
    }
    proof {
        assert(span@.take(span@.len() as int) =~= span@);
    }
    bytes.push(crc[0]);
    bytes.push(crc[1]);
    bytes.push(crc[2]);
    bytes.push(crc[3]);
    let ghost prefix = header + span@ + crc@;
    proof {
        assert(crc@ =~= seq![crc@[0], crc@[1], crc@[2], crc@[3]]);
        assert(bytes@ =~= prefix + zeros(0));
    }
    while bytes.len() < FRAME_LEN
        invariant
            prefix.len() == 9 + chunk@.len() + pad,
            chunk@.len() + pad <= CHUNK_LEN,
            prefix.len() <= bytes@.len() <= FRAME_LEN,
            bytes@ == prefix + zeros((bytes@.len() - prefix.len()) as nat),
        decreases FRAME_LEN - bytes@.len(),
    {
        bytes.push(0u8);
        proof {
            assert(bytes@ =~= prefix + zeros((bytes@.len() - prefix.len()) as nat));
        }
    }
    proof {
        assert(bytes@ =~= spec_chunk_frame(index as nat, chunk@, pad as nat));
    }
    Frame { bytes }
}

/// Encodes a total byte length as the 4-byte big-endian payload of the
/// length-announcement frame.
fn be32_bytes(len: usize) -> (r: [u8; 4])
    requires
        len < 0x100000000,
    ensures
        r@ == spec_be32(len as nat),
{
    proof {
        lemma_mod_bound(len as int / 0x1000000, 256);
        lemma_mod_bound(len as int / 0x10000, 256);
        lemma_mod_bound(len as int / 256, 256);
        lemma_mod_bound(len as int, 256);
    }
    let r: [u8; 4] = [
        (len / 0x1000000 % 256) as u8,
        (len / 0x10000 % 256) as u8,
        (len / 256 % 256) as u8,
        (len % 256) as u8,
    ];
    proof {
        assert(r@ =~= spec_be32(len as nat));
    }
    r
}

/// Plans a whole upload: exactly `spec_upload_frames(data@, channel)`, so
/// `ceil(len / 24)` chunk frames carrying indices `0 .. count-1` in order,
/// bracketed by the start, length, end and reset frames.
pub fn upload_frames(data: &[u8], channel: u8) -> (frames: Vec<Frame>)
    requires
        data@.len() <= MAX_MEDIA_LEN,
    ensures
        frames@.map_values(|f: Frame| f@) == spec_upload_frames(data@, channel),
        frames@.len() == chunk_count(data@.len()) + 4,
        forall|k: int| 0 <= k < frames@.len() ==> (#[trigger] frames@[k])@.len() == FRAME_LEN,
{
    let len = data.len();
    let ghost target = spec_upload_frames(data@, channel);
    proof {
        lemma_chunk_count(len as nat);
        assert(target.len() == chunk_count(len as nat) + 4);
    }
    let mut frames: Vec<Frame> = Vec::new();
    let ch: [u8; 1] = [channel];
    proof {
        assert(ch@ =~= seq![channel]);
    }
    frames.push(build_frame(ZOOM65_UPLOAD_START_ID, ch.as_slice()));
    let lenb = be32_bytes(len);
    frames.push(build_frame(ZOOM65_UPLOAD_LENGTH, lenb.as_slice()));
    let count = (len + 23) / 24;
    let mut i: usize = 0;
    while i < count
        invariant
            i <= count,
            len == data@.len(),
            len <= MAX_MEDIA_LEN,
            count == chunk_count(len as nat),
            24 * count <= len + 23,
            24 * count >= len,
            target == spec_upload_frames(data@, channel),
            target.len() == count + 4,
            frames@.len() == 2 + i,
            forall|k: int|
                0 <= k < frames@.len() ==> (#[trigger] frames@[k])@ == target[k] && frames@[k]@.len()
                    == FRAME_LEN,
        decreases count - i,
    {
        let start = i * 24;
        proof {
            assert(24 * (i as int) <= 24 * (count as int) - 24);
        }
        let end = if start + 24 <= len {
            start + 24
        } else {
            len
        };
        let chunk = slice_subrange(data, start, end);
        let pad: usize = if channel == CHANNEL_GIF && i == len / 24 {
            proof {
                lemma_fundamental_div_mod(len as int, 24);
                lemma_mod_bound(len as int, 24);
            }
            (4 - (len % 24) % 4) % 4
        } else {
            0
        };
        proof {
            lemma_fundamental_div_mod(len as int, 24);
            lemma_mod_bound(len as int, 24);
            if channel == CHANNEL_GIF && i == len / 24 {
                // the branch is only reachable for a ragged final chunk
                assert(len % 24 != 0);
                assert(end == len);
                assert(chunk@.len() == len % 24);
                lemma_mod_bound((len % 24) as int, 4);
                assert(chunk@.len() + pad <= CHUNK_LEN);
            }
            assert(chunk@ =~= spec_chunk(data@, i as int));
            assert(pad as nat == spec_pad(len as nat, channel, i as int));
        }
        frames.push(build_chunk_frame(i, chunk, pad));
        proof {
            assert(target[2 + i as int] == spec_chunk_frame(
                i as nat,
                spec_chunk(data@, i as int),
                spec_pad(len as nat, channel, i as int),
            ));
        }
        i = i + 1;
    }
    let one: [u8; 1] = [1];
    let empty: [u8; 0] = [];
    proof {
        assert(one@ =~= seq![1u8]);
        assert(empty@ =~= Seq::<u8>::empty());
    }
    frames.push(build_frame(ZOOM65_UPLOAD_END, one.as_slice()));
    frames.push(build_frame(ZOOM65_RESET_SCREEN_ID, empty.as_slice()));
    proof {
        assert(target[2 + count as int] == spec_command_frame(
            ZOOM65_UPLOAD_END[0],
            ZOOM65_UPLOAD_END[1],
            seq![1u8],
        ));
        assert(target[3 + count as int] == spec_command_frame(
            ZOOM65_RESET_SCREEN_ID[0],
            ZOOM65_RESET_SCREEN_ID[1],
            Seq::<u8>::empty(),
        ));
        assert(frames@.map_values(|f: Frame| f@) =~= target);
    }
    frames
}

/// Plans the upload of a still image: channel 1, no size pre-check beyond
/// the frame capacity of the chunk index.
pub fn upload_image_frames(data: &[u8]) -> (frames: Vec<Frame>)
    requires
        data@.len() <= MAX_MEDIA_LEN,
    ensures
        frames@.map_values(|f: Frame| f@) == spec_upload_frames(data@, CHANNEL_IMAGE),
        frames@.len() == chunk_count(data@.len()) + 4,
{
    upload_frames(data, CHANNEL_IMAGE)
}

/// Plans the upload of animated media: channel 2. A buffer of 1,013,808
/// bytes or more is rejected up front — no frame is planned and no
/// transport interaction may take place.
pub fn upload_gif_frames(data: &[u8]) -> (r: Result<Vec<Frame>, Zoom65Error>)
    ensures
        r is Err <==> data@.len() >= GIF_SIZE_LIMIT,
        r matches Err(e) ==> e == Zoom65Error::ImageTooLarge,
        r matches Ok(frames) ==> frames@.map_values(|f: Frame| f@) == spec_upload_frames(
            data@,
            CHANNEL_GIF,
        ) && frames@.len() == chunk_count(data@.len()) + 4,
{
    if data.len() >= GIF_SIZE_LIMIT {
        return Err(Zoom65Error::ImageTooLarge);
    }
    Ok(upload_frames(data, CHANNEL_GIF))
}

} // verus!
