//! PNG encoding: 8-bit RGB images whose pixel data is stored in a zlib
//! stream of uncompressed ("stored") deflate blocks, with the CRC-32 of
//! every chunk and the Adler-32 of the image data.

use vstd::prelude::*;
use crate::bmp::{le_u16, push_u16_le};

verus! {

/// Big-endian bytes of a `u32`.
pub open spec fn be_u32(v: u32) -> Seq<u8> {
    seq![
        ((v >> 24u32) & 0xFF) as u8,
        ((v >> 16u32) & 0xFF) as u8,
        ((v >> 8u32) & 0xFF) as u8,
        (v & 0xFF) as u8,
    ]
}

/// Appends the big-endian bytes of `v`.
pub fn push_u32_be(out: &mut Vec<u8>, v: u32)
    ensures
        final(out)@ == old(out)@ + be_u32(v),
{
    out.push(((v >> 24u32) & 0xFF) as u8);
    out.push(((v >> 16u32) & 0xFF) as u8);
    out.push(((v >> 8u32) & 0xFF) as u8);
    out.push((v & 0xFF) as u8);
    assert(out@ =~= old(out)@ + be_u32(v));
}

/// Appends `src[from..to]`.
pub fn push_bytes(out: &mut Vec<u8>, src: &[u8], from: usize, to: usize)
    requires
        from <= to <= src@.len(),
    ensures
        final(out)@ == old(out)@ + src@.subrange(from as int, to as int),
{
    let mut i = from;
    while i < to
        invariant
            from <= i <= to,
            to <= src@.len(),
            out@ == old(out)@ + src@.subrange(from as int, i as int),
        decreases to - i,
    {
        out.push(src[i]);
        assert(src@.subrange(from as int, i + 1) =~= src@.subrange(from as int, i as int).push(
            src@[i as int],
        ));
        assert(out@ =~= old(out)@ + src@.subrange(from as int, i + 1));
        i = i + 1;
    }
}

// ---------------------------------------------------------------- CRC-32

/// One bit step of the reflected CRC-32 (polynomial 0xEDB88320).
pub open spec fn crc_step(c: u32) -> u32 {
    if c & 1 == 1 {
        (c >> 1u32) ^ 0xEDB8_8320u32
    } else {
        c >> 1u32
    }
}

/// `k` bit steps of the CRC-32.
pub open spec fn crc_bits(c: u32, k: nat) -> u32
    decreases k,
{
    if k == 0 {
        c
    } else {
        crc_step(crc_bits(c, (k - 1) as nat))
    }
}

/// The CRC-32 register after one more byte.
pub open spec fn crc_byte(c: u32, b: u8) -> u32 {
    crc_bits(c ^ (b as u32), 8)
}

/// The CRC-32 register after the bytes of `s`, starting from `c`.
pub open spec fn crc_fold(c: u32, s: Seq<u8>) -> u32
    decreases s.len(),
{
    if s.len() == 0 {
        c
    } else {
        crc_byte(crc_fold(c, s.drop_last()), s.last())
    }
}

/// CRC-32 (ISO-HDLC, as used by PNG) of `s`.
pub open spec fn crc32(s: Seq<u8>) -> u32 {
    !crc_fold(0xFFFF_FFFFu32, s)
}

/// CRC-32 of `data`.
pub fn crc32_of(data: &[u8]) -> (crc: u32)
    ensures
        crc == crc32(data@),
{
    let mut c: u32 = 0xFFFF_FFFF;
    let mut i: usize = 0;
    while i < data.len()
        invariant
            i <= data@.len(),
            c == crc_fold(0xFFFF_FFFFu32, data@.subrange(0, i as int)),
        decreases data@.len() - i,
    {
        let mut x: u32 = c ^ (data[i] as u32);
        let ghost x0 = x;
        let mut k: u32 = 0;
        while k < 8
            invariant
                k <= 8,
                x == crc_bits(x0, k as nat),
            decreases 8 - k,
        {
            x = if x & 1 == 1 {
                (x >> 1u32) ^ 0xEDB8_8320u32
            } else {
                x >> 1u32
            };
            k = k + 1;
        }
        assert(data@.subrange(0, i + 1).drop_last() =~= data@.subrange(0, i as int));
        c = x;
        i = i + 1;
    }
    assert(data@.subrange(0, data@.len() as int) =~= data@);
    !c
}

// -------------------------------------------------------------- Adler-32

/// The two Adler-32 sums of `s`.
pub open spec fn adler_sums(s: Seq<u8>) -> (u32, u32)
    decreases s.len(),
{
    if s.len() == 0 {
        (1u32, 0u32)
    } else {
        let p = adler_sums(s.drop_last());
        let a = ((p.0 + s.last()) % 65521) as u32;
        (a, ((p.1 + a) % 65521) as u32)
    }
}

/// Adler-32 checksum of `s`.
pub open spec fn adler32(s: Seq<u8>) -> u32 {
    (adler_sums(s).1 << 16u32) | adler_sums(s).0
}

/// Adler-32 checksum of `data`.
pub fn adler32_of(data: &[u8]) -> (sum: u32)
    ensures
        sum == adler32(data@),
{
    let mut a: u32 = 1;
    let mut b: u32 = 0;
    let mut i: usize = 0;
    while i < data.len()
        invariant
            i <= data@.len(),
            (a, b) == adler_sums(data@.subrange(0, i as int)),
            a < 65521,
            b < 65521,
        decreases data@.len() - i,
    {
        assert(data@.subrange(0, i + 1).drop_last() =~= data@.subrange(0, i as int));
        a = (a + data[i] as u32) % 65521;
        b = (b + a) % 65521;
        i = i + 1;
    }
    assert(data@.subrange(0, data@.len() as int) =~= data@);
    (b << 16u32) | a
}

// ------------------------------------------------------ zlib stored blocks

/// Largest payload of a stored deflate block.
pub const MAX_STORED_BLOCK: usize = 65535;

/// A stored deflate block: final flag, length, its complement, then the
/// bytes as they are.
pub open spec fn stored_block(last: bool, d: Seq<u8>) -> Seq<u8> {
    seq![
        if last {
            1u8
        } else {
            0u8
        },
    ] + le_u16(d.len() as u16) + le_u16(!(d.len() as u16)) + d
}

/// Stored blocks carrying `d` from `pos` on: full blocks of 65535 bytes,
/// the last block (possibly empty) marked final.
pub open spec fn stored_blocks_from(d: Seq<u8>, pos: int) -> Seq<u8>
    decreases d.len() - pos,
{
    if d.len() - pos <= 65535 {
        stored_block(true, d.subrange(pos, d.len() as int))
    } else {
        stored_block(false, d.subrange(pos, pos + 65535)) + stored_blocks_from(d, pos + 65535)
    }
}

/// A zlib stream (deflate, 32K window, no dictionary) holding `d` in stored
/// blocks, followed by its Adler-32.
pub open spec fn zlib_stored(d: Seq<u8>) -> Seq<u8> {
    seq![0x78u8, 0x01u8] + stored_blocks_from(d, 0) + be_u32(adler32(d))
}

/// Length of the stored blocks carrying `n` bytes.
pub open spec fn stored_blocks_len(n: int) -> int
    decreases n,
{
    if n <= 65535 {
        n + 5
    } else {
        65540 + stored_blocks_len(n - 65535)
    }
}

/// Length of the zlib stream carrying `n` bytes.
pub open spec fn zlib_len(n: int) -> int {
    6 + stored_blocks_len(n)
}

proof fn lemma_stored_blocks_len(d: Seq<u8>, pos: int)
    requires
        0 <= pos <= d.len(),
    ensures
        stored_blocks_from(d, pos).len() == stored_blocks_len(d.len() - pos),
    decreases d.len() - pos,
{
    if d.len() - pos > 65535 {
        lemma_stored_blocks_len(d, pos + 65535);
    }
}

/// Appends one stored block carrying `d[from..to]`.
fn push_stored_block(out: &mut Vec<u8>, last: bool, d: &[u8], from: usize, to: usize)
    requires
        from <= to <= d@.len(),
        to - from <= 65535,
    ensures
        final(out)@ == old(out)@ + stored_block(last, d@.subrange(from as int, to as int)),
{
    let n = (to - from) as u16;
    out.push(if last {
        1u8
    } else {
        0u8
    });
    push_u16_le(out, n);
    push_u16_le(out, !n);
    push_bytes(out, d, from, to);
    assert(out@ =~= old(out)@ + stored_block(last, d@.subrange(from as int, to as int)));
}

/// Appends the stored blocks carrying all of `d`.
fn push_stored_blocks(out: &mut Vec<u8>, d: &[u8])
    ensures
        final(out)@ == old(out)@ + stored_blocks_from(d@, 0),
{
    let len = d.len();
    let ghost target = old(out)@ + stored_blocks_from(d@, 0);
    let mut pos: usize = 0;
    assert(old(out)@ + stored_blocks_from(d@, 0) == target);
    loop
        invariant_except_break
            pos <= len,
            len == d@.len(),
            out@ + stored_blocks_from(d@, pos as int) == target,
        ensures
            out@ == target,
        decreases len - pos,
    {
        if len - pos <= MAX_STORED_BLOCK {
            let ghost before = out@;
            push_stored_block(out, true, d, pos, len);
            assert(out@ =~= target);
            break ;
        }
        let ghost before = out@;
        push_stored_block(out, false, d, pos, pos + MAX_STORED_BLOCK);
        assert(out@ + stored_blocks_from(d@, pos + 65535) =~= before + stored_blocks_from(
            d@,
            pos as int,
        ));
        pos = pos + MAX_STORED_BLOCK;
    }
}

/// The zlib stream holding `d` in stored blocks.
pub fn zlib_store(d: &[u8]) -> (z: Vec<u8>)
    ensures
        z@ == zlib_stored(d@),
        z@.len() == zlib_len(d@.len() as int),
{
    let mut z: Vec<u8> = Vec::new();
    z.push(0x78u8);
    z.push(0x01u8);
    push_stored_blocks(&mut z, d);
    let sum = adler32_of(d);
    push_u32_be(&mut z, sum);
    proof {
        lemma_stored_blocks_len(d@, 0);
    }
    assert(z@ =~= zlib_stored(d@));
    z
}

// ---------------------------------------------------------------- chunks

/// A PNG chunk: data length, type, data, CRC-32 of type and data.
pub open spec fn png_chunk(ty: Seq<u8>, data: Seq<u8>) -> Seq<u8> {
    be_u32(data.len() as u32) + ty + data + be_u32(crc32(ty + data))
}

/// Appends a PNG chunk.
pub fn push_chunk(out: &mut Vec<u8>, ty: [u8; 4], data: &[u8])
    requires
        data@.len() <= u32::MAX,
    ensures
        final(out)@ == old(out)@ + png_chunk(ty@, data@),
{
    let mut td: Vec<u8> = Vec::new();
    td.push(ty[0]);
    td.push(ty[1]);
    td.push(ty[2]);
    td.push(ty[3]);
    push_bytes(&mut td, data, 0, data.len());
    assert(td@ =~= ty@ + data@);
    let crc = crc32_of(td.as_slice());
    push_u32_be(out, data.len() as u32);
    push_bytes(out, td.as_slice(), 0, td.len());
    push_u32_be(out, crc);
    assert(td@.subrange(0, td@.len() as int) =~= td@);
    assert(out@ =~= old(out)@ + png_chunk(ty@, data@));
}

/// PNG file signature.
pub open spec fn png_signature() -> Seq<u8> {
    seq![137u8, 80u8, 78u8, 71u8, 13u8, 10u8, 26u8, 10u8]
}

/// Chunk type `IHDR`.
pub open spec fn ihdr_type() -> Seq<u8> {
    seq![0x49u8, 0x48u8, 0x44u8, 0x52u8]
}

/// Chunk type `IDAT`.
pub open spec fn idat_type() -> Seq<u8> {
    seq![0x49u8, 0x44u8, 0x41u8, 0x54u8]
}

/// Chunk type `IEND`.
pub open spec fn iend_type() -> Seq<u8> {
    seq![0x49u8, 0x45u8, 0x4Eu8, 0x44u8]
}

/// Header data of an 8-bit RGB image, no interlacing.
pub open spec fn ihdr_data(width: u32, height: u32) -> Seq<u8> {
    be_u32(width) + be_u32(height) + seq![8u8, 2u8, 0u8, 0u8, 0u8]
}

/// The PNG file of a `width` x `height` RGB image whose filtered scanlines
/// (a filter byte, then the row's bytes) are `scanlines`.
pub open spec fn png_file(width: u32, height: u32, scanlines: Seq<u8>) -> Seq<u8> {
    png_signature() + png_chunk(ihdr_type(), ihdr_data(width, height)) + png_chunk(
        idat_type(),
        zlib_stored(scanlines),
    ) + png_chunk(iend_type(), Seq::empty())
}

/// Encodes a `width` x `height` RGB image given its filtered scanlines.
pub fn encode_png(width: u32, height: u32, scanlines: &[u8]) -> (png: Vec<u8>)
    requires
        zlib_len(scanlines@.len() as int) <= u32::MAX,
    ensures
        png@ == png_file(width, height, scanlines@),
{
    let mut out: Vec<u8> = Vec::new();
    out.push(137u8);
    out.push(80u8);
    out.push(78u8);
    out.push(71u8);
    out.push(13u8);
    out.push(10u8);
    out.push(26u8);
    out.push(10u8);
    let ghost sig = out@;
    assert(sig =~= png_signature());

    let mut ihdr: Vec<u8> = Vec::new();
    push_u32_be(&mut ihdr, width);
    push_u32_be(&mut ihdr, height);
    ihdr.push(8u8);
    ihdr.push(2u8);
    ihdr.push(0u8);
    ihdr.push(0u8);
    ihdr.push(0u8);
    assert(ihdr@ =~= ihdr_data(width, height));
    let ihdr_ty: [u8; 4] = [0x49, 0x48, 0x44, 0x52];
    assert(ihdr_ty@ =~= ihdr_type());
    push_chunk(&mut out, ihdr_ty, ihdr.as_slice());
    let ghost after_ihdr = out@;

    let z = zlib_store(scanlines);
    let idat_ty: [u8; 4] = [0x49, 0x44, 0x41, 0x54];
    assert(idat_ty@ =~= idat_type());
    push_chunk(&mut out, idat_ty, z.as_slice());
    let ghost after_idat = out@;

    let empty: Vec<u8> = Vec::new();
    let iend_ty: [u8; 4] = [0x49, 0x45, 0x4E, 0x44];
    assert(iend_ty@ =~= iend_type());
    assert(empty@ =~= Seq::<u8>::empty());
    push_chunk(&mut out, iend_ty, empty.as_slice());
    assert(out@ =~= png_file(width, height, scanlines@));
    out
}

/// Stored blocks of any data start with the final-block marker exactly
/// when the data fits one block, and a reader that concatenates the block
/// payloads gets the data back.
pub open spec fn stored_payloads_from(d: Seq<u8>, pos: int) -> Seq<u8>
    decreases d.len() - pos,
{
    if d.len() - pos <= 65535 {
        d.subrange(pos, d.len() as int)
    } else {
        d.subrange(pos, pos + 65535) + stored_payloads_from(d, pos + 65535)
    }
}

/// The payloads of the stored blocks are the data, in order: the image
/// data a PNG reader inflates is exactly the scanlines given.
pub proof fn lemma_stored_payloads_are_data(d: Seq<u8>, pos: int)
    requires
        0 <= pos <= d.len(),
    ensures
        stored_payloads_from(d, pos) == d.subrange(pos, d.len() as int),
    decreases d.len() - pos,
{
    if d.len() - pos > 65535 {
        lemma_stored_payloads_are_data(d, pos + 65535);
        assert(d.subrange(pos, pos + 65535) + d.subrange(pos + 65535, d.len() as int) =~= d.subrange(
            pos,
            d.len() as int,
        ));
    }
}

/// Reading back the four bytes written big-endian gives the `u32`.
pub proof fn lemma_be_u32_roundtrip(v: u32)
    ensures
        ((be_u32(v)[0] as u32) << 24u32) | ((be_u32(v)[1] as u32) << 16u32) | ((be_u32(v)[2] as u32)
            << 8u32) | (be_u32(v)[3] as u32) == v,
{
    let b0 = ((v >> 24u32) & 0xFF) as u8;
    let b1 = ((v >> 16u32) & 0xFF) as u8;
    let b2 = ((v >> 8u32) & 0xFF) as u8;
    let b3 = (v & 0xFF) as u8;
    assert(((b0 as u32) << 24u32) | ((b1 as u32) << 16u32) | ((b2 as u32) << 8u32) | (b3 as u32)
        == v) by (bit_vector)
        requires
            b0 == ((v >> 24u32) & 0xFF) as u8,
            b1 == ((v >> 16u32) & 0xFF) as u8,
            b2 == ((v >> 8u32) & 0xFF) as u8,
            b3 == (v & 0xFF) as u8,
    ;
}

/// The `u16` stored little-endian at `at` in `s`.
pub open spec fn read_le_u16(s: Seq<u8>, at: int) -> u16 {
    (s[at] as u16) | ((s[at + 1] as u16) << 8u16)
}

/// Reads stored deflate blocks from the start of `z` as an inflater would:
/// each block is a final flag (0 or 1), a length, its complement and that
/// many bytes; reading stops after the final block. Gives the data and what
/// follows the final block, or `None` when `z` is not such a sequence.
pub open spec fn inflate_stored(z: Seq<u8>) -> Option<(Seq<u8>, Seq<u8>)>
    decreases z.len(),
{
    if z.len() < 5 {
        None
    } else {
        let n = read_le_u16(z, 1) as int;
        if (z[0] != 0 && z[0] != 1) || read_le_u16(z, 3) != !(n as u16) || z.len() < 5 + n {
            None
        } else if z[0] == 1 {
            Some((z.subrange(5, 5 + n), z.subrange(5 + n, z.len() as int)))
        } else {
            match inflate_stored(z.subrange(5 + n, z.len() as int)) {
                Some(r) => Some((z.subrange(5, 5 + n) + r.0, r.1)),
                None => None,
            }
        }
    }
}

proof fn lemma_le_u16_read(v: u16)
    ensures
        read_le_u16(le_u16(v), 0) == v,
{
    let b0 = (v & 0xFF) as u8;
    let b1 = ((v >> 8u16) & 0xFF) as u8;
    assert((b0 as u16) | ((b1 as u16) << 8u16) == v) by (bit_vector)
        requires
            b0 == (v & 0xFF) as u8,
            b1 == ((v >> 8u16) & 0xFF) as u8,
    ;
}

/// Reading the stored blocks written for `d` (from `pos` on), followed by
/// anything, gives back exactly `d[pos..]` and leaves what follows.
pub proof fn lemma_inflate_stored_blocks(d: Seq<u8>, pos: int, tail: Seq<u8>)
    requires
        0 <= pos <= d.len(),
    ensures
        inflate_stored(stored_blocks_from(d, pos) + tail) == Some(
            (d.subrange(pos, d.len() as int), tail),
        ),
    decreases d.len() - pos,
{
    let last = d.len() - pos <= 65535;
    let end = if last { d.len() as int } else { pos + 65535 };
    let chunk = d.subrange(pos, end);
    let n = chunk.len() as int;
    let blk = stored_block(last, chunk);
    let rest = if last { Seq::<u8>::empty() } else { stored_blocks_from(d, pos + 65535) };
    let z = stored_blocks_from(d, pos) + tail;
    assert(stored_blocks_from(d, pos) == blk + rest);
    assert(z =~= blk + (rest + tail));
    lemma_le_u16_read(n as u16);
    lemma_le_u16_read(!(n as u16));
    assert(z.subrange(1, 3) =~= le_u16(n as u16));
    assert(z.subrange(3, 5) =~= le_u16(!(n as u16)));
    assert(read_le_u16(z, 1) == read_le_u16(z.subrange(1, 3), 0));
    assert(read_le_u16(z, 3) == read_le_u16(z.subrange(3, 5), 0));
    assert(z.subrange(5, 5 + n) =~= chunk);
    assert(z.subrange(5 + n, z.len() as int) =~= rest + tail);
    if last {
        assert(rest + tail =~= tail);
    } else {
        lemma_inflate_stored_blocks(d, pos + 65535, tail);
        assert(chunk + d.subrange(pos + 65535, d.len() as int) =~= d.subrange(pos, d.len() as int));
    }
}

/// The zlib stream of `d` is the deflate/32K header, stored blocks that an
/// inflater reads back as exactly `d`, and then the Adler-32 of `d`.
pub proof fn lemma_zlib_stored_reads_back(d: Seq<u8>)
    ensures
        zlib_stored(d)[0] == 0x78,
        zlib_stored(d)[1] == 0x01,
        inflate_stored(zlib_stored(d).subrange(2, zlib_stored(d).len() as int)) == Some(
            (d, be_u32(adler32(d))),
        ),
{
    let z = zlib_stored(d);
    lemma_inflate_stored_blocks(d, 0, be_u32(adler32(d)));
    assert(z.subrange(2, z.len() as int) =~= stored_blocks_from(d, 0) + be_u32(adler32(d)));
    assert(d.subrange(0, d.len() as int) =~= d);
}

/// Layout of the PNG file: the signature; the 13-byte IHDR chunk at 8
/// holding width, height, bit depth 8 and colour type 2 (RGB); the IDAT
/// chunk at 33 holding the zlib stream of the scanlines; and the empty IEND
/// chunk closing the file.
pub proof fn lemma_png_file_layout(width: u32, height: u32, scanlines: Seq<u8>)
    requires
        zlib_stored(scanlines).len() <= u32::MAX,
    ensures
        ({
            let f = png_file(width, height, scanlines);
            let z = zlib_stored(scanlines);
            let n = z.len() as int;
            &&& f.len() == 33 + 12 + n + 12
            &&& f.subrange(0, 8) == png_signature()
            &&& f.subrange(8, 12) == be_u32(13)
            &&& f.subrange(12, 16) == ihdr_type()
            &&& f.subrange(16, 20) == be_u32(width)
            &&& f.subrange(20, 24) == be_u32(height)
            &&& f.subrange(24, 29) == seq![8u8, 2u8, 0u8, 0u8, 0u8]
            &&& f.subrange(29, 33) == be_u32(crc32(f.subrange(12, 29)))
            &&& f.subrange(33, 37) == be_u32(n as u32)
            &&& f.subrange(37, 41) == idat_type()
            &&& f.subrange(41, 41 + n) == z
            &&& f.subrange(41 + n, 45 + n) == be_u32(crc32(f.subrange(37, 41 + n)))
            &&& f.subrange(45 + n, 57 + n) == be_u32(0) + iend_type() + be_u32(crc32(iend_type()))
        }),
{
    let f = png_file(width, height, scanlines);
    let z = zlib_stored(scanlines);
    let n = z.len() as int;
    let sig = png_signature();
    let ih = png_chunk(ihdr_type(), ihdr_data(width, height));
    let id = png_chunk(idat_type(), z);
    let ie = png_chunk(iend_type(), Seq::empty());
    assert(ihdr_data(width, height).len() == 13);
    assert(f == sig + ih + id + ie);
    assert(f.subrange(0, 8) =~= sig);
    assert(f.subrange(8, 33) =~= ih);
    assert(f.subrange(33, 45 + n) =~= id);
    assert(f.subrange(45 + n, 57 + n) =~= ie);
    assert(f.subrange(8, 12) =~= ih.subrange(0, 4));
    assert(f.subrange(12, 16) =~= ih.subrange(4, 8));
    assert(f.subrange(16, 20) =~= ih.subrange(8, 12));
    assert(f.subrange(20, 24) =~= ih.subrange(12, 16));
    assert(f.subrange(24, 29) =~= ih.subrange(16, 21));
    assert(f.subrange(12, 29) =~= ihdr_type() + ihdr_data(width, height));
    assert(f.subrange(29, 33) =~= ih.subrange(21, 25));
    assert(f.subrange(33, 37) =~= id.subrange(0, 4));
    assert(f.subrange(37, 41) =~= id.subrange(4, 8));
    assert(f.subrange(41, 41 + n) =~= z);
    assert(f.subrange(37, 41 + n) =~= idat_type() + z);
    assert(f.subrange(41 + n, 45 + n) =~= id.subrange(8 + n, 12 + n));
    assert(iend_type() + Seq::<u8>::empty() =~= iend_type());
    assert(ie =~= be_u32(0) + iend_type() + be_u32(crc32(iend_type())));
}

} // verus!
