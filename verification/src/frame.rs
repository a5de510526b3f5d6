//! The wire framing codec: masked, length-tiered frames over a raw byte
//! stream.
//!
//! `encode_frame` builds one complete client frame (FIN + opcode byte,
//! mask-bit + length byte with the 126 / 65536 extended-length tiers, the
//! four mask-key bytes, then the payload XORed cyclically with the key).
//! `decode_frame` is its inverse over a byte buffer and also accepts the
//! unmasked frames a server sends.

use vstd::prelude::*;

verus! {

/// Text frame opcode.
pub const OPCODE_TEXT: u8 = 0x1;

/// Close frame opcode.
pub const OPCODE_CLOSE: u8 = 0x8;

/// Ping frame opcode.
pub const OPCODE_PING: u8 = 0x9;

/// Pong frame opcode.
pub const OPCODE_PONG: u8 = 0xA;

/// The payload XORed cyclically with a four-byte mask key.
pub open spec fn spec_mask_bytes(payload: Seq<u8>, mask: Seq<u8>) -> Seq<u8> {
    Seq::new(payload.len(), |i: int| payload[i] ^ mask[i % 4])
}

/// The eight big-endian bytes of a 64-bit length.
pub open spec fn spec_be8(v: u64) -> Seq<u8> {
    seq![
        ((v >> 56) & 0xff) as u8,
        ((v >> 48) & 0xff) as u8,
        ((v >> 40) & 0xff) as u8,
        ((v >> 32) & 0xff) as u8,
        ((v >> 24) & 0xff) as u8,
        ((v >> 16) & 0xff) as u8,
        ((v >> 8) & 0xff) as u8,
        (v & 0xff) as u8,
    ]
}

/// The 64-bit value read back from eight big-endian bytes.
pub open spec fn spec_be8_val(s: Seq<u8>) -> u64 {
    ((s[0] as u64) << 56) | ((s[1] as u64) << 48) | ((s[2] as u64) << 40) | ((s[3] as u64) << 32)
        | ((s[4] as u64) << 24) | ((s[5] as u64) << 16) | ((s[6] as u64) << 8) | (s[7] as u64)
}

/// The mask-bit + length byte(s) for a client frame: one byte below 126,
/// three bytes below 65536, nine bytes above.
pub open spec fn spec_len_header(len: u64) -> Seq<u8> {
    if len < 126 {
        seq![(0x80 | len) as u8]
    } else if len < 65536 {
        seq![0xfeu8, ((len >> 8) & 0xff) as u8, (len & 0xff) as u8]
    } else {
        seq![0xffu8] + spec_be8(len)
    }
}

/// One complete masked client frame.
pub open spec fn spec_client_frame(opcode: u8, payload: Seq<u8>, mask: Seq<u8>) -> Seq<u8> {
    seq![(0x80 | opcode) as u8] + spec_len_header(payload.len() as u64) + mask + spec_mask_bytes(
        payload,
        mask,
    )
}

/// What a prefix of the byte stream parses to: `None` when more bytes are
/// needed, otherwise the opcode, the unmasked payload, and how many bytes
/// the frame occupied.
pub open spec fn spec_frame_parse(data: Seq<u8>) -> Option<(u8, Seq<u8>, int)> {
    if data.len() < 2 {
        None
    } else {
        let opcode = data[0] & 0x0f;
        let masked = (data[1] & 0x80) != 0;
        let len7 = data[1] & 0x7f;
        let hdr: Option<(int, int)> = if len7 < 126 {
            Some((len7 as int, 2))
        } else if len7 == 126 {
            if data.len() < 4 {
                None
            } else {
                Some(((((data[2] as u64) << 8) | (data[3] as u64)) as int, 4))
            }
        } else {
            if data.len() < 10 {
                None
            } else {
                Some((spec_be8_val(data.subrange(2, 10)) as int, 10))
            }
        };
        match hdr {
            None => None,
            Some((plen, len_end)) => {
                let pstart = if masked {
                    len_end + 4
                } else {
                    len_end
                };
                if data.len() < pstart + plen {
                    None
                } else {
                    let raw = data.subrange(pstart, pstart + plen);
                    let payload = if masked {
                        spec_mask_bytes(raw, data.subrange(len_end, len_end + 4))
                    } else {
                        raw
                    };
                    Some((opcode, payload, pstart + plen))
                }
            },
        }
    }
}

/// The outcome of decoding a buffered prefix of the stream.
pub enum FrameDecode {
    /// A whole frame: its opcode, its unmasked payload, and the number of
    /// bytes it occupied at the front of the buffer.
    Complete { opcode: u8, payload: Vec<u8>, consumed: usize },
    /// The buffer does not yet hold a whole frame.
    Incomplete,
}

/// Encode one masked client frame.
pub fn encode_frame(opcode: u8, payload: &[u8], mask: &[u8; 4]) -> (r: Vec<u8>)
    requires
        opcode < 16,
    ensures
        r@ == spec_client_frame(opcode, payload@, mask@),
{
    let len: usize = payload.len();
    let mut frame: Vec<u8> = Vec::new();
    frame.push(0x80 | opcode);
    if len < 126 {
        frame.push(0x80 | (len as u8));
    } else if len < 65536 {
        frame.push(0xfe);
        frame.push(((len as u64 >> 8) & 0xff) as u8);
        frame.push((len as u64 & 0xff) as u8);
    } else {
        frame.push(0xff);
        let v: u64 = len as u64;
        frame.push(((v >> 56) & 0xff) as u8);
        frame.push(((v >> 48) & 0xff) as u8);
        frame.push(((v >> 40) & 0xff) as u8);
        frame.push(((v >> 32) & 0xff) as u8);
        frame.push(((v >> 24) & 0xff) as u8);
        frame.push(((v >> 16) & 0xff) as u8);
        frame.push(((v >> 8) & 0xff) as u8);
        frame.push((v & 0xff) as u8);
    }
    frame.push(mask[0]);
    frame.push(mask[1]);
    frame.push(mask[2]);
    frame.push(mask[3]);
    assert(frame@ =~= seq![(0x80 | opcode) as u8] + spec_len_header(payload@.len() as u64)
        + mask@);
    let ghost hdr = frame@;
    let mut i: usize = 0;
    while i < len
        invariant
            len == payload@.len(),
            i <= len,
            mask@.len() == 4,
            frame@ == hdr + spec_mask_bytes(payload@.subrange(0, i as int), mask@),
        decreases len - i,
    {
        assert(spec_mask_bytes(payload@.subrange(0, i + 1), mask@) =~= spec_mask_bytes(
            payload@.subrange(0, i as int),
            mask@,
        ) + seq![(payload@[i as int] ^ mask@[(i as int) % 4]) as u8]);
        let mi: usize = i % 4;
        frame.push(payload[i] ^ mask[mi]);
        i += 1;
    }
    assert(payload@.subrange(0, len as int) =~= payload@);
    frame
}

/// Decode one frame from the front of a buffer.
pub fn decode_frame(data: &[u8]) -> (r: FrameDecode)
    ensures
        match r {
            FrameDecode::Complete { opcode, payload, consumed } => spec_frame_parse(data@)
                == Some((opcode, payload@, consumed as int)),
            FrameDecode::Incomplete => spec_frame_parse(data@) is None,
        },
{
    if data.len() < 2 {
        return FrameDecode::Incomplete;
    }
    let opcode: u8 = data[0] & 0x0f;
    let masked: bool = (data[1] & 0x80) != 0;
    let len7: u8 = data[1] & 0x7f;
    let plen64: u64;
    let len_end: usize;
    if len7 < 126 {
        plen64 = len7 as u64;
        len_end = 2;
    } else if len7 == 126 {
        if data.len() < 4 {
            return FrameDecode::Incomplete;
        }
        plen64 = ((data[2] as u64) << 8) | (data[3] as u64);
        len_end = 4;
    } else {
        if data.len() < 10 {
            return FrameDecode::Incomplete;
        }
        plen64 = ((data[2] as u64) << 56) | ((data[3] as u64) << 48) | ((data[4] as u64) << 40) | (
        (data[5] as u64) << 32) | ((data[6] as u64) << 24) | ((data[7] as u64) << 16) | ((
        data[8] as u64) << 8) | (data[9] as u64);
        len_end = 10;
        assert(data@.subrange(2, 10) =~= seq![
            data@[2], data@[3], data@[4], data@[5], data@[6], data@[7], data@[8], data@[9],
        ]);
    }
    let pstart: usize = if masked {
        len_end + 4
    } else {
        len_end
    };
    if plen64 > (usize::MAX - pstart) as u64 {
        // The buffer can never hold that many bytes.
        return FrameDecode::Incomplete;
    }
    let plen: usize = plen64 as usize;
    if data.len() < pstart + plen {
        return FrameDecode::Incomplete;
    }
    let ghost raw = data@.subrange(pstart as int, pstart + plen);
    let dlen: usize = data.len();
    let mut payload: Vec<u8> = Vec::new();
    if masked {
        let mask: [u8; 4] = [data[len_end], data[len_end + 1], data[len_end + 2], data[len_end
            + 3]];
        assert(mask@ =~= data@.subrange(len_end as int, len_end + 4));
        let mut i: usize = 0;
        while i < plen
            invariant
                i <= plen,
                dlen == data@.len(),
                pstart + plen <= data@.len(),
                mask@ == data@.subrange(len_end as int, len_end + 4),
                len_end + 4 == pstart,
                raw == data@.subrange(pstart as int, pstart + plen),
                payload@ == spec_mask_bytes(raw.subrange(0, i as int), mask@),
            decreases plen - i,
        {
            assert(spec_mask_bytes(raw.subrange(0, i + 1), mask@) =~= spec_mask_bytes(
                raw.subrange(0, i as int),
                mask@,
            ) + seq![(raw[i as int] ^ mask@[(i as int) % 4]) as u8]);
            let mi: usize = i % 4;
            payload.push(data[pstart + i] ^ mask[mi]);
            i += 1;
        }
        assert(raw.subrange(0, plen as int) =~= raw);
        assert(payload@ =~= spec_mask_bytes(raw, data@.subrange(len_end as int, len_end + 4)));
    } else {
        let mut i: usize = 0;
        while i < plen
            invariant
                i <= plen,
                dlen == data@.len(),
                pstart + plen <= data@.len(),
                raw == data@.subrange(pstart as int, pstart + plen),
                payload@ == raw.subrange(0, i as int),
            decreases plen - i,
        {
            assert(raw.subrange(0, i + 1) =~= raw.subrange(0, i as int) + seq![raw[i as int]]);
            payload.push(data[pstart + i]);
            i += 1;
        }
        assert(raw.subrange(0, plen as int) =~= raw);
    }
    FrameDecode::Complete { opcode, payload, consumed: pstart + plen }
}

/// A masked control frame with an empty payload and an all-zero mask key,
/// as sent for pong and close.
pub fn control_frame(opcode: u8) -> (r: Vec<u8>)
    requires
        opcode < 16,
    ensures
        r@ == spec_client_frame(opcode, Seq::<u8>::empty(), seq![0u8, 0u8, 0u8, 0u8]),
{
    let mut frame: Vec<u8> = Vec::new();
    frame.push(0x80 | opcode);
    frame.push(0x80);
    frame.push(0);
    frame.push(0);
    frame.push(0);
    frame.push(0);
    assert(spec_mask_bytes(Seq::<u8>::empty(), seq![0u8, 0u8, 0u8, 0u8]) =~= Seq::<u8>::empty());
    assert((0x80u64 | 0u64) as u8 == 0x80u8) by (bit_vector);
    assert(frame@ =~= spec_client_frame(opcode, Seq::<u8>::empty(), seq![0u8, 0u8, 0u8, 0u8]));
    frame
}

/// Masking is an involution: applying the same key twice gives the
/// payload back.
pub proof fn lemma_mask_involution(payload: Seq<u8>, mask: Seq<u8>)
    requires
        mask.len() == 4,
    ensures
        spec_mask_bytes(spec_mask_bytes(payload, mask), mask) =~= payload,
{
    assert forall|i: int| 0 <= i < payload.len() implies spec_mask_bytes(
        spec_mask_bytes(payload, mask),
        mask,
    )[i] == payload[i] by {
        let p = payload[i];
        let m = mask[i % 4];
        assert((p ^ m) ^ m == p) by (bit_vector);
    }
}

/// Round trip: a frame built by the encoder parses back to exactly the
/// payload it was built from, consuming exactly the frame.
pub proof fn lemma_frame_round_trip(opcode: u8, payload: Seq<u8>, mask: Seq<u8>)
    requires
        opcode < 16,
        mask.len() == 4,
        payload.len() <= u64::MAX,
    ensures
        spec_frame_parse(spec_client_frame(opcode, payload, mask)) == Some(
            (opcode, payload, spec_client_frame(opcode, payload, mask).len() as int),
        ),
{
    let frame = spec_client_frame(opcode, payload, mask);
    let len: u64 = payload.len() as u64;
    let lh = spec_len_header(len);
    assert(frame[0] == (0x80 | opcode) as u8);
    assert((0x80u8 | opcode) & 0x0f == opcode) by (bit_vector)
        requires
            opcode < 16,
    ;
    assert(((0x80u8 | opcode) & 0x80) != 0) by (bit_vector);
    if len < 126 {
        assert(frame[1] == (0x80 | len) as u8);
        assert((0x80u64 | len) as u8 & 0x80u8 != 0) by (bit_vector)
            requires
                len < 126,
        ;
        assert(((0x80u64 | len) as u8 & 0x7f) as u64 == len && (0x80u64 | len) as u8 & 0x7f
            < 126) by (bit_vector)
            requires
                len < 126,
        ;
        let pstart = 6int;
        assert(frame.len() == 6 + payload.len());
        assert(frame.subrange(2, 6) =~= mask);
        assert(frame.subrange(pstart, pstart + len as int) =~= spec_mask_bytes(payload, mask));
        lemma_mask_involution(payload, mask);
        assert(spec_mask_bytes(spec_mask_bytes(payload, mask), mask) =~= payload);
    } else if len < 65536 {
        assert(lh == seq![0xfeu8, ((len >> 8) & 0xff) as u8, (len & 0xff) as u8]);
        assert(frame[1] == 0xfeu8);
        assert(0xfeu8 & 0x80 != 0 && 0xfeu8 & 0x7f == 126) by (bit_vector);
        assert(frame[2] == ((len >> 8) & 0xff) as u8 && frame[3] == (len & 0xff) as u8);
        assert(((((len >> 8) & 0xff) as u8 as u64) << 8) | ((len & 0xff) as u8 as u64)
            == len) by (bit_vector)
            requires
                len < 65536,
        ;
        let pstart = 8int;
        assert(frame.len() == 8 + payload.len());
        assert(frame.subrange(4, 8) =~= mask);
        assert(frame.subrange(pstart, pstart + len as int) =~= spec_mask_bytes(payload, mask));
        lemma_mask_involution(payload, mask);
    } else {
        assert(lh == seq![0xffu8] + spec_be8(len));
        assert(frame[1] == 0xffu8);
        assert(0xffu8 & 0x80 != 0 && 0xffu8 & 0x7f == 127 && !(0xffu8 & 0x7f < 126)) by (bit_vector);
        assert(frame.subrange(2, 10) =~= spec_be8(len));
        assert(spec_be8_val(spec_be8(len)) == len) by {
            assert((((((len >> 56) & 0xff) as u8 as u64) << 56) | ((((len >> 48) & 0xff) as u8
                as u64) << 48) | ((((len >> 40) & 0xff) as u8 as u64) << 40) | ((((len >> 32)
                & 0xff) as u8 as u64) << 32) | ((((len >> 24) & 0xff) as u8 as u64) << 24) | ((((
            len >> 16) & 0xff) as u8 as u64) << 16) | ((((len >> 8) & 0xff) as u8 as u64) << 8) | ((
            len & 0xff) as u8 as u64)) == len) by (bit_vector);
        }
        let pstart = 14int;
        assert(frame.len() == 14 + payload.len());
        assert(frame.subrange(10, 14) =~= mask);
        assert(frame.subrange(pstart, pstart + len as int) =~= spec_mask_bytes(payload, mask));
        lemma_mask_involution(payload, mask);
    }
}

} // verus!
