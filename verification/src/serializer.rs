//! The wire codec: a data message is carried as one frame of bytes with
//! SOH/STX/ETX sentinels, a variable-length header, an 8-byte big-endian
//! payload length and an XOR checksum.
//!
//! The frame layout, with `n` the origin length, `m` the remote length and
//! `k` the payload length:
//!
//! ```text
//! offset    bytes  field
//!   0         1    SOH = 0x01
//!   1         1    version = 0x01
//!   2         1    origin length (n)
//!   3         n    origin bytes
//!   3+n       1    remote length (m)
//!   4+n       m    remote bytes
//!   4+n+m     1    ttl
//!   5+n+m     8    payload length (big-endian u64)
//!   13+n+m    1    options byte
//!   14+n+m    1    checksum byte (0 when ICK is set)
//!   15+n+m    1    STX = 0x02
//!   16+n+m    k    payload
//!   16+n+m+k  1    ETX = 0x03
//! ```
//!
//! The checksum is the XOR of every frame byte with the checksum byte itself
//! taken as zero. When ICK is set the checksum byte is written as zero and not
//! verified on decode.

use vstd::prelude::*;

use crate::message::{MessageView, OctopipesMessage};
use crate::options::{OctopipesOptions, OPTION_ICK};
use crate::{OctopipesError, OctopipesProtocolVersion};

verus! {

/// Start-of-header sentinel.
pub const SOH: u8 = 0x01;

/// Start-of-payload sentinel.
pub const STX: u8 = 0x02;

/// End-of-frame sentinel.
pub const ETX: u8 = 0x03;

/// The size of a frame with empty origin, remote and payload.
pub const MINIMUM_SIZE_VERSION_1: usize = 17;

/// Byte `i` (0 = most significant) of the 8-byte big-endian length field.
pub open spec fn be_byte(n: u64, i: int) -> u8 {
    ((n >> (((7 - i) * 8) as u64)) & 0xFF) as u8
}

/// The 8 bytes of the length field, most significant first.
pub open spec fn be_bytes(n: u64) -> Seq<u8> {
    Seq::new(8, |i| be_byte(n, i))
}

/// Reading a big-endian length field back, first byte most significant.
pub open spec fn be_fold(s: Seq<u8>) -> u64
    decreases s.len(),
{
    if s.len() == 0 {
        0
    } else {
        (be_fold(s.drop_last()) << 8) | (s.last() as u64)
    }
}

/// Folding the bytes that a length was written as gives the length back.
pub proof fn lemma_be_roundtrip(n: u64)
    ensures
        be_fold(be_bytes(n)) == n,
{
    let s = be_bytes(n);
    let s0 = Seq::<u8>::empty();
    let s1 = s.take(1);
    let s2 = s.take(2);
    let s3 = s.take(3);
    let s4 = s.take(4);
    let s5 = s.take(5);
    let s6 = s.take(6);
    let s7 = s.take(7);
    assert(s1.drop_last() =~= s0);
    assert(s2.drop_last() =~= s1);
    assert(s3.drop_last() =~= s2);
    assert(s4.drop_last() =~= s3);
    assert(s5.drop_last() =~= s4);
    assert(s6.drop_last() =~= s5);
    assert(s7.drop_last() =~= s6);
    assert(s.drop_last() =~= s7);
    assert(s1.last() == be_byte(n, 0));
    assert(s2.last() == be_byte(n, 1));
    assert(s3.last() == be_byte(n, 2));
    assert(s4.last() == be_byte(n, 3));
    assert(s5.last() == be_byte(n, 4));
    assert(s6.last() == be_byte(n, 5));
    assert(s7.last() == be_byte(n, 6));
    assert(s.last() == be_byte(n, 7));
    let b0 = be_byte(n, 0);
    let b1 = be_byte(n, 1);
    let b2 = be_byte(n, 2);
    let b3 = be_byte(n, 3);
    let b4 = be_byte(n, 4);
    let b5 = be_byte(n, 5);
    let b6 = be_byte(n, 6);
    let b7 = be_byte(n, 7);
    let acc = (((((((((((((((0u64 << 8) | (b0 as u64)) << 8) | (b1 as u64)) << 8) | (b2 as u64))
        << 8) | (b3 as u64)) << 8) | (b4 as u64)) << 8) | (b5 as u64)) << 8) | (b6 as u64)) << 8)
        | (b7 as u64);
    assert(be_fold(s0) == 0);
    assert(s1.len() == 1 && s2.len() == 2 && s3.len() == 3 && s4.len() == 4 && s5.len() == 5
        && s6.len() == 6 && s7.len() == 7 && s.len() == 8);
    assert(be_fold(s1) == (0u64 << 8) | (b0 as u64));
    assert(be_fold(s2) == (be_fold(s1) << 8) | (b1 as u64));
    assert(be_fold(s3) == (be_fold(s2) << 8) | (b2 as u64));
    assert(be_fold(s4) == (be_fold(s3) << 8) | (b3 as u64));
    assert(be_fold(s5) == (be_fold(s4) << 8) | (b4 as u64));
    assert(be_fold(s6) == (be_fold(s5) << 8) | (b5 as u64));
    assert(be_fold(s7) == (be_fold(s6) << 8) | (b6 as u64));
    assert(be_fold(s) == (be_fold(s7) << 8) | (b7 as u64));
    assert(be_fold(s) == acc);
    assert(acc == n) by (bit_vector)
        requires
            b0 == ((n >> 56) & 0xFF) as u8,
            b1 == ((n >> 48) & 0xFF) as u8,
            b2 == ((n >> 40) & 0xFF) as u8,
            b3 == ((n >> 32) & 0xFF) as u8,
            b4 == ((n >> 24) & 0xFF) as u8,
            b5 == ((n >> 16) & 0xFF) as u8,
            b6 == ((n >> 8) & 0xFF) as u8,
            b7 == ((n >> 0) & 0xFF) as u8,
            acc == (((((((((((((((0u64 << 8) | (b0 as u64)) << 8) | (b1 as u64)) << 8) | (
            b2 as u64)) << 8) | (b3 as u64)) << 8) | (b4 as u64)) << 8) | (b5 as u64)) << 8) | (
            b6 as u64)) << 8) | (b7 as u64),
    ;
}

/// The XOR of all bytes of a sequence.
pub open spec fn xor_fold(s: Seq<u8>) -> u8
    decreases s.len(),
{
    if s.len() == 0 {
        0
    } else {
        xor_fold(s.drop_last()) ^ s.last()
    }
}

/// Replacing one byte changes the XOR of the sequence by the old and the new
/// byte.
pub proof fn lemma_xor_update(s: Seq<u8>, i: int, b: u8)
    requires
        0 <= i < s.len(),
    ensures
        xor_fold(s.update(i, b)) == (xor_fold(s) ^ s[i]) ^ b,
    decreases s.len(),
{
    let t = s.update(i, b);
    if i == s.len() - 1 {
        assert(t.drop_last() =~= s.drop_last());
        let x = xor_fold(s.drop_last());
        let a = s.last();
        assert(x ^ b == ((x ^ a) ^ a) ^ b) by (bit_vector);
    } else {
        assert(t.drop_last() =~= s.drop_last().update(i, b));
        lemma_xor_update(s.drop_last(), i, b);
        let p = xor_fold(s.drop_last());
        let q = s[i];
        let t2 = s.last();
        assert(((p ^ q) ^ b) ^ t2 == ((p ^ t2) ^ q) ^ b) by (bit_vector);
    }
}

/// Two sequences differing in exactly one byte have different XOR folds.
pub proof fn lemma_xor_differs(s: Seq<u8>, i: int, b: u8)
    requires
        0 <= i < s.len(),
        b != s[i],
    ensures
        xor_fold(s.update(i, b)) != xor_fold(s),
{
    lemma_xor_update(s, i, b);
    let x = xor_fold(s);
    let a = s[i];
    assert(a != b ==> (x ^ a) ^ b != x) by (bit_vector);
}

/// Whether the ICK bit is set in an option byte.
pub open spec fn ick_set(options: u8) -> bool {
    options & OPTION_ICK != 0
}

/// The length of the frame of a message.
pub open spec fn frame_len(v: MessageView) -> int {
    17 + v.origin.len() as int + v.remote.len() as int + v.data.len() as int
}

/// The byte at offset `i` of the frame of `v`, with `ck` as the checksum byte.
pub open spec fn frame_byte(v: MessageView, ck: u8, i: int) -> u8 {
    let o = v.origin.len() as int;
    let r = v.remote.len() as int;
    let k = v.data.len() as int;
    if i == 0 {
        SOH
    } else if i == 1 {
        1u8
    } else if i == 2 {
        o as u8
    } else if i < 3 + o {
        v.origin[i - 3]
    } else if i == 3 + o {
        r as u8
    } else if i < 4 + o + r {
        v.remote[i - 4 - o]
    } else if i == 4 + o + r {
        v.ttl
    } else if i < 13 + o + r {
        be_byte(k as u64, i - 5 - o - r)
    } else if i == 13 + o + r {
        v.options
    } else if i == 14 + o + r {
        ck
    } else if i == 15 + o + r {
        STX
    } else if i < 16 + o + r + k {
        v.data[i - 16 - o - r]
    } else {
        ETX
    }
}

/// The frame of `v` with `ck` as the checksum byte.
pub open spec fn frame_with_ck(v: MessageView, ck: u8) -> Seq<u8> {
    Seq::new(frame_len(v) as nat, |i| frame_byte(v, ck, i))
}

/// The checksum of a message: the XOR of its frame with the checksum byte
/// taken as zero.
pub open spec fn checksum_spec(v: MessageView) -> u8 {
    xor_fold(frame_with_ck(v, 0))
}

/// The frame a message is encoded as: the checksum byte is zero when ICK is
/// set and the real checksum otherwise.
pub open spec fn frame_bytes(v: MessageView) -> Seq<u8> {
    frame_with_ck(
        v,
        if ick_set(v.options) {
            0
        } else {
            checksum_spec(v)
        },
    )
}

/// A message the codec can carry exactly: names of at most 255 bytes, only
/// the three known option bits, and a frame that fits in memory.
pub open spec fn msg_wf(v: MessageView) -> bool {
    &&& v.origin.len() <= 255
    &&& v.remote.len() <= 255
    &&& v.options < 8
    &&& frame_len(v) <= usize::MAX
}

/// What decoding a byte sequence yields: the message view read from a valid
/// frame, or the error that the malformation earns. `BadPacket` names a
/// structural fault, `UnsupportedVersion` a version byte other than 1, and
/// `BadChecksum` a checksum mismatch with ICK clear.
pub open spec fn decode_spec(d: Seq<u8>) -> Result<MessageView, OctopipesError> {
    if d.len() < 2 {
        Err(OctopipesError::BadPacket)
    } else if d[0] != SOH {
        Err(OctopipesError::BadPacket)
    } else if d[1] != 1 {
        Err(OctopipesError::UnsupportedVersion)
    } else if d.len() < 17 {
        Err(OctopipesError::BadPacket)
    } else {
        let o = d[2] as int;
        if d.len() < 17 + o {
            Err(OctopipesError::BadPacket)
        } else {
            let r = d[3 + o] as int;
            if d.len() < 17 + o + r {
                Err(OctopipesError::BadPacket)
            } else {
                let k = be_fold(d.subrange(5 + o + r, 13 + o + r)) as int;
                if d[15 + o + r] != STX {
                    Err(OctopipesError::BadPacket)
                } else if 16 + o + r + k >= d.len() {
                    Err(OctopipesError::BadPacket)
                } else if d[16 + o + r + k] != ETX {
                    Err(OctopipesError::BadPacket)
                } else {
                    let v = MessageView {
                        origin: d.subrange(3, 3 + o),
                        remote: d.subrange(4 + o, 4 + o + r),
                        ttl: d[4 + o + r],
                        options: d[13 + o + r] & 7,
                        data: d.subrange(16 + o + r, 16 + o + r + k),
                    };
                    if !ick_set(v.options) && d[14 + o + r] != checksum_spec(v) {
                        Err(OctopipesError::BadChecksum)
                    } else {
                        Ok(v)
                    }
                }
            }
        }
    }
}

/// Computes the checksum of a message: the XOR of every byte of its frame,
/// with the checksum byte taken as zero.
pub fn calculate_checksum(message: &OctopipesMessage) -> (r: u8)
    requires
        message@.origin.len() <= 255,
        message@.remote.len() <= 255,
    ensures
        r == checksum_spec(message@),
{
    let ghost v = message@;
    let ghost f = frame_with_ck(v, 0);
    let origin = message.get_origin_bytes();
    let remote = message.get_remote_bytes();
    let data = message.get_data();
    let olen = origin.len();
    let rlen = remote.len();
    let mut checksum: u8 = 0;
    assert(f.take(0) =~= Seq::<u8>::empty());
    assert(checksum == xor_fold(f.take(0)));
    checksum = checksum ^ SOH;
    assert(f.take(1).drop_last() =~= f.take(0));
    assert(f[0] == SOH);
    assert(checksum == xor_fold(f.take(1)));
    checksum = checksum ^ 1u8;
    assert(f.take(2).drop_last() =~= f.take(1));
    assert(f[1] == 1u8);
    assert(checksum == xor_fold(f.take(2)));
    checksum = checksum ^ (olen as u8);
    assert(f.take(3).drop_last() =~= f.take(2));
    assert(f[2] == olen as u8);
    assert(checksum == xor_fold(f.take(3)));
    let mut i: usize = 0;
    while i < olen
        invariant
            i <= olen,
            olen == v.origin.len(),
            origin@ == v.origin,
            f == frame_with_ck(v, 0),
            checksum == xor_fold(f.take(3 + i)),
        decreases olen - i,
    {
        assert(f.take(3 + i + 1).drop_last() =~= f.take(3 + i));
        assert(f[3 + i] == v.origin[i as int]);
        checksum = checksum ^ origin[i];
        i = i + 1;
    }
    checksum = checksum ^ (rlen as u8);
    assert(f.take(4 + olen).drop_last() =~= f.take(3 + olen));
    assert(f[3 + olen] == rlen as u8);
    assert(checksum == xor_fold(f.take(4 + olen)));
    let mut i: usize = 0;
    while i < rlen
        invariant
            i <= rlen,
            olen == v.origin.len(),
            rlen == v.remote.len(),
            remote@ == v.remote,
            f == frame_with_ck(v, 0),
            checksum == xor_fold(f.take(4 + olen + i)),
        decreases rlen - i,
    {
        assert(f.take(4 + olen + i + 1).drop_last() =~= f.take(4 + olen + i));
        assert(f[4 + olen + i] == v.remote[i as int]);
        checksum = checksum ^ remote[i];
        i = i + 1;
    }
    checksum = checksum ^ message.get_ttl();
    assert(f.take(5 + olen + rlen).drop_last() =~= f.take(4 + olen + rlen));
    assert(f[4 + olen + rlen] == v.ttl);
    assert(checksum == xor_fold(f.take(5 + olen + rlen)));
    let payload_size: u64 = data.len() as u64;
    let mut i: usize = 0;
    while i < 8
        invariant
            i <= 8,
            olen == v.origin.len(),
            rlen == v.remote.len(),
            payload_size == v.data.len() as u64,
            f == frame_with_ck(v, 0),
            checksum == xor_fold(f.take(5 + olen + rlen + i)),
        decreases 8 - i,
    {
        let shift: u64 = ((7 - i) * 8) as u64;
        let val: u8 = ((payload_size >> shift) & 0xFF) as u8;
        assert(val == be_byte(v.data.len() as u64, i as int));
        assert(f.take(5 + olen + rlen + i + 1).drop_last() =~= f.take(5 + olen + rlen + i));
        assert(f[5 + olen + rlen + i] == be_byte(v.data.len() as u64, i as int));
        checksum = checksum ^ val;
        i = i + 1;
    }
    checksum = checksum ^ message.get_options().bits();
    assert(f.take(14 + olen + rlen).drop_last() =~= f.take(13 + olen + rlen));
    assert(f[13 + olen + rlen] == v.options);
    assert(checksum == xor_fold(f.take(14 + olen + rlen)));
    // the checksum byte itself counts as zero, which leaves the XOR unchanged
    assert(f.take(15 + olen + rlen).drop_last() =~= f.take(14 + olen + rlen));
    assert(f[14 + olen + rlen] == 0);
    proof {
        lemma_xor_zero(checksum);
    }
    assert(checksum == xor_fold(f.take(15 + olen + rlen)));
    checksum = checksum ^ STX;
    assert(f.take(16 + olen + rlen).drop_last() =~= f.take(15 + olen + rlen));
    assert(f[15 + olen + rlen] == STX);
    assert(checksum == xor_fold(f.take(16 + olen + rlen)));
    let mut i: usize = 0;
    while i < data.len()
        invariant
            i <= data.len(),
            olen == v.origin.len(),
            rlen == v.remote.len(),
            data@ == v.data,
            f == frame_with_ck(v, 0),
            checksum == xor_fold(f.take(16 + olen + rlen + i)),
        decreases data.len() - i,
    {
        assert(f.take(16 + olen + rlen + i + 1).drop_last() =~= f.take(16 + olen + rlen + i));
        assert(f[16 + olen + rlen + i] == v.data[i as int]);
        checksum = checksum ^ data[i];
        i = i + 1;
    }
    checksum = checksum ^ ETX;
    proof {
        let n = 16 + olen + rlen + v.data.len() as int;
        assert(f.take(n + 1).drop_last() =~= f.take(n));
        assert(f[n] == ETX);
        assert(checksum == xor_fold(f.take(n + 1)));
        assert(f.take(n + 1) =~= f);
    }
    checksum
}

/// Encodes a message as its frame. Encoding never fails for a well-formed
/// message; the `Result` stands for callers that hand the outcome on.
pub fn encode_message(message: &OctopipesMessage) -> (r: Result<Vec<u8>, OctopipesError>)
    requires
        msg_wf(message@),
    ensures
        r matches Ok(d) && d@ == frame_bytes(message@),
{
    let ghost v = message@;
    let ghost f = frame_with_ck(v, 0);
    let origin = message.get_origin_bytes();
    let remote = message.get_remote_bytes();
    let data = message.get_data();
    let olen = origin.len();
    let rlen = remote.len();
    let data_size: usize = MINIMUM_SIZE_VERSION_1 + olen + rlen + data.len();
    let mut out: Vec<u8> = Vec::with_capacity(data_size);
    out.push(SOH);
    assert(out@ =~= f.take(1));
    out.push(message.get_version().to_u8());
    assert(out@ =~= f.take(2));
    out.push(olen as u8);
    assert(out@ =~= f.take(3));
    let mut i: usize = 0;
    while i < olen
        invariant
            i <= olen,
            olen == v.origin.len(),
            origin@ == v.origin,
            f == frame_with_ck(v, 0),
            out@ == f.take(3 + i),
        decreases olen - i,
    {
        out.push(origin[i]);
        assert(out@ =~= f.take(3 + i + 1));
        i = i + 1;
    }
    out.push(rlen as u8);
    assert(out@ =~= f.take(4 + olen));
    let mut i: usize = 0;
    while i < rlen
        invariant
            i <= rlen,
            olen == v.origin.len(),
            rlen == v.remote.len(),
            remote@ == v.remote,
            f == frame_with_ck(v, 0),
            out@ == f.take(4 + olen + i),
        decreases rlen - i,
    {
        out.push(remote[i]);
        assert(out@ =~= f.take(4 + olen + i + 1));
        i = i + 1;
    }
    out.push(message.get_ttl());
    assert(out@ =~= f.take(5 + olen + rlen));
    let payload_size: u64 = data.len() as u64;
    let mut i: usize = 0;
    while i < 8
        invariant
            i <= 8,
            olen == v.origin.len(),
            rlen == v.remote.len(),
            payload_size == v.data.len() as u64,
            f == frame_with_ck(v, 0),
            out@ == f.take(5 + olen + rlen + i),
        decreases 8 - i,
    {
        let shift: u64 = ((7 - i) * 8) as u64;
        let val: u8 = ((payload_size >> shift) & 0xFF) as u8;
        assert(val == be_byte(v.data.len() as u64, i as int));
        out.push(val);
        assert(out@ =~= f.take(5 + olen + rlen + i + 1));
        i = i + 1;
    }
    out.push(message.get_options().bits());
    assert(out@ =~= f.take(14 + olen + rlen));
    let checksum_index = out.len();
    out.push(0);
    assert(out@ =~= f.take(15 + olen + rlen));
    out.push(STX);
    assert(out@ =~= f.take(16 + olen + rlen));
    let mut i: usize = 0;
    while i < data.len()
        invariant
            i <= data.len(),
            olen == v.origin.len(),
            rlen == v.remote.len(),
            data@ == v.data,
            f == frame_with_ck(v, 0),
            out@ == f.take(16 + olen + rlen + i),
        decreases data.len() - i,
    {
        out.push(data[i]);
        assert(out@ =~= f.take(16 + olen + rlen + i + 1));
        i = i + 1;
    }
    out.push(ETX);
    assert(out@ =~= f);
    if !message.isset_option(OctopipesOptions::ick()) {
        let checksum = calculate_checksum(message);
        out[checksum_index] = checksum;
        assert(out@ =~= frame_with_ck(v, checksum_spec(v)));
    }
    Ok(out)
}

/// Decodes a byte sequence into a message, or the error that its malformation
/// earns, exactly as `decode_spec` says. Decoding never panics, whatever the
/// input bytes.
pub fn decode_message(data: Vec<u8>) -> (r: Result<OctopipesMessage, OctopipesError>)
    ensures
        r matches Ok(m) ==> decode_spec(data@) == Ok::<MessageView, OctopipesError>(m@)
            && m.spec_version() == OctopipesProtocolVersion::Version1 && msg_wf(m@),
        r matches Err(e) ==> decode_spec(data@) == Err::<MessageView, OctopipesError>(e),
{
    let ghost d = data@;
    if data.len() < 2 {
        return Err(OctopipesError::BadPacket);
    }
    if data[0] != SOH {
        return Err(OctopipesError::BadPacket);
    }
    let version: OctopipesProtocolVersion = match OctopipesProtocolVersion::from_u8(data[1]) {
        None => {
            return Err(OctopipesError::UnsupportedVersion);
        },
        Some(ver) => ver,
    };
    if data.len() < MINIMUM_SIZE_VERSION_1 {
        return Err(OctopipesError::BadPacket);
    }
    let olen: usize = data[2] as usize;
    if data.len() < 17 + olen {
        return Err(OctopipesError::BadPacket);
    }
    let mut origin: Vec<u8> = Vec::new();
    let mut i: usize = 0;
    while i < olen
        invariant
            i <= olen,
            olen <= 255,
            data@ == d,
            d.len() >= 17 + olen,
            origin@ == d.subrange(3, 3 + i),
        decreases olen - i,
    {
        origin.push(data[3 + i]);
        assert(origin@ =~= d.subrange(3, 3 + i + 1));
        i = i + 1;
    }
    let rlen: usize = data[3 + olen] as usize;
    if data.len() < 17 + olen + rlen {
        return Err(OctopipesError::BadPacket);
    }
    let mut remote: Vec<u8> = Vec::new();
    let mut i: usize = 0;
    while i < rlen
        invariant
            i <= rlen,
            olen <= 255,
            rlen <= 255,
            data@ == d,
            d.len() >= 17 + olen + rlen,
            remote@ == d.subrange(4 + olen, 4 + olen + i),
        decreases rlen - i,
    {
        remote.push(data[4 + olen + i]);
        assert(remote@ =~= d.subrange(4 + olen, 4 + olen + i + 1));
        i = i + 1;
    }
    let ttl: u8 = data[4 + olen + rlen];
    let mut data_size: u64 = 0;
    let mut i: usize = 0;
    assert(d.subrange(5 + olen + rlen, 5 + olen + rlen) =~= Seq::<u8>::empty());
    while i < 8
        invariant
            i <= 8,
            olen <= 255,
            rlen <= 255,
            data@ == d,
            d.len() >= 17 + olen + rlen,
            data_size == be_fold(d.subrange(5 + olen + rlen, 5 + olen + rlen + i)),
        decreases 8 - i,
    {
        proof {
            let lo = 5 + olen + rlen;
            assert(d.subrange(lo as int, lo + i + 1).drop_last() =~= d.subrange(
                lo as int,
                lo + i,
            ));
            assert(d.subrange(lo as int, lo + i + 1).last() == d[lo + i]);
        }
        data_size = (data_size << 8u64) | (data[5 + olen + rlen + i] as u64);
        i = i + 1;
    }
    assert(data_size == be_fold(d.subrange(5 + olen + rlen, 13 + olen + rlen)));
    let options: OctopipesOptions = OctopipesOptions::from_u8(data[13 + olen + rlen]);
    let checksum: u8 = data[14 + olen + rlen];
    if data[15 + olen + rlen] != STX {
        return Err(OctopipesError::BadPacket);
    }
    let base: usize = 16 + olen + rlen;
    if data_size >= (data.len() - base) as u64 {
        return Err(OctopipesError::BadPacket);
    }
    let ksize: usize = data_size as usize;
    if data[base + ksize] != ETX {
        return Err(OctopipesError::BadPacket);
    }
    let mut payload: Vec<u8> = Vec::new();
    let mut i: usize = 0;
    while i < ksize
        invariant
            i <= ksize,
            data@ == d,
            base == 16 + olen + rlen,
            base + ksize < d.len(),
            d.len() <= usize::MAX,
            payload@ == d.subrange(base as int, base + i),
        decreases ksize - i,
    {
        payload.push(data[base + i]);
        assert(payload@ =~= d.subrange(base as int, base + i + 1));
        i = i + 1;
    }
    let message = OctopipesMessage::from_bytes(version, origin, remote, ttl, options, payload);
    let ghost v = MessageView {
        origin: d.subrange(3, 3 + olen),
        remote: d.subrange(4 + olen, 4 + olen + rlen),
        ttl: d[4 + olen + rlen],
        options: d[13 + olen + rlen] & 7,
        data: d.subrange(16 + olen + rlen, 16 + olen + rlen + ksize),
    };
    assert(message@ =~= v);
    proof {
        let ob = d[13 + olen + rlen];
        assert(ob & 7 < 8) by (bit_vector);
        assert(frame_len(v) <= d.len());
    }
    if !message.isset_option(OctopipesOptions::ick()) {
        let computed = calculate_checksum(&message);
        if checksum != computed {
            return Err(OctopipesError::BadChecksum);
        }
    }
    Ok(message)
}

/// Round-trip identity: the frame of any well-formed message with ICK clear
/// decodes back to that message, checksum byte included.
pub proof fn lemma_round_trip(v: MessageView)
    requires
        msg_wf(v),
        !ick_set(v.options),
    ensures
        decode_spec(frame_bytes(v)) == Ok::<MessageView, OctopipesError>(v),
{
    let o = v.origin.len() as int;
    let r = v.remote.len() as int;
    let k = v.data.len() as int;
    let ck = checksum_spec(v);
    let d = frame_bytes(v);
    assert(d == frame_with_ck(v, ck));
    assert(d.len() == frame_len(v));
    assert(d[0] == SOH);
    assert(d[1] == 1u8);
    assert(d[2] == o as u8);
    assert(d[2] as int == o);
    assert(d[3 + o] == r as u8);
    assert(d[3 + o] as int == r);
    let k64 = v.data.len() as u64;
    assert(d.subrange(5 + o + r, 13 + o + r) =~= be_bytes(k64));
    lemma_be_roundtrip(k64);
    assert(be_fold(d.subrange(5 + o + r, 13 + o + r)) as int == k);
    assert(d[15 + o + r] == STX);
    assert(16 + o + r + k == frame_len(v) - 1);
    assert(!(16 + o + r + k >= d.len()));
    assert(d[16 + o + r + k] == ETX);
    let v2 = MessageView {
        origin: d.subrange(3, 3 + o),
        remote: d.subrange(4 + o, 4 + o + r),
        ttl: d[4 + o + r],
        options: d[13 + o + r] & 7,
        data: d.subrange(16 + o + r, 16 + o + r + k),
    };
    assert(v2.origin =~= v.origin);
    assert(v2.remote =~= v.remote);
    assert(v2.data =~= v.data);
    assert(d[13 + o + r] == v.options);
    let ob = v.options;
    assert(ob & 7 == ob) by (bit_vector)
        requires
            ob < 8,
    ;
    assert(v2 =~= v);
    assert(d[14 + o + r] == checksum_spec(v2));
}

/// A position of the frame that carries message content: an origin byte, a
/// remote byte, the ttl byte, or a payload byte.
pub open spec fn content_position(v: MessageView, i: int) -> bool {
    let o = v.origin.len() as int;
    let r = v.remote.len() as int;
    let k = v.data.len() as int;
    ||| 3 <= i < 3 + o
    ||| 4 + o <= i < 4 + o + r
    ||| i == 4 + o + r
    ||| 16 + o + r <= i < 16 + o + r + k
}

/// Checksum detection: changing any content byte of the frame of a message
/// with ICK clear makes decoding fail with `BadChecksum`.
///
/// Positions outside the content do not fall under this law: a changed length
/// or sentinel byte moves the structure (`BadPacket`), a changed version byte
/// yields `UnsupportedVersion`, and setting the ICK bit in the options byte
/// turns checksum verification off.
pub proof fn lemma_corruption_detected(v: MessageView, i: int, b: u8)
    requires
        msg_wf(v),
        !ick_set(v.options),
        content_position(v, i),
        b != frame_bytes(v)[i],
    ensures
        decode_spec(frame_bytes(v).update(i, b)) == Err::<MessageView, OctopipesError>(
            OctopipesError::BadChecksum,
        ),
{
    let o = v.origin.len() as int;
    let r = v.remote.len() as int;
    let k = v.data.len() as int;
    let ck = checksum_spec(v);
    let d = frame_bytes(v);
    let d2 = d.update(i, b);
    assert(d2.len() == frame_len(v));
    assert(d2[0] == SOH);
    assert(d2[1] == 1u8);
    assert(d2[2] as int == o);
    assert(d2[3 + o] as int == r);
    assert(d2.subrange(5 + o + r, 13 + o + r) =~= be_bytes(v.data.len() as u64));
    lemma_be_roundtrip(v.data.len() as u64);
    assert(be_fold(d2.subrange(5 + o + r, 13 + o + r)) as int == k);
    assert(d2[15 + o + r] == STX);
    assert(!(16 + o + r + k >= d2.len()));
    assert(d2[16 + o + r + k] == ETX);
    let v2 = MessageView {
        origin: d2.subrange(3, 3 + o),
        remote: d2.subrange(4 + o, 4 + o + r),
        ttl: d2[4 + o + r],
        options: d2[13 + o + r] & 7,
        data: d2.subrange(16 + o + r, 16 + o + r + k),
    };
    let ob = v.options;
    assert(ob & 7 == ob) by (bit_vector)
        requires
            ob < 8,
    ;
    assert(v2.options == v.options) by {
        assert(d2[13 + o + r] == v.options);
    }
    assert(!ick_set(v2.options));
    // the corrupted frame parses into v2, whose zero-checksum frame is the
    // original one with the same byte replaced
    let f0 = frame_with_ck(v, 0);
    assert(frame_with_ck(v2, 0) =~= f0.update(i, b)) by {
        assert(v2.origin.len() == v.origin.len());
        assert(v2.remote.len() == v.remote.len());
        assert(v2.data.len() == v.data.len());
        assert forall|j: int| 0 <= j < frame_len(v2) implies frame_with_ck(v2, 0)[j]
            == f0.update(i, b)[j] by {
            if j == i {
                assert(frame_byte(v2, 0, j) == b);
            } else {
                assert(frame_byte(v2, 0, j) == frame_byte(v, 0, j));
            }
        }
    }
    assert(b != f0[i]) by {
        assert(d[i] == frame_byte(v, ck, i));
        assert(frame_byte(v, ck, i) == frame_byte(v, 0, i));
    }
    lemma_xor_differs(f0, i, b);
    assert(checksum_spec(v2) != checksum_spec(v));
    assert(d2[14 + o + r] == ck);
}

/// Checksum detection at the options byte: replacing it with a byte whose
/// three low bits differ, with ICK still clear in the replacement, also makes
/// decoding fail with `BadChecksum`. A replacement that sets ICK turns
/// checksum verification off, and one that changes only the unused high bits
/// reads back as the same message.
pub proof fn lemma_options_corruption_detected(v: MessageView, b: u8)
    requires
        msg_wf(v),
        !ick_set(v.options),
        b & 7 != v.options,
        b & 4 == 0,
    ensures
        decode_spec(frame_bytes(v).update(13 + v.origin.len() as int + v.remote.len() as int, b))
            == Err::<MessageView, OctopipesError>(OctopipesError::BadChecksum),
{
    let o = v.origin.len() as int;
    let r = v.remote.len() as int;
    let k = v.data.len() as int;
    let ck = checksum_spec(v);
    let d = frame_bytes(v);
    let i = 13 + o + r;
    let d2 = d.update(i, b);
    assert(d2.len() == frame_len(v));
    assert(d2[0] == SOH);
    assert(d2[1] == 1u8);
    assert(d2[2] as int == o);
    assert(d2[3 + o] as int == r);
    assert(d2.subrange(5 + o + r, 13 + o + r) =~= be_bytes(v.data.len() as u64));
    lemma_be_roundtrip(v.data.len() as u64);
    assert(be_fold(d2.subrange(5 + o + r, 13 + o + r)) as int == k);
    assert(d2[15 + o + r] == STX);
    assert(!(16 + o + r + k >= d2.len()));
    assert(d2[16 + o + r + k] == ETX);
    let v2 = MessageView {
        origin: d2.subrange(3, 3 + o),
        remote: d2.subrange(4 + o, 4 + o + r),
        ttl: d2[4 + o + r],
        options: d2[13 + o + r] & 7,
        data: d2.subrange(16 + o + r, 16 + o + r + k),
    };
    assert(v2.options == b & 7);
    assert(!ick_set(v2.options)) by {
        assert(b & 4 == 0 ==> (b & 7) & 4 == 0) by (bit_vector);
    }
    // the parsed message differs from the sent one only in its option bits,
    // so its checksum differs from the stored one by exactly those bits
    let f0 = frame_with_ck(v, 0);
    assert(frame_with_ck(v2, 0) =~= f0.update(i, b & 7)) by {
        assert(v2.origin =~= v.origin);
        assert(v2.remote =~= v.remote);
        assert(v2.data =~= v.data);
        assert forall|j: int| 0 <= j < frame_len(v2) implies frame_with_ck(v2, 0)[j] == f0.update(
            i,
            b & 7,
        )[j] by {
            if j == i {
                assert(frame_byte(v2, 0, j) == b & 7);
            } else {
                assert(frame_byte(v2, 0, j) == frame_byte(v, 0, j));
            }
        }
    }
    assert(f0[i] == v.options);
    lemma_xor_differs(f0, i, b & 7);
    assert(checksum_spec(v2) != checksum_spec(v));
    assert(d2[14 + o + r] == ck);
}

/// Unsupported version: replacing the version byte of a frame with anything
/// other than 1 makes decoding fail with `UnsupportedVersion`.
pub proof fn lemma_unsupported_version(v: MessageView, b: u8)
    requires
        msg_wf(v),
        b != 1,
    ensures
        decode_spec(frame_bytes(v).update(1, b)) == Err::<MessageView, OctopipesError>(
            OctopipesError::UnsupportedVersion,
        ),
{
    let d2 = frame_bytes(v).update(1, b);
    assert(d2.len() >= 17);
    assert(d2[0] == SOH);
    assert(d2[1] == b);
}

/// Length discipline: every strict prefix of the frame of a well-formed
/// message decodes to `BadPacket`; never to a message and never to another
/// error.
pub proof fn lemma_truncation_rejected(v: MessageView, n: int)
    requires
        msg_wf(v),
        0 <= n < frame_len(v),
    ensures
        decode_spec(frame_bytes(v).take(n)) == Err::<MessageView, OctopipesError>(
            OctopipesError::BadPacket,
        ),
{
    let o = v.origin.len() as int;
    let r = v.remote.len() as int;
    let k = v.data.len() as int;
    let d = frame_bytes(v);
    let t = d.take(n);
    assert(t.len() == n);
    if n < 2 {
    } else {
        assert(t[0] == SOH);
        assert(t[1] == 1u8);
        if n < 17 {
        } else {
            assert(t[2] as int == o);
            if n < 17 + o {
            } else {
                assert(t[3 + o] as int == r);
                if n < 17 + o + r {
                } else {
                    assert(t.subrange(5 + o + r, 13 + o + r) =~= be_bytes(v.data.len() as u64));
                    lemma_be_roundtrip(v.data.len() as u64);
                    assert(be_fold(t.subrange(5 + o + r, 13 + o + r)) as int == k);
                    assert(t[15 + o + r] == STX);
                    assert(n <= 16 + o + r + k);
                    assert(16 + o + r + k >= t.len());
                }
            }
        }
    }
}

/// XOR with zero changes nothing.
proof fn lemma_xor_zero(x: u8)
    ensures
        x ^ 0 == x,
{
    assert(x ^ 0 == x) by (bit_vector);
}

} // verus!
