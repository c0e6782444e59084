//! Packet framing: a packet sent to the server is its id as a VarInt
//! followed by the packet's body.

use vstd::prelude::*;

verus! {

/// The VarInt encoding of a 32-bit value: seven bits per byte, least
/// significant group first, the high bit of every byte but the last set.
pub open spec fn var_int_bytes(v: u32) -> Seq<u8>
    decreases v,
{
    if v < 0x80 {
        seq![v as u8]
    } else {
        proof {
            assert(v >= 0x80 ==> v >> 7u32 < v) by (bit_vector);
        }
        seq![((v & 0x7f) | 0x80) as u8] + var_int_bytes(v >> 7)
    }
}

/// The value that a run of VarInt bytes stands for: the seven low bits of
/// each byte, least significant group first.
pub open spec fn var_int_value(bytes: Seq<u8>) -> int
    decreases bytes.len(),
{
    if bytes.len() == 0 {
        0
    } else {
        (bytes[0] & 0x7f) as int + 128 * var_int_value(bytes.drop_first())
    }
}

/// Appends the VarInt encoding of `value` (taken as its 32-bit two's
/// complement pattern) to `buf`.
pub fn write_var_int(value: i32, buf: &mut Vec<u8>)
    ensures
        final(buf)@ == old(buf)@ + var_int_bytes(value as u32),
{
    let mut v: u32 = value as u32;
    loop
        invariant
            buf@ + var_int_bytes(v) == old(buf)@ + var_int_bytes(value as u32),
        decreases v,
    {
        if v < 0x80 {
            buf.push(v as u8);
            return;
        }
        let byte: u8 = ((v & 0x7f) | 0x80) as u8;
        let ghost before = buf@;
        buf.push(byte);
        assert(v >= 0x80 ==> v >> 7u32 < v) by (bit_vector);
        assert(before + var_int_bytes(v) == buf@ + var_int_bytes(v >> 7));
        v = v >> 7;
    }
}

/// Reading back the bytes of a VarInt gives the value that was written,
/// and the encoding is self-delimiting: it takes one to five bytes, every
/// byte but the last has its high bit set, and the last does not.
pub proof fn lemma_var_int_roundtrip(v: u32)
    ensures
        var_int_value(var_int_bytes(v)) == v as int,
        1 <= var_int_bytes(v).len() <= 5,
        var_int_bytes(v).last() < 0x80,
        forall|i: int| 0 <= i < var_int_bytes(v).len() - 1 ==> #[trigger] var_int_bytes(v)[i] >= 0x80,
        v < 0x80 <==> var_int_bytes(v).len() == 1,
    decreases v,
{
    if v < 0x80 {
        let s = var_int_bytes(v);
        assert(s.drop_first().len() == 0);
        assert((v as u8) & 0x7f == v as u8) by (bit_vector)
            requires v < 0x80;
        assert(var_int_value(s) == (s[0] & 0x7f) as int + 128 * var_int_value(s.drop_first()));
    } else {
        let hi = v >> 7;
        assert(v >> 7u32 < v && v >> 7u32 < 0x2000000) by (bit_vector)
            requires v >= 0x80;
        lemma_var_int_roundtrip(hi);
        let b: u8 = ((v & 0x7f) | 0x80) as u8;
        let rest = var_int_bytes(hi);
        let s = var_int_bytes(v);
        assert(s == seq![b] + rest);
        assert(s.drop_first() == rest);
        assert(b & 0x7f == (v & 0x7f) as u8 && b >= 0x80 && (v & 0x7f) < 0x80) by (bit_vector)
            requires b == ((v & 0x7f) | 0x80) as u8;
        assert((b & 0x7f) as int == (v & 0x7f) as int);
        assert(v == (v & 0x7f) + 128 * (v >> 7u32)) by (bit_vector);
        assert(var_int_value(s) == (b & 0x7f) as int + 128 * var_int_value(rest));
        assert(var_int_value(s) == v as int);
        assert(hi < 0x2000000 ==> var_int_bytes(hi).len() <= 4) by {
            if hi >= 0x80 {
                assert(hi < 0x2000000 ==> hi >> 7u32 < 0x40000) by (bit_vector);
                lemma_var_int_len_bound(hi);
            }
        }
        assert(forall|i: int| 0 <= i < s.len() - 1 ==> #[trigger] s[i] >= 0x80) by {
            assert forall|i: int| 0 <= i < s.len() - 1 implies #[trigger] s[i] >= 0x80 by {
                if i > 0 {
                    assert(s[i] == rest[i - 1]);
                }
            }
        }
    }
}

/// The number of bytes in a VarInt grows by one for each further seven bits.
proof fn lemma_var_int_len_bound(v: u32)
    ensures
        v < 0x80 ==> var_int_bytes(v).len() == 1,
        v < 0x4000 ==> var_int_bytes(v).len() <= 2,
        v < 0x200000 ==> var_int_bytes(v).len() <= 3,
        v < 0x10000000 ==> var_int_bytes(v).len() <= 4,
        var_int_bytes(v).len() <= 5,
    decreases v,
{
    if v >= 0x80 {
        let hi = v >> 7;
        assert(v >> 7u32 < v) by (bit_vector)
            requires v >= 0x80;
        assert((v < 0x4000 ==> v >> 7u32 < 0x80) && (v < 0x200000 ==> v >> 7u32 < 0x4000)
            && (v < 0x10000000 ==> v >> 7u32 < 0x200000) && v >> 7u32 < 0x2000000) by (bit_vector);
        lemma_var_int_len_bound(hi);
        assert(hi < 0x2000000 ==> var_int_bytes(hi).len() <= 4);
    }
}

} // verus!
