//! Heuristic decoder for the metadata embedded in a creation event's binary
//! payload.
//!
//! Starting at a caller-chosen offset the payload is expected to hold a
//! four-byte little-endian length, that many name bytes, a second four-byte
//! little-endian length, and that many symbol bytes. Either field is
//! rejected when its length is zero, above its bound, or past the end of the
//! payload; trailing NUL bytes are trimmed and the fields must be valid
//! UTF-8. Any structural violation yields `None`, never an error.

use crate::codecs::utf8_to_string;
use vstd::prelude::*;
use vstd::utf8::decode_utf8;
use vstd::utf8::encode_scalar;
use vstd::utf8::encode_utf8;
use vstd::utf8::encode_utf8_decode_utf8;
use vstd::utf8::encode_utf8_valid_utf8;
use vstd::utf8::has_width_1_encoding;
use vstd::utf8::valid_utf8;

verus! {

/// Largest accepted name field, in bytes.
pub const MAX_NAME_LEN: u32 = 50;

/// Largest accepted symbol field, in bytes.
pub const MAX_SYMBOL_LEN: u32 = 20;

/// The 32-bit little-endian value stored at `off`.
pub open spec fn le32_at(b: Seq<u8>, off: int) -> nat
    recommends
        0 <= off,
        off + 4 <= b.len(),
{
    (b[off] + b[off + 1] * 0x100 + b[off + 2] * 0x1_0000 + b[off + 3] * 0x100_0000) as nat
}

/// The four-byte little-endian encoding of `n`.
pub open spec fn le32_bytes(n: nat) -> Seq<u8>
    recommends
        n < 0x1_0000_0000,
{
    seq![
        (n % 0x100) as u8,
        ((n / 0x100) % 0x100) as u8,
        ((n / 0x1_0000) % 0x100) as u8,
        ((n / 0x100_0000) % 0x100) as u8,
    ]
}

/// `b` with every trailing zero byte removed.
pub open spec fn trim_nul(b: Seq<u8>) -> Seq<u8>
    decreases b.len(),
{
    if b.len() > 0 && b[b.len() - 1] == 0 {
        trim_nul(b.drop_last())
    } else {
        b
    }
}

/// The raw name and symbol fields at `off`, before trimming: the two
/// length-prefixed byte runs, or `None` on any bound violation.
pub open spec fn fields_at(b: Seq<u8>, off: int) -> Option<(Seq<u8>, Seq<u8>)> {
    if off + 4 > b.len() {
        None
    } else {
        let name_len = le32_at(b, off) as int;
        if name_len == 0 || name_len > MAX_NAME_LEN as int || off + 4 + name_len > b.len() {
            None
        } else {
            let sym_off = off + 4 + name_len;
            if sym_off + 4 > b.len() {
                None
            } else {
                let sym_len = le32_at(b, sym_off) as int;
                if sym_len == 0 || sym_len > MAX_SYMBOL_LEN as int || sym_off + 4 + sym_len
                    > b.len() {
                    None
                } else {
                    Some(
                        (
                            b.subrange(off + 4, off + 4 + name_len),
                            b.subrange(sym_off + 4, sym_off + 4 + sym_len),
                        ),
                    )
                }
            }
        }
    }
}

/// What `decode_at` returns on `b` at `off`: the trimmed, UTF-8-decoded name
/// and symbol, or `None` on any structural violation.
pub open spec fn decode_at_spec(b: Seq<u8>, off: int) -> Option<(Seq<char>, Seq<char>)> {
    match fields_at(b, off) {
        Some(fields) => {
            let name_bytes = trim_nul(fields.0);
            let sym_bytes = trim_nul(fields.1);
            if valid_utf8(name_bytes) && valid_utf8(sym_bytes) {
                Some((decode_utf8(name_bytes), decode_utf8(sym_bytes)))
            } else {
                None
            }
        },
        None => None,
    }
}

/// Reads the little-endian 32-bit value stored at `off` in `data`.
fn read_le32(data: &Vec<u8>, off: usize) -> (r: u32)
    requires
        off + 4 <= data.len(),
    ensures
        r as nat == le32_at(data@, off as int),
{
    let b0 = data[off] as u32;
    let b1 = data[off + 1] as u32;
    let b2 = data[off + 2] as u32;
    let b3 = data[off + 3] as u32;
    b0 + b1 * 0x100 + b2 * 0x1_0000 + b3 * 0x100_0000
}

/// Copies `len` bytes of `data` starting at `from` into a fresh vector.
fn copy_range(data: &Vec<u8>, from: usize, len: usize) -> (r: Vec<u8>)
    requires
        from + len <= data.len(),
    ensures
        r@ == data@.subrange(from as int, from as int + len as int),
{
    let mut out: Vec<u8> = Vec::new();
    let mut i: usize = 0;
    while i < len
        invariant
            i <= len,
            from + len <= data.len(),
            out@ == data@.subrange(from as int, from as int + i as int),
        decreases len - i,
    {
        out.push(data[from + i]);
        assert(data@.subrange(from as int, from as int + i as int + 1) =~= data@.subrange(
            from as int,
            from as int + i as int,
        ).push(data@[from as int + i as int]));
        i = i + 1;
    }
    out
}

/// Removes every trailing zero byte of `v`.
fn trim_trailing_nul(v: Vec<u8>) -> (r: Vec<u8>)
    ensures
        r@ == trim_nul(v@),
{
    let ghost orig: Seq<u8> = v@;
    let mut w = v;
    while w.len() > 0 && w[w.len() - 1] == 0
        invariant
            trim_nul(w@) == trim_nul(orig),
        decreases w@.len(),
    {
        let ghost before: Seq<u8> = w@;
        let _ = w.pop();
        assert(w@ =~= before.drop_last());
    }
    assert(trim_nul(w@) == w@);
    w
}

/// Decodes the name and symbol fields stored at `offset` in `data`, trimming
/// trailing NUL bytes from each; returns `None` on any structural violation.
pub fn decode_at(data: &Vec<u8>, offset: usize) -> (r: Option<(String, String)>)
    ensures
        r matches Some(p) ==> decode_at_spec(data@, offset as int) == Some((p.0@, p.1@)),
        r is None ==> decode_at_spec(data@, offset as int) is None,
{
    if data.len() < 4 || offset > data.len() - 4 {
        return None;
    }
    let name_len_32 = read_le32(data, offset);
    if name_len_32 == 0 || name_len_32 > MAX_NAME_LEN {
        return None;
    }
    let name_len = name_len_32 as usize;
    let name_off = offset + 4;
    if name_len > data.len() - name_off {
        return None;
    }
    let name_bytes = copy_range(data, name_off, name_len);
    let name_trimmed = trim_trailing_nul(name_bytes);
    let sym_off = name_off + name_len;
    if data.len() - sym_off < 4 {
        return None;
    }
    let sym_len_32 = read_le32(data, sym_off);
    if sym_len_32 == 0 || sym_len_32 > MAX_SYMBOL_LEN {
        return None;
    }
    let sym_len = sym_len_32 as usize;
    let sym_data_off = sym_off + 4;
    if sym_len > data.len() - sym_data_off {
        return None;
    }
    let sym_bytes = copy_range(data, sym_data_off, sym_len);
    let sym_trimmed = trim_trailing_nul(sym_bytes);
    let name = match utf8_to_string(name_trimmed) {
        Some(s) => s,
        None => {
            return None;
        },
    };
    let symbol = match utf8_to_string(sym_trimmed) {
        Some(s) => s,
        None => {
            return None;
        },
    };
    Some((name, symbol))
}

/// A payload shorter than eight bytes never decodes, at any offset: there is
/// no room for the two length prefixes alone.
pub proof fn lemma_short_payload_decodes_none(b: Seq<u8>, off: int)
    requires
        b.len() < 8,
        0 <= off,
    ensures
        decode_at_spec(b, off) is None,
{
    if off + 4 <= b.len() {
        let name_len = le32_at(b, off) as int;
        if 1 <= name_len <= MAX_NAME_LEN as int && off + 4 + name_len <= b.len() {
            assert(off + 4 + name_len + 4 > b.len());
        }
    }
}

/// Round trip: a payload assembled as arbitrary padding, the little-endian
/// length of the name, the name bytes, the little-endian length of the
/// symbol, and the symbol bytes decodes back to exactly those two fields,
/// for any name of one to fifty bytes and symbol of one to twenty bytes that
/// are valid UTF-8 and do not end in a NUL byte.
pub proof fn lemma_round_trip(pad: Seq<u8>, name_bytes: Seq<u8>, sym_bytes: Seq<u8>)
    requires
        1 <= name_bytes.len() <= MAX_NAME_LEN as int,
        1 <= sym_bytes.len() <= MAX_SYMBOL_LEN as int,
        name_bytes[name_bytes.len() - 1] != 0,
        sym_bytes[sym_bytes.len() - 1] != 0,
        valid_utf8(name_bytes),
        valid_utf8(sym_bytes),
    ensures
        decode_at_spec(
            pad + le32_bytes(name_bytes.len()) + name_bytes + le32_bytes(sym_bytes.len())
                + sym_bytes,
            pad.len() as int,
        ) == Some((decode_utf8(name_bytes), decode_utf8(sym_bytes))),
{
    let nl = name_bytes.len() as int;
    let sl = sym_bytes.len() as int;
    let le_n = le32_bytes(name_bytes.len());
    let le_s = le32_bytes(sym_bytes.len());
    let b = pad + le_n + name_bytes + le_s + sym_bytes;
    let off = pad.len() as int;
    assert(le_n =~= seq![nl as u8, 0u8, 0u8, 0u8]);
    assert(le_s =~= seq![sl as u8, 0u8, 0u8, 0u8]);
    assert(b.len() == off + 4 + nl + 4 + sl);
    assert(b.subrange(off, off + 4) =~= le_n);
    assert(le32_at(b, off) == nl);
    let sym_off = off + 4 + nl;
    assert(b.subrange(sym_off, sym_off + 4) =~= le_s);
    assert(le32_at(b, sym_off) == sl);
    assert(b.subrange(off + 4, off + 4 + nl) =~= name_bytes);
    assert(b.subrange(sym_off + 4, sym_off + 4 + sl) =~= sym_bytes);
    assert(fields_at(b, off) == Some((name_bytes, sym_bytes)));
    assert(trim_nul(name_bytes) == name_bytes);
    assert(trim_nul(sym_bytes) == sym_bytes);
}

/// The UTF-8 encoding of a text that does not end in NUL does not end in a
/// zero byte: a multi-byte character ends in a continuation byte, and a
/// one-byte character is the character's own nonzero value.
proof fn lemma_encode_last_nonzero(chars: Seq<char>)
    requires
        chars.len() > 0,
        chars.last() != '\0',
    ensures
        encode_utf8(chars).len() > 0,
        encode_utf8(chars).last() != 0,
    decreases chars.len(),
{
    let first = chars[0] as u32;
    let enc = encode_scalar(first);
    if chars.len() == 1 {
        assert(chars.drop_first() =~= Seq::<char>::empty());
        assert(encode_utf8(Seq::<char>::empty()) =~= Seq::<u8>::empty());
        assert(encode_utf8(chars) =~= enc);
        if has_width_1_encoding(first) {
            assert(first != 0) by {
                vstd::utf8::char_u32_cast(chars[0], first);
                assert(('\0' as u32) == 0);
            }
            assert(first <= 0x7F ==> (first & 0x7F) == first) by (bit_vector);
        } else {
            assert(forall|s: u32| (0x80u8 | (s & 0x3F) as u8) != 0) by (bit_vector);
        }
    } else {
        lemma_encode_last_nonzero(chars.drop_first());
        let rest = encode_utf8(chars.drop_first());
        assert(encode_utf8(chars).last() == rest.last());
    }
}

/// Round trip at the character level: a payload assembled as padding, the
/// little-endian byte length of the name's UTF-8 encoding, that encoding,
/// and the same two parts for the symbol decodes back to exactly the name
/// and symbol texts, whenever the encodings fit the field bounds and
/// neither text ends in NUL.
pub proof fn lemma_round_trip_chars(pad: Seq<u8>, name: Seq<char>, symbol: Seq<char>)
    requires
        1 <= encode_utf8(name).len() <= MAX_NAME_LEN as int,
        1 <= encode_utf8(symbol).len() <= MAX_SYMBOL_LEN as int,
        name.len() > 0,
        symbol.len() > 0,
        name.last() != '\0',
        symbol.last() != '\0',
    ensures
        decode_at_spec(
            pad + le32_bytes(encode_utf8(name).len()) + encode_utf8(name) + le32_bytes(
                encode_utf8(symbol).len(),
            ) + encode_utf8(symbol),
            pad.len() as int,
        ) == Some((name, symbol)),
{
    broadcast use encode_utf8_valid_utf8;
    broadcast use encode_utf8_decode_utf8;

    lemma_encode_last_nonzero(name);
    lemma_encode_last_nonzero(symbol);
    lemma_round_trip(pad, encode_utf8(name), encode_utf8(symbol));
}

/// Decoding is a pure function of the payload and the offset: identical
/// inputs yield identical results.
pub proof fn lemma_decode_at_deterministic(b1: Seq<u8>, off1: int, b2: Seq<u8>, off2: int)
    requires
        b1 == b2,
        off1 == off2,
    ensures
        decode_at_spec(b1, off1) == decode_at_spec(b2, off2),
{
}

} // verus!
