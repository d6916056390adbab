//! Short channel identifiers: the block, transaction and output of a
//! channel's funding, packed into 64 bits or written as `block x tx x output`.

use crate::decimal::{decimal, to_decimal};
use vstd::prelude::*;
use vstd::string::*;

verus! {

/// One more than the largest block height or transaction index that fits.
pub const FIELD_24: u64 = 0x100_0000;

/// One more than the largest output index that fits.
pub const FIELD_16: u64 = 0x1_0000;

/// The compact form of a channel's coordinates. The block height lies in
/// bits 63 to 40, the transaction index in bits 39 to 16 and the output index
/// in bits 15 to 0; what does not fit in a field is cut off.
pub open spec fn pack(block: nat, tx: nat, output: nat) -> nat {
    ((block % FIELD_24 as nat) * FIELD_24 * FIELD_16 + (tx % FIELD_24 as nat) * FIELD_16 + output
        % FIELD_16 as nat) as nat
}

/// The block height held in a compact identifier.
pub open spec fn block_of(id: nat) -> nat {
    (id / (FIELD_24 * FIELD_16) as nat) % FIELD_24 as nat
}

/// The transaction index held in a compact identifier.
pub open spec fn tx_of(id: nat) -> nat {
    (id / FIELD_16 as nat) % FIELD_24 as nat
}

/// The output index held in a compact identifier.
pub open spec fn output_of(id: nat) -> nat {
    id % FIELD_16 as nat
}

/// The readable form of a compact identifier.
pub open spec fn display(id: nat) -> Seq<char> {
    decimal(block_of(id)) + seq!['x'] + decimal(tx_of(id)) + seq!['x'] + decimal(output_of(id))
}

/// Packs a channel's coordinates into the compact form, silently cutting
/// off what does not fit in a field.
pub fn encode_compact(block: u32, tx: u32, output: u16) -> (id: u64)
    ensures
        id == pack(block as nat, tx as nat, output as nat),
{
    let b: u64 = block as u64;
    let t: u64 = tx as u64;
    let o: u64 = output as u64;
    let id: u64 = ((b & 0xFFFFFF) << 40) | ((t & 0xFFFFFF) << 16) | (o & 0xFFFF);
    assert(id == (b % 0x100_0000) * 0x100_0000_0000 + (t % 0x100_0000) * 0x1_0000 + o % 0x1_0000)
        by (bit_vector)
        requires
            id == ((b & 0xFFFFFF) << 40) | ((t & 0xFFFFFF) << 16) | (o & 0xFFFF),
            b <= 0xFFFF_FFFF,
            t <= 0xFFFF_FFFF,
            o <= 0xFFFF,
    ;
    id
}

/// Unpacks a compact identifier into block height, transaction index and
/// output index.
pub fn decode_compact(id: u64) -> (r: (u32, u32, u16))
    ensures
        r.0 == block_of(id as nat),
        r.1 == tx_of(id as nat),
        r.2 == output_of(id as nat),
{
    let b: u64 = (id >> 40) & 0xFFFFFF;
    let t: u64 = (id >> 16) & 0xFFFFFF;
    let o: u64 = id & 0xFFFF;
    assert(b == (id / 0x100_0000_0000) % 0x100_0000 && b < 0x100_0000) by (bit_vector)
        requires
            b == (id >> 40) & 0xFFFFFF,
    ;
    assert(t == (id / 0x1_0000) % 0x100_0000 && t < 0x100_0000) by (bit_vector)
        requires
            t == (id >> 16) & 0xFFFFFF,
    ;
    assert(o == id % 0x1_0000 && o < 0x1_0000) by (bit_vector)
        requires
            o == id & 0xFFFF,
    ;
    (b as u32, t as u32, o as u16)
}

/// Writes a compact identifier as `block x tx x output`, each part in
/// base ten.
pub fn to_display(id: u64) -> (r: String)
    ensures
        r@ == display(id as nat),
{
    let (block, tx, output) = decode_compact(id);
    proof {
        reveal_strlit("x");
    }
    let mut r = to_decimal(block as u64);
    r.append("x");
    r.append(to_decimal(tx as u64).as_str());
    r.append("x");
    r.append(to_decimal(output as u64).as_str());
    r
}

/// Unpacking what was packed gives the coordinates back, as long as each
/// fits in its field.
pub proof fn lemma_decode_encode(block: nat, tx: nat, output: nat)
    requires
        block < FIELD_24,
        tx < FIELD_24,
        output < FIELD_16,
    ensures
        block_of(pack(block, tx, output)) == block,
        tx_of(pack(block, tx, output)) == tx,
        output_of(pack(block, tx, output)) == output,
{
    let id = pack(block, tx, output);
    assert(id == block * 0x100_0000_0000 + tx * 0x1_0000 + output);
    assert(id / 0x100_0000_0000 == block);
}

/// Packing what was unpacked gives the identifier back: the three fields
/// cover all 64 bits.
pub proof fn lemma_encode_decode(id: nat)
    requires
        id <= u64::MAX,
    ensures
        pack(block_of(id), tx_of(id), output_of(id)) == id,
{
    let high = id / 0x100_0000_0000;
    let mid = (id / 0x1_0000) % 0x100_0000;
    assert(id / 0x1_0000 == high * 0x100_0000 + mid);
}

} // verus!
