//! The initial S-box of HeavyHash, block by block.
use vstd::prelude::*;
use crate::bits::{rotl8_spec, rotr8_spec};
use crate::heavy_hash::{initial_sbox, sbox_entry, sbox_source, sbox_value};

verus! {

proof fn lemma_mask_ff(y: u8)
    ensures
        y & 0xFFu8 == y,
{
    assert(y & 0xFFu8 == y) by (bit_vector);
}

proof fn lemma_entry_shape(p: Seq<u8>, hb: Seq<u8>, np: Seq<u8>, pbo: Seq<u8>, i: int, src: Seq<u8>, l: u8, r: u8, v: u8)
    requires
        0 <= i < 256,
        p.len() == 32,
        hb.len() == 32,
        sbox_source(i as u8, p, hb, np, pbo) == (src, l, r),
        sbox_value(i as u8, p, hb, np, pbo) == v,
    ensures
        initial_sbox(p, hb, np, pbo)[i] == src[(i + rotl8_spec(l, ((p[(i + 1) % 32] as u32 + i as u32) % 8) as u32) as int
                + rotr8_spec(r, ((hb[(i + 2) % 32] as u32 + i as u32) % 8) as u32) as int) % 32] ^ v,
{
    let k = i as u8;
    assert(k as int == i);
}

proof fn lemma_sbox_entry_0(p: Seq<u8>, hb: Seq<u8>, np: Seq<u8>, pbo: Seq<u8>, i: int)
    requires
        p.len() == 32,
        hb.len() == 32,
        np.len() == 32,
        pbo.len() == 32,
        0 <= i < 16,
    ensures
        initial_sbox(p, hb, np, pbo)[i] == p[(i + rotl8_spec((np[3] ^ 0x4Fu8).wrapping_mul(3u8), ((p[(i + 1) % 32] as u32 + i as u32) % 8) as u32) as int
                + rotr8_spec((hb[2] ^ 0xD3u8).wrapping_mul(5u8), ((hb[(i + 2) % 32] as u32 + i as u32) % 8) as u32) as int) % 32]
                ^ p[i - 0].wrapping_mul(0x03u8).wrapping_add(((i - 0) as u8).wrapping_mul(0xAAu8)),
{
    let k = i as u8;
    assert(k as int == i);
    assert((k as int) % 32 == i - 0);
    lemma_mask_ff(p[i - 0].wrapping_mul(0x03u8).wrapping_add(((i - 0) as u8).wrapping_mul(0xAAu8)));
    assert(sbox_value(k, p, hb, np, pbo) == p[i - 0].wrapping_mul(0x03u8).wrapping_add(((i - 0) as u8).wrapping_mul(0xAAu8)));
    assert(sbox_source(k, p, hb, np, pbo) == (p, (np[3] ^ 0x4Fu8).wrapping_mul(3u8), (hb[2] ^ 0xD3u8).wrapping_mul(5u8)));
    lemma_entry_shape(p, hb, np, pbo, i, p, (np[3] ^ 0x4Fu8).wrapping_mul(3u8), (hb[2] ^ 0xD3u8).wrapping_mul(5u8), p[i - 0].wrapping_mul(0x03u8).wrapping_add(((i - 0) as u8).wrapping_mul(0xAAu8)));
}

proof fn lemma_sbox_block_0(p: Seq<u8>, hb: Seq<u8>, np: Seq<u8>, pbo: Seq<u8>)
    requires
        p.len() == 32,
        hb.len() == 32,
        np.len() == 32,
        pbo.len() == 32,
    ensures
        forall|i: int|
            0 <= i < 16 ==> #[trigger] initial_sbox(p, hb, np, pbo)[i] == p[(i + rotl8_spec((np[3] ^ 0x4Fu8).wrapping_mul(3u8), ((p[(i + 1) % 32] as u32 + i as u32) % 8) as u32) as int
                + rotr8_spec((hb[2] ^ 0xD3u8).wrapping_mul(5u8), ((hb[(i + 2) % 32] as u32 + i as u32) % 8) as u32) as int) % 32]
                ^ p[i - 0].wrapping_mul(0x03u8).wrapping_add(((i - 0) as u8).wrapping_mul(0xAAu8)),
{
    assert forall|i: int| 0 <= i < 16 implies #[trigger] initial_sbox(p, hb, np, pbo)[i] == p[(i + rotl8_spec((np[3] ^ 0x4Fu8).wrapping_mul(3u8), ((p[(i + 1) % 32] as u32 + i as u32) % 8) as u32) as int
                + rotr8_spec((hb[2] ^ 0xD3u8).wrapping_mul(5u8), ((hb[(i + 2) % 32] as u32 + i as u32) % 8) as u32) as int) % 32]
                ^ p[i - 0].wrapping_mul(0x03u8).wrapping_add(((i - 0) as u8).wrapping_mul(0xAAu8)) by {
        lemma_sbox_entry_0(p, hb, np, pbo, i);
    }
}

proof fn lemma_sbox_entry_1(p: Seq<u8>, hb: Seq<u8>, np: Seq<u8>, pbo: Seq<u8>, i: int)
    requires
        p.len() == 32,
        hb.len() == 32,
        np.len() == 32,
        pbo.len() == 32,
        16 <= i < 32,
    ensures
        initial_sbox(p, hb, np, pbo)[i] == hb[(i + rotl8_spec((p[7] ^ 0xA6u8).wrapping_mul(2u8), ((p[(i + 1) % 32] as u32 + i as u32) % 8) as u32) as int
                + rotr8_spec((np[5] ^ 0x5Bu8).wrapping_mul(7u8), ((hb[(i + 2) % 32] as u32 + i as u32) % 8) as u32) as int) % 32]
                ^ hb[i - 16].wrapping_mul(0x05u8).wrapping_add(((i - 16) as u8).wrapping_mul(0xBBu8)),
{
    let k = i as u8;
    assert(k as int == i);
    assert(((k as int) - 16) % 32 == i - 16);
    lemma_mask_ff(hb[i - 16].wrapping_mul(0x05u8).wrapping_add(((i - 16) as u8).wrapping_mul(0xBBu8)));
    assert(sbox_value(k, p, hb, np, pbo) == hb[i - 16].wrapping_mul(0x05u8).wrapping_add(((i - 16) as u8).wrapping_mul(0xBBu8)));
    assert(sbox_source(k, p, hb, np, pbo) == (hb, (p[7] ^ 0xA6u8).wrapping_mul(2u8), (np[5] ^ 0x5Bu8).wrapping_mul(7u8)));
    lemma_entry_shape(p, hb, np, pbo, i, hb, (p[7] ^ 0xA6u8).wrapping_mul(2u8), (np[5] ^ 0x5Bu8).wrapping_mul(7u8), hb[i - 16].wrapping_mul(0x05u8).wrapping_add(((i - 16) as u8).wrapping_mul(0xBBu8)));
}

proof fn lemma_sbox_block_1(p: Seq<u8>, hb: Seq<u8>, np: Seq<u8>, pbo: Seq<u8>)
    requires
        p.len() == 32,
        hb.len() == 32,
        np.len() == 32,
        pbo.len() == 32,
    ensures
        forall|i: int|
            16 <= i < 32 ==> #[trigger] initial_sbox(p, hb, np, pbo)[i] == hb[(i + rotl8_spec((p[7] ^ 0xA6u8).wrapping_mul(2u8), ((p[(i + 1) % 32] as u32 + i as u32) % 8) as u32) as int
                + rotr8_spec((np[5] ^ 0x5Bu8).wrapping_mul(7u8), ((hb[(i + 2) % 32] as u32 + i as u32) % 8) as u32) as int) % 32]
                ^ hb[i - 16].wrapping_mul(0x05u8).wrapping_add(((i - 16) as u8).wrapping_mul(0xBBu8)),
{
    assert forall|i: int| 16 <= i < 32 implies #[trigger] initial_sbox(p, hb, np, pbo)[i] == hb[(i + rotl8_spec((p[7] ^ 0xA6u8).wrapping_mul(2u8), ((p[(i + 1) % 32] as u32 + i as u32) % 8) as u32) as int
                + rotr8_spec((np[5] ^ 0x5Bu8).wrapping_mul(7u8), ((hb[(i + 2) % 32] as u32 + i as u32) % 8) as u32) as int) % 32]
                ^ hb[i - 16].wrapping_mul(0x05u8).wrapping_add(((i - 16) as u8).wrapping_mul(0xBBu8)) by {
        lemma_sbox_entry_1(p, hb, np, pbo, i);
    }
}

proof fn lemma_sbox_entry_2(p: Seq<u8>, hb: Seq<u8>, np: Seq<u8>, pbo: Seq<u8>, i: int)
    requires
        p.len() == 32,
        hb.len() == 32,
        np.len() == 32,
        pbo.len() == 32,
        32 <= i < 48,
    ensures
        initial_sbox(p, hb, np, pbo)[i] == np[(i + rotl8_spec((pbo[1] ^ 0x9Cu8).wrapping_mul(9u8), ((p[(i + 1) % 32] as u32 + i as u32) % 8) as u32) as int
                + rotr8_spec((p[0] ^ 0x8Eu8).wrapping_mul(3u8), ((hb[(i + 2) % 32] as u32 + i as u32) % 8) as u32) as int) % 32]
                ^ pbo[i - 32].wrapping_mul(0x07u8).wrapping_add(((i - 32) as u8).wrapping_mul(0xCCu8)),
{
    let k = i as u8;
    assert(k as int == i);
    assert(((k as int) - 32) % 32 == i - 32);
    lemma_mask_ff(pbo[i - 32].wrapping_mul(0x07u8).wrapping_add(((i - 32) as u8).wrapping_mul(0xCCu8)));
    assert(sbox_value(k, p, hb, np, pbo) == pbo[i - 32].wrapping_mul(0x07u8).wrapping_add(((i - 32) as u8).wrapping_mul(0xCCu8)));
    assert(sbox_source(k, p, hb, np, pbo) == (np, (pbo[1] ^ 0x9Cu8).wrapping_mul(9u8), (p[0] ^ 0x8Eu8).wrapping_mul(3u8)));
    lemma_entry_shape(p, hb, np, pbo, i, np, (pbo[1] ^ 0x9Cu8).wrapping_mul(9u8), (p[0] ^ 0x8Eu8).wrapping_mul(3u8), pbo[i - 32].wrapping_mul(0x07u8).wrapping_add(((i - 32) as u8).wrapping_mul(0xCCu8)));
}

proof fn lemma_sbox_block_2(p: Seq<u8>, hb: Seq<u8>, np: Seq<u8>, pbo: Seq<u8>)
    requires
        p.len() == 32,
        hb.len() == 32,
        np.len() == 32,
        pbo.len() == 32,
    ensures
        forall|i: int|
            32 <= i < 48 ==> #[trigger] initial_sbox(p, hb, np, pbo)[i] == np[(i + rotl8_spec((pbo[1] ^ 0x9Cu8).wrapping_mul(9u8), ((p[(i + 1) % 32] as u32 + i as u32) % 8) as u32) as int
                + rotr8_spec((p[0] ^ 0x8Eu8).wrapping_mul(3u8), ((hb[(i + 2) % 32] as u32 + i as u32) % 8) as u32) as int) % 32]
                ^ pbo[i - 32].wrapping_mul(0x07u8).wrapping_add(((i - 32) as u8).wrapping_mul(0xCCu8)),
{
    assert forall|i: int| 32 <= i < 48 implies #[trigger] initial_sbox(p, hb, np, pbo)[i] == np[(i + rotl8_spec((pbo[1] ^ 0x9Cu8).wrapping_mul(9u8), ((p[(i + 1) % 32] as u32 + i as u32) % 8) as u32) as int
                + rotr8_spec((p[0] ^ 0x8Eu8).wrapping_mul(3u8), ((hb[(i + 2) % 32] as u32 + i as u32) % 8) as u32) as int) % 32]
                ^ pbo[i - 32].wrapping_mul(0x07u8).wrapping_add(((i - 32) as u8).wrapping_mul(0xCCu8)) by {
        lemma_sbox_entry_2(p, hb, np, pbo, i);
    }
}

proof fn lemma_sbox_entry_3(p: Seq<u8>, hb: Seq<u8>, np: Seq<u8>, pbo: Seq<u8>, i: int)
    requires
        p.len() == 32,
        hb.len() == 32,
        np.len() == 32,
        pbo.len() == 32,
        48 <= i < 64,
    ensures
        initial_sbox(p, hb, np, pbo)[i] == hb[(i + rotl8_spec((p[6] ^ 0x71u8).wrapping_mul(4u8), ((p[(i + 1) % 32] as u32 + i as u32) % 8) as u32) as int
                + rotr8_spec((pbo[3] ^ 0x2Fu8).wrapping_mul(5u8), ((hb[(i + 2) % 32] as u32 + i as u32) % 8) as u32) as int) % 32]
                ^ np[i - 48].wrapping_mul(0x0Fu8).wrapping_add(((i - 48) as u8).wrapping_mul(0xDDu8)),
{
    let k = i as u8;
    assert(k as int == i);
    assert(((k as int) - 48) % 32 == i - 48);
    lemma_mask_ff(np[i - 48].wrapping_mul(0x0Fu8).wrapping_add(((i - 48) as u8).wrapping_mul(0xDDu8)));
    assert(sbox_value(k, p, hb, np, pbo) == np[i - 48].wrapping_mul(0x0Fu8).wrapping_add(((i - 48) as u8).wrapping_mul(0xDDu8)));
    assert(sbox_source(k, p, hb, np, pbo) == (hb, (p[6] ^ 0x71u8).wrapping_mul(4u8), (pbo[3] ^ 0x2Fu8).wrapping_mul(5u8)));
    lemma_entry_shape(p, hb, np, pbo, i, hb, (p[6] ^ 0x71u8).wrapping_mul(4u8), (pbo[3] ^ 0x2Fu8).wrapping_mul(5u8), np[i - 48].wrapping_mul(0x0Fu8).wrapping_add(((i - 48) as u8).wrapping_mul(0xDDu8)));
}

proof fn lemma_sbox_block_3(p: Seq<u8>, hb: Seq<u8>, np: Seq<u8>, pbo: Seq<u8>)
    requires
        p.len() == 32,
        hb.len() == 32,
        np.len() == 32,
        pbo.len() == 32,
    ensures
        forall|i: int|
            48 <= i < 64 ==> #[trigger] initial_sbox(p, hb, np, pbo)[i] == hb[(i + rotl8_spec((p[6] ^ 0x71u8).wrapping_mul(4u8), ((p[(i + 1) % 32] as u32 + i as u32) % 8) as u32) as int
                + rotr8_spec((pbo[3] ^ 0x2Fu8).wrapping_mul(5u8), ((hb[(i + 2) % 32] as u32 + i as u32) % 8) as u32) as int) % 32]
                ^ np[i - 48].wrapping_mul(0x0Fu8).wrapping_add(((i - 48) as u8).wrapping_mul(0xDDu8)),
{
    assert forall|i: int| 48 <= i < 64 implies #[trigger] initial_sbox(p, hb, np, pbo)[i] == hb[(i + rotl8_spec((p[6] ^ 0x71u8).wrapping_mul(4u8), ((p[(i + 1) % 32] as u32 + i as u32) % 8) as u32) as int
                + rotr8_spec((pbo[3] ^ 0x2Fu8).wrapping_mul(5u8), ((hb[(i + 2) % 32] as u32 + i as u32) % 8) as u32) as int) % 32]
                ^ np[i - 48].wrapping_mul(0x0Fu8).wrapping_add(((i - 48) as u8).wrapping_mul(0xDDu8)) by {
        lemma_sbox_entry_3(p, hb, np, pbo, i);
    }
}

proof fn lemma_sbox_entry_4(p: Seq<u8>, hb: Seq<u8>, np: Seq<u8>, pbo: Seq<u8>, i: int)
    requires
        p.len() == 32,
        hb.len() == 32,
        np.len() == 32,
        pbo.len() == 32,
        64 <= i < 80,
    ensures
        initial_sbox(p, hb, np, pbo)[i] == pbo[(i + rotl8_spec((np[4] ^ 0xB2u8).wrapping_mul(3u8), ((p[(i + 1) % 32] as u32 + i as u32) % 8) as u32) as int
                + rotr8_spec((hb[7] ^ 0x6Du8).wrapping_mul(7u8), ((hb[(i + 2) % 32] as u32 + i as u32) % 8) as u32) as int) % 32]
                ^ p[i - 64].wrapping_mul(0x11u8).wrapping_add(((i - 64) as u8).wrapping_mul(0xEEu8)),
{
    let k = i as u8;
    assert(k as int == i);
    assert(((k as int) - 64) % 32 == i - 64);
    lemma_mask_ff(p[i - 64].wrapping_mul(0x11u8).wrapping_add(((i - 64) as u8).wrapping_mul(0xEEu8)));
    assert(sbox_value(k, p, hb, np, pbo) == p[i - 64].wrapping_mul(0x11u8).wrapping_add(((i - 64) as u8).wrapping_mul(0xEEu8)));
    assert(sbox_source(k, p, hb, np, pbo) == (pbo, (np[4] ^ 0xB2u8).wrapping_mul(3u8), (hb[7] ^ 0x6Du8).wrapping_mul(7u8)));
    lemma_entry_shape(p, hb, np, pbo, i, pbo, (np[4] ^ 0xB2u8).wrapping_mul(3u8), (hb[7] ^ 0x6Du8).wrapping_mul(7u8), p[i - 64].wrapping_mul(0x11u8).wrapping_add(((i - 64) as u8).wrapping_mul(0xEEu8)));
}

proof fn lemma_sbox_block_4(p: Seq<u8>, hb: Seq<u8>, np: Seq<u8>, pbo: Seq<u8>)
    requires
        p.len() == 32,
        hb.len() == 32,
        np.len() == 32,
        pbo.len() == 32,
    ensures
        forall|i: int|
            64 <= i < 80 ==> #[trigger] initial_sbox(p, hb, np, pbo)[i] == pbo[(i + rotl8_spec((np[4] ^ 0xB2u8).wrapping_mul(3u8), ((p[(i + 1) % 32] as u32 + i as u32) % 8) as u32) as int
                + rotr8_spec((hb[7] ^ 0x6Du8).wrapping_mul(7u8), ((hb[(i + 2) % 32] as u32 + i as u32) % 8) as u32) as int) % 32]
                ^ p[i - 64].wrapping_mul(0x11u8).wrapping_add(((i - 64) as u8).wrapping_mul(0xEEu8)),
{
    assert forall|i: int| 64 <= i < 80 implies #[trigger] initial_sbox(p, hb, np, pbo)[i] == pbo[(i + rotl8_spec((np[4] ^ 0xB2u8).wrapping_mul(3u8), ((p[(i + 1) % 32] as u32 + i as u32) % 8) as u32) as int
                + rotr8_spec((hb[7] ^ 0x6Du8).wrapping_mul(7u8), ((hb[(i + 2) % 32] as u32 + i as u32) % 8) as u32) as int) % 32]
                ^ p[i - 64].wrapping_mul(0x11u8).wrapping_add(((i - 64) as u8).wrapping_mul(0xEEu8)) by {
        lemma_sbox_entry_4(p, hb, np, pbo, i);
    }
}

proof fn lemma_sbox_entry_5(p: Seq<u8>, hb: Seq<u8>, np: Seq<u8>, pbo: Seq<u8>, i: int)
    requires
        p.len() == 32,
        hb.len() == 32,
        np.len() == 32,
        pbo.len() == 32,
        80 <= i < 96,
    ensures
        initial_sbox(p, hb, np, pbo)[i] == hb[(i + rotl8_spec((p[0] ^ 0x58u8).wrapping_mul(6u8), ((p[(i + 1) % 32] as u32 + i as u32) % 8) as u32) as int
                + rotr8_spec((np[1] ^ 0xEEu8).wrapping_mul(9u8), ((hb[(i + 2) % 32] as u32 + i as u32) % 8) as u32) as int) % 32]
                ^ hb[i - 80].wrapping_mul(0x13u8).wrapping_add(((i - 80) as u8).wrapping_mul(0xFFu8)),
{
    let k = i as u8;
    assert(k as int == i);
    assert(((k as int) - 80) % 32 == i - 80);
    lemma_mask_ff(hb[i - 80].wrapping_mul(0x13u8).wrapping_add(((i - 80) as u8).wrapping_mul(0xFFu8)));
    assert(sbox_value(k, p, hb, np, pbo) == hb[i - 80].wrapping_mul(0x13u8).wrapping_add(((i - 80) as u8).wrapping_mul(0xFFu8)));
    assert(sbox_source(k, p, hb, np, pbo) == (hb, (p[0] ^ 0x58u8).wrapping_mul(6u8), (np[1] ^ 0xEEu8).wrapping_mul(9u8)));
    lemma_entry_shape(p, hb, np, pbo, i, hb, (p[0] ^ 0x58u8).wrapping_mul(6u8), (np[1] ^ 0xEEu8).wrapping_mul(9u8), hb[i - 80].wrapping_mul(0x13u8).wrapping_add(((i - 80) as u8).wrapping_mul(0xFFu8)));
}

proof fn lemma_sbox_block_5(p: Seq<u8>, hb: Seq<u8>, np: Seq<u8>, pbo: Seq<u8>)
    requires
        p.len() == 32,
        hb.len() == 32,
        np.len() == 32,
        pbo.len() == 32,
    ensures
        forall|i: int|
            80 <= i < 96 ==> #[trigger] initial_sbox(p, hb, np, pbo)[i] == hb[(i + rotl8_spec((p[0] ^ 0x58u8).wrapping_mul(6u8), ((p[(i + 1) % 32] as u32 + i as u32) % 8) as u32) as int
                + rotr8_spec((np[1] ^ 0xEEu8).wrapping_mul(9u8), ((hb[(i + 2) % 32] as u32 + i as u32) % 8) as u32) as int) % 32]
                ^ hb[i - 80].wrapping_mul(0x13u8).wrapping_add(((i - 80) as u8).wrapping_mul(0xFFu8)),
{
    assert forall|i: int| 80 <= i < 96 implies #[trigger] initial_sbox(p, hb, np, pbo)[i] == hb[(i + rotl8_spec((p[0] ^ 0x58u8).wrapping_mul(6u8), ((p[(i + 1) % 32] as u32 + i as u32) % 8) as u32) as int
                + rotr8_spec((np[1] ^ 0xEEu8).wrapping_mul(9u8), ((hb[(i + 2) % 32] as u32 + i as u32) % 8) as u32) as int) % 32]
                ^ hb[i - 80].wrapping_mul(0x13u8).wrapping_add(((i - 80) as u8).wrapping_mul(0xFFu8)) by {
        lemma_sbox_entry_5(p, hb, np, pbo, i);
    }
}

proof fn lemma_sbox_entry_6(p: Seq<u8>, hb: Seq<u8>, np: Seq<u8>, pbo: Seq<u8>, i: int)
    requires
        p.len() == 32,
        hb.len() == 32,
        np.len() == 32,
        pbo.len() == 32,
        96 <= i < 112,
    ensures
        initial_sbox(p, hb, np, pbo)[i] == p[(i + rotl8_spec((pbo[2] ^ 0x37u8).wrapping_mul(2u8), ((p[(i + 1) % 32] as u32 + i as u32) % 8) as u32) as int
                + rotr8_spec((hb[6] ^ 0x44u8).wrapping_mul(6u8), ((hb[(i + 2) % 32] as u32 + i as u32) % 8) as u32) as int) % 32]
                ^ pbo[i - 96].wrapping_mul(0x17u8).wrapping_add(((i - 96) as u8).wrapping_mul(0x11u8)),
{
    let k = i as u8;
    assert(k as int == i);
    assert(((k as int) - 96) % 32 == i - 96);
    lemma_mask_ff(pbo[i - 96].wrapping_mul(0x17u8).wrapping_add(((i - 96) as u8).wrapping_mul(0x11u8)));
    assert(sbox_value(k, p, hb, np, pbo) == pbo[i - 96].wrapping_mul(0x17u8).wrapping_add(((i - 96) as u8).wrapping_mul(0x11u8)));
    assert(sbox_source(k, p, hb, np, pbo) == (p, (pbo[2] ^ 0x37u8).wrapping_mul(2u8), (hb[6] ^ 0x44u8).wrapping_mul(6u8)));
    lemma_entry_shape(p, hb, np, pbo, i, p, (pbo[2] ^ 0x37u8).wrapping_mul(2u8), (hb[6] ^ 0x44u8).wrapping_mul(6u8), pbo[i - 96].wrapping_mul(0x17u8).wrapping_add(((i - 96) as u8).wrapping_mul(0x11u8)));
}

proof fn lemma_sbox_block_6(p: Seq<u8>, hb: Seq<u8>, np: Seq<u8>, pbo: Seq<u8>)
    requires
        p.len() == 32,
        hb.len() == 32,
        np.len() == 32,
        pbo.len() == 32,
    ensures
        forall|i: int|
            96 <= i < 112 ==> #[trigger] initial_sbox(p, hb, np, pbo)[i] == p[(i + rotl8_spec((pbo[2] ^ 0x37u8).wrapping_mul(2u8), ((p[(i + 1) % 32] as u32 + i as u32) % 8) as u32) as int
                + rotr8_spec((hb[6] ^ 0x44u8).wrapping_mul(6u8), ((hb[(i + 2) % 32] as u32 + i as u32) % 8) as u32) as int) % 32]
                ^ pbo[i - 96].wrapping_mul(0x17u8).wrapping_add(((i - 96) as u8).wrapping_mul(0x11u8)),
{
    assert forall|i: int| 96 <= i < 112 implies #[trigger] initial_sbox(p, hb, np, pbo)[i] == p[(i + rotl8_spec((pbo[2] ^ 0x37u8).wrapping_mul(2u8), ((p[(i + 1) % 32] as u32 + i as u32) % 8) as u32) as int
                + rotr8_spec((hb[6] ^ 0x44u8).wrapping_mul(6u8), ((hb[(i + 2) % 32] as u32 + i as u32) % 8) as u32) as int) % 32]
                ^ pbo[i - 96].wrapping_mul(0x17u8).wrapping_add(((i - 96) as u8).wrapping_mul(0x11u8)) by {
        lemma_sbox_entry_6(p, hb, np, pbo, i);
    }
}

proof fn lemma_sbox_entry_7(p: Seq<u8>, hb: Seq<u8>, np: Seq<u8>, pbo: Seq<u8>, i: int)
    requires
        p.len() == 32,
        hb.len() == 32,
        np.len() == 32,
        pbo.len() == 32,
        112 <= i < 128,
    ensures
        initial_sbox(p, hb, np, pbo)[i] == hb[(i + rotl8_spec((p[5] ^ 0x1Au8).wrapping_mul(5u8), ((p[(i + 1) % 32] as u32 + i as u32) % 8) as u32) as int
                + rotr8_spec((hb[4] ^ 0x7Cu8).wrapping_mul(8u8), ((hb[(i + 2) % 32] as u32 + i as u32) % 8) as u32) as int) % 32]
                ^ np[i - 112].wrapping_mul(0x19u8).wrapping_add(((i - 112) as u8).wrapping_mul(0x22u8)),
{
    let k = i as u8;
    assert(k as int == i);
    assert(((k as int) - 112) % 32 == i - 112);
    lemma_mask_ff(np[i - 112].wrapping_mul(0x19u8).wrapping_add(((i - 112) as u8).wrapping_mul(0x22u8)));
    assert(sbox_value(k, p, hb, np, pbo) == np[i - 112].wrapping_mul(0x19u8).wrapping_add(((i - 112) as u8).wrapping_mul(0x22u8)));
    assert(sbox_source(k, p, hb, np, pbo) == (hb, (p[5] ^ 0x1Au8).wrapping_mul(5u8), (hb[4] ^ 0x7Cu8).wrapping_mul(8u8)));
    lemma_entry_shape(p, hb, np, pbo, i, hb, (p[5] ^ 0x1Au8).wrapping_mul(5u8), (hb[4] ^ 0x7Cu8).wrapping_mul(8u8), np[i - 112].wrapping_mul(0x19u8).wrapping_add(((i - 112) as u8).wrapping_mul(0x22u8)));
}

proof fn lemma_sbox_block_7(p: Seq<u8>, hb: Seq<u8>, np: Seq<u8>, pbo: Seq<u8>)
    requires
        p.len() == 32,
        hb.len() == 32,
        np.len() == 32,
        pbo.len() == 32,
    ensures
        forall|i: int|
            112 <= i < 128 ==> #[trigger] initial_sbox(p, hb, np, pbo)[i] == hb[(i + rotl8_spec((p[5] ^ 0x1Au8).wrapping_mul(5u8), ((p[(i + 1) % 32] as u32 + i as u32) % 8) as u32) as int
                + rotr8_spec((hb[4] ^ 0x7Cu8).wrapping_mul(8u8), ((hb[(i + 2) % 32] as u32 + i as u32) % 8) as u32) as int) % 32]
                ^ np[i - 112].wrapping_mul(0x19u8).wrapping_add(((i - 112) as u8).wrapping_mul(0x22u8)),
{
    assert forall|i: int| 112 <= i < 128 implies #[trigger] initial_sbox(p, hb, np, pbo)[i] == hb[(i + rotl8_spec((p[5] ^ 0x1Au8).wrapping_mul(5u8), ((p[(i + 1) % 32] as u32 + i as u32) % 8) as u32) as int
                + rotr8_spec((hb[4] ^ 0x7Cu8).wrapping_mul(8u8), ((hb[(i + 2) % 32] as u32 + i as u32) % 8) as u32) as int) % 32]
                ^ np[i - 112].wrapping_mul(0x19u8).wrapping_add(((i - 112) as u8).wrapping_mul(0x22u8)) by {
        lemma_sbox_entry_7(p, hb, np, pbo, i);
    }
}

proof fn lemma_sbox_entry_8(p: Seq<u8>, hb: Seq<u8>, np: Seq<u8>, pbo: Seq<u8>, i: int)
    requires
        p.len() == 32,
        hb.len() == 32,
        np.len() == 32,
        pbo.len() == 32,
        128 <= i < 144,
    ensures
        initial_sbox(p, hb, np, pbo)[i] == pbo[(i + rotl8_spec((np[3] ^ 0x93u8).wrapping_mul(7u8), ((p[(i + 1) % 32] as u32 + i as u32) % 8) as u32) as int
                + rotr8_spec((p[2] ^ 0xAFu8).wrapping_mul(3u8), ((hb[(i + 2) % 32] as u32 + i as u32) % 8) as u32) as int) % 32]
                ^ p[i - 128].wrapping_mul(0x1Du8).wrapping_add(((i - 128) as u8).wrapping_mul(0x33u8)),
{
    let k = i as u8;
    assert(k as int == i);
    assert(((k as int) - 128) % 32 == i - 128);
    lemma_mask_ff(p[i - 128].wrapping_mul(0x1Du8).wrapping_add(((i - 128) as u8).wrapping_mul(0x33u8)));
    assert(sbox_value(k, p, hb, np, pbo) == p[i - 128].wrapping_mul(0x1Du8).wrapping_add(((i - 128) as u8).wrapping_mul(0x33u8)));
    assert(sbox_source(k, p, hb, np, pbo) == (pbo, (np[3] ^ 0x93u8).wrapping_mul(7u8), (p[2] ^ 0xAFu8).wrapping_mul(3u8)));
    lemma_entry_shape(p, hb, np, pbo, i, pbo, (np[3] ^ 0x93u8).wrapping_mul(7u8), (p[2] ^ 0xAFu8).wrapping_mul(3u8), p[i - 128].wrapping_mul(0x1Du8).wrapping_add(((i - 128) as u8).wrapping_mul(0x33u8)));
}

proof fn lemma_sbox_block_8(p: Seq<u8>, hb: Seq<u8>, np: Seq<u8>, pbo: Seq<u8>)
    requires
        p.len() == 32,
        hb.len() == 32,
        np.len() == 32,
        pbo.len() == 32,
    ensures
        forall|i: int|
            128 <= i < 144 ==> #[trigger] initial_sbox(p, hb, np, pbo)[i] == pbo[(i + rotl8_spec((np[3] ^ 0x93u8).wrapping_mul(7u8), ((p[(i + 1) % 32] as u32 + i as u32) % 8) as u32) as int
                + rotr8_spec((p[2] ^ 0xAFu8).wrapping_mul(3u8), ((hb[(i + 2) % 32] as u32 + i as u32) % 8) as u32) as int) % 32]
                ^ p[i - 128].wrapping_mul(0x1Du8).wrapping_add(((i - 128) as u8).wrapping_mul(0x33u8)),
{
    assert forall|i: int| 128 <= i < 144 implies #[trigger] initial_sbox(p, hb, np, pbo)[i] == pbo[(i + rotl8_spec((np[3] ^ 0x93u8).wrapping_mul(7u8), ((p[(i + 1) % 32] as u32 + i as u32) % 8) as u32) as int
                + rotr8_spec((p[2] ^ 0xAFu8).wrapping_mul(3u8), ((hb[(i + 2) % 32] as u32 + i as u32) % 8) as u32) as int) % 32]
                ^ p[i - 128].wrapping_mul(0x1Du8).wrapping_add(((i - 128) as u8).wrapping_mul(0x33u8)) by {
        lemma_sbox_entry_8(p, hb, np, pbo, i);
    }
}

proof fn lemma_sbox_entry_9(p: Seq<u8>, hb: Seq<u8>, np: Seq<u8>, pbo: Seq<u8>, i: int)
    requires
        p.len() == 32,
        hb.len() == 32,
        np.len() == 32,
        pbo.len() == 32,
        144 <= i < 160,
    ensures
        initial_sbox(p, hb, np, pbo)[i] == hb[(i + rotl8_spec((p[7] ^ 0x29u8).wrapping_mul(9u8), ((p[(i + 1) % 32] as u32 + i as u32) % 8) as u32) as int
                + rotr8_spec((np[5] ^ 0xDCu8).wrapping_mul(2u8), ((hb[(i + 2) % 32] as u32 + i as u32) % 8) as u32) as int) % 32]
                ^ hb[i - 144].wrapping_mul(0x1Fu8).wrapping_add(((i - 144) as u8).wrapping_mul(0x44u8)),
{
    let k = i as u8;
    assert(k as int == i);
    assert(((k as int) - 144) % 32 == i - 144);
    lemma_mask_ff(hb[i - 144].wrapping_mul(0x1Fu8).wrapping_add(((i - 144) as u8).wrapping_mul(0x44u8)));
    assert(sbox_value(k, p, hb, np, pbo) == hb[i - 144].wrapping_mul(0x1Fu8).wrapping_add(((i - 144) as u8).wrapping_mul(0x44u8)));
    assert(sbox_source(k, p, hb, np, pbo) == (hb, (p[7] ^ 0x29u8).wrapping_mul(9u8), (np[5] ^ 0xDCu8).wrapping_mul(2u8)));
    lemma_entry_shape(p, hb, np, pbo, i, hb, (p[7] ^ 0x29u8).wrapping_mul(9u8), (np[5] ^ 0xDCu8).wrapping_mul(2u8), hb[i - 144].wrapping_mul(0x1Fu8).wrapping_add(((i - 144) as u8).wrapping_mul(0x44u8)));
}

proof fn lemma_sbox_block_9(p: Seq<u8>, hb: Seq<u8>, np: Seq<u8>, pbo: Seq<u8>)
    requires
        p.len() == 32,
        hb.len() == 32,
        np.len() == 32,
        pbo.len() == 32,
    ensures
        forall|i: int|
            144 <= i < 160 ==> #[trigger] initial_sbox(p, hb, np, pbo)[i] == hb[(i + rotl8_spec((p[7] ^ 0x29u8).wrapping_mul(9u8), ((p[(i + 1) % 32] as u32 + i as u32) % 8) as u32) as int
                + rotr8_spec((np[5] ^ 0xDCu8).wrapping_mul(2u8), ((hb[(i + 2) % 32] as u32 + i as u32) % 8) as u32) as int) % 32]
                ^ hb[i - 144].wrapping_mul(0x1Fu8).wrapping_add(((i - 144) as u8).wrapping_mul(0x44u8)),
{
    assert forall|i: int| 144 <= i < 160 implies #[trigger] initial_sbox(p, hb, np, pbo)[i] == hb[(i + rotl8_spec((p[7] ^ 0x29u8).wrapping_mul(9u8), ((p[(i + 1) % 32] as u32 + i as u32) % 8) as u32) as int
                + rotr8_spec((np[5] ^ 0xDCu8).wrapping_mul(2u8), ((hb[(i + 2) % 32] as u32 + i as u32) % 8) as u32) as int) % 32]
                ^ hb[i - 144].wrapping_mul(0x1Fu8).wrapping_add(((i - 144) as u8).wrapping_mul(0x44u8)) by {
        lemma_sbox_entry_9(p, hb, np, pbo, i);
    }
}

proof fn lemma_sbox_entry_10(p: Seq<u8>, hb: Seq<u8>, np: Seq<u8>, pbo: Seq<u8>, i: int)
    requires
        p.len() == 32,
        hb.len() == 32,
        np.len() == 32,
        pbo.len() == 32,
        160 <= i < 176,
    ensures
        initial_sbox(p, hb, np, pbo)[i] == np[(i + rotl8_spec((pbo[1] ^ 0x4Eu8).wrapping_mul(4u8), ((p[(i + 1) % 32] as u32 + i as u32) % 8) as u32) as int
                + rotr8_spec((hb[0] ^ 0x8Bu8).wrapping_mul(3u8), ((hb[(i + 2) % 32] as u32 + i as u32) % 8) as u32) as int) % 32]
                ^ pbo[i - 160].wrapping_mul(0x23u8).wrapping_add(((i - 160) as u8).wrapping_mul(0x55u8)),
{
    let k = i as u8;
    assert(k as int == i);
    assert(((k as int) - 160) % 32 == i - 160);
    lemma_mask_ff(pbo[i - 160].wrapping_mul(0x23u8).wrapping_add(((i - 160) as u8).wrapping_mul(0x55u8)));
    assert(sbox_value(k, p, hb, np, pbo) == pbo[i - 160].wrapping_mul(0x23u8).wrapping_add(((i - 160) as u8).wrapping_mul(0x55u8)));
    assert(sbox_source(k, p, hb, np, pbo) == (np, (pbo[1] ^ 0x4Eu8).wrapping_mul(4u8), (hb[0] ^ 0x8Bu8).wrapping_mul(3u8)));
    lemma_entry_shape(p, hb, np, pbo, i, np, (pbo[1] ^ 0x4Eu8).wrapping_mul(4u8), (hb[0] ^ 0x8Bu8).wrapping_mul(3u8), pbo[i - 160].wrapping_mul(0x23u8).wrapping_add(((i - 160) as u8).wrapping_mul(0x55u8)));
}

proof fn lemma_sbox_block_10(p: Seq<u8>, hb: Seq<u8>, np: Seq<u8>, pbo: Seq<u8>)
    requires
        p.len() == 32,
        hb.len() == 32,
        np.len() == 32,
        pbo.len() == 32,
    ensures
        forall|i: int|
            160 <= i < 176 ==> #[trigger] initial_sbox(p, hb, np, pbo)[i] == np[(i + rotl8_spec((pbo[1] ^ 0x4Eu8).wrapping_mul(4u8), ((p[(i + 1) % 32] as u32 + i as u32) % 8) as u32) as int
                + rotr8_spec((hb[0] ^ 0x8Bu8).wrapping_mul(3u8), ((hb[(i + 2) % 32] as u32 + i as u32) % 8) as u32) as int) % 32]
                ^ pbo[i - 160].wrapping_mul(0x23u8).wrapping_add(((i - 160) as u8).wrapping_mul(0x55u8)),
{
    assert forall|i: int| 160 <= i < 176 implies #[trigger] initial_sbox(p, hb, np, pbo)[i] == np[(i + rotl8_spec((pbo[1] ^ 0x4Eu8).wrapping_mul(4u8), ((p[(i + 1) % 32] as u32 + i as u32) % 8) as u32) as int
                + rotr8_spec((hb[0] ^ 0x8Bu8).wrapping_mul(3u8), ((hb[(i + 2) % 32] as u32 + i as u32) % 8) as u32) as int) % 32]
                ^ pbo[i - 160].wrapping_mul(0x23u8).wrapping_add(((i - 160) as u8).wrapping_mul(0x55u8)) by {
        lemma_sbox_entry_10(p, hb, np, pbo, i);
    }
}

proof fn lemma_sbox_entry_11(p: Seq<u8>, hb: Seq<u8>, np: Seq<u8>, pbo: Seq<u8>, i: int)
    requires
        p.len() == 32,
        hb.len() == 32,
        np.len() == 32,
        pbo.len() == 32,
        176 <= i < 192,
    ensures
        initial_sbox(p, hb, np, pbo)[i] == hb[(i + rotl8_spec((np[6] ^ 0xF3u8).wrapping_mul(5u8), ((p[(i + 1) % 32] as u32 + i as u32) % 8) as u32) as int
                + rotr8_spec((pbo[3] ^ 0x62u8).wrapping_mul(8u8), ((hb[(i + 2) % 32] as u32 + i as u32) % 8) as u32) as int) % 32]
                ^ np[i - 176].wrapping_mul(0x29u8).wrapping_add(((i - 176) as u8).wrapping_mul(0x66u8)),
{
    let k = i as u8;
    assert(k as int == i);
    assert(((k as int) - 176) % 32 == i - 176);
    lemma_mask_ff(np[i - 176].wrapping_mul(0x29u8).wrapping_add(((i - 176) as u8).wrapping_mul(0x66u8)));
    assert(sbox_value(k, p, hb, np, pbo) == np[i - 176].wrapping_mul(0x29u8).wrapping_add(((i - 176) as u8).wrapping_mul(0x66u8)));
    assert(sbox_source(k, p, hb, np, pbo) == (hb, (np[6] ^ 0xF3u8).wrapping_mul(5u8), (pbo[3] ^ 0x62u8).wrapping_mul(8u8)));
    lemma_entry_shape(p, hb, np, pbo, i, hb, (np[6] ^ 0xF3u8).wrapping_mul(5u8), (pbo[3] ^ 0x62u8).wrapping_mul(8u8), np[i - 176].wrapping_mul(0x29u8).wrapping_add(((i - 176) as u8).wrapping_mul(0x66u8)));
}

proof fn lemma_sbox_block_11(p: Seq<u8>, hb: Seq<u8>, np: Seq<u8>, pbo: Seq<u8>)
    requires
        p.len() == 32,
        hb.len() == 32,
        np.len() == 32,
        pbo.len() == 32,
    ensures
        forall|i: int|
            176 <= i < 192 ==> #[trigger] initial_sbox(p, hb, np, pbo)[i] == hb[(i + rotl8_spec((np[6] ^ 0xF3u8).wrapping_mul(5u8), ((p[(i + 1) % 32] as u32 + i as u32) % 8) as u32) as int
                + rotr8_spec((pbo[3] ^ 0x62u8).wrapping_mul(8u8), ((hb[(i + 2) % 32] as u32 + i as u32) % 8) as u32) as int) % 32]
                ^ np[i - 176].wrapping_mul(0x29u8).wrapping_add(((i - 176) as u8).wrapping_mul(0x66u8)),
{
    assert forall|i: int| 176 <= i < 192 implies #[trigger] initial_sbox(p, hb, np, pbo)[i] == hb[(i + rotl8_spec((np[6] ^ 0xF3u8).wrapping_mul(5u8), ((p[(i + 1) % 32] as u32 + i as u32) % 8) as u32) as int
                + rotr8_spec((pbo[3] ^ 0x62u8).wrapping_mul(8u8), ((hb[(i + 2) % 32] as u32 + i as u32) % 8) as u32) as int) % 32]
                ^ np[i - 176].wrapping_mul(0x29u8).wrapping_add(((i - 176) as u8).wrapping_mul(0x66u8)) by {
        lemma_sbox_entry_11(p, hb, np, pbo, i);
    }
}

proof fn lemma_sbox_entry_12(p: Seq<u8>, hb: Seq<u8>, np: Seq<u8>, pbo: Seq<u8>, i: int)
    requires
        p.len() == 32,
        hb.len() == 32,
        np.len() == 32,
        pbo.len() == 32,
        192 <= i < 208,
    ensures
        initial_sbox(p, hb, np, pbo)[i] == pbo[(i + rotl8_spec((p[4] ^ 0xB7u8).wrapping_mul(6u8), ((p[(i + 1) % 32] as u32 + i as u32) % 8) as u32) as int
                + rotr8_spec((p[7] ^ 0x15u8).wrapping_mul(2u8), ((hb[(i + 2) % 32] as u32 + i as u32) % 8) as u32) as int) % 32]
                ^ p[i - 192].wrapping_mul(0x2Fu8).wrapping_add(((i - 192) as u8).wrapping_mul(0x77u8)),
{
    let k = i as u8;
    assert(k as int == i);
    assert(((k as int) - 192) % 32 == i - 192);
    lemma_mask_ff(p[i - 192].wrapping_mul(0x2Fu8).wrapping_add(((i - 192) as u8).wrapping_mul(0x77u8)));
    assert(sbox_value(k, p, hb, np, pbo) == p[i - 192].wrapping_mul(0x2Fu8).wrapping_add(((i - 192) as u8).wrapping_mul(0x77u8)));
    assert(sbox_source(k, p, hb, np, pbo) == (pbo, (p[4] ^ 0xB7u8).wrapping_mul(6u8), (p[7] ^ 0x15u8).wrapping_mul(2u8)));
    lemma_entry_shape(p, hb, np, pbo, i, pbo, (p[4] ^ 0xB7u8).wrapping_mul(6u8), (p[7] ^ 0x15u8).wrapping_mul(2u8), p[i - 192].wrapping_mul(0x2Fu8).wrapping_add(((i - 192) as u8).wrapping_mul(0x77u8)));
}

proof fn lemma_sbox_block_12(p: Seq<u8>, hb: Seq<u8>, np: Seq<u8>, pbo: Seq<u8>)
    requires
        p.len() == 32,
        hb.len() == 32,
        np.len() == 32,
        pbo.len() == 32,
    ensures
        forall|i: int|
            192 <= i < 208 ==> #[trigger] initial_sbox(p, hb, np, pbo)[i] == pbo[(i + rotl8_spec((p[4] ^ 0xB7u8).wrapping_mul(6u8), ((p[(i + 1) % 32] as u32 + i as u32) % 8) as u32) as int
                + rotr8_spec((p[7] ^ 0x15u8).wrapping_mul(2u8), ((hb[(i + 2) % 32] as u32 + i as u32) % 8) as u32) as int) % 32]
                ^ p[i - 192].wrapping_mul(0x2Fu8).wrapping_add(((i - 192) as u8).wrapping_mul(0x77u8)),
{
    assert forall|i: int| 192 <= i < 208 implies #[trigger] initial_sbox(p, hb, np, pbo)[i] == pbo[(i + rotl8_spec((p[4] ^ 0xB7u8).wrapping_mul(6u8), ((p[(i + 1) % 32] as u32 + i as u32) % 8) as u32) as int
                + rotr8_spec((p[7] ^ 0x15u8).wrapping_mul(2u8), ((hb[(i + 2) % 32] as u32 + i as u32) % 8) as u32) as int) % 32]
                ^ p[i - 192].wrapping_mul(0x2Fu8).wrapping_add(((i - 192) as u8).wrapping_mul(0x77u8)) by {
        lemma_sbox_entry_12(p, hb, np, pbo, i);
    }
}

proof fn lemma_sbox_entry_13(p: Seq<u8>, hb: Seq<u8>, np: Seq<u8>, pbo: Seq<u8>, i: int)
    requires
        p.len() == 32,
        hb.len() == 32,
        np.len() == 32,
        pbo.len() == 32,
        208 <= i < 224,
    ensures
        initial_sbox(p, hb, np, pbo)[i] == hb[(i + rotl8_spec((p[0] ^ 0x2Du8).wrapping_mul(8u8), ((p[(i + 1) % 32] as u32 + i as u32) % 8) as u32) as int
                + rotr8_spec((pbo[1] ^ 0xC8u8).wrapping_mul(7u8), ((hb[(i + 2) % 32] as u32 + i as u32) % 8) as u32) as int) % 32]
                ^ hb[i - 208].wrapping_mul(0x31u8).wrapping_add(((i - 208) as u8).wrapping_mul(0x88u8)),
{
    let k = i as u8;
    assert(k as int == i);
    assert(((k as int) - 208) % 32 == i - 208);
    lemma_mask_ff(hb[i - 208].wrapping_mul(0x31u8).wrapping_add(((i - 208) as u8).wrapping_mul(0x88u8)));
    assert(sbox_value(k, p, hb, np, pbo) == hb[i - 208].wrapping_mul(0x31u8).wrapping_add(((i - 208) as u8).wrapping_mul(0x88u8)));
    assert(sbox_source(k, p, hb, np, pbo) == (hb, (p[0] ^ 0x2Du8).wrapping_mul(8u8), (pbo[1] ^ 0xC8u8).wrapping_mul(7u8)));
    lemma_entry_shape(p, hb, np, pbo, i, hb, (p[0] ^ 0x2Du8).wrapping_mul(8u8), (pbo[1] ^ 0xC8u8).wrapping_mul(7u8), hb[i - 208].wrapping_mul(0x31u8).wrapping_add(((i - 208) as u8).wrapping_mul(0x88u8)));
}

proof fn lemma_sbox_block_13(p: Seq<u8>, hb: Seq<u8>, np: Seq<u8>, pbo: Seq<u8>)
    requires
        p.len() == 32,
        hb.len() == 32,
        np.len() == 32,
        pbo.len() == 32,
    ensures
        forall|i: int|
            208 <= i < 224 ==> #[trigger] initial_sbox(p, hb, np, pbo)[i] == hb[(i + rotl8_spec((p[0] ^ 0x2Du8).wrapping_mul(8u8), ((p[(i + 1) % 32] as u32 + i as u32) % 8) as u32) as int
                + rotr8_spec((pbo[1] ^ 0xC8u8).wrapping_mul(7u8), ((hb[(i + 2) % 32] as u32 + i as u32) % 8) as u32) as int) % 32]
                ^ hb[i - 208].wrapping_mul(0x31u8).wrapping_add(((i - 208) as u8).wrapping_mul(0x88u8)),
{
    assert forall|i: int| 208 <= i < 224 implies #[trigger] initial_sbox(p, hb, np, pbo)[i] == hb[(i + rotl8_spec((p[0] ^ 0x2Du8).wrapping_mul(8u8), ((p[(i + 1) % 32] as u32 + i as u32) % 8) as u32) as int
                + rotr8_spec((pbo[1] ^ 0xC8u8).wrapping_mul(7u8), ((hb[(i + 2) % 32] as u32 + i as u32) % 8) as u32) as int) % 32]
                ^ hb[i - 208].wrapping_mul(0x31u8).wrapping_add(((i - 208) as u8).wrapping_mul(0x88u8)) by {
        lemma_sbox_entry_13(p, hb, np, pbo, i);
    }
}

proof fn lemma_sbox_entry_14(p: Seq<u8>, hb: Seq<u8>, np: Seq<u8>, pbo: Seq<u8>, i: int)
    requires
        p.len() == 32,
        hb.len() == 32,
        np.len() == 32,
        pbo.len() == 32,
        224 <= i < 240,
    ensures
        initial_sbox(p, hb, np, pbo)[i] == p[(i + rotl8_spec((pbo[2] ^ 0x6Fu8).wrapping_mul(3u8), ((p[(i + 1) % 32] as u32 + i as u32) % 8) as u32) as int
                + rotr8_spec((np[6] ^ 0x99u8).wrapping_mul(9u8), ((hb[(i + 2) % 32] as u32 + i as u32) % 8) as u32) as int) % 32]
                ^ pbo[i - 224].wrapping_mul(0x37u8).wrapping_add(((i - 224) as u8).wrapping_mul(0x99u8)),
{
    let k = i as u8;
    assert(k as int == i);
    assert(((k as int) - 224) % 32 == i - 224);
    lemma_mask_ff(pbo[i - 224].wrapping_mul(0x37u8).wrapping_add(((i - 224) as u8).wrapping_mul(0x99u8)));
    assert(sbox_value(k, p, hb, np, pbo) == pbo[i - 224].wrapping_mul(0x37u8).wrapping_add(((i - 224) as u8).wrapping_mul(0x99u8)));
    assert(sbox_source(k, p, hb, np, pbo) == (p, (pbo[2] ^ 0x6Fu8).wrapping_mul(3u8), (np[6] ^ 0x99u8).wrapping_mul(9u8)));
    lemma_entry_shape(p, hb, np, pbo, i, p, (pbo[2] ^ 0x6Fu8).wrapping_mul(3u8), (np[6] ^ 0x99u8).wrapping_mul(9u8), pbo[i - 224].wrapping_mul(0x37u8).wrapping_add(((i - 224) as u8).wrapping_mul(0x99u8)));
}

proof fn lemma_sbox_block_14(p: Seq<u8>, hb: Seq<u8>, np: Seq<u8>, pbo: Seq<u8>)
    requires
        p.len() == 32,
        hb.len() == 32,
        np.len() == 32,
        pbo.len() == 32,
    ensures
        forall|i: int|
            224 <= i < 240 ==> #[trigger] initial_sbox(p, hb, np, pbo)[i] == p[(i + rotl8_spec((pbo[2] ^ 0x6Fu8).wrapping_mul(3u8), ((p[(i + 1) % 32] as u32 + i as u32) % 8) as u32) as int
                + rotr8_spec((np[6] ^ 0x99u8).wrapping_mul(9u8), ((hb[(i + 2) % 32] as u32 + i as u32) % 8) as u32) as int) % 32]
                ^ pbo[i - 224].wrapping_mul(0x37u8).wrapping_add(((i - 224) as u8).wrapping_mul(0x99u8)),
{
    assert forall|i: int| 224 <= i < 240 implies #[trigger] initial_sbox(p, hb, np, pbo)[i] == p[(i + rotl8_spec((pbo[2] ^ 0x6Fu8).wrapping_mul(3u8), ((p[(i + 1) % 32] as u32 + i as u32) % 8) as u32) as int
                + rotr8_spec((np[6] ^ 0x99u8).wrapping_mul(9u8), ((hb[(i + 2) % 32] as u32 + i as u32) % 8) as u32) as int) % 32]
                ^ pbo[i - 224].wrapping_mul(0x37u8).wrapping_add(((i - 224) as u8).wrapping_mul(0x99u8)) by {
        lemma_sbox_entry_14(p, hb, np, pbo, i);
    }
}

proof fn lemma_sbox_entry_15(p: Seq<u8>, hb: Seq<u8>, np: Seq<u8>, pbo: Seq<u8>, i: int)
    requires
        p.len() == 32,
        hb.len() == 32,
        np.len() == 32,
        pbo.len() == 32,
        240 <= i < 256,
    ensures
        initial_sbox(p, hb, np, pbo)[i] == hb[(i + rotl8_spec((np[5] ^ 0xE1u8).wrapping_mul(7u8), ((p[(i + 1) % 32] as u32 + i as u32) % 8) as u32) as int
                + rotr8_spec((hb[4] ^ 0x3Bu8).wrapping_mul(5u8), ((hb[(i + 2) % 32] as u32 + i as u32) % 8) as u32) as int) % 32]
                ^ np[i - 240].wrapping_mul(0x3Fu8).wrapping_add(((i - 240) as u8).wrapping_mul(0xAAu8)),
{
    let k = i as u8;
    assert(k as int == i);
    assert(((k as int) - 240) % 32 == i - 240);
    lemma_mask_ff(np[i - 240].wrapping_mul(0x3Fu8).wrapping_add(((i - 240) as u8).wrapping_mul(0xAAu8)));
    assert(sbox_value(k, p, hb, np, pbo) == np[i - 240].wrapping_mul(0x3Fu8).wrapping_add(((i - 240) as u8).wrapping_mul(0xAAu8)));
    assert(sbox_source(k, p, hb, np, pbo) == (hb, (np[5] ^ 0xE1u8).wrapping_mul(7u8), (hb[4] ^ 0x3Bu8).wrapping_mul(5u8)));
    lemma_entry_shape(p, hb, np, pbo, i, hb, (np[5] ^ 0xE1u8).wrapping_mul(7u8), (hb[4] ^ 0x3Bu8).wrapping_mul(5u8), np[i - 240].wrapping_mul(0x3Fu8).wrapping_add(((i - 240) as u8).wrapping_mul(0xAAu8)));
}

proof fn lemma_sbox_block_15(p: Seq<u8>, hb: Seq<u8>, np: Seq<u8>, pbo: Seq<u8>)
    requires
        p.len() == 32,
        hb.len() == 32,
        np.len() == 32,
        pbo.len() == 32,
    ensures
        forall|i: int|
            240 <= i < 256 ==> #[trigger] initial_sbox(p, hb, np, pbo)[i] == hb[(i + rotl8_spec((np[5] ^ 0xE1u8).wrapping_mul(7u8), ((p[(i + 1) % 32] as u32 + i as u32) % 8) as u32) as int
                + rotr8_spec((hb[4] ^ 0x3Bu8).wrapping_mul(5u8), ((hb[(i + 2) % 32] as u32 + i as u32) % 8) as u32) as int) % 32]
                ^ np[i - 240].wrapping_mul(0x3Fu8).wrapping_add(((i - 240) as u8).wrapping_mul(0xAAu8)),
{
    assert forall|i: int| 240 <= i < 256 implies #[trigger] initial_sbox(p, hb, np, pbo)[i] == hb[(i + rotl8_spec((np[5] ^ 0xE1u8).wrapping_mul(7u8), ((p[(i + 1) % 32] as u32 + i as u32) % 8) as u32) as int
                + rotr8_spec((hb[4] ^ 0x3Bu8).wrapping_mul(5u8), ((hb[(i + 2) % 32] as u32 + i as u32) % 8) as u32) as int) % 32]
                ^ np[i - 240].wrapping_mul(0x3Fu8).wrapping_add(((i - 240) as u8).wrapping_mul(0xAAu8)) by {
        lemma_sbox_entry_15(p, hb, np, pbo, i);
    }
}

/// The initial S-box in blocks of 16 entries. Entry `i` of a block reads one of the four
/// arrays (the product after the octonion stage `p`, the hash `hb`, the nibble product `np`,
/// the product before the octonion stage `pbo`) at position `i` plus two rotated bytes,
/// modulo 32, and XORs in a byte of another array scaled by an odd factor plus the offset
/// of `i` in its block scaled by a constant. Which arrays, bytes and constants each block
/// uses is listed clause by clause.
pub proof fn lemma_initial_sbox_blocks(p: Seq<u8>, hb: Seq<u8>, np: Seq<u8>, pbo: Seq<u8>)
    requires
        p.len() == 32,
        hb.len() == 32,
        np.len() == 32,
        pbo.len() == 32,
    ensures
        forall|i: int|
            0 <= i < 16 ==> #[trigger] initial_sbox(p, hb, np, pbo)[i] == p[(i + rotl8_spec((np[3] ^ 0x4Fu8).wrapping_mul(3u8), ((p[(i + 1) % 32] as u32 + i as u32) % 8) as u32) as int
                + rotr8_spec((hb[2] ^ 0xD3u8).wrapping_mul(5u8), ((hb[(i + 2) % 32] as u32 + i as u32) % 8) as u32) as int) % 32]
                ^ p[i - 0].wrapping_mul(0x03u8).wrapping_add(((i - 0) as u8).wrapping_mul(0xAAu8)),
        forall|i: int|
            16 <= i < 32 ==> #[trigger] initial_sbox(p, hb, np, pbo)[i] == hb[(i + rotl8_spec((p[7] ^ 0xA6u8).wrapping_mul(2u8), ((p[(i + 1) % 32] as u32 + i as u32) % 8) as u32) as int
                + rotr8_spec((np[5] ^ 0x5Bu8).wrapping_mul(7u8), ((hb[(i + 2) % 32] as u32 + i as u32) % 8) as u32) as int) % 32]
                ^ hb[i - 16].wrapping_mul(0x05u8).wrapping_add(((i - 16) as u8).wrapping_mul(0xBBu8)),
        forall|i: int|
            32 <= i < 48 ==> #[trigger] initial_sbox(p, hb, np, pbo)[i] == np[(i + rotl8_spec((pbo[1] ^ 0x9Cu8).wrapping_mul(9u8), ((p[(i + 1) % 32] as u32 + i as u32) % 8) as u32) as int
                + rotr8_spec((p[0] ^ 0x8Eu8).wrapping_mul(3u8), ((hb[(i + 2) % 32] as u32 + i as u32) % 8) as u32) as int) % 32]
                ^ pbo[i - 32].wrapping_mul(0x07u8).wrapping_add(((i - 32) as u8).wrapping_mul(0xCCu8)),
        forall|i: int|
            48 <= i < 64 ==> #[trigger] initial_sbox(p, hb, np, pbo)[i] == hb[(i + rotl8_spec((p[6] ^ 0x71u8).wrapping_mul(4u8), ((p[(i + 1) % 32] as u32 + i as u32) % 8) as u32) as int
                + rotr8_spec((pbo[3] ^ 0x2Fu8).wrapping_mul(5u8), ((hb[(i + 2) % 32] as u32 + i as u32) % 8) as u32) as int) % 32]
                ^ np[i - 48].wrapping_mul(0x0Fu8).wrapping_add(((i - 48) as u8).wrapping_mul(0xDDu8)),
        forall|i: int|
            64 <= i < 80 ==> #[trigger] initial_sbox(p, hb, np, pbo)[i] == pbo[(i + rotl8_spec((np[4] ^ 0xB2u8).wrapping_mul(3u8), ((p[(i + 1) % 32] as u32 + i as u32) % 8) as u32) as int
                + rotr8_spec((hb[7] ^ 0x6Du8).wrapping_mul(7u8), ((hb[(i + 2) % 32] as u32 + i as u32) % 8) as u32) as int) % 32]
                ^ p[i - 64].wrapping_mul(0x11u8).wrapping_add(((i - 64) as u8).wrapping_mul(0xEEu8)),
        forall|i: int|
            80 <= i < 96 ==> #[trigger] initial_sbox(p, hb, np, pbo)[i] == hb[(i + rotl8_spec((p[0] ^ 0x58u8).wrapping_mul(6u8), ((p[(i + 1) % 32] as u32 + i as u32) % 8) as u32) as int
                + rotr8_spec((np[1] ^ 0xEEu8).wrapping_mul(9u8), ((hb[(i + 2) % 32] as u32 + i as u32) % 8) as u32) as int) % 32]
                ^ hb[i - 80].wrapping_mul(0x13u8).wrapping_add(((i - 80) as u8).wrapping_mul(0xFFu8)),
        forall|i: int|
            96 <= i < 112 ==> #[trigger] initial_sbox(p, hb, np, pbo)[i] == p[(i + rotl8_spec((pbo[2] ^ 0x37u8).wrapping_mul(2u8), ((p[(i + 1) % 32] as u32 + i as u32) % 8) as u32) as int
                + rotr8_spec((hb[6] ^ 0x44u8).wrapping_mul(6u8), ((hb[(i + 2) % 32] as u32 + i as u32) % 8) as u32) as int) % 32]
                ^ pbo[i - 96].wrapping_mul(0x17u8).wrapping_add(((i - 96) as u8).wrapping_mul(0x11u8)),
        forall|i: int|
            112 <= i < 128 ==> #[trigger] initial_sbox(p, hb, np, pbo)[i] == hb[(i + rotl8_spec((p[5] ^ 0x1Au8).wrapping_mul(5u8), ((p[(i + 1) % 32] as u32 + i as u32) % 8) as u32) as int
                + rotr8_spec((hb[4] ^ 0x7Cu8).wrapping_mul(8u8), ((hb[(i + 2) % 32] as u32 + i as u32) % 8) as u32) as int) % 32]
                ^ np[i - 112].wrapping_mul(0x19u8).wrapping_add(((i - 112) as u8).wrapping_mul(0x22u8)),
        forall|i: int|
            128 <= i < 144 ==> #[trigger] initial_sbox(p, hb, np, pbo)[i] == pbo[(i + rotl8_spec((np[3] ^ 0x93u8).wrapping_mul(7u8), ((p[(i + 1) % 32] as u32 + i as u32) % 8) as u32) as int
                + rotr8_spec((p[2] ^ 0xAFu8).wrapping_mul(3u8), ((hb[(i + 2) % 32] as u32 + i as u32) % 8) as u32) as int) % 32]
                ^ p[i - 128].wrapping_mul(0x1Du8).wrapping_add(((i - 128) as u8).wrapping_mul(0x33u8)),
        forall|i: int|
            144 <= i < 160 ==> #[trigger] initial_sbox(p, hb, np, pbo)[i] == hb[(i + rotl8_spec((p[7] ^ 0x29u8).wrapping_mul(9u8), ((p[(i + 1) % 32] as u32 + i as u32) % 8) as u32) as int
                + rotr8_spec((np[5] ^ 0xDCu8).wrapping_mul(2u8), ((hb[(i + 2) % 32] as u32 + i as u32) % 8) as u32) as int) % 32]
                ^ hb[i - 144].wrapping_mul(0x1Fu8).wrapping_add(((i - 144) as u8).wrapping_mul(0x44u8)),
        forall|i: int|
            160 <= i < 176 ==> #[trigger] initial_sbox(p, hb, np, pbo)[i] == np[(i + rotl8_spec((pbo[1] ^ 0x4Eu8).wrapping_mul(4u8), ((p[(i + 1) % 32] as u32 + i as u32) % 8) as u32) as int
                + rotr8_spec((hb[0] ^ 0x8Bu8).wrapping_mul(3u8), ((hb[(i + 2) % 32] as u32 + i as u32) % 8) as u32) as int) % 32]
                ^ pbo[i - 160].wrapping_mul(0x23u8).wrapping_add(((i - 160) as u8).wrapping_mul(0x55u8)),
        forall|i: int|
            176 <= i < 192 ==> #[trigger] initial_sbox(p, hb, np, pbo)[i] == hb[(i + rotl8_spec((np[6] ^ 0xF3u8).wrapping_mul(5u8), ((p[(i + 1) % 32] as u32 + i as u32) % 8) as u32) as int
                + rotr8_spec((pbo[3] ^ 0x62u8).wrapping_mul(8u8), ((hb[(i + 2) % 32] as u32 + i as u32) % 8) as u32) as int) % 32]
                ^ np[i - 176].wrapping_mul(0x29u8).wrapping_add(((i - 176) as u8).wrapping_mul(0x66u8)),
        forall|i: int|
            192 <= i < 208 ==> #[trigger] initial_sbox(p, hb, np, pbo)[i] == pbo[(i + rotl8_spec((p[4] ^ 0xB7u8).wrapping_mul(6u8), ((p[(i + 1) % 32] as u32 + i as u32) % 8) as u32) as int
                + rotr8_spec((p[7] ^ 0x15u8).wrapping_mul(2u8), ((hb[(i + 2) % 32] as u32 + i as u32) % 8) as u32) as int) % 32]
                ^ p[i - 192].wrapping_mul(0x2Fu8).wrapping_add(((i - 192) as u8).wrapping_mul(0x77u8)),
        forall|i: int|
            208 <= i < 224 ==> #[trigger] initial_sbox(p, hb, np, pbo)[i] == hb[(i + rotl8_spec((p[0] ^ 0x2Du8).wrapping_mul(8u8), ((p[(i + 1) % 32] as u32 + i as u32) % 8) as u32) as int
                + rotr8_spec((pbo[1] ^ 0xC8u8).wrapping_mul(7u8), ((hb[(i + 2) % 32] as u32 + i as u32) % 8) as u32) as int) % 32]
                ^ hb[i - 208].wrapping_mul(0x31u8).wrapping_add(((i - 208) as u8).wrapping_mul(0x88u8)),
        forall|i: int|
            224 <= i < 240 ==> #[trigger] initial_sbox(p, hb, np, pbo)[i] == p[(i + rotl8_spec((pbo[2] ^ 0x6Fu8).wrapping_mul(3u8), ((p[(i + 1) % 32] as u32 + i as u32) % 8) as u32) as int
                + rotr8_spec((np[6] ^ 0x99u8).wrapping_mul(9u8), ((hb[(i + 2) % 32] as u32 + i as u32) % 8) as u32) as int) % 32]
                ^ pbo[i - 224].wrapping_mul(0x37u8).wrapping_add(((i - 224) as u8).wrapping_mul(0x99u8)),
        forall|i: int|
            240 <= i < 256 ==> #[trigger] initial_sbox(p, hb, np, pbo)[i] == hb[(i + rotl8_spec((np[5] ^ 0xE1u8).wrapping_mul(7u8), ((p[(i + 1) % 32] as u32 + i as u32) % 8) as u32) as int
                + rotr8_spec((hb[4] ^ 0x3Bu8).wrapping_mul(5u8), ((hb[(i + 2) % 32] as u32 + i as u32) % 8) as u32) as int) % 32]
                ^ np[i - 240].wrapping_mul(0x3Fu8).wrapping_add(((i - 240) as u8).wrapping_mul(0xAAu8)),
{
    lemma_sbox_block_0(p, hb, np, pbo);
    lemma_sbox_block_1(p, hb, np, pbo);
    lemma_sbox_block_2(p, hb, np, pbo);
    lemma_sbox_block_3(p, hb, np, pbo);
    lemma_sbox_block_4(p, hb, np, pbo);
    lemma_sbox_block_5(p, hb, np, pbo);
    lemma_sbox_block_6(p, hb, np, pbo);
    lemma_sbox_block_7(p, hb, np, pbo);
    lemma_sbox_block_8(p, hb, np, pbo);
    lemma_sbox_block_9(p, hb, np, pbo);
    lemma_sbox_block_10(p, hb, np, pbo);
    lemma_sbox_block_11(p, hb, np, pbo);
    lemma_sbox_block_12(p, hb, np, pbo);
    lemma_sbox_block_13(p, hb, np, pbo);
    lemma_sbox_block_14(p, hb, np, pbo);
    lemma_sbox_block_15(p, hb, np, pbo);
}

} // verus!
