//! The handshake remapping of the SoC's system DMA channels.

use vstd::prelude::*;

verus! {

/// The physical address of the remap register of channels 0..4.
pub const REG_SDMA_DMA_CH_REMAP0: usize = 0x03000154;
/// The physical address of the remap register of channels 4..8.
pub const REG_SDMA_DMA_CH_REMAP1: usize = 0x03000158;
/// The number of remapped channels.
pub const TABLE_SIZE: usize = 8;

/// A DMA channel and the handshake id of the peripheral it serves.
#[derive(Clone, Copy, Debug, PartialEq, Eq, Structural)]
pub struct DmaRemapItem {
    /// The peripheral's handshake id.
    pub hs_id: usize,
    /// The DMA channel.
    pub channel_id: u8,
}

/// The channel assignment of the platform.
pub open spec fn remap_table_spec() -> Seq<DmaRemapItem> {
    seq![
        DmaRemapItem { hs_id: 13, channel_id: 1 },
        DmaRemapItem { hs_id: 12, channel_id: 0 },
        DmaRemapItem { hs_id: 7, channel_id: 2 },
        DmaRemapItem { hs_id: 0, channel_id: 3 },
        DmaRemapItem { hs_id: 20, channel_id: 4 },
        DmaRemapItem { hs_id: 21, channel_id: 5 },
        DmaRemapItem { hs_id: 2, channel_id: 6 },
        DmaRemapItem { hs_id: 38, channel_id: 7 },
    ]
}

/// The channel assignment of the platform.
pub fn remap_table() -> (t: [DmaRemapItem; 8])
    ensures
        t@ == remap_table_spec(),
{
    let t = [
        DmaRemapItem { hs_id: 13, channel_id: 1 },
        DmaRemapItem { hs_id: 12, channel_id: 0 },
        DmaRemapItem { hs_id: 7, channel_id: 2 },
        DmaRemapItem { hs_id: 0, channel_id: 3 },
        DmaRemapItem { hs_id: 20, channel_id: 4 },
        DmaRemapItem { hs_id: 21, channel_id: 5 },
        DmaRemapItem { hs_id: 2, channel_id: 6 },
        DmaRemapItem { hs_id: 38, channel_id: 7 },
    ];
    proof {
        assert(t@ =~= remap_table_spec());
    }
    t
}

/// The two remap register values accumulated over the first `n` entries of
/// `table`: each channel's handshake id goes into byte `channel % 4` of register
/// `channel / 4`.
pub open spec fn remap_acc(table: Seq<DmaRemapItem>, n: nat) -> (usize, usize)
    decreases n,
{
    if n == 0 {
        (0, 0)
    } else {
        let (r0, r1) = remap_acc(table, (n - 1) as nat);
        let e = table[n - 1];
        if e.channel_id < 4 {
            (r0 | (e.hs_id << (e.channel_id << 3u8)), r1)
        } else {
            (r0, r1 | (e.hs_id << (((e.channel_id - 4) as u8) << 3u8)))
        }
    }
}

proof fn lemma_channel_shift(c: u8)
    by (bit_vector)
    requires
        c < 4,
    ensures
        (c << 3u8) <= 24,
{
}

proof fn lemma_remap_values()
    by (bit_vector)
    ensures
        ((((((0usize | (13usize << (1u8 << 3u8))) | (12usize << (0u8 << 3u8))) | (7usize << (2u8
            << 3u8))) | (0usize << (3u8 << 3u8))) | (1usize << 31usize)) as u32) == 0x8007_0d0cu32,
        ((((((0usize | (20usize << (((4u8 - 4u8) as u8) << 3u8))) | (21usize << (((5u8 - 4u8) as u8)
            << 3u8))) | (2usize << (((6u8 - 4u8) as u8) << 3u8))) | (38usize << (((7u8 - 4u8) as u8)
            << 3u8))) | (1usize << 31usize)) as u32) == 0xA602_1514u32,
{
}

/// The remap register values that route each peripheral's DMA handshake to its
/// channel, with the remap enable bit (31) set in both.
pub fn dma_hs_remap_values() -> (r: (u32, u32))
    ensures
        r == (0x8007_0d0cu32, 0xA602_1514u32),
{
    let table = remap_table();
    let mut remap0_val: usize = 0;
    let mut remap1_val: usize = 0;
    let mut i: usize = 0;
    while i < TABLE_SIZE
        invariant
            i <= TABLE_SIZE,
            table@ == remap_table_spec(),
            (remap0_val, remap1_val) == remap_acc(table@, i as nat),
        decreases TABLE_SIZE - i,
    {
        let hs_id = table[i].hs_id;
        let mut channel_id = table[i].channel_id;
        assert(channel_id < 8);
        if channel_id < 4 {
            proof {
                lemma_channel_shift(channel_id);
            }
            remap0_val = remap0_val | (hs_id << (channel_id << 3u8));
        } else {
            channel_id = channel_id - 4;
            proof {
                lemma_channel_shift(channel_id);
            }
            remap1_val = remap1_val | (hs_id << (channel_id << 3u8));
        }
        i = i + 1;
    }
    remap0_val = remap0_val | (1usize << 31usize);
    remap1_val = remap1_val | (1usize << 31usize);
    proof {
        reveal_with_fuel(remap_acc, 9);
        lemma_remap_values();
    }
    (#[verifier::truncate] (remap0_val as u32), #[verifier::truncate] (remap1_val as u32))
}

} // verus!
