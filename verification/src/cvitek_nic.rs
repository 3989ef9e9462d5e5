//! The Cvitek GMAC network controller: its DMA descriptor rings, receive and
//! transmit bookkeeping, and the register values the driver writes.

use crate::mmio::RegOp;
use core::marker::PhantomData;
use vstd::prelude::*;

verus! {

/// The interrupt line of the GMAC.
pub const GMAC_IRQ: usize = 31;
/// Offset of the MAC configuration register.
pub const GMAC_REG_CONF: usize = 0x0;
/// Offset of the high half of the MAC address registers.
pub const GMAC_REG_MACADDR0HI: usize = 0x40;
/// Offset of the low half of the MAC address registers.
pub const GMAC_REG_MACADDR0LO: usize = 0x44;
/// Offset of the DMA bus mode register.
pub const GMAC_DMA_REG_BUS_MODE: usize = 0x1000;
/// Offset of the DMA operation mode register.
pub const GMAC_DMA_REG_OPMODE: usize = 0x1018;
/// Offset of the DMA interrupt enable register.
pub const GMAC_DMA_REG_INTENABLE: usize = 0x101c;
/// The software reset bit of the DMA bus mode register.
pub const DMAMAC_SRST: u32 = 1;
/// How long the DMA reset is waited for before it is reported late.
pub const CONFIG_MDIO_TIMEOUT: usize = 3000;
/// The number of receive descriptors.
pub const CONFIG_RX_DESCR_NUM: usize = 64;
/// The number of transmit descriptors.
pub const TX_DESCR_NUM: usize = 512;
/// The ring indices count modulo this number.
pub const RING_INDEX_MOD: usize = 512;
/// The physical address of the receive descriptors.
pub const RX_DESC_PHYS_ADDR: usize = 0x89000000;
/// The physical address of the transmit descriptors.
pub const TX_DESC_PHYS_ADDR: usize = 0x89003000;
/// The physical address of the first transmit buffer.
pub const TX_BUF_PHYS_BASE: usize = 0x91000000;
/// The size of a transmit buffer.
pub const TX_BUF_SIZE: usize = 0x1000;
/// The highest register offset the driver touches, plus one word.
pub const GMAC_REG_SPAN: usize = 0x1020;

/// A DMA descriptor as the GMAC lays it out.
#[derive(Copy, Clone, Debug, PartialEq, Eq, Structural)]
pub struct Des {
    /// Status (receive: bit 31 set while the DMA owns it), or buffer address low bits.
    pub txrx_status: u32,
    /// Control: frame length, or buffer address high bits.
    pub dmamac_cntl: u32,
    /// Buffer address.
    pub dmamac_addr: u32,
    /// Next descriptor.
    pub dmamac_next: u32,
}

/// The buffer address a descriptor carries: 32 low bits in the status word and 8
/// high bits in the control word.
pub open spec fn descriptor_buffer_addr(d: Des) -> int {
    (d.dmamac_cntl as int) * 0x1_0000_0000 + d.txrx_status as int
}

/// The descriptor that hands the buffer at physical address `skb_phys_addr` to the
/// DMA engine: the low 32 bits of the address in the status word, bits 32..40 in
/// the control word, the other words zero.
pub open spec fn buffer_descriptor_spec(skb_phys_addr: usize) -> Des {
    Des {
        txrx_status: (skb_phys_addr as u64 % 0x1_0000_0000) as u32,
        dmamac_cntl: ((skb_phys_addr as u64 / 0x1_0000_0000) % 0x100) as u32,
        dmamac_addr: 0,
        dmamac_next: 0,
    }
}

/// Builds [`buffer_descriptor_spec`].
pub fn buffer_descriptor(skb_phys_addr: usize) -> (d: Des)
    ensures
        d == buffer_descriptor_spec(skb_phys_addr),
{
    let a = skb_phys_addr as u64;
    let lo = a as u32;
    let hi = ((a >> 32u64) & 0xFF) as u32;
    assert(lo == a % 0x1_0000_0000 && hi == (a / 0x1_0000_0000) % 0x100) by (bit_vector)
        requires
            lo == a as u32,
            hi == ((a >> 32u64) & 0xFF) as u32,
    ;
    Des { txrx_status: lo, dmamac_cntl: hi, dmamac_addr: 0, dmamac_next: 0 }
}

/// The receive descriptor that releases the buffer at `skb_phys_addr` to the DMA
/// engine: the buffer address as in [`buffer_descriptor_spec`], with the
/// ownership bit (bit 31 of the status word) set.
pub open spec fn rx_descriptor_spec(skb_phys_addr: usize) -> Des {
    Des {
        txrx_status: (skb_phys_addr as u64 % 0x8000_0000 + 0x8000_0000) as u32,
        dmamac_cntl: ((skb_phys_addr as u64 / 0x1_0000_0000) % 0x100) as u32,
        dmamac_addr: 0,
        dmamac_next: 0,
    }
}

/// Builds [`rx_descriptor_spec`].
pub fn rx_descriptor(skb_phys_addr: usize) -> (d: Des)
    ensures
        d == rx_descriptor_spec(skb_phys_addr),
{
    let mut d = buffer_descriptor(skb_phys_addr);
    let a = skb_phys_addr as u64;
    let lo = d.txrx_status;
    d.txrx_status = lo | 0x8000_0000u32;
    assert((lo | 0x8000_0000u32) == (a % 0x8000_0000 + 0x8000_0000) as u32) by (bit_vector)
        requires
            lo == a % 0x1_0000_0000,
    ;
    d
}

/// A released receive descriptor is owned by the DMA engine, and it keeps the
/// buffer address apart from bit 31: the low 31 bits in the status word and
/// bits 32..40 in the control word.
pub proof fn law_rx_descriptor_released(skb_phys_addr: usize)
    ensures
        dma_owned(rx_descriptor_spec(skb_phys_addr)),
        rx_descriptor_spec(skb_phys_addr).txrx_status % 0x8000_0000 == skb_phys_addr as u64
            % 0x8000_0000,
        rx_descriptor_spec(skb_phys_addr).dmamac_cntl == (skb_phys_addr as u64 / 0x1_0000_0000)
            % 0x100,
{
}

/// A buffer descriptor gives back the address it was made from, for every
/// address that fits in the 40 bits the descriptor holds.
pub proof fn law_buffer_descriptor_round_trip(skb_phys_addr: usize)
    requires
        skb_phys_addr < 0x100_0000_0000,
    ensures
        descriptor_buffer_addr(buffer_descriptor_spec(skb_phys_addr)) == skb_phys_addr,
{
    let a = skb_phys_addr as u64;
    assert((a / 0x1_0000_0000) % 0x100 * 0x1_0000_0000 + a % 0x1_0000_0000 == a) by (nonlinear_arith)
        requires
            a < 0x100_0000_0000,
    ;
}

/// A ring of `count` DMA elements of type `T`, at `cpu_addr` for the CPU and at
/// `phy_addr` for the device.
pub struct Dma<T> {
    /// The number of elements.
    pub count: usize,
    /// The device's address of the first element.
    pub phy_addr: usize,
    /// The CPU's address of the first element.
    pub cpu_addr: usize,
    /// The element type.
    pub marker: PhantomData<T>,
}

impl<T> Dma<T> {
    /// A ring of `count` elements.
    pub fn new(cpu_addr: usize, phy_addr: usize, count: usize) -> (r: Self)
        ensures
            r.count == count,
            r.phy_addr == phy_addr,
            r.cpu_addr == cpu_addr,
    {
        Self { count, phy_addr, cpu_addr, marker: PhantomData }
    }

    /// The CPU address of element `index`, or `None` when `index` is out of the
    /// ring. The address wraps around the address space as pointer arithmetic does.
    pub open spec fn element_addr_spec(&self, index: usize) -> Option<usize> {
        if index >= self.count {
            None
        } else {
            Some(
                vstd::wrapping::usize_specs::wrapping_add(
                    self.cpu_addr,
                    vstd::wrapping::usize_specs::wrapping_mul(
                        index,
                        vstd::layout::size_of::<T>() as usize,
                    ),
                ),
            )
        }
    }

    /// The CPU address of element `index`, or `None` when `index` is out of the
    /// ring.
    pub fn element_addr(&self, index: usize) -> (r: Option<usize>)
        ensures
            r == self.element_addr_spec(index),
    {
        if index >= self.count {
            return None;
        }
        let size = core::mem::size_of::<T>();
        Some(self.cpu_addr.wrapping_add(index.wrapping_mul(size)))
    }
}

/// A write of descriptor `desc` to the CPU address `addr`.
#[derive(Copy, Clone, Debug, PartialEq, Eq, Structural)]
pub struct DescWrite {
    /// Where the descriptor goes.
    pub addr: usize,
    /// The descriptor.
    pub desc: Des,
}

/// A packet buffer: its virtual address and length.
pub struct Packet {
    /// The virtual address of the data.
    pub skb_va: usize,
    /// The length of the data.
    pub len: usize,
}

impl Packet {
    /// A packet of `len` bytes at `skb_va`.
    pub fn new(skb_va: usize, len: usize) -> (r: Self)
        ensures
            r.skb_va == skb_va,
            r.len == len,
    {
        Self { skb_va, len }
    }
}

/// The receive ring.
pub struct RxRing {
    /// The next descriptor to look at.
    pub idx: usize,
    /// The virtual addresses of the buffers of the descriptors.
    pub skbuf: Vec<usize>,
    /// The receive descriptors.
    pub rd: Dma<Des>,
}

impl RxRing {
    /// The receive ring over the descriptors at [`RX_DESC_PHYS_ADDR`], mapped at
    /// `rd_va` for the CPU.
    pub fn new(rd_va: usize) -> (r: Self)
        ensures
            r.idx == 0,
            r.skbuf@.len() == 0,
            r.rd.count == CONFIG_RX_DESCR_NUM,
            r.rd.phy_addr == RX_DESC_PHYS_ADDR,
            r.rd.cpu_addr == rd_va,
    {
        let rd_dma = Dma::new(rd_va, RX_DESC_PHYS_ADDR, CONFIG_RX_DESCR_NUM);
        Self { rd: rd_dma, idx: 0, skbuf: Vec::new() }
    }

    /// Prepares the descriptors. The ring needs nothing more than [`RxRing::new`].
    pub fn init_dma_desc_rings(&mut self)
        ensures
            final(self).idx == old(self).idx,
            final(self).skbuf@ == old(self).skbuf@,
            final(self).rd == old(self).rd,
    {
    }

    /// Releases descriptor `idx` to the DMA engine with the buffer at
    /// `skb_phys_addr`: the write to perform, or `None` when `idx` is out of the ring.
    /// The descriptor carries the buffer address with the ownership bit set, so a
    /// receive at `idx` waits until the DMA engine hands the descriptor back; the
    /// ownership bit takes the place of bit 31 of the address.
    pub fn set_idx_addr_owner(&self, idx: usize, skb_phys_addr: usize) -> (r: Option<DescWrite>)
        ensures
            idx >= self.rd.count ==> r is None,
            idx < self.rd.count ==> (r matches Some(w) && Some(w.addr) == self.rd.element_addr_spec(
                idx,
            ) && w.desc == rx_descriptor_spec(skb_phys_addr)),
    {
        let rd = rx_descriptor(skb_phys_addr);
        match self.rd.element_addr(idx) {
            Some(addr) => Some(DescWrite { addr, desc: rd }),
            None => None,
        }
    }

    /// Points the controller at the ring. The ring's base needs no register write
    /// in this configuration.
    pub fn set_head_tail_ptr(&mut self, iobase: usize)
        ensures
            final(self).idx == old(self).idx,
            final(self).skbuf@ == old(self).skbuf@,
            final(self).rd == old(self).rd,
    {
    }
}

/// The transmit ring.
pub struct TxRing {
    /// The next descriptor to fill.
    pub idx: usize,
    /// The virtual addresses of the buffers handed to the DMA engine, in order.
    pub skbuf: Vec<usize>,
    /// The transmit descriptors.
    pub td: Dma<Des>,
}

impl TxRing {
    /// The transmit ring over the descriptors at [`TX_DESC_PHYS_ADDR`], mapped at
    /// `td_va` for the CPU.
    pub fn new(td_va: usize) -> (r: Self)
        ensures
            r.idx == 0,
            r.skbuf@.len() == 0,
            r.td.count == TX_DESCR_NUM,
            r.td.phy_addr == TX_DESC_PHYS_ADDR,
            r.td.cpu_addr == td_va,
    {
        let td_dma: Dma<Des> = Dma::new(td_va, TX_DESC_PHYS_ADDR, TX_DESCR_NUM);
        Self { td: td_dma, idx: 0, skbuf: Vec::new() }
    }

    /// Prepares the descriptors. The ring needs nothing more than [`TxRing::new`].
    pub fn init_dma_desc_rings(&mut self)
        ensures
            final(self).idx == old(self).idx,
            final(self).skbuf@ == old(self).skbuf@,
            final(self).td == old(self).td,
    {
    }

    /// Hands descriptor `idx` to the DMA engine with the buffer at `skb_phys_addr`,
    /// mapped at `skb_va`: records the buffer and returns the descriptor write.
    ///
    /// The descriptor carries only the buffer address; the segment, checksum and
    /// ownership flags and the length are not encoded in this configuration.
    pub fn set_idx_addr_owner(
        &mut self,
        idx: usize,
        fs: bool,
        ls: bool,
        csum: bool,
        own: bool,
        skb_phys_addr: usize,
        len: usize,
        skb_va: usize,
    ) -> (w: DescWrite)
        requires
            idx < old(self).td.count,
        ensures
            final(self).skbuf@ == old(self).skbuf@.push(skb_va),
            final(self).idx == old(self).idx,
            final(self).td == old(self).td,
            Some(w.addr) == old(self).td.element_addr_spec(idx),
            w.desc == buffer_descriptor_spec(skb_phys_addr),
    {
        self.skbuf.push(skb_va);
        let td = buffer_descriptor(skb_phys_addr);
        let addr = self.td.element_addr(idx);
        DescWrite { addr: addr.unwrap(), desc: td }
    }

    /// Tells the controller that descriptors are ready. Polling needs no register
    /// write in this configuration.
    pub fn set_tail_ptr(&mut self, iobase: usize)
        ensures
            final(self).idx == old(self).idx,
            final(self).skbuf@ == old(self).skbuf@,
            final(self).td == old(self).td,
    {
    }
}

/// The Cvitek GMAC network controller.
pub struct CvitekNicDevice {
    iobase_pa: usize,
    iobase_va: usize,
    rx_rings: RxRing,
    tx_rings: TxRing,
}

/// The index after `idx` in a ring.
pub open spec fn next_index(idx: usize) -> usize {
    ((idx + 1) % (RING_INDEX_MOD as int)) as usize
}

/// A ring index steps through all 512 positions in order before it wraps: it
/// moves up by one from every position below the last, and from the last, 511,
/// back to 0.
pub proof fn law_ring_index_steps(idx: usize)
    ensures
        idx < 511 ==> next_index(idx) == idx + 1,
        idx == 511 ==> next_index(idx) == 0,
{
}

/// Whether a receive descriptor is still owned by the DMA engine (bit 31 of its status).
pub open spec fn dma_owned(d: Des) -> bool {
    d.txrx_status >= 0x8000_0000
}

impl CvitekNicDevice {
    /// The physical address of the registers.
    pub closed spec fn spec_iobase_pa(&self) -> usize {
        self.iobase_pa
    }

    /// The virtual address of the registers.
    pub closed spec fn spec_iobase_va(&self) -> usize {
        self.iobase_va
    }

    /// The receive ring.
    pub closed spec fn rx(&self) -> &RxRing {
        &self.rx_rings
    }

    /// The transmit ring.
    pub closed spec fn tx(&self) -> &TxRing {
        &self.tx_rings
    }

    /// The device's invariant: the ring indices stay below the modulus, the
    /// transmit ring holds a descriptor for each of them, and the receive ring
    /// holds [`CONFIG_RX_DESCR_NUM`] descriptors.
    pub closed spec fn wf(&self) -> bool {
        &&& self.rx_rings.idx < RING_INDEX_MOD
        &&& self.tx_rings.idx < RING_INDEX_MOD
        &&& self.tx_rings.td.count == TX_DESCR_NUM
        &&& self.rx_rings.rd.count == CONFIG_RX_DESCR_NUM
        &&& self.iobase_va + GMAC_REG_SPAN <= usize::MAX
    }

    /// What a well-formed device guarantees of its rings.
    pub proof fn lemma_wf_rings(&self)
        requires
            self.wf(),
        ensures
            self.rx().idx < RING_INDEX_MOD,
            self.tx().idx < RING_INDEX_MOD,
            self.rx().rd.count == CONFIG_RX_DESCR_NUM,
            self.tx().td.count == TX_DESCR_NUM,
    {
    }

    /// The controller with registers at `iobase_pa`, mapped at `iobase_va`, and
    /// fresh rings over the descriptors mapped at `rx_desc_va` and `tx_desc_va`.
    pub fn new(iobase_pa: usize, iobase_va: usize, rx_desc_va: usize, tx_desc_va: usize) -> (r: Self)
        requires
            iobase_va + GMAC_REG_SPAN <= usize::MAX,
        ensures
            r.wf(),
            r.spec_iobase_pa() == iobase_pa,
            r.spec_iobase_va() == iobase_va,
            r.rx().idx == 0 && r.rx().skbuf@.len() == 0,
            r.rx().rd.cpu_addr == rx_desc_va && r.rx().rd.phy_addr == RX_DESC_PHYS_ADDR,
            r.rx().rd.count == CONFIG_RX_DESCR_NUM,
            r.tx().idx == 0 && r.tx().skbuf@.len() == 0,
            r.tx().td.cpu_addr == tx_desc_va && r.tx().td.phy_addr == TX_DESC_PHYS_ADDR,
            r.tx().td.count == TX_DESCR_NUM,
    {
        let rx_ring = RxRing::new(rx_desc_va);
        let tx_ring = TxRing::new(tx_desc_va);
        CvitekNicDevice { iobase_pa, iobase_va, rx_rings: rx_ring, tx_rings: tx_ring }
    }

    /// The receive ring.
    pub fn rx_rings(&self) -> (r: &RxRing)
        ensures
            r == self.rx(),
    {
        &self.rx_rings
    }

    /// The transmit ring.
    pub fn tx_rings(&self) -> (r: &TxRing)
        ensures
            r == self.tx(),
    {
        &self.tx_rings
    }

    /// The virtual address of the registers.
    pub fn iobase_va(&self) -> (r: usize)
        ensures
            r == self.spec_iobase_va(),
    {
        self.iobase_va
    }

    /// The index of the next transmit descriptor.
    pub fn get_tx_idx(&self) -> (r: usize)
        ensures
            r == self.tx().idx,
    {
        let idx = self.tx_rings.idx;
        idx
    }

    /// Receives from the descriptor at the receive index, `rd` being its content:
    /// `None` while the DMA engine owns it; otherwise the packet in the buffer of
    /// that index, of the length the descriptor gives, and the index moves on.
    pub fn receive(&mut self, rd: Des) -> (r: Option<Packet>)
        requires
            old(self).wf(),
            !dma_owned(rd) ==> old(self).rx().idx < old(self).rx().skbuf@.len(),
        ensures
            final(self).wf(),
            final(self).tx() == old(self).tx(),
            final(self).rx().skbuf@ == old(self).rx().skbuf@,
            final(self).rx().rd == old(self).rx().rd,
            final(self).spec_iobase_va() == old(self).spec_iobase_va(),
            final(self).spec_iobase_pa() == old(self).spec_iobase_pa(),
            dma_owned(rd) ==> r is None && final(self).rx().idx == old(self).rx().idx,
            !dma_owned(rd) ==> (r matches Some(p) && p.skb_va == old(self).rx().skbuf@[old(
                self,
            ).rx().idx as int] && p.len == rd.dmamac_cntl) && final(self).rx().idx == next_index(
                old(self).rx().idx,
            ),
            !dma_owned(rd) && old(self).rx().idx < 511 ==> final(self).rx().idx == old(self).rx().idx
                + 1,
            !dma_owned(rd) && old(self).rx().idx == 511 ==> final(self).rx().idx == 0,
    {
        let idx = self.rx_rings.idx;
        let rdes0 = rd.txrx_status;
        let rdes1 = rd.dmamac_cntl;
        let status = rdes0 & (1u32 << 31u32);
        assert((status >> 31u32 == 1) == (rdes0 >= 0x8000_0000)) by (bit_vector)
            requires
                status == rdes0 & (1u32 << 31u32),
        ;
        if status >> 31u32 == 1 {
            return None;
        }
        let frame_len = rdes1;
        let skb_va = self.rx_rings.skbuf[idx];
        let packet = Packet::new(skb_va, frame_len as usize);
        self.rx_rings.idx = (idx + 1) % RING_INDEX_MOD;
        Some(packet)
    }

    /// Transmits `packet`, whose buffer is at physical address `packet_pa` and, seen
    /// back from that address, at virtual address `skb_va`: fills the descriptor at
    /// the transmit index, moves the index on, and returns the descriptor write.
    pub fn transmit(&mut self, packet: Packet, packet_pa: usize, skb_va: usize) -> (w: DescWrite)
        requires
            old(self).wf(),
        ensures
            final(self).wf(),
            final(self).rx() == old(self).rx(),
            final(self).spec_iobase_va() == old(self).spec_iobase_va(),
            final(self).spec_iobase_pa() == old(self).spec_iobase_pa(),
            final(self).tx().td == old(self).tx().td,
            final(self).tx().skbuf@ == old(self).tx().skbuf@.push(skb_va),
            final(self).tx().idx == next_index(old(self).tx().idx),
            old(self).tx().idx < 511 ==> final(self).tx().idx == old(self).tx().idx + 1,
            old(self).tx().idx == 511 ==> final(self).tx().idx == 0,
            Some(w.addr) == old(self).tx().td.element_addr_spec(old(self).tx().idx),
            w.desc == buffer_descriptor_spec(packet_pa),
    {
        let packet_len = packet.len;
        let idx: usize = self.tx_rings.idx;
        let w = self.tx_rings.set_idx_addr_owner(idx, true, true, false, true, packet_pa, packet_len, skb_va);
        self.tx_rings.idx = (idx + 1) % RING_INDEX_MOD;
        let iobase = self.iobase_va;
        self.tx_rings.set_tail_ptr(iobase);
        w
    }

    /// The virtual address of the DMA bus mode register.
    pub fn bus_mode_reg(&self) -> (r: usize)
        requires
            self.wf(),
        ensures
            r == self.spec_iobase_va() + GMAC_DMA_REG_BUS_MODE,
    {
        self.iobase_va + GMAC_DMA_REG_BUS_MODE
    }

    /// The register writes that configure the MAC and its DMA once the DMA reset is
    /// done, at virtual addresses.
    pub fn init_program(&self) -> (ops: Vec<RegOp>)
        requires
            self.wf(),
        ensures
            ops@ == seq![
                RegOp::Write { addr: (self.spec_iobase_va() + GMAC_DMA_REG_OPMODE) as usize, value: 0x2202906 },
                RegOp::Write { addr: (self.spec_iobase_va() + GMAC_DMA_REG_BUS_MODE) as usize, value: 0x3900800 },
                RegOp::Write { addr: (self.spec_iobase_va() + GMAC_REG_CONF) as usize, value: 0x41cc00 },
                RegOp::Write { addr: (self.spec_iobase_va() + GMAC_DMA_REG_INTENABLE) as usize, value: 0x10040 },
            ],
    {
        let mut ops: Vec<RegOp> = Vec::new();
        ops.push(RegOp::Write { addr: self.iobase_va + GMAC_DMA_REG_OPMODE, value: 0x2202906 });
        ops.push(RegOp::Write { addr: self.iobase_va + GMAC_DMA_REG_BUS_MODE, value: 0x3900800 });
        ops.push(RegOp::Write { addr: self.iobase_va + GMAC_REG_CONF, value: 0x41cc00 });
        ops.push(RegOp::Write { addr: self.iobase_va + GMAC_DMA_REG_INTENABLE, value: 0x10040 });
        proof {
            assert(ops@ =~= seq![
                RegOp::Write { addr: (self.spec_iobase_va() + GMAC_DMA_REG_OPMODE) as usize, value: 0x2202906 },
                RegOp::Write { addr: (self.spec_iobase_va() + GMAC_DMA_REG_BUS_MODE) as usize, value: 0x3900800 },
                RegOp::Write { addr: (self.spec_iobase_va() + GMAC_REG_CONF) as usize, value: 0x41cc00 },
                RegOp::Write { addr: (self.spec_iobase_va() + GMAC_DMA_REG_INTENABLE) as usize, value: 0x10040 },
            ]);
        }
        ops
    }

    /// The virtual addresses of the high and low MAC address registers.
    pub fn mac_address_regs(&self) -> (r: (usize, usize))
        requires
            self.wf(),
        ensures
            r == ((self.spec_iobase_va() + GMAC_REG_MACADDR0HI) as usize, (self.spec_iobase_va()
                + GMAC_REG_MACADDR0LO) as usize),
    {
        (self.iobase_va + GMAC_REG_MACADDR0HI, self.iobase_va + GMAC_REG_MACADDR0LO)
    }
}

/// The bus mode value that starts the DMA software reset.
pub fn dma_reset_request(bus_mode: u32) -> (r: u32)
    ensures
        r == bus_mode | DMAMAC_SRST,
{
    bus_mode | DMAMAC_SRST
}

/// Whether the DMA software reset is still in progress.
pub fn dma_reset_pending(bus_mode: u32) -> (r: bool)
    ensures
        r == (bus_mode & DMAMAC_SRST != 0),
{
    (bus_mode & DMAMAC_SRST) != 0
}

/// Whether the DMA reset that started at `start_time` is late at `now`.
pub fn dma_reset_late(start_time: usize, now: usize) -> (r: bool)
    requires
        start_time <= now,
    ensures
        r == (now - start_time >= CONFIG_MDIO_TIMEOUT),
{
    (now - start_time) >= CONFIG_MDIO_TIMEOUT
}

/// The MAC address from its two registers: the four bytes of the low register,
/// lowest first, then the two low bytes of the high register.
pub fn mac_address_from_regs(hi: u32, lo: u32) -> (r: [u8; 6])
    ensures
        r@ == seq![
            (lo % 0x100) as u8,
            (lo / 0x100 % 0x100) as u8,
            (lo / 0x10000 % 0x100) as u8,
            (lo / 0x1000000) as u8,
            (hi % 0x100) as u8,
            (hi / 0x100 % 0x100) as u8,
        ],
{
    let mut ret: [u8; 6] = [0;6];
    let b0 = (lo & 0xff) as u8;
    let b1 = ((lo >> 8u32) & 0xff) as u8;
    let b2 = ((lo >> 16u32) & 0xff) as u8;
    let b3 = ((lo >> 24u32) & 0xff) as u8;
    let b4 = (hi & 0xff) as u8;
    let b5 = ((hi >> 8u32) & 0xff) as u8;
    assert(b0 == lo % 0x100 && b1 == lo / 0x100 % 0x100 && b2 == lo / 0x10000 % 0x100 && b3 == lo
        / 0x1000000 && b4 == hi % 0x100 && b5 == hi / 0x100 % 0x100) by (bit_vector)
        requires
            b0 == (lo & 0xff) as u8,
            b1 == ((lo >> 8u32) & 0xff) as u8,
            b2 == ((lo >> 16u32) & 0xff) as u8,
            b3 == ((lo >> 24u32) & 0xff) as u8,
            b4 == (hi & 0xff) as u8,
            b5 == ((hi >> 8u32) & 0xff) as u8,
    ;
    ret[0] = b0;
    ret[1] = b1;
    ret[2] = b2;
    ret[3] = b3;
    ret[4] = b4;
    ret[5] = b5;
    proof {
        assert(ret@ =~= seq![
            (lo % 0x100) as u8,
            (lo / 0x100 % 0x100) as u8,
            (lo / 0x10000 % 0x100) as u8,
            (lo / 0x1000000) as u8,
            (hi % 0x100) as u8,
            (hi / 0x100 % 0x100) as u8,
        ]);
    }
    ret
}

/// The network driver over the Cvitek GMAC.
pub struct CvitekNic {
    device: CvitekNicDevice,
}

impl CvitekNic {
    /// The device the driver runs.
    pub closed spec fn dev(&self) -> &CvitekNicDevice {
        &self.device
    }

    /// The driver over an initialized controller.
    pub fn init(device: CvitekNicDevice) -> (r: Self)
        ensures
            *r.dev() == device,
    {
        Self { device }
    }

    /// The controller.
    pub fn device(&self) -> (r: &CvitekNicDevice)
        ensures
            r == self.dev(),
    {
        &self.device
    }

    /// The controller, to receive or transmit.
    pub fn device_mut(&mut self) -> (r: &mut CvitekNicDevice)
        ensures
            *r == *old(self).dev(),
            *final(self).dev() == *final(r),
    {
        &mut self.device
    }

    /// The physical address of the transmit buffer of the current transmit index.
    pub fn tx_buffer_phys(&self) -> (r: usize)
        requires
            self.dev().wf(),
        ensures
            r == TX_BUF_PHYS_BASE + self.dev().tx().idx * TX_BUF_SIZE,
    {
        let idx = self.device.get_tx_idx();
        TX_BUF_PHYS_BASE + idx * TX_BUF_SIZE
    }

    /// The packet handed out as transmit buffer, given the virtual address `skb_va`
    /// of [`CvitekNic::tx_buffer_phys`]: it starts one more buffer stride past that
    /// address, per transmit index, and holds `size` bytes.
    pub fn tx_buffer_packet(&self, skb_va: usize, size: usize) -> (p: Packet)
        requires
            self.dev().wf(),
            skb_va + self.dev().tx().idx * TX_BUF_SIZE <= usize::MAX,
        ensures
            p.skb_va == skb_va + self.dev().tx().idx * TX_BUF_SIZE,
            p.len == size,
    {
        let idx = self.device.get_tx_idx();
        let new_va = skb_va + idx * TX_BUF_SIZE;
        Packet::new(new_va, size)
    }
}

} // verus!
