//! The Cvitek Ethernet PHY: MDIO command words, PHY discovery and reset
//! decisions, and the register program that configures the PHY.

use crate::mmio::RegOp;
use vstd::prelude::*;

verus! {

/// Whether bit `n` of `m` is the lowest bit set in `m`.
pub open spec fn lowest_set_bit(m: u32, n: u32) -> bool {
    &&& n < 32
    &&& (m >> n) & 1 == 1
    &&& (m >> n) << n == m
}

proof fn lemma_ffs_bits(m: u32, neg: u32, x: u32, a: u32, idx: u32)
    by (bit_vector)
    requires
        (m == 0 && neg == 0) || (m != 0 && neg + m == 0x1_0000_0000),
        x == m & neg,
        a == (if x <= 0xffff {
            if x <= 0xff {
                0u32
            } else {
                8u32
            }
        } else {
            if x <= 0xffffff {
                16u32
            } else {
                24u32
            }
        }),
        idx == x >> a,
    ensures
        m == 0 ==> idx == 0 && a == 0,
        m != 0 ==> idx == 1 || idx == 2 || idx == 4 || idx == 8 || idx == 16 || idx == 32 || idx
            == 64 || idx == 128,
        a <= 24,
        idx == 1 ==> (m >> a) & 1 == 1 && (m >> a) << a == m,
        idx == 2 ==> (m >> (a + 1) as u32) & 1 == 1 && (m >> (a + 1) as u32) << (a + 1) as u32 == m,
        idx == 4 ==> (m >> (a + 2) as u32) & 1 == 1 && (m >> (a + 2) as u32) << (a + 2) as u32 == m,
        idx == 8 ==> (m >> (a + 3) as u32) & 1 == 1 && (m >> (a + 3) as u32) << (a + 3) as u32 == m,
        idx == 16 ==> (m >> (a + 4) as u32) & 1 == 1 && (m >> (a + 4) as u32) << (a + 4) as u32 == m,
        idx == 32 ==> (m >> (a + 5) as u32) & 1 == 1 && (m >> (a + 5) as u32) << (a + 5) as u32 == m,
        idx == 64 ==> (m >> (a + 6) as u32) & 1 == 1 && (m >> (a + 6) as u32) << (a + 6) as u32 == m,
        idx == 128 ==> (m >> (a + 7) as u32) & 1 == 1 && (m >> (a + 7) as u32) << (a + 7) as u32
            == m,
{
}

/// Find first set: the 1-based position of the lowest bit set in `phy_mask`, or 0
/// when no bit is set.
pub fn ffs(phy_mask: u32) -> (r: i32)
    ensures
        phy_mask == 0 ==> r == 0,
        phy_mask != 0 ==> 1 <= r <= 32 && lowest_set_bit(phy_mask, (r - 1) as u32),
{
    let table: [u8; 256] = [
        0, 1, 2, 2, 3, 3, 3, 3, 4, 4, 4, 4, 4, 4, 4, 4, 5, 5, 5, 5, 5, 5, 5, 5, 5, 5, 5, 5, 5, 5,
        5, 5, 6, 6, 6, 6, 6, 6, 6, 6, 6, 6, 6, 6, 6, 6, 6, 6, 6, 6, 6, 6, 6, 6, 6, 6, 6, 6, 6, 6,
        6, 6, 6, 6, 7, 7, 7, 7, 7, 7, 7, 7, 7, 7, 7, 7, 7, 7, 7, 7, 7, 7, 7, 7, 7, 7, 7, 7, 7, 7,
        7, 7, 7, 7, 7, 7, 7, 7, 7, 7, 7, 7, 7, 7, 7, 7, 7, 7, 7, 7, 7, 7, 7, 7, 7, 7, 7, 7, 7, 7,
        7, 7, 7, 7, 7, 7, 7, 7, 8, 8, 8, 8, 8, 8, 8, 8, 8, 8, 8, 8, 8, 8, 8, 8, 8, 8, 8, 8, 8, 8,
        8, 8, 8, 8, 8, 8, 8, 8, 8, 8, 8, 8, 8, 8, 8, 8, 8, 8, 8, 8, 8, 8, 8, 8, 8, 8, 8, 8, 8, 8,
        8, 8, 8, 8, 8, 8, 8, 8, 8, 8, 8, 8, 8, 8, 8, 8, 8, 8, 8, 8, 8, 8, 8, 8, 8, 8, 8, 8, 8, 8,
        8, 8, 8, 8, 8, 8, 8, 8, 8, 8, 8, 8, 8, 8, 8, 8, 8, 8, 8, 8, 8, 8, 8, 8, 8, 8, 8, 8, 8, 8,
        8, 8, 8, 8, 8, 8, 8, 8, 8, 8, 8, 8, 8, 8, 8, 8,
    ];
    let neg: u32 = 0u32.wrapping_sub(phy_mask);
    let x: u32 = phy_mask & neg;
    let a: u32 = if x <= 0xffff {
        if x <= 0xff {
            0
        } else {
            8
        }
    } else {
        if x <= 0xffffff {
            16
        } else {
            24
        }
    };
    let index: u32 = x >> a;
    proof {
        lemma_ffs_bits(phy_mask, neg, x, a, index);
    }
    let r = (table[index as usize] as u32 + a) as i32;
    r
}

/// Offset of the MII address register from the MAC's base.
pub const GMAC_REG_MIIADDR: usize = 0x10;
/// Offset of the MII data register from the MAC's base.
pub const GMAC_REG_MIIDATA: usize = 0x14;
/// The busy bit of the MII address register.
pub const MII_BUSY: u32 = 1;
/// The write bit of the MII address register.
pub const MII_WRITE: u32 = 2;
/// The MDC clock range field for a 150-250 MHz bus clock.
pub const MII_CLKRANGE_150_250M: u32 = 0x10;
/// How long an MDIO access may poll, in the platform's time units.
pub const CONFIG_MDIO_TIMEOUT: usize = 3000;
/// The PHY's basic mode control register.
pub const CVI_MII_BMCR: u8 = 0x00;
/// The reset bit of the basic mode control register.
pub const CVI_BMCR_RESET: u16 = 0x8000;
/// The first PHY identifier register.
pub const CVI_MII_PHYSID1: u8 = 0x02;
/// The second PHY identifier register.
pub const CVI_MII_PHYSID2: u8 = 0x03;

/// The Cvitek Ethernet PHY, reached through the MDIO registers of the MAC.
pub struct CvitekPhyDevice {
    base_addr: usize,
    phy_addr: u32,
}

/// The MII address register value that starts an MDIO access: the PHY address in
/// bits 11..16, the register in bits 6..11, the write bit, the clock range and the
/// busy bit.
pub open spec fn mii_command(phy_addr: u8, reg_addr: u8, write: bool) -> u32 {
    ((phy_addr % 32) * 2048 + (reg_addr % 32) * 64 + (if write {
        2int
    } else {
        0int
    }) + 0x10 + 1) as u32
}

impl CvitekPhyDevice {
    /// The virtual base address of the MAC registers.
    pub closed spec fn spec_base_addr(&self) -> usize {
        self.base_addr
    }

    /// The MDIO address of the PHY.
    pub closed spec fn spec_phy_addr(&self) -> u32 {
        self.phy_addr
    }

    /// A PHY behind the MAC registers at virtual address `base_addr`, at MDIO
    /// address 0 until discovery finds it.
    pub fn new(base_addr: usize) -> (r: Self)
        requires
            base_addr + GMAC_REG_MIIDATA <= usize::MAX,
        ensures
            r.spec_base_addr() == base_addr,
            r.spec_phy_addr() == 0,
    {
        CvitekPhyDevice { base_addr, phy_addr: 0 }
    }

    /// The MDIO address of the PHY.
    pub fn phy_addr(&self) -> (r: u32)
        ensures
            r == self.spec_phy_addr(),
    {
        self.phy_addr
    }

    /// Records the MDIO address where discovery found the PHY.
    pub fn set_phy_addr(&mut self, phy_addr: u32)
        ensures
            final(self).spec_phy_addr() == phy_addr,
            final(self).spec_base_addr() == old(self).spec_base_addr(),
    {
        self.phy_addr = phy_addr;
    }

    /// The virtual address of the MII address register.
    pub fn mii_addr_reg(&self) -> (r: usize)
        requires
            self.spec_base_addr() + GMAC_REG_MIIDATA <= usize::MAX,
        ensures
            r == self.spec_base_addr() + GMAC_REG_MIIADDR,
    {
        self.base_addr + GMAC_REG_MIIADDR
    }

    /// The virtual address of the MII data register.
    pub fn mii_data_reg(&self) -> (r: usize)
        requires
            self.spec_base_addr() + GMAC_REG_MIIDATA <= usize::MAX,
        ensures
            r == self.spec_base_addr() + GMAC_REG_MIIDATA,
    {
        self.base_addr + GMAC_REG_MIIDATA
    }

    /// One attempt of the search for the PHY: records the outcome of reading the
    /// identifier at `addr`, the address [`PhyProbe::next_addr`] gave, and takes
    /// `addr` as the PHY's address when a PHY answers there.
    pub fn get_phy_by_mask_step(&mut self, probe: &mut PhyProbe, addr: u32, id: Result<u32, i32>) -> (found: bool)
        requires
            old(probe).wf(),
            addr < 32,
        ensures
            final(probe).wf(),
            final(probe).spec_phy_mask() == old(probe).spec_phy_mask(),
            found == (id matches Ok(v) && (v & 0x1fffffff != 0x1fffffff)),
            found ==> final(probe).spec_mask() == old(probe).spec_mask()
                && final(self).spec_phy_addr() == addr,
            !found ==> final(probe).spec_mask() == old(probe).spec_mask() & !(1u32 << addr)
                && final(self).spec_phy_addr() == old(self).spec_phy_addr(),
            final(self).spec_base_addr() == old(self).spec_base_addr(),
    {
        let found = probe.record(addr, id);
        if found {
            self.phy_addr = addr;
        }
        found
    }

    /// Starts the PHY. The link needs no action here: the PHY registers are only
    /// read when the link is updated.
    pub fn start(&self) {
    }

    /// Stops the PHY. Nothing to do, as for [`CvitekPhyDevice::start`].
    pub fn stop(&self) {
    }
}

/// The MII address register value that starts a read of register `reg_addr` of
/// the PHY at `phy_addr`.
pub fn mii_read_command(phy_addr: u8, reg_addr: u8) -> (r: u32)
    ensures
        r == mii_command(phy_addr, reg_addr, false),
{
    let mut miiaddr: u32 = ((phy_addr as u32) << 11u32) & (0x1Fu32 << 11u32);
    miiaddr = miiaddr | (((reg_addr as u32) << 6u32) & (0x1Fu32 << 6u32));
    miiaddr = miiaddr | MII_CLKRANGE_150_250M;
    miiaddr = miiaddr | MII_BUSY;
    let p = phy_addr as u32;
    let g = reg_addr as u32;
    assert(miiaddr == ((p % 32) * 2048 + (g % 32) * 64 + 0x10 + 1) as u32) by (bit_vector)
        requires
            p < 256,
            g < 256,
            miiaddr == ((((p << 11u32) & (0x1Fu32 << 11u32)) | ((g << 6u32) & (0x1Fu32 << 6u32)))
                | 0x10u32) | 1u32,
    ;
    miiaddr
}

/// The MII address register value that starts a write of register `reg_addr` of
/// the PHY at `phy_addr`.
pub fn mii_write_command(phy_addr: u8, reg_addr: u8) -> (r: u32)
    ensures
        r == mii_command(phy_addr, reg_addr, true),
{
    let mut miiaddr: u32 = ((phy_addr as u32) << 11u32) & (0x1Fu32 << 11u32);
    miiaddr = miiaddr | ((((reg_addr as u32) << 6u32) & (0x1Fu32 << 6u32)) | MII_WRITE);
    miiaddr = miiaddr | MII_CLKRANGE_150_250M;
    miiaddr = miiaddr | MII_BUSY;
    let p = phy_addr as u32;
    let g = reg_addr as u32;
    assert(miiaddr == ((p % 32) * 2048 + (g % 32) * 64 + 2 + 0x10 + 1) as u32) by (bit_vector)
        requires
            p < 256,
            g < 256,
            miiaddr == ((((p << 11u32) & (0x1Fu32 << 11u32)) | (((g << 6u32) & (0x1Fu32 << 6u32))
                | 2u32)) | 0x10u32) | 1u32,
    ;
    miiaddr
}

/// Whether an MDIO access has finished: the busy bit of the MII address register
/// is clear.
pub fn mdio_idle(miiaddr_val: u32) -> (r: bool)
    ensures
        r == (miiaddr_val & MII_BUSY == 0),
{
    miiaddr_val & MII_BUSY == 0
}

/// Whether an MDIO access that started at `start_time` may keep polling at `now`.
pub fn mdio_polling(start_time: usize, now: usize) -> (r: bool)
    requires
        start_time <= now,
    ensures
        r == (now - start_time < CONFIG_MDIO_TIMEOUT),
{
    (now - start_time) < CONFIG_MDIO_TIMEOUT
}

/// The 32-bit PHY identifier from the two identifier registers.
pub fn phy_id(id1: u16, id2: u16) -> (r: u32)
    ensures
        r == id1 * 0x10000 + id2,
{
    let mut id: u32 = id1 as u32;
    id = (id & 0xffff) << 16u32;
    id = id | (id2 as u32 & 0xffff);
    let a = id1 as u32;
    let b = id2 as u32;
    assert(id == a * 0x10000 + b) by (bit_vector)
        requires
            a < 0x10000,
            b < 0x10000,
            id == ((a & 0xffff) << 16u32) | (b & 0xffff),
    ;
    id
}

/// Whether a PHY answers with identifier `id`: an absent PHY reads as all ones in
/// the low 29 bits.
pub fn phy_id_valid(id: u32) -> (r: bool)
    ensures
        r == (id & 0x1fffffff != 0x1fffffff),
{
    (id & 0x1fffffff) != 0x1fffffff
}

/// The search for the PHY among the MDIO addresses of a mask.
///
/// Every attempt probes the address of the lowest bit of the initial mask; a
/// failed attempt clears that bit from the remaining mask, and the search gives
/// up once the remaining mask is empty.
pub struct PhyProbe {
    phy_mask: u32,
    mask: u32,
}

impl PhyProbe {
    /// The mask the search started with.
    pub closed spec fn spec_phy_mask(&self) -> u32 {
        self.phy_mask
    }

    /// The bits of the mask not yet cleared by failed attempts.
    pub closed spec fn spec_mask(&self) -> u32 {
        self.mask
    }

    /// The search's invariant: the remaining mask is part of the initial one.
    pub closed spec fn wf(&self) -> bool {
        self.mask & !self.phy_mask == 0
    }

    /// A search over the addresses of `phy_mask`.
    pub fn new(phy_mask: u32) -> (r: Self)
        ensures
            r.wf(),
            r.spec_phy_mask() == phy_mask,
            r.spec_mask() == phy_mask,
    {
        assert(phy_mask & !phy_mask == 0) by (bit_vector);
        PhyProbe { phy_mask, mask: phy_mask }
    }

    /// The address to probe next, or `None` when the search has failed.
    pub fn next_addr(&self) -> (r: Option<u32>)
        requires
            self.wf(),
        ensures
            self.spec_mask() == 0 ==> r is None,
            self.spec_mask() != 0 ==> (r matches Some(a) && a < 32 && lowest_set_bit(
                self.spec_phy_mask(),
                a,
            )),
    {
        if self.mask == 0 {
            return None;
        }
        let m = self.mask;
        let pm = self.phy_mask;
        assert(pm != 0) by (bit_vector)
            requires
                m & !pm == 0,
                m != 0,
        ;
        let addr = ffs(self.phy_mask) - 1;
        Some(addr as u32)
    }

    /// Records the outcome of reading the identifier at `addr`, the address that
    /// [`PhyProbe::next_addr`] gave: returns whether the PHY is found there;
    /// otherwise clears `addr` from the remaining mask.
    pub fn record(&mut self, addr: u32, id: Result<u32, i32>) -> (found: bool)
        requires
            old(self).wf(),
            addr < 32,
        ensures
            final(self).wf(),
            final(self).spec_phy_mask() == old(self).spec_phy_mask(),
            found == (id matches Ok(v) && (v & 0x1fffffff != 0x1fffffff)),
            found ==> final(self).spec_mask() == old(self).spec_mask(),
            !found ==> final(self).spec_mask() == old(self).spec_mask() & !(1u32 << addr),
    {
        match id {
            Ok(phy_id) => {
                if phy_id_valid(phy_id) {
                    return true;
                }
            },
            Err(_e) => {},
        }
        let m = self.mask;
        let pm = self.phy_mask;
        self.mask = self.mask & !(1u32 << addr);
        assert((m & !(1u32 << addr)) & !pm == 0) by (bit_vector)
            requires
                m & !pm == 0,
        ;
        false
    }
}

/// The soft reset of the PHY: how many more times its reset bit may be polled.
pub struct PhyReset {
    timeout: u32,
}

/// How many times the reset bit is polled before the reset is given up.
pub const PHY_RESET_POLLS: u32 = 600;

impl PhyReset {
    /// The polls left.
    pub closed spec fn spec_timeout(&self) -> u32 {
        self.timeout
    }

    /// A reset with all its polls left.
    pub fn new() -> (r: Self)
        ensures
            r.spec_timeout() == PHY_RESET_POLLS,
    {
        PhyReset { timeout: PHY_RESET_POLLS }
    }

    /// The control register value that starts the reset, from its current value.
    pub fn request(bmcr: u16) -> (r: u16)
        ensures
            r == bmcr | CVI_BMCR_RESET,
    {
        bmcr | CVI_BMCR_RESET
    }

    /// Records a poll of the control register: returns whether polling stops,
    /// because the reset bit cleared or no polls are left; otherwise one poll is
    /// used up.
    pub fn poll(&mut self, bmcr: u16) -> (done: bool)
        ensures
            done == (old(self).spec_timeout() == 0 || bmcr & CVI_BMCR_RESET == 0),
            done ==> final(self).spec_timeout() == old(self).spec_timeout(),
            !done ==> final(self).spec_timeout() == old(self).spec_timeout() - 1,
    {
        if self.timeout == 0 || (bmcr & CVI_BMCR_RESET) == 0 {
            return true;
        }
        self.timeout = self.timeout - 1;
        false
    }

    /// Whether the control register still shows the reset in progress.
    pub fn timed_out(bmcr: u16) -> (r: bool)
        ensures
            r == (bmcr & CVI_BMCR_RESET != 0),
    {
        bmcr & CVI_BMCR_RESET != 0
    }
}

/// The physical address of the Ethernet PHY control register.
pub const ETH_PHY_BASE: usize = 0x03009000;
/// The mask applied to the PHY control register's address when it is read.
pub const ETH_PHY_INIT_MASK: usize = 0xFFFFFFF9;
/// The shutdown bit of the PHY control register.
pub const ETH_PHY_SHUTDOWN: usize = 2;
/// Clears the shutdown bit.
pub const ETH_PHY_POWERUP: usize = 0xFFFFFFFD;
/// Clears the reset bit (active low: the PHY is held in reset).
pub const ETH_PHY_RESET: usize = 0xFFFFFFFB;

/// The three values written to the PHY control register to power-cycle the PHY,
/// from the value read from it: shut down and hold in reset, power up and hold in
/// reset, then power up with the reset bits as read.
pub fn eth_config_values(val: u32) -> (r: (u32, u32, u32))
    ensures
        r.0 == (val | 2) & 0xFFFFFFFB,
        r.1 == val & 0xFFFFFFFD & 0xFFFFFFFB,
        r.2 == (val & 0xFFFFFFFD) | 0xFFFFFFFB,
{
    let v = val as usize;
    let first = ((v | ETH_PHY_SHUTDOWN) & ETH_PHY_RESET) as u32;
    let second = ((v & ETH_PHY_POWERUP) & ETH_PHY_RESET) as u32;
    let third = ((v & ETH_PHY_POWERUP) | ETH_PHY_RESET) as u32;
    assert(first == (val | 2) & 0xFFFFFFFB && second == val & 0xFFFFFFFD & 0xFFFFFFFB && third
        == (val & 0xFFFFFFFD) | 0xFFFFFFFB) by (bit_vector)
        requires
            v == val as usize,
            first == ((v | 2usize) & 0xFFFFFFFBusize) as u32,
            second == ((v & 0xFFFFFFFDusize) & 0xFFFFFFFBusize) as u32,
            third == ((v & 0xFFFFFFFDusize) | 0xFFFFFFFBusize) as u32,
    ;
    (first, second, third)
}

/// The physical address that the PHY control register is read from.
pub fn eth_config_read_addr() -> (r: usize)
    ensures
        r == ETH_PHY_BASE & ETH_PHY_INIT_MASK,
{
    ETH_PHY_BASE & ETH_PHY_INIT_MASK
}

/// Part of [`configure_program`].
pub open spec fn configure_step_0() -> Seq<RegOp> {
    seq![
        RegOp::Write { addr: 0x03009804, value: 0x1 },
        RegOp::Write { addr: 0x0300907c, value: 0x500 },
        RegOp::Write { addr: 0x03009040, value: 0xc00 },
        RegOp::Write { addr: 0x03009040, value: 0xc7e },
        RegOp::Write { addr: 0x03009800, value: 0x906 },
    ]
}

/// Part of [`configure_program`].
pub open spec fn configure_step_1() -> Seq<RegOp> {
    seq![
        RegOp::Write { addr: 0x0300907c, value: 0x500 },
    ]
}

/// Part of [`configure_program`].
pub open spec fn configure_tx_itune(efuse_valid: u32) -> Seq<RegOp> {
    if efuse_valid & 0x200 == 0x200 {
        seq![
            RegOp::Read { addr: 0x03051024 },
            RegOp::Modify { addr: 0x03009064, clear: 0xffff, set: 0x0 },
        ]
    } else {
        seq![
            RegOp::Write { addr: 0x03009064, value: 0x5a5a },
        ]
    }
}

/// Part of [`configure_program`].
pub open spec fn configure_echo_rc(efuse_valid: u32) -> Seq<RegOp> {
    if efuse_valid & 0x100 == 0x100 {
        seq![
            RegOp::Read { addr: 0x03051024 },
            RegOp::Modify { addr: 0x03009054, clear: 0xff00, set: 0x0 },
        ]
    } else {
        seq![
            RegOp::Write { addr: 0x03009054, value: 0x0 },
        ]
    }
}

/// Part of [`configure_program`].
pub open spec fn configure_txrx_term(efuse_valid: u32) -> Seq<RegOp> {
    if efuse_valid & 0x800 == 0x800 {
        seq![
            RegOp::Read { addr: 0x03051020 },
            RegOp::Modify { addr: 0x03009058, clear: 0xff0, set: 0x0 },
        ]
    } else {
        seq![
            RegOp::Write { addr: 0x03009058, value: 0xbb0 },
        ]
    }
}

/// Part of [`configure_program`].
pub open spec fn configure_step_2() -> Seq<RegOp> {
    seq![
        RegOp::Write { addr: 0x0300905c, value: 0xc10 },
        RegOp::Write { addr: 0x03009068, value: 0x3 },
        RegOp::Write { addr: 0x03009054, value: 0x0 },
        RegOp::Write { addr: 0x0300907c, value: 0x1000 },
        RegOp::Write { addr: 0x03009068, value: 0x1000 },
        RegOp::Write { addr: 0x0300906c, value: 0x3020 },
        RegOp::Write { addr: 0x03009070, value: 0x5040 },
        RegOp::Write { addr: 0x03009074, value: 0x7060 },
        RegOp::Write { addr: 0x03009058, value: 0x1708 },
        RegOp::Write { addr: 0x0300905c, value: 0x3827 },
        RegOp::Write { addr: 0x03009060, value: 0x5748 },
        RegOp::Write { addr: 0x03009064, value: 0x7867 },
    ]
}

/// Part of [`configure_program`].
pub open spec fn configure_step_3() -> Seq<RegOp> {
    seq![
        RegOp::Write { addr: 0x0300907c, value: 0x1100 },
        RegOp::Write { addr: 0x03009040, value: 0x9080 },
        RegOp::Write { addr: 0x03009044, value: 0xb0a0 },
        RegOp::Write { addr: 0x03009048, value: 0xd0c0 },
        RegOp::Write { addr: 0x0300904c, value: 0xf0e0 },
        RegOp::Write { addr: 0x03009050, value: 0x9788 },
        RegOp::Write { addr: 0x03009054, value: 0xb8a7 },
        RegOp::Write { addr: 0x03009058, value: 0xd7c8 },
        RegOp::Write { addr: 0x0300905c, value: 0xf7c8 },
    ]
}

/// Part of [`configure_program`].
pub open spec fn configure_step_4() -> Seq<RegOp> {
    seq![
        RegOp::Write { addr: 0x0300907c, value: 0x500 },
        RegOp::Modify { addr: 0x03009040, clear: 0x0, set: 0x1 },
        RegOp::Write { addr: 0x0300907c, value: 0xa00 },
        RegOp::Write { addr: 0x03009040, value: 0x2000 },
        RegOp::Write { addr: 0x03009044, value: 0x3832 },
        RegOp::Write { addr: 0x03009048, value: 0x3132 },
        RegOp::Write { addr: 0x0300904c, value: 0x2d2f },
        RegOp::Write { addr: 0x03009050, value: 0x2c2d },
        RegOp::Write { addr: 0x03009054, value: 0x1b2b },
        RegOp::Write { addr: 0x03009058, value: 0x94a0 },
        RegOp::Write { addr: 0x0300905c, value: 0x8990 },
        RegOp::Write { addr: 0x03009060, value: 0x8788 },
        RegOp::Write { addr: 0x03009064, value: 0x8485 },
        RegOp::Write { addr: 0x03009068, value: 0x8283 },
        RegOp::Write { addr: 0x0300906c, value: 0x8182 },
        RegOp::Write { addr: 0x03009070, value: 0x81 },
    ]
}

/// Part of [`configure_program`].
pub open spec fn configure_step_5() -> Seq<RegOp> {
    seq![
        RegOp::Write { addr: 0x0300907c, value: 0xb00 },
        RegOp::Write { addr: 0x03009040, value: 0x5252 },
        RegOp::Write { addr: 0x03009044, value: 0x5252 },
        RegOp::Write { addr: 0x03009048, value: 0x4b52 },
        RegOp::Write { addr: 0x0300904c, value: 0x3d47 },
        RegOp::Write { addr: 0x03009050, value: 0xaa99 },
        RegOp::Write { addr: 0x03009054, value: 0x989e },
        RegOp::Write { addr: 0x03009058, value: 0x9395 },
        RegOp::Write { addr: 0x0300905c, value: 0x9091 },
        RegOp::Write { addr: 0x03009060, value: 0x8e8f },
        RegOp::Write { addr: 0x03009064, value: 0x8d8e },
        RegOp::Write { addr: 0x03009068, value: 0x8c8c },
        RegOp::Write { addr: 0x0300906c, value: 0x8b8b },
        RegOp::Write { addr: 0x03009070, value: 0x8a },
    ]
}

/// Part of [`configure_program`].
pub open spec fn configure_step_6() -> Seq<RegOp> {
    seq![
        RegOp::Write { addr: 0x0300907c, value: 0xd00 },
        RegOp::Write { addr: 0x03009040, value: 0x1e0a },
        RegOp::Write { addr: 0x03009044, value: 0x3862 },
        RegOp::Write { addr: 0x03009048, value: 0x1e62 },
        RegOp::Write { addr: 0x0300904c, value: 0x2a08 },
        RegOp::Write { addr: 0x03009050, value: 0x244c },
        RegOp::Write { addr: 0x03009054, value: 0x1a44 },
        RegOp::Write { addr: 0x03009058, value: 0x61c },
    ]
}

/// Part of [`configure_program`].
pub open spec fn configure_step_7() -> Seq<RegOp> {
    seq![
        RegOp::Write { addr: 0x0300907c, value: 0xe00 },
        RegOp::Write { addr: 0x03009040, value: 0x2d30 },
        RegOp::Write { addr: 0x03009044, value: 0x3470 },
        RegOp::Write { addr: 0x03009048, value: 0x648 },
        RegOp::Write { addr: 0x0300904c, value: 0x261c },
        RegOp::Write { addr: 0x03009050, value: 0x3160 },
        RegOp::Write { addr: 0x03009054, value: 0x2d5e },
    ]
}

/// Part of [`configure_program`].
pub open spec fn configure_step_8() -> Seq<RegOp> {
    seq![
        RegOp::Write { addr: 0x0300907c, value: 0xf00 },
        RegOp::Write { addr: 0x03009040, value: 0x2922 },
        RegOp::Write { addr: 0x03009044, value: 0x366e },
        RegOp::Write { addr: 0x03009048, value: 0x752 },
        RegOp::Write { addr: 0x0300904c, value: 0x2556 },
        RegOp::Write { addr: 0x03009050, value: 0x2348 },
        RegOp::Write { addr: 0x03009054, value: 0xc30 },
    ]
}

/// Part of [`configure_program`].
pub open spec fn configure_step_9() -> Seq<RegOp> {
    seq![
        RegOp::Write { addr: 0x0300907c, value: 0x1000 },
        RegOp::Write { addr: 0x03009040, value: 0x1e08 },
        RegOp::Write { addr: 0x03009044, value: 0x3868 },
        RegOp::Write { addr: 0x03009048, value: 0x1462 },
        RegOp::Write { addr: 0x0300904c, value: 0x1a0e },
        RegOp::Write { addr: 0x03009050, value: 0x305e },
        RegOp::Write { addr: 0x03009054, value: 0x2f62 },
        RegOp::Write { addr: 0x030010e0, value: 0x5 },
        RegOp::Write { addr: 0x030010e4, value: 0x5 },
        RegOp::Write { addr: 0x050270b0, value: 0x11111111 },
        RegOp::Write { addr: 0x050270b4, value: 0x11111111 },
    ]
}

/// Part of [`configure_program`].
pub open spec fn configure_step_10() -> Seq<RegOp> {
    seq![
        RegOp::Write { addr: 0x0300907c, value: 0x100 },
        RegOp::Modify { addr: 0x03009068, clear: 0xf00, set: 0x0 },
        RegOp::Write { addr: 0x0300907c, value: 0x0 },
        RegOp::Write { addr: 0x03009008, value: 0x43 },
        RegOp::Write { addr: 0x0300900c, value: 0x5649 },
    ]
}

/// Part of [`configure_program`].
pub open spec fn configure_step_11() -> Seq<RegOp> {
    seq![
        RegOp::Write { addr: 0x0300907c, value: 0x1300 },
        RegOp::Write { addr: 0x03009058, value: 0x12 },
        RegOp::Write { addr: 0x0300905c, value: 0x6848 },
        RegOp::Write { addr: 0x0300907c, value: 0x1200 },
        RegOp::Write { addr: 0x03009048, value: 0x808 },
        RegOp::Write { addr: 0x0300904c, value: 0x808 },
        RegOp::Write { addr: 0x03009050, value: 0x32f8 },
        RegOp::Write { addr: 0x03009054, value: 0xf8dc },
    ]
}

/// Part of [`configure_program`].
pub open spec fn configure_step_12() -> Seq<RegOp> {
    seq![
        RegOp::Write { addr: 0x0300907c, value: 0x0 },
        RegOp::Write { addr: 0x03009800, value: 0x90e },
        RegOp::Write { addr: 0x03009804, value: 0x0 },
    ]
}

/// The first register writes of the PHY configuration, before the trims.
pub open spec fn configure_head_program() -> Seq<RegOp> {
    configure_step_0() + configure_step_1()
}

/// The register writes of the PHY configuration after the trims.
pub open spec fn configure_tail_program() -> Seq<RegOp> {
    configure_step_2() + configure_step_3() + configure_step_4() + configure_step_5()
        + configure_step_6() + configure_step_7() + configure_step_8() + configure_step_9()
        + configure_step_10() + configure_step_11() + configure_step_12()
}

/// The register program that configures the PHY, in the order the PHY needs it.
/// Each trim depends on the eFuse valid-bits register (`EPHY_EFUSE_VALID_BIT_BASE`)
/// as read just before it: `tx_itune_valid`, `echo_rc_valid` and `txrx_term_valid`.
///
/// Where the eFuse holds a valid trim, the program reads the trim register and
/// clears the trimmed field of the PHY register; otherwise it writes the default.
pub open spec fn configure_program(tx_itune_valid: u32, echo_rc_valid: u32, txrx_term_valid: u32) -> Seq<RegOp> {
    configure_head_program() + configure_tx_itune(tx_itune_valid) + configure_echo_rc(
        echo_rc_valid,
    ) + configure_txrx_term(txrx_term_valid) + configure_tail_program()
}

/// Each eFuse trim depends on its own valid bit alone, and on no other bit of the
/// valid-bits register: bit 0x200 for the transmit current, 0x100 for the echo and
/// 0x800 for the termination. Where the bit is set the trim register is read and the
/// trimmed field of the PHY register cleared; where it is clear the default is
/// written.
pub proof fn law_trims_follow_valid_bits(v: u32)
    ensures
        configure_tx_itune(v) == configure_tx_itune(v & 0x200),
        v & 0x200 != 0 ==> configure_tx_itune(v) == seq![
            RegOp::Read { addr: 0x03051024 },
            RegOp::Modify { addr: 0x03009064, clear: 0xffff, set: 0x0 },
        ],
        v & 0x200 == 0 ==> configure_tx_itune(v) == seq![
            RegOp::Write { addr: 0x03009064, value: 0x5a5a },
        ],
        configure_echo_rc(v) == configure_echo_rc(v & 0x100),
        v & 0x100 != 0 ==> configure_echo_rc(v) == seq![
            RegOp::Read { addr: 0x03051024 },
            RegOp::Modify { addr: 0x03009054, clear: 0xff00, set: 0x0 },
        ],
        v & 0x100 == 0 ==> configure_echo_rc(v) == seq![
            RegOp::Write { addr: 0x03009054, value: 0x0 },
        ],
        configure_txrx_term(v) == configure_txrx_term(v & 0x800),
        v & 0x800 != 0 ==> configure_txrx_term(v) == seq![
            RegOp::Read { addr: 0x03051020 },
            RegOp::Modify { addr: 0x03009058, clear: 0xff0, set: 0x0 },
        ],
        v & 0x800 == 0 ==> configure_txrx_term(v) == seq![
            RegOp::Write { addr: 0x03009058, value: 0xbb0 },
        ],
{
    assert(((v & 0x200) == 0x200) == ((v & 0x200) != 0) && ((v & 0x200) & 0x200) == (v & 0x200))
        by (bit_vector);
    assert(((v & 0x100) == 0x100) == ((v & 0x100) != 0) && ((v & 0x100) & 0x100) == (v & 0x100))
        by (bit_vector);
    assert(((v & 0x800) == 0x800) == ((v & 0x800) != 0) && ((v & 0x800) & 0x800) == (v & 0x800))
        by (bit_vector);
}

/// The MII page select register of the PHY: the page it holds decides which bank
/// the registers below it address.
pub const MII_PAGE_SELECT: usize = 0x0300907c;

/// The register a [`RegOp`] accesses.
pub open spec fn reg_op_addr(op: RegOp) -> usize {
    match op {
        RegOp::Write { addr, .. } => addr,
        RegOp::Modify { addr, .. } => addr,
        RegOp::Read { addr } => addr,
    }
}

/// Whether `op` accesses one of the PHY registers that the MII page select
/// switches between banks.
pub open spec fn is_paged(op: RegOp) -> bool {
    0x03009000 <= reg_op_addr(op) && reg_op_addr(op) < MII_PAGE_SELECT
}

/// The page that `op` selects, where it is a write to the page select register.
pub open spec fn page_selected(op: RegOp) -> Option<u32> {
    match op {
        RegOp::Write { addr, value } => if addr == MII_PAGE_SELECT {
            Some(value)
        } else {
            None
        },
        _ => None,
    }
}

/// The MII page selected after `ops` run, `start` being the page before them.
pub open spec fn mii_page_after(ops: Seq<RegOp>, start: u32) -> u32
    decreases ops.len(),
{
    if ops.len() == 0 {
        start
    } else {
        match page_selected(ops.last()) {
            Some(page) => page,
            None => mii_page_after(ops.drop_last(), start),
        }
    }
}

/// The paged register accesses of `ops` in order, each with the MII page selected
/// when it runs, `start` being the page before them.
pub open spec fn mii_page_trace(ops: Seq<RegOp>, start: u32) -> Seq<(u32, RegOp)>
    decreases ops.len(),
{
    if ops.len() == 0 {
        Seq::empty()
    } else {
        let before = mii_page_trace(ops.drop_last(), start);
        if is_paged(ops.last()) {
            before.push((mii_page_after(ops.drop_last(), start), ops.last()))
        } else {
            before
        }
    }
}

/// Running `a` then `b` selects the pages that `b` selects after `a`.
proof fn lemma_page_concat(a: Seq<RegOp>, b: Seq<RegOp>, start: u32)
    ensures
        mii_page_after(a + b, start) == mii_page_after(b, mii_page_after(a, start)),
        mii_page_trace(a + b, start) == mii_page_trace(a, start) + mii_page_trace(
            b,
            mii_page_after(a, start),
        ),
    decreases b.len(),
{
    let mid = mii_page_after(a, start);
    if b.len() == 0 {
        assert(a + b =~= a);
        assert(mii_page_trace(a, start) + mii_page_trace(b, mid) =~= mii_page_trace(a, start));
    } else {
        lemma_page_concat(a, b.drop_last(), start);
        assert((a + b).drop_last() =~= a + b.drop_last());
        assert((a + b).last() == b.last());
        let x = b.last();
        let before = mii_page_trace(b.drop_last(), mid);
        assert((mii_page_trace(a, start) + before).push((mii_page_after(b.drop_last(), mid), x))
            =~= mii_page_trace(a, start) + before.push((mii_page_after(b.drop_last(), mid), x)));
    }
}

/// The paged register access of an eFuse trim, under MII page 5.
pub open spec fn paged_trim(trim: Seq<RegOp>) -> Seq<(u32, RegOp)> {
    seq![(0x500, trim.last())]
}

/// The paged register accesses of [`configure_step_0`] and [`configure_step_1`],
/// each with the MII page it runs under.
pub open spec fn paged_head() -> Seq<(u32, RegOp)> {
    seq![
        (0x500, RegOp::Write { addr: 0x03009040, value: 0xc00 }),
        (0x500, RegOp::Write { addr: 0x03009040, value: 0xc7e }),
    ]
}

/// The paged register accesses of [`configure_step_2`], each with the MII page
/// it runs under.
pub open spec fn paged_step_2() -> Seq<(u32, RegOp)> {
    seq![
        (0x500, RegOp::Write { addr: 0x0300905c, value: 0xc10 }),
        (0x500, RegOp::Write { addr: 0x03009068, value: 0x3 }),
        (0x500, RegOp::Write { addr: 0x03009054, value: 0x0 }),
        (0x1000, RegOp::Write { addr: 0x03009068, value: 0x1000 }),
        (0x1000, RegOp::Write { addr: 0x0300906c, value: 0x3020 }),
        (0x1000, RegOp::Write { addr: 0x03009070, value: 0x5040 }),
        (0x1000, RegOp::Write { addr: 0x03009074, value: 0x7060 }),
        (0x1000, RegOp::Write { addr: 0x03009058, value: 0x1708 }),
        (0x1000, RegOp::Write { addr: 0x0300905c, value: 0x3827 }),
        (0x1000, RegOp::Write { addr: 0x03009060, value: 0x5748 }),
        (0x1000, RegOp::Write { addr: 0x03009064, value: 0x7867 }),
    ]
}

/// The paged register accesses of [`configure_step_3`], each with the MII page
/// it runs under.
pub open spec fn paged_step_3() -> Seq<(u32, RegOp)> {
    seq![
        (0x1100, RegOp::Write { addr: 0x03009040, value: 0x9080 }),
        (0x1100, RegOp::Write { addr: 0x03009044, value: 0xb0a0 }),
        (0x1100, RegOp::Write { addr: 0x03009048, value: 0xd0c0 }),
        (0x1100, RegOp::Write { addr: 0x0300904c, value: 0xf0e0 }),
        (0x1100, RegOp::Write { addr: 0x03009050, value: 0x9788 }),
        (0x1100, RegOp::Write { addr: 0x03009054, value: 0xb8a7 }),
        (0x1100, RegOp::Write { addr: 0x03009058, value: 0xd7c8 }),
        (0x1100, RegOp::Write { addr: 0x0300905c, value: 0xf7c8 }),
    ]
}

/// The paged register accesses of [`configure_step_4`], each with the MII page
/// it runs under.
pub open spec fn paged_step_4() -> Seq<(u32, RegOp)> {
    seq![
        (0x500, RegOp::Modify { addr: 0x03009040, clear: 0x0, set: 0x1 }),
        (0xa00, RegOp::Write { addr: 0x03009040, value: 0x2000 }),
        (0xa00, RegOp::Write { addr: 0x03009044, value: 0x3832 }),
        (0xa00, RegOp::Write { addr: 0x03009048, value: 0x3132 }),
        (0xa00, RegOp::Write { addr: 0x0300904c, value: 0x2d2f }),
        (0xa00, RegOp::Write { addr: 0x03009050, value: 0x2c2d }),
        (0xa00, RegOp::Write { addr: 0x03009054, value: 0x1b2b }),
        (0xa00, RegOp::Write { addr: 0x03009058, value: 0x94a0 }),
        (0xa00, RegOp::Write { addr: 0x0300905c, value: 0x8990 }),
        (0xa00, RegOp::Write { addr: 0x03009060, value: 0x8788 }),
        (0xa00, RegOp::Write { addr: 0x03009064, value: 0x8485 }),
        (0xa00, RegOp::Write { addr: 0x03009068, value: 0x8283 }),
        (0xa00, RegOp::Write { addr: 0x0300906c, value: 0x8182 }),
        (0xa00, RegOp::Write { addr: 0x03009070, value: 0x81 }),
    ]
}

/// The paged register accesses of [`configure_step_5`], each with the MII page
/// it runs under.
pub open spec fn paged_step_5() -> Seq<(u32, RegOp)> {
    seq![
        (0xb00, RegOp::Write { addr: 0x03009040, value: 0x5252 }),
        (0xb00, RegOp::Write { addr: 0x03009044, value: 0x5252 }),
        (0xb00, RegOp::Write { addr: 0x03009048, value: 0x4b52 }),
        (0xb00, RegOp::Write { addr: 0x0300904c, value: 0x3d47 }),
        (0xb00, RegOp::Write { addr: 0x03009050, value: 0xaa99 }),
        (0xb00, RegOp::Write { addr: 0x03009054, value: 0x989e }),
        (0xb00, RegOp::Write { addr: 0x03009058, value: 0x9395 }),
        (0xb00, RegOp::Write { addr: 0x0300905c, value: 0x9091 }),
        (0xb00, RegOp::Write { addr: 0x03009060, value: 0x8e8f }),
        (0xb00, RegOp::Write { addr: 0x03009064, value: 0x8d8e }),
        (0xb00, RegOp::Write { addr: 0x03009068, value: 0x8c8c }),
        (0xb00, RegOp::Write { addr: 0x0300906c, value: 0x8b8b }),
        (0xb00, RegOp::Write { addr: 0x03009070, value: 0x8a }),
    ]
}

/// The paged register accesses of [`configure_step_6`], each with the MII page
/// it runs under.
pub open spec fn paged_step_6() -> Seq<(u32, RegOp)> {
    seq![
        (0xd00, RegOp::Write { addr: 0x03009040, value: 0x1e0a }),
        (0xd00, RegOp::Write { addr: 0x03009044, value: 0x3862 }),
        (0xd00, RegOp::Write { addr: 0x03009048, value: 0x1e62 }),
        (0xd00, RegOp::Write { addr: 0x0300904c, value: 0x2a08 }),
        (0xd00, RegOp::Write { addr: 0x03009050, value: 0x244c }),
        (0xd00, RegOp::Write { addr: 0x03009054, value: 0x1a44 }),
        (0xd00, RegOp::Write { addr: 0x03009058, value: 0x61c }),
    ]
}

/// The paged register accesses of [`configure_step_7`], each with the MII page
/// it runs under.
pub open spec fn paged_step_7() -> Seq<(u32, RegOp)> {
    seq![
        (0xe00, RegOp::Write { addr: 0x03009040, value: 0x2d30 }),
        (0xe00, RegOp::Write { addr: 0x03009044, value: 0x3470 }),
        (0xe00, RegOp::Write { addr: 0x03009048, value: 0x648 }),
        (0xe00, RegOp::Write { addr: 0x0300904c, value: 0x261c }),
        (0xe00, RegOp::Write { addr: 0x03009050, value: 0x3160 }),
        (0xe00, RegOp::Write { addr: 0x03009054, value: 0x2d5e }),
    ]
}

/// The paged register accesses of [`configure_step_8`], each with the MII page
/// it runs under.
pub open spec fn paged_step_8() -> Seq<(u32, RegOp)> {
    seq![
        (0xf00, RegOp::Write { addr: 0x03009040, value: 0x2922 }),
        (0xf00, RegOp::Write { addr: 0x03009044, value: 0x366e }),
        (0xf00, RegOp::Write { addr: 0x03009048, value: 0x752 }),
        (0xf00, RegOp::Write { addr: 0x0300904c, value: 0x2556 }),
        (0xf00, RegOp::Write { addr: 0x03009050, value: 0x2348 }),
        (0xf00, RegOp::Write { addr: 0x03009054, value: 0xc30 }),
    ]
}

/// The paged register accesses of [`configure_step_9`], each with the MII page
/// it runs under.
pub open spec fn paged_step_9() -> Seq<(u32, RegOp)> {
    seq![
        (0x1000, RegOp::Write { addr: 0x03009040, value: 0x1e08 }),
        (0x1000, RegOp::Write { addr: 0x03009044, value: 0x3868 }),
        (0x1000, RegOp::Write { addr: 0x03009048, value: 0x1462 }),
        (0x1000, RegOp::Write { addr: 0x0300904c, value: 0x1a0e }),
        (0x1000, RegOp::Write { addr: 0x03009050, value: 0x305e }),
        (0x1000, RegOp::Write { addr: 0x03009054, value: 0x2f62 }),
    ]
}

/// The paged register accesses of [`configure_step_10`], each with the MII page
/// it runs under.
pub open spec fn paged_step_10() -> Seq<(u32, RegOp)> {
    seq![
        (0x100, RegOp::Modify { addr: 0x03009068, clear: 0xf00, set: 0x0 }),
        (0x0, RegOp::Write { addr: 0x03009008, value: 0x43 }),
        (0x0, RegOp::Write { addr: 0x0300900c, value: 0x5649 }),
    ]
}

/// The paged register accesses of [`configure_step_11`], each with the MII page
/// it runs under.
pub open spec fn paged_step_11() -> Seq<(u32, RegOp)> {
    seq![
        (0x1300, RegOp::Write { addr: 0x03009058, value: 0x12 }),
        (0x1300, RegOp::Write { addr: 0x0300905c, value: 0x6848 }),
        (0x1200, RegOp::Write { addr: 0x03009048, value: 0x808 }),
        (0x1200, RegOp::Write { addr: 0x0300904c, value: 0x808 }),
        (0x1200, RegOp::Write { addr: 0x03009050, value: 0x32f8 }),
        (0x1200, RegOp::Write { addr: 0x03009054, value: 0xf8dc }),
    ]
}

/// Every paged register access of [`configure_program`] in order, each with the
/// MII page it runs under: page 5 for the first writes and the trims, then the
/// banks 16, 17, 5, 10, 11, 13, 14, 15, 16, 1, 0, 19 and 18 in turn.
pub open spec fn configure_page_reference(
    tx_itune_valid: u32,
    echo_rc_valid: u32,
    txrx_term_valid: u32,
) -> Seq<(u32, RegOp)> {
    paged_head() + paged_trim(configure_tx_itune(tx_itune_valid)) + paged_trim(
        configure_echo_rc(echo_rc_valid),
    ) + paged_trim(configure_txrx_term(txrx_term_valid)) + (paged_step_2() + paged_step_3()
        + paged_step_4() + paged_step_5() + paged_step_6() + paged_step_7() + paged_step_8()
        + paged_step_9() + paged_step_10() + paged_step_11())
}

/// A trim runs under the page selected before it and selects none.
proof fn lemma_trim_pages(trim: Seq<RegOp>, addr: usize, ok: RegOp, fallback: RegOp, c: u32)
    requires
        trim == seq![RegOp::Read { addr }, ok] || trim == seq![fallback],
        !is_paged(RegOp::Read { addr }),
        is_paged(ok) && page_selected(ok) is None,
        is_paged(fallback) && page_selected(fallback) is None,
    ensures
        mii_page_after(trim, c) == c,
        mii_page_trace(trim, c) == seq![(c, trim.last())],
{
    reveal_with_fuel(mii_page_trace, 3);
    reveal_with_fuel(mii_page_after, 3);
    if trim == seq![RegOp::Read { addr }, ok] {
        assert(trim.drop_last() =~= seq![RegOp::Read { addr }]);
        assert(trim.drop_last().drop_last() =~= Seq::<RegOp>::empty());
    } else {
        assert(trim.drop_last() =~= Seq::<RegOp>::empty());
    }
}

/// The pages under which [`configure_step_2`] runs its paged accesses.
proof fn lemma_pages_step_2()
    ensures
        mii_page_trace(configure_step_2(), 0x500) == paged_step_2(),
        mii_page_after(configure_step_2(), 0x500) == 0x1000,
{
    reveal_with_fuel(mii_page_trace, 13);
    reveal_with_fuel(mii_page_after, 13);
    assert(mii_page_trace(configure_step_2(), 0x500) =~= paged_step_2());
}

/// The pages under which [`configure_step_3`] runs its paged accesses.
proof fn lemma_pages_step_3()
    ensures
        mii_page_trace(configure_step_3(), 0x1000) == paged_step_3(),
        mii_page_after(configure_step_3(), 0x1000) == 0x1100,
{
    reveal_with_fuel(mii_page_trace, 10);
    reveal_with_fuel(mii_page_after, 10);
    assert(mii_page_trace(configure_step_3(), 0x1000) =~= paged_step_3());
}

/// The pages under which [`configure_step_4`] runs its paged accesses.
proof fn lemma_pages_step_4()
    ensures
        mii_page_trace(configure_step_4(), 0x1100) == paged_step_4(),
        mii_page_after(configure_step_4(), 0x1100) == 0xa00,
{
    reveal_with_fuel(mii_page_trace, 17);
    reveal_with_fuel(mii_page_after, 17);
    assert(mii_page_trace(configure_step_4(), 0x1100) =~= paged_step_4());
}

/// The pages under which [`configure_step_5`] runs its paged accesses.
proof fn lemma_pages_step_5()
    ensures
        mii_page_trace(configure_step_5(), 0xa00) == paged_step_5(),
        mii_page_after(configure_step_5(), 0xa00) == 0xb00,
{
    reveal_with_fuel(mii_page_trace, 15);
    reveal_with_fuel(mii_page_after, 15);
    assert(mii_page_trace(configure_step_5(), 0xa00) =~= paged_step_5());
}

/// The pages under which [`configure_step_6`] runs its paged accesses.
proof fn lemma_pages_step_6()
    ensures
        mii_page_trace(configure_step_6(), 0xb00) == paged_step_6(),
        mii_page_after(configure_step_6(), 0xb00) == 0xd00,
{
    reveal_with_fuel(mii_page_trace, 9);
    reveal_with_fuel(mii_page_after, 9);
    assert(mii_page_trace(configure_step_6(), 0xb00) =~= paged_step_6());
}

/// The pages under which [`configure_step_7`] runs its paged accesses.
proof fn lemma_pages_step_7()
    ensures
        mii_page_trace(configure_step_7(), 0xd00) == paged_step_7(),
        mii_page_after(configure_step_7(), 0xd00) == 0xe00,
{
    reveal_with_fuel(mii_page_trace, 8);
    reveal_with_fuel(mii_page_after, 8);
    assert(mii_page_trace(configure_step_7(), 0xd00) =~= paged_step_7());
}

/// The pages under which [`configure_step_8`] runs its paged accesses.
proof fn lemma_pages_step_8()
    ensures
        mii_page_trace(configure_step_8(), 0xe00) == paged_step_8(),
        mii_page_after(configure_step_8(), 0xe00) == 0xf00,
{
    reveal_with_fuel(mii_page_trace, 8);
    reveal_with_fuel(mii_page_after, 8);
    assert(mii_page_trace(configure_step_8(), 0xe00) =~= paged_step_8());
}

/// The pages under which [`configure_step_9`] runs its paged accesses.
proof fn lemma_pages_step_9()
    ensures
        mii_page_trace(configure_step_9(), 0xf00) == paged_step_9(),
        mii_page_after(configure_step_9(), 0xf00) == 0x1000,
{
    reveal_with_fuel(mii_page_trace, 12);
    reveal_with_fuel(mii_page_after, 12);
    assert(mii_page_trace(configure_step_9(), 0xf00) =~= paged_step_9());
}

/// The pages under which [`configure_step_10`] runs its paged accesses.
proof fn lemma_pages_step_10()
    ensures
        mii_page_trace(configure_step_10(), 0x1000) == paged_step_10(),
        mii_page_after(configure_step_10(), 0x1000) == 0x0,
{
    reveal_with_fuel(mii_page_trace, 6);
    reveal_with_fuel(mii_page_after, 6);
    assert(mii_page_trace(configure_step_10(), 0x1000) =~= paged_step_10());
}

/// The pages under which [`configure_step_11`] runs its paged accesses.
proof fn lemma_pages_step_11()
    ensures
        mii_page_trace(configure_step_11(), 0x0) == paged_step_11(),
        mii_page_after(configure_step_11(), 0x0) == 0x1200,
{
    reveal_with_fuel(mii_page_trace, 9);
    reveal_with_fuel(mii_page_after, 9);
    assert(mii_page_trace(configure_step_11(), 0x0) =~= paged_step_11());
}

/// The pages under which [`configure_step_12`] runs its paged accesses.
proof fn lemma_pages_step_12()
    ensures
        mii_page_trace(configure_step_12(), 0x1200) == Seq::<(u32, RegOp)>::empty(),
        mii_page_after(configure_step_12(), 0x1200) == 0x0,
{
    reveal_with_fuel(mii_page_trace, 4);
    reveal_with_fuel(mii_page_after, 4);
    assert(mii_page_trace(configure_step_12(), 0x1200) =~= Seq::<(u32, RegOp)>::empty());
}

/// Every register of a PHY bank is written under the page it belongs to: the
/// paged register accesses of the configuration program, with the MII page each
/// runs under, are those of [`configure_page_reference`] in that order, whatever
/// page was selected before, and the program leaves page 0 selected.
#[verifier::rlimit(50)]
pub proof fn law_configure_page_order(
    tx_itune_valid: u32,
    echo_rc_valid: u32,
    txrx_term_valid: u32,
    start: u32,
)
    ensures
        mii_page_trace(configure_program(tx_itune_valid, echo_rc_valid, txrx_term_valid), start)
            == configure_page_reference(tx_itune_valid, echo_rc_valid, txrx_term_valid),
        mii_page_after(configure_program(tx_itune_valid, echo_rc_valid, txrx_term_valid), start)
            == 0,
{
    let t1 = configure_tx_itune(tx_itune_valid);
    let t2 = configure_echo_rc(echo_rc_valid);
    let t3 = configure_txrx_term(txrx_term_valid);
    law_trims_follow_valid_bits(tx_itune_valid);
    law_trims_follow_valid_bits(echo_rc_valid);
    law_trims_follow_valid_bits(txrx_term_valid);
    lemma_trim_pages(
        t1,
        0x03051024,
        RegOp::Modify { addr: 0x03009064, clear: 0xffff, set: 0x0 },
        RegOp::Write { addr: 0x03009064, value: 0x5a5a },
        0x500,
    );
    lemma_trim_pages(
        t2,
        0x03051024,
        RegOp::Modify { addr: 0x03009054, clear: 0xff00, set: 0x0 },
        RegOp::Write { addr: 0x03009054, value: 0x0 },
        0x500,
    );
    lemma_trim_pages(
        t3,
        0x03051020,
        RegOp::Modify { addr: 0x03009058, clear: 0xff0, set: 0x0 },
        RegOp::Write { addr: 0x03009058, value: 0xbb0 },
        0x500,
    );
    assert(mii_page_trace(configure_step_0(), start) == paged_head()
        && mii_page_after(configure_step_0(), start) == 0x500) by {
        reveal_with_fuel(mii_page_trace, 6);
        reveal_with_fuel(mii_page_after, 6);
        assert(mii_page_trace(configure_step_0(), start) =~= paged_head());
    }
    assert(mii_page_trace(configure_step_1(), 0x500) =~= Seq::<(u32, RegOp)>::empty()
        && mii_page_after(configure_step_1(), 0x500) == 0x500) by {
        reveal_with_fuel(mii_page_trace, 2);
        reveal_with_fuel(mii_page_after, 2);
    }
    lemma_page_concat(configure_step_0(), configure_step_1(), start);
    assert(paged_head() + Seq::<(u32, RegOp)>::empty() =~= paged_head());
    let h = configure_head_program();
    lemma_page_concat(h, t1, start);
    lemma_page_concat(h + t1, t2, start);
    lemma_page_concat(h + t1 + t2, t3, start);
    lemma_pages_step_2();
    lemma_pages_step_3();
    lemma_pages_step_4();
    lemma_pages_step_5();
    lemma_pages_step_6();
    lemma_pages_step_7();
    lemma_pages_step_8();
    lemma_pages_step_9();
    lemma_pages_step_10();
    lemma_pages_step_11();
    lemma_pages_step_12();
    let x2 = configure_step_2();
    let x3 = x2 + configure_step_3();
    lemma_page_concat(x2, configure_step_3(), 0x500);
    let x4 = x3 + configure_step_4();
    lemma_page_concat(x3, configure_step_4(), 0x500);
    let x5 = x4 + configure_step_5();
    lemma_page_concat(x4, configure_step_5(), 0x500);
    let x6 = x5 + configure_step_6();
    lemma_page_concat(x5, configure_step_6(), 0x500);
    let x7 = x6 + configure_step_7();
    lemma_page_concat(x6, configure_step_7(), 0x500);
    let x8 = x7 + configure_step_8();
    lemma_page_concat(x7, configure_step_8(), 0x500);
    let x9 = x8 + configure_step_9();
    lemma_page_concat(x8, configure_step_9(), 0x500);
    let x10 = x9 + configure_step_10();
    lemma_page_concat(x9, configure_step_10(), 0x500);
    let x11 = x10 + configure_step_11();
    lemma_page_concat(x10, configure_step_11(), 0x500);
    let x12 = x11 + configure_step_12();
    lemma_page_concat(x11, configure_step_12(), 0x500);
    assert(x12 == configure_tail_program());
    let tail_ref = paged_step_2() + paged_step_3() + paged_step_4() + paged_step_5() + paged_step_6()
        + paged_step_7() + paged_step_8() + paged_step_9() + paged_step_10() + paged_step_11();
    assert(tail_ref + Seq::<(u32, RegOp)>::empty() =~= tail_ref);
    lemma_page_concat(h + t1 + t2 + t3, configure_tail_program(), start);
}

fn push_configure_step_0(ops: &mut Vec<RegOp>)
    ensures
        final(ops)@ == old(ops)@ + configure_step_0(),
{
    let ghost start = ops@;
    ops.push(RegOp::Write { addr: 0x03009804, value: 0x1 });
    ops.push(RegOp::Write { addr: 0x0300907c, value: 0x500 });
    ops.push(RegOp::Write { addr: 0x03009040, value: 0xc00 });
    ops.push(RegOp::Write { addr: 0x03009040, value: 0xc7e });
    ops.push(RegOp::Write { addr: 0x03009800, value: 0x906 });
    proof {
        assert(ops@ =~= start + configure_step_0());
    }
}

fn push_configure_step_1(ops: &mut Vec<RegOp>)
    ensures
        final(ops)@ == old(ops)@ + configure_step_1(),
{
    let ghost start = ops@;
    ops.push(RegOp::Write { addr: 0x0300907c, value: 0x500 });
    proof {
        assert(ops@ =~= start + configure_step_1());
    }
}

fn push_configure_tx_itune(ops: &mut Vec<RegOp>, efuse_valid: u32)
    ensures
        final(ops)@ == old(ops)@ + configure_tx_itune(efuse_valid),
{
    let ghost start = ops@;
    if efuse_valid & 0x200 == 0x200 {
        ops.push(RegOp::Read { addr: 0x03051024 });
        ops.push(RegOp::Modify { addr: 0x03009064, clear: 0xffff, set: 0x0 });
    } else {
        ops.push(RegOp::Write { addr: 0x03009064, value: 0x5a5a });
    }
    proof {
        assert(ops@ =~= start + configure_tx_itune(efuse_valid));
    }
}

fn push_configure_echo_rc(ops: &mut Vec<RegOp>, efuse_valid: u32)
    ensures
        final(ops)@ == old(ops)@ + configure_echo_rc(efuse_valid),
{
    let ghost start = ops@;
    if efuse_valid & 0x100 == 0x100 {
        ops.push(RegOp::Read { addr: 0x03051024 });
        ops.push(RegOp::Modify { addr: 0x03009054, clear: 0xff00, set: 0x0 });
    } else {
        ops.push(RegOp::Write { addr: 0x03009054, value: 0x0 });
    }
    proof {
        assert(ops@ =~= start + configure_echo_rc(efuse_valid));
    }
}

fn push_configure_txrx_term(ops: &mut Vec<RegOp>, efuse_valid: u32)
    ensures
        final(ops)@ == old(ops)@ + configure_txrx_term(efuse_valid),
{
    let ghost start = ops@;
    if efuse_valid & 0x800 == 0x800 {
        ops.push(RegOp::Read { addr: 0x03051020 });
        ops.push(RegOp::Modify { addr: 0x03009058, clear: 0xff0, set: 0x0 });
    } else {
        ops.push(RegOp::Write { addr: 0x03009058, value: 0xbb0 });
    }
    proof {
        assert(ops@ =~= start + configure_txrx_term(efuse_valid));
    }
}

fn push_configure_step_2(ops: &mut Vec<RegOp>)
    ensures
        final(ops)@ == old(ops)@ + configure_step_2(),
{
    let ghost start = ops@;
    ops.push(RegOp::Write { addr: 0x0300905c, value: 0xc10 });
    ops.push(RegOp::Write { addr: 0x03009068, value: 0x3 });
    ops.push(RegOp::Write { addr: 0x03009054, value: 0x0 });
    ops.push(RegOp::Write { addr: 0x0300907c, value: 0x1000 });
    ops.push(RegOp::Write { addr: 0x03009068, value: 0x1000 });
    ops.push(RegOp::Write { addr: 0x0300906c, value: 0x3020 });
    ops.push(RegOp::Write { addr: 0x03009070, value: 0x5040 });
    ops.push(RegOp::Write { addr: 0x03009074, value: 0x7060 });
    ops.push(RegOp::Write { addr: 0x03009058, value: 0x1708 });
    ops.push(RegOp::Write { addr: 0x0300905c, value: 0x3827 });
    ops.push(RegOp::Write { addr: 0x03009060, value: 0x5748 });
    ops.push(RegOp::Write { addr: 0x03009064, value: 0x7867 });
    proof {
        assert(ops@ =~= start + configure_step_2());
    }
}

fn push_configure_step_3(ops: &mut Vec<RegOp>)
    ensures
        final(ops)@ == old(ops)@ + configure_step_3(),
{
    let ghost start = ops@;
    ops.push(RegOp::Write { addr: 0x0300907c, value: 0x1100 });
    ops.push(RegOp::Write { addr: 0x03009040, value: 0x9080 });
    ops.push(RegOp::Write { addr: 0x03009044, value: 0xb0a0 });
    ops.push(RegOp::Write { addr: 0x03009048, value: 0xd0c0 });
    ops.push(RegOp::Write { addr: 0x0300904c, value: 0xf0e0 });
    ops.push(RegOp::Write { addr: 0x03009050, value: 0x9788 });
    ops.push(RegOp::Write { addr: 0x03009054, value: 0xb8a7 });
    ops.push(RegOp::Write { addr: 0x03009058, value: 0xd7c8 });
    ops.push(RegOp::Write { addr: 0x0300905c, value: 0xf7c8 });
    proof {
        assert(ops@ =~= start + configure_step_3());
    }
}

fn push_configure_step_4(ops: &mut Vec<RegOp>)
    ensures
        final(ops)@ == old(ops)@ + configure_step_4(),
{
    let ghost start = ops@;
    ops.push(RegOp::Write { addr: 0x0300907c, value: 0x500 });
    ops.push(RegOp::Modify { addr: 0x03009040, clear: 0x0, set: 0x1 });
    ops.push(RegOp::Write { addr: 0x0300907c, value: 0xa00 });
    ops.push(RegOp::Write { addr: 0x03009040, value: 0x2000 });
    ops.push(RegOp::Write { addr: 0x03009044, value: 0x3832 });
    ops.push(RegOp::Write { addr: 0x03009048, value: 0x3132 });
    ops.push(RegOp::Write { addr: 0x0300904c, value: 0x2d2f });
    ops.push(RegOp::Write { addr: 0x03009050, value: 0x2c2d });
    ops.push(RegOp::Write { addr: 0x03009054, value: 0x1b2b });
    ops.push(RegOp::Write { addr: 0x03009058, value: 0x94a0 });
    ops.push(RegOp::Write { addr: 0x0300905c, value: 0x8990 });
    ops.push(RegOp::Write { addr: 0x03009060, value: 0x8788 });
    ops.push(RegOp::Write { addr: 0x03009064, value: 0x8485 });
    ops.push(RegOp::Write { addr: 0x03009068, value: 0x8283 });
    ops.push(RegOp::Write { addr: 0x0300906c, value: 0x8182 });
    ops.push(RegOp::Write { addr: 0x03009070, value: 0x81 });
    proof {
        assert(ops@ =~= start + configure_step_4());
    }
}

fn push_configure_step_5(ops: &mut Vec<RegOp>)
    ensures
        final(ops)@ == old(ops)@ + configure_step_5(),
{
    let ghost start = ops@;
    ops.push(RegOp::Write { addr: 0x0300907c, value: 0xb00 });
    ops.push(RegOp::Write { addr: 0x03009040, value: 0x5252 });
    ops.push(RegOp::Write { addr: 0x03009044, value: 0x5252 });
    ops.push(RegOp::Write { addr: 0x03009048, value: 0x4b52 });
    ops.push(RegOp::Write { addr: 0x0300904c, value: 0x3d47 });
    ops.push(RegOp::Write { addr: 0x03009050, value: 0xaa99 });
    ops.push(RegOp::Write { addr: 0x03009054, value: 0x989e });
    ops.push(RegOp::Write { addr: 0x03009058, value: 0x9395 });
    ops.push(RegOp::Write { addr: 0x0300905c, value: 0x9091 });
    ops.push(RegOp::Write { addr: 0x03009060, value: 0x8e8f });
    ops.push(RegOp::Write { addr: 0x03009064, value: 0x8d8e });
    ops.push(RegOp::Write { addr: 0x03009068, value: 0x8c8c });
    ops.push(RegOp::Write { addr: 0x0300906c, value: 0x8b8b });
    ops.push(RegOp::Write { addr: 0x03009070, value: 0x8a });
    proof {
        assert(ops@ =~= start + configure_step_5());
    }
}

fn push_configure_step_6(ops: &mut Vec<RegOp>)
    ensures
        final(ops)@ == old(ops)@ + configure_step_6(),
{
    let ghost start = ops@;
    ops.push(RegOp::Write { addr: 0x0300907c, value: 0xd00 });
    ops.push(RegOp::Write { addr: 0x03009040, value: 0x1e0a });
    ops.push(RegOp::Write { addr: 0x03009044, value: 0x3862 });
    ops.push(RegOp::Write { addr: 0x03009048, value: 0x1e62 });
    ops.push(RegOp::Write { addr: 0x0300904c, value: 0x2a08 });
    ops.push(RegOp::Write { addr: 0x03009050, value: 0x244c });
    ops.push(RegOp::Write { addr: 0x03009054, value: 0x1a44 });
    ops.push(RegOp::Write { addr: 0x03009058, value: 0x61c });
    proof {
        assert(ops@ =~= start + configure_step_6());
    }
}

fn push_configure_step_7(ops: &mut Vec<RegOp>)
    ensures
        final(ops)@ == old(ops)@ + configure_step_7(),
{
    let ghost start = ops@;
    ops.push(RegOp::Write { addr: 0x0300907c, value: 0xe00 });
    ops.push(RegOp::Write { addr: 0x03009040, value: 0x2d30 });
    ops.push(RegOp::Write { addr: 0x03009044, value: 0x3470 });
    ops.push(RegOp::Write { addr: 0x03009048, value: 0x648 });
    ops.push(RegOp::Write { addr: 0x0300904c, value: 0x261c });
    ops.push(RegOp::Write { addr: 0x03009050, value: 0x3160 });
    ops.push(RegOp::Write { addr: 0x03009054, value: 0x2d5e });
    proof {
        assert(ops@ =~= start + configure_step_7());
    }
}

fn push_configure_step_8(ops: &mut Vec<RegOp>)
    ensures
        final(ops)@ == old(ops)@ + configure_step_8(),
{
    let ghost start = ops@;
    ops.push(RegOp::Write { addr: 0x0300907c, value: 0xf00 });
    ops.push(RegOp::Write { addr: 0x03009040, value: 0x2922 });
    ops.push(RegOp::Write { addr: 0x03009044, value: 0x366e });
    ops.push(RegOp::Write { addr: 0x03009048, value: 0x752 });
    ops.push(RegOp::Write { addr: 0x0300904c, value: 0x2556 });
    ops.push(RegOp::Write { addr: 0x03009050, value: 0x2348 });
    ops.push(RegOp::Write { addr: 0x03009054, value: 0xc30 });
    proof {
        assert(ops@ =~= start + configure_step_8());
    }
}

fn push_configure_step_9(ops: &mut Vec<RegOp>)
    ensures
        final(ops)@ == old(ops)@ + configure_step_9(),
{
    let ghost start = ops@;
    ops.push(RegOp::Write { addr: 0x0300907c, value: 0x1000 });
    ops.push(RegOp::Write { addr: 0x03009040, value: 0x1e08 });
    ops.push(RegOp::Write { addr: 0x03009044, value: 0x3868 });
    ops.push(RegOp::Write { addr: 0x03009048, value: 0x1462 });
    ops.push(RegOp::Write { addr: 0x0300904c, value: 0x1a0e });
    ops.push(RegOp::Write { addr: 0x03009050, value: 0x305e });
    ops.push(RegOp::Write { addr: 0x03009054, value: 0x2f62 });
    ops.push(RegOp::Write { addr: 0x030010e0, value: 0x5 });
    ops.push(RegOp::Write { addr: 0x030010e4, value: 0x5 });
    ops.push(RegOp::Write { addr: 0x050270b0, value: 0x11111111 });
    ops.push(RegOp::Write { addr: 0x050270b4, value: 0x11111111 });
    proof {
        assert(ops@ =~= start + configure_step_9());
    }
}

fn push_configure_step_10(ops: &mut Vec<RegOp>)
    ensures
        final(ops)@ == old(ops)@ + configure_step_10(),
{
    let ghost start = ops@;
    ops.push(RegOp::Write { addr: 0x0300907c, value: 0x100 });
    ops.push(RegOp::Modify { addr: 0x03009068, clear: 0xf00, set: 0x0 });
    ops.push(RegOp::Write { addr: 0x0300907c, value: 0x0 });
    ops.push(RegOp::Write { addr: 0x03009008, value: 0x43 });
    ops.push(RegOp::Write { addr: 0x0300900c, value: 0x5649 });
    proof {
        assert(ops@ =~= start + configure_step_10());
    }
}

fn push_configure_step_11(ops: &mut Vec<RegOp>)
    ensures
        final(ops)@ == old(ops)@ + configure_step_11(),
{
    let ghost start = ops@;
    ops.push(RegOp::Write { addr: 0x0300907c, value: 0x1300 });
    ops.push(RegOp::Write { addr: 0x03009058, value: 0x12 });
    ops.push(RegOp::Write { addr: 0x0300905c, value: 0x6848 });
    ops.push(RegOp::Write { addr: 0x0300907c, value: 0x1200 });
    ops.push(RegOp::Write { addr: 0x03009048, value: 0x808 });
    ops.push(RegOp::Write { addr: 0x0300904c, value: 0x808 });
    ops.push(RegOp::Write { addr: 0x03009050, value: 0x32f8 });
    ops.push(RegOp::Write { addr: 0x03009054, value: 0xf8dc });
    proof {
        assert(ops@ =~= start + configure_step_11());
    }
}

fn push_configure_step_12(ops: &mut Vec<RegOp>)
    ensures
        final(ops)@ == old(ops)@ + configure_step_12(),
{
    let ghost start = ops@;
    ops.push(RegOp::Write { addr: 0x0300907c, value: 0x0 });
    ops.push(RegOp::Write { addr: 0x03009800, value: 0x90e });
    ops.push(RegOp::Write { addr: 0x03009804, value: 0x0 });
    proof {
        assert(ops@ =~= start + configure_step_12());
    }
}

/// The first stage of the PHY configuration, before the eFuse is read.
pub fn configure_head() -> (ops: Vec<RegOp>)
    ensures
        ops@ == configure_head_program(),
{
    let mut ops: Vec<RegOp> = Vec::new();
    push_configure_step_0(&mut ops);
    assert(ops@ =~= configure_step_0());
    push_configure_step_1(&mut ops);
    ops
}

/// The transmit current trim, given the eFuse valid bits read just before it.
pub fn configure_trim_tx_itune(efuse_valid: u32) -> (ops: Vec<RegOp>)
    ensures
        ops@ == configure_tx_itune(efuse_valid),
{
    let mut ops: Vec<RegOp> = Vec::new();
    push_configure_tx_itune(&mut ops, efuse_valid);
    assert(ops@ =~= configure_tx_itune(efuse_valid));
    ops
}

/// The echo trim, given the eFuse valid bits read just before it.
pub fn configure_trim_echo_rc(efuse_valid: u32) -> (ops: Vec<RegOp>)
    ensures
        ops@ == configure_echo_rc(efuse_valid),
{
    let mut ops: Vec<RegOp> = Vec::new();
    push_configure_echo_rc(&mut ops, efuse_valid);
    assert(ops@ =~= configure_echo_rc(efuse_valid));
    ops
}

/// The termination trim, given the eFuse valid bits read just before it.
pub fn configure_trim_txrx_term(efuse_valid: u32) -> (ops: Vec<RegOp>)
    ensures
        ops@ == configure_txrx_term(efuse_valid),
{
    let mut ops: Vec<RegOp> = Vec::new();
    push_configure_txrx_term(&mut ops, efuse_valid);
    assert(ops@ =~= configure_txrx_term(efuse_valid));
    ops
}

/// The last stage of the PHY configuration, after the trims.
pub fn configure_tail() -> (ops: Vec<RegOp>)
    ensures
        ops@ == configure_tail_program(),
{
    let mut ops: Vec<RegOp> = Vec::new();
    push_configure_step_2(&mut ops);
    assert(ops@ =~= configure_step_2());
    push_configure_step_3(&mut ops);
    push_configure_step_4(&mut ops);
    push_configure_step_5(&mut ops);
    push_configure_step_6(&mut ops);
    push_configure_step_7(&mut ops);
    push_configure_step_8(&mut ops);
    push_configure_step_9(&mut ops);
    push_configure_step_10(&mut ops);
    push_configure_step_11(&mut ops);
    push_configure_step_12(&mut ops);
    ops
}

/// The whole PHY configuration program, given the three readings of the eFuse
/// valid bits: the stages in order.
pub fn configure(tx_itune_valid: u32, echo_rc_valid: u32, txrx_term_valid: u32) -> (ops: Vec<RegOp>)
    ensures
        ops@ == configure_program(tx_itune_valid, echo_rc_valid, txrx_term_valid),
{
    let mut ops = configure_head();
    let mut a = configure_trim_tx_itune(tx_itune_valid);
    ops.append(&mut a);
    let mut b = configure_trim_echo_rc(echo_rc_valid);
    ops.append(&mut b);
    let mut c = configure_trim_txrx_term(txrx_term_valid);
    ops.append(&mut c);
    let mut d = configure_tail();
    ops.append(&mut d);
    ops
}

} // verus!
