//! The RISC-V interrupt plumbing of the C906: trap causes, handler registration,
//! and the PLIC registers that enable, prioritize and claim external interrupts.

use vstd::prelude::*;

verus! {

/// The base physical address of the PLIC.
pub const PLIC_BASE: usize = 0x7000_0000;
/// Offset of the hart 0 supervisor interrupt-enable registers.
pub const PLIC_H0_SIE0_OFFSET: usize = 0x000_2080;
/// Offset of the hart 0 supervisor priority-threshold register.
pub const PLIC_H0_STH_OFFSET: usize = 0x020_1000;
/// Offset of the hart 0 supervisor claim/complete register.
pub const PLIC_SCLAIM_OFFSET: usize = 0x020_1004;
/// The priority given to an enabled interrupt source.
pub const PLIC_ENABLED_PRIORITY: u32 = 7;
/// The maximum number of IRQs.
pub const MAX_IRQ_COUNT: usize = 128;

/// The `Interrupt` bit of `scause`: its top bit.
pub open spec fn intc_irq_base() -> usize {
    (1usize << (usize::BITS - 1) as usize) as usize
}

proof fn lemma_intc_irq_base_bounds()
    ensures
        intc_irq_base() + 9 <= usize::MAX,
        intc_irq_base() >= 0x8000_0000,
{
    let sh = (usize::BITS - 1) as usize;
    vstd::bits::lemma_usize_pow2_no_overflow(sh as nat);
    vstd::bits::lemma_usize_shl_is_mul(1usize, sh);
    vstd::layout::unsigned_int_max_values();
    vstd::arithmetic::power2::lemma_pow2_adds(sh as nat, 1);
    vstd::arithmetic::power2::lemma2_to64();
    if usize::BITS == 64 {
        vstd::arithmetic::power2::lemma_pow2_strictly_increases(31, 63);
    }
}

/// The `Interrupt` bit of `scause`.
pub fn intc_irq_base_value() -> (r: usize)
    ensures
        r == intc_irq_base(),
{
    1usize << (usize::BITS - 1)
}

/// The trap cause of an interrupt that the kernel handles.
#[derive(Clone, Copy, Debug, PartialEq, Eq, Structural)]
pub enum TrapCause {
    /// The supervisor timer interrupt.
    Timer,
    /// A supervisor external interrupt; `irq` is `scause` without the interrupt bit.
    External { irq: usize },
}

/// The cause of `scause`, or `None` for a cause the kernel does not handle.
pub open spec fn trap_cause(scause: usize) -> Option<TrapCause> {
    if scause == intc_irq_base() + 5 {
        Some(TrapCause::Timer)
    } else if scause == intc_irq_base() + 9 {
        Some(TrapCause::External { irq: scause & !intc_irq_base() })
    } else {
        None
    }
}

/// Computes [`trap_cause`].
pub fn classify_trap(scause: usize) -> (r: Option<TrapCause>)
    ensures
        r == trap_cause(scause),
{
    let base = intc_irq_base_value();
    proof {
        lemma_intc_irq_base_bounds();
    }
    if scause == base + 5 {
        Some(TrapCause::Timer)
    } else if scause == base + 9 {
        Some(TrapCause::External { irq: scause & !base })
    } else {
        None
    }
}

/// What registering a handler for `scause` does.
#[derive(Clone, Copy, Debug, PartialEq, Eq, Structural)]
pub enum RegisterAction {
    /// Install the timer handler; the registration succeeds.
    SetTimer,
    /// A timer handler is already installed; the registration fails.
    TimerTaken,
    /// Register the handler for external interrupt `irq`.
    External { irq: usize },
}

/// Registers a handler for the timer interrupt or an external interrupt: the timer
/// takes one handler only, `timer_handler_set` telling whether it has one.
/// `scause` must be the timer or the external interrupt cause.
pub fn register_handler(scause: usize, timer_handler_set: bool) -> (r: RegisterAction)
    requires
        trap_cause(scause) is Some,
    ensures
        r == match trap_cause(scause).unwrap() {
            TrapCause::Timer => if timer_handler_set {
                RegisterAction::TimerTaken
            } else {
                RegisterAction::SetTimer
            },
            TrapCause::External { irq } => RegisterAction::External { irq },
        },
{
    match classify_trap(scause) {
        Some(TrapCause::Timer) => {
            if !timer_handler_set {
                RegisterAction::SetTimer
            } else {
                RegisterAction::TimerTaken
            }
        },
        Some(TrapCause::External { irq }) => RegisterAction::External { irq },
        None => vstd::pervasive::unreached(),
    }
}

/// The physical address of the priority register of source `irq_num`.
pub open spec fn plic_prio_addr(irq_num: usize) -> int {
    PLIC_BASE + 4 * irq_num
}

/// The PLIC registers that enable source `irq_num` for hart 0.
#[derive(Clone, Copy, Debug, PartialEq, Eq, Structural)]
pub struct PlicEnable {
    /// The physical address of the source's priority register.
    pub prio_addr: usize,
    /// The physical address of the enable register holding the source's bit.
    pub sie_addr: usize,
    /// The source's bit in that register.
    pub mask: u32,
}

impl PlicEnable {
    /// The registers of source `irq_num`: its priority register, and bit
    /// `irq_num % 32` of enable register `irq_num / 32` (the number taken to 32 bits).
    pub fn new(irq_num: usize) -> (r: Self)
        requires
            plic_prio_addr(irq_num) <= usize::MAX,
        ensures
            r.prio_addr == plic_prio_addr(irq_num),
            r.sie_addr == PLIC_BASE + PLIC_H0_SIE0_OFFSET + 4 * ((irq_num as u32) / 32),
            r.mask == vstd::arithmetic::power2::pow2(((irq_num as u32) % 32) as nat),
    {
        let n: u32 = #[verifier::truncate] (irq_num as u32);
        let x: u32 = n / 32;
        let y: u32 = n % 32;
        let prio_addr = PLIC_BASE + 4 * irq_num;
        let sie_addr: usize = PLIC_BASE + PLIC_H0_SIE0_OFFSET + 4 * x as usize;
        let mask: u32 = 1u32 << y;
        proof {
            vstd::bits::lemma_u32_pow2_no_overflow(y as nat);
            vstd::bits::lemma_u32_shl_is_mul(1u32, y);
            vstd::arithmetic::power2::lemma_pow2(y as nat);
        }
        PlicEnable { prio_addr, sie_addr, mask }
    }

    /// The enable register value that enables (or disables) the source, over its
    /// current value.
    pub fn sie_update(&self, current: u32, enabled: bool) -> (r: u32)
        ensures
            enabled ==> r == current | self.mask,
            !enabled ==> r == current & !self.mask,
    {
        if enabled {
            current | self.mask
        } else {
            current & !self.mask
        }
    }
}

/// The priority to write when enabling a source, given its current priority:
/// `None` when it already has the enabled priority.
pub fn prio_update(current: u32) -> (r: Option<u32>)
    ensures
        current == PLIC_ENABLED_PRIORITY ==> r is None,
        current != PLIC_ENABLED_PRIORITY ==> r == Some(PLIC_ENABLED_PRIORITY),
{
    if current != PLIC_ENABLED_PRIORITY {
        Some(PLIC_ENABLED_PRIORITY)
    } else {
        None
    }
}

/// The priority every source gets when the hart starts.
pub const PLIC_INIT_PRIORITY: u32 = 1;
/// The priority threshold set when the hart starts: every priority passes.
pub const PLIC_INIT_THRESHOLD: u32 = 0;

/// The sources that are disabled and given [`PLIC_INIT_PRIORITY`] when the hart
/// starts: 1 to `MAX_IRQ_COUNT - 1`, in order (source 0 does not exist).
pub fn percpu_init_sources() -> (r: Vec<u32>)
    ensures
        r@.len() == MAX_IRQ_COUNT - 1,
        forall|i: int| 0 <= i < r@.len() ==> #[trigger] r@[i] == i + 1,
{
    let mut r: Vec<u32> = Vec::new();
    let mut i: u32 = 1;
    while i < MAX_IRQ_COUNT as u32
        invariant
            1 <= i <= MAX_IRQ_COUNT,
            r@.len() == i - 1,
            forall|j: int| 0 <= j < r@.len() ==> #[trigger] r@[j] == j + 1,
        decreases MAX_IRQ_COUNT - i,
    {
        r.push(i);
        i = i + 1;
    }
    r
}

/// The physical address of the priority register of source `irq_num`.
pub fn plic_prio_reg(irq_num: u32) -> (r: usize)
    requires
        plic_prio_addr(irq_num as usize) <= usize::MAX,
    ensures
        r == plic_prio_addr(irq_num as usize),
{
    PLIC_BASE + 4 * irq_num as usize
}

/// The physical address of the supervisor priority-threshold register.
pub fn plic_threshold_reg() -> (r: usize)
    ensures
        r == PLIC_BASE + PLIC_H0_STH_OFFSET,
{
    PLIC_BASE + PLIC_H0_STH_OFFSET
}

/// The physical address of the supervisor claim/complete register.
pub fn plic_claim_reg() -> (r: usize)
    ensures
        r == PLIC_BASE + PLIC_SCLAIM_OFFSET,
{
    PLIC_BASE + PLIC_SCLAIM_OFFSET
}

/// The source to dispatch for a claimed value: `None` when nothing is pending (0).
pub fn claimed_irq(claim: u32) -> (r: Option<usize>)
    ensures
        claim == 0 ==> r is None,
        claim != 0 ==> r == Some(claim as usize),
{
    if claim != 0 {
        Some(claim as usize)
    } else {
        None
    }
}

/// Offset of the interrupt-pending registers.
pub const PLIC_IP0_OFFSET: usize = 0x000_1000;

/// The pending register of source `irq_num` and the source's bit in it, to raise
/// the interrupt by software.
pub fn plic_pending_bit(irq_num: usize) -> (r: (usize, u32))
    requires
        irq_num < MAX_IRQ_COUNT,
    ensures
        r.0 == PLIC_BASE + PLIC_IP0_OFFSET + 4 * (irq_num / 32),
        r.1 == vstd::arithmetic::power2::pow2((irq_num % 32) as nat),
{
    let y = (irq_num % 32) as u32;
    proof {
        vstd::bits::lemma_u32_pow2_no_overflow(y as nat);
        vstd::bits::lemma_u32_shl_is_mul(1u32, y);
    }
    (PLIC_BASE + PLIC_IP0_OFFSET + 4 * (irq_num / 32), 1u32 << y)
}

} // verus!
