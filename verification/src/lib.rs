//! Verified core of the Starry kernel's eventfd, futex, PLIC and Cvitek
//! network driver logic.

pub mod eventfd;
pub mod futex;
pub mod futex_syscall;
pub mod cvitek_phy;
pub mod mmio;
pub mod cvitek_nic;
pub mod plic;
pub mod dma_remap;
