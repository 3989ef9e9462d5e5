# starry

The logic of a few Starry/ArceOS kernel components, written in Verus with
contracts and proved:

- `eventfd`: the eventfd counter and the steps of blocking file reads and writes.
- `futex`, `futex_syscall`: futex keys, the table of waiting tasks (enqueue,
  unqueue, wake, requeue, clearing an exited task), the decisions of the futex
  wait loop, and the robust-list records.
- `cvitek_nic`, `cvitek_phy`, `mmio`: the Cvitek GMAC descriptor rings and the PHY's
  MDIO commands, discovery, reset and configuration program.
- `plic`, `dma_remap`: trap causes, handler registration, PLIC register
  addresses and values, and the DMA handshake remap values.

`app/` performs what the library plans: register and user memory accesses, the
scheduler, and the driver entry points.

The Starfive NIC driver is not part of this crate: each step of its bring-up,
receive and transmit is a call into the `starfive_eth` crate, and no logic of its
own stands between those calls.
