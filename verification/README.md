# rk3399os

Register-level logic of a small AArch64 kernel and of the SD-card boot
loader that downloads it, for the Firefly RK3399 board, verified with Verus.

Each device routine is a *register program*: a sequence of `mmio::RegOp`
(stores, read-modify-writes and polls) whose contract states exactly what it
does to which register. Bitfield encodings are computed by `tock-registers`;
register values the hardware supplies (status registers, counters, the
received byte) are arguments of the routines that decide on them.

- `src/bitfield.rs` — the bitfield algebra and its laws.
- `src/mmio.rs` — register operations and their effect on a memory image.
- `src/rk3399/` — the board map, pin multiplexing, timers as basic timers.
- `src/loader/` — the loader: UART, timers, GIC, drivers, the download
  protocol, interrupt dispatch.
- `src/irq.rs` — the interrupt handler table.
- `src/arm/` — the generic timer and the kernel's GICv3 handling.
- `src/drivers/` — the kernel's device interfaces.
- `src/kernel/` — processes, the round-robin scheduler, the line shell,
  the memory dump text.
- `app/` — the two programs: the executor of register programs, system
  registers, and the loops that feed hardware values to the library.
