# lib: a verified core for a small Raspberry Pi kernel

The crate holds the computing side of a bare-metal AArch64 kernel for the
Raspberry Pi 3 and 4, written in Verus and proved against its contracts.

- `src/` is the verified library. Hardware access is described, not performed:
  functions return the register writes, reads and waits that a driver has to do
  (`RegisterWrite`, `RegisterRead`, `Step`, `DmaStep`, `GpioStep`, ...) and decide
  what comes next from the values read back.
  - `bits`: bit and field access on register words, with the lemmas the other
    modules use.
  - `mmu`, `mmu/descriptors`, `registers`: translation-table descriptors, the
    kernel's identity-mapped tables (proved to map every address below 8 GB to
    itself), the MAIR, TCR, TTBR and SCTLR values that turn the MMU on, MAIR
    attribute encodings.
  - `peripherals`: GPIO, UART, DMA, interrupt controller, system timer, power and
    USB core registers, and the property mailbox framing.
  - `hal`: board information, clocks, framebuffer, EDID display data, LED, the
    generic counter, thread ids.
  - `monitor`: the serial memory monitor (line editing, command parsing, hex
    output).
  - `exception`, `arm_core`, `system`, `screen`: exception syndromes, IRQ
    decisions, boot-time decisions and palettes.
- `tests/` runs the library on concrete values.
- `app/` is the thin hardware layer: volatile register access, system registers,
  the mailbox exchange with the firmware and the loops that wait on hardware.
