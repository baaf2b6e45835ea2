# skyarch

The core of the Skyarch 32-bit processor, verified with Verus.

- `src/except.rs` — the exceptions and their vector numbers.
- `src/regs.rs` — the sixteen register maps and the rules for reading and
  writing them, the condition flags, and the I/O shift registers.
- `src/intr.rs` — the interrupt control, return and table registers.
- `src/instr.rs` — instruction fields, the decoder and the validity checks.
- `src/cpu.rs` — the step function: executing one instruction updates the
  registers, flags and core state and returns what the emulator around the
  core still has to do (memory and port accesses, ALU flags, randomness,
  halting), plus exception entry.
- `app/lib.rs` — the glue to the emulator framework that runs the core.
- `tests/` — unit tests, and whole-program runs through a small ROM harness.

Every operation keeps the register invariant (`regs_wf`): general purpose
register 0 reads as zero, the reserved interrupt-control bits stay clear, the
interrupt table stays 8-byte aligned, and only available coprocessors are
enabled.
