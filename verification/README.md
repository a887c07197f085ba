# rs65x

Cycle-stepped 6502-family cores (NMOS 6502, NES 2A03, Synertek, Rockwell and WDC 65C02)
written in Verus. Each call to `step` runs one bus cycle; the contracts say which access the
cycle makes, what it does to the registers and latches, and when an instruction ends.

## Layout

- `src/alu.rs` — binary and decimal ADC/SBC, shifts, rotates, INC/DEC, TSB/TRB, specified
  over integers, with the decimal laws (BCD sums and differences, NMOS/CMOS agreement).
- `src/isa/` — addressing modes and the micro-cycles each one emits (`mod.rs`), the
  micro-cycle queue (`microcycle.rs`), the executor that runs one cycle against a register
  context (`op.rs`), and the opcode maps of the supported parts (`table.rs`).
- `src/cpu6502/` — per-part behaviour (`flavor.rs`), instruction semantics on the register
  file (`ops.rs`), the executor context (`context.rs`) and the core itself (`mod.rs`).
- `src/bus/` — the `Bus` trait, which keeps a record of the accesses made on a bus and of the
  lines sampled from it, and two buses: a flat 64 KiB RAM (`simple.rs`) and a page-mapped bus
  whose RAM and ROM pages are the caller's own memory, borrowed while the bus lives
  (`fastmap.rs`).
- `tests/` — instruction-level scenarios with a logging bus, and tests of each module.

Run `verus` on `src/lib.rs` to check the proofs.
