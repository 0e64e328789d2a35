# libemu4

A single-hart RV64IMAC machine (the hart, an Sv39 MMU, the CLINT, a PLIC, a
16550-style UART, a syscon and 512 MiB of RAM), written in Verus: every
function of the library carries a contract over a mathematical model of the
machine, and Verus proves the code against it.

- `src/` is the verified library. `machine.rs` holds one cycle of the main
  loop as a function from state to state (`start_cycle`, `run_cycle`), built
  from the decoder (`decode/`), the executor (`exec.rs`), the MMU (`mmu.rs`),
  trap entry (`trap.rs`), the CSR file (`csr/`) and the bus and its devices
  (`bus.rs`, `devices/`). `payload.rs` places the boot images in RAM,
  `trace.rs` turns an executed instruction into a trace row and `cosim.rs`
  compares the hart with a reference model's report. The laws of the
  library (read-after-write of RAM and CSRs, division and stores in
  `exec_laws.rs`, what trap returns restore, the Sv39 leaf rules,
  what every cycle keeps, the MMU's identity and offset rules, the PLIC and
  UART protocols) are public proof functions beside the code they speak of.
- `tests/` runs the library on concrete programs and register values.
- `app/` is the emulator binary: it reads the boot images, runs the cycle
  loop against the host clock and terminal, and writes the Parquet trace
  with `arrow` and `parquet`; `app/cosim.rs` drives the reference model
  through its C interface.
