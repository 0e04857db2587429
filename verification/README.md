# cpu8080

A model of the Intel 8080 processor in Verus. Every instruction is an
executable method whose contract states, over an abstract view of the
machine (`State8080View`), exactly what it does to registers, flags, stack
pointer, program counter and memory.

- `src/flags.rs` — the condition flags and the parity specification.
- `src/semantics.rs` — the abstract state and the meaning of each
  instruction as a function on it.
- `src/state.rs` — `State8080` and its instructions.
- `src/emulate.rs` — opcode decoding: `emulate` runs one instruction,
  `can_emulate` tells whether it may run.
- `src/laws.rs` — properties that span instructions (push/pop, call/return,
  rotations, decimal adjustment, ...).
- `app/main.rs` — a small program that runs one instruction.
