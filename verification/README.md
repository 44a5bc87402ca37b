# newton_emu

The core of a PowerPC Macintosh emulator, written in Verus: every function in
`src/` carries a contract that Verus proves.

Layout of `src/`:

- `decoder` — PowerPC instruction decoding, against an opcode table stated as
  specification.
- `registers`, `interpreter/` — the register file and the integer, branch,
  system, load/store and AltiVec instructions, each with the exact effect it
  has on the registers and, for loads and stores, the addresses, widths and
  values it hands to memory and how what memory answers decides the result;
  `cpu` — fetch, decode, execute and exceptions;
  `exceptions` — exception entry.
- `altivec/` — the 128-bit vector operations.
- `memory`, `rom`, `rom_patches`, `lzss`, `elf`, `bytes` — the memory map,
  ROM images and their compression, ELF loading.
- `openfirmware/` — the device tree, the client interface and a Forth
  interpreter with an executable model of its semantics.
- `debugger`, `debugger_protocol`, `debugger_ipc`, `cpu_thread` — the
  debugger and the decisions of the debugger channel and of the CPU thread.
- `emulator` — booting a NewWorld ROM and single-threaded stepping.
- `jit/` — code block discovery, the translated-code cache and hot-block
  counting.

`app/` holds what stays outside the proofs: file access, the JSON wire format
of the debugger channel, floating-point arithmetic (scalar and AltiVec), the
shared memory map the CPU reads through, the CPU thread's loop, and the
emulator that wires them together.
