# kernel

The decision-making core of a small x86_64 hobby kernel, with machine-checked
contracts and proofs.

- `src/` — the verified library: late-initialised cells (`late_init`), the
  pixel layouts of the bootloader framebuffer (`display`, `fb`, `graphical`),
  the firmware framebuffer and graphics-mode choice (`framebuffer`), the text
  cursors of the consoles (`log`, `logger`), keyboard decoding and line
  editing (`keyboard`), the double-fault stack address (`interrupts`), QEMU's
  exit codes and command line (`qemu_exit`, `qemu`).
- `app/` — the hardware glue around it: memory-mapped framebuffer, serial
  port, PS/2 port, descriptor tables, the `log` facade and the QEMU runner.
- `tests/` — tests of the library on concrete values.
