# IronVeil

IronVeil is a privacy-focused live USB operating system built on the Nexis
kernel. This crate holds its logic as a library verified with Verus: the
functions under `src/` state what they do in `requires` / `ensures`
contracts, and Verus proves them.

## Layout

- `src/nexis_kernel/`: the kernel's state machines: frame allocation, heap
  regions, memory layout and ASLR, the scheduler and its tasks, the timer,
  the PIC, interrupt handling, the system calls and the VGA, keyboard and
  RTC drivers.
- `src/privacy_core/`: MAC address generation and randomisation, network
  interfaces, the Tor service and its circuits, and the chain of network
  hooks that inspects outgoing packets.
- `src/ironveil_ui/`: the terminal interface (menu, status panel, themes),
  the command shell and the system summary.
- `src/build_tools/`: the build configuration, the QEMU command line and
  output scan, and the layout, commands and boot setup of live USB images.
- `src/text.rs`: the text helpers shared by the modules above.
- `app/`: what cannot be verified: hardware access, processes, files,
  terminal output and the loops that drive the library's state machines.
- `tests/`: the test suite, run against the compiled library.

Outside crates are reached through a few trusted items, each with a doc
comment that says what its contract claims of the outside code:
`pc-keyboard` decodes scancodes and `heapless` holds the clock's text.

## Checking

Verus verifies `src/`; `cargo test` runs `tests/`.
