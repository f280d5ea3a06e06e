# arc_emulator

An emulator and assembler for the ARC teaching CPU, with a terminal
interface: a text editor for assembly programs, a file explorer, the
emulator screen with registers, memory and disassembly, settings profiles
and a help guide.

## Layout

- `src/` is the library, verified with Verus.
  - `memory/`: registers and flags, the byte-addressed working memory.
  - `instructions/`: each instruction as a function on the machine state,
    with its meaning as a spec function.
  - `chips/`: the CPU (fetch, decode, execute, run), call stack, I/O
    device, MMU and the instruction queue; `chips/laws.rs` holds the
    encoding and execution laws.
  - `utils/assembler/`: operand and line parsing, the two-pass assembler and
    the instruction encoder.
  - `utils/apps/`: the state of each screen and what each key does to it.
  - `utils/workspaces.rs`: open files, assembling and loading programs.
  - `utils/laws.rs`: laws of the workspace and of the screens.
- `app/` is the terminal program around it: command line, configuration
  files, directory listings and file reads and writes, the event loop and
  drawing. It hands the library plain values (key events, file contents,
  directory listings) and performs the actions the library returns.
- `tests/` runs the library on concrete programs and key sequences.

Floating-point arithmetic is done by the program, not the library: the
CPU's floating-point instructions call a function on the bits of `f32`
values that the caller passes in.
