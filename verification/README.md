# blog_os

A small x86-64 kernel: VGA text output, PS/2 keyboard input, interrupt setup and a
test harness that reports to QEMU.

- `src/` is the verified library (Verus):
  - `vga_buffer`: colours, attribute bytes and the screen writer (cursor, line wrap,
    scrolling, the filter that shows unprintable bytes as a block), with the laws of
    writing text;
  - `keyborad`: the scan code table and the keyboard decoder's state;
  - `interrupts`: PIC offsets, interrupt vectors, the IDT layout and what a key press
    shows on the screen;
  - `gdt`: the global descriptor table's layout and the double fault stack;
  - `lib.rs`: exit codes and the test harness's output.
- `app/` is the kernel binary around it: hardware access (VGA memory, ports, IDT/GDT
  loading, PICs), interrupt handlers and the global state. It needs a nightly
  toolchain and a bare-metal target.
- `tests/` runs the library on concrete values.
