# sys-stats

A taskbar overlay for Windows that shows processor, memory and graphics-card
readings as text and small graphs.

- `src/` is the verified library: the metric registry (`metric`), the bounded
  queue of recent readings and rectangle geometry (`util`), widget widths and
  the row layout (`widget`, `render`), the overlay's placement and the window
  procedure's decisions (`window`), and the memory size conversion
  (`monitor::ram`).
- `app/` is the Windows program around it: reading the system through
  `sysinfo` and `all-smi`, drawing with Direct2D and DirectWrite, and the
  message loop.
- `tests/` runs the library on concrete values.
