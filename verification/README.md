# arq_rust

Heuristic hardware analyzer. It reads the processor, memory, NVIDIA graphics
card and main disk of the machine and judges them, for five workloads at three
magnitudes each, against minimum and ideal thresholds: a component below its
minimum is INSUFICIENTE, one at or above its ideal is ÓPTIMO, and anything in
between is SUFICIENTE. A workload gets the worst verdict of its critical
components, and its bottleneck names the components that hold it back.

Quantities are integers in tenths of their unit (tenths of a gigabyte, tenths
of a core, tenths of a percent), so every rule and every piece of text is
computed exactly.

Layout:

- `src/rules.rs`: components, workloads, magnitudes and the threshold table.
- `src/scanner.rs`: the hardware readings and how raw readings (bytes, core
  counts, disk lists) become them.
- `src/engine.rs`: the evaluation and the bottleneck text.
- `src/report.rs`: sizes, progress bars, framed boxes and the hardware panels.
- `src/text.rs`: string comparison, decimal rendering, joining and splitting.
- `src/laws.rs`: properties of the table and of the evaluation as a whole.
- `app/`: the program that reads the machine (`sysinfo`, `nvml-wrapper`) and
  prints the report (`colored`, `comfy-table`, `chrono`).
