//! Heuristic hardware analyzer: judges the detected processor, memory,
//! graphics card and storage against the minimum and ideal requirements of
//! several workloads, and explains each verdict by its bottleneck.
pub mod engine;
pub mod laws;
pub mod report;
pub mod rules;
pub mod scanner;
pub mod text;

pub use engine::{ComponentDetail, EvalResult, Status, evaluate};
pub use rules::{
    Component, ComponentThreshold, Magnitude, Task, Threshold, component_label, component_unit,
    thresholds_for_task,
};
pub use scanner::{CpuInfo, DiskSample, GpuInfo, HardwareInfo, RamInfo, StorageInfo};
