use arq_rust::scanner::{path_is_root, select_disk, GIB};
use arq_rust::{CpuInfo, DiskSample, GpuInfo, HardwareInfo, RamInfo, StorageInfo};

fn disk(mount: &str, total_gib: u64, free_gib: u64) -> DiskSample {
    DiskSample { mount_point: mount.to_string(), total_space: total_gib * GIB, available_space: free_gib * GIB }
}

#[test]
fn ram_from_memory() {
    let r = RamInfo::from_memory(16 * GIB, 8 * GIB, 4 * GIB);
    assert_eq!(r.total_gb_tenths, 160);
    assert_eq!(r.available_gb_tenths, 80);
    assert_eq!(r.percent_used_tenths, 250);
}

#[test]
fn ram_rounding_halves_up_and_zero_total() {
    let r = RamInfo::from_memory(GIB / 4 * 3, GIB / 100, 0);
    assert_eq!(r.total_gb_tenths, 8); // 0.75 GB
    assert_eq!(r.available_gb_tenths, 0); // 0.01 GB
    let z = RamInfo::from_memory(0, 0, 5);
    assert_eq!(z.percent_used_tenths, 0);
}

#[test]
fn storage_prefers_root_disk() {
    let s = StorageInfo::from_disks(&vec![disk("/boot", 500, 500), disk("/", 100, 40), disk("/", 900, 1)]);
    assert_eq!(s.total_gb_tenths, 1000);
    assert_eq!(s.free_gb_tenths, 400);
    assert_eq!(s.used_gb_tenths, 600);
    assert_eq!(s.percent_used_tenths, 600);
}

#[test]
fn storage_without_root_takes_last_largest() {
    let disks = vec![disk("/a", 200, 10), disk("/b", 300, 20), disk("/c", 300, 30), disk("/d", 100, 5)];
    assert_eq!(select_disk(&disks), Some(2));
    let s = StorageInfo::from_disks(&disks);
    assert_eq!(s.free_gb_tenths, 300);
}

#[test]
fn storage_without_disks_is_zero() {
    let s = StorageInfo::from_disks(&vec![]);
    assert_eq!(s.total_gb_tenths, 0);
    assert_eq!(s.used_gb_tenths, 0);
    assert_eq!(s.free_gb_tenths, 0);
    assert_eq!(s.percent_used_tenths, 0);
    assert_eq!(select_disk(&vec![]), None);
}

#[test]
fn storage_with_more_free_than_total_is_negative() {
    let s = StorageInfo::from_disk(GIB, 2 * GIB);
    assert_eq!(s.used_gb_tenths, -10);
    assert_eq!(s.percent_used_tenths, -1000);
}

#[test]
fn cpu_defaults() {
    let c = CpuInfo::from_readings(None, None, None, 0, "x86_64".to_string());
    assert_eq!(c.brand, "Desconocido");
    assert_eq!(c.frequency_mhz, 0);
    assert_eq!(c.physical_cores, 1);
    assert_eq!(c.logical_cores, 1);
    let d = CpuInfo::from_readings(Some("Ryzen".to_string()), Some(3600), Some(6), 12, "x86_64".to_string());
    assert_eq!(d.brand, "Ryzen");
    assert_eq!(d.physical_cores, 6);
    assert_eq!(d.logical_cores, 12);
}

#[test]
fn gpu_defaults_and_sizes() {
    let g = GpuInfo::from_readings(None, 12 * GIB, 3 * GIB, 9 * GIB, None);
    assert_eq!(g.name, "NVIDIA GPU");
    assert_eq!(g.driver_version, "N/A");
    assert_eq!(g.vram_total_gb_tenths, 120);
    assert_eq!(g.vram_used_gb_tenths, 30);
    assert_eq!(g.vram_free_gb_tenths, 90);
}

#[test]
fn actual_values() {
    let mut hw = HardwareInfo {
        cpu: CpuInfo::from_readings(None, None, Some(8), 16, "x86_64".to_string()),
        ram: RamInfo::from_memory(16 * GIB, 8 * GIB, 8 * GIB),
        gpu: None,
        storage: StorageInfo::from_disk(500 * GIB, 250 * GIB),
    };
    assert_eq!(hw.actual_value("ram"), 160);
    assert_eq!(hw.actual_value("vram"), 0);
    assert_eq!(hw.actual_value("cores"), 80);
    assert_eq!(hw.actual_value("storage"), 2500);
    assert_eq!(hw.actual_value("disk"), 0);
    hw.gpu = Some(GpuInfo::from_readings(None, 8 * GIB, 0, 8 * GIB, None));
    assert_eq!(hw.actual_value("vram"), 80);
}

#[test]
fn root_is_recognised_by_path_components() {
    assert!(path_is_root("/"));
    assert!(path_is_root("//"));
    assert!(path_is_root("/."));
    assert!(path_is_root("/./"));
    assert!(!path_is_root("/.."));
    assert!(!path_is_root("/boot"));
    assert!(!path_is_root("."));
    assert!(!path_is_root(""));
    assert!(!path_is_root("/.x"));
    let disks = vec![disk("/data", 900, 10), disk("//", 100, 40)];
    assert_eq!(select_disk(&disks), Some(1));
}
