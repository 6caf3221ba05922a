use arq_rust::report::{box_frame, cpu_summary, format_gb, gpu_summary, progress_bar, ram_summary, storage_summary};
use arq_rust::text::{format_fixed_tenths, format_short_tenths, join, repeat_str, split_lines, str_equal};
use arq_rust::{CpuInfo, GpuInfo, RamInfo, StorageInfo};

#[test]
fn gigabytes_and_terabytes() {
    assert_eq!(format_gb(156), "15.6 GB");
    assert_eq!(format_gb(0), "0.0 GB");
    assert_eq!(format_gb(9999), "999.9 GB");
    assert_eq!(format_gb(10000), "1.0 TB");
    assert_eq!(format_gb(12345), "1.2 TB");
    assert_eq!(format_gb(18750), "1.9 TB");
}

#[test]
fn terabyte_ties_round_to_even() {
    assert_eq!(format_gb(12500), "1.2 TB");
    assert_eq!(format_gb(17500), "1.8 TB");
    assert_eq!(format_gb(22500), "2.2 TB");
    assert_eq!(format_gb(12501), "1.3 TB");
    assert_eq!(format_gb(12499), "1.2 TB");
}

#[test]
fn progress_bars() {
    assert_eq!(progress_bar(50, 100, 10), "█████░░░░░ 50%");
    assert_eq!(progress_bar(200, 100, 4), "████ 100%");
    assert_eq!(progress_bar(0, 100, 3), "░░░ 0%");
    assert_eq!(progress_bar(156, 1280, 20), "██░░░░░░░░░░░░░░░░░░ 12%");
    assert_eq!(progress_bar(5, 0, 20), "N/A");
}

#[test]
fn tenths_formatting() {
    assert_eq!(format_fixed_tenths(156), "15.6");
    assert_eq!(format_fixed_tenths(7), "0.7");
    assert_eq!(format_short_tenths(160), "16");
    assert_eq!(format_short_tenths(25), "2.5");
    assert_eq!(format_short_tenths(0), "0");
}

#[test]
fn text_helpers() {
    assert!(str_equal("Gaming", "Gaming"));
    assert!(!str_equal("Gaming", "Gamin"));
    assert_eq!(join(&vec!["a".to_string(), "b".to_string(), "c".to_string()], " | "), "a | b | c");
    assert_eq!(join(&vec![], " | "), "");
    assert_eq!(repeat_str("ab", 3), "ababab");
    assert_eq!(split_lines("a\nb\r\n\nc"), vec!["a", "b", "", "c"]);
    assert_eq!(split_lines("a\n"), vec!["a"]);
    assert_eq!(split_lines(""), Vec::<String>::new());
    assert_eq!(split_lines("x\r"), vec!["x\r"]);
}

#[test]
fn framed_box() {
    let b = box_frame("T", "ab\ncde");
    // longest line 3, title 1 + 4 = 5, inner width 9
    assert_eq!(b.top, "╭─ T ────╮");
    assert_eq!(b.bottom, "╰─────────╯");
    assert_eq!(b.body, vec!["│ ab       │".to_string(), "│ cde      │".to_string()]);
    let e = box_frame("Vacío", "");
    assert_eq!(e.body.len(), 0);
    assert_eq!(e.bottom.chars().count(), 46);
}

#[test]
fn hardware_panels() {
    let cpu = CpuInfo::from_readings(Some("Ryzen 5".to_string()), Some(3600), Some(6), 12, "x86_64".to_string());
    assert_eq!(
        cpu_summary(&cpu),
        "  Modelo:          Ryzen 5\n  Núcleos Físicos: 6\n  Núcleos Lógicos: 12\n  Frecuencia:      3600 MHz\n  Arquitectura:    x86_64"
    );
    let ram = RamInfo { total_gb_tenths: 156, available_gb_tenths: 72, percent_used_tenths: 538 };
    assert_eq!(ram_summary(&ram), "  Total:      15.6 GB\n  Disponible: 7.2 GB\n  En uso:     53.8%");
    assert_eq!(gpu_summary(&None), "  Estado: No se detectó GPU NVIDIA\n  VRAM:   0 GB");
    let gpu = GpuInfo::from_readings(Some("RTX".to_string()), 12 * 1073741824, 0, 12 * 1073741824, Some("550".to_string()));
    assert_eq!(gpu_summary(&Some(gpu)), "  Modelo:     RTX\n  VRAM Total: 12.0 GB\n  VRAM Libre: 12.0 GB\n  Driver:     550");
    let st = StorageInfo { total_gb_tenths: 20000, used_gb_tenths: 5000, free_gb_tenths: 15000, percent_used_tenths: 250 };
    assert_eq!(storage_summary(&st), "  Total:  2.0 TB\n  Libre:  1.5 TB\n  En uso: 25.0%");
    let neg = StorageInfo { total_gb_tenths: 10, used_gb_tenths: -10, free_gb_tenths: 20, percent_used_tenths: -1000 };
    assert_eq!(storage_summary(&neg), "  Total:  1.0 GB\n  Libre:  2.0 GB\n  En uso: -100.0%");
}
