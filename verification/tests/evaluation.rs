use arq_rust::engine::{evaluate_component, evaluate_threshold};
use arq_rust::rules::{make_threshold, ComponentThreshold};
use arq_rust::{
    evaluate, Component, CpuInfo, EvalResult, GpuInfo, HardwareInfo, Magnitude, RamInfo, Status,
    StorageInfo, Task,
};

fn machine(ram_tenths: u64, vram_tenths: Option<u64>, cores: usize, free_tenths: u64) -> HardwareInfo {
    HardwareInfo {
        cpu: CpuInfo {
            brand: "Test CPU".to_string(),
            physical_cores: cores,
            logical_cores: cores * 2,
            frequency_mhz: 3000,
            arch: "x86_64".to_string(),
        },
        ram: RamInfo { total_gb_tenths: ram_tenths, available_gb_tenths: ram_tenths / 2, percent_used_tenths: 500 },
        gpu: vram_tenths.map(|v| GpuInfo {
            name: "Test GPU".to_string(),
            vram_total_gb_tenths: v,
            vram_used_gb_tenths: 0,
            vram_free_gb_tenths: v,
            driver_version: "1.0".to_string(),
        }),
        storage: StorageInfo {
            total_gb_tenths: free_tenths * 2,
            used_gb_tenths: free_tenths as i128,
            free_gb_tenths: free_tenths,
            percent_used_tenths: 500,
        },
    }
}

fn find<'a>(results: &'a [EvalResult], task: Task, magnitude: Magnitude) -> &'a EvalResult {
    results.iter().find(|r| r.task == task && r.magnitude == magnitude).unwrap()
}

#[test]
fn evaluate_component_classifies_against_min_and_ideal() {
    let ct = ComponentThreshold { min: 160, ideal: 320 };
    assert_eq!(evaluate_component(159, &ct), Status::Insuficiente);
    assert_eq!(evaluate_component(160, &ct), Status::Suficiente);
    assert_eq!(evaluate_component(319, &ct), Status::Suficiente);
    assert_eq!(evaluate_component(320, &ct), Status::Optimo);
    assert_eq!(evaluate_component(10_000, &ct), Status::Optimo);
}

#[test]
fn evaluate_component_not_evaluated_is_optimal() {
    let ct = ComponentThreshold { min: 0, ideal: 0 };
    assert_eq!(evaluate_component(0, &ct), Status::Optimo);
    assert!(!ct.is_evaluated());
}

#[test]
fn evaluate_gives_fifteen_results_in_order() {
    let results = evaluate(&machine(156, None, 8, 2500));
    assert_eq!(results.len(), 15);
    let tasks = [Task::IaGenerativa, Task::DataScience, Task::BasesDeDatos, Task::Gaming, Task::UsoGeneral];
    let mags = [Magnitude::Alta, Magnitude::Media, Magnitude::Baja];
    for (i, r) in results.iter().enumerate() {
        assert_eq!(r.task, tasks[i / 3]);
        assert_eq!(r.magnitude, mags[i % 3]);
        assert_eq!(r.details.len(), 4);
        let names: Vec<Component> = r.details.iter().map(|d| d.name).collect();
        assert_eq!(names, vec![Component::Ram, Component::Vram, Component::Cores, Component::Storage]);
    }
    assert_eq!(results[0].description, "Modelos multi-agente, fine-tuning, entrenamiento avanzado");
}

#[test]
fn insufficient_bottleneck_lists_every_insufficient_critical_component() {
    let results = evaluate(&machine(156, None, 8, 2500));
    let r = find(&results, Task::IaGenerativa, Magnitude::Alta);
    assert_eq!(r.overall_status, Status::Insuficiente);
    assert_eq!(r.bottleneck, "RAM: 15.6 GB < 16 GB mín | VRAM (GPU): 0.0 GB < 12 GB mín");
    assert_eq!(r.details[2].status, Status::Suficiente);
    assert_eq!(r.details[2].actual, 80);
}

#[test]
fn optimal_workload_has_no_bottleneck() {
    let results = evaluate(&machine(156, None, 8, 2500));
    let r = find(&results, Task::UsoGeneral, Magnitude::Media);
    assert_eq!(r.overall_status, Status::Optimo);
    assert_eq!(r.bottleneck, "—");
}

#[test]
fn sufficient_bottleneck_lists_components_below_ideal() {
    let results = evaluate(&machine(200, None, 8, 2500));
    let r = find(&results, Task::DataScience, Magnitude::Media);
    assert_eq!(r.overall_status, Status::Suficiente);
    assert_eq!(r.bottleneck, "RAM: 20.0 GB (ideal: 32 GB)");
}

#[test]
fn cores_notes_use_cores_unit() {
    let results = evaluate(&machine(1280, Some(240), 2, 20000));
    let r = find(&results, Task::UsoGeneral, Magnitude::Alta);
    assert_eq!(r.overall_status, Status::Insuficiente);
    assert_eq!(r.bottleneck, "Núcleos CPU: 2.0 núcleos < 4 núcleos mín");
}

#[test]
fn non_critical_components_do_not_decide() {
    // Gaming Baja only counts RAM: no graphics card, one core, no storage.
    let results = evaluate(&machine(80, None, 1, 0));
    let r = find(&results, Task::Gaming, Magnitude::Baja);
    assert_eq!(r.details[1].status, Status::Insuficiente);
    assert_eq!(r.details[3].status, Status::Insuficiente);
    assert_eq!(r.overall_status, Status::Optimo);
    assert_eq!(r.bottleneck, "—");
}

#[test]
fn unevaluated_component_shows_not_applicable() {
    let results = evaluate(&machine(640, None, 16, 20000));
    let r = find(&results, Task::BasesDeDatos, Magnitude::Alta);
    assert_eq!(r.details[1].min, 0);
    assert_eq!(r.details[1].status, Status::Optimo);
    assert_eq!(r.details[1].cell_text(), "N/A");
    assert_eq!(r.details[0].cell_text(), "🟢 ÓPTIMO");
}

#[test]
fn one_insufficient_critical_component_makes_the_workload_insufficient() {
    let results = evaluate(&machine(1280, Some(240), 16, 50));
    let r = find(&results, Task::BasesDeDatos, Magnitude::Baja);
    assert_eq!(r.overall_status, Status::Insuficiente);
    assert_eq!(r.bottleneck, "Almacenamiento: 5.0 GB < 100 GB mín");
}

#[test]
fn bottleneck_is_dash_exactly_when_optimal() {
    for hw in [machine(0, None, 0, 0), machine(156, None, 8, 2500), machine(200, Some(80), 6, 3000), machine(2000, Some(300), 32, 30000)] {
        for r in evaluate(&hw) {
            assert_eq!(r.bottleneck == "—", r.overall_status == Status::Optimo);
        }
    }
}

#[test]
fn overall_is_worst_critical_status() {
    let hw = machine(200, Some(80), 6, 3000);
    for r in evaluate(&hw) {
        let th = make_threshold(r.task, r.magnitude);
        let worst = r
            .details
            .iter()
            .filter(|d| th.critical_components.contains(&d.name))
            .map(|d| d.status)
            .min()
            .unwrap_or(Status::Optimo);
        assert_eq!(r.overall_status, worst);
    }
}

#[test]
fn more_hardware_is_never_worse() {
    let small = evaluate(&machine(156, None, 4, 500));
    let big = evaluate(&machine(320, Some(120), 8, 5000));
    for (s, b) in small.iter().zip(big.iter()) {
        assert!(s.overall_status <= b.overall_status);
        for (ds, db) in s.details.iter().zip(b.details.iter()) {
            assert!(ds.status <= db.status);
        }
    }
}

#[test]
fn evaluate_threshold_matches_evaluate() {
    let hw = machine(156, None, 8, 2500);
    let th = make_threshold(Task::Gaming, Magnitude::Media);
    let r = evaluate_threshold(&hw, &th);
    assert_eq!(r.overall_status, Status::Insuficiente);
    assert_eq!(r.bottleneck, "VRAM (GPU): 0.0 GB < 4 GB mín");
}

#[test]
fn status_texts() {
    assert_eq!(Status::Insuficiente.label(), "INSUFICIENTE");
    assert_eq!(Status::Suficiente.label(), "SUFICIENTE");
    assert_eq!(Status::Optimo.label(), "ÓPTIMO");
    assert_eq!(Status::Insuficiente.emoji(), "🔴");
    assert_eq!(Status::Suficiente.emoji(), "🟡");
    assert_eq!(Status::Optimo.emoji(), "🟢");
    assert_eq!(Status::Suficiente.to_string(), "🟡 SUFICIENTE");
    assert_eq!(Status::Insuficiente.rank(), 0);
    assert_eq!(Status::Optimo.rank(), 2);
}

#[test]
fn lighter_magnitude_is_never_worse() {
    for hw in [machine(40, None, 2, 300), machine(156, None, 8, 2500), machine(200, Some(60), 6, 1500)] {
        let results = evaluate(&hw);
        for t in 0..5 {
            let (alta, media, baja) = (&results[3 * t], &results[3 * t + 1], &results[3 * t + 2]);
            assert!(alta.overall_status <= media.overall_status);
            assert!(media.overall_status <= baja.overall_status);
            for c in 0..4 {
                assert!(alta.details[c].status <= media.details[c].status);
                assert!(media.details[c].status <= baja.details[c].status);
            }
        }
    }
}

#[test]
fn workload_critical_components_follow_the_most_demanding_magnitude() {
    for i in 0..5 {
        let t = Task::at(i);
        let alta = make_threshold(t, Magnitude::Alta);
        for m in [Magnitude::Media, Magnitude::Baja] {
            let th = make_threshold(t, m);
            assert!(th.critical_components.iter().all(|c| alta.critical_components.contains(c)));
        }
    }
    assert_eq!(make_threshold(Task::BasesDeDatos, Magnitude::Alta).critical_components, vec![Component::Ram, Component::Cores, Component::Storage]);
}

#[test]
fn no_graphics_card_means_zero_vram() {
    let hw = machine(160, None, 4, 1000);
    assert_eq!(hw.actual(Component::Vram), 0);
    let results = evaluate(&hw);
    assert_eq!(find(&results, Task::Gaming, Magnitude::Alta).details[1].actual, 0);
}

#[test]
fn detail_panel_texts() {
    let results = evaluate(&machine(156, None, 8, 2500));
    let r = find(&results, Task::IaGenerativa, Magnitude::Alta);
    assert_eq!(r.panel_title(), "IA Generativa — Carga Alta");
    assert_eq!(r.details[0].actual_text(), "15.6 GB");
    assert_eq!(r.details[0].min_text(), "16 GB");
    assert_eq!(r.details[0].ideal_text(), "128 GB");
    assert_eq!(r.details[2].actual_text(), "8.0 núcleos");
    assert!(r.details[0].is_evaluated());
    let bd = find(&results, Task::BasesDeDatos, Magnitude::Alta);
    assert!(!bd.details[1].is_evaluated());
}

#[test]
fn only_critical_components_decide() {
    // Gaming Media counts RAM and VRAM only: cores and storage do not matter.
    let a = evaluate(&machine(120, Some(60), 1, 0));
    let b = evaluate(&machine(120, Some(60), 32, 90000));
    let ra = find(&a, Task::Gaming, Magnitude::Media);
    let rb = find(&b, Task::Gaming, Magnitude::Media);
    assert_eq!(ra.overall_status, rb.overall_status);
    assert_eq!(ra.bottleneck, rb.bottleneck);
    assert_eq!(ra.bottleneck, "RAM: 12.0 GB (ideal: 16 GB) | VRAM (GPU): 6.0 GB (ideal: 8 GB)");
}
