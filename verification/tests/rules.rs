use arq_rust::rules::{thresholds, Component, Magnitude, Task};
use arq_rust::{component_label, component_unit, thresholds_for_task};

#[test]
fn component_labels() {
    assert_eq!(component_label("ram"), "RAM");
    assert_eq!(component_label("vram"), "VRAM (GPU)");
    assert_eq!(component_label("cores"), "Núcleos CPU");
    assert_eq!(component_label("storage"), "Almacenamiento");
    assert_eq!(component_label("disk"), "disk");
    assert_eq!(component_label(""), "");
}

#[test]
fn component_units() {
    assert_eq!(component_unit("cores"), "núcleos");
    assert_eq!(component_unit("ram"), "GB");
    assert_eq!(component_unit("anything"), "GB");
}

#[test]
fn thresholds_for_known_task_in_magnitude_order() {
    let ts = thresholds_for_task("Gaming");
    assert_eq!(ts.len(), 3);
    assert_eq!(ts[0].magnitude, Magnitude::Alta);
    assert_eq!(ts[1].magnitude, Magnitude::Media);
    assert_eq!(ts[2].magnitude, Magnitude::Baja);
    assert!(ts.iter().all(|t| t.task == Task::Gaming));
    assert_eq!(ts[0].ram.min, 160);
    assert_eq!(ts[0].ram.ideal, 320);
    assert_eq!(ts[1].description, "Juegos AAA a 1080p/High, e-sports competitivo");
    assert_eq!(ts[2].critical_components, vec![Component::Ram]);
}

#[test]
fn thresholds_for_unknown_task_is_empty() {
    assert!(thresholds_for_task("Minería").is_empty());
    assert!(thresholds_for_task("gaming").is_empty());
}

#[test]
fn get_component_by_name() {
    let ts = thresholds_for_task("IA Generativa");
    let vram = ts[0].get_component("vram").unwrap();
    assert_eq!(vram.min, 120);
    assert_eq!(vram.ideal, 240);
    assert_eq!(ts[0].get_component("storage").unwrap().ideal, 5000);
    assert!(ts[0].get_component("gpu").is_none());
}

#[test]
fn table_is_well_formed() {
    let table = thresholds();
    assert_eq!(table.len(), 15);
    for t in &table {
        for c in [Component::Ram, Component::Vram, Component::Cores, Component::Storage] {
            let ct = t.component(c);
            assert!(ct.min <= ct.ideal);
        }
        assert!(t.critical_components.contains(&Component::Ram));
    }
}

#[test]
fn names_round_trip() {
    for c in [Component::Ram, Component::Vram, Component::Cores, Component::Storage] {
        assert_eq!(Component::from_name(c.name()), Some(c));
    }
    for i in 0..5 {
        let t = Task::at(i);
        assert_eq!(Task::from_name(t.name()), Some(t));
    }
    assert_eq!(Task::from_name("Uso general"), None);
    assert_eq!(Magnitude::at(1).name(), "Media");
}
